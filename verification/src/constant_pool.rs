//! The runtime constant pool of a class and the resolution of its entries.
use crate::error::{raises_with_message, ExceptionMessage, JavaExceptionFromJvm, JavaExceptionKind, JvmError};
use crate::interner::{intern, interned_strings};
use crate::keys::Symbol;
use crate::text::{decimal, push_decimal, push_str};
use lasso::ThreadedRodeo;
use vstd::prelude::*;

verus! {

/// The kind of a runtime constant pool entry.
#[derive(Debug, PartialEq, Eq, Copy, Clone, Structural)]
pub enum RuntimeConstantType {
    Unused,
    Utf8,
    Integer,
    Float,
    Long,
    Double,
    Class,
    String,
    Method,
    Field,
    InvokeDynamic,
    InterfaceMethod,
    NameAndType,
    MethodNameAndType,
    FieldNameAndType,
    MethodType,
    MethodHandle,
}

/// The name of a constant kind, as messages show it.
pub open spec fn constant_type_name(t: RuntimeConstantType) -> Seq<char> {
    match t {
        RuntimeConstantType::Unused => "Unused"@,
        RuntimeConstantType::Utf8 => "Utf8"@,
        RuntimeConstantType::Integer => "Integer"@,
        RuntimeConstantType::Float => "Float"@,
        RuntimeConstantType::Long => "Long"@,
        RuntimeConstantType::Double => "Double"@,
        RuntimeConstantType::Class => "Class"@,
        RuntimeConstantType::String => "String"@,
        RuntimeConstantType::Method => "Method"@,
        RuntimeConstantType::Field => "Field"@,
        RuntimeConstantType::InvokeDynamic => "InvokeDynamic"@,
        RuntimeConstantType::InterfaceMethod => "InterfaceMethod"@,
        RuntimeConstantType::NameAndType => "NameAndType"@,
        RuntimeConstantType::MethodNameAndType => "MethodNameAndType"@,
        RuntimeConstantType::FieldNameAndType => "FieldNameAndType"@,
        RuntimeConstantType::MethodType => "MethodType"@,
        RuntimeConstantType::MethodHandle => "MethodHandle"@,
    }
}

impl RuntimeConstantType {
    /// The name of the kind, such as `MethodHandle`.
    pub fn name(self) -> (r: &'static str)
        ensures
            r@ == constant_type_name(self),
    {
        match self {
            RuntimeConstantType::Unused => "Unused",
            RuntimeConstantType::Utf8 => "Utf8",
            RuntimeConstantType::Integer => "Integer",
            RuntimeConstantType::Float => "Float",
            RuntimeConstantType::Long => "Long",
            RuntimeConstantType::Double => "Double",
            RuntimeConstantType::Class => "Class",
            RuntimeConstantType::String => "String",
            RuntimeConstantType::Method => "Method",
            RuntimeConstantType::Field => "Field",
            RuntimeConstantType::InvokeDynamic => "InvokeDynamic",
            RuntimeConstantType::InterfaceMethod => "InterfaceMethod",
            RuntimeConstantType::NameAndType => "NameAndType",
            RuntimeConstantType::MethodNameAndType => "MethodNameAndType",
            RuntimeConstantType::FieldNameAndType => "FieldNameAndType",
            RuntimeConstantType::MethodType => "MethodType",
            RuntimeConstantType::MethodHandle => "MethodHandle",
        }
    }
}

/// A method handle constant: how it refers, and the pool index it refers to.
#[derive(Debug, Clone, Copy, PartialEq, Eq, Structural)]
pub enum MethodHandleType {
    GetField(u16),
    GetStatic(u16),
    PutField(u16),
    PutStatic(u16),
    InvokeVirtual(u16),
    InvokeStatic(u16),
    InvokeSpecial(u16),
    NewInvokeSpecial(u16),
    InvokeInterface(u16),
}

/// A resolved entry of the runtime constant pool. `Float` and `Double` hold
/// the IEEE 754 bit pattern of the number.
pub enum RuntimeConstant {
    Unused,
    Utf8(String),
    Integer(i32),
    Float(u32),
    Long(i64),
    Double(u64),
    Class { name_idx: u16 },
    String { string_idx: u16 },
    Method { class_idx: u16, nat_idx: u16 },
    Field { class_idx: u16, nat_idx: u16 },
    InvokeDynamic { bootstrap_idx: u16, nat_idx: u16 },
    InterfaceMethod { class_idx: u16, nat_idx: u16 },
    NameAndType { name_idx: u16, descriptor_idx: u16 },
    MethodType,
    MethodHandle(MethodHandleType),
}

/// The kind of a constant.
pub open spec fn type_of_constant(c: RuntimeConstant) -> RuntimeConstantType {
    match c {
        RuntimeConstant::Unused => RuntimeConstantType::Unused,
        RuntimeConstant::Utf8(_) => RuntimeConstantType::Utf8,
        RuntimeConstant::Integer(_) => RuntimeConstantType::Integer,
        RuntimeConstant::Float(_) => RuntimeConstantType::Float,
        RuntimeConstant::Long(_) => RuntimeConstantType::Long,
        RuntimeConstant::Double(_) => RuntimeConstantType::Double,
        RuntimeConstant::Class { .. } => RuntimeConstantType::Class,
        RuntimeConstant::String { .. } => RuntimeConstantType::String,
        RuntimeConstant::Method { .. } => RuntimeConstantType::Method,
        RuntimeConstant::Field { .. } => RuntimeConstantType::Field,
        RuntimeConstant::InterfaceMethod { .. } => RuntimeConstantType::InterfaceMethod,
        RuntimeConstant::NameAndType { .. } => RuntimeConstantType::NameAndType,
        RuntimeConstant::InvokeDynamic { .. } => RuntimeConstantType::InvokeDynamic,
        RuntimeConstant::MethodType => RuntimeConstantType::MethodType,
        RuntimeConstant::MethodHandle(_) => RuntimeConstantType::MethodHandle,
    }
}

impl RuntimeConstant {
    /// The kind of this constant.
    pub fn get_type(&self) -> (r: RuntimeConstantType)
        ensures
            r == type_of_constant(*self),
    {
        match self {
            RuntimeConstant::Unused => RuntimeConstantType::Unused,
            RuntimeConstant::Utf8(_) => RuntimeConstantType::Utf8,
            RuntimeConstant::Integer(_) => RuntimeConstantType::Integer,
            RuntimeConstant::Float(_) => RuntimeConstantType::Float,
            RuntimeConstant::Long(_) => RuntimeConstantType::Long,
            RuntimeConstant::Double(_) => RuntimeConstantType::Double,
            RuntimeConstant::Class { .. } => RuntimeConstantType::Class,
            RuntimeConstant::String { .. } => RuntimeConstantType::String,
            RuntimeConstant::Method { .. } => RuntimeConstantType::Method,
            RuntimeConstant::Field { .. } => RuntimeConstantType::Field,
            RuntimeConstant::InterfaceMethod { .. } => RuntimeConstantType::InterfaceMethod,
            RuntimeConstant::NameAndType { .. } => RuntimeConstantType::NameAndType,
            RuntimeConstant::InvokeDynamic { .. } => RuntimeConstantType::InvokeDynamic,
            RuntimeConstant::MethodType => RuntimeConstantType::MethodType,
            RuntimeConstant::MethodHandle(_) => RuntimeConstantType::MethodHandle,
        }
    }
}


/// A constant as a class file gives it, before the pool resolves it.
/// `Float` and `Double` hold the IEEE 754 bit pattern of the number.
pub enum ConstantInfo {
    Unused,
    Utf8(String),
    Integer(i32),
    Float(u32),
    Long(i64),
    Double(u64),
    Class(u16),
    String(u16),
    MethodRef { class_index: u16, name_and_type_index: u16 },
    FieldRef { class_index: u16, name_and_type_index: u16 },
    NameAndType { name_index: u16, descriptor_index: u16 },
    InterfaceMethodRef { class_index: u16, name_and_type_index: u16 },
    InvokeDynamic { bootstrap_method_attr_index: u16, name_and_type_index: u16 },
    MethodType(u16),
    MethodHandle { reference_kind: u8, reference_index: u16 },
    Dynamic { bootstrap_method_attr_index: u16, name_and_type_index: u16 },
    Module(u16),
    Package(u16),
}

/// An entry of the `BootstrapMethods` attribute.
#[derive(Clone)]
pub struct BootstrapMethodEntry {
    pub bootstrap_method_idx: u16,
    pub bootstrap_arguments: Vec<u16>,
}

/// The handle kinds the pool supports, by their class-file reference kind.
pub open spec fn handle_of_kind(kind: u8, idx: u16) -> MethodHandleType {
    if kind == 1 { MethodHandleType::GetField(idx) }
    else if kind == 2 { MethodHandleType::GetStatic(idx) }
    else if kind == 3 { MethodHandleType::PutField(idx) }
    else if kind == 4 { MethodHandleType::PutStatic(idx) }
    else if kind == 5 { MethodHandleType::InvokeVirtual(idx) }
    else if kind == 6 { MethodHandleType::InvokeStatic(idx) }
    else if kind == 7 { MethodHandleType::InvokeSpecial(idx) }
    else if kind == 8 { MethodHandleType::NewInvokeSpecial(idx) }
    else { MethodHandleType::InvokeInterface(idx) }
}

/// A method handle constant of class-file reference kind `kind` becomes the
/// handle the JVM specification names for that kind: 1 getField, 2
/// getStatic, 3 putField, 4 putStatic, 5 invokeVirtual, 6 invokeStatic, 7
/// invokeSpecial, 8 newInvokeSpecial, 9 invokeInterface, with the same
/// reference index.
pub proof fn law_method_handle_kinds(kind: u8, index: u16)
    requires
        1 <= kind <= 9,
    ensures
        ({
            let h = runtime_constant_of(ConstantInfo::MethodHandle { reference_kind: kind, reference_index: index });
            &&& kind == 1 <==> h == RuntimeConstant::MethodHandle(MethodHandleType::GetField(index))
            &&& kind == 2 <==> h == RuntimeConstant::MethodHandle(MethodHandleType::GetStatic(index))
            &&& kind == 3 <==> h == RuntimeConstant::MethodHandle(MethodHandleType::PutField(index))
            &&& kind == 4 <==> h == RuntimeConstant::MethodHandle(MethodHandleType::PutStatic(index))
            &&& kind == 5 <==> h == RuntimeConstant::MethodHandle(MethodHandleType::InvokeVirtual(index))
            &&& kind == 6 <==> h == RuntimeConstant::MethodHandle(MethodHandleType::InvokeStatic(index))
            &&& kind == 7 <==> h == RuntimeConstant::MethodHandle(MethodHandleType::InvokeSpecial(index))
            &&& kind == 8 <==> h == RuntimeConstant::MethodHandle(MethodHandleType::NewInvokeSpecial(index))
            &&& kind == 9 <==> h == RuntimeConstant::MethodHandle(MethodHandleType::InvokeInterface(index))
        }),
{
}

/// Whether a class-file constant is one the pool supports.
pub open spec fn supported(c: ConstantInfo) -> bool {
    &&& c matches ConstantInfo::MethodHandle { reference_kind, .. } ==> 1 <= reference_kind <= 9
    &&& !(c is Dynamic || c is Module || c is Package)
}

/// The runtime constant that a class-file constant becomes.
pub open spec fn runtime_constant_of(c: ConstantInfo) -> RuntimeConstant {
    match c {
        ConstantInfo::Unused => RuntimeConstant::Unused,
        ConstantInfo::Utf8(s) => RuntimeConstant::Utf8(s),
        ConstantInfo::Integer(v) => RuntimeConstant::Integer(v),
        ConstantInfo::Float(v) => RuntimeConstant::Float(v),
        ConstantInfo::Long(v) => RuntimeConstant::Long(v),
        ConstantInfo::Double(v) => RuntimeConstant::Double(v),
        ConstantInfo::Class(i) => RuntimeConstant::Class { name_idx: i },
        ConstantInfo::String(i) => RuntimeConstant::String { string_idx: i },
        ConstantInfo::MethodRef { class_index, name_and_type_index } => RuntimeConstant::Method {
            class_idx: class_index,
            nat_idx: name_and_type_index,
        },
        ConstantInfo::FieldRef { class_index, name_and_type_index } => RuntimeConstant::Field {
            class_idx: class_index,
            nat_idx: name_and_type_index,
        },
        ConstantInfo::NameAndType { name_index, descriptor_index } => RuntimeConstant::NameAndType {
            name_idx: name_index,
            descriptor_idx: descriptor_index,
        },
        ConstantInfo::InterfaceMethodRef { class_index, name_and_type_index } => RuntimeConstant::InterfaceMethod {
            class_idx: class_index,
            nat_idx: name_and_type_index,
        },
        ConstantInfo::InvokeDynamic { bootstrap_method_attr_index, name_and_type_index } => RuntimeConstant::InvokeDynamic {
            bootstrap_idx: bootstrap_method_attr_index,
            nat_idx: name_and_type_index,
        },
        ConstantInfo::MethodType(_) => RuntimeConstant::MethodType,
        ConstantInfo::MethodHandle { reference_kind, reference_index } => RuntimeConstant::MethodHandle(
            handle_of_kind(reference_kind, reference_index),
        ),
        _ => RuntimeConstant::Unused,
    }
}

/// The interned names of a name-and-type entry.
#[derive(Clone, Copy, Debug, PartialEq, Eq, Structural)]
pub struct NameAndTypeEntryView {
    pub name_sym: Symbol,
    pub descriptor_sym: Symbol,
}

/// The interned names of a method reference.
#[derive(Clone, Copy, Debug, PartialEq, Eq, Structural)]
pub struct MethodEntryView {
    pub class_sym: Symbol,
    pub name_and_type: NameAndTypeEntryView,
}

/// The interned names of a field reference.
#[derive(Clone, Copy, Debug, PartialEq, Eq, Structural)]
pub struct FieldEntryView {
    pub class_sym: Symbol,
    pub name_and_type: NameAndTypeEntryView,
}

/// A resolved method handle.
#[derive(Clone, Copy, Debug, PartialEq, Eq, Structural)]
pub enum MethodHandleEntryView {
    GetField(FieldEntryView),
    GetStatic(FieldEntryView),
    PutField(FieldEntryView),
    PutStatic(FieldEntryView),
    InvokeVirtual(MethodEntryView),
    InvokeStatic(MethodEntryView),
    InvokeSpecial(MethodEntryView),
    NewInvokeSpecial(MethodEntryView),
    InvokeInterface(MethodEntryView),
}

/// A resolved `invokedynamic` call site.
#[derive(Debug)]
pub struct InvokeDynamicEntryView {
    pub method_handle: MethodHandleEntryView,
    pub arguments: Vec<u16>,
    pub name_and_type: NameAndTypeEntryView,
}

/// Why resolving a pool entry failed.
pub enum PoolFault {
    BadIndex(u16),
    Incompatible(u16, RuntimeConstantType, RuntimeConstantType),
    BadBootstrapIndex(u16),
}

/// `e` is the error that reports `f`.
pub open spec fn pool_fault_error(f: PoolFault, e: JvmError) -> bool {
    match f {
        PoolFault::BadIndex(i) => raises_with_message(
            e,
            JavaExceptionKind::ClassFormatError,
            "Invalid constant pool index: "@ + decimal(i as nat),
        ),
        PoolFault::BadBootstrapIndex(i) => raises_with_message(
            e,
            JavaExceptionKind::ClassFormatError,
            "Invalid bootstrap methods index: "@ + decimal(i as nat),
        ),
        PoolFault::Incompatible(i, expected, actual) => e == JvmError::JavaException(JavaExceptionFromJvm {
            kind: JavaExceptionKind::IncompatibleClassChangeError,
            message: Some(ExceptionMessage::IncompatibleClassChangeRuntimePool { pool_idx: i, expected, actual }),
            cause: None,
        }),
    }
}

/// The entry at `idx`.
pub open spec fn entry_at(es: Seq<RuntimeConstant>, idx: u16) -> Option<RuntimeConstant> {
    if idx < es.len() { Some(es[idx as int]) } else { None }
}

/// The text of the UTF-8 entry at `idx`.
pub open spec fn utf8_res(es: Seq<RuntimeConstant>, idx: u16) -> Result<Seq<char>, PoolFault> {
    match entry_at(es, idx) {
        None => Err(PoolFault::BadIndex(idx)),
        Some(RuntimeConstant::Utf8(s)) => Ok(s@),
        Some(c) => Err(PoolFault::Incompatible(idx, RuntimeConstantType::Utf8, type_of_constant(c))),
    }
}

/// The name of the class entry at `idx`.
pub open spec fn class_res(es: Seq<RuntimeConstant>, idx: u16) -> Result<Seq<char>, PoolFault> {
    match entry_at(es, idx) {
        None => Err(PoolFault::BadIndex(idx)),
        Some(RuntimeConstant::Class { name_idx }) => utf8_res(es, name_idx),
        Some(c) => Err(PoolFault::Incompatible(idx, RuntimeConstantType::Class, type_of_constant(c))),
    }
}

/// The text of the string entry at `idx`.
pub open spec fn string_res(es: Seq<RuntimeConstant>, idx: u16) -> Result<Seq<char>, PoolFault> {
    match entry_at(es, idx) {
        None => Err(PoolFault::BadIndex(idx)),
        Some(RuntimeConstant::String { string_idx }) => utf8_res(es, string_idx),
        Some(c) => Err(PoolFault::Incompatible(idx, RuntimeConstantType::String, type_of_constant(c))),
    }
}

/// The name and descriptor of the name-and-type entry at `idx`.
pub open spec fn nat_res(es: Seq<RuntimeConstant>, idx: u16) -> Result<(Seq<char>, Seq<char>), PoolFault> {
    match entry_at(es, idx) {
        None => Err(PoolFault::BadIndex(idx)),
        Some(RuntimeConstant::NameAndType { name_idx, descriptor_idx }) => match utf8_res(es, name_idx) {
            Err(f) => Err(f),
            Ok(n) => match utf8_res(es, descriptor_idx) {
                Err(f) => Err(f),
                Ok(d) => Ok((n, d)),
            },
        },
        Some(c) => Err(PoolFault::Incompatible(idx, RuntimeConstantType::MethodNameAndType, type_of_constant(c))),
    }
}

/// The class name and name-and-type of a member reference with these indices.
pub open spec fn member_res(es: Seq<RuntimeConstant>, class_idx: u16, nat_idx: u16) -> Result<
    (Seq<char>, (Seq<char>, Seq<char>)),
    PoolFault,
> {
    match class_res(es, class_idx) {
        Err(f) => Err(f),
        Ok(c) => match nat_res(es, nat_idx) {
            Err(f) => Err(f),
            Ok(nt) => Ok((c, nt)),
        },
    }
}

/// The names of the method reference at `idx`.
pub open spec fn method_res(es: Seq<RuntimeConstant>, idx: u16) -> Result<(Seq<char>, (Seq<char>, Seq<char>)), PoolFault> {
    match entry_at(es, idx) {
        None => Err(PoolFault::BadIndex(idx)),
        Some(RuntimeConstant::Method { class_idx, nat_idx }) => member_res(es, class_idx, nat_idx),
        Some(c) => Err(PoolFault::Incompatible(idx, RuntimeConstantType::Method, type_of_constant(c))),
    }
}

/// The names of the interface method reference at `idx`.
pub open spec fn interface_method_res(es: Seq<RuntimeConstant>, idx: u16) -> Result<(Seq<char>, (Seq<char>, Seq<char>)), PoolFault> {
    match entry_at(es, idx) {
        None => Err(PoolFault::BadIndex(idx)),
        Some(RuntimeConstant::InterfaceMethod { class_idx, nat_idx }) => member_res(es, class_idx, nat_idx),
        Some(c) => Err(PoolFault::Incompatible(idx, RuntimeConstantType::InterfaceMethod, type_of_constant(c))),
    }
}

/// The names of the field reference at `idx`.
pub open spec fn field_res(es: Seq<RuntimeConstant>, idx: u16) -> Result<(Seq<char>, (Seq<char>, Seq<char>)), PoolFault> {
    match entry_at(es, idx) {
        None => Err(PoolFault::BadIndex(idx)),
        Some(RuntimeConstant::Field { class_idx, nat_idx }) => member_res(es, class_idx, nat_idx),
        Some(c) => Err(PoolFault::Incompatible(idx, RuntimeConstantType::Field, type_of_constant(c))),
    }
}

/// The names of the method or interface method reference at `idx`.
pub open spec fn method_or_interface_res(es: Seq<RuntimeConstant>, idx: u16) -> Result<(Seq<char>, (Seq<char>, Seq<char>)), PoolFault> {
    match entry_at(es, idx) {
        None => Err(PoolFault::BadIndex(idx)),
        Some(RuntimeConstant::Method { .. }) => method_res(es, idx),
        Some(RuntimeConstant::InterfaceMethod { .. }) => interface_method_res(es, idx),
        Some(c) => Err(PoolFault::Incompatible(idx, RuntimeConstantType::Method, type_of_constant(c))),
    }
}

/// Whether `k` is the interned key of `s`, the only one it has.
pub open spec fn names(i: ThreadedRodeo, k: Symbol, s: Seq<char>) -> bool {
    &&& interned_strings(i).contains_key(k)
    &&& interned_strings(i)[k] == s
    &&& forall|other: Symbol|
        #![trigger interned_strings(i)[other]]
        interned_strings(i).contains_key(other) && interned_strings(i)[other] == s ==> other == k
}

/// Whether a name-and-type view holds the keys of `nat`.
pub open spec fn nat_view_names(i: ThreadedRodeo, v: NameAndTypeEntryView, nt: (Seq<char>, Seq<char>)) -> bool {
    names(i, v.name_sym, nt.0) && names(i, v.descriptor_sym, nt.1)
}

/// Whether a member view holds the keys of `m`.
pub open spec fn member_view_names(
    i: ThreadedRodeo,
    class_sym: Symbol,
    nt: NameAndTypeEntryView,
    m: (Seq<char>, (Seq<char>, Seq<char>)),
) -> bool {
    names(i, class_sym, m.0) && nat_view_names(i, nt, m.1)
}

/// What a resolution that interns names gives: the error of its fault, or
/// a result satisfying `ok`; either gives way to `OutOfMemory` when the
/// interner refuses a name on the way.
pub open spec fn resolved<T, V>(res: Result<V, PoolFault>, r: Result<T, JvmError>, ok: spec_fn(T, V) -> bool) -> bool {
    match res {
        Err(f) => r matches Err(e) && (pool_fault_error(f, e) || e is OutOfMemory),
        Ok(v) => match r {
            Ok(t) => ok(t, v),
            Err(e) => e is OutOfMemory,
        },
    }
}

/// A fault that `r` reports exactly, for resolutions that intern nothing
/// before they can fail.
pub open spec fn exact_fault<T, V>(res: Result<V, PoolFault>, r: Result<T, JvmError>) -> bool {
    res matches Err(f) ==> (r matches Err(e) && pool_fault_error(f, e))
}

/// Whether `r` reports exactly the fault of the entry at `idx` itself, which
/// comes before anything is interned: a bad index, or an entry that `fits`
/// refuses, reported as not being of the type `expected`.
pub open spec fn entry_fault<T>(
    es: Seq<RuntimeConstant>,
    idx: u16,
    fits: spec_fn(RuntimeConstant) -> bool,
    expected: RuntimeConstantType,
    r: Result<T, JvmError>,
) -> bool {
    match entry_at(es, idx) {
        None => r matches Err(e) && pool_fault_error(PoolFault::BadIndex(idx), e),
        Some(c) => !fits(c) ==> (r matches Err(e) && pool_fault_error(
            PoolFault::Incompatible(idx, expected, type_of_constant(c)),
            e,
        )),
    }
}

/// The class index of a member reference entry.
pub open spec fn member_class_idx(c: RuntimeConstant) -> Option<u16> {
    match c {
        RuntimeConstant::Method { class_idx, .. } => Some(class_idx),
        RuntimeConstant::InterfaceMethod { class_idx, .. } => Some(class_idx),
        RuntimeConstant::Field { class_idx, .. } => Some(class_idx),
        _ => None,
    }
}

/// Whether `r` reports exactly a fault in the class of the member reference
/// at `idx`, an entry that `fits` accepts: the class is resolved first.
pub open spec fn member_class_fault<T>(
    es: Seq<RuntimeConstant>,
    idx: u16,
    fits: spec_fn(RuntimeConstant) -> bool,
    r: Result<T, JvmError>,
) -> bool {
    match entry_at(es, idx) {
        Some(c) => fits(c) && member_class_idx(c) is Some ==> exact_fault(class_res(es, member_class_idx(c)->0), r),
        None => true,
    }
}

/// Whether `r` reports exactly a bad bootstrap method index of the
/// `invokedynamic` entry at `idx`, found before anything is interned.
pub open spec fn bootstrap_fault<T>(es: Seq<RuntimeConstant>, bs: Seq<BootstrapMethodEntry>, idx: u16, r: Result<T, JvmError>) -> bool {
    match entry_at(es, idx) {
        Some(RuntimeConstant::InvokeDynamic { bootstrap_idx, .. }) => bootstrap_at(bs, bootstrap_idx) is None ==> (r matches Err(
            e,
        ) && pool_fault_error(PoolFault::BadBootstrapIndex(bootstrap_idx), e)),
        _ => true,
    }
}

/// The runtime constant pool of a class.
pub struct RuntimeConstantPool {
    entries: Vec<RuntimeConstant>,
    bootstrap_entries: Vec<BootstrapMethodEntry>,
}

impl RuntimeConstantPool {
    /// The entries, by index.
    pub closed spec fn entries(&self) -> Seq<RuntimeConstant> {
        self.entries@
    }

    /// The bootstrap methods, by index.
    pub closed spec fn bootstrap(&self) -> Seq<BootstrapMethodEntry> {
        self.bootstrap_entries@
    }
}


/// The member that a method handle refers to.
pub open spec fn handle_target_res(es: Seq<RuntimeConstant>, h: MethodHandleType) -> Result<
    (Seq<char>, (Seq<char>, Seq<char>)),
    PoolFault,
> {
    match h {
        MethodHandleType::GetField(i) => field_res(es, i),
        MethodHandleType::GetStatic(i) => field_res(es, i),
        MethodHandleType::PutField(i) => field_res(es, i),
        MethodHandleType::PutStatic(i) => field_res(es, i),
        MethodHandleType::InvokeVirtual(i) => method_res(es, i),
        MethodHandleType::InvokeStatic(i) => method_res(es, i),
        MethodHandleType::InvokeSpecial(i) => method_res(es, i),
        MethodHandleType::NewInvokeSpecial(i) => method_res(es, i),
        MethodHandleType::InvokeInterface(i) => interface_method_res(es, i),
    }
}

/// The method handle entry at `idx` and the names of the member it refers to.
pub open spec fn handle_res(es: Seq<RuntimeConstant>, idx: u16) -> Result<
    (MethodHandleType, (Seq<char>, (Seq<char>, Seq<char>))),
    PoolFault,
> {
    match entry_at(es, idx) {
        None => Err(PoolFault::BadIndex(idx)),
        Some(RuntimeConstant::MethodHandle(h)) => match handle_target_res(es, h) {
            Err(f) => Err(f),
            Ok(m) => Ok((h, m)),
        },
        Some(c) => Err(PoolFault::Incompatible(idx, RuntimeConstantType::MethodHandle, type_of_constant(c))),
    }
}

/// Whether a resolved handle has the kind of `h` and holds the keys of `m`.
pub open spec fn handle_view_names(
    i: ThreadedRodeo,
    v: MethodHandleEntryView,
    h: MethodHandleType,
    m: (Seq<char>, (Seq<char>, Seq<char>)),
) -> bool {
    match (h, v) {
        (MethodHandleType::GetField(_), MethodHandleEntryView::GetField(f)) => member_view_names(i, f.class_sym, f.name_and_type, m),
        (MethodHandleType::GetStatic(_), MethodHandleEntryView::GetStatic(f)) => member_view_names(i, f.class_sym, f.name_and_type, m),
        (MethodHandleType::PutField(_), MethodHandleEntryView::PutField(f)) => member_view_names(i, f.class_sym, f.name_and_type, m),
        (MethodHandleType::PutStatic(_), MethodHandleEntryView::PutStatic(f)) => member_view_names(i, f.class_sym, f.name_and_type, m),
        (MethodHandleType::InvokeVirtual(_), MethodHandleEntryView::InvokeVirtual(f)) => member_view_names(i, f.class_sym, f.name_and_type, m),
        (MethodHandleType::InvokeStatic(_), MethodHandleEntryView::InvokeStatic(f)) => member_view_names(i, f.class_sym, f.name_and_type, m),
        (MethodHandleType::InvokeSpecial(_), MethodHandleEntryView::InvokeSpecial(f)) => member_view_names(i, f.class_sym, f.name_and_type, m),
        (MethodHandleType::NewInvokeSpecial(_), MethodHandleEntryView::NewInvokeSpecial(f)) => member_view_names(i, f.class_sym, f.name_and_type, m),
        (MethodHandleType::InvokeInterface(_), MethodHandleEntryView::InvokeInterface(f)) => member_view_names(i, f.class_sym, f.name_and_type, m),
        _ => false,
    }
}

/// The bootstrap method at `idx`.
pub open spec fn bootstrap_at(bs: Seq<BootstrapMethodEntry>, idx: u16) -> Option<BootstrapMethodEntry> {
    if idx < bs.len() { Some(bs[idx as int]) } else { None }
}

/// What the `invokedynamic` entry at `idx` resolves to: its bootstrap method
/// handle, the bootstrap arguments and its name and type.
pub open spec fn invoke_dynamic_res(es: Seq<RuntimeConstant>, bs: Seq<BootstrapMethodEntry>, idx: u16) -> Result<
    ((MethodHandleType, (Seq<char>, (Seq<char>, Seq<char>))), Seq<u16>, (Seq<char>, Seq<char>)),
    PoolFault,
> {
    match entry_at(es, idx) {
        None => Err(PoolFault::BadIndex(idx)),
        Some(RuntimeConstant::InvokeDynamic { bootstrap_idx, nat_idx }) => match bootstrap_at(bs, bootstrap_idx) {
            None => Err(PoolFault::BadBootstrapIndex(bootstrap_idx)),
            Some(b) => match handle_res(es, b.bootstrap_method_idx) {
                Err(f) => Err(f),
                Ok(h) => match nat_res(es, nat_idx) {
                    Err(f) => Err(f),
                    Ok(nt) => Ok((h, b.bootstrap_arguments@, nt)),
                },
            },
        },
        Some(c) => Err(PoolFault::Incompatible(idx, RuntimeConstantType::InvokeDynamic, type_of_constant(c))),
    }
}

/// Whether an `invokedynamic` view holds what `d` names.
pub open spec fn invoke_dynamic_view_names(
    i: ThreadedRodeo,
    v: InvokeDynamicEntryView,
    d: ((MethodHandleType, (Seq<char>, (Seq<char>, Seq<char>))), Seq<u16>, (Seq<char>, Seq<char>)),
) -> bool {
    &&& handle_view_names(i, v.method_handle, d.0.0, d.0.1)
    &&& v.arguments@ == d.1
    &&& nat_view_names(i, v.name_and_type, d.2)
}

/// The check that fetching the constant at `idx` makes: that it exists, and
/// that a class, string, method or field entry resolves.
pub open spec fn constant_res(es: Seq<RuntimeConstant>, idx: u16) -> Result<RuntimeConstant, PoolFault> {
    match entry_at(es, idx) {
        None => Err(PoolFault::BadIndex(idx)),
        Some(c) => {
            let check: Result<(), PoolFault> = match c {
                RuntimeConstant::Class { .. } => match class_res(es, idx) { Err(f) => Err(f), Ok(_) => Ok(()) },
                RuntimeConstant::String { .. } => match string_res(es, idx) { Err(f) => Err(f), Ok(_) => Ok(()) },
                RuntimeConstant::Method { .. } => match method_res(es, idx) { Err(f) => Err(f), Ok(_) => Ok(()) },
                RuntimeConstant::Field { .. } => match field_res(es, idx) { Err(f) => Err(f), Ok(_) => Ok(()) },
                _ => Ok(()),
            };
            match check {
                Err(f) => Err(f),
                Ok(_) => Ok(c),
            }
        },
    }
}

fn bad_index_error(idx: u16) -> (e: JvmError)
    ensures
        pool_fault_error(PoolFault::BadIndex(idx), e),
{
    let mut msg = String::new();
    push_str(&mut msg, "Invalid constant pool index: ");
    push_decimal(&mut msg, idx as u64);
    JvmError::JavaException(JavaExceptionFromJvm::with_message(JavaExceptionKind::ClassFormatError, msg))
}

fn bad_bootstrap_error(idx: u16) -> (e: JvmError)
    ensures
        pool_fault_error(PoolFault::BadBootstrapIndex(idx), e),
{
    let mut msg = String::new();
    push_str(&mut msg, "Invalid bootstrap methods index: ");
    push_decimal(&mut msg, idx as u64);
    JvmError::JavaException(JavaExceptionFromJvm::with_message(JavaExceptionKind::ClassFormatError, msg))
}

fn incompatible_error(idx: u16, expected: RuntimeConstantType, actual: RuntimeConstantType) -> (e: JvmError)
    ensures
        pool_fault_error(PoolFault::Incompatible(idx, expected, actual), e),
{
    JvmError::JavaException(
        JavaExceptionFromJvm::with_runtime_pool_incompatible_class_change(
            JavaExceptionKind::IncompatibleClassChangeError,
            idx,
            expected,
            actual,
        ),
    )
}

fn runtime_constant(c: ConstantInfo) -> (r: RuntimeConstant)
    requires
        supported(c),
    ensures
        r == runtime_constant_of(c),
{
    match c {
        ConstantInfo::Unused => RuntimeConstant::Unused,
        ConstantInfo::Utf8(s) => RuntimeConstant::Utf8(s),
        ConstantInfo::Integer(v) => RuntimeConstant::Integer(v),
        ConstantInfo::Float(v) => RuntimeConstant::Float(v),
        ConstantInfo::Long(v) => RuntimeConstant::Long(v),
        ConstantInfo::Double(v) => RuntimeConstant::Double(v),
        ConstantInfo::Class(i) => RuntimeConstant::Class { name_idx: i },
        ConstantInfo::String(i) => RuntimeConstant::String { string_idx: i },
        ConstantInfo::MethodRef { class_index, name_and_type_index } => RuntimeConstant::Method {
            class_idx: class_index,
            nat_idx: name_and_type_index,
        },
        ConstantInfo::FieldRef { class_index, name_and_type_index } => RuntimeConstant::Field {
            class_idx: class_index,
            nat_idx: name_and_type_index,
        },
        ConstantInfo::NameAndType { name_index, descriptor_index } => RuntimeConstant::NameAndType {
            name_idx: name_index,
            descriptor_idx: descriptor_index,
        },
        ConstantInfo::InterfaceMethodRef { class_index, name_and_type_index } => RuntimeConstant::InterfaceMethod {
            class_idx: class_index,
            nat_idx: name_and_type_index,
        },
        ConstantInfo::InvokeDynamic { bootstrap_method_attr_index, name_and_type_index } => RuntimeConstant::InvokeDynamic {
            bootstrap_idx: bootstrap_method_attr_index,
            nat_idx: name_and_type_index,
        },
        ConstantInfo::MethodType(_) => RuntimeConstant::MethodType,
        ConstantInfo::MethodHandle { reference_kind, reference_index } => {
            let h = match reference_kind {
                1 => MethodHandleType::GetField(reference_index),
                2 => MethodHandleType::GetStatic(reference_index),
                3 => MethodHandleType::PutField(reference_index),
                4 => MethodHandleType::PutStatic(reference_index),
                5 => MethodHandleType::InvokeVirtual(reference_index),
                6 => MethodHandleType::InvokeStatic(reference_index),
                7 => MethodHandleType::InvokeSpecial(reference_index),
                8 => MethodHandleType::NewInvokeSpecial(reference_index),
                _ => MethodHandleType::InvokeInterface(reference_index),
            };
            RuntimeConstant::MethodHandle(h)
        },
        _ => RuntimeConstant::Unused,
    }
}

impl RuntimeConstantPool {
    /// Builds the pool from the class file's constants and bootstrap methods.
    /// Every constant must be of a kind the pool supports.
    pub fn new(entries: Vec<ConstantInfo>, bootstrap_methods: Vec<BootstrapMethodEntry>) -> (r: Self)
        requires
            forall|i: int| 0 <= i < entries.len() ==> supported(#[trigger] entries@[i]),
        ensures
            r.entries().len() == entries.len(),
            forall|i: int| 0 <= i < entries.len() ==> r.entries()[i] == runtime_constant_of(#[trigger] entries@[i]),
            r.bootstrap() == bootstrap_methods@,
    {
        let mut src = entries;
        let mut reversed: Vec<ConstantInfo> = Vec::new();
        let ghost orig = src@;
        while src.len() > 0
            invariant
                src@.len() + reversed@.len() == orig.len(),
                forall|i: int| 0 <= i < src@.len() ==> src@[i] == orig[i],
                forall|j: int| 0 <= j < reversed@.len() ==> reversed@[j] == orig[orig.len() - 1 - j],
            decreases src.len(),
        {
            let c = src.pop().unwrap();
            reversed.push(c);
        }
        let mut rt_entries: Vec<RuntimeConstant> = Vec::new();
        while reversed.len() > 0
            invariant
                reversed@.len() + rt_entries@.len() == orig.len(),
                forall|j: int| 0 <= j < reversed@.len() ==> reversed@[j] == orig[orig.len() - 1 - j],
                forall|i: int| 0 <= i < orig.len() ==> supported(#[trigger] orig[i]),
                forall|i: int| 0 <= i < rt_entries@.len() ==> rt_entries@[i] == runtime_constant_of(#[trigger] orig[i]),
            decreases reversed.len(),
        {
            let c = reversed.pop().unwrap();
            proof {
                assert(c == orig[rt_entries@.len() as int]);
            }
            let rc = runtime_constant(c);
            rt_entries.push(rc);
        }
        RuntimeConstantPool { entries: rt_entries, bootstrap_entries: bootstrap_methods }
    }

    fn entry(&self, idx: &u16) -> (r: Result<&RuntimeConstant, JvmError>)
        ensures
            match r {
                Ok(c) => entry_at(self.entries(), *idx) == Some(*c),
                Err(e) => entry_at(self.entries(), *idx) is None && pool_fault_error(PoolFault::BadIndex(*idx), e),
            },
    {
        let i = *idx as usize;
        if i < self.entries.len() {
            Ok(&self.entries[i])
        } else {
            Err(bad_index_error(*idx))
        }
    }

    fn bootstrap_entry(&self, idx: &u16) -> (r: Result<&BootstrapMethodEntry, JvmError>)
        ensures
            match r {
                Ok(b) => bootstrap_at(self.bootstrap(), *idx) == Some(*b),
                Err(e) => bootstrap_at(self.bootstrap(), *idx) is None
                    && pool_fault_error(PoolFault::BadBootstrapIndex(*idx), e),
            },
    {
        let i = *idx as usize;
        if i < self.bootstrap_entries.len() {
            Ok(&self.bootstrap_entries[i])
        } else {
            Err(bad_bootstrap_error(*idx))
        }
    }

    /// The interned text of the UTF-8 entry at `idx`.
    pub fn get_utf8_sym(&self, idx: &u16, interner: &ThreadedRodeo) -> (r: Result<Symbol, JvmError>)
        ensures
            resolved(utf8_res(self.entries(), *idx), r, |k: Symbol, s: Seq<char>| names(*interner, k, s)),
            exact_fault(utf8_res(self.entries(), *idx), r),
    {
        match self.entry(idx)? {
            RuntimeConstant::Utf8(s) => match intern(interner, s.as_str()) {
                Some(k) => Ok(k),
                None => Err(JvmError::OutOfMemory),
            },
            other => Err(incompatible_error(*idx, RuntimeConstantType::Utf8, other.get_type())),
        }
    }
}


impl RuntimeConstantPool {
    /// The interned name of the class entry at `idx`.
    pub fn get_class_sym(&self, idx: &u16, interner: &ThreadedRodeo) -> (r: Result<Symbol, JvmError>)
        ensures
            resolved(class_res(self.entries(), *idx), r, |k: Symbol, s: Seq<char>| names(*interner, k, s)),
            exact_fault(class_res(self.entries(), *idx), r),
    {
        match self.entry(idx)? {
            RuntimeConstant::Class { name_idx } => self.get_utf8_sym(name_idx, interner),
            other => Err(incompatible_error(*idx, RuntimeConstantType::Class, other.get_type())),
        }
    }

    /// The interned text of the string entry at `idx`.
    pub fn get_string_sym(&self, idx: &u16, interner: &ThreadedRodeo) -> (r: Result<Symbol, JvmError>)
        ensures
            resolved(string_res(self.entries(), *idx), r, |k: Symbol, s: Seq<char>| names(*interner, k, s)),
            exact_fault(string_res(self.entries(), *idx), r),
    {
        match self.entry(idx)? {
            RuntimeConstant::String { string_idx } => self.get_utf8_sym(string_idx, interner),
            other => Err(incompatible_error(*idx, RuntimeConstantType::String, other.get_type())),
        }
    }

    /// The interned name and descriptor of the name-and-type entry at `idx`.
    pub fn get_nat_view(&self, idx: &u16, interner: &ThreadedRodeo) -> (r: Result<NameAndTypeEntryView, JvmError>)
        ensures
            resolved(
                nat_res(self.entries(), *idx),
                r,
                |v: NameAndTypeEntryView, nt: (Seq<char>, Seq<char>)| nat_view_names(*interner, v, nt),
            ),
            entry_fault(
                self.entries(),
                *idx,
                |c: RuntimeConstant| c is NameAndType,
                RuntimeConstantType::MethodNameAndType,
                r,
            ),
            entry_at(self.entries(), *idx) matches Some(RuntimeConstant::NameAndType { name_idx, .. }) ==> exact_fault(
                utf8_res(self.entries(), name_idx),
                r,
            ),
    {
        match self.entry(idx)? {
            RuntimeConstant::NameAndType { name_idx, descriptor_idx } => {
                let name_sym = self.get_utf8_sym(name_idx, interner)?;
                let descriptor_sym = self.get_utf8_sym(descriptor_idx, interner)?;
                Ok(NameAndTypeEntryView { name_sym, descriptor_sym })
            },
            other => Err(incompatible_error(*idx, RuntimeConstantType::MethodNameAndType, other.get_type())),
        }
    }

    fn member_view(&self, class_idx: &u16, nat_idx: &u16, interner: &ThreadedRodeo) -> (r: Result<
        (Symbol, NameAndTypeEntryView),
        JvmError,
    >)
        ensures
            resolved(
                member_res(self.entries(), *class_idx, *nat_idx),
                r,
                |v: (Symbol, NameAndTypeEntryView), m: (Seq<char>, (Seq<char>, Seq<char>))|
                    member_view_names(*interner, v.0, v.1, m),
            ),
            exact_fault(class_res(self.entries(), *class_idx), r),
    {
        let class_sym = self.get_class_sym(class_idx, interner)?;
        let nat_view = self.get_nat_view(nat_idx, interner)?;
        Ok((class_sym, nat_view))
    }

    /// The interned names of the method reference at `idx`.
    pub fn get_method_view(&self, idx: &u16, interner: &ThreadedRodeo) -> (r: Result<MethodEntryView, JvmError>)
        ensures
            resolved(
                method_res(self.entries(), *idx),
                r,
                |v: MethodEntryView, m: (Seq<char>, (Seq<char>, Seq<char>))|
                    member_view_names(*interner, v.class_sym, v.name_and_type, m),
            ),
            entry_fault(self.entries(), *idx, |c: RuntimeConstant| c is Method, RuntimeConstantType::Method, r),
            member_class_fault(self.entries(), *idx, |c: RuntimeConstant| c is Method, r),
    {
        match self.entry(idx)? {
            RuntimeConstant::Method { class_idx, nat_idx } => {
                let (class_sym, name_and_type) = self.member_view(class_idx, nat_idx, interner)?;
                Ok(MethodEntryView { class_sym, name_and_type })
            },
            other => Err(incompatible_error(*idx, RuntimeConstantType::Method, other.get_type())),
        }
    }

    /// The interned names of the interface method reference at `idx`.
    pub fn get_interface_method_view(&self, idx: &u16, interner: &ThreadedRodeo) -> (r: Result<MethodEntryView, JvmError>)
        ensures
            resolved(
                interface_method_res(self.entries(), *idx),
                r,
                |v: MethodEntryView, m: (Seq<char>, (Seq<char>, Seq<char>))|
                    member_view_names(*interner, v.class_sym, v.name_and_type, m),
            ),
            entry_fault(self.entries(), *idx, |c: RuntimeConstant| c is InterfaceMethod, RuntimeConstantType::InterfaceMethod, r),
            member_class_fault(self.entries(), *idx, |c: RuntimeConstant| c is InterfaceMethod, r),
    {
        match self.entry(idx)? {
            RuntimeConstant::InterfaceMethod { class_idx, nat_idx } => {
                let (class_sym, name_and_type) = self.member_view(class_idx, nat_idx, interner)?;
                Ok(MethodEntryView { class_sym, name_and_type })
            },
            other => Err(incompatible_error(*idx, RuntimeConstantType::InterfaceMethod, other.get_type())),
        }
    }

    /// The interned names of the field reference at `idx`.
    pub fn get_field_view(&self, idx: &u16, interner: &ThreadedRodeo) -> (r: Result<FieldEntryView, JvmError>)
        ensures
            resolved(
                field_res(self.entries(), *idx),
                r,
                |v: FieldEntryView, m: (Seq<char>, (Seq<char>, Seq<char>))|
                    member_view_names(*interner, v.class_sym, v.name_and_type, m),
            ),
            entry_fault(self.entries(), *idx, |c: RuntimeConstant| c is Field, RuntimeConstantType::Field, r),
            member_class_fault(self.entries(), *idx, |c: RuntimeConstant| c is Field, r),
    {
        match self.entry(idx)? {
            RuntimeConstant::Field { class_idx, nat_idx } => {
                let (class_sym, name_and_type) = self.member_view(class_idx, nat_idx, interner)?;
                Ok(FieldEntryView { class_sym, name_and_type })
            },
            other => Err(incompatible_error(*idx, RuntimeConstantType::Field, other.get_type())),
        }
    }

    /// The interned names of the method or interface method reference at `idx`.
    pub fn get_method_or_interface_method_view(&self, idx: &u16, interner: &ThreadedRodeo) -> (r: Result<
        MethodEntryView,
        JvmError,
    >)
        ensures
            resolved(
                method_or_interface_res(self.entries(), *idx),
                r,
                |v: MethodEntryView, m: (Seq<char>, (Seq<char>, Seq<char>))|
                    member_view_names(*interner, v.class_sym, v.name_and_type, m),
            ),
            entry_fault(
                self.entries(),
                *idx,
                |c: RuntimeConstant| c is Method || c is InterfaceMethod,
                RuntimeConstantType::Method,
                r,
            ),
            member_class_fault(self.entries(), *idx, |c: RuntimeConstant| c is Method || c is InterfaceMethod, r),
    {
        match self.entry(idx)? {
            RuntimeConstant::Method { .. } => self.get_method_view(idx, interner),
            RuntimeConstant::InterfaceMethod { .. } => self.get_interface_method_view(idx, interner),
            other => Err(incompatible_error(*idx, RuntimeConstantType::Method, other.get_type())),
        }
    }

    /// The resolved method handle at `idx`.
    pub fn get_method_handle_view(&self, idx: &u16, interner: &ThreadedRodeo) -> (r: Result<
        MethodHandleEntryView,
        JvmError,
    >)
        ensures
            resolved(
                handle_res(self.entries(), *idx),
                r,
                |v: MethodHandleEntryView, hm: (MethodHandleType, (Seq<char>, (Seq<char>, Seq<char>)))|
                    handle_view_names(*interner, v, hm.0, hm.1),
            ),
            entry_fault(
                self.entries(),
                *idx,
                |c: RuntimeConstant| c is MethodHandle,
                RuntimeConstantType::MethodHandle,
                r,
            ),
    {
        match self.entry(idx)? {
            RuntimeConstant::MethodHandle(h) => {
                let v = match h {
                    MethodHandleType::GetField(i) => MethodHandleEntryView::GetField(self.get_field_view(i, interner)?),
                    MethodHandleType::GetStatic(i) => MethodHandleEntryView::GetStatic(self.get_field_view(i, interner)?),
                    MethodHandleType::PutField(i) => MethodHandleEntryView::PutField(self.get_field_view(i, interner)?),
                    MethodHandleType::PutStatic(i) => MethodHandleEntryView::PutStatic(self.get_field_view(i, interner)?),
                    MethodHandleType::InvokeVirtual(i) => MethodHandleEntryView::InvokeVirtual(
                        self.get_method_view(i, interner)?,
                    ),
                    MethodHandleType::InvokeStatic(i) => MethodHandleEntryView::InvokeStatic(
                        self.get_method_view(i, interner)?,
                    ),
                    MethodHandleType::InvokeSpecial(i) => MethodHandleEntryView::InvokeSpecial(
                        self.get_method_view(i, interner)?,
                    ),
                    MethodHandleType::NewInvokeSpecial(i) => MethodHandleEntryView::NewInvokeSpecial(
                        self.get_method_view(i, interner)?,
                    ),
                    MethodHandleType::InvokeInterface(i) => MethodHandleEntryView::InvokeInterface(
                        self.get_interface_method_view(i, interner)?,
                    ),
                };
                Ok(v)
            },
            other => Err(incompatible_error(*idx, RuntimeConstantType::MethodHandle, other.get_type())),
        }
    }

    /// The resolved `invokedynamic` call site at `idx`.
    pub fn get_invoke_dynamic_view(&self, idx: &u16, interner: &ThreadedRodeo) -> (r: Result<
        InvokeDynamicEntryView,
        JvmError,
    >)
        ensures
            resolved(
                invoke_dynamic_res(self.entries(), self.bootstrap(), *idx),
                r,
                |v: InvokeDynamicEntryView, d: ((MethodHandleType, (Seq<char>, (Seq<char>, Seq<char>))), Seq<u16>, (Seq<char>, Seq<char>))|
                    invoke_dynamic_view_names(*interner, v, d),
            ),
            entry_fault(
                self.entries(),
                *idx,
                |c: RuntimeConstant| c is InvokeDynamic,
                RuntimeConstantType::InvokeDynamic,
                r,
            ),
            bootstrap_fault(self.entries(), self.bootstrap(), *idx, r),
    {
        match self.entry(idx)? {
            RuntimeConstant::InvokeDynamic { bootstrap_idx, nat_idx } => {
                let bootstrap_entry = self.bootstrap_entry(bootstrap_idx)?;
                let method_handle = self.get_method_handle_view(&bootstrap_entry.bootstrap_method_idx, interner)?;
                let name_and_type = self.get_nat_view(nat_idx, interner)?;
                let arguments = bootstrap_entry.bootstrap_arguments.clone();
                Ok(InvokeDynamicEntryView { method_handle, arguments, name_and_type })
            },
            other => Err(incompatible_error(*idx, RuntimeConstantType::InvokeDynamic, other.get_type())),
        }
    }

    /// The constant at `idx`, once a class, string, method or field entry
    /// there has been checked to resolve.
    pub fn get_constant(&self, idx: &u16, interner: &ThreadedRodeo) -> (r: Result<&RuntimeConstant, JvmError>)
        ensures
            resolved(constant_res(self.entries(), *idx), r, |c: &RuntimeConstant, k: RuntimeConstant| *c == k),
            match constant_res(self.entries(), *idx) {
                Ok(k) => !(k is Class || k is String || k is Method || k is Field) ==> (r matches Ok(c) && *c == k),
                Err(_) => true,
            },
            !(entry_at(self.entries(), *idx) matches Some(c) && (c is Method || c is Field)) ==> exact_fault(
                constant_res(self.entries(), *idx),
                r,
            ),
    {
        let entry = self.entry(idx)?;
        match entry {
            RuntimeConstant::Class { .. } => {
                self.get_class_sym(idx, interner)?;
            },
            RuntimeConstant::String { .. } => {
                self.get_string_sym(idx, interner)?;
            },
            RuntimeConstant::Method { .. } => {
                self.get_method_view(idx, interner)?;
            },
            RuntimeConstant::Field { .. } => {
                self.get_field_view(idx, interner)?;
            },
            _ => {},
        }
        Ok(entry)
    }
}

/// Resolving the same entry twice gives the same keys: a string has one key.
pub proof fn law_method_resolution_is_stable(
    pool: RuntimeConstantPool,
    interner: ThreadedRodeo,
    idx: u16,
    r1: Result<MethodEntryView, JvmError>,
    r2: Result<MethodEntryView, JvmError>,
)
    requires
        resolved(
            method_res(pool.entries(), idx),
            r1,
            |v: MethodEntryView, m: (Seq<char>, (Seq<char>, Seq<char>))|
                member_view_names(interner, v.class_sym, v.name_and_type, m),
        ),
        resolved(
            method_res(pool.entries(), idx),
            r2,
            |v: MethodEntryView, m: (Seq<char>, (Seq<char>, Seq<char>))|
                member_view_names(interner, v.class_sym, v.name_and_type, m),
        ),
        r1 is Ok,
        r2 is Ok,
    ensures
        r1 == r2,
{
    let v1 = r1->Ok_0;
    let v2 = r2->Ok_0;
    let m = method_res(pool.entries(), idx)->Ok_0;
    assert(interned_strings(interner)[v2.class_sym] == m.0);
    assert(interned_strings(interner)[v2.name_and_type.name_sym] == m.1.0);
    assert(interned_strings(interner)[v2.name_and_type.descriptor_sym] == m.1.1);
}

/// Resolving the same UTF-8 entry twice gives the same key.
pub proof fn law_utf8_resolution_is_stable(
    pool: RuntimeConstantPool,
    interner: ThreadedRodeo,
    idx: u16,
    r1: Result<Symbol, JvmError>,
    r2: Result<Symbol, JvmError>,
)
    requires
        resolved(utf8_res(pool.entries(), idx), r1, |k: Symbol, s: Seq<char>| names(interner, k, s)),
        resolved(utf8_res(pool.entries(), idx), r2, |k: Symbol, s: Seq<char>| names(interner, k, s)),
        r1 is Ok,
        r2 is Ok,
    ensures
        r1 == r2,
{
    assert(interned_strings(interner)[r2->Ok_0] == utf8_res(pool.entries(), idx)->Ok_0);
}

} // verus!
