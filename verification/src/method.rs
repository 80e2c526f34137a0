//! Methods of loaded classes: their flags and, for bytecode methods, their
//! code, exception table and line numbers.
use crate::error::{raises_with_message, JavaExceptionFromJvm, JavaExceptionKind, JvmError, LinkageError};
use crate::keys::{ClassId, MethodDescriptorId, Symbol};
use vstd::prelude::*;

verus! {

/// An entry of a method's exception table: the handler at `handler_pc`
/// covers the code from `start_pc` up to `end_pc`, for exceptions of the
/// class named at pool index `catch_type` (0 for any exception).
#[derive(Clone, Copy, Debug, PartialEq, Eq, Structural)]
pub struct ExceptionTableEntry {
    pub start_pc: u16,
    pub end_pc: u16,
    pub handler_pc: u16,
    pub catch_type: u16,
}

/// An entry of a `LineNumberTable`: the code from `start_pc` on belongs to
/// source line `line_number`.
#[derive(Clone, Copy, Debug, PartialEq, Eq, Structural)]
pub struct LineNumberEntry {
    pub start_pc: u16,
    pub line_number: u16,
}

/// An entry of a `LocalVariableTable`.
#[derive(Clone, Copy, Debug, PartialEq, Eq, Structural)]
pub struct LocalVariableEntry {
    pub start_pc: u16,
    pub length: u16,
    pub name_index: u16,
    pub descriptor_index: u16,
    pub index: u16,
}

/// An entry of a `LocalVariableTypeTable`.
#[derive(Clone, Copy, Debug, PartialEq, Eq, Structural)]
pub struct LocalVariableTypeEntry {
    pub start_pc: u16,
    pub length: u16,
    pub name_index: u16,
    pub signature_index: u16,
    pub index: u16,
}

/// A frame of a `StackMapTable`, by its frame type tag.
#[derive(Clone, Copy, Debug, PartialEq, Eq, Structural)]
pub struct StackMapFrame {
    pub frame_type: u8,
}

/// An attribute of a `Code` attribute.
pub enum CodeAttributeInfo {
    LineNumberTable(Vec<LineNumberEntry>),
    LocalVariableTable(Vec<LocalVariableEntry>),
    LocalVariableTypeTable(Vec<LocalVariableTypeEntry>),
    StackMapTable(Vec<StackMapFrame>),
    Unknown { name_index: u16, info: Vec<u8> },
}

/// The `Code` attribute of a method as the class file gives it.
pub struct CodeAttribute {
    pub max_stack: u16,
    pub max_locals: u16,
    pub code: Vec<u8>,
    pub exception_table: Vec<ExceptionTableEntry>,
    pub attributes: Vec<CodeAttributeInfo>,
}

/// The access flags of a method.
#[derive(Clone, Copy, Debug, PartialEq, Eq, Structural)]
pub struct MethodFlags(pub u16);

/// `ACC_STATIC`.
pub const ACC_STATIC: u16 = 0x0008;

/// `ACC_NATIVE`.
pub const ACC_NATIVE: u16 = 0x0100;

/// `ACC_ABSTRACT`.
pub const ACC_ABSTRACT: u16 = 0x0400;

/// Whether `flags` holds the bit `bit`.
pub open spec fn has_flag(flags: MethodFlags, bit: u16) -> bool {
    flags.0 & bit != 0
}

impl MethodFlags {
    pub fn is_static(&self) -> (r: bool)
        ensures
            r == has_flag(*self, ACC_STATIC),
    {
        self.0 & ACC_STATIC != 0
    }

    pub fn is_native(&self) -> (r: bool)
        ensures
            r == has_flag(*self, ACC_NATIVE),
    {
        self.0 & ACC_NATIVE != 0
    }

    pub fn is_abstract(&self) -> (r: bool)
        ensures
            r == has_flag(*self, ACC_ABSTRACT),
    {
        self.0 & ACC_ABSTRACT != 0
    }
}

/// An attribute of a method.
pub enum MethodAttribute {
    Code(CodeAttribute),
    Exceptions(Vec<u16>),
    Signature(u16),
    Unknown { name_index: u16, info: Vec<u8> },
}

/// A method as the class file gives it.
pub struct MethodInfo {
    pub access_flags: MethodFlags,
    pub name_index: u16,
    pub descriptor_index: u16,
    pub attributes: Vec<MethodAttribute>,
}

/// The number of `StackMapTable` attributes among `a`.
pub open spec fn stack_map_count(a: Seq<CodeAttributeInfo>) -> nat
    decreases a.len(),
{
    if a.len() == 0 {
        0
    } else {
        stack_map_count(a.drop_last()) + if a.last() is StackMapTable { 1nat } else { 0nat }
    }
}

/// The entries of all `LineNumberTable` attributes among `a`, in order;
/// `None` when there is none.
pub open spec fn collected_lines(a: Seq<CodeAttributeInfo>) -> Option<Seq<LineNumberEntry>>
    decreases a.len(),
{
    if a.len() == 0 {
        None
    } else {
        let prev = collected_lines(a.drop_last());
        match a.last() {
            CodeAttributeInfo::LineNumberTable(v) => Some(
                match prev {
                    None => v@,
                    Some(p) => p + v@,
                },
            ),
            _ => prev,
        }
    }
}

/// Whether every attribute of a kind the runtime does not know comes only
/// after a second `StackMapTable`, which ends the reading with an error.
pub open spec fn known_code_attributes(a: Seq<CodeAttributeInfo>) -> bool {
    forall|i: int| 0 <= i < a.len() && #[trigger] a[i] is Unknown ==> stack_map_count(a.take(i)) >= 2
}

/// What the runtime keeps of a method's code.
pub struct CodeBodyView {
    pub code: Seq<u8>,
    pub max_stack: u16,
    pub max_locals: u16,
    pub line_numbers: Option<Seq<LineNumberEntry>>,
    pub exception_table: Seq<ExceptionTableEntry>,
}

/// The code of a bytecode method.
pub struct CodeBody {
    pub code: Vec<u8>,
    max_stack: u16,
    max_locals: u16,
    line_numbers: Option<Vec<LineNumberEntry>>,
    pub exception_table: Vec<ExceptionTableEntry>,
}

impl View for CodeBody {
    type V = CodeBodyView;

    closed spec fn view(&self) -> CodeBodyView {
        CodeBodyView {
            code: self.code@,
            max_stack: self.max_stack,
            max_locals: self.max_locals,
            line_numbers: match self.line_numbers {
                Some(v) => Some(v@),
                None => None,
            },
            exception_table: self.exception_table@,
        }
    }
}

/// The code body that a `Code` attribute makes: its code, limits and
/// exception table, and the line numbers of all its line number tables.
pub open spec fn code_body_of(ca: CodeAttribute) -> CodeBodyView {
    CodeBodyView {
        code: ca.code@,
        max_stack: ca.max_stack,
        max_locals: ca.max_locals,
        line_numbers: collected_lines(ca.attributes@),
        exception_table: ca.exception_table@,
    }
}

impl CodeBody {
    /// Reads a `Code` attribute; more than one `StackMapTable` is refused.
    pub fn try_from(code_attr: CodeAttribute) -> (r: Result<CodeBody, LinkageError>)
        requires
            known_code_attributes(code_attr.attributes@),
        ensures
            stack_map_count(code_attr.attributes@) >= 2 ==> r == Err::<CodeBody, LinkageError>(
                LinkageError::DuplicatedStackMapTable,
            ),
            stack_map_count(code_attr.attributes@) < 2 ==> (r matches Ok(body) && body@ == code_body_of(code_attr)),
    {
        let ghost all = code_attr.attributes@;
        let CodeAttribute { max_stack, max_locals, code, exception_table, attributes } = code_attr;
        let mut rest = attributes;
        let mut reversed: Vec<CodeAttributeInfo> = Vec::new();
        while rest.len() > 0
            invariant
                rest@.len() + reversed@.len() == all.len(),
                forall|i: int| 0 <= i < rest@.len() ==> rest@[i] == all[i],
                forall|j: int| 0 <= j < reversed@.len() ==> reversed@[j] == all[all.len() - 1 - j],
            decreases rest.len(),
        {
            let a = rest.pop().unwrap();
            reversed.push(a);
        }
        let mut line_numbers: Option<Vec<LineNumberEntry>> = None;
        let mut seen_stack_map = false;
        let ghost mut done: int = 0;
        while reversed.len() > 0
            invariant
                done + reversed@.len() == all.len(),
                all == code_attr.attributes@,
                0 <= done <= all.len(),
                forall|j: int| 0 <= j < reversed@.len() ==> reversed@[j] == all[all.len() - 1 - j],
                known_code_attributes(all),
                stack_map_count(all.take(done)) < 2,
                seen_stack_map == (stack_map_count(all.take(done)) == 1),
                match line_numbers {
                    None => collected_lines(all.take(done)) is None,
                    Some(v) => collected_lines(all.take(done)) == Some(v@),
                },
            decreases reversed.len(),
        {
            let a = reversed.pop().unwrap();
            proof {
                assert(a == all[done]);
                assert(all.take(done + 1).drop_last() =~= all.take(done));
                assert(all.take(done + 1).last() == all[done]);
            }
            match a {
                CodeAttributeInfo::LineNumberTable(v) => {
                    let mut v = v;
                    match line_numbers {
                        Some(mut cur) => {
                            cur.append(&mut v);
                            line_numbers = Some(cur);
                        },
                        None => {
                            line_numbers = Some(v);
                        },
                    }
                },
                CodeAttributeInfo::LocalVariableTable(_) => {},
                CodeAttributeInfo::LocalVariableTypeTable(_) => {},
                CodeAttributeInfo::StackMapTable(_) => {
                    if seen_stack_map {
                        proof {
                            assert(all[done] is StackMapTable);
                            assert(stack_map_count(all.take(done + 1)) == stack_map_count(all.take(done)) + 1);
                            lemma_stack_map_count_prefix(all, done + 1);
                        }
                        return Err(LinkageError::DuplicatedStackMapTable);
                    }
                    seen_stack_map = true;
                },
                CodeAttributeInfo::Unknown { .. } => {
                    proof {
                        assert(all[done] is Unknown);
                        assert(false);
                    }
                },
            }
            proof {
                done = done + 1;
            }
        }
        assert(all.take(done) =~= all);
        Ok(CodeBody { code, max_stack, max_locals, line_numbers, exception_table })
    }
}

/// How a method runs.
pub enum MethodBody {
    Interpreted(CodeBody),
    Native,
    Abstract,
}

/// What a method's body is, with the code of a bytecode method.
pub enum MethodBodyView {
    Interpreted(CodeBodyView),
    Native,
    Abstract,
}

/// A method of a loaded class.
pub struct Method {
    class_id: ClassId,
    pub name: Symbol,
    pub desc: Symbol,
    descriptor_id: MethodDescriptorId,
    flags: MethodFlags,
    body: MethodBody,
}

/// The first `Code` attribute among `a`.
pub open spec fn first_code(a: Seq<MethodAttribute>) -> Option<CodeAttribute>
    decreases a.len(),
{
    if a.len() == 0 {
        None
    } else if a[0] is Code {
        Some(a[0]->Code_0)
    } else {
        first_code(a.drop_first())
    }
}

/// The body a method of these flags and attributes gets: abstract and native
/// methods have no code; others run the code of their first `Code` attribute.
pub open spec fn body_of(flags: MethodFlags, attributes: Seq<MethodAttribute>) -> MethodBodyView {
    if has_flag(flags, ACC_ABSTRACT) {
        MethodBodyView::Abstract
    } else if has_flag(flags, ACC_NATIVE) {
        MethodBodyView::Native
    } else {
        MethodBodyView::Interpreted(code_body_of(first_code(attributes)->0))
    }
}

/// Whether a method with this class-file description can be built: a
/// bytecode method has a `Code` attribute that reads without error.
pub open spec fn method_info_ok(info: MethodInfo) -> bool {
    !has_flag(info.access_flags, ACC_ABSTRACT) && !has_flag(info.access_flags, ACC_NATIVE) ==> {
        &&& first_code(info.attributes@) is Some
        &&& known_code_attributes(first_code(info.attributes@)->0.attributes@)
        &&& stack_map_count(first_code(info.attributes@)->0.attributes@) < 2
    }
}

/// The source line of the code at `pc`, by a non-empty line number table:
/// that of the last entry of the leading run of entries starting at or
/// before `pc`, or that of the first entry when none does.
pub open spec fn line_at(table: Seq<LineNumberEntry>, pc: int) -> int {
    let k = leading_entries(table, pc);
    if k == 0 { table[0].line_number as int } else { table[k - 1].line_number as int }
}

/// The number of leading entries of `table` that start at or before `pc`.
pub open spec fn leading_entries(table: Seq<LineNumberEntry>, pc: int) -> int
    decreases table.len(),
{
    if table.len() == 0 || table[0].start_pc > pc {
        0
    } else {
        1 + leading_entries(table.drop_first(), pc)
    }
}

/// The pc a code position stands for when looking up its line: a negative
/// one lies after all code.
pub open spec fn lookup_pc(cp: i32) -> int {
    if cp < 0 { 0x10000 } else { cp as int }
}

/// Whether the exception table entry covers the code at `pc`.
pub open spec fn covers(entry: ExceptionTableEntry, pc: int) -> bool {
    entry.start_pc <= pc < entry.end_pc
}

/// An exception table entry covers a pc exactly when the pc lies from its
/// start, included, to its end, excluded: it covers its own start and no pc
/// before it, and not its end.
pub proof fn law_entry_covers_its_range(entry: ExceptionTableEntry, pc: int)
    ensures
        covers(entry, pc) <==> (entry.start_pc <= pc && pc < entry.end_pc),
        entry.start_pc < entry.end_pc ==> covers(entry, entry.start_pc as int),
        !covers(entry, entry.end_pc as int),
        pc < entry.start_pc ==> !covers(entry, pc),
{
}

/// The error of asking a method without code for its code.
pub open spec fn not_interpretable(e: JvmError) -> bool {
    raises_with_message(e, JavaExceptionKind::InternalError, "Method is not interpretable"@)
}

fn not_interpretable_error() -> (e: JvmError)
    ensures
        not_interpretable(e),
{
    JvmError::JavaException(
        JavaExceptionFromJvm::with_message(JavaExceptionKind::InternalError, "Method is not interpretable".to_string()),
    )
}

/// The source line of the code position `cp` in `m`: -2 (a native frame)
/// stays -2; `None` when the method has no line numbers.
pub open spec fn line_number_by_cp(m: Method, cp: i32) -> Option<i32> {
    if cp == -2 {
        Some(-2i32)
    } else {
        match m.body_view() {
            MethodBodyView::Interpreted(c) => match c.line_numbers {
                Some(t) => if t.len() == 0 { None } else { Some(line_at(t, lookup_pc(cp)) as i32) },
                None => None,
            },
            _ => None,
        }
    }
}

impl Method {
    /// What the method's body is.
    pub closed spec fn body_view(&self) -> MethodBodyView {
        match self.body {
            MethodBody::Interpreted(c) => MethodBodyView::Interpreted(c@),
            MethodBody::Native => MethodBodyView::Native,
            MethodBody::Abstract => MethodBodyView::Abstract,
        }
    }

    /// The class that declares the method.
    pub closed spec fn spec_class_id(&self) -> ClassId {
        self.class_id
    }

    /// The method's name.
    pub closed spec fn spec_name(&self) -> Symbol {
        self.name
    }

    /// The method's descriptor.
    pub closed spec fn spec_desc(&self) -> Symbol {
        self.desc
    }

    /// The method's descriptor id.
    pub closed spec fn spec_descriptor_id(&self) -> MethodDescriptorId {
        self.descriptor_id
    }

    /// The method's access flags.
    pub closed spec fn spec_flags(&self) -> MethodFlags {
        self.flags
    }

    /// Builds the method of class `class_id` that `method_info` describes.
    pub fn new(
        method_info: MethodInfo,
        class_id: ClassId,
        descriptor_id: MethodDescriptorId,
        name: Symbol,
        desc: Symbol,
    ) -> (r: Method)
        requires
            method_info_ok(method_info),
        ensures
            r.spec_class_id() == class_id,
            r.spec_name() == name,
            r.spec_desc() == desc,
            r.spec_descriptor_id() == descriptor_id,
            r.spec_flags() == method_info.access_flags,
            r.body_view() == body_of(method_info.access_flags, method_info.attributes@),
    {
        let ghost attrs = method_info.attributes@;
        let MethodInfo { access_flags: flags, attributes, .. } = method_info;
        let body = if flags.is_abstract() {
            MethodBody::Abstract
        } else if flags.is_native() {
            MethodBody::Native
        } else {
            let mut attributes = attributes;
            let mut i: usize = 0;
            assert(attrs.skip(0) =~= attrs);
            while i < attributes.len()
                invariant
                    attributes@ == attrs,
                    i <= attrs.len(),
                    first_code(attrs) is Some,
                    first_code(attrs.skip(i as int)) == first_code(attrs),
                ensures
                    i < attrs.len(),
                    first_code(attrs) == Some(attrs[i as int]->Code_0),
                    attrs[i as int] is Code,
                decreases attrs.len() - i,
            {
                assert(attrs.skip(i as int)[0] == attrs[i as int]);
                if let MethodAttribute::Code(_) = &attributes[i] {
                    break;
                }
                proof {
                    assert(attrs.skip(i as int).drop_first() =~= attrs.skip(i + 1));
                }
                i = i + 1;
            }
            match attributes.remove(i) {
                MethodAttribute::Code(code_attr) => match CodeBody::try_from(code_attr) {
                    Ok(code_body) => MethodBody::Interpreted(code_body),
                    Err(_) => MethodBody::Abstract,
                },
                _ => MethodBody::Abstract,
            }
        };
        Method { class_id, name, desc, descriptor_id, flags, body }
    }

    /// The method's name.
    pub fn name(&self) -> (r: Symbol)
        ensures
            r == self.spec_name(),
    {
        self.name
    }

    /// The class that declares the method.
    pub fn class_id(&self) -> (r: ClassId)
        ensures
            r == self.spec_class_id(),
    {
        self.class_id
    }

    /// Whether the method is static.
    pub fn is_static(&self) -> (r: bool)
        ensures
            r == has_flag(self.spec_flags(), ACC_STATIC),
    {
        self.flags.is_static()
    }

    /// Whether the method is abstract.
    pub fn is_abstract(&self) -> (r: bool)
        ensures
            r == has_flag(self.spec_flags(), ACC_ABSTRACT),
    {
        self.flags.is_abstract()
    }

    /// Whether the method is native.
    pub fn is_native(&self) -> (r: bool)
        ensures
            r == has_flag(self.spec_flags(), ACC_NATIVE),
    {
        self.flags.is_native()
    }

    /// The method's descriptor id.
    pub fn descriptor_id(&self) -> (r: MethodDescriptorId)
        ensures
            r == self.spec_descriptor_id(),
    {
        self.descriptor_id
    }

    /// The operand stack and local variable sizes of a frame of the method:
    /// 256 each for a bytecode method.
    pub fn get_frame_attributes(&self) -> (r: Result<(u16, u16), JvmError>)
        ensures
            self.body_view() is Interpreted ==> r == Ok::<(u16, u16), JvmError>((256u16, 256u16)),
            !(self.body_view() is Interpreted) ==> (r matches Err(e) && not_interpretable(e)),
    {
        match &self.body {
            MethodBody::Interpreted(_) => Ok((256, 256)),
            _ => Err(not_interpretable_error()),
        }
    }

    /// The exception table of a bytecode method.
    pub fn get_exception_table(&self) -> (r: Result<&[ExceptionTableEntry], JvmError>)
        ensures
            match self.body_view() {
                MethodBodyView::Interpreted(c) => r matches Ok(t) && t@ == c.exception_table,
                _ => r matches Err(e) && not_interpretable(e),
            },
    {
        match &self.body {
            MethodBody::Interpreted(code_body) => Ok(code_body.exception_table.as_slice()),
            _ => Err(not_interpretable_error()),
        }
    }

    /// The code of a bytecode method.
    pub fn get_code(&self) -> (r: Result<&[u8], JvmError>)
        ensures
            match self.body_view() {
                MethodBodyView::Interpreted(c) => r matches Ok(t) && t@ == c.code,
                _ => r matches Err(e) && not_interpretable(e),
            },
    {
        match &self.body {
            MethodBody::Interpreted(code_body) => Ok(code_body.code.as_slice()),
            _ => Err(not_interpretable_error()),
        }
    }

    /// The source line of the code position `cp`; -2 marks a native frame
    /// and stays -2. `None` when the method has no line numbers.
    pub fn get_line_number_by_cp(&self, cp: i32) -> (r: Option<i32>)
        ensures
            r == line_number_by_cp(*self, cp),
    {
        if cp == -2 {
            return Some(-2);
        }
        let pc: u32 = if cp < 0 { 0x10000 } else { cp as u32 };
        let ctx = match &self.body {
            MethodBody::Interpreted(ctx) => ctx,
            _ => {
                return None;
            },
        };
        let ln_table = match &ctx.line_numbers {
            Some(t) => t,
            None => {
                return None;
            },
        };
        if ln_table.len() == 0 {
            return None;
        }
        let ghost t = ln_table@;
        let mut result: Option<i32> = None;
        let mut i: usize = 0;
        assert(t.skip(0) =~= t);
        while i < ln_table.len()
            invariant
                t == ln_table@,
                t.len() > 0,
                pc == lookup_pc(cp),
                i <= t.len(),
                leading_entries(t, pc as int) == i + leading_entries(t.skip(i as int), pc as int),
                i == 0 ==> result is None,
                i > 0 ==> result == Some(t[i - 1].line_number as i32),
            ensures
                leading_entries(t, pc as int) == i,
                i == 0 ==> result is None,
                i > 0 ==> result == Some(t[i - 1].line_number as i32),
            decreases t.len() - i,
        {
            let entry = ln_table[i];
            proof {
                assert(t.skip(i as int)[0] == entry);
                assert(t.skip(i as int).drop_first() =~= t.skip(i + 1));
            }
            if entry.start_pc as u32 <= pc {
                result = Some(entry.line_number as i32);
            } else {
                break;
            }
            i = i + 1;
        }
        match result {
            Some(line) => Some(line),
            None => Some(ln_table[0].line_number as i32),
        }
    }
}

/// Counting stack map tables over a longer prefix counts no fewer.
proof fn lemma_stack_map_count_prefix(a: Seq<CodeAttributeInfo>, k: int)
    requires
        0 <= k <= a.len(),
    ensures
        stack_map_count(a.take(k)) <= stack_map_count(a),
    decreases a.len() - k,
{
    if k < a.len() {
        lemma_stack_map_count_prefix(a, k + 1);
        assert(a.take(k + 1).drop_last() =~= a.take(k));
    } else {
        assert(a.take(k) =~= a);
    }
}

} // verus!
