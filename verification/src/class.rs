//! What the runtime keeps of a loaded class: its name, flags, superclass,
//! initialization state, mirror, interfaces, static fields and class
//! initializer; and the classes of primitive types and arrays.
use crate::constant_pool::{
    runtime_constant_of, supported, BootstrapMethodEntry, ConstantInfo, RuntimeConstantPool,
};
use crate::error::{ExceptionMessage, HeapRef, JavaExceptionFromJvm, JavaExceptionKind, JvmError};
use crate::keys::{ClassId, FieldDescriptorId, FieldKey, MethodId, MethodKey, Symbol};
use crate::value::{PrimitiveType, Value};
use vstd::prelude::*;

verus! {

/// How far a class has come: loaded, linked, initializing (its class
/// initializer runs) or initialized.
#[derive(Debug, Clone, Copy, PartialEq, Eq, Structural)]
pub enum ClassState {
    Loaded,
    Linked,
    Initializing,
    Initialized,
}

/// The state a stored number stands for.
pub open spec fn state_of(v: u8) -> ClassState {
    if v == 0 {
        ClassState::Loaded
    } else if v == 1 {
        ClassState::Linked
    } else if v == 2 {
        ClassState::Initializing
    } else {
        ClassState::Initialized
    }
}

impl ClassState {
    /// The state stored as `v`, one of 0 to 3.
    pub fn from(v: u8) -> (r: ClassState)
        requires
            v <= 3,
        ensures
            r == state_of(v),
    {
        match v {
            0 => ClassState::Loaded,
            1 => ClassState::Linked,
            2 => ClassState::Initializing,
            _ => ClassState::Initialized,
        }
    }
}

/// The access flags of a class.
#[derive(Clone, Copy, Debug, PartialEq, Eq, Structural)]
pub struct ClassFlags(pub u16);

/// The access flags of a field.
#[derive(Clone, Copy, Debug, PartialEq, Eq, Structural)]
pub struct FieldFlags(pub u16);

/// A field of the instances of a class, at `offset` of their data.
#[derive(Clone, Copy, Debug, PartialEq, Eq, Structural)]
pub struct InstanceField {
    pub flags: FieldFlags,
    pub descriptor_id: FieldDescriptorId,
    pub offset: usize,
    pub declaring_class: ClassId,
}

/// A static field of a class and its value.
#[derive(Clone, Copy, Debug, PartialEq, Eq, Structural)]
pub struct StaticField {
    pub flags: FieldFlags,
    pub descriptor: FieldDescriptorId,
    pub value: Value,
}

/// The value of the last entry for `k` among `entries`.
pub open spec fn lookup_field(entries: Seq<(FieldKey, StaticField)>, k: FieldKey) -> Option<StaticField>
    decreases entries.len(),
{
    if entries.len() == 0 {
        None
    } else if entries.last().0 == k {
        Some(entries.last().1)
    } else {
        lookup_field(entries.drop_last(), k)
    }
}

/// The static fields of `entries`, by key, later entries overriding earlier ones.
pub open spec fn field_map(entries: Seq<(FieldKey, StaticField)>) -> Map<FieldKey, StaticField> {
    Map::new(|k: FieldKey| lookup_field(entries, k) is Some, |k: FieldKey| lookup_field(entries, k)->0)
}

/// What every loaded class has.
pub struct BaseClass {
    name: Symbol,
    flags: ClassFlags,
    super_id: Option<ClassId>,
    state: ClassState,
    mirror_ref: Option<HeapRef>,
    interfaces: Option<Vec<ClassId>>,
    direct_interfaces: Option<Vec<ClassId>>,
    static_fields: Option<Vec<(FieldKey, StaticField)>>,
    clinit: Option<MethodId>,
    source_file: Option<Symbol>,
}

/// What a class is, as specifications see it.
pub struct BaseClassView {
    pub name: Symbol,
    pub flags: ClassFlags,
    pub super_id: Option<ClassId>,
    pub state: ClassState,
    pub mirror_ref: Option<HeapRef>,
    pub interfaces: Option<Seq<ClassId>>,
    pub direct_interfaces: Option<Seq<ClassId>>,
    pub static_fields: Option<Map<FieldKey, StaticField>>,
    pub clinit: Option<MethodId>,
    pub source_file: Option<Symbol>,
}

impl View for BaseClass {
    type V = BaseClassView;

    closed spec fn view(&self) -> BaseClassView {
        BaseClassView {
            name: self.name,
            flags: self.flags,
            super_id: self.super_id,
            state: self.state,
            mirror_ref: self.mirror_ref,
            interfaces: match self.interfaces {
                Some(v) => Some(v@),
                None => None,
            },
            direct_interfaces: match self.direct_interfaces {
                Some(v) => Some(v@),
                None => None,
            },
            static_fields: match self.static_fields {
                Some(v) => Some(field_map(v@)),
                None => None,
            },
            clinit: self.clinit,
            source_file: self.source_file,
        }
    }
}

/// Whether `r` is the error `JvmError::Todo(msg)`.
pub open spec fn is_todo<T>(r: Result<T, JvmError>, msg: Seq<char>) -> bool {
    r matches Err(JvmError::Todo(s)) && s@ == msg
}

impl BaseClass {
    /// A class just loaded: nothing linked, no mirror, no initializer.
    pub fn new(name: Symbol, flags: ClassFlags, super_id: Option<ClassId>, source_file: Option<Symbol>) -> (r: BaseClass)
        ensures
            r@ == (BaseClassView {
                name,
                flags,
                super_id,
                state: ClassState::Loaded,
                mirror_ref: None,
                interfaces: None,
                direct_interfaces: None,
                static_fields: None,
                clinit: None,
                source_file,
            }),
    {
        BaseClass {
            name,
            flags,
            super_id,
            source_file,
            state: ClassState::Loaded,
            mirror_ref: None,
            interfaces: None,
            direct_interfaces: None,
            static_fields: None,
            clinit: None,
        }
    }

    /// Records the class initializer; refused when it is already known.
    pub fn set_clinit(&mut self, method_id: MethodId) -> (r: Result<(), JvmError>)
        ensures
            old(self)@.clinit is Some ==> final(self)@ == old(self)@ && is_todo(r, "BaseClass clinit already set"@),
            old(self)@.clinit is None ==> final(self)@ == (BaseClassView { clinit: Some(method_id), ..old(self)@ }) && r is Ok,
    {
        if self.clinit.is_some() {
            return Err(JvmError::Todo("BaseClass clinit already set".to_string()));
        }
        self.clinit = Some(method_id);
        Ok(())
    }

    /// The class initializer, if the class has one.
    pub fn get_clinit_method_id(&self) -> (r: Option<MethodId>)
        ensures
            r == self@.clinit,
    {
        self.clinit
    }

    /// Whether the class has an initializer.
    pub fn has_clinit(&self) -> (r: bool)
        ensures
            r == self@.clinit is Some,
    {
        self.clinit.is_some()
    }

    /// The class's name.
    pub fn name(&self) -> (r: Symbol)
        ensures
            r == self@.name,
    {
        self.name
    }

    /// The class's access flags.
    pub fn flags(&self) -> (r: ClassFlags)
        ensures
            r == self@.flags,
    {
        self.flags
    }

    /// Records the class's mirror; refused when it already has one.
    pub fn set_mirror_ref(&mut self, heap_ref: HeapRef) -> (r: Result<(), JvmError>)
        ensures
            old(self)@.mirror_ref is Some ==> final(self)@ == old(self)@ && is_todo(r, "Mirror ref already set"@),
            old(self)@.mirror_ref is None ==> final(self)@ == (BaseClassView { mirror_ref: Some(heap_ref), ..old(self)@ }) && r is Ok,
    {
        if self.mirror_ref.is_some() {
            return Err(JvmError::Todo("Mirror ref already set".to_string()));
        }
        self.mirror_ref = Some(heap_ref);
        Ok(())
    }

    /// The class's mirror, once created.
    pub fn get_mirror_ref(&self) -> (r: Option<HeapRef>)
        ensures
            r == self@.mirror_ref,
    {
        self.mirror_ref
    }

    /// The superclass.
    pub fn get_super(&self) -> (r: Option<ClassId>)
        ensures
            r == self@.super_id,
    {
        self.super_id
    }

    /// The source file name.
    pub fn get_source_file(&self) -> (r: Option<Symbol>)
        ensures
            r == self@.source_file,
    {
        self.source_file
    }

    /// All interfaces of the class, once linked.
    pub fn get_interfaces(&self) -> (r: Result<&Vec<ClassId>, JvmError>)
        ensures
            match self@.interfaces {
                Some(s) => r matches Ok(v) && v@ == s,
                None => is_todo(r, "BaseClass interfaces not set"@),
            },
    {
        match &self.interfaces {
            Some(v) => Ok(v),
            None => Err(JvmError::Todo("BaseClass interfaces not set".to_string())),
        }
    }

    /// The interfaces the class names itself, once linked.
    pub fn get_direct_interfaces(&self) -> (r: Result<&Vec<ClassId>, JvmError>)
        ensures
            match self@.direct_interfaces {
                Some(s) => r matches Ok(v) && v@ == s,
                None => is_todo(r, "BaseClass direct_interfaces not set"@),
            },
    {
        match &self.direct_interfaces {
            Some(v) => Ok(v),
            None => Err(JvmError::Todo("BaseClass direct_interfaces not set".to_string())),
        }
    }

    /// Records all interfaces of the class; refused when already known.
    pub fn set_interfaces(&mut self, interfaces: Vec<ClassId>) -> (r: Result<(), JvmError>)
        ensures
            old(self)@.interfaces is Some ==> final(self)@ == old(self)@ && is_todo(r, "BaseClass interfaces already set"@),
            old(self)@.interfaces is None ==> final(self)@ == (BaseClassView { interfaces: Some(interfaces@), ..old(self)@ }) && r is Ok,
    {
        if self.interfaces.is_some() {
            return Err(JvmError::Todo("BaseClass interfaces already set".to_string()));
        }
        self.interfaces = Some(interfaces);
        Ok(())
    }

    /// Records the interfaces the class names itself; refused when already known.
    pub fn set_direct_interfaces(&mut self, interfaces: Vec<ClassId>) -> (r: Result<(), JvmError>)
        ensures
            old(self)@.direct_interfaces is Some ==> final(self)@ == old(self)@ && is_todo(
                r,
                "BaseClass direct_interfaces already set"@,
            ),
            old(self)@.direct_interfaces is None ==> final(self)@ == (BaseClassView {
                direct_interfaces: Some(interfaces@),
                ..old(self)@
            }) && r is Ok,
    {
        if self.direct_interfaces.is_some() {
            return Err(JvmError::Todo("BaseClass direct_interfaces already set".to_string()));
        }
        self.direct_interfaces = Some(interfaces);
        Ok(())
    }

    /// Records the static fields; refused when already known.
    pub fn set_static_fields(&mut self, static_fields: Vec<(FieldKey, StaticField)>) -> (r: Result<(), JvmError>)
        ensures
            old(self)@.static_fields is Some ==> final(self)@ == old(self)@ && is_todo(
                r,
                "BaseClass static_fields already set"@,
            ),
            old(self)@.static_fields is None ==> final(self)@ == (BaseClassView {
                static_fields: Some(field_map(static_fields@)),
                ..old(self)@
            }) && r is Ok,
    {
        if self.static_fields.is_some() {
            return Err(JvmError::Todo("BaseClass static_fields already set".to_string()));
        }
        self.static_fields = Some(static_fields);
        Ok(())
    }

    /// Whether the class has the static field `field_key`.
    pub fn has_static_field(&self, field_key: &FieldKey) -> (r: Result<bool, JvmError>)
        ensures
            match self@.static_fields {
                Some(m) => r == Ok::<bool, JvmError>(m.contains_key(*field_key)),
                None => is_todo(r, "BaseClass static_fields not set"@),
            },
    {
        match &self.static_fields {
            Some(fields) => Ok(find_field(fields, field_key).is_some()),
            None => Err(JvmError::Todo("BaseClass static_fields not set".to_string())),
        }
    }

    /// The value of the static field `field_key`.
    pub fn get_static_field_value(&self, field_key: &FieldKey) -> (r: Result<Value, JvmError>)
        ensures
            match self@.static_fields {
                Some(m) => if m.contains_key(*field_key) {
                    r == Ok::<Value, JvmError>(m[*field_key].value)
                } else {
                    is_todo(r, "No such field"@)
                },
                None => is_todo(r, "BaseClass static_fields not set"@),
            },
    {
        match &self.static_fields {
            Some(fields) => match find_field(fields, field_key) {
                Some(i) => Ok(fields[i].1.value),
                None => Err(JvmError::Todo("No such field".to_string())),
            },
            None => Err(JvmError::Todo("BaseClass static_fields not set".to_string())),
        }
    }

    /// Sets the value of the static field `field_key`.
    pub fn set_static_field_value(&mut self, field_key: &FieldKey, value: Value) -> (r: Result<(), JvmError>)
        ensures
            match old(self)@.static_fields {
                Some(m) => if m.contains_key(*field_key) {
                    r is Ok && final(self)@ == (BaseClassView {
                        static_fields: Some(m.insert(*field_key, StaticField { value, ..m[*field_key] })),
                        ..old(self)@
                    })
                } else {
                    final(self)@ == old(self)@ && is_todo(r, "No such field"@)
                },
                None => final(self)@ == old(self)@ && is_todo(r, "BaseClass static_fields not set"@),
            },
    {
        match &mut self.static_fields {
            Some(fields) => match find_field(fields, field_key) {
                Some(i) => {
                    let ghost old_fields = fields@;
                    let mut field = fields[i].1;
                    field.value = value;
                    fields.set(i, (*field_key, field));
                    proof {
                        lemma_field_map_set(old_fields, i as int, *field_key, field);
                    }
                    Ok(())
                },
                None => Err(JvmError::Todo("No such field".to_string())),
            },
            None => Err(JvmError::Todo("BaseClass static_fields not set".to_string())),
        }
    }

    /// The initialization state.
    pub fn state(&self) -> (r: ClassState)
        ensures
            r == self@.state,
    {
        self.state
    }

    /// Marks the class loaded.
    pub fn set_loaded(&mut self)
        ensures
            final(self)@ == (BaseClassView { state: ClassState::Loaded, ..old(self)@ }),
    {
        self.state = ClassState::Loaded;
    }

    /// Marks the class linked.
    pub fn set_linked(&mut self)
        ensures
            final(self)@ == (BaseClassView { state: ClassState::Linked, ..old(self)@ }),
    {
        self.state = ClassState::Linked;
    }

    /// Whether the class initializer is running.
    pub fn is_initializing(&self) -> (r: bool)
        ensures
            r == (self@.state == ClassState::Initializing),
    {
        self.state == ClassState::Initializing
    }

    /// Marks the class as running its initializer.
    pub fn set_initializing(&mut self)
        ensures
            final(self)@ == (BaseClassView { state: ClassState::Initializing, ..old(self)@ }),
    {
        self.state = ClassState::Initializing;
    }

    /// Marks the class initialized.
    pub fn set_initialized(&mut self)
        ensures
            final(self)@ == (BaseClassView { state: ClassState::Initialized, ..old(self)@ }),
    {
        self.state = ClassState::Initialized;
    }

    /// Whether the class is initialized or running its initializer.
    pub fn is_initialized_or_initializing(&self) -> (r: bool)
        ensures
            r == (self@.state == ClassState::Initialized || self@.state == ClassState::Initializing),
    {
        self.state == ClassState::Initialized || self.state == ClassState::Initializing
    }
}

/// The index of the last entry for `key`.
fn find_field(fields: &Vec<(FieldKey, StaticField)>, key: &FieldKey) -> (r: Option<usize>)
    ensures
        match r {
            Some(i) => i < fields@.len() && fields@[i as int].0 == *key && lookup_field(fields@, *key) == Some(
                fields@[i as int].1,
            ) && forall|j: int| i < j < fields@.len() ==> fields@[j].0 != *key,
            None => lookup_field(fields@, *key) is None,
        },
{
    let mut i = fields.len();
    assert(fields@.take(i as int) =~= fields@);
    while i > 0
        invariant
            i <= fields@.len(),
            lookup_field(fields@, *key) == lookup_field(fields@.take(i as int), *key),
            forall|j: int| i <= j < fields@.len() ==> fields@[j].0 != *key,
        decreases i,
    {
        proof {
            assert(fields@.take(i as int).drop_last() =~= fields@.take(i - 1));
        }
        if fields[i - 1].0 == *key {
            return Some(i - 1);
        }
        i = i - 1;
    }
    None
}

/// Replacing the last entry of a key keeps the other keys and gives the key
/// its new field.
proof fn lemma_field_map_set(entries: Seq<(FieldKey, StaticField)>, i: int, k: FieldKey, f: StaticField)
    requires
        0 <= i < entries.len(),
        entries[i].0 == k,
        lookup_field(entries, k) == Some(entries[i].1),
        forall|j: int| i < j < entries.len() ==> entries[j].0 != k,
    ensures
        field_map(entries.update(i, (k, f))) == field_map(entries).insert(k, f),
{
    lemma_lookup_update(entries, i, k, f);
    assert(field_map(entries.update(i, (k, f))) =~= field_map(entries).insert(k, f));
}

proof fn lemma_lookup_update(entries: Seq<(FieldKey, StaticField)>, i: int, k: FieldKey, f: StaticField)
    requires
        0 <= i < entries.len(),
        entries[i].0 == k,
        forall|j: int| i < j < entries.len() ==> entries[j].0 != k,
    ensures
        forall|k2: FieldKey|
            #[trigger] lookup_field(entries.update(i, (k, f)), k2) == if k2 == k {
                Some(f)
            } else {
                lookup_field(entries, k2)
            },
    decreases entries.len(),
{
    let u = entries.update(i, (k, f));
    if i == entries.len() - 1 {
        assert(u.drop_last() =~= entries.drop_last());
        assert forall|k2: FieldKey| #[trigger] lookup_field(u, k2) == if k2 == k {
            Some(f)
        } else {
            lookup_field(entries, k2)
        } by {
            assert(u.last() == (k, f));
        }
    } else {
        assert(u.drop_last() =~= entries.drop_last().update(i, (k, f)));
        lemma_lookup_update(entries.drop_last(), i, k, f);
        assert forall|k2: FieldKey| #[trigger] lookup_field(u, k2) == if k2 == k {
            Some(f)
        } else {
            lookup_field(entries, k2)
        } by {
            assert(u.last() == entries.last());
            assert(lookup_field(u.drop_last(), k2) == if k2 == k {
                Some(f)
            } else {
                lookup_field(entries.drop_last(), k2)
            });
        }
    }
}

/// The position of the last entry for `k` in a vtable index.
pub open spec fn lookup_slot(index: Seq<(MethodKey, u16)>, k: MethodKey) -> Option<u16>
    decreases index.len(),
{
    if index.len() == 0 {
        None
    } else if index.last().0 == k {
        Some(index.last().1)
    } else {
        lookup_slot(index.drop_last(), k)
    }
}

/// Whether every slot of `index` lies in a vtable of `len` methods.
pub open spec fn slots_in(index: Seq<(MethodKey, u16)>, len: nat) -> bool {
    forall|i: int| 0 <= i < index.len() ==> (#[trigger] index[i]).1 < len
}

/// The error of a method `key` that the class `class_sym` lacks.
pub open spec fn no_such_method(e: JvmError, key: MethodKey, class_sym: Symbol) -> bool {
    e == JvmError::JavaException(JavaExceptionFromJvm {
        kind: JavaExceptionKind::NoSuchMethodError,
        message: Some(ExceptionMessage::MethodNotFound(key, class_sym)),
        cause: None,
    })
}

/// What looking a method up in a vtable gives: the method in its slot, or
/// `NoSuchMethodError` naming the key and class.
pub open spec fn vtable_post(
    vtable: Seq<MethodId>,
    index: Seq<(MethodKey, u16)>,
    key: MethodKey,
    class_sym: Symbol,
    r: Result<MethodId, JvmError>,
) -> bool {
    match lookup_slot(index, key) {
        Some(pos) => r == Ok::<MethodId, JvmError>(vtable[pos as int]),
        None => r matches Err(e) && no_such_method(e, key, class_sym),
    }
}

fn vtable_lookup(vtable: &Vec<MethodId>, index: &Vec<(MethodKey, u16)>, key: &MethodKey, class_sym: Symbol) -> (r: Result<
    MethodId,
    JvmError,
>)
    requires
        slots_in(index@, vtable@.len()),
    ensures
        vtable_post(vtable@, index@, *key, class_sym, r),
{
    let mut i = index.len();
    assert(index@.take(i as int) =~= index@);
    while i > 0
        invariant
            i <= index@.len(),
            lookup_slot(index@, *key) == lookup_slot(index@.take(i as int), *key),
            slots_in(index@, vtable@.len()),
        decreases i,
    {
        proof {
            assert(index@.take(i as int).drop_last() =~= index@.take(i - 1));
        }
        let (k, pos) = index[i - 1];
        if k == *key {
            assert(index@[i - 1].1 < vtable@.len());
            return Ok(vtable[pos as usize]);
        }
        i = i - 1;
    }
    Err(
        JvmError::JavaException(
            JavaExceptionFromJvm::with_method_not_found(JavaExceptionKind::NoSuchMethodError, *key, class_sym),
        ),
    )
}

/// The class of a primitive type, such as `int`.
pub struct PrimitiveClass {
    pub name: Symbol,
    pub primitive_type: PrimitiveType,
    pub mirror_ref: Option<HeapRef>,
}

impl PrimitiveClass {
    /// The class of the primitive type `primitive_type`, with no mirror yet.
    pub fn new(name: Symbol, primitive_type: PrimitiveType) -> (r: PrimitiveClass)
        ensures
            r.name == name,
            r.primitive_type == primitive_type,
            r.mirror_ref is None,
    {
        PrimitiveClass { name, primitive_type, mirror_ref: None }
    }

    /// The mirror, once created.
    pub fn get_mirror_ref(&self) -> (r: Option<HeapRef>)
        ensures
            r == self.mirror_ref,
    {
        self.mirror_ref
    }

    /// Records the mirror; refused when there is one.
    pub fn set_mirror_ref(&mut self, mirror: HeapRef) -> (r: Result<(), JvmError>)
        ensures
            old(self).mirror_ref is Some ==> *final(self) == *old(self) && is_todo(r, "PrimitiveClass mirror_ref already set"@),
            old(self).mirror_ref is None ==> *final(self) == (PrimitiveClass { mirror_ref: Some(mirror), ..*old(self) }) && r is Ok,
    {
        if self.mirror_ref.is_some() {
            return Err(JvmError::Todo("PrimitiveClass mirror_ref already set".to_string()));
        }
        self.mirror_ref = Some(mirror);
        Ok(())
    }
}

/// The class of arrays of a primitive type.
pub struct PrimitiveArrayClass {
    pub name: Symbol,
    pub super_id: ClassId,
    pub element_type: PrimitiveType,
    pub vtable: Vec<MethodId>,
    pub vtable_index: Vec<(MethodKey, u16)>,
    pub mirror_ref: Option<HeapRef>,
}

impl PrimitiveArrayClass {
    /// The mirror, once created.
    pub fn get_mirror_ref(&self) -> (r: Option<HeapRef>)
        ensures
            r == self.mirror_ref,
    {
        self.mirror_ref
    }

    /// Records the mirror; refused when there is one.
    pub fn set_mirror_ref(&mut self, mirror: HeapRef) -> (r: Result<(), JvmError>)
        ensures
            old(self).mirror_ref is Some ==> final(self).mirror_ref == old(self).mirror_ref && is_todo(
                r,
                "PrimitiveArrayClass mirror_ref already set"@,
            ),
            old(self).mirror_ref is None ==> final(self).mirror_ref == Some(mirror) && r is Ok,
            final(self).name == old(self).name,
            final(self).super_id == old(self).super_id,
            final(self).element_type == old(self).element_type,
            final(self).vtable@ == old(self).vtable@,
            final(self).vtable_index@ == old(self).vtable_index@,
    {
        if self.mirror_ref.is_some() {
            return Err(JvmError::Todo("PrimitiveArrayClass mirror_ref already set".to_string()));
        }
        self.mirror_ref = Some(mirror);
        Ok(())
    }

    /// The method that `key` names in the array class's vtable.
    pub fn get_vtable_method_id(&self, key: &MethodKey) -> (r: Result<MethodId, JvmError>)
        requires
            slots_in(self.vtable_index@, self.vtable@.len()),
        ensures
            vtable_post(self.vtable@, self.vtable_index@, *key, self.name, r),
    {
        vtable_lookup(&self.vtable, &self.vtable_index, key, self.name)
    }
}

/// The class of arrays of objects of a class.
pub struct ObjectArrayClass {
    pub name: Symbol,
    pub super_id: ClassId,
    pub element_class_id: ClassId,
    pub vtable: Vec<MethodId>,
    pub vtable_index: Vec<(MethodKey, u16)>,
    pub mirror_ref: Option<HeapRef>,
}

impl ObjectArrayClass {
    /// The mirror, once created.
    pub fn get_mirror_ref(&self) -> (r: Option<HeapRef>)
        ensures
            r == self.mirror_ref,
    {
        self.mirror_ref
    }

    /// Records the mirror; refused when there is one.
    pub fn set_mirror_ref(&mut self, mirror: HeapRef) -> (r: Result<(), JvmError>)
        ensures
            old(self).mirror_ref is Some ==> final(self).mirror_ref == old(self).mirror_ref && is_todo(
                r,
                "ObjectArrayClass mirror_ref already set"@,
            ),
            old(self).mirror_ref is None ==> final(self).mirror_ref == Some(mirror) && r is Ok,
            final(self).name == old(self).name,
            final(self).super_id == old(self).super_id,
            final(self).element_class_id == old(self).element_class_id,
            final(self).vtable@ == old(self).vtable@,
            final(self).vtable_index@ == old(self).vtable_index@,
    {
        if self.mirror_ref.is_some() {
            return Err(JvmError::Todo("ObjectArrayClass mirror_ref already set".to_string()));
        }
        self.mirror_ref = Some(mirror);
        Ok(())
    }

    /// The method that `key` names in the array class's vtable.
    pub fn get_vtable_method_id(&self, key: &MethodKey) -> (r: Result<MethodId, JvmError>)
        requires
            slots_in(self.vtable_index@, self.vtable@.len()),
        ensures
            vtable_post(self.vtable@, self.vtable_index@, *key, self.name, r),
    {
        vtable_lookup(&self.vtable, &self.vtable_index, key, self.name)
    }
}

/// An attribute of a class file.
pub enum ClassAttr {
    BootstrapMethods(Vec<BootstrapMethodEntry>),
    SourceFile(u16),
    Unknown { name_index: u16, info: Vec<u8> },
}

/// The bootstrap methods of the first `BootstrapMethods` attribute among `a`,
/// none when there is none.
pub open spec fn first_bootstrap_methods(a: Seq<ClassAttr>) -> Seq<BootstrapMethodEntry>
    decreases a.len(),
{
    if a.len() == 0 {
        Seq::empty()
    } else if a[0] is BootstrapMethods {
        a[0]->BootstrapMethods_0@
    } else {
        first_bootstrap_methods(a.drop_first())
    }
}

/// The index of the first `BootstrapMethods` attribute among `a`, if any.
pub open spec fn first_bootstrap_index(a: Seq<ClassAttr>) -> Option<int>
    decreases a.len(),
{
    if a.len() == 0 {
        None
    } else if a[0] is BootstrapMethods {
        Some(0)
    } else {
        match first_bootstrap_index(a.drop_first()) {
            Some(i) => Some(i + 1),
            None => None,
        }
    }
}

/// An interface: its class data, constant pool and declared methods.
pub struct InterfaceClass {
    pub base: BaseClass,
    pub cp: RuntimeConstantPool,
    pub methods: Option<Vec<(MethodKey, MethodId)>>,
}

impl InterfaceClass {
    /// The runtime constant pool of a class file's constants, with the
    /// bootstrap methods of its first `BootstrapMethods` attribute, which is
    /// taken out of `attr`.
    pub fn prepare_cp(cp: Vec<ConstantInfo>, attr: &mut Vec<ClassAttr>) -> (r: RuntimeConstantPool)
        requires
            forall|i: int| 0 <= i < cp@.len() ==> supported(#[trigger] cp@[i]),
        ensures
            r.entries().len() == cp@.len(),
            forall|i: int| 0 <= i < cp@.len() ==> r.entries()[i] == runtime_constant_of(#[trigger] cp@[i]),
            r.bootstrap() == first_bootstrap_methods(old(attr)@),
            final(attr)@ == match first_bootstrap_index(old(attr)@) {
                Some(i) => old(attr)@.remove(i),
                None => old(attr)@,
            },
    {
        let ghost a = attr@;
        let mut i: usize = 0;
        assert(a.skip(0) =~= a);
        while i < attr.len()
            invariant
                attr@ == a,
                i <= a.len(),
                first_bootstrap_methods(a.skip(i as int)) == first_bootstrap_methods(a),
                first_bootstrap_index(a) == match first_bootstrap_index(a.skip(i as int)) {
                    Some(k) => Some(k + i),
                    None => None::<int>,
                },
            ensures
                i == a.len() ==> first_bootstrap_index(a) is None && first_bootstrap_methods(a) == Seq::<BootstrapMethodEntry>::empty(),
                i < a.len() ==> first_bootstrap_index(a) == Some(i as int) && a[i as int] is BootstrapMethods
                    && first_bootstrap_methods(a) == a[i as int]->BootstrapMethods_0@,
            decreases a.len() - i,
        {
            assert(a.skip(i as int)[0] == a[i as int]);
            if let ClassAttr::BootstrapMethods(_) = &attr[i] {
                break;
            }
            proof {
                assert(a.skip(i as int).drop_first() =~= a.skip(i + 1));
            }
            i = i + 1;
        }
        let methods = if i < attr.len() {
            match attr.remove(i) {
                ClassAttr::BootstrapMethods(m) => m,
                _ => Vec::new(),
            }
        } else {
            Vec::new()
        };
        RuntimeConstantPool::new(cp, methods)
    }

    /// Records the interface's declared methods.
    pub fn set_methods(&mut self, methods: Vec<(MethodKey, MethodId)>)
        requires
            old(self).methods is None,
        ensures
            final(self).methods == Some(methods),
            final(self).base@ == old(self).base@,
    {
        self.methods = Some(methods);
    }

    /// The interface's declared methods.
    pub fn get_methods(&self) -> (r: &Vec<(MethodKey, MethodId)>)
        requires
            self.methods is Some,
        ensures
            *r == self.methods->0,
    {
        match &self.methods {
            Some(m) => m,
            None => {
                assert(false);
                &self.methods.as_ref().unwrap()
            },
        }
    }
}

/// Setting a static field and reading it back gives the value set; the
/// other static fields keep their values.
pub proof fn law_static_field_read_after_write(
    before: BaseClassView,
    after: BaseClassView,
    key: FieldKey,
    value: Value,
    other: FieldKey,
)
    requires
        before.static_fields matches Some(m) && m.contains_key(key),
        after == (BaseClassView {
            static_fields: Some(before.static_fields->0.insert(key, StaticField { value, ..before.static_fields->0[key] })),
            ..before
        }),
        other != key,
    ensures
        after.static_fields->0.contains_key(key),
        after.static_fields->0[key].value == value,
        after.static_fields->0.contains_key(other) == before.static_fields->0.contains_key(other),
        before.static_fields->0.contains_key(other) ==> after.static_fields->0[other] == before.static_fields->0[other],
{
}

} // verus!
