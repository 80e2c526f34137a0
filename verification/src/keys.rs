//! Identifiers shared across the runtime.
use vstd::prelude::*;

verus! {

/// An interned string: the key the string interner hands out.
pub type Symbol = u32;

/// Identifier of a thread of the virtual machine.
pub type ThreadId = u32;

/// Identifier of a loaded class.
#[derive(Clone, Copy, Debug, PartialEq, Eq, Structural)]
pub struct ClassId(pub u32);

/// Identifier of a linked method.
#[derive(Clone, Copy, Debug, PartialEq, Eq, Structural)]
pub struct MethodId(pub u32);

/// Identifier of a parsed method descriptor.
#[derive(Clone, Copy, Debug, PartialEq, Eq, Structural)]
pub struct MethodDescriptorId(pub u32);

/// Identifier of a parsed field descriptor.
#[derive(Clone, Copy, Debug, PartialEq, Eq, Structural)]
pub struct FieldDescriptorId(pub u32);

/// A method named by its name and descriptor.
#[derive(Clone, Copy, Debug, PartialEq, Eq, Structural)]
pub struct MethodKey {
    pub name: Symbol,
    pub desc: Symbol,
}

/// A field named by its name and descriptor.
#[derive(Clone, Copy, Debug, PartialEq, Eq, Structural)]
pub struct FieldKey {
    pub name: Symbol,
    pub desc: Symbol,
}

impl ClassId {
    pub fn new(raw: u32) -> (r: ClassId)
        ensures
            r.0 == raw,
    {
        ClassId(raw)
    }

    pub fn into_inner(self) -> (r: u32)
        ensures
            r == self.0,
    {
        self.0
    }
}

} // verus!
