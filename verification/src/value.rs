//! Values held by operand stacks, local variables, arguments and static fields.
use crate::error::{java_exception, HeapRef, JavaExceptionFromJvm, JavaExceptionKind, JvmError};
use vstd::prelude::*;

verus! {

/// A Java value. `Float` and `Double` hold the IEEE 754 bit pattern of the
/// number.
#[derive(Debug, Clone, Copy, PartialEq, Eq, Structural)]
pub enum Value {
    Integer(i32),
    Long(i64),
    Float(u32),
    Double(u64),
    Ref(HeapRef),
    Null,
}

/// The primitive types of Java.
#[derive(Debug, Clone, Copy, PartialEq, Eq, Structural)]
pub enum PrimitiveType {
    Byte,
    Char,
    Short,
    Int,
    Boolean,
    Double,
    Float,
    Long,
}

/// The initial value of a field of primitive type `t`: zero of its kind.
pub open spec fn default_for(t: PrimitiveType) -> Value {
    match t {
        PrimitiveType::Byte | PrimitiveType::Char | PrimitiveType::Short | PrimitiveType::Int
        | PrimitiveType::Boolean => Value::Integer(0),
        PrimitiveType::Double => Value::Double(0),
        PrimitiveType::Float => Value::Float(0),
        PrimitiveType::Long => Value::Long(0),
    }
}

impl Value {
    /// The zero value of a field of primitive type `t`.
    pub fn default_of(t: &PrimitiveType) -> (r: Value)
        ensures
            r == default_for(*t),
    {
        match t {
            PrimitiveType::Byte | PrimitiveType::Char | PrimitiveType::Short
            | PrimitiveType::Int | PrimitiveType::Boolean => Value::Integer(0),
            PrimitiveType::Double => Value::Double(0),
            PrimitiveType::Float => Value::Float(0),
            PrimitiveType::Long => Value::Long(0),
        }
    }

    /// The reference held, `None` for `null`; an error for a non-reference value.
    pub fn as_nullable_obj_ref(&self) -> (r: Result<Option<HeapRef>, JvmError>)
        ensures
            match *self {
                Value::Ref(a) => r == Ok::<Option<HeapRef>, JvmError>(Some(a)),
                Value::Null => r == Ok::<Option<HeapRef>, JvmError>(None),
                _ => r matches Err(JvmError::Todo(s)) && s@ == "Value::as_nullable_obj_ref called on non-reference value"@,
            },
    {
        match self {
            Value::Ref(addr) => Ok(Some(*addr)),
            Value::Null => Ok(None),
            _ => Err(JvmError::Todo("Value::as_nullable_obj_ref called on non-reference value".to_string())),
        }
    }

    /// The reference held; `null` raises a `NullPointerException`.
    pub fn as_obj_ref(&self) -> (r: Result<HeapRef, JvmError>)
        ensures
            match *self {
                Value::Ref(a) => r == Ok::<HeapRef, JvmError>(a),
                Value::Null => r == Err::<HeapRef, JvmError>(java_exception(JavaExceptionKind::NullPointerException)),
                _ => r matches Err(JvmError::Todo(s)) && s@ == "Value::as_obj_ref called on non-reference value"@,
            },
    {
        match self {
            Value::Ref(addr) => Ok(*addr),
            Value::Null => Err(JvmError::JavaException(JavaExceptionFromJvm::new(JavaExceptionKind::NullPointerException))),
            _ => Err(JvmError::Todo("Value::as_obj_ref called on non-reference value".to_string())),
        }
    }

    /// The `int` held; an error for any other value.
    pub fn as_int(&self) -> (r: Result<i32, JvmError>)
        ensures
            match *self {
                Value::Integer(v) => r == Ok::<i32, JvmError>(v),
                _ => r matches Err(JvmError::Todo(s)) && s@ == "Value::as_int called on non-integer value"@,
            },
    {
        match self {
            Value::Integer(v) => Ok(*v),
            _ => Err(JvmError::Todo("Value::as_int called on non-integer value".to_string())),
        }
    }

    /// The `long` held; an error for any other value.
    pub fn as_long(&self) -> (r: Result<i64, JvmError>)
        ensures
            match *self {
                Value::Long(v) => r == Ok::<i64, JvmError>(v),
                _ => r matches Err(JvmError::Todo(s)) && s@ == "Value::as_long called on non-long value"@,
            },
    {
        match self {
            Value::Long(v) => Ok(*v),
            _ => Err(JvmError::Todo("Value::as_long called on non-long value".to_string())),
        }
    }

    /// The bit pattern of the `double` held; an error for any other value.
    pub fn as_double(&self) -> (r: Result<u64, JvmError>)
        ensures
            match *self {
                Value::Double(v) => r == Ok::<u64, JvmError>(v),
                _ => r matches Err(JvmError::Todo(s)) && s@ == "Value::as_double called on non-double value"@,
            },
    {
        match self {
            Value::Double(v) => Ok(*v),
            _ => Err(JvmError::Todo("Value::as_double called on non-double value".to_string())),
        }
    }
}

} // verus!
