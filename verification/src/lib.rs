//! A Java virtual machine runtime core: the object heap and Java strings on
//! it, the operand-stack interpreter and its instruction handlers, the runtime
//! constant pool, loaded classes and their initialization, native methods,
//! and the exception model.
use vstd::prelude::*;

pub mod bootstrap_registry;
pub mod class;
pub mod class_init;
pub mod constant_pool;
pub mod dispatch;
pub mod error;
pub mod frame;
pub mod handlers;
pub mod heap;
pub mod instruction;
pub mod interner;
pub mod interpreter;
pub mod java_string;
pub mod keys;
pub mod method;
pub mod native_methods;
pub mod natives;
pub mod text;
pub mod value;
