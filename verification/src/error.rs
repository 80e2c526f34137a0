//! Errors of the runtime and the Java exceptions that the runtime itself raises.
use crate::constant_pool::constant_type_name;
use crate::keys::{MethodKey, Symbol};
use crate::text::{decimal, push_decimal, push_str, replace_char, replace_chars};
use lasso::ThreadedRodeo;
use vstd::prelude::*;

verus! {

/// An address in the object heap.
pub type HeapRef = usize;

/// Why an operation of the runtime failed.
#[derive(Debug)]
pub enum JvmError {
    MainClassNotFound(String),
    Linkage(LinkageError),
    MissingAttributeInConstantPoll,
    ConstantNotFoundInRuntimePool,
    TrailingBytes,
    StackOverflow,
    FrameStackIsEmpty,
    OperandStackIsEmpty,
    OutOfMemory,
    NoMainClassFound(String),
    NoSuchFieldError(String),
    LocalVariableNotFound(u8),
    LocalVariableNotInitialized(u8),
    ClassMirrorIsAlreadyCreated,
    MethodIsAbstract(String),
    UnexpectedType(String),
    JavaExceptionThrown(HeapRef),
    Uninitialized,
    WrongHeapAddress(HeapRef),
    Todo(String),
    NotAJavaInstanceTodo(String),
    JavaException(JavaExceptionFromJvm),
}

/// Why a class could not be linked.
#[derive(Debug, Clone, Copy, PartialEq, Eq, Structural)]
pub enum LinkageError {
    DuplicatedStackMapTable,
}

/// The constructor of a Java exception class that the runtime calls to
/// materialise an exception it raised.
pub struct JavaExceptionReference {
    pub class: &'static str,
    pub name: &'static str,
    pub descriptor: &'static str,
}

/// The message of an exception raised by the runtime, kept unresolved
/// until it is shown.
#[derive(Debug)]
pub enum ExceptionMessage {
    Resolved(String),
    MethodNotFound(MethodKey, Symbol),
    IncompatibleClassChangeRuntimePool {
        pool_idx: u16,
        expected: crate::constant_pool::RuntimeConstantType,
        actual: crate::constant_pool::RuntimeConstantType,
    },
}

/// The Java exception classes the runtime raises by itself.
#[derive(Debug, Clone, Copy, PartialEq, Eq, Structural)]
pub enum JavaExceptionKind {
    ArithmeticException,
    UnsupportedOperationException,
    ArrayIndexOutOfBoundsException,
    NegativeArraySizeException,
    NullPointerException,
    ArrayStoreException,
    InternalError,
    NoSuchMethodError,
    ClassNotFoundException,
    UnsatisfiedLinkError,
    IncompatibleClassChangeError,
    ClassFormatError,
    IOException,
}

/// The internal (slash separated) name of the class of an exception kind.
pub open spec fn exception_class_name(kind: JavaExceptionKind) -> Seq<char> {
    match kind {
        JavaExceptionKind::ArithmeticException => "java/lang/ArithmeticException"@,
        JavaExceptionKind::UnsupportedOperationException => "java/lang/UnsupportedOperationException"@,
        JavaExceptionKind::ArrayIndexOutOfBoundsException => "java/lang/ArrayIndexOutOfBoundsException"@,
        JavaExceptionKind::NegativeArraySizeException => "java/lang/NegativeArraySizeException"@,
        JavaExceptionKind::NullPointerException => "java/lang/NullPointerException"@,
        JavaExceptionKind::ArrayStoreException => "java/lang/ArrayStoreException"@,
        JavaExceptionKind::InternalError => "java/lang/InternalError"@,
        JavaExceptionKind::NoSuchMethodError => "java/lang/NoSuchMethodError"@,
        JavaExceptionKind::ClassNotFoundException => "java/lang/ClassNotFoundException"@,
        JavaExceptionKind::UnsatisfiedLinkError => "java/lang/UnsatisfiedLinkError"@,
        JavaExceptionKind::IncompatibleClassChangeError => "java/lang/IncompatibleClassChangeError"@,
        JavaExceptionKind::ClassFormatError => "java/lang/ClassFormatError"@,
        JavaExceptionKind::IOException => "java/io/IOException"@,
    }
}

/// Each exception kind has its own class: two kinds with the same class
/// name are the same kind.
pub proof fn law_exception_class_names_distinct(k1: JavaExceptionKind, k2: JavaExceptionKind)
    requires
        exception_class_name(k1) == exception_class_name(k2),
    ensures
        k1 == k2,
{
    reveal_strlit("java/lang/ArithmeticException");
    reveal_strlit("java/lang/UnsupportedOperationException");
    reveal_strlit("java/lang/ArrayIndexOutOfBoundsException");
    reveal_strlit("java/lang/NegativeArraySizeException");
    reveal_strlit("java/lang/NullPointerException");
    reveal_strlit("java/lang/ArrayStoreException");
    reveal_strlit("java/lang/InternalError");
    reveal_strlit("java/lang/NoSuchMethodError");
    reveal_strlit("java/lang/ClassNotFoundException");
    reveal_strlit("java/lang/UnsatisfiedLinkError");
    reveal_strlit("java/lang/IncompatibleClassChangeError");
    reveal_strlit("java/lang/ClassFormatError");
    reveal_strlit("java/io/IOException");
    let a = exception_class_name(k1);
    let b = exception_class_name(k2);
    assert(a.len() == b.len() && a[10] == b[10] && a[12] == b[12]);
}

impl JavaExceptionKind {
    /// The internal name of the exception class, such as `java/lang/InternalError`.
    pub fn class_name(self) -> (r: &'static str)
        ensures
            r@ == exception_class_name(self),
    {
        match self {
            Self::ArithmeticException => "java/lang/ArithmeticException",
            Self::UnsupportedOperationException => "java/lang/UnsupportedOperationException",
            Self::ArrayIndexOutOfBoundsException => "java/lang/ArrayIndexOutOfBoundsException",
            Self::NegativeArraySizeException => "java/lang/NegativeArraySizeException",
            Self::NullPointerException => "java/lang/NullPointerException",
            Self::ArrayStoreException => "java/lang/ArrayStoreException",
            Self::InternalError => "java/lang/InternalError",
            Self::NoSuchMethodError => "java/lang/NoSuchMethodError",
            Self::ClassNotFoundException => "java/lang/ClassNotFoundException",
            Self::UnsatisfiedLinkError => "java/lang/UnsatisfiedLinkError",
            Self::IncompatibleClassChangeError => "java/lang/IncompatibleClassChangeError",
            Self::ClassFormatError => "java/lang/ClassFormatError",
            Self::IOException => "java/io/IOException",
        }
    }

    /// The binary (dot separated) name of the exception class, such as
    /// `java.lang.InternalError`.
    pub fn class_name_dot(self) -> (r: String)
        ensures
            r@ == replace_chars(exception_class_name(self), '/', '.'),
    {
        replace_char(self.class_name(), '/', '.')
    }
}

/// A Java exception raised by the runtime, not yet materialised on the heap.
#[derive(Debug)]
pub struct JavaExceptionFromJvm {
    pub kind: JavaExceptionKind,
    pub message: Option<ExceptionMessage>,
    pub cause: Option<Box<JavaExceptionFromJvm>>,
}

/// The error that raises a Java exception of `kind` with no message.
pub open spec fn java_exception(kind: JavaExceptionKind) -> JvmError {
    JvmError::JavaException(JavaExceptionFromJvm { kind, message: None, cause: None })
}

/// Whether `e` raises a Java exception of `kind` whose message is the text `msg`.
pub open spec fn raises_with_message(e: JvmError, kind: JavaExceptionKind, msg: Seq<char>) -> bool {
    match e {
        JvmError::JavaException(ex) => {
            &&& ex.kind == kind
            &&& ex.cause is None
            &&& ex.message matches Some(ExceptionMessage::Resolved(s)) && s@ == msg
        },
        _ => false,
    }
}

/// Whether `e` raises a Java exception of `kind`, whatever its message.
pub open spec fn raises(e: JvmError, kind: JavaExceptionKind) -> bool {
    e matches JvmError::JavaException(ex) && ex.kind == kind
}

impl JavaExceptionFromJvm {
    /// An exception of `kind` with no message and no cause.
    pub fn new(kind: JavaExceptionKind) -> (r: Self)
        ensures
            r.kind == kind,
            r.message is None,
            r.cause is None,
    {
        Self { kind, message: None, cause: None }
    }

    /// An exception of `kind` whose message is the given text.
    pub fn with_message(kind: JavaExceptionKind, message: String) -> (r: Self)
        ensures
            r.kind == kind,
            r.message matches Some(ExceptionMessage::Resolved(s)) && s@ == message@,
            r.cause is None,
    {
        Self { kind, message: Some(ExceptionMessage::Resolved(message)), cause: None }
    }

    /// An exception of `kind` telling that the method `key` was not found in
    /// the class named `class_sym`.
    pub fn with_method_not_found(kind: JavaExceptionKind, key: MethodKey, class_sym: Symbol) -> (r: Self)
        ensures
            r.kind == kind,
            r.message == Some(ExceptionMessage::MethodNotFound(key, class_sym)),
            r.cause is None,
    {
        Self { kind, message: Some(ExceptionMessage::MethodNotFound(key, class_sym)), cause: None }
    }

    /// An exception of `kind` telling that the constant pool entry `pool_idx`
    /// holds an `actual` constant where an `expected` one was needed.
    pub fn with_runtime_pool_incompatible_class_change(
        kind: JavaExceptionKind,
        pool_idx: u16,
        expected: crate::constant_pool::RuntimeConstantType,
        actual: crate::constant_pool::RuntimeConstantType,
    ) -> (r: Self)
        ensures
            r.kind == kind,
            r.message == Some(
                ExceptionMessage::IncompatibleClassChangeRuntimePool { pool_idx, expected, actual },
            ),
            r.cause is None,
    {
        Self {
            kind,
            message: Some(
                ExceptionMessage::IncompatibleClassChangeRuntimePool { pool_idx, expected, actual },
            ),
            cause: None,
        }
    }

    /// The constructor to call on the exception class: `<init>` taking a
    /// `String` when there is a message, the no-argument one otherwise.
    pub fn as_reference(&self) -> (r: JavaExceptionReference)
        ensures
            r.class@ == exception_class_name(self.kind),
            r.name@ == "<init>"@,
            r.descriptor@ == (if self.message is Some {
                "(Ljava/lang/String;)V"@
            } else {
                "()V"@
            }),
    {
        JavaExceptionReference {
            class: self.kind.class_name(),
            name: "<init>",
            descriptor: if self.message.is_some() {
                "(Ljava/lang/String;)V"
            } else {
                "()V"
            },
        }
    }
}

/// The text of a message that needs no interner: the resolved text, or the
/// incompatible-class-change message of a constant pool entry.
pub open spec fn message_text(m: ExceptionMessage) -> Seq<char> {
    match m {
        ExceptionMessage::Resolved(s) => s@,
        ExceptionMessage::IncompatibleClassChangeRuntimePool { pool_idx, expected, actual } =>
            "Incompatible class change at runtime constant pool index "@ + decimal(pool_idx as nat) + ": expected "@
                + constant_type_name(expected) + ", found "@ + constant_type_name(actual),
        ExceptionMessage::MethodNotFound(_, _) => Seq::empty(),
    }
}

/// Whether no message of `ex` or of its causes names a missing method.
pub open spec fn messages_resolvable(ex: JavaExceptionFromJvm) -> bool
    decreases ex,
{
    &&& !(ex.message matches Some(ExceptionMessage::MethodNotFound(_, _)))
    &&& match ex.cause {
        Some(c) => messages_resolvable(*c),
        None => true,
    }
}

/// How an exception raised by the runtime reads: the dotted class name,
/// then `: ` and the message if any, then a line `Caused by: ` and its cause
/// if any.
pub open spec fn pretty_exception(ex: JavaExceptionFromJvm) -> Seq<char>
    decreases ex,
{
    replace_chars(exception_class_name(ex.kind), '/', '.') + match ex.message {
        Some(m) => ": "@ + message_text(m),
        None => Seq::empty(),
    } + match ex.cause {
        Some(c) => "\nCaused by: "@ + pretty_exception(*c),
        None => Seq::empty(),
    }
}

impl ExceptionMessage {
    /// The text of the message.
    pub fn into_resolved(self, interner: &ThreadedRodeo) -> (r: String)
        requires
            !(self is MethodNotFound),
        ensures
            r@ == message_text(self),
    {
        match self {
            ExceptionMessage::Resolved(s) => s,
            ExceptionMessage::IncompatibleClassChangeRuntimePool { pool_idx, expected, actual } => {
                let mut s = String::new();
                push_str(&mut s, "Incompatible class change at runtime constant pool index ");
                push_decimal(&mut s, pool_idx as u64);
                push_str(&mut s, ": expected ");
                push_str(&mut s, expected.name());
                push_str(&mut s, ", found ");
                push_str(&mut s, actual.name());
                s
            },
            ExceptionMessage::MethodNotFound(_, _) => String::new(),
        }
    }
}

/// The text that the derived `Debug` of `JvmError` writes for `e` (such as
/// `StackOverflow` or `LocalVariableNotFound(3)`).
pub uninterp spec fn debug_rendering(e: JvmError) -> Seq<char>;

/// The debug rendering of an error: `format!("{:?}")` over the derived
/// `Debug` of `JvmError`, a function of the error alone.
#[verifier::external_body]
fn debug_text(e: &JvmError) -> (r: String)
    ensures
        r@ == debug_rendering(*e),
{
    format!("{:?}", e)
}

fn pretty_java_exception(ex: JavaExceptionFromJvm, interner: &ThreadedRodeo) -> (r: String)
    requires
        messages_resolvable(ex),
    ensures
        r@ == pretty_exception(ex),
    decreases ex,
{
    let JavaExceptionFromJvm { kind, message, cause } = ex;
    let mut result = kind.class_name_dot();
    if let Some(message) = message {
        let resolved_message = message.into_resolved(interner);
        push_str(&mut result, ": ");
        push_str(&mut result, resolved_message.as_str());
    }
    if let Some(cause) = cause {
        let text = pretty_java_exception(*cause, interner);
        push_str(&mut result, "\nCaused by: ");
        push_str(&mut result, text.as_str());
    }
    proof {
        assert(result@ =~= pretty_exception(ex));
    }
    result
}

impl JvmError {
    /// How the error reads to a user: a Java exception as its class, message
    /// and causes; any other error as its debug rendering.
    pub fn into_pretty_string(self, interner: &ThreadedRodeo) -> (r: String)
        requires
            self matches JvmError::JavaException(ex) ==> messages_resolvable(ex),
        ensures
            self matches JvmError::JavaException(ex) ==> r@ == pretty_exception(ex),
            !(self is JavaException) ==> r@ == debug_rendering(self),
    {
        match self {
            JvmError::JavaException(ex) => pretty_java_exception(ex, interner),
            other => debug_text(&other),
        }
    }
}

} // verus!
