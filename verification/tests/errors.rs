use lagertha_runtime::constant_pool::RuntimeConstantType;
use lagertha_runtime::error::{ExceptionMessage, JavaExceptionFromJvm, JavaExceptionKind, JvmError};
use lagertha_runtime::keys::MethodKey;
use lasso::ThreadedRodeo;

#[test]
fn exception_class_names() {
    assert_eq!(JavaExceptionKind::IOException.class_name(), "java/io/IOException");
    assert_eq!(JavaExceptionKind::NullPointerException.class_name_dot(), "java.lang.NullPointerException");
}

#[test]
fn constructor_reference_depends_on_message() {
    let plain = JavaExceptionFromJvm::new(JavaExceptionKind::InternalError);
    let r = plain.as_reference();
    assert_eq!(r.class, "java/lang/InternalError");
    assert_eq!(r.name, "<init>");
    assert_eq!(r.descriptor, "()V");
    let with = JavaExceptionFromJvm::with_message(JavaExceptionKind::InternalError, "boom".to_string());
    assert_eq!(with.as_reference().descriptor, "(Ljava/lang/String;)V");
    let missing = JavaExceptionFromJvm::with_method_not_found(
        JavaExceptionKind::NoSuchMethodError,
        MethodKey { name: 1, desc: 2 },
        3,
    );
    assert!(matches!(missing.message, Some(ExceptionMessage::MethodNotFound(_, 3))));
}

#[test]
fn pretty_string_of_exception_with_cause() {
    let interner = ThreadedRodeo::new();
    let mut outer = JavaExceptionFromJvm::with_message(JavaExceptionKind::InternalError, "outer".to_string());
    outer.cause = Some(Box::new(JavaExceptionFromJvm::with_runtime_pool_incompatible_class_change(
        JavaExceptionKind::IncompatibleClassChangeError,
        4,
        RuntimeConstantType::Class,
        RuntimeConstantType::Utf8,
    )));
    assert_eq!(
        JvmError::JavaException(outer).into_pretty_string(&interner),
        "java.lang.InternalError: outer\nCaused by: java.lang.IncompatibleClassChangeError: Incompatible class change at runtime constant pool index 4: expected Class, found Utf8"
    );
    let plain = JvmError::JavaException(JavaExceptionFromJvm::new(JavaExceptionKind::ArithmeticException));
    assert_eq!(plain.into_pretty_string(&interner), "java.lang.ArithmeticException");
}

#[test]
fn other_errors_read_as_debug() {
    let interner = ThreadedRodeo::new();
    assert_eq!(JvmError::StackOverflow.into_pretty_string(&interner), "StackOverflow");
    assert_eq!(JvmError::LocalVariableNotFound(3).into_pretty_string(&interner), "LocalVariableNotFound(3)");
}

#[test]
fn each_exception_kind_has_its_own_class() {
    let kinds = [
        JavaExceptionKind::ArithmeticException,
        JavaExceptionKind::UnsupportedOperationException,
        JavaExceptionKind::ArrayIndexOutOfBoundsException,
        JavaExceptionKind::NegativeArraySizeException,
        JavaExceptionKind::NullPointerException,
        JavaExceptionKind::ArrayStoreException,
        JavaExceptionKind::InternalError,
        JavaExceptionKind::NoSuchMethodError,
        JavaExceptionKind::ClassNotFoundException,
        JavaExceptionKind::UnsatisfiedLinkError,
        JavaExceptionKind::IncompatibleClassChangeError,
        JavaExceptionKind::ClassFormatError,
        JavaExceptionKind::IOException,
    ];
    for (i, a) in kinds.iter().enumerate() {
        let prefix = if *a == JavaExceptionKind::IOException { "java/io/" } else { "java/lang/" };
        assert_eq!(a.class_name(), format!("{}{:?}", prefix, a));
        for b in kinds.iter().skip(i + 1) {
            assert_ne!(a.class_name(), b.class_name());
        }
    }
}
