use lagertha_runtime::constant_pool::{
    BootstrapMethodEntry, ConstantInfo, MethodHandleEntryView, RuntimeConstant, RuntimeConstantPool,
    RuntimeConstantType,
};
use lagertha_runtime::error::{ExceptionMessage, JavaExceptionKind, JvmError};
use lasso::{Key, Spur, ThreadedRodeo};

fn text(interner: &ThreadedRodeo, sym: u32) -> String {
    interner.resolve(&Spur::try_from_usize(sym as usize).unwrap()).to_string()
}

fn sample_pool() -> RuntimeConstantPool {
    let entries = vec![
        ConstantInfo::Unused,
        ConstantInfo::Utf8("java/lang/Object".to_string()),
        ConstantInfo::Class(1),
        ConstantInfo::Utf8("hashCode".to_string()),
        ConstantInfo::Utf8("()I".to_string()),
        ConstantInfo::NameAndType { name_index: 3, descriptor_index: 4 },
        ConstantInfo::MethodRef { class_index: 2, name_and_type_index: 5 },
        ConstantInfo::String(3),
        ConstantInfo::Integer(42),
        ConstantInfo::MethodHandle { reference_kind: 5, reference_index: 6 },
        ConstantInfo::InvokeDynamic { bootstrap_method_attr_index: 0, name_and_type_index: 5 },
        ConstantInfo::FieldRef { class_index: 2, name_and_type_index: 5 },
        ConstantInfo::InterfaceMethodRef { class_index: 2, name_and_type_index: 5 },
    ];
    let bootstrap = vec![BootstrapMethodEntry { bootstrap_method_idx: 9, bootstrap_arguments: vec![8, 7] }];
    RuntimeConstantPool::new(entries, bootstrap)
}

fn message_of(e: JvmError, interner: &ThreadedRodeo) -> (JavaExceptionKind, String) {
    match e {
        JvmError::JavaException(ex) => (ex.kind, ex.message.unwrap().into_resolved(interner)),
        other => panic!("unexpected {:?}", other),
    }
}

#[test]
fn utf8_and_class_symbols_resolve() {
    let interner = ThreadedRodeo::new();
    let pool = sample_pool();
    let name = pool.get_utf8_sym(&1, &interner).unwrap();
    assert_eq!(text(&interner, name), "java/lang/Object");
    assert_eq!(pool.get_class_sym(&2, &interner).unwrap(), name);
    let s = pool.get_string_sym(&7, &interner).unwrap();
    assert_eq!(text(&interner, s), "hashCode");
}

#[test]
fn method_view_names_class_and_signature() {
    let interner = ThreadedRodeo::new();
    let pool = sample_pool();
    let view = pool.get_method_view(&6, &interner).unwrap();
    assert_eq!(text(&interner, view.class_sym), "java/lang/Object");
    assert_eq!(text(&interner, view.name_and_type.name_sym), "hashCode");
    assert_eq!(text(&interner, view.name_and_type.descriptor_sym), "()I");
    let same = pool.get_method_or_interface_method_view(&12, &interner).unwrap();
    assert!(same == view);
    let field = pool.get_field_view(&11, &interner).unwrap();
    assert_eq!(field.class_sym, view.class_sym);
}

#[test]
fn bad_index_is_class_format_error() {
    let interner = ThreadedRodeo::new();
    let pool = sample_pool();
    let (kind, msg) = message_of(pool.get_utf8_sym(&99, &interner).unwrap_err(), &interner);
    assert_eq!(kind, JavaExceptionKind::ClassFormatError);
    assert_eq!(msg, "Invalid constant pool index: 99");
}

#[test]
fn wrong_kind_is_incompatible_class_change() {
    let interner = ThreadedRodeo::new();
    let pool = sample_pool();
    match pool.get_utf8_sym(&2, &interner).unwrap_err() {
        JvmError::JavaException(ex) => {
            assert_eq!(ex.kind, JavaExceptionKind::IncompatibleClassChangeError);
            match ex.message {
                Some(ExceptionMessage::IncompatibleClassChangeRuntimePool { pool_idx, expected, actual }) => {
                    assert_eq!(pool_idx, 2);
                    assert_eq!(expected, RuntimeConstantType::Utf8);
                    assert_eq!(actual, RuntimeConstantType::Class);
                }
                other => panic!("unexpected {:?}", other),
            }
        }
        other => panic!("unexpected {:?}", other),
    }
    let (_, msg) = message_of(pool.get_nat_view(&1, &interner).unwrap_err(), &interner);
    assert_eq!(msg, "Incompatible class change at runtime constant pool index 1: expected MethodNameAndType, found Utf8");
}

#[test]
fn method_handle_and_invoke_dynamic_resolve() {
    let interner = ThreadedRodeo::new();
    let pool = sample_pool();
    let handle = pool.get_method_handle_view(&9, &interner).unwrap();
    let method = pool.get_method_view(&6, &interner).unwrap();
    assert!(handle == MethodHandleEntryView::InvokeVirtual(method));
    let indy = pool.get_invoke_dynamic_view(&10, &interner).unwrap();
    assert!(indy.method_handle == handle);
    assert_eq!(indy.arguments, vec![8, 7]);
    assert!(indy.name_and_type == method.name_and_type);
}

#[test]
fn bad_bootstrap_index_is_reported() {
    let interner = ThreadedRodeo::new();
    let entries = vec![
        ConstantInfo::Unused,
        ConstantInfo::InvokeDynamic { bootstrap_method_attr_index: 3, name_and_type_index: 0 },
    ];
    let pool = RuntimeConstantPool::new(entries, vec![]);
    let (_, msg) = message_of(pool.get_invoke_dynamic_view(&1, &interner).unwrap_err(), &interner);
    assert_eq!(msg, "Invalid bootstrap methods index: 3");
}

#[test]
fn get_constant_checks_and_returns_entry() {
    let interner = ThreadedRodeo::new();
    let pool = sample_pool();
    match pool.get_constant(&8, &interner).unwrap() {
        RuntimeConstant::Integer(v) => assert_eq!(*v, 42),
        _ => panic!("expected an integer"),
    }
    assert_eq!(pool.get_constant(&6, &interner).unwrap().get_type(), RuntimeConstantType::Method);
    assert_eq!(RuntimeConstantType::MethodHandle.name(), "MethodHandle");
}

#[test]
fn view_getters_report_the_entry_fault() {
    let interner = ThreadedRodeo::new();
    let pool = sample_pool();
    let (kind, msg) = message_of(pool.get_method_view(&40, &interner).unwrap_err(), &interner);
    assert_eq!(kind, JavaExceptionKind::ClassFormatError);
    assert_eq!(msg, "Invalid constant pool index: 40");
    let (kind, _) = message_of(pool.get_field_view(&6, &interner).unwrap_err(), &interner);
    assert_eq!(kind, JavaExceptionKind::IncompatibleClassChangeError);
    let (kind, _) = message_of(pool.get_nat_view(&2, &interner).unwrap_err(), &interner);
    assert_eq!(kind, JavaExceptionKind::IncompatibleClassChangeError);
    let (kind, _) = message_of(pool.get_interface_method_view(&1, &interner).unwrap_err(), &interner);
    assert_eq!(kind, JavaExceptionKind::IncompatibleClassChangeError);
    let (kind, _) = message_of(pool.get_method_handle_view(&8, &interner).unwrap_err(), &interner);
    assert_eq!(kind, JavaExceptionKind::IncompatibleClassChangeError);
    let (kind, msg) = message_of(pool.get_invoke_dynamic_view(&99, &interner).unwrap_err(), &interner);
    assert_eq!(kind, JavaExceptionKind::ClassFormatError);
    assert_eq!(msg, "Invalid constant pool index: 99");
}

#[test]
fn get_constant_keeps_each_entry_and_refuses_a_bad_index() {
    let i = ThreadedRodeo::default();
    let cp = RuntimeConstantPool::new(
        vec![ConstantInfo::Unused, ConstantInfo::Integer(42), ConstantInfo::Long(7), ConstantInfo::Unused],
        vec![],
    );
    assert!(matches!(cp.get_constant(&0, &i).unwrap(), RuntimeConstant::Unused));
    assert!(matches!(cp.get_constant(&1, &i).unwrap(), RuntimeConstant::Integer(42)));
    assert!(matches!(cp.get_constant(&2, &i).unwrap(), RuntimeConstant::Long(7)));
    let err = match cp.get_constant(&4, &i) {
        Err(e) => e,
        Ok(_) => panic!("expected an error"),
    };
    let (kind, msg) = message_of(err, &i);
    assert_eq!(kind, JavaExceptionKind::ClassFormatError);
    assert_eq!(msg, "Invalid constant pool index: 4");
}
