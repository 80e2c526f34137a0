use lagertha_runtime::class::{
    BaseClass, ClassAttr, ClassFlags, ClassState, FieldFlags, InterfaceClass, ObjectArrayClass, PrimitiveClass,
    StaticField,
};
use lagertha_runtime::constant_pool::{BootstrapMethodEntry, ConstantInfo};
use lagertha_runtime::error::JvmError;
use lagertha_runtime::keys::{ClassId, FieldDescriptorId, FieldKey, MethodId, MethodKey};
use lagertha_runtime::value::{PrimitiveType, Value};

fn todo_text<T: std::fmt::Debug>(r: Result<T, JvmError>) -> String {
    match r {
        Err(JvmError::Todo(s)) => s,
        other => panic!("unexpected {:?}", other),
    }
}

#[test]
fn class_state_from_number() {
    assert_eq!(ClassState::from(0), ClassState::Loaded);
    assert_eq!(ClassState::from(3), ClassState::Initialized);
}

#[test]
fn base_class_lifecycle() {
    let mut c = BaseClass::new(5, ClassFlags(0x21), Some(ClassId(1)), None);
    assert_eq!(c.state(), ClassState::Loaded);
    assert!(!c.is_initialized_or_initializing());
    c.set_initializing();
    assert!(c.is_initializing());
    c.set_initialized();
    assert!(c.is_initialized_or_initializing());
    assert!(!c.has_clinit());
    c.set_clinit(MethodId(7)).unwrap();
    assert_eq!(c.get_clinit_method_id(), Some(MethodId(7)));
    assert_eq!(todo_text(c.set_clinit(MethodId(8))), "BaseClass clinit already set");
    c.set_mirror_ref(64).unwrap();
    assert_eq!(c.get_mirror_ref(), Some(64));
    assert_eq!(todo_text(c.set_mirror_ref(72)), "Mirror ref already set");
    assert_eq!(c.get_super(), Some(ClassId(1)));
    assert_eq!(todo_text(c.get_interfaces()), "BaseClass interfaces not set");
    c.set_interfaces(vec![ClassId(2), ClassId(3)]).unwrap();
    assert_eq!(c.get_interfaces().unwrap(), &vec![ClassId(2), ClassId(3)]);
}

#[test]
fn static_field_set_then_get() {
    let mut c = BaseClass::new(5, ClassFlags(0), None, None);
    let key = FieldKey { name: 1, desc: 2 };
    let other = FieldKey { name: 3, desc: 2 };
    assert_eq!(todo_text(c.get_static_field_value(&key)), "BaseClass static_fields not set");
    let field = StaticField { flags: FieldFlags(8), descriptor: FieldDescriptorId(1), value: Value::Integer(0) };
    c.set_static_fields(vec![(key, field)]).unwrap();
    assert!(c.has_static_field(&key).unwrap());
    assert!(!c.has_static_field(&other).unwrap());
    c.set_static_field_value(&key, Value::Integer(9)).unwrap();
    assert_eq!(c.get_static_field_value(&key).unwrap(), Value::Integer(9));
    assert_eq!(todo_text(c.set_static_field_value(&other, Value::Null)), "No such field");
}

#[test]
fn array_class_vtable_lookup() {
    let key = MethodKey { name: 1, desc: 2 };
    let class = ObjectArrayClass {
        name: 10,
        super_id: ClassId(1),
        element_class_id: ClassId(2),
        vtable: vec![MethodId(5), MethodId(6)],
        vtable_index: vec![(key, 1)],
        mirror_ref: None,
    };
    assert_eq!(class.get_vtable_method_id(&key).unwrap(), MethodId(6));
    match class.get_vtable_method_id(&MethodKey { name: 1, desc: 3 }) {
        Err(JvmError::JavaException(ex)) => assert_eq!(ex.kind.class_name(), "java/lang/NoSuchMethodError"),
        other => panic!("unexpected {:?}", other),
    }
}

#[test]
fn primitive_class_mirror_is_set_once() {
    let mut p = PrimitiveClass::new(3, PrimitiveType::Int);
    assert_eq!(p.get_mirror_ref(), None);
    p.set_mirror_ref(16).unwrap();
    assert_eq!(todo_text(p.set_mirror_ref(24)), "PrimitiveClass mirror_ref already set");
    assert_eq!(p.get_mirror_ref(), Some(16));
}

#[test]
fn prepare_cp_takes_the_bootstrap_methods() {
    let mut attrs = vec![
        ClassAttr::SourceFile(4),
        ClassAttr::BootstrapMethods(vec![BootstrapMethodEntry { bootstrap_method_idx: 1, bootstrap_arguments: vec![2] }]),
        ClassAttr::SourceFile(5),
    ];
    let cp = InterfaceClass::prepare_cp(vec![ConstantInfo::Unused, ConstantInfo::Integer(3)], &mut attrs);
    assert_eq!(attrs.len(), 2);
    assert!(matches!(attrs[1], ClassAttr::SourceFile(5)));
    let mut interface = InterfaceClass { base: BaseClass::new(1, ClassFlags(0x600), None, None), cp, methods: None };
    assert!(interface.methods.is_none());
    let key = MethodKey { name: 2, desc: 3 };
    interface.set_methods(vec![(key, MethodId(9))]);
    assert_eq!(interface.get_methods(), &vec![(key, MethodId(9))]);
}

#[test]
fn class_names_its_source_and_direct_interfaces() {
    let mut c = BaseClass::new(5, ClassFlags(0x21), None, Some(11));
    assert_eq!(c.get_source_file(), Some(11));
    assert_eq!(todo_text(c.get_direct_interfaces()), "BaseClass direct_interfaces not set");
    c.set_direct_interfaces(vec![ClassId(2)]).unwrap();
    assert_eq!(c.get_direct_interfaces().unwrap(), &vec![ClassId(2)]);
    assert_eq!(todo_text(c.set_direct_interfaces(vec![])), "BaseClass direct_interfaces already set");
}

#[test]
fn primitive_field_defaults_are_zero() {
    assert_eq!(Value::default_of(&PrimitiveType::Int), Value::Integer(0));
    assert_eq!(Value::default_of(&PrimitiveType::Boolean), Value::Integer(0));
    assert_eq!(Value::default_of(&PrimitiveType::Long), Value::Long(0));
    assert_eq!(Value::default_of(&PrimitiveType::Double), Value::Double(0));
    assert_eq!(Value::default_of(&PrimitiveType::Float), Value::Float(0));
}
