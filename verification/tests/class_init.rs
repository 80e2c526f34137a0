use lagertha_runtime::class::{BaseClass, ClassFlags, ClassState, FieldFlags, StaticField};
use lagertha_runtime::class_init::{ClassKind, ClassTable, InitAction, Initializer, LoadedClass};
use lagertha_runtime::error::JvmError;
use lagertha_runtime::keys::{ClassId, FieldDescriptorId, FieldKey, MethodId};
use lagertha_runtime::value::Value;
use lasso::{Key, ThreadedRodeo};

/// The key of `s` in `interner`, interned if it was not.
fn intern(interner: &ThreadedRodeo, s: &str) -> Option<u32> {
    Some(interner.get_or_intern(s).into_usize() as u32)
}

fn class(
    interner: &ThreadedRodeo,
    name: &str,
    super_id: Option<ClassId>,
    interfaces: Vec<ClassId>,
    clinit: Option<u32>,
) -> BaseClass {
    let mut b = BaseClass::new(intern(interner, name).unwrap(), ClassFlags(0), super_id, None);
    b.set_interfaces(interfaces).unwrap();
    if let Some(m) = clinit {
        b.set_clinit(MethodId(m)).unwrap();
    }
    b
}

/// Runs the steps to the end, collecting the class initializers handed out.
fn run(init: &mut Initializer, table: &mut ClassTable, interner: &ThreadedRodeo) -> Result<Vec<(ClassId, MethodId)>, JvmError> {
    let mut ran = Vec::new();
    loop {
        match init.step(table, interner)? {
            InitAction::Continue => {},
            InitAction::RunClinit(c, m) => ran.push((c, m)),
            InitAction::Done => return Ok(ran),
        }
    }
}

#[test]
fn superclass_and_interfaces_initialize_first() {
    let interner = ThreadedRodeo::default();
    // 0: java/lang/Object, 1: an interface with an initializer, 2: an
    // interface without one, 3: a class extending 0 and implementing 1 and 2.
    let mut table = ClassTable::new(vec![
        LoadedClass { kind: ClassKind::Instance, base: class(&interner, "java/lang/Object", None, vec![], Some(100)) },
        LoadedClass { kind: ClassKind::Interface, base: class(&interner, "p/WithInit", None, vec![], Some(101)) },
        LoadedClass { kind: ClassKind::Interface, base: class(&interner, "p/Plain", None, vec![], None) },
        LoadedClass { kind: ClassKind::Instance, base: class(&interner, "p/Impl", Some(ClassId(0)), vec![ClassId(1), ClassId(2)], Some(103)) },
    ]);
    let mut init = Initializer::new(Some(ClassId(3)));
    let ran = run(&mut init, &mut table, &interner).unwrap();
    assert_eq!(
        ran,
        vec![(ClassId(0), MethodId(100)), (ClassId(1), MethodId(101)), (ClassId(3), MethodId(103))]
    );
    assert_eq!(table.get_class_like(ClassId(0)).state(), ClassState::Initialized);
    assert_eq!(table.get_class_like(ClassId(1)).state(), ClassState::Initialized);
    // An interface without an initializer is not initialized for its implementor.
    assert_eq!(table.get_class_like(ClassId(2)).state(), ClassState::Loaded);
    assert_eq!(table.get_class_like(ClassId(3)).state(), ClassState::Initialized);
    assert!(init.is_done());
}

#[test]
fn initialized_class_is_not_initialized_again() {
    let interner = ThreadedRodeo::default();
    let mut base = class(&interner, "java/lang/Object", None, vec![], Some(100));
    base.set_initialized();
    let mut table = ClassTable::new(vec![LoadedClass { kind: ClassKind::Instance, base }]);
    let mut init = Initializer::new(Some(ClassId(0)));
    assert_eq!(run(&mut init, &mut table, &interner).unwrap(), vec![]);
}

#[test]
fn class_being_initialized_is_left_alone() {
    let interner = ThreadedRodeo::default();
    let mut base = class(&interner, "java/lang/Object", None, vec![], Some(100));
    base.set_initializing();
    let mut table = ClassTable::new(vec![LoadedClass { kind: ClassKind::Instance, base }]);
    let mut init = Initializer::new(Some(ClassId(0)));
    assert_eq!(init.step(&mut table, &interner).unwrap(), InitAction::Continue);
    assert_eq!(init.step(&mut table, &interner).unwrap(), InitAction::Done);
    assert_eq!(table.get_class_like(ClassId(0)).state(), ClassState::Initializing);
}

#[test]
fn no_class_is_done_at_once() {
    let interner = ThreadedRodeo::default();
    let mut table = ClassTable::new(vec![]);
    let mut init = Initializer::new(None);
    assert!(init.is_done());
    assert_eq!(init.step(&mut table, &interner).unwrap(), InitAction::Done);
}

#[test]
fn array_class_is_marked_initialized() {
    let interner = ThreadedRodeo::default();
    let base = BaseClass::new(intern(&interner, "[I").unwrap(), ClassFlags(0), Some(ClassId(0)), None);
    let mut table = ClassTable::new(vec![LoadedClass { kind: ClassKind::Other, base }]);
    let mut init = Initializer::new(Some(ClassId(0)));
    assert_eq!(run(&mut init, &mut table, &interner).unwrap(), vec![]);
    assert_eq!(table.get_class_like(ClassId(0)).state(), ClassState::Initialized);
}

#[test]
fn unlinked_interfaces_are_an_error() {
    let interner = ThreadedRodeo::default();
    let base = BaseClass::new(intern(&interner, "p/Unlinked").unwrap(), ClassFlags(0), None, None);
    let mut table = ClassTable::new(vec![LoadedClass { kind: ClassKind::Instance, base }]);
    let mut init = Initializer::new(Some(ClassId(0)));
    assert_eq!(init.step(&mut table, &interner).unwrap(), InitAction::Continue);
    assert_eq!(init.step(&mut table, &interner).unwrap(), InitAction::Continue);
    match init.step(&mut table, &interner) {
        Err(JvmError::Todo(s)) => assert_eq!(s, "BaseClass interfaces not set"),
        other => panic!("unexpected {:?}", other),
    }
    // The failed step changed nothing.
    assert_eq!(table.get_class_like(ClassId(0)).state(), ClassState::Initializing);
    assert!(!init.is_done());
}

#[test]
fn shared_secrets_gets_a_ref_access_stand_in() {
    let interner = ThreadedRodeo::default();
    let field = FieldKey {
        name: intern(&interner, "javaLangRefAccess").unwrap(),
        desc: intern(&interner, "Ljdk/internal/access/JavaLangRefAccess;").unwrap(),
    };
    let mut base = class(&interner, "jdk/internal/access/SharedSecrets", None, vec![], None);
    base.set_static_fields(vec![(
        field,
        StaticField { flags: FieldFlags(0x8), descriptor: FieldDescriptorId(0), value: Value::Null },
    )])
    .unwrap();
    let mut table = ClassTable::new(vec![LoadedClass { kind: ClassKind::Instance, base }]);
    let mut init = Initializer::new(Some(ClassId(0)));
    assert_eq!(run(&mut init, &mut table, &interner).unwrap(), vec![]);
    assert_eq!(table.get_class_like(ClassId(0)).get_static_field_value(&field).unwrap(), Value::Ref(0));
    assert_eq!(table.get_class_like(ClassId(0)).state(), ClassState::Initialized);
}

#[test]
fn shared_secrets_without_the_field_is_an_error() {
    let interner = ThreadedRodeo::default();
    let mut base = class(&interner, "jdk/internal/access/SharedSecrets", None, vec![], None);
    base.set_static_fields(vec![]).unwrap();
    let mut table = ClassTable::new(vec![LoadedClass { kind: ClassKind::Instance, base }]);
    let mut init = Initializer::new(Some(ClassId(0)));
    match run(&mut init, &mut table, &interner) {
        Err(JvmError::Todo(s)) => assert_eq!(s, "No such field"),
        other => panic!("unexpected {:?}", other),
    }
    assert_eq!(table.get_class_like(ClassId(0)).state(), ClassState::Initializing);
}

#[test]
fn a_second_initialization_runs_nothing() {
    let interner = ThreadedRodeo::default();
    let mut table = ClassTable::new(vec![
        LoadedClass { kind: ClassKind::Instance, base: class(&interner, "java/lang/Object", None, vec![], Some(100)) },
        LoadedClass { kind: ClassKind::Instance, base: class(&interner, "p/A", Some(ClassId(0)), vec![], Some(101)) },
    ]);
    let mut first = Initializer::new(Some(ClassId(1)));
    assert_eq!(run(&mut first, &mut table, &interner).unwrap(), vec![(ClassId(0), MethodId(100)), (ClassId(1), MethodId(101))]);
    let mut second = Initializer::new(Some(ClassId(1)));
    assert_eq!(run(&mut second, &mut table, &interner).unwrap(), vec![]);
    assert_eq!(table.get_class_like(ClassId(1)).state(), ClassState::Initialized);
}
