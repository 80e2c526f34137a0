use lagertha_runtime::bootstrap_registry::BootstrapRegistry;
use lagertha_runtime::error::JvmError;
use lagertha_runtime::keys::ClassId;
use lagertha_runtime::value::PrimitiveType;
use lasso::{Key, Spur, ThreadedRodeo};

fn text(interner: &ThreadedRodeo, sym: u32) -> String {
    interner.resolve(&Spur::try_from_usize(sym as usize).unwrap()).to_string()
}

#[test]
fn registry_interns_well_known_names() {
    let interner = ThreadedRodeo::new();
    let br = BootstrapRegistry::new(&interner).unwrap();
    assert_eq!(text(&interner, br.clinit_sym), "<clinit>");
    assert_eq!(br.clinit_mk.name, br.clinit_sym);
    assert_eq!(text(&interner, br.main_mk.desc), "([Ljava/lang/String;)V");
    assert_eq!(text(&interner, br.fd_fd_fk.desc), "I");
    assert_eq!(text(&interner, br.java_lang_ref_reference_sym), "java/lang/ref/Reference");
    assert_eq!(br.get_primitive_sym(&PrimitiveType::Boolean), br.boolean_sym);
    assert_eq!(text(&interner, br.get_primitive_sym(&PrimitiveType::Char)), "char");
}

#[test]
fn class_ids_are_set_once() {
    let interner = ThreadedRodeo::new();
    let mut br = BootstrapRegistry::new(&interner).unwrap();
    match br.get_java_lang_object_id() {
        Err(JvmError::Todo(s)) => assert_eq!(s, "java/lang/Object is not loaded"),
        other => panic!("unexpected {:?}", other),
    }
    br.set_java_lang_object_id(ClassId(3)).unwrap();
    assert_eq!(br.get_java_lang_object_id().unwrap(), ClassId(3));
    match br.set_java_lang_object_id(ClassId(4)) {
        Err(JvmError::Todo(s)) => assert_eq!(s, "java/lang/Object ID already set"),
        other => panic!("unexpected {:?}", other),
    }
    assert_eq!(br.get_java_lang_object_id().unwrap(), ClassId(3));
    br.set_byte_array_class_id(ClassId(8)).unwrap();
    assert_eq!(br.get_byte_array_class_id().unwrap(), ClassId(8));
}

#[test]
fn every_core_class_id_is_kept_once_set() {
    let interner = ThreadedRodeo::new();
    let mut br = BootstrapRegistry::new(&interner).unwrap();
    assert!(br.get_java_lang_class_id().is_err());
    assert!(br.get_java_lang_string_id().is_err());
    br.set_java_lang_class_id(ClassId(1)).unwrap();
    br.set_java_lang_throwable_id(ClassId(2)).unwrap();
    br.set_java_lang_thread_group_id(ClassId(3)).unwrap();
    br.set_java_lang_thread_id(ClassId(4)).unwrap();
    br.set_java_lang_string_id(ClassId(5)).unwrap();
    br.set_java_lang_system_id(ClassId(6)).unwrap();
    assert_eq!(br.get_java_lang_class_id().unwrap(), ClassId(1));
    assert_eq!(br.get_java_lang_throwable_id().unwrap(), ClassId(2));
    assert_eq!(br.get_java_lang_thread_group_id().unwrap(), ClassId(3));
    assert_eq!(br.get_java_lang_thread_id().unwrap(), ClassId(4));
    assert_eq!(br.get_java_lang_string_id().unwrap(), ClassId(5));
    assert_eq!(br.get_java_lang_system_id().unwrap(), ClassId(6));
    match br.set_java_lang_thread_id(ClassId(9)) {
        Err(JvmError::Todo(s)) => assert_eq!(s, "java/lang/Thread ID already set"),
        other => panic!("unexpected {:?}", other),
    }
    assert_eq!(br.get_java_lang_thread_id().unwrap(), ClassId(4));
}

#[test]
fn registry_keys_for_equal_texts_are_equal() {
    let i = ThreadedRodeo::default();
    let br = BootstrapRegistry::new(&i).unwrap();
    assert_eq!(br.fd_fd_fk.name, br.file_output_stream_fd_fk.name);
    assert_eq!(text(&i, br.fd_fd_fk.name), "fd");
    assert_eq!(text(&i, br.file_output_stream_fd_fk.desc), "Ljava/io/FileDescriptor;");
    assert_eq!(text(&i, br.fd_fd_fk.desc), "I");
    assert_eq!(br.fd_fd_fk.desc, br.int_desc);
}
