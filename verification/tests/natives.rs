use lagertha_runtime::heap::{AllocationType, ArrayType, Heap};
use lagertha_runtime::keys::ClassId;
use lagertha_runtime::native_methods::{
    boolean_attributes, file_output_stream_write_request, file_path_of, init_stack_trace_element,
    java_io_file_descriptor_get_append, java_io_file_descriptor_get_handle, java_io_file_descriptor_init_ids,
    java_io_file_input_stream_init_ids, java_io_file_output_stream_init_ids,
    java_io_unix_file_system_init_ids, java_lang_double_double_to_raw_long_bits,
    java_lang_double_long_bits_to_double, java_lang_float_float_to_raw_int_bits,
    java_lang_float_int_bits_to_float, java_lang_null_pointer_exception_get_extended_npe_message,
    java_lang_object_hash_code, java_lang_object_notify_all, java_lang_ref_reference_refers_to_0,
    java_lang_runtime_available_processors, java_lang_runtime_max_memory, java_lang_string_intern,
    fill_in_stack_trace_of_thread, java_lang_stack_trace_element_init_stack_trace_elements,
    java_lang_system_arraycopy, java_lang_throwable_fill_in_stack_trace, read_backtrace_entry,
    select_backtrace_frames, write_stack_trace_element, BacktraceFrame, StackTraceElementInfo,
    StackTraceFieldOffsets, ThreadFrame,
};
use lagertha_runtime::class::{BaseClass, ClassFlags};
use lagertha_runtime::keys::MethodDescriptorId;
use lagertha_runtime::method::{
    CodeAttribute, CodeAttributeInfo, LineNumberEntry, Method, MethodAttribute, MethodFlags, MethodInfo,
};
use lagertha_runtime::natives::{
    do_register_java_io_preregistered_natives, do_register_java_lang_preregistered_natives,
    do_register_java_lang_ref_preregistered_natives, FullyQualifiedMethodKey, NativeMethod, NativeRegistry,
};
use lagertha_runtime::value::Value;
use lasso::{Key, ThreadedRodeo};
use std::sync::Arc;

/// The key of `s` in `interner`, interned if it was not.
fn intern(interner: &ThreadedRodeo, s: &str) -> Option<u32> {
    Some(interner.get_or_intern(s).into_usize() as u32)
}

fn heap() -> Heap {
    Heap::new(1, Arc::new(ThreadedRodeo::new()), ClassId(1), 16, ClassId(2)).unwrap()
}

#[test]
fn registered_native_is_found() {
    let interner = Arc::new(ThreadedRodeo::new());
    let mut registry = NativeRegistry::new(interner.clone());
    let key = FullyQualifiedMethodKey::new_with_str("a/B", "c", "()V", &interner).unwrap();
    assert_eq!(registry.get(&key), None);
    registry.register(key, NativeMethod::ObjectHashCode);
    assert_eq!(registry.get(&key), Some(NativeMethod::ObjectHashCode));
    registry.register(key, NativeMethod::ObjectNotifyAll);
    assert_eq!(registry.get(&key), Some(NativeMethod::ObjectNotifyAll));
}

#[test]
fn preregistered_natives_are_found_by_name() {
    let interner = Arc::new(ThreadedRodeo::new());
    let mut registry = NativeRegistry::new(interner.clone());
    do_register_java_lang_preregistered_natives(&mut registry).unwrap();
    do_register_java_io_preregistered_natives(&mut registry).unwrap();
    do_register_java_lang_ref_preregistered_natives(&mut registry).unwrap();
    let key = FullyQualifiedMethodKey::new_with_str("java/lang/Float", "intBitsToFloat", "(I)F", &interner).unwrap();
    assert_eq!(registry.get(&key), Some(NativeMethod::IntBitsToFloat));
    let key = FullyQualifiedMethodKey::new_with_str("java/io/FileDescriptor", "getHandle", "(I)J", &interner).unwrap();
    assert_eq!(registry.get(&key), Some(NativeMethod::FileDescriptorGetHandle));
    let key = FullyQualifiedMethodKey::new_with_str("java/lang/ref/Reference", "refersTo0", "(Ljava/lang/Object;)Z", &interner).unwrap();
    assert_eq!(registry.get(&key), Some(NativeMethod::ReferenceRefersTo0));
    let missing = FullyQualifiedMethodKey::new_with_str("java/lang/Float", "intBitsToFloat", "(J)F", &interner).unwrap();
    assert_eq!(registry.get(&missing), None);
}

#[test]
fn bit_conversions_keep_the_bits() {
    let bits = 1.5f32.to_bits();
    assert_eq!(java_lang_float_float_to_raw_int_bits(&[Value::Float(bits)]).unwrap(), Some(Value::Integer(bits as i32)));
    assert_eq!(java_lang_float_int_bits_to_float(&[Value::Integer(bits as i32)]).unwrap(), Some(Value::Float(bits)));
    let dbits = (-2.25f64).to_bits();
    assert_eq!(java_lang_double_double_to_raw_long_bits(&[Value::Double(dbits)]).unwrap(), Some(Value::Long(dbits as i64)));
    assert_eq!(java_lang_double_long_bits_to_double(&[Value::Long(dbits as i64)]).unwrap(), Some(Value::Double(dbits)));
    assert!(java_lang_double_long_bits_to_double(&[Value::Integer(1)]).is_err());
}

#[test]
fn simple_natives() {
    assert_eq!(java_lang_object_hash_code(&[Value::Ref(48)]).unwrap(), Some(Value::Integer(48)));
    assert_eq!(java_lang_runtime_available_processors().unwrap(), Some(Value::Integer(1)));
}

#[test]
fn string_intern_gives_pooled_string() {
    let mut h = heap();
    let a = h.alloc_string("same text").unwrap();
    let b = h.alloc_string("same text").unwrap();
    assert_ne!(a, b);
    let ia = java_lang_string_intern(&mut h, &[Value::Ref(a)]).unwrap();
    let ib = java_lang_string_intern(&mut h, &[Value::Ref(b)]).unwrap();
    assert_eq!(ia, ib);
    match ia {
        Some(Value::Ref(r)) => assert_eq!(h.get_rust_string_from_java_string(r).unwrap(), "same text"),
        other => panic!("unexpected {:?}", other),
    }
}

#[test]
fn refers_to_compares_the_referent() {
    let mut h = heap();
    let target = h.alloc_instance(8, ClassId(3)).unwrap();
    let reference = h.alloc_instance(16, ClassId(4)).unwrap();
    h.write_field(reference, 8, Value::Ref(target), AllocationType::Reference).unwrap();
    assert_eq!(
        java_lang_ref_reference_refers_to_0(&h, &[Value::Ref(reference), Value::Ref(target)], 8).unwrap(),
        Some(Value::Integer(1))
    );
    assert_eq!(
        java_lang_ref_reference_refers_to_0(&h, &[Value::Ref(reference), Value::Ref(reference)], 8).unwrap(),
        Some(Value::Integer(0))
    );
}

#[test]
fn backtrace_written_then_read() {
    let mut h = heap();
    let throwable = h.alloc_instance(16, ClassId(9)).unwrap();
    let frames = vec![
        BacktraceFrame { class_id: 3, method_id: 30, pc: 7 },
        BacktraceFrame { class_id: 4, method_id: 40, pc: -2 },
    ];
    let r = java_lang_throwable_fill_in_stack_trace(&mut h, &[Value::Ref(throwable)], &frames, ClassId(5), ClassId(6), 0, 8)
        .unwrap();
    assert_eq!(r, Some(Value::Ref(throwable)));
    assert_eq!(h.read_field(throwable, 8, AllocationType::Int).unwrap(), Value::Integer(2));
    let backtrace = match h.read_field(throwable, 0, AllocationType::Reference).unwrap() {
        Value::Ref(b) => b,
        other => panic!("unexpected {:?}", other),
    };
    assert_eq!(read_backtrace_entry(&h, backtrace, 0).unwrap(), frames[0]);
    assert_eq!(read_backtrace_entry(&h, backtrace, 1).unwrap(), frames[1]);
    assert!(read_backtrace_entry(&h, backtrace, 2).is_err());
}

#[test]
fn stack_trace_element_fields_are_written() {
    let mut h = heap();
    let element = h.alloc_instance(40, ClassId(9)).unwrap();
    let offsets = StackTraceFieldOffsets { declaring_class_name: 0, method_name: 8, file_name: 16, line_number: 24, declaring_class: 32 };
    write_stack_trace_element(&mut h, element, offsets, 100, 200, 300, 42, 400).unwrap();
    assert_eq!(h.read_field(element, 8, AllocationType::Reference).unwrap(), Value::Ref(200));
    assert_eq!(h.read_field(element, 24, AllocationType::Int).unwrap(), Value::Integer(42));
    assert_eq!(h.read_field(element, 32, AllocationType::Reference).unwrap(), Value::Ref(400));
}

#[test]
fn write_request_reads_descriptor_and_bytes() {
    let mut h = heap();
    let fd = h.alloc_instance(8, ClassId(3)).unwrap();
    h.write_field(fd, 0, Value::Integer(1), AllocationType::Int).unwrap();
    let stream = h.alloc_instance(8, ClassId(4)).unwrap();
    h.write_field(stream, 0, Value::Ref(fd), AllocationType::Reference).unwrap();
    let bytes = h.alloc_primitive_array(ClassId(2), ArrayType::Byte, 4).unwrap();
    for (i, b) in [104, 105, 33, -1].iter().enumerate() {
        h.write_array_element(bytes, i as i32, Value::Integer(*b)).unwrap();
    }
    let args = [Value::Ref(stream), Value::Ref(bytes), Value::Integer(1), Value::Integer(3)];
    let (fd_val, out) = file_output_stream_write_request(&h, &args, 0, 0).unwrap();
    assert_eq!(fd_val, 1);
    assert_eq!(out, vec![105, 33, 255]);
}

fn string_field(h: &Heap, obj: usize, offset: usize) -> String {
    match h.read_field(obj, offset, AllocationType::Reference).unwrap() {
        Value::Ref(s) => h.get_rust_string_from_java_string(s).unwrap(),
        other => panic!("unexpected {:?}", other),
    }
}

#[test]
fn stack_trace_element_is_initialized_from_its_frame() {
    let interner = Arc::new(ThreadedRodeo::new());
    let mut h = Heap::new(1, interner.clone(), ClassId(1), 16, ClassId(2)).unwrap();
    let element = h.alloc_instance(40, ClassId(9)).unwrap();
    let elements = h.alloc_object_array(ClassId(8), 2).unwrap();
    h.write_array_element(elements, 1, Value::Ref(element)).unwrap();
    let info = StackTraceElementInfo {
        class_name: intern(&interner, "java/lang/Thread").unwrap(),
        method_name: intern(&interner, "run").unwrap(),
        source_file: None,
        line_number: 17,
        declaring_class: 500,
        offsets: StackTraceFieldOffsets { declaring_class_name: 0, method_name: 8, file_name: 16, line_number: 24, declaring_class: 32 },
    };
    init_stack_trace_element(&mut h, elements, 1, &info).unwrap();
    assert_eq!(string_field(&h, element, 0), "java.lang.Thread");
    assert_eq!(string_field(&h, element, 8), "run");
    assert_eq!(string_field(&h, element, 16), "TODO: Unknown Source");
    assert_eq!(h.read_field(element, 24, AllocationType::Int).unwrap(), Value::Integer(17));
    assert_eq!(h.read_field(element, 32, AllocationType::Reference).unwrap(), Value::Ref(500));
    // Element 0 holds no object.
    assert!(init_stack_trace_element(&mut h, elements, 0, &info).is_err());
}

#[test]
fn arraycopy_copies_elements() {
    let mut h = heap();
    let a = h.alloc_primitive_array(ClassId(2), ArrayType::Int, 4).unwrap();
    let b = h.alloc_primitive_array(ClassId(2), ArrayType::Int, 4).unwrap();
    for i in 0..4 {
        h.write_array_element(a, i, Value::Integer(10 + i)).unwrap();
    }
    let name = |c: ClassId| format!("class{}", c.0);
    let args = [Value::Ref(a), Value::Integer(1), Value::Ref(b), Value::Integer(0), Value::Integer(3)];
    assert_eq!(java_lang_system_arraycopy(&mut h, &args, &name).unwrap(), None);
    assert_eq!(h.read_array_element(b, 0).unwrap(), Value::Integer(11));
    assert_eq!(h.read_array_element(b, 2).unwrap(), Value::Integer(13));
    assert_eq!(h.read_array_element(b, 3).unwrap(), Value::Integer(0));
}

#[test]
fn arraycopy_refuses_objects_that_are_not_arrays() {
    let mut h = heap();
    let a = h.alloc_primitive_array(ClassId(2), ArrayType::Int, 4).unwrap();
    let o = h.alloc_instance(8, ClassId(7)).unwrap();
    let name = |c: ClassId| format!("class{}", c.0);
    let args = [Value::Ref(a), Value::Integer(0), Value::Ref(o), Value::Integer(0), Value::Integer(1)];
    match java_lang_system_arraycopy(&mut h, &args, &name) {
        Err(lagertha_runtime::error::JvmError::JavaException(e)) => {
            assert_eq!(e.kind, lagertha_runtime::error::JavaExceptionKind::ArrayStoreException);
            let interner = ThreadedRodeo::new();
            assert_eq!(e.message.unwrap().into_resolved(&interner), "arraycopy: destination type class7 is not an array");
        }
        other => panic!("unexpected {:?}", other),
    }
    let zero = [Value::Ref(a), Value::Integer(0), Value::Ref(a), Value::Integer(1), Value::Integer(0)];
    assert_eq!(java_lang_system_arraycopy(&mut h, &zero, &name).unwrap(), None);
}

#[test]
fn file_attributes_combine_bits() {
    assert_eq!(boolean_attributes(Some((true, false)), "/tmp/.hidden"), 0x01 | 0x02 | 0x08);
    assert_eq!(boolean_attributes(Some((false, true)), "/usr"), 0x01 | 0x04);
    assert_eq!(boolean_attributes(None, "a/b"), 0);
    assert_eq!(boolean_attributes(None, "a/.."), 0);
}

#[test]
fn file_path_is_read_through_the_path_field() {
    let interner = Arc::new(ThreadedRodeo::new());
    let mut h = Heap::new(1, interner, ClassId(1), 16, ClassId(2)).unwrap();
    let path = h.alloc_string("/etc/hosts").unwrap();
    let file = h.alloc_instance(8, ClassId(5)).unwrap();
    h.write_field(file, 0, Value::Ref(path), AllocationType::Reference).unwrap();
    assert_eq!(file_path_of(&h, &[Value::Null, Value::Ref(file)], 0).unwrap(), "/etc/hosts");
    assert!(file_path_of(&h, &[Value::Null, Value::Null], 0).is_err());
}

#[test]
fn stub_natives_give_their_fixed_results() {
    assert_eq!(java_lang_runtime_max_memory(64 * 1024 * 1024).unwrap(), Some(Value::Long(64 * 1024 * 1024)));
    assert_eq!(java_lang_object_notify_all().unwrap(), None);
    assert_eq!(java_lang_null_pointer_exception_get_extended_npe_message().unwrap(), Some(Value::Null));
    assert_eq!(java_io_file_input_stream_init_ids().unwrap(), None);
    assert_eq!(java_io_file_descriptor_init_ids().unwrap(), None);
    assert_eq!(java_io_file_output_stream_init_ids().unwrap(), None);
    assert_eq!(java_io_unix_file_system_init_ids().unwrap(), None);
    assert_eq!(java_io_file_descriptor_get_handle().unwrap(), Some(Value::Long(0)));
    assert_eq!(java_io_file_descriptor_get_append().unwrap(), Some(Value::Integer(0)));
}

fn thread_frame(class_id: i32, method_id: i32, pc: Option<i32>, in_throwable: bool) -> ThreadFrame {
    ThreadFrame { class_id, method_id, pc, in_throwable }
}

#[test]
fn backtrace_keeps_non_throwable_frames_innermost_first() {
    // Outermost first: main, a Throwable constructor, then the innermost native frame.
    let stack = vec![
        thread_frame(1, 10, Some(4), false),
        thread_frame(2, 20, Some(7), false),
        thread_frame(3, 30, Some(0), true),
        thread_frame(4, 40, None, false),
    ];
    let frames = select_backtrace_frames(&stack);
    assert_eq!(
        frames,
        vec![
            BacktraceFrame { class_id: 4, method_id: 40, pc: -2 },
            BacktraceFrame { class_id: 2, method_id: 20, pc: 7 },
            BacktraceFrame { class_id: 1, method_id: 10, pc: 4 },
        ]
    );
    assert!(select_backtrace_frames(&vec![]).is_empty());
}

#[test]
fn fill_in_stack_trace_of_thread_records_selected_frames() {
    let mut h = heap();
    let throwable = h.alloc_instance(16, ClassId(7)).unwrap();
    let stack = vec![thread_frame(1, 10, Some(4), false), thread_frame(3, 30, Some(0), true)];
    let r = fill_in_stack_trace_of_thread(&mut h, &[Value::Ref(throwable)], &stack, ClassId(5), ClassId(6), 0, 8).unwrap();
    assert_eq!(r, Some(Value::Ref(throwable)));
    assert_eq!(h.read_field(throwable, 8, AllocationType::Int).unwrap(), Value::Integer(1));
    let backtrace = match h.read_field(throwable, 0, AllocationType::Reference).unwrap() {
        Value::Ref(b) => b,
        other => panic!("unexpected {:?}", other),
    };
    assert_eq!(read_backtrace_entry(&h, backtrace, 0).unwrap(), BacktraceFrame { class_id: 1, method_id: 10, pc: 4 });
}

fn method_named(name: u32, lines: &[(u16, u16)]) -> Method {
    let table = lines.iter().map(|&(start_pc, line_number)| LineNumberEntry { start_pc, line_number }).collect();
    let code = CodeAttribute {
        max_stack: 2,
        max_locals: 1,
        code: vec![0x03, 0xac],
        exception_table: vec![],
        attributes: vec![CodeAttributeInfo::LineNumberTable(table)],
    };
    let info = MethodInfo { access_flags: MethodFlags(0x0008), name_index: 1, descriptor_index: 2, attributes: vec![MethodAttribute::Code(code)] };
    Method::new(info, ClassId(0), MethodDescriptorId(0), name, 0)
}

#[test]
fn stack_trace_elements_are_filled_from_the_backtrace() {
    let interner = Arc::new(ThreadedRodeo::new());
    let mut h = Heap::new(1, interner.clone(), ClassId(1), 16, ClassId(2)).unwrap();
    let throwable = h.alloc_instance(16, ClassId(7)).unwrap();
    let frames = vec![BacktraceFrame { class_id: 0, method_id: 1, pc: 5 }, BacktraceFrame { class_id: 1, method_id: 0, pc: -2 }];
    java_lang_throwable_fill_in_stack_trace(&mut h, &[Value::Ref(throwable)], &frames, ClassId(5), ClassId(6), 0, 8).unwrap();
    let backtrace = match h.read_field(throwable, 0, AllocationType::Reference).unwrap() {
        Value::Ref(b) => b,
        other => panic!("unexpected {:?}", other),
    };
    let e0 = h.alloc_instance(40, ClassId(9)).unwrap();
    let e1 = h.alloc_instance(40, ClassId(9)).unwrap();
    let elements = h.alloc_object_array(ClassId(8), 2).unwrap();
    h.write_array_element(elements, 0, Value::Ref(e0)).unwrap();
    h.write_array_element(elements, 1, Value::Ref(e1)).unwrap();
    let classes = vec![
        BaseClass::new(intern(&interner, "java/lang/Thread").unwrap(), ClassFlags(0), None, Some(intern(&interner, "Thread.java").unwrap())),
        BaseClass::new(intern(&interner, "a/B").unwrap(), ClassFlags(0), None, None),
    ];
    let mirrors = vec![700, 800];
    let methods = vec![
        method_named(intern(&interner, "run").unwrap(), &[]),
        method_named(intern(&interner, "start").unwrap(), &[(0, 10), (4, 12)]),
    ];
    let offsets = StackTraceFieldOffsets { declaring_class_name: 0, method_name: 8, file_name: 16, line_number: 24, declaring_class: 32 };
    let args = [Value::Ref(elements), Value::Ref(backtrace), Value::Integer(2)];
    let r = java_lang_stack_trace_element_init_stack_trace_elements(&mut h, &args, &classes, &mirrors, &methods, offsets);
    assert_eq!(r.unwrap(), None);
    assert_eq!(string_field(&h, e0, 0), "java.lang.Thread");
    assert_eq!(string_field(&h, e0, 8), "start");
    assert_eq!(string_field(&h, e0, 16), "Thread.java");
    assert_eq!(h.read_field(e0, 24, AllocationType::Int).unwrap(), Value::Integer(12));
    assert_eq!(h.read_field(e0, 32, AllocationType::Reference).unwrap(), Value::Ref(700));
    assert_eq!(string_field(&h, e1, 0), "a.B");
    assert_eq!(string_field(&h, e1, 8), "run");
    assert_eq!(string_field(&h, e1, 16), "TODO: Unknown Source");
    assert_eq!(h.read_field(e1, 24, AllocationType::Int).unwrap(), Value::Integer(-2));
    assert_eq!(h.read_field(e1, 32, AllocationType::Reference).unwrap(), Value::Ref(800));
    // A frame naming a method that is not there is refused.
    let one_method = vec![method_named(intern(&interner, "run").unwrap(), &[])];
    let r = java_lang_stack_trace_element_init_stack_trace_elements(&mut h, &args, &classes, &mirrors, &one_method, offsets);
    assert!(r.is_err());
}
