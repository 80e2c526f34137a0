use lagertha_runtime::bootstrap_registry::BootstrapRegistry;
use lagertha_runtime::constant_pool::{ConstantInfo, RuntimeConstantPool};
use lagertha_runtime::dispatch::{classify_error, native_or_link_error, needs_answer, AreaAnswer, AreaStep, RaisedError};
use lagertha_runtime::error::{JavaExceptionFromJvm, JavaExceptionKind, JvmError};
use lagertha_runtime::frame::JavaFrame;
use lagertha_runtime::handlers::{
    handle_anewarray, handle_getfield, handle_iadd, handle_idiv, handle_iinc, handle_iload0,
    handle_instanceof, handle_istore0, handle_lcmp, handle_ldc_ldcw_ldc2w, handle_new, handle_newarray,
    handle_putfield,
};
use lagertha_runtime::heap::{AllocationType, ArrayType, Heap};
use lagertha_runtime::instruction::{Instruction, LookupSwitchData, TableSwitchData};
use lagertha_runtime::interpreter::{Interpreter, Step};
use lagertha_runtime::keys::{ClassId, MethodId};
use lagertha_runtime::method::ExceptionTableEntry;
use lagertha_runtime::natives::FullyQualifiedMethodKey;
use lagertha_runtime::value::Value;
use lasso::{Key, ThreadedRodeo};
use std::sync::Arc;

/// The key of `s` in `interner`, interned if it was not.
fn intern(interner: &ThreadedRodeo, s: &str) -> Option<u32> {
    Some(interner.get_or_intern(s).into_usize() as u32)
}

fn frame_with(ops: &[Value]) -> JavaFrame {
    let mut f = JavaFrame::new(MethodId(1), 8, 4, vec![]);
    for v in ops {
        f.push_operand(*v).unwrap();
    }
    f
}

fn heap() -> Heap {
    Heap::new(1, Arc::new(ThreadedRodeo::new()), ClassId(1), 16, ClassId(2)).unwrap()
}

fn run(frame: &mut JavaFrame, heap: &mut Heap, i: Instruction) -> Result<Step, JvmError> {
    Interpreter::interpret_instruction(frame, heap, i)
}

#[test]
fn iadd_wraps_and_advances_pc() {
    let mut f = frame_with(&[Value::Integer(i32::MAX), Value::Integer(1)]);
    let mut h = heap();
    assert!(matches!(run(&mut f, &mut h, Instruction::Iadd), Ok(Step::Continue)));
    assert_eq!(f.peek(0).unwrap(), Value::Integer(i32::MIN));
    assert_eq!(f.operand_count(), 1);
    assert_eq!(f.pc(), 1);
}

#[test]
fn bipush_advances_two_bytes() {
    let mut f = frame_with(&[]);
    let mut h = heap();
    run(&mut f, &mut h, Instruction::Bipush(-5)).unwrap();
    assert_eq!(f.peek(0).unwrap(), Value::Integer(-5));
    assert_eq!(f.pc(), 2);
}

#[test]
fn idiv_by_zero_raises_arithmetic_exception() {
    let mut f = frame_with(&[Value::Integer(7), Value::Integer(0)]);
    match handle_idiv(&mut f).unwrap_err() {
        JvmError::JavaException(ex) => {
            assert_eq!(ex.kind, JavaExceptionKind::ArithmeticException);
            assert_eq!(ex.message.unwrap().into_resolved(&ThreadedRodeo::new()), "/ by zero");
        }
        other => panic!("unexpected {:?}", other),
    }
    assert_eq!(f.operand_count(), 0);
}

#[test]
fn idiv_truncates_toward_zero() {
    let mut f = frame_with(&[Value::Integer(-7), Value::Integer(2)]);
    handle_idiv(&mut f).unwrap();
    assert_eq!(f.peek(0).unwrap(), Value::Integer(-3));
}

#[test]
fn wrong_operand_kind_leaves_frame() {
    let mut f = frame_with(&[Value::Long(1), Value::Integer(2)]);
    assert!(handle_iadd(&mut f).is_err());
    assert_eq!(f.operand_count(), 2);
    let mut empty = frame_with(&[]);
    assert!(matches!(handle_iadd(&mut empty), Err(JvmError::OperandStackIsEmpty)));
}

#[test]
fn lcmp_orders_longs() {
    let mut f = frame_with(&[Value::Long(3), Value::Long(9)]);
    handle_lcmp(&mut f).unwrap();
    assert_eq!(f.peek(0).unwrap(), Value::Integer(-1));
}

#[test]
fn store_then_load_gives_value() {
    let mut f = frame_with(&[Value::Integer(17)]);
    handle_istore0(&mut f).unwrap();
    assert_eq!(f.operand_count(), 0);
    handle_iload0(&mut f).unwrap();
    assert_eq!(f.peek(0).unwrap(), Value::Integer(17));
}

#[test]
fn iinc_adds_to_local() {
    let mut f = frame_with(&[Value::Integer(5)]);
    handle_istore0(&mut f).unwrap();
    handle_iinc(&mut f, 0, -2).unwrap();
    assert_eq!(f.get_local(0).unwrap(), Value::Integer(3));
    assert!(matches!(handle_iinc(&mut f, 1, 1), Err(JvmError::LocalVariableNotInitialized(1))));
    assert!(matches!(handle_iinc(&mut f, 9, 1), Err(JvmError::LocalVariableNotFound(9))));
}

#[test]
fn branch_taken_and_not_taken() {
    let mut h = heap();
    let mut f = frame_with(&[Value::Integer(0)]);
    f.set_pc(10);
    run(&mut f, &mut h, Instruction::IfEq(-4)).unwrap();
    assert_eq!(f.pc(), 6);
    let mut g = frame_with(&[Value::Integer(1)]);
    g.set_pc(10);
    run(&mut g, &mut h, Instruction::IfEq(-4)).unwrap();
    assert_eq!(g.pc(), 13);
}

#[test]
fn tableswitch_jumps_by_index() {
    let mut h = heap();
    let table = TableSwitchData { default_offset: 100, low: 1, high: 3, offsets: vec![10, 20, 30] };
    let mut f = frame_with(&[Value::Integer(2)]);
    run(&mut f, &mut h, Instruction::TableSwitch(table)).unwrap();
    assert_eq!(f.pc(), 20);
    let table = TableSwitchData { default_offset: 100, low: 1, high: 3, offsets: vec![10, 20, 30] };
    let mut g = frame_with(&[Value::Integer(9)]);
    run(&mut g, &mut h, Instruction::TableSwitch(table)).unwrap();
    assert_eq!(g.pc(), 100);
}

#[test]
fn lookupswitch_finds_key() {
    let mut h = heap();
    let sw = LookupSwitchData { default_offset: 50, pairs: vec![(-1, 5), (4, 40), (8, 80)] };
    let mut f = frame_with(&[Value::Integer(8)]);
    run(&mut f, &mut h, Instruction::Lookupswitch(sw)).unwrap();
    assert_eq!(f.pc(), 80);
    let sw = LookupSwitchData { default_offset: 50, pairs: vec![(-1, 5), (4, 40), (8, 80)] };
    let mut g = frame_with(&[Value::Integer(3)]);
    run(&mut g, &mut h, Instruction::Lookupswitch(sw)).unwrap();
    assert_eq!(g.pc(), 50);
}

#[test]
fn returns_and_deferred_instructions() {
    let mut h = heap();
    let mut f = frame_with(&[Value::Integer(4)]);
    assert!(matches!(run(&mut f, &mut h, Instruction::Ireturn), Ok(Step::Return(Some(Value::Integer(4))))));
    let mut g = frame_with(&[]);
    assert!(matches!(run(&mut g, &mut h, Instruction::Return), Ok(Step::Return(None))));
    let mut d = frame_with(&[Value::Double(0), Value::Double(0)]);
    assert!(matches!(run(&mut d, &mut h, Instruction::Dadd), Ok(Step::Defer)));
    assert_eq!(d.operand_count(), 2);
    assert_eq!(d.pc(), 0);
}

#[test]
fn athrow_hands_the_exception_over() {
    let mut h = heap();
    let obj = h.alloc_instance(8, ClassId(4)).unwrap();
    let mut f = frame_with(&[Value::Ref(obj)]);
    assert!(matches!(run(&mut f, &mut h, Instruction::Athrow), Err(JvmError::JavaExceptionThrown(r)) if r == obj));
}

#[test]
fn array_instructions_use_the_heap() {
    let mut h = heap();
    let arr = h.alloc_primitive_array(ClassId(3), lagertha_runtime::heap::ArrayType::Int, 3).unwrap();
    let mut f = frame_with(&[Value::Ref(arr), Value::Integer(1), Value::Integer(99)]);
    run(&mut f, &mut h, Instruction::Iastore).unwrap();
    let mut g = frame_with(&[Value::Ref(arr), Value::Integer(1)]);
    run(&mut g, &mut h, Instruction::Iaload).unwrap();
    assert_eq!(g.peek(0).unwrap(), Value::Integer(99));
    let mut l = frame_with(&[Value::Ref(arr)]);
    run(&mut l, &mut h, Instruction::ArrayLength).unwrap();
    assert_eq!(l.peek(0).unwrap(), Value::Integer(3));
    assert_eq!(Instruction::Iaload.byte_size(), 1);
    assert!(Instruction::Goto(3).is_branch());
}

#[test]
fn method_args_come_deepest_first() {
    let mut f = frame_with(&[Value::Integer(1), Value::Integer(2), Value::Integer(3)]);
    let args = Interpreter::prepare_method_args(&mut f, 2).unwrap();
    assert_eq!(args, vec![Value::Integer(2), Value::Integer(3)]);
    assert_eq!(f.operand_count(), 1);
    assert!(matches!(Interpreter::prepare_method_args(&mut f, 4), Err(JvmError::OperandStackIsEmpty)));
}

#[test]
fn exception_handler_search() {
    let interner = ThreadedRodeo::new();
    let mut h = Heap::new(1, Arc::new(ThreadedRodeo::new()), ClassId(1), 16, ClassId(2)).unwrap();
    let exception = h.alloc_instance(8, ClassId(7)).unwrap();
    let cp = RuntimeConstantPool::new(
        vec![
            ConstantInfo::Unused,
            ConstantInfo::Utf8("java/io/IOException".to_string()),
            ConstantInfo::Class(1),
        ],
        vec![],
    );
    let io_exception = intern(&interner, "java/io/IOException").unwrap();
    let table = vec![
        ExceptionTableEntry { start_pc: 0, end_pc: 4, handler_pc: 20, catch_type: 2 },
        ExceptionTableEntry { start_pc: 2, end_pc: 8, handler_pc: 30, catch_type: 0 },
    ];
    // The first entry covers pc 3 but its class is not the exception's.
    let never = |_c: ClassId, _k: u32| false;
    let mut f = frame_with(&[Value::Integer(1)]);
    f.set_pc(3);
    assert!(Interpreter::find_exception_handler(&mut f, &h, &cp, &interner, &table, exception, &never).unwrap());
    assert_eq!(f.pc(), 30);
    assert_eq!(f.peek(0).unwrap(), Value::Ref(exception));
    // The first entry catches when the exception is an instance of its class.
    let is_io = |c: ClassId, k: u32| c == ClassId(7) && k == io_exception;
    let mut f = frame_with(&[]);
    f.set_pc(1);
    assert!(Interpreter::find_exception_handler(&mut f, &h, &cp, &interner, &table, exception, &is_io).unwrap());
    assert_eq!(f.pc(), 20);
    // No entry covers pc 8.
    let mut f = frame_with(&[]);
    f.set_pc(8);
    assert!(!Interpreter::find_exception_handler(&mut f, &h, &cp, &interner, &table, exception, &never).unwrap());
    assert_eq!(f.pc(), 8);
    assert!(Interpreter::pc_in_range(3, &table[0]));
    assert!(!Interpreter::pc_in_range(4, &table[0]));
    assert!(Interpreter::is_exception_caught(&h, &cp, &interner, &table[1], exception, &never).unwrap());
}

#[test]
fn clone_of_an_array_is_looked_up_without_class() {
    let interner = Arc::new(ThreadedRodeo::new());
    let br = BootstrapRegistry::new(&interner).unwrap();
    let mut h = Heap::new(1, interner.clone(), ClassId(1), 16, ClassId(2)).unwrap();
    let array = h.alloc_primitive_array(ClassId(2), ArrayType::Int, 2).unwrap();
    let object = h.alloc_instance(8, ClassId(3)).unwrap();
    let clone = FullyQualifiedMethodKey { class: Some(br.java_lang_object_sym), name: br.clone_sym, desc: br.clone_desc };
    let on_array = Interpreter::native_method_key(&h, &br, false, &[Value::Ref(array)], clone).unwrap();
    assert_eq!(on_array, FullyQualifiedMethodKey { class: None, ..clone });
    assert_eq!(Interpreter::native_method_key(&h, &br, false, &[Value::Ref(object)], clone).unwrap(), clone);
    assert_eq!(Interpreter::native_method_key(&h, &br, true, &[], clone).unwrap(), clone);
    match Interpreter::native_method_key(&h, &br, false, &[Value::Null], clone) {
        Err(JvmError::JavaException(e)) => assert_eq!(e.kind, JavaExceptionKind::NullPointerException),
        other => panic!("unexpected {:?}", other),
    }
}

#[test]
fn ldc_pushes_numbers_and_strings_and_names_classes() {
    let interner = Arc::new(ThreadedRodeo::new());
    let mut h = Heap::new(1, interner.clone(), ClassId(1), 16, ClassId(2)).unwrap();
    let cp = RuntimeConstantPool::new(
        vec![
            ConstantInfo::Unused,
            ConstantInfo::Integer(-7),
            ConstantInfo::Utf8("hello".to_string()),
            ConstantInfo::String(2),
            ConstantInfo::Utf8("java/lang/Thread".to_string()),
            ConstantInfo::Class(4),
            ConstantInfo::Long(1 << 40),
        ],
        vec![],
    );
    let mut f = frame_with(&[]);
    assert_eq!(handle_ldc_ldcw_ldc2w(&mut f, &mut h, &cp, 1).unwrap(), None);
    assert_eq!(f.peek(0).unwrap(), Value::Integer(-7));
    assert_eq!(handle_ldc_ldcw_ldc2w(&mut f, &mut h, &cp, 6).unwrap(), None);
    assert_eq!(f.peek(0).unwrap(), Value::Long(1 << 40));
    assert_eq!(handle_ldc_ldcw_ldc2w(&mut f, &mut h, &cp, 3).unwrap(), None);
    let s = match f.peek(0).unwrap() {
        Value::Ref(s) => s,
        other => panic!("unexpected {:?}", other),
    };
    assert_eq!(h.get_rust_string_from_java_string(s).unwrap(), "hello");
    // The same string constant gives the same pooled string.
    handle_ldc_ldcw_ldc2w(&mut f, &mut h, &cp, 3).unwrap();
    assert_eq!(f.peek(0).unwrap(), Value::Ref(s));
    let before = f.operand_count();
    let class = handle_ldc_ldcw_ldc2w(&mut f, &mut h, &cp, 5).unwrap();
    assert_eq!(class, Some(intern(&interner, "java/lang/Thread").unwrap()));
    assert_eq!(f.operand_count(), before);
    assert!(handle_ldc_ldcw_ldc2w(&mut f, &mut h, &cp, 9).is_err());
}

#[test]
fn instanceof_asks_about_the_objects_class() {
    let interner = ThreadedRodeo::new();
    let mut h = heap();
    let obj = h.alloc_instance(8, ClassId(7)).unwrap();
    let cp = RuntimeConstantPool::new(
        vec![ConstantInfo::Unused, ConstantInfo::Utf8("java/lang/Runnable".to_string()), ConstantInfo::Class(1)],
        vec![],
    );
    let runnable = intern(&interner, "java/lang/Runnable").unwrap();
    let is_runnable = |c: ClassId, k: u32| c == ClassId(7) && k == runnable;
    let mut f = frame_with(&[Value::Ref(obj)]);
    handle_instanceof(&mut f, &h, &cp, &interner, 2, &is_runnable).unwrap();
    assert_eq!(f.peek(0).unwrap(), Value::Integer(1));
    let never = |_c: ClassId, _k: u32| false;
    let mut f = frame_with(&[Value::Ref(obj)]);
    handle_instanceof(&mut f, &h, &cp, &interner, 2, &never).unwrap();
    assert_eq!(f.peek(0).unwrap(), Value::Integer(0));
    let mut f = frame_with(&[Value::Null]);
    handle_instanceof(&mut f, &h, &cp, &interner, 2, &is_runnable).unwrap();
    assert_eq!(f.peek(0).unwrap(), Value::Integer(0));
    let mut f = frame_with(&[Value::Integer(3)]);
    assert!(matches!(handle_instanceof(&mut f, &h, &cp, &interner, 2, &never), Err(JvmError::UnexpectedType(_))));
}

#[test]
fn new_objects_and_arrays_are_pushed() {
    let mut h = heap();
    let mut f = frame_with(&[]);
    handle_new(&mut f, &mut h, ClassId(4), 16).unwrap();
    let obj = match f.peek(0).unwrap() {
        Value::Ref(o) => o,
        other => panic!("unexpected {:?}", other),
    };
    assert_eq!(h.get_class_id(obj).unwrap(), ClassId(4));
    f.push_operand(Value::Integer(3)).unwrap();
    handle_newarray(&mut f, &mut h, ClassId(5), ArrayType::Int).unwrap();
    let ints = match f.peek(0).unwrap() {
        Value::Ref(a) => a,
        other => panic!("unexpected {:?}", other),
    };
    assert_eq!(h.get_array_length(ints).unwrap(), 3);
    f.push_operand(Value::Integer(2)).unwrap();
    handle_anewarray(&mut f, &mut h, ClassId(6)).unwrap();
    let refs = match f.peek(0).unwrap() {
        Value::Ref(a) => a,
        other => panic!("unexpected {:?}", other),
    };
    assert_eq!(h.read_array_element(refs, 1).unwrap(), Value::Null);
    let depth = f.operand_count();
    f.push_operand(Value::Integer(-1)).unwrap();
    match handle_newarray(&mut f, &mut h, ClassId(5), ArrayType::Int) {
        Err(JvmError::JavaException(e)) => assert_eq!(e.kind, JavaExceptionKind::NegativeArraySizeException),
        other => panic!("unexpected {:?}", other),
    }
    assert_eq!(f.operand_count(), depth);
}

#[test]
fn fields_are_written_and_read_through_the_stack() {
    let mut h = heap();
    let obj = h.alloc_instance(16, ClassId(4)).unwrap();
    let mut f = frame_with(&[Value::Ref(obj), Value::Long(-5)]);
    handle_putfield(&mut f, &mut h, 8, AllocationType::Long).unwrap();
    assert_eq!(f.operand_count(), 0);
    f.push_operand(Value::Ref(obj)).unwrap();
    handle_getfield(&mut f, &h, 8, AllocationType::Long).unwrap();
    assert_eq!(f.peek(0).unwrap(), Value::Long(-5));
    let mut g = frame_with(&[Value::Null]);
    match handle_getfield(&mut g, &h, 8, AllocationType::Long) {
        Err(JvmError::JavaException(e)) => assert_eq!(e.kind, JavaExceptionKind::NullPointerException),
        other => panic!("unexpected {:?}", other),
    }
}

fn no_class(_: ClassId, _: u32) -> bool {
    false
}

fn empty_pool() -> RuntimeConstantPool {
    RuntimeConstantPool::new(vec![ConstantInfo::Unused], vec![])
}

#[test]
fn getfield_through_the_method_area_advances_pc() {
    let mut h = heap();
    let obj = h.alloc_instance(16, ClassId(4)).unwrap();
    h.write_field(obj, 4, Value::Integer(99), AllocationType::Int).unwrap();
    let mut f = frame_with(&[Value::Ref(obj)]);
    let answer = AreaAnswer::Field { offset: 4, field_type: AllocationType::Int };
    let r = Interpreter::interpret_with_method_area(&mut f, &mut h, &empty_pool(), Instruction::Getfield(3), answer, &no_class);
    assert!(matches!(r, Ok(AreaStep::Continue)));
    assert_eq!(f.peek(0).unwrap(), Value::Integer(99));
    assert_eq!(f.pc(), 3);
}

#[test]
fn new_and_newarray_through_the_method_area() {
    let mut h = heap();
    let mut f = frame_with(&[]);
    let answer = AreaAnswer::Instance { class_id: ClassId(4), instance_size: 8 };
    let r = Interpreter::interpret_with_method_area(&mut f, &mut h, &empty_pool(), Instruction::New(1), answer, &no_class);
    assert!(matches!(r, Ok(AreaStep::Continue)));
    assert!(matches!(f.peek(0).unwrap(), Value::Ref(_)));
    assert_eq!(f.pc(), 3);
    f.push_operand(Value::Integer(-3)).unwrap();
    let r = Interpreter::interpret_with_method_area(
        &mut f,
        &mut h,
        &empty_pool(),
        Instruction::Newarray(ArrayType::Int),
        AreaAnswer::ArrayClass(ClassId(5)),
        &no_class,
    );
    assert!(matches!(r, Err(JvmError::JavaException(_))));
    assert_eq!(f.operand_count(), 1);
    assert_eq!(f.pc(), 3);
}

#[test]
fn putstatic_and_invoke_leave_their_rest_to_the_caller() {
    let mut h = heap();
    let mut f = frame_with(&[Value::Integer(1), Value::Integer(2), Value::Long(3)]);
    let r = Interpreter::interpret_with_method_area(&mut f, &mut h, &empty_pool(), Instruction::Putstatic(2), AreaAnswer::Nothing, &no_class);
    assert!(matches!(r, Ok(AreaStep::StoreStatic(Value::Long(3)))));
    assert_eq!(f.pc(), 0);
    Interpreter::complete_instruction(&mut f, Instruction::Putstatic(2), None).unwrap();
    assert_eq!(f.pc(), 3);
    let r = Interpreter::interpret_with_method_area(&mut f, &mut h, &empty_pool(), Instruction::InvokeStatic(4), AreaAnswer::ArgsCount(2), &no_class);
    match r {
        Ok(AreaStep::Invoke(args)) => assert_eq!(args, vec![Value::Integer(1), Value::Integer(2)]),
        other => panic!("unexpected {:?}", other.is_ok()),
    }
    assert_eq!(f.operand_count(), 0);
    Interpreter::complete_instruction(&mut f, Instruction::InvokeStatic(4), Some(Value::Integer(7))).unwrap();
    assert_eq!(f.peek(0).unwrap(), Value::Integer(7));
    assert_eq!(f.pc(), 6);
}

#[test]
fn plain_instructions_go_through_the_method_area_step_too() {
    let mut h = heap();
    let mut f = frame_with(&[Value::Integer(2), Value::Integer(3)]);
    let r = Interpreter::interpret_with_method_area(&mut f, &mut h, &empty_pool(), Instruction::Iadd, AreaAnswer::Nothing, &no_class);
    assert!(matches!(r, Ok(AreaStep::Continue)));
    assert_eq!(f.peek(0).unwrap(), Value::Integer(5));
    assert_eq!(f.pc(), 1);
}

#[test]
fn ldc_of_two_constants_with_the_same_text_pushes_one_string() {
    let interner = Arc::new(ThreadedRodeo::new());
    let mut h = Heap::new(1, interner.clone(), ClassId(1), 16, ClassId(2)).unwrap();
    let cp = RuntimeConstantPool::new(
        vec![
            ConstantInfo::Unused,
            ConstantInfo::Utf8("same".to_string()),
            ConstantInfo::String(1),
            ConstantInfo::Utf8("same".to_string()),
            ConstantInfo::String(3),
        ],
        vec![],
    );
    let mut f = frame_with(&[]);
    handle_ldc_ldcw_ldc2w(&mut f, &mut h, &cp, 2).unwrap();
    handle_ldc_ldcw_ldc2w(&mut f, &mut h, &cp, 4).unwrap();
    assert!(matches!(f.peek(0).unwrap(), Value::Ref(_)));
    assert_eq!(f.peek(0).unwrap(), f.peek(1).unwrap());
}

#[test]
fn negative_array_size_needs_no_answer() {
    let f = frame_with(&[Value::Integer(-2)]);
    assert!(!needs_answer(&f, &Instruction::Newarray(ArrayType::Int)));
    assert!(!needs_answer(&f, &Instruction::Anewarray(3)));
    assert!(needs_answer(&f, &Instruction::Getfield(3)));
    let g = frame_with(&[Value::Integer(2)]);
    assert!(needs_answer(&g, &Instruction::Anewarray(3)));
}

#[test]
fn raised_errors_are_sorted() {
    assert!(matches!(classify_error(JvmError::JavaExceptionThrown(40)), RaisedError::Thrown(40)));
    assert!(matches!(classify_error(JvmError::StackOverflow), RaisedError::Fatal(JvmError::StackOverflow)));
    match classify_error(JvmError::JavaException(JavaExceptionFromJvm::new(JavaExceptionKind::NullPointerException))) {
        RaisedError::Materialize(ex) => assert_eq!(ex.kind, JavaExceptionKind::NullPointerException),
        _ => panic!("expected a Java exception"),
    }
}

#[test]
fn a_missing_native_is_a_link_error() {
    let interner = Arc::new(ThreadedRodeo::new());
    let registry = lagertha_runtime::natives::NativeRegistry::new(interner.clone());
    let key = FullyQualifiedMethodKey::new_with_str("a/B", "c", "()V", &interner).unwrap();
    match native_or_link_error(&registry, key, 0) {
        Err(JvmError::JavaException(ex)) => assert_eq!(ex.kind, JavaExceptionKind::UnsatisfiedLinkError),
        _ => panic!("expected UnsatisfiedLinkError"),
    }
}
