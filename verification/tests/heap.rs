use lagertha_runtime::error::JvmError;
use lagertha_runtime::heap::{AllocationType, ArrayType, Heap, ObjectHeader, OBJECT_HEADER_SIZE};
use lagertha_runtime::keys::ClassId;
use lagertha_runtime::value::Value;
use lasso::ThreadedRodeo;
use std::sync::Arc;

fn new_heap() -> Heap {
    Heap::new(1, Arc::new(ThreadedRodeo::new()), ClassId(1), 16, ClassId(2)).unwrap()
}

fn todo_text(e: &JvmError) -> String {
    match e {
        JvmError::Todo(s) => s.clone(),
        other => panic!("expected a Todo error, got {:?}", other),
    }
}

#[test]
fn field_write_then_read_gives_value() {
    let mut heap = new_heap();
    let obj = heap.alloc_instance(16, ClassId(7)).unwrap();
    heap.write_field(obj, 4, Value::Integer(-42), AllocationType::Int).unwrap();
    assert_eq!(heap.read_field(obj, 4, AllocationType::Int).unwrap(), Value::Integer(-42));
    assert_eq!(heap.get_class_id(obj).unwrap(), ClassId(7));
}

#[test]
fn field_write_keeps_neighbouring_field() {
    let mut heap = new_heap();
    let obj = heap.alloc_instance(16, ClassId(7)).unwrap();
    heap.write_field(obj, 0, Value::Long(0x0102_0304_0506_0708), AllocationType::Long).unwrap();
    heap.write_field(obj, 8, Value::Integer(5), AllocationType::Byte).unwrap();
    assert_eq!(heap.read_field(obj, 0, AllocationType::Long).unwrap(), Value::Long(0x0102_0304_0506_0708));
    assert_eq!(heap.read_field(obj, 8, AllocationType::Byte).unwrap(), Value::Integer(5));
}

#[test]
fn narrow_fields_store_narrowed_values() {
    let mut heap = new_heap();
    let obj = heap.alloc_instance(16, ClassId(7)).unwrap();
    heap.write_field(obj, 0, Value::Integer(300), AllocationType::Byte).unwrap();
    assert_eq!(heap.read_field(obj, 0, AllocationType::Byte).unwrap(), Value::Integer(44));
    heap.write_field(obj, 2, Value::Integer(-1), AllocationType::Char).unwrap();
    assert_eq!(heap.read_field(obj, 2, AllocationType::Char).unwrap(), Value::Integer(65535));
    heap.write_field(obj, 4, Value::Integer(7), AllocationType::Boolean).unwrap();
    assert_eq!(heap.read_field(obj, 4, AllocationType::Boolean).unwrap(), Value::Integer(1));
    heap.write_field(obj, 8, Value::Null, AllocationType::Reference).unwrap();
    assert_eq!(heap.read_field(obj, 8, AllocationType::Reference).unwrap(), Value::Null);
}

#[test]
fn write_field_refuses_mismatched_value() {
    let mut heap = new_heap();
    let obj = heap.alloc_instance(16, ClassId(7)).unwrap();
    let err = heap.write_field(obj, 0, Value::Long(1), AllocationType::Int).unwrap_err();
    assert_eq!(todo_text(&err), "Type mismatch in write_field");
}

#[test]
fn read_beyond_memory_is_wrong_address() {
    let heap = new_heap();
    let err = heap.read_field(1_000_000, 0, AllocationType::Int).unwrap_err();
    assert!(matches!(err, JvmError::WrongHeapAddress(1_000_000)));
}

#[test]
fn fresh_instance_header() {
    let mut heap = new_heap();
    let obj = heap.alloc_instance(10, ClassId(9)).unwrap();
    assert_eq!(obj, OBJECT_HEADER_SIZE);
    assert_eq!(
        heap.get_header(obj).unwrap(),
        ObjectHeader { size: 26, class_id: 9, marked: false, is_array: false }
    );
    assert!(!heap.is_array(obj).unwrap());
}

#[test]
fn array_elements_start_zero() {
    let mut heap = new_heap();
    let arr = heap.alloc_primitive_array(ClassId(3), ArrayType::Int, 4).unwrap();
    assert_eq!(heap.get_array_length(arr).unwrap(), 4);
    assert_eq!(heap.read_array_element(arr, 3).unwrap(), Value::Integer(0));
    assert!(heap.is_array(arr).unwrap());
}

#[test]
fn array_element_write_then_read() {
    let mut heap = new_heap();
    let arr = heap.alloc_primitive_array(ClassId(3), ArrayType::Short, 3).unwrap();
    heap.write_array_element(arr, 1, Value::Integer(-2)).unwrap();
    assert_eq!(heap.read_array_element(arr, 1).unwrap(), Value::Integer(-2));
    assert_eq!(heap.read_array_element(arr, 0).unwrap(), Value::Integer(0));
    assert_eq!(heap.get_int_array_slice(arr).unwrap_err().pipe_todo(), "Not an int array");
}

trait PipeTodo {
    fn pipe_todo(&self) -> String;
}

impl PipeTodo for JvmError {
    fn pipe_todo(&self) -> String {
        todo_text(self)
    }
}

#[test]
fn array_index_out_of_bounds_message() {
    let mut heap = new_heap();
    let arr = heap.alloc_primitive_array(ClassId(3), ArrayType::Int, 2).unwrap();
    let err = heap.read_array_element(arr, 5).unwrap_err();
    match err {
        JvmError::JavaException(ex) => {
            assert_eq!(ex.kind.class_name(), "java/lang/ArrayIndexOutOfBoundsException");
            let msg = ex.message.unwrap().into_resolved(&ThreadedRodeo::new());
            assert_eq!(msg, "Index 5 out of bounds for length 2");
        }
        other => panic!("unexpected {:?}", other),
    }
}

#[test]
fn negative_array_length_is_refused() {
    let mut heap = new_heap();
    let err = heap.alloc_primitive_array(ClassId(3), ArrayType::Int, -1).unwrap_err();
    assert_eq!(todo_text(&err), "Negative array length");
}

#[test]
fn full_heap_refuses_allocation() {
    let mut heap = Heap::new(0, Arc::new(ThreadedRodeo::new()), ClassId(1), 16, ClassId(2)).unwrap();
    let err = heap.alloc_instance(8, ClassId(1)).unwrap_err();
    assert_eq!(todo_text(&err), "Heap full");
}

#[test]
fn object_array_holds_references() {
    let mut heap = new_heap();
    let obj = heap.alloc_instance(8, ClassId(5)).unwrap();
    let arr = heap.alloc_object_array(ClassId(6), 2).unwrap();
    assert_eq!(heap.read_array_element(arr, 0).unwrap(), Value::Null);
    heap.write_array_element(arr, 1, Value::Ref(obj)).unwrap();
    assert_eq!(heap.read_array_element(arr, 1).unwrap(), Value::Ref(obj));
}

#[test]
fn copy_primitive_slice_copies_elements() {
    let mut heap = new_heap();
    let src = heap.alloc_primitive_array(ClassId(3), ArrayType::Int, 4).unwrap();
    let dst = heap.alloc_primitive_array(ClassId(3), ArrayType::Int, 4).unwrap();
    for i in 0..4 {
        heap.write_array_element(src, i, Value::Integer(10 + i)).unwrap();
    }
    heap.copy_primitive_slice(src, 1, dst, 0, 3).unwrap();
    assert_eq!(heap.get_int_array_slice(dst).unwrap(), vec![11, 12, 13, 0]);
    let err = heap.copy_primitive_slice(src, 3, dst, 0, 2).unwrap_err();
    assert!(matches!(err, JvmError::JavaException(_)));
}

#[test]
fn clone_object_copies_data_and_class() {
    let mut heap = new_heap();
    let arr = heap.alloc_primitive_array(ClassId(3), ArrayType::Byte, 3).unwrap();
    heap.write_array_element(arr, 2, Value::Integer(7)).unwrap();
    let copy = heap.clone_object(arr).unwrap();
    assert_ne!(copy, arr);
    assert_eq!(heap.get_class_id(copy).unwrap(), ClassId(3));
    assert_eq!(heap.get_byte_array_slice(copy).unwrap(), vec![0, 0, 7]);
}

#[test]
fn array_bytes_are_little_endian() {
    let mut heap = new_heap();
    let arr = heap.alloc_primitive_array(ClassId(3), ArrayType::Char, 2).unwrap();
    heap.write_array_element(arr, 0, Value::Integer(0x0102)).unwrap();
    assert_eq!(heap.get_array_bytes(arr).unwrap(), vec![2, 1, 0, 0]);
    assert_eq!(heap.get_char_array_slice(arr).unwrap(), vec![0x0102, 0]);
}

#[test]
fn allocation_type_tags_round_trip() {
    for t in [
        AllocationType::Boolean,
        AllocationType::Byte,
        AllocationType::Short,
        AllocationType::Char,
        AllocationType::Int,
        AllocationType::Long,
        AllocationType::Float,
        AllocationType::Double,
        AllocationType::Reference,
    ] {
        assert_eq!(AllocationType::from_tag(t.tag()), Some(t));
    }
    assert_eq!(AllocationType::from_tag(200), None);
    assert_eq!(AllocationType::Long.byte_size(), 8);
}

#[test]
fn overlapping_copy_moves_the_old_elements() {
    let mut h = new_heap();
    let a = h.alloc_primitive_array(ClassId(2), ArrayType::Int, 4).unwrap();
    for i in 0..4 {
        h.write_array_element(a, i, Value::Integer(i + 1)).unwrap();
    }
    h.copy_primitive_slice(a, 0, a, 1, 3).unwrap();
    let got: Vec<Value> = (0..4).map(|i| h.read_array_element(a, i).unwrap()).collect();
    assert_eq!(got, vec![Value::Integer(1), Value::Integer(1), Value::Integer(2), Value::Integer(3)]);
}

#[test]
fn allocations_start_on_eight_byte_boundaries() {
    let mut h = new_heap();
    let a = h.alloc_instance(3, ClassId(4)).unwrap();
    let b = h.alloc_primitive_array(ClassId(5), ArrayType::Byte, 5).unwrap();
    let c = h.alloc_instance(1, ClassId(4)).unwrap();
    assert_eq!(a, 16);
    assert_eq!(a % 8, 0);
    assert_eq!(b % 8, 0);
    assert_eq!(c % 8, 0);
    assert!(b > a && c > b);
}

#[test]
fn element_write_keeps_the_other_elements() {
    let mut h = new_heap();
    let arr = h.alloc_primitive_array(ClassId(5), ArrayType::Int, 3).unwrap();
    h.write_array_element(arr, 0, Value::Integer(1)).unwrap();
    h.write_array_element(arr, 2, Value::Integer(3)).unwrap();
    h.write_array_element(arr, 1, Value::Integer(-7)).unwrap();
    assert_eq!(h.read_array_element(arr, 0).unwrap(), Value::Integer(1));
    assert_eq!(h.read_array_element(arr, 1).unwrap(), Value::Integer(-7));
    assert_eq!(h.read_array_element(arr, 2).unwrap(), Value::Integer(3));
    assert_eq!(h.get_array_length(arr).unwrap(), 3);
}

#[test]
fn field_writes_keep_other_objects_headers() {
    let mut h = new_heap();
    let arr = h.alloc_primitive_array(ClassId(5), ArrayType::Int, 2).unwrap();
    let obj = h.alloc_instance(8, ClassId(4)).unwrap();
    h.write_field(obj, 0, Value::Long(-1), AllocationType::Long).unwrap();
    let header = h.get_header(arr).unwrap();
    assert!(header.is_array);
    assert_eq!(header.class_id, 5);
    assert!(!h.get_header(obj).unwrap().is_array);
}

#[test]
fn a_clone_keeps_the_header_and_can_be_cloned_again() {
    let mut h = new_heap();
    let arr = h.alloc_primitive_array(ClassId(5), ArrayType::Int, 3).unwrap();
    h.write_array_element(arr, 1, Value::Integer(42)).unwrap();
    let c1 = h.clone_object(arr).unwrap();
    let c2 = h.clone_object(c1).unwrap();
    assert_ne!(c1, arr);
    let src = h.get_header(arr).unwrap();
    for c in [c1, c2] {
        let hd = h.get_header(c).unwrap();
        assert_eq!(hd.size, src.size);
        assert_eq!(hd.class_id, src.class_id);
        assert!(hd.is_array);
        assert!(!hd.marked);
        assert_eq!(h.read_array_element(c, 1).unwrap(), Value::Integer(42));
    }
}
