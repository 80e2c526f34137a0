use lagertha_runtime::error::JvmError;
use lagertha_runtime::heap::{AllocationType, Heap};
use lagertha_runtime::java_string::{can_encode_latin1, can_encode_latin1_with_map, LATIN1, UTF16};
use lagertha_runtime::keys::ClassId;
use lagertha_runtime::value::Value;
use lasso::{Key, ThreadedRodeo};
use std::sync::Arc;

fn new_heap(interner: Arc<ThreadedRodeo>) -> Heap {
    Heap::new(1, interner, ClassId(1), 16, ClassId(2)).unwrap()
}

fn coder_of(heap: &Heap, s: usize) -> Value {
    heap.read_field(s, 8, AllocationType::Byte).unwrap()
}

#[test]
fn latin1_string_reads_back() {
    let mut heap = new_heap(Arc::new(ThreadedRodeo::new()));
    let s = heap.alloc_string("héllo").unwrap();
    assert_eq!(heap.get_rust_string_from_java_string(s).unwrap(), "héllo");
    assert_eq!(coder_of(&heap, s), Value::Integer(LATIN1));
}

#[test]
fn ascii_string_bytes_are_its_characters() {
    let mut heap = new_heap(Arc::new(ThreadedRodeo::new()));
    let s = heap.alloc_string("Hi").unwrap();
    let value = match heap.read_field(s, 0, AllocationType::Reference).unwrap() {
        Value::Ref(a) => a,
        other => panic!("unexpected {:?}", other),
    };
    assert_eq!(heap.get_byte_array_slice(value).unwrap(), vec![72, 105]);
    assert_eq!(heap.get_class_id(s).unwrap(), ClassId(1));
    assert_eq!(heap.get_class_id(value).unwrap(), ClassId(2));
}

#[test]
fn utf16_string_reads_back() {
    let mut heap = new_heap(Arc::new(ThreadedRodeo::new()));
    let s = heap.alloc_string("日本 😀").unwrap();
    assert_eq!(coder_of(&heap, s), Value::Integer(UTF16));
    assert_eq!(heap.get_rust_string_from_java_string(s).unwrap(), "日本 😀");
}

#[test]
fn utf16_bytes_are_little_endian_units() {
    let mut heap = new_heap(Arc::new(ThreadedRodeo::new()));
    let s = heap.alloc_string("\u{0100}").unwrap();
    let value = match heap.read_field(s, 0, AllocationType::Reference).unwrap() {
        Value::Ref(a) => a,
        other => panic!("unexpected {:?}", other),
    };
    assert_eq!(heap.get_byte_array_slice(value).unwrap(), vec![0, 1]);
}

#[test]
fn char_mapping_replaces_slashes() {
    let mut heap = new_heap(Arc::new(ThreadedRodeo::new()));
    let s = heap.alloc_string_from_str_with_char_mapping("java/lang/Object", Some(('/', '.'))).unwrap();
    assert_eq!(heap.get_rust_string_from_java_string(s).unwrap(), "java.lang.Object");
}

#[test]
fn latin1_checks() {
    assert!(can_encode_latin1("ÿes"));
    assert!(!can_encode_latin1("Ā"));
    assert!(can_encode_latin1_with_map("Ā", Some(('Ā', 'a'))));
}

#[test]
fn interned_string_is_allocated() {
    let interner: Arc<ThreadedRodeo> = Arc::new(ThreadedRodeo::new());
    let key = interner.get_or_intern("pooled").into_usize() as u32;
    let mut heap = new_heap(interner);
    let s = heap.alloc_string_from_interned(key).unwrap();
    assert_eq!(heap.get_rust_string_from_java_string(s).unwrap(), "pooled");
}

#[test]
fn pooled_string_is_stable() {
    let interner: Arc<ThreadedRodeo> = Arc::new(ThreadedRodeo::new());
    let key = interner.get_or_intern("same").into_usize() as u32;
    let mut heap = new_heap(interner);
    let first = heap.get_str_from_pool_or_new(key).unwrap();
    let second = heap.get_str_from_pool_or_new(key).unwrap();
    assert_eq!(first, second);
    assert_eq!(heap.get_rust_string_from_java_string(first).unwrap(), "same");
}

#[test]
fn unknown_symbol_is_refused() {
    let mut heap = new_heap(Arc::new(ThreadedRodeo::new()));
    match heap.alloc_string_from_interned(77).unwrap_err() {
        JvmError::Todo(s) => assert_eq!(s, "Unknown string symbol"),
        other => panic!("unexpected {:?}", other),
    }
}

#[test]
fn unknown_coder_is_reported() {
    let mut heap = new_heap(Arc::new(ThreadedRodeo::new()));
    let s = heap.alloc_string("x").unwrap();
    heap.write_field(s, 8, Value::Integer(7), AllocationType::Byte).unwrap();
    match heap.get_rust_string_from_java_string(s).unwrap_err() {
        JvmError::Todo(m) => assert_eq!(m, "Unknown String coder: 7"),
        other => panic!("unexpected {:?}", other),
    }
}

#[test]
fn null_value_is_reported() {
    let mut heap = new_heap(Arc::new(ThreadedRodeo::new()));
    let s = heap.alloc_instance(16, ClassId(1)).unwrap();
    match heap.get_rust_string_from_java_string(s).unwrap_err() {
        JvmError::Todo(m) => assert_eq!(m, "String.value is null"),
        other => panic!("unexpected {:?}", other),
    }
}

#[test]
fn distinct_symbols_get_distinct_pooled_strings() {
    let interner: Arc<ThreadedRodeo> = Arc::new(ThreadedRodeo::new());
    let a = interner.get_or_intern("alpha").into_usize() as u32;
    let b = interner.get_or_intern("beta").into_usize() as u32;
    let mut heap = new_heap(interner);
    let first = heap.get_str_from_pool_or_new(a).unwrap();
    let second = heap.get_str_from_pool_or_new(b).unwrap();
    assert_ne!(first, second);
    assert_eq!(heap.get_rust_string_from_java_string(first).unwrap(), "alpha");
    assert_eq!(heap.get_rust_string_from_java_string(second).unwrap(), "beta");
}

#[test]
fn utf16_strings_read_back_exactly() {
    let interner: Arc<ThreadedRodeo> = Arc::new(ThreadedRodeo::new());
    let mut heap = new_heap(interner.clone());
    let text = "h\u{e9}llo \u{20ac} \u{1F600}";
    let s = heap.alloc_string_from_str_with_char_mapping(text, None).unwrap();
    assert_eq!(heap.get_rust_string_from_java_string(s).unwrap(), text);
    let key = interner.get_or_intern("\u{3b1}\u{3b2}").into_usize() as u32;
    let pooled = heap.get_str_from_pool_or_new(key).unwrap();
    assert_eq!(heap.get_rust_string_from_java_string(pooled).unwrap(), "\u{3b1}\u{3b2}");
}
