//! What the native methods of the runtime compute. Each takes the
//! arguments of the call and, where it needs them, the heap and the field
//! offsets that the method area resolved; it gives the value the call
//! returns, if any.
use crate::error::{
    java_exception, raises_with_message, HeapRef, JavaExceptionFromJvm, JavaExceptionKind, JvmError,
};
use crate::heap::{
    array_copy_post, array_data_size, array_element_value, array_image, array_length_at, array_read_post,
    array_type_at, block_size, byte_elements, data_start, decode_field, element_pos, encode_field,
    has_array_length, has_header, header_at, law_alloc_array_fresh, lemma_array_read_value,
    lemma_decode_chunk, lemma_decode_encode, lemma_decode_local, lemma_element_kept, read_field_post, splice,
    type_size, u32_bytes, u32_to_bytes, u64_bytes, u64_to_bytes, AllocationType, ArrayType, Heap,
    ARRAY_ELEMENTS_OFFSET, ARRAY_TYPE_OFFSET, OBJECT_HEADER_SIZE,
};
use crate::interner::{intern, interned_strings};
use crate::java_string::{
    byte_array_error, byte_array_readable, heap_full, java_string_read, lemma_string_alloc_at,
    lemma_string_read_text, mapped_chars, string_alloc_at, string_alloc_error, string_pool_post, string_text,
    todo_error, unknown_symbol,
};
use crate::class::BaseClass;
use crate::keys::{ClassId, Symbol};
use crate::method::{line_number_by_cp, Method};
use crate::natives::key_of;
use crate::text::push_str;
use crate::value::Value;
use vstd::prelude::*;

verus! {

/// `Float.floatToRawIntBits`: the bits of a float, as an int.
pub fn java_lang_float_float_to_raw_int_bits(args: &[Value]) -> (r: Result<Option<Value>, JvmError>)
    requires
        args@.len() >= 1,
        args@[0] is Float,
    ensures
        r == Ok::<Option<Value>, JvmError>(Some(Value::Integer(args@[0]->Float_0 as i32))),
{
    match args[0] {
        Value::Float(bits) => Ok(Some(Value::Integer(bits as i32))),
        _ => Ok(None),
    }
}

/// `Double.doubleToRawLongBits`: the bits of a double, as a long.
pub fn java_lang_double_double_to_raw_long_bits(args: &[Value]) -> (r: Result<Option<Value>, JvmError>)
    requires
        args@.len() >= 1,
        args@[0] is Double,
    ensures
        r == Ok::<Option<Value>, JvmError>(Some(Value::Long(args@[0]->Double_0 as i64))),
{
    match args[0] {
        Value::Double(bits) => Ok(Some(Value::Long(bits as i64))),
        _ => Ok(None),
    }
}

/// `Float.intBitsToFloat`: the float of the given bits.
pub fn java_lang_float_int_bits_to_float(args: &[Value]) -> (r: Result<Option<Value>, JvmError>)
    requires
        args@.len() >= 1,
        args@[0] is Integer,
    ensures
        r == Ok::<Option<Value>, JvmError>(Some(Value::Float(args@[0]->Integer_0 as u32))),
{
    match args[0] {
        Value::Integer(i) => Ok(Some(Value::Float(i as u32))),
        _ => Ok(None),
    }
}

/// `Double.longBitsToDouble`: the double of the given bits; a non-long
/// argument is refused.
pub fn java_lang_double_long_bits_to_double(args: &[Value]) -> (r: Result<Option<Value>, JvmError>)
    requires
        args@.len() >= 1,
    ensures
        match args@[0] {
            Value::Long(l) => r == Ok::<Option<Value>, JvmError>(Some(Value::Double(l as u64))),
            _ => r matches Err(JvmError::Todo(s)) && s@ == "Value::as_long called on non-long value"@,
        },
{
    let double = args[0].as_long()?;
    Ok(Some(Value::Double(double as u64)))
}

/// `Object.hashCode`: the object's address, as an int.
pub fn java_lang_object_hash_code(args: &[Value]) -> (r: Result<Option<Value>, JvmError>)
    requires
        args@.len() >= 1,
        args@[0] is Ref,
    ensures
        r == Ok::<Option<Value>, JvmError>(Some(Value::Integer(args@[0]->Ref_0 as i32))),
{
    match args[0] {
        Value::Ref(h) => Ok(Some(Value::Integer(h as i32))),
        _ => Ok(None),
    }
}

/// `Runtime.maxMemory`: the configured heap size.
pub fn java_lang_runtime_max_memory(max_heap_size: usize) -> (r: Result<Option<Value>, JvmError>)
    ensures
        r == Ok::<Option<Value>, JvmError>(Some(Value::Long(max_heap_size as i64))),
{
    Ok(Some(Value::Long(max_heap_size as i64)))
}

/// `Runtime.availableProcessors`: one.
pub fn java_lang_runtime_available_processors() -> (r: Result<Option<Value>, JvmError>)
    ensures
        r == Ok::<Option<Value>, JvmError>(Some(Value::Integer(1))),
{
    Ok(Some(Value::Integer(1)))
}

/// `Object.notifyAll`: nothing to do with one thread.
pub fn java_lang_object_notify_all() -> (r: Result<Option<Value>, JvmError>)
    ensures
        r == Ok::<Option<Value>, JvmError>(None),
{
    Ok(None)
}

/// `NullPointerException.getExtendedNPEMessage`: no extended message.
pub fn java_lang_null_pointer_exception_get_extended_npe_message() -> (r: Result<Option<Value>, JvmError>)
    ensures
        r == Ok::<Option<Value>, JvmError>(Some(Value::Null)),
{
    Ok(Some(Value::Null))
}

/// `FileInputStream.initIDs`: nothing to do.
pub fn java_io_file_input_stream_init_ids() -> (r: Result<Option<Value>, JvmError>)
    ensures
        r == Ok::<Option<Value>, JvmError>(None),
{
    Ok(None)
}

/// `FileDescriptor.initIDs`: nothing to do.
pub fn java_io_file_descriptor_init_ids() -> (r: Result<Option<Value>, JvmError>)
    ensures
        r == Ok::<Option<Value>, JvmError>(None),
{
    Ok(None)
}

/// `FileDescriptor.getHandle`: no handle.
pub fn java_io_file_descriptor_get_handle() -> (r: Result<Option<Value>, JvmError>)
    ensures
        r == Ok::<Option<Value>, JvmError>(Some(Value::Long(0))),
{
    Ok(Some(Value::Long(0)))
}

/// `FileDescriptor.getAppend`: not appending.
pub fn java_io_file_descriptor_get_append() -> (r: Result<Option<Value>, JvmError>)
    ensures
        r == Ok::<Option<Value>, JvmError>(Some(Value::Integer(0))),
{
    Ok(Some(Value::Integer(0)))
}

/// `FileOutputStream.initIDs`: nothing to do.
pub fn java_io_file_output_stream_init_ids() -> (r: Result<Option<Value>, JvmError>)
    ensures
        r == Ok::<Option<Value>, JvmError>(None),
{
    Ok(None)
}

/// `UnixFileSystem.initIDs`: nothing to do.
pub fn java_io_unix_file_system_init_ids() -> (r: Result<Option<Value>, JvmError>)
    ensures
        r == Ok::<Option<Value>, JvmError>(None),
{
    Ok(None)
}

/// What interning the text of a string does to the heap `h0`: refused as
/// out of memory by the interner, or the pooled string of the text's key.
pub open spec fn intern_post(h0: Heap, h1: Heap, text: Seq<char>, r: Result<Option<Value>, JvmError>) -> bool {
    let i = h0.interner();
    let k = key_of(i, text);
    ||| r == Err::<Option<Value>, JvmError>(JvmError::OutOfMemory) && h1 == h0
    ||| {
        &&& interned_strings(i).contains_key(k) && interned_strings(i)[k] == text
        &&& (r is Ok ==> r matches Ok(Some(Value::Ref(_))))
        &&& string_pool_post(h0, h1, k, match r {
            Ok(Some(Value::Ref(h))) => Ok(h),
            Ok(_) => Ok(0usize),
            Err(e) => Err(e),
        })
    }
}

/// `String.intern`: the pooled string with the same text as the string
/// `args[0]`.
pub fn java_lang_string_intern(heap: &mut Heap, args: &[Value]) -> (r: Result<Option<Value>, JvmError>)
    requires
        old(heap).wf(),
        old(heap).string_size() >= 9,
        args@.len() >= 1,
        args@[0] is Ref,
    ensures
        match string_text(old(heap)@, args@[0]->Ref_0 as int) {
            None => *final(heap) == *old(heap) && (r matches Err(e) && java_string_read(
                old(heap)@,
                args@[0]->Ref_0 as int,
                Err(e),
            )),
            Some(text) => intern_post(*old(heap), *final(heap), text, r),
        },
{
    let string_addr = match args[0] {
        Value::Ref(h) => h,
        _ => 0,
    };
    let string_value = heap.get_rust_string_from_java_string(string_addr);
    proof {
        lemma_string_read_text(heap@, string_addr as int, string_value);
    }
    let string_value = match string_value {
        Ok(v) => v,
        Err(e) => return Err(e),
    };
    let ghost text = string_value@;
    let interned = match intern(heap.string_interner(), string_value.as_str()) {
        Some(k) => k,
        None => {
            return Err(JvmError::OutOfMemory);
        },
    };
    proof {
        let i = old(heap).interner();
        assert(interned_strings(i)[key_of(i, text)] == text);
    }
    let interned_addr = heap.get_str_from_pool_or_new(interned)?;
    Ok(Some(Value::Ref(interned_addr)))
}

/// What `Reference.refersTo0` gives: whether the referent field, at
/// `referent_offset` of the reference `args[0]`, holds the object `args[1]`.
pub open spec fn refers_to_post(m: Seq<u8>, args: Seq<Value>, referent_offset: int, r: Result<Option<Value>, JvmError>) -> bool {
    match args[0] {
        Value::Ref(reference) => {
            let p = crate::heap::data_start(reference as int) + referent_offset;
            if p + type_size(AllocationType::Reference) > m.len() {
                r == Err::<Option<Value>, JvmError>(JvmError::WrongHeapAddress(reference))
            } else {
                match args[1] {
                    Value::Ref(o) => match decode_field(m, p, AllocationType::Reference) {
                        Value::Ref(referent) => r == Ok::<Option<Value>, JvmError>(
                            Some(Value::Integer(if referent == o { 1 } else { 0 })),
                        ),
                        _ => r == Err::<Option<Value>, JvmError>(java_exception(JavaExceptionKind::NullPointerException)),
                    },
                    Value::Null => r == Err::<Option<Value>, JvmError>(java_exception(JavaExceptionKind::NullPointerException)),
                    _ => r matches Err(JvmError::Todo(_)),
                }
            }
        },
        Value::Null => r == Err::<Option<Value>, JvmError>(java_exception(JavaExceptionKind::NullPointerException)),
        _ => r matches Err(JvmError::Todo(_)),
    }
}

/// `Reference.refersTo0`: whether the reference `args[0]` refers to the
/// object `args[1]`; its referent field lies at `referent_offset`.
pub fn java_lang_ref_reference_refers_to_0(heap: &Heap, args: &[Value], referent_offset: usize) -> (r: Result<
    Option<Value>,
    JvmError,
>)
    requires
        args@.len() >= 2,
    ensures
        refers_to_post(heap@, args@, referent_offset as int, r),
{
    let referent_ref = args[0].as_obj_ref()?;
    let referent_value = heap.read_field(referent_ref, referent_offset, AllocationType::Reference)?;
    let o = args[1].as_obj_ref()?;
    let referent = referent_value.as_obj_ref()?;
    Ok(Some(Value::Integer(if referent == o { 1 } else { 0 })))
}

/// The string that `String.intern` newly pools for a text reads back as
/// that text.
pub proof fn law_interned_string_reads_its_text(
    h0: Heap,
    h1: Heap,
    text: Seq<char>,
    r: Result<Option<Value>, JvmError>,
    t: Result<String, JvmError>,
)
    requires
        h0.wf(),
        h0.string_size() >= 9,
        intern_post(h0, h1, text, r),
        r matches Ok(Some(Value::Ref(a))) && java_string_read(h1@, a as int, t),
        !h0.string_pool().contains_key(key_of(h0.interner(), text)),
    ensures
        t matches Ok(x) && x@ == text,
{
    let k = key_of(h0.interner(), text);
    crate::java_string::law_pooled_string_reads_its_text(h0, h1, k, Ok(r->Ok_0->0->Ref_0), t);
}

/// Interning two strings of the same text, one after the other, gives the
/// same pooled string, and the second time the heap stays as it is.
pub proof fn law_intern_same_text_same_string(
    h0: Heap,
    h1: Heap,
    h2: Heap,
    text: Seq<char>,
    r1: Result<Option<Value>, JvmError>,
    r2: Result<Option<Value>, JvmError>,
)
    requires
        intern_post(h0, h1, text, r1),
        r1 is Ok,
        intern_post(h1, h2, text, r2),
        r2 is Ok,
    ensures
        r2 == r1,
        h2 == h1,
{
    assert(h1.interner() == h0.interner());
}

/// Whether the bytes that `FileOutputStream.writeBytes` is asked to write
/// lie in the array `args[1]`, when that array can be read.
pub open spec fn write_range_ok(m: Seq<u8>, args: Seq<Value>) -> bool {
    let arr = args[1]->Ref_0 as int;
    byte_array_readable(m, arr) ==> args[2]->Integer_0 + args[3]->Integer_0 <= byte_elements(m, arr).len()
}

/// What `FileOutputStream.writeBytes` reads before it writes: the file
/// descriptor number of the stream `args[0]` (through its `fd` object) and
/// `args[3]` bytes of the array `args[1]` from `args[2]` on.
pub open spec fn write_request_post(
    m: Seq<u8>,
    args: Seq<Value>,
    stream_fd_offset: int,
    fd_fd_offset: int,
    r: Result<(i32, Vec<u8>), JvmError>,
) -> bool {
    let stream = args[0]->Ref_0;
    let arr = args[1]->Ref_0 as int;
    let off = args[2]->Integer_0 as int;
    let len = args[3]->Integer_0 as int;
    let p1 = crate::heap::data_start(stream as int) + stream_fd_offset;
    if p1 + 8 > m.len() {
        r == Err::<(i32, Vec<u8>), JvmError>(JvmError::WrongHeapAddress(stream))
    } else {
        match decode_field(m, p1, AllocationType::Reference) {
            Value::Ref(fd_obj) => {
                let p2 = crate::heap::data_start(fd_obj as int) + fd_fd_offset;
                if p2 + 4 > m.len() {
                    r == Err::<(i32, Vec<u8>), JvmError>(JvmError::WrongHeapAddress(fd_obj))
                } else if !byte_array_readable(m, arr) {
                    r matches Err(e) && byte_array_error(m, arr, e)
                } else {
                    r matches Ok((fd, bytes)) && fd == decode_field(m, p2, AllocationType::Int)->Integer_0
                        && bytes@ == byte_elements(m, arr).subrange(off, off + len).map_values(|b: i8| b as u8)
                }
            },
            _ => r == Err::<(i32, Vec<u8>), JvmError>(java_exception(JavaExceptionKind::NullPointerException)),
        }
    }
}

/// What `FileOutputStream.writeBytes` writes and where: the descriptor
/// number of the stream and the bytes, read with the stream's `fd` field at
/// `stream_fd_offset` and the descriptor's number field at `fd_fd_offset`.
pub fn file_output_stream_write_request(
    heap: &Heap,
    args: &[Value],
    stream_fd_offset: usize,
    fd_fd_offset: usize,
) -> (r: Result<(i32, Vec<u8>), JvmError>)
    requires
        args@.len() >= 4,
        args@[0] is Ref,
        args@[1] is Ref,
        args@[2] matches Value::Integer(off) && off >= 0,
        args@[3] matches Value::Integer(len) && len >= 0,
        write_range_ok(heap@, args@),
    ensures
        write_request_post(heap@, args@, stream_fd_offset as int, fd_fd_offset as int, r),
{
    let output_stream_ref = match args[0] {
        Value::Ref(h) => h,
        _ => 0,
    };
    let bytes_array = match args[1] {
        Value::Ref(h) => h,
        _ => 0,
    };
    let offset = match args[2] {
        Value::Integer(i) => i as usize,
        _ => 0,
    };
    let length = match args[3] {
        Value::Integer(i) => i as usize,
        _ => 0,
    };
    let fd_obj = heap.read_field(output_stream_ref, stream_fd_offset, AllocationType::Reference)?.as_obj_ref()?;
    let fd_val = heap.read_field(fd_obj, fd_fd_offset, AllocationType::Int)?.as_int()?;
    let byte_slice = heap.get_byte_array_slice(bytes_array)?;
    let mut unsigned_bytes: Vec<u8> = Vec::new();
    let mut i: usize = 0;
    while i < length
        invariant
            offset + length <= byte_slice.len(),
            i <= length,
            unsigned_bytes@ == byte_slice@.subrange(offset as int, offset + i).map_values(|b: i8| b as u8),
        decreases length - i,
    {
        unsigned_bytes.push(byte_slice[offset + i] as u8);
        i = i + 1;
        assert(unsigned_bytes@ =~= byte_slice@.subrange(offset as int, offset + i).map_values(|b: i8| b as u8));
    }
    Ok((fd_val, unsigned_bytes))
}

/// The little-endian bytes of `vals`, one after the other.
pub open spec fn ints_le(vals: Seq<i32>) -> Seq<u8>
    decreases vals.len(),
{
    if vals.len() == 0 {
        Seq::empty()
    } else {
        ints_le(vals.drop_last()) + u32_bytes(vals.last() as u32)
    }
}

/// The little-endian bytes of the addresses `refs`, one after the other.
pub open spec fn refs_le(refs: Seq<HeapRef>) -> Seq<u8>
    decreases refs.len(),
{
    if refs.len() == 0 {
        Seq::empty()
    } else {
        refs_le(refs.drop_last()) + u64_bytes(refs.last() as u64)
    }
}

/// The memory after allocating, at the end of `m`, an array of class
/// `class_id` of `n` elements of type `t` whose element bytes are `bytes`.
#[verifier::opaque]
pub open spec fn filled_array_image(m: Seq<u8>, class_id: ClassId, t: AllocationType, n: i32, bytes: Seq<u8>) -> Seq<u8> {
    splice(array_image(m, class_id, n, t), element_pos(m.len() as int, 0, t), bytes)
}

/// What allocating an array of `n` elements of type `t` holding `bytes`
/// does: refused with "Heap full" when it does not fit.
pub open spec fn filled_array_post(h0: Heap, h1: Heap, class_id: ClassId, t: AllocationType, n: i32, bytes: Seq<u8>, r: Result<HeapRef, JvmError>) -> bool {
    &&& h1.wf()
    &&& h1.same_setup(&h0)
    &&& h1.string_pool() == h0.string_pool()
    &&& if h0@.len() + block_size(array_data_size(n as int, t)) > h0.capacity() {
        heap_full(r) && h1@ == h0@
    } else {
        r == Ok::<HeapRef, JvmError>(h0@.len() as usize) && h1@ == filled_array_image(h0@, class_id, t, n, bytes)
    }
}

fn int_bytes(vals: &Vec<i32>) -> (r: Vec<u8>)
    ensures
        r@ == ints_le(vals@),
        r@.len() == 4 * vals@.len(),
{
    let mut out: Vec<u8> = Vec::new();
    let mut i: usize = 0;
    while i < vals.len()
        invariant
            i <= vals@.len(),
            out@ == ints_le(vals@.take(i as int)),
            out@.len() == 4 * i,
        decreases vals@.len() - i,
    {
        let mut b = u32_to_bytes(vals[i] as u32);
        out.append(&mut b);
        proof {
            assert(vals@.take(i + 1).drop_last() =~= vals@.take(i as int));
        }
        i = i + 1;
    }
    assert(vals@.take(vals@.len() as int) =~= vals@);
    out
}

/// Allocates an array of `n` elements of type `t` (int or reference) and
/// fills it with `bytes`.
fn alloc_filled_array(heap: &mut Heap, class_id: ClassId, t: AllocationType, n: i32, bytes: &Vec<u8>) -> (r: Result<
    HeapRef,
    JvmError,
>)
    requires
        old(heap).wf(),
        n >= 0,
        t == AllocationType::Int || t == AllocationType::Reference,
        bytes@.len() == n * type_size(t),
    ensures
        filled_array_post(*old(heap), *final(heap), class_id, t, n, bytes@, r),
{
    let array = if t == AllocationType::Int {
        heap.alloc_primitive_array(class_id, ArrayType::Int, n)?
    } else {
        heap.alloc_object_array(class_id, n)?
    };
    let len = heap.memory_len();
    proof {
        assert(len == old(heap)@.len() + block_size(array_data_size(n as int, t)));
        assert(block_size(array_data_size(n as int, t)) >= 24 + n * type_size(t));
    }
    heap.write_bytes(array + OBJECT_HEADER_SIZE + ARRAY_ELEMENTS_OFFSET, bytes);
    assert(element_pos(old(heap)@.len() as int, 0, t) == array + OBJECT_HEADER_SIZE + ARRAY_ELEMENTS_OFFSET);
    proof {
        reveal(filled_array_image);
    }
    Ok(array)
}

/// One frame of a backtrace: the class and method of the frame, and its pc
/// (-2 for a native frame).
#[derive(Clone, Copy, Debug, PartialEq, Eq, Structural)]
pub struct BacktraceFrame {
    pub class_id: i32,
    pub method_id: i32,
    pub pc: i32,
}

/// One frame of a thread's stack as `fillInStackTrace` sees it: the class
/// and id of its method, its pc (none for a native frame), and whether the
/// method's class is a `java.lang.Throwable` (as the method area answers).
#[derive(Clone, Copy, Debug, PartialEq, Eq, Structural)]
pub struct ThreadFrame {
    pub class_id: i32,
    pub method_id: i32,
    pub pc: Option<i32>,
    pub in_throwable: bool,
}

/// The backtrace entry of a thread frame: a native frame's pc is -2.
pub open spec fn backtrace_frame_of(f: ThreadFrame) -> BacktraceFrame {
    BacktraceFrame {
        class_id: f.class_id,
        method_id: f.method_id,
        pc: match f.pc {
            Some(p) => p,
            None => -2i32,
        },
    }
}

/// The entry of `f` when the backtrace keeps it (its class is no Throwable).
pub open spec fn kept_frame(f: ThreadFrame) -> Seq<BacktraceFrame> {
    if f.in_throwable { seq![] } else { seq![backtrace_frame_of(f)] }
}

/// The frames that a backtrace records of the thread stack `stack` (given
/// outermost first): those whose method's class is no Throwable, innermost
/// first.
pub open spec fn backtrace_frames(stack: Seq<ThreadFrame>) -> Seq<BacktraceFrame>
    decreases stack.len(),
{
    if stack.len() == 0 {
        seq![]
    } else {
        backtrace_frames(stack.drop_first()) + kept_frame(stack[0])
    }
}

/// Pushing a frame onto a thread's stack puts its entry first in the
/// backtrace, before all the others in their order, unless its method's
/// class is a Throwable: then the backtrace stays as it was.
pub proof fn law_backtrace_innermost_first(stack: Seq<ThreadFrame>, f: ThreadFrame)
    ensures
        backtrace_frames(stack.push(f)) == kept_frame(f) + backtrace_frames(stack),
        f.in_throwable ==> backtrace_frames(stack.push(f)) == backtrace_frames(stack),
    decreases stack.len(),
{
    if stack.len() == 0 {
        assert(stack.push(f).drop_first() =~= stack);
        assert(backtrace_frames(stack) =~= seq![]);
        assert(backtrace_frames(stack.push(f)) =~= kept_frame(f) + backtrace_frames(stack));
    } else {
        law_backtrace_innermost_first(stack.drop_first(), f);
        assert(stack.push(f).drop_first() =~= stack.drop_first().push(f));
        assert(backtrace_frames(stack.push(f)) =~= kept_frame(f) + backtrace_frames(stack));
    }
}

/// A backtrace has no more entries than the stack has frames.
proof fn lemma_backtrace_len(stack: Seq<ThreadFrame>)
    ensures
        backtrace_frames(stack).len() <= stack.len(),
    decreases stack.len(),
{
    if stack.len() > 0 {
        lemma_backtrace_len(stack.drop_first());
    }
}

/// The entries of a backtrace of the thread stack `stack` (outermost
/// first): its frames whose method's class is no Throwable, innermost
/// first, a native frame's pc given as -2.
pub fn select_backtrace_frames(stack: &Vec<ThreadFrame>) -> (r: Vec<BacktraceFrame>)
    ensures
        r@ == backtrace_frames(stack@),
{
    let mut out: Vec<BacktraceFrame> = Vec::new();
    let mut i: usize = stack.len();
    assert(stack@.subrange(i as int, stack@.len() as int) =~= seq![]);
    while i > 0
        invariant
            i <= stack@.len(),
            out@ == backtrace_frames(stack@.subrange(i as int, stack@.len() as int)),
        decreases i,
    {
        i = i - 1;
        let f = stack[i];
        assert(stack@.subrange(i as int, stack@.len() as int).drop_first() =~= stack@.subrange(
            i + 1,
            stack@.len() as int,
        ));
        if !f.in_throwable {
            let pc = match f.pc {
                Some(p) => p,
                None => -2,
            };
            out.push(BacktraceFrame { class_id: f.class_id, method_id: f.method_id, pc });
        }
        assert(out@ =~= backtrace_frames(stack@.subrange(i as int, stack@.len() as int)));
    }
    assert(stack@.subrange(0, stack@.len() as int) =~= stack@);
    out
}

/// `Throwable.fillInStackTrace` on a thread whose stack is `stack`
/// (outermost first): records as the backtrace of the throwable `args[0]`
/// the frames that `select_backtrace_frames` keeps, innermost first.
pub fn fill_in_stack_trace_of_thread(
    heap: &mut Heap,
    args: &[Value],
    stack: &Vec<ThreadFrame>,
    int_array_class: ClassId,
    object_class: ClassId,
    backtrace_offset: usize,
    depth_offset: usize,
) -> (r: Result<Option<Value>, JvmError>)
    requires
        old(heap).wf(),
        args@.len() >= 1,
        args@[0] is Ref,
        stack@.len() <= i32::MAX,
    ensures
        final(heap).wf(),
        final(heap).same_setup(old(heap)),
        final(heap).string_pool() == old(heap).string_pool(),
        fill_in_stack_trace_post(
            old(heap)@,
            old(heap).capacity(),
            args@[0]->Ref_0,
            backtrace_frames(stack@),
            int_array_class,
            object_class,
            backtrace_offset as int,
            depth_offset as int,
            final(heap)@,
            r,
        ),
{
    let frames = select_backtrace_frames(stack);
    proof {
        lemma_backtrace_len(stack@);
    }
    java_lang_throwable_fill_in_stack_trace(
        heap,
        args,
        &frames,
        int_array_class,
        object_class,
        backtrace_offset,
        depth_offset,
    )
}

/// The class ids of `frames`.
pub open spec fn frame_classes(frames: Seq<BacktraceFrame>) -> Seq<i32> {
    frames.map_values(|f: BacktraceFrame| f.class_id)
}

/// The method ids of `frames`.
pub open spec fn frame_methods(frames: Seq<BacktraceFrame>) -> Seq<i32> {
    frames.map_values(|f: BacktraceFrame| f.method_id)
}

/// The pcs of `frames`.
pub open spec fn frame_pcs(frames: Seq<BacktraceFrame>) -> Seq<i32> {
    frames.map_values(|f: BacktraceFrame| f.pc)
}

/// What `Throwable.fillInStackTrace` does to memory `m` (with capacity
/// `cap`), giving `mf` and `r`: three int arrays of the frames' class ids,
/// method ids and pcs, an object array holding those three, then the
/// throwable's backtrace field (at `backtrace_offset`) set to that array and
/// its depth field (at `depth_offset`) to the number of frames. Each
/// allocation is refused with "Heap full" when it does not fit.
pub open spec fn fill_in_stack_trace_post(
    m: Seq<u8>,
    cap: nat,
    throwable: HeapRef,
    frames: Seq<BacktraceFrame>,
    int_array_class: ClassId,
    object_class: ClassId,
    backtrace_offset: int,
    depth_offset: int,
    mf: Seq<u8>,
    r: Result<Option<Value>, JvmError>,
) -> bool {
    let n = frames.len() as i32;
    let int_block = block_size(array_data_size(n as int, AllocationType::Int));
    let a0 = m.len() as int;
    let m1 = filled_array_image(m, int_array_class, AllocationType::Int, n, ints_le(frame_classes(frames)));
    let a1 = m1.len() as int;
    let m2 = filled_array_image(m1, int_array_class, AllocationType::Int, n, ints_le(frame_methods(frames)));
    let a2 = m2.len() as int;
    let m3 = filled_array_image(m2, int_array_class, AllocationType::Int, n, ints_le(frame_pcs(frames)));
    let b = m3.len() as int;
    let m4 = filled_array_image(
        m3,
        object_class,
        AllocationType::Reference,
        3,
        refs_le(seq![a0 as usize, a1 as usize, a2 as usize]),
    );
    let p = data_start(throwable as int) + backtrace_offset;
    let m5 = splice(m4, p, u64_bytes(b as u64));
    let q = data_start(throwable as int) + depth_offset;
    if a0 + int_block > cap {
        todo_error(r, "Heap full"@) && mf == m
    } else if a1 + int_block > cap {
        todo_error(r, "Heap full"@) && mf == m1
    } else if a2 + int_block > cap {
        todo_error(r, "Heap full"@) && mf == m2
    } else if b + block_size(array_data_size(3, AllocationType::Reference)) > cap {
        todo_error(r, "Heap full"@) && mf == m3
    } else if p + 8 > m4.len() {
        r == Err::<Option<Value>, JvmError>(JvmError::WrongHeapAddress(throwable)) && mf == m4
    } else if q + 4 > m5.len() {
        r == Err::<Option<Value>, JvmError>(JvmError::WrongHeapAddress(throwable)) && mf == m5
    } else {
        r == Ok::<Option<Value>, JvmError>(Some(Value::Ref(throwable))) && mf == splice(m5, q, u32_bytes(n as u32))
    }
}

fn frame_column(frames: &Vec<BacktraceFrame>, which: u8) -> (r: Vec<i32>)
    ensures
        which == 0 ==> r@ == frame_classes(frames@),
        which == 1 ==> r@ == frame_methods(frames@),
        which != 0 && which != 1 ==> r@ == frame_pcs(frames@),
{
    let mut out: Vec<i32> = Vec::new();
    let mut i: usize = 0;
    while i < frames.len()
        invariant
            i <= frames@.len(),
            which == 0 ==> out@ == frame_classes(frames@).take(i as int),
            which == 1 ==> out@ == frame_methods(frames@).take(i as int),
            which != 0 && which != 1 ==> out@ == frame_pcs(frames@).take(i as int),
        decreases frames@.len() - i,
    {
        let f = frames[i];
        let v = if which == 0 {
            f.class_id
        } else if which == 1 {
            f.method_id
        } else {
            f.pc
        };
        out.push(v);
        i = i + 1;
        proof {
            assert(frame_classes(frames@).take(i as int) =~= frame_classes(frames@).take(i - 1).push(frames@[i - 1].class_id));
            assert(frame_methods(frames@).take(i as int) =~= frame_methods(frames@).take(i - 1).push(frames@[i - 1].method_id));
            assert(frame_pcs(frames@).take(i as int) =~= frame_pcs(frames@).take(i - 1).push(frames@[i - 1].pc));
        }
    }
    assert(frame_classes(frames@).take(i as int) =~= frame_classes(frames@));
    assert(frame_methods(frames@).take(i as int) =~= frame_methods(frames@));
    assert(frame_pcs(frames@).take(i as int) =~= frame_pcs(frames@));
    out
}

/// `Throwable.fillInStackTrace`: records the frames `frames`, in the order
/// given (innermost first, as `select_backtrace_frames` gives them), as the
/// backtrace of the throwable `args[0]`, whose backtrace and
/// depth fields lie at `backtrace_offset` and `depth_offset`; the arrays are
/// of the classes `int_array_class` and `object_class`.
pub fn java_lang_throwable_fill_in_stack_trace(
    heap: &mut Heap,
    args: &[Value],
    frames: &Vec<BacktraceFrame>,
    int_array_class: ClassId,
    object_class: ClassId,
    backtrace_offset: usize,
    depth_offset: usize,
) -> (r: Result<Option<Value>, JvmError>)
    requires
        old(heap).wf(),
        args@.len() >= 1,
        args@[0] is Ref,
        frames@.len() <= i32::MAX,
    ensures
        final(heap).wf(),
        final(heap).same_setup(old(heap)),
        final(heap).string_pool() == old(heap).string_pool(),
        fill_in_stack_trace_post(
            old(heap)@,
            old(heap).capacity(),
            args@[0]->Ref_0,
            frames@,
            int_array_class,
            object_class,
            backtrace_offset as int,
            depth_offset as int,
            final(heap)@,
            r,
        ),
{
    let n = frames.len() as i32;
    let classes = int_bytes(&frame_column(frames, 0));
    let methods = int_bytes(&frame_column(frames, 1));
    let pcs = int_bytes(&frame_column(frames, 2));
    let start = heap.memory_len();
    let class_id_array = alloc_filled_array(heap, int_array_class, AllocationType::Int, n, &classes)?;
    let len1 = heap.memory_len();
    let method_id_array = alloc_filled_array(heap, int_array_class, AllocationType::Int, n, &methods)?;
    let len2 = heap.memory_len();
    let line_nbr_array = alloc_filled_array(heap, int_array_class, AllocationType::Int, n, &pcs)?;
    let len3 = heap.memory_len();
    let mut refs = u64_to_bytes(class_id_array as u64);
    let mut r1 = u64_to_bytes(method_id_array as u64);
    let mut r2 = u64_to_bytes(line_nbr_array as u64);
    refs.append(&mut r1);
    refs.append(&mut r2);
    proof {
        let rs = seq![class_id_array, method_id_array, line_nbr_array];
        assert(rs.drop_last().drop_last().drop_last() =~= Seq::<HeapRef>::empty());
        assert(rs.drop_last().drop_last() =~= seq![class_id_array]);
        assert(rs.drop_last() =~= seq![class_id_array, method_id_array]);
        reveal_with_fuel(refs_le, 4);
        assert(refs_le(rs.drop_last().drop_last().drop_last()) =~= Seq::<u8>::empty());
        assert(refs_le(rs.drop_last().drop_last()) =~= u64_bytes(class_id_array as u64));
        assert(refs_le(rs.drop_last()) =~= u64_bytes(class_id_array as u64) + u64_bytes(method_id_array as u64));
        assert(refs_le(rs) =~= u64_bytes(class_id_array as u64) + u64_bytes(method_id_array as u64) + u64_bytes(
            line_nbr_array as u64,
        ));
        assert(refs@ =~= refs_le(rs));
    }
    let backtrace_addr = alloc_filled_array(heap, object_class, AllocationType::Reference, 3, &refs)?;
    let throwable_addr = match args[0] {
        Value::Ref(h) => h,
        _ => 0,
    };
    heap.write_field(throwable_addr, backtrace_offset, Value::Ref(backtrace_addr), AllocationType::Reference)?;
    heap.write_field(throwable_addr, depth_offset, Value::Integer(n), AllocationType::Int)?;
    Ok(Some(Value::Ref(throwable_addr)))
}

/// What reading element `i` of column `col` of a backtrace `object` gives:
/// the column is an int array held in element `col` of the object array.
pub open spec fn column_post(m: Seq<u8>, object: HeapRef, col: i32, i: i32, r: Result<i32, JvmError>) -> bool {
    match array_element_value(m, object as int, col) {
        None => r matches Err(e) && array_read_post(m, object as int, col, Err(e)),
        Some(Value::Ref(c)) => match array_element_value(m, c as int, i) {
            None => r matches Err(e) && array_read_post(m, c as int, i, Err(e)),
            Some(Value::Integer(x)) => r == Ok::<i32, JvmError>(x),
            Some(_) => r matches Err(JvmError::Todo(s)) && s@ == "Value::as_int called on non-integer value"@,
        },
        Some(Value::Null) => r == Err::<i32, JvmError>(java_exception(JavaExceptionKind::NullPointerException)),
        Some(_) => r matches Err(JvmError::Todo(s)) && s@ == "Value::as_obj_ref called on non-reference value"@,
    }
}

/// Reads element `i` of column `col` of the backtrace `object`.
fn read_column(heap: &Heap, object: HeapRef, col: i32, i: i32) -> (r: Result<i32, JvmError>)
    ensures
        column_post(heap@, object, col, i, r),
{
    let column = heap.read_array_element(object, col);
    proof {
        lemma_array_read_value(heap@, object as int, col, column);
    }
    let column = column?.as_obj_ref()?;
    let v = heap.read_array_element(column, i);
    proof {
        lemma_array_read_value(heap@, column as int, i, v);
    }
    v?.as_int()
}

/// What reading frame `i` of the backtrace `object` gives: its class id,
/// method id and pc, read in that order, the first failing read's error
/// otherwise.
pub open spec fn backtrace_entry_post(m: Seq<u8>, object: HeapRef, i: i32, r: Result<BacktraceFrame, JvmError>) -> bool {
    match r {
        Ok(f) => column_post(m, object, 0, i, Ok(f.class_id)) && column_post(m, object, 1, i, Ok(f.method_id))
            && column_post(m, object, 2, i, Ok(f.pc)),
        Err(e) => {
            ||| column_post(m, object, 0, i, Err(e))
            ||| (exists|c: i32| column_post(m, object, 0, i, Ok(c))) && column_post(m, object, 1, i, Err(e))
            ||| (exists|c: i32, d: i32| column_post(m, object, 0, i, Ok(c)) && column_post(m, object, 1, i, Ok(d)))
                && column_post(m, object, 2, i, Err(e))
        },
    }
}

/// Reads frame `i` of the backtrace `object` that `fillInStackTrace` made.
pub fn read_backtrace_entry(heap: &Heap, object: HeapRef, i: i32) -> (r: Result<BacktraceFrame, JvmError>)
    ensures
        backtrace_entry_post(heap@, object, i, r),
{
    let class_id = read_column(heap, object, 0, i)?;
    let method_id = read_column(heap, object, 1, i)?;
    let pc = read_column(heap, object, 2, i)?;
    Ok(BacktraceFrame { class_id, method_id, pc })
}

/// The bytes of `ints_le(vals)` are those of each value in turn.
proof fn lemma_ints_le(vals: Seq<i32>)
    ensures
        ints_le(vals).len() == 4 * vals.len(),
        forall|i: int|
            0 <= i < vals.len() ==> ints_le(vals).subrange(4 * i, 4 * i + 4) == u32_bytes(#[trigger] vals[i] as u32),
    decreases vals.len(),
{
    if vals.len() > 0 {
        let init = vals.drop_last();
        lemma_ints_le(init);
        let b = ints_le(vals);
        assert(b == ints_le(init) + u32_bytes(vals.last() as u32));
        assert forall|i: int| 0 <= i < vals.len() implies b.subrange(4 * i, 4 * i + 4) == u32_bytes(
            #[trigger] vals[i] as u32,
        ) by {
            if i < vals.len() - 1 {
                assert(init[i] == vals[i]);
                assert(b.subrange(4 * i, 4 * i + 4) =~= ints_le(init).subrange(4 * i, 4 * i + 4));
            } else {
                assert(b.subrange(4 * i, 4 * i + 4) =~= u32_bytes(vals.last() as u32));
            }
        }
    }
}

/// An array allocated and filled at the end of `m` has its length and its
/// element type, and leaves the memory before it untouched.
proof fn lemma_filled_shape(m: Seq<u8>, class_id: ClassId, t: AllocationType, n: i32, bytes: Seq<u8>)
    requires
        n >= 0,
        m.len() >= OBJECT_HEADER_SIZE,
        t == AllocationType::Int || t == AllocationType::Reference,
        bytes.len() == n * type_size(t),
    ensures
        ({
            let h = m.len() as int;
            let ma = filled_array_image(m, class_id, t, n, bytes);
            &&& ma.len() == m.len() + block_size(array_data_size(n as int, t))
            &&& ma.len() >= element_pos(h, 0, t) + bytes.len()
            &&& ma.subrange(0, h) == m
            &&& has_array_length(ma, h)
            &&& array_length_at(ma, h) == n
            &&& array_type_at(ma, h) == Some(t)
            &&& ma.subrange(element_pos(h, 0, t), element_pos(h, 0, t) + bytes.len()) == bytes
        }),
{
    let h = m.len() as int;
    let arr = array_image(m, class_id, n, t);
    let e0 = element_pos(h, 0, t);
    let ts = type_size(t) as int;
    assert({
        &&& arr.len() == m.len() + block_size(array_data_size(n as int, t))
        &&& arr.subrange(0, h) == m
        &&& array_length_at(arr, h) == n
        &&& array_type_at(arr, h) == Some(t)
    }) by {
        law_alloc_array_fresh(m, class_id, n, t);
    }
    assert(n * ts >= 0) by (nonlinear_arith)
        requires
            n >= 0,
            ts >= 0,
    ;
    assert(arr.len() >= e0 + bytes.len());
    let ma = splice(arr, e0, bytes);
    assert(ma == filled_array_image(m, class_id, t, n, bytes)) by {
        reveal(filled_array_image);
    }
    assert forall|k: int| 0 <= k < e0 implies ma[k] == arr[k] by {
        assert(ma[k] == arr.subrange(0, e0)[k]);
    }
    assert(ma.subrange(0, h) =~= arr.subrange(0, h));
    assert(array_length_at(ma, h) == array_length_at(arr, h));
    assert(ma[data_start(h) + ARRAY_TYPE_OFFSET] == arr[data_start(h) + ARRAY_TYPE_OFFSET]);
    assert(ma.subrange(e0, e0 + bytes.len()) =~= bytes);
}

/// Element `i` of an array allocated and filled at the end of `m` holds the
/// bytes of `bytes` for it, and reads as they encode.
proof fn lemma_filled_element(m: Seq<u8>, class_id: ClassId, t: AllocationType, n: i32, bytes: Seq<u8>, i: int)
    requires
        n >= 0,
        m.len() >= OBJECT_HEADER_SIZE,
        t == AllocationType::Int || t == AllocationType::Reference,
        bytes.len() == n * type_size(t),
        0 <= i < n,
    ensures
        ({
            let h = m.len() as int;
            let ma = filled_array_image(m, class_id, t, n, bytes);
            let p = element_pos(h, i, t);
            &&& p + type_size(t) <= ma.len()
            &&& ma.subrange(p, p + type_size(t)) == bytes.subrange(i * type_size(t), (i + 1) * type_size(t))
            &&& array_element_value(ma, h, i as i32) == Some(decode_field(ma, p, t))
        }),
{
    let h = m.len() as int;
    let ma = filled_array_image(m, class_id, t, n, bytes);
    lemma_filled_shape(m, class_id, t, n, bytes);
    let e0 = element_pos(h, 0, t);
    let ts = type_size(t) as int;
    let p = element_pos(h, i, t);
    assert(i * ts + ts <= n * ts) by (nonlinear_arith)
        requires
            i < n,
            ts >= 0,
    ;
    assert(0 <= i * ts) by (nonlinear_arith)
        requires
            0 <= i,
            ts >= 0,
    ;
    assert(p == e0 + i * ts);
    let chunk = ma.subrange(e0, e0 + bytes.len());
    assert(ma.subrange(p, p + ts) =~= chunk.subrange(i * ts, i * ts + ts));
    assert((i + 1) * ts == i * ts + ts) by (nonlinear_arith);
    assert(p + ts <= ma.len());
    assert(0 <= i < array_length_at(ma, h));
    assert(array_element_value(ma, h, i as i32) == Some(decode_field(ma, p, t)));
}

/// Element `i` of an int array of `vals` filled at the end of `m` reads as
/// `vals[i]`.
proof fn lemma_column_value(m: Seq<u8>, class_id: ClassId, vals: Seq<i32>, i: int)
    requires
        m.len() >= OBJECT_HEADER_SIZE,
        vals.len() <= i32::MAX,
        0 <= i < vals.len(),
    ensures
        array_element_value(
            filled_array_image(m, class_id, AllocationType::Int, vals.len() as i32, ints_le(vals)),
            m.len() as int,
            i as i32,
        ) == Some(Value::Integer(vals[i])),
{
    let n = vals.len() as i32;
    lemma_ints_le(vals);
    assert(vals[i] == vals[i]);
    lemma_filled_element(m, class_id, AllocationType::Int, n, ints_le(vals), i);
    let ma = filled_array_image(m, class_id, AllocationType::Int, n, ints_le(vals));
    let p = element_pos(m.len() as int, i, AllocationType::Int);
    assert(ints_le(vals).subrange(i * 4, (i + 1) * 4) == u32_bytes(vals[i] as u32));
    lemma_decode_chunk(ma, p, Value::Integer(vals[i]), AllocationType::Int);
}

/// Element `c` of the object array of the three columns `a0`, `a1`, `a2`
/// filled at the end of `m` reads as that column.
proof fn lemma_backtrace_value(m: Seq<u8>, class_id: ClassId, a0: usize, a1: usize, a2: usize, c: int)
    requires
        m.len() >= OBJECT_HEADER_SIZE,
        a0 != 0 && a1 != 0 && a2 != 0,
        0 <= c < 3,
    ensures
        array_element_value(
            filled_array_image(m, class_id, AllocationType::Reference, 3, refs_le(seq![a0, a1, a2])),
            m.len() as int,
            c as i32,
        ) == Some(Value::Ref(seq![a0, a1, a2][c])),
{
    let rs = seq![a0, a1, a2];
    let bytes = refs_le(rs);
    reveal_with_fuel(refs_le, 4);
    assert(rs.drop_last().drop_last().drop_last() =~= Seq::<HeapRef>::empty());
    assert(rs.drop_last().drop_last() =~= seq![a0]);
    assert(rs.drop_last() =~= seq![a0, a1]);
    assert(bytes =~= u64_bytes(a0 as u64) + u64_bytes(a1 as u64) + u64_bytes(a2 as u64));
    lemma_filled_element(m, class_id, AllocationType::Reference, 3, bytes, c);
    let ma = filled_array_image(m, class_id, AllocationType::Reference, 3, bytes);
    let p = element_pos(m.len() as int, c, AllocationType::Reference);
    assert(bytes.subrange(c * 8, (c + 1) * 8) =~= u64_bytes(rs[c] as u64));
    lemma_decode_chunk(ma, p, Value::Ref(rs[c]), AllocationType::Reference);
}

/// An element keeps its value in memory that agrees from `lo` on, when the
/// array starts there or later.
proof fn lemma_kept_from(mx: Seq<u8>, mf: Seq<u8>, lo: int, h: int, i: i32)
    requires
        array_element_value(mx, h, i) is Some,
        lo <= data_start(h),
        mf.len() >= mx.len(),
        forall|k: int| lo <= k < mx.len() ==> mf[k] == mx[k],
    ensures
        array_element_value(mf, h, i) == array_element_value(mx, h, i),
{
    let t = array_type_at(mx, h)->0;
    let end = element_pos(h, i as int, t) + type_size(t);
    assert(mf.subrange(data_start(h), end) =~= mx.subrange(data_start(h), end));
    lemma_element_kept(mx, mf, h, i);
}

/// A column element reads as `x` when the backtrace holds the column and
/// the column holds `x`.
proof fn lemma_column_read(m: Seq<u8>, object: HeapRef, col: i32, column: HeapRef, i: i32, x: i32)
    requires
        array_element_value(m, object as int, col) == Some(Value::Ref(column)),
        array_element_value(m, column as int, i) == Some(Value::Integer(x)),
    ensures
        column_post(m, object, col, i, Ok(x)),
{
}

/// The columns and the backtrace array that `fillInStackTrace` builds on
/// `m`, and what they hold.
proof fn lemma_backtrace_images(
    m: Seq<u8>,
    frames: Seq<BacktraceFrame>,
    int_array_class: ClassId,
    object_class: ClassId,
)
    requires
        m.len() >= OBJECT_HEADER_SIZE,
        frames.len() <= i32::MAX,
    ensures
        ({
            let n = frames.len() as i32;
            let m1 = filled_array_image(m, int_array_class, AllocationType::Int, n, ints_le(frame_classes(frames)));
            let m2 = filled_array_image(m1, int_array_class, AllocationType::Int, n, ints_le(frame_methods(frames)));
            let m3 = filled_array_image(m2, int_array_class, AllocationType::Int, n, ints_le(frame_pcs(frames)));
            let refs = seq![m.len() as usize, m1.len() as usize, m2.len() as usize];
            let m4 = filled_array_image(m3, object_class, AllocationType::Reference, 3, refs_le(refs));
            &&& m.len() < m1.len() < m2.len() < m3.len() < m4.len()
            &&& m4.len() == m3.len() + block_size(array_data_size(3, AllocationType::Reference))
            &&& forall|k: int| 0 <= k < m3.len() ==> m4[k] == m3[k]
            &&& forall|k: int| 0 <= k < m2.len() ==> m3[k] == m2[k]
            &&& forall|k: int| 0 <= k < m1.len() ==> m2[k] == m1[k]
            &&& m4.len() <= usize::MAX ==> forall|c: int|
                0 <= c < 3 ==> array_element_value(m4, m3.len() as int, c as i32) == Some(Value::Ref(#[trigger] refs[c]))
            &&& forall|i: int|
                0 <= i < frames.len() ==> array_element_value(m1, m.len() as int, i as i32) == Some(
                    Value::Integer(#[trigger] frames[i].class_id),
                )
            &&& forall|i: int|
                0 <= i < frames.len() ==> array_element_value(m2, m1.len() as int, i as i32) == Some(
                    Value::Integer(#[trigger] frames[i].method_id),
                )
            &&& forall|i: int|
                0 <= i < frames.len() ==> array_element_value(m3, m2.len() as int, i as i32) == Some(
                    Value::Integer(#[trigger] frames[i].pc),
                )
        }),
{
    let n = frames.len() as i32;
    let a0 = m.len() as int;
    let m1 = filled_array_image(m, int_array_class, AllocationType::Int, n, ints_le(frame_classes(frames)));
    let a1 = m1.len() as int;
    let m2 = filled_array_image(m1, int_array_class, AllocationType::Int, n, ints_le(frame_methods(frames)));
    let a2 = m2.len() as int;
    let m3 = filled_array_image(m2, int_array_class, AllocationType::Int, n, ints_le(frame_pcs(frames)));
    let b = m3.len() as int;
    let refs = seq![a0 as usize, a1 as usize, a2 as usize];
    let m4 = filled_array_image(m3, object_class, AllocationType::Reference, 3, refs_le(refs));
    lemma_ints_le(frame_classes(frames));
    lemma_ints_le(frame_methods(frames));
    lemma_ints_le(frame_pcs(frames));
    lemma_filled_shape(m, int_array_class, AllocationType::Int, n, ints_le(frame_classes(frames)));
    lemma_filled_shape(m1, int_array_class, AllocationType::Int, n, ints_le(frame_methods(frames)));
    lemma_filled_shape(m2, int_array_class, AllocationType::Int, n, ints_le(frame_pcs(frames)));
    assert(refs_le(refs).len() == 24) by {
        reveal_with_fuel(refs_le, 4);
    }
    lemma_filled_shape(m3, object_class, AllocationType::Reference, 3, refs_le(refs));
    assert forall|k: int| 0 <= k < m3.len() implies m4[k] == m3[k] by {
        assert(m4[k] == m4.subrange(0, b)[k]);
    }
    assert forall|k: int| 0 <= k < m2.len() implies m3[k] == m2[k] by {
        assert(m3[k] == m3.subrange(0, a2)[k]);
    }
    assert forall|k: int| 0 <= k < m1.len() implies m2[k] == m1[k] by {
        assert(m2[k] == m2.subrange(0, a1)[k]);
    }
    if m4.len() <= usize::MAX {
        assert forall|c: int| 0 <= c < 3 implies array_element_value(m4, b, c as i32) == Some(
            Value::Ref(#[trigger] refs[c]),
        ) by {
            lemma_backtrace_value(m3, object_class, a0 as usize, a1 as usize, a2 as usize, c);
        }
    }
    assert forall|i: int| 0 <= i < frames.len() implies array_element_value(m1, a0, i as i32) == Some(
        Value::Integer(#[trigger] frames[i].class_id),
    ) by {
        lemma_column_value(m, int_array_class, frame_classes(frames), i);
    }
    assert forall|i: int| 0 <= i < frames.len() implies array_element_value(m2, a1, i as i32) == Some(
        Value::Integer(#[trigger] frames[i].method_id),
    ) by {
        lemma_column_value(m1, int_array_class, frame_methods(frames), i);
    }
    assert forall|i: int| 0 <= i < frames.len() implies array_element_value(m3, a2, i as i32) == Some(
        Value::Integer(#[trigger] frames[i].pc),
    ) by {
        lemma_column_value(m2, int_array_class, frame_pcs(frames), i);
    }
}

/// The frames read back from a backtrace built on `m` as `fillInStackTrace`
/// builds it, in any memory `mf` that agrees with it from `m`'s end on.
#[verifier::spinoff_prover]
proof fn lemma_entries_read_back(
    m: Seq<u8>,
    frames: Seq<BacktraceFrame>,
    int_array_class: ClassId,
    object_class: ClassId,
    mf: Seq<u8>,
)
    requires
        m.len() >= OBJECT_HEADER_SIZE,
        frames.len() <= i32::MAX,
        ({
            let n = frames.len() as i32;
            let m1 = filled_array_image(m, int_array_class, AllocationType::Int, n, ints_le(frame_classes(frames)));
            let m2 = filled_array_image(m1, int_array_class, AllocationType::Int, n, ints_le(frame_methods(frames)));
            let m3 = filled_array_image(m2, int_array_class, AllocationType::Int, n, ints_le(frame_pcs(frames)));
            let refs = seq![m.len() as usize, m1.len() as usize, m2.len() as usize];
            let m4 = filled_array_image(m3, object_class, AllocationType::Reference, 3, refs_le(refs));
            &&& m4.len() <= usize::MAX
            &&& mf.len() >= m4.len()
            &&& forall|k: int| m.len() <= k < m4.len() ==> mf[k] == m4[k]
        }),
    ensures
        ({
            let n = frames.len() as i32;
            let m1 = filled_array_image(m, int_array_class, AllocationType::Int, n, ints_le(frame_classes(frames)));
            let m2 = filled_array_image(m1, int_array_class, AllocationType::Int, n, ints_le(frame_methods(frames)));
            let m3 = filled_array_image(m2, int_array_class, AllocationType::Int, n, ints_le(frame_pcs(frames)));
            forall|i: int|
                0 <= i < frames.len() ==> backtrace_entry_post(mf, m3.len() as usize, i as i32, Ok(#[trigger] frames[i]))
        }),
{
    let n = frames.len() as i32;
    let a0 = m.len() as int;
    let m1 = filled_array_image(m, int_array_class, AllocationType::Int, n, ints_le(frame_classes(frames)));
    let a1 = m1.len() as int;
    let m2 = filled_array_image(m1, int_array_class, AllocationType::Int, n, ints_le(frame_methods(frames)));
    let a2 = m2.len() as int;
    let m3 = filled_array_image(m2, int_array_class, AllocationType::Int, n, ints_le(frame_pcs(frames)));
    let b = m3.len() as int;
    let refs = seq![a0 as usize, a1 as usize, a2 as usize];
    let m4 = filled_array_image(m3, object_class, AllocationType::Reference, 3, refs_le(refs));
    lemma_backtrace_images(m, frames, int_array_class, object_class);
    assert forall|k: int| a0 <= k < m3.len() implies mf[k] == m3[k] by {
        assert(mf[k] == m4[k]);
    }
    assert forall|k: int| a0 <= k < m2.len() implies mf[k] == m2[k] by {
        assert(mf[k] == m3[k]);
    }
    assert forall|k: int| a0 <= k < m1.len() implies mf[k] == m1[k] by {
        assert(mf[k] == m2[k]);
    }
    assert(refs[0] == a0 as usize && refs[1] == a1 as usize && refs[2] == a2 as usize);
    assert(array_element_value(m4, b, 0) == Some(Value::Ref(refs[0])));
    assert(array_element_value(m4, b, 1) == Some(Value::Ref(refs[1])));
    assert(array_element_value(m4, b, 2) == Some(Value::Ref(refs[2])));
    lemma_kept_from(m4, mf, a0, b, 0);
    lemma_kept_from(m4, mf, a0, b, 1);
    lemma_kept_from(m4, mf, a0, b, 2);
    assert forall|i: int| 0 <= i < frames.len() implies backtrace_entry_post(
        mf,
        b as usize,
        i as i32,
        Ok(#[trigger] frames[i]),
    ) by {
        let f = frames[i];
        assert(array_element_value(m1, a0, i as i32) == Some(Value::Integer(frames[i].class_id)));
        assert(array_element_value(m2, a1, i as i32) == Some(Value::Integer(frames[i].method_id)));
        assert(array_element_value(m3, a2, i as i32) == Some(Value::Integer(frames[i].pc)));
        lemma_kept_from(m1, mf, a0, a0, i as i32);
        lemma_kept_from(m2, mf, a0, a1, i as i32);
        lemma_kept_from(m3, mf, a0, a2, i as i32);
        lemma_column_read(mf, b as usize, 0, a0 as usize, i as i32, f.class_id);
        lemma_column_read(mf, b as usize, 1, a1 as usize, i as i32, f.method_id);
        lemma_column_read(mf, b as usize, 2, a2 as usize, i as i32, f.pc);
    }
}

/// Writing the backtrace reference `b` at `p` and then the depth `n` at `q`,
/// two slots before `lo` and apart, leaves each slot holding its value and
/// the memory from `lo` on as it was.
proof fn lemma_fields_written(m4: Seq<u8>, lo: int, p: int, q: int, b: usize, n: i32, mf: Seq<u8>)
    requires
        0 <= p,
        0 <= q,
        p + 8 <= lo,
        q + 4 <= lo,
        lo <= m4.len(),
        q + 4 <= p || p + 8 <= q,
        b != 0,
        mf == splice(splice(m4, p, u64_bytes(b as u64)), q, u32_bytes(n as u32)),
    ensures
        mf.len() == m4.len(),
        decode_field(mf, p, AllocationType::Reference) == Value::Ref(b),
        decode_field(mf, q, AllocationType::Int) == Value::Integer(n),
        forall|k: int| lo <= k < m4.len() ==> mf[k] == m4[k],
{
    let m5 = splice(m4, p, u64_bytes(b as u64));
    lemma_decode_encode(m4, p, Value::Ref(b), AllocationType::Reference);
    lemma_decode_encode(m5, q, Value::Integer(n), AllocationType::Int);
    assert forall|k: int| p <= k < p + 8 implies mf[k] == m5[k] by {
        if k < q {
            assert(mf[k] == m5.subrange(0, q)[k]);
        } else {
            assert(mf[k] == m5.subrange(q + 4, m5.len() as int)[k - q - 4]);
        }
    }
    lemma_decode_local(m5, mf, p, AllocationType::Reference);
    assert forall|k: int| lo <= k < m4.len() implies mf[k] == m4[k] by {
        assert(mf[k] == m5.subrange(q + 4, m5.len() as int)[k - q - 4]);
        assert(m5[k] == m4.subrange(p + 8, m4.len() as int)[k - p - 8]);
    }
}

/// After `Throwable.fillInStackTrace` succeeds, with the throwable's
/// backtrace and depth fields in memory that was there before and apart
/// from each other, the depth field holds the number of frames and the
/// backtrace field an array from which `read_backtrace_entry` reads every
/// frame back as it was recorded.
#[verifier::spinoff_prover]
pub proof fn law_backtrace_read_after_fill(
    m: Seq<u8>,
    cap: nat,
    throwable: HeapRef,
    frames: Seq<BacktraceFrame>,
    int_array_class: ClassId,
    object_class: ClassId,
    backtrace_offset: int,
    depth_offset: int,
    mf: Seq<u8>,
    r: Result<Option<Value>, JvmError>,
)
    requires
        fill_in_stack_trace_post(
            m,
            cap,
            throwable,
            frames,
            int_array_class,
            object_class,
            backtrace_offset,
            depth_offset,
            mf,
            r,
        ),
        r is Ok,
        cap <= usize::MAX,
        frames.len() <= i32::MAX,
        0 <= backtrace_offset,
        0 <= depth_offset,
        data_start(throwable as int) + backtrace_offset + 8 <= m.len(),
        data_start(throwable as int) + depth_offset + 4 <= m.len(),
        depth_offset + 4 <= backtrace_offset || backtrace_offset + 8 <= depth_offset,
    ensures
        read_field_post(
            mf,
            throwable as int,
            depth_offset,
            AllocationType::Int,
            Ok(Value::Integer(frames.len() as i32)),
        ),
        exists|b: HeapRef|
            {
                &&& read_field_post(
                    mf,
                    throwable as int,
                    backtrace_offset,
                    AllocationType::Reference,
                    Ok(Value::Ref(b)),
                )
                &&& forall|i: int|
                    0 <= i < frames.len() ==> backtrace_entry_post(mf, b, i as i32, Ok(#[trigger] frames[i]))
            },
{
    let n = frames.len() as i32;
    let a0 = m.len() as int;
    let m1 = filled_array_image(m, int_array_class, AllocationType::Int, n, ints_le(frame_classes(frames)));
    let m2 = filled_array_image(m1, int_array_class, AllocationType::Int, n, ints_le(frame_methods(frames)));
    let m3 = filled_array_image(m2, int_array_class, AllocationType::Int, n, ints_le(frame_pcs(frames)));
    let b = m3.len() as int;
    let refs = seq![a0 as usize, m1.len() as usize, m2.len() as usize];
    let m4 = filled_array_image(m3, object_class, AllocationType::Reference, 3, refs_le(refs));
    let p = data_start(throwable as int) + backtrace_offset;
    let q = data_start(throwable as int) + depth_offset;
    lemma_backtrace_images(m, frames, int_array_class, object_class);
    assert(mf == splice(splice(m4, p, u64_bytes(b as u64)), q, u32_bytes(n as u32)));
    lemma_fields_written(m4, a0, p, q, b as usize, n, mf);
    lemma_entries_read_back(m, frames, int_array_class, object_class, mf);
    assert(read_field_post(
        mf,
        throwable as int,
        backtrace_offset,
        AllocationType::Reference,
        Ok(Value::Ref(b as usize)),
    ));
}

/// Where the fields of a `java.lang.StackTraceElement` lie.
#[derive(Clone, Copy, Debug, PartialEq, Eq, Structural)]
pub struct StackTraceFieldOffsets {
    pub declaring_class_name: usize,
    pub method_name: usize,
    pub file_name: usize,
    pub line_number: usize,
    pub declaring_class: usize,
}

/// Sets the fields of the stack trace element `element`: the name of the
/// declaring class, the method name and the source file name (strings), the
/// line number, and the declaring class's mirror; in that order, stopping at
/// the first write that fails.
pub fn write_stack_trace_element(
    heap: &mut Heap,
    element: HeapRef,
    offsets: StackTraceFieldOffsets,
    class_name: HeapRef,
    method_name: HeapRef,
    source: HeapRef,
    line_number: i32,
    declaring_class: HeapRef,
) -> (r: Result<(), JvmError>)
    requires
        old(heap).wf(),
    ensures
        final(heap).wf(),
        final(heap).same_setup(old(heap)),
        final(heap).string_pool() == old(heap).string_pool(),
        element_writes_post(
            old(heap)@,
            element as int,
            seq![
                (offsets.declaring_class_name as int, Value::Ref(class_name), AllocationType::Reference),
                (offsets.method_name as int, Value::Ref(method_name), AllocationType::Reference),
                (offsets.file_name as int, Value::Ref(source), AllocationType::Reference),
                (offsets.line_number as int, Value::Integer(line_number), AllocationType::Int),
                (offsets.declaring_class as int, Value::Ref(declaring_class), AllocationType::Reference),
            ],
            final(heap)@,
            r,
        ),
{
    let ghost ws = seq![
        (offsets.declaring_class_name as int, Value::Ref(class_name), AllocationType::Reference),
        (offsets.method_name as int, Value::Ref(method_name), AllocationType::Reference),
        (offsets.file_name as int, Value::Ref(source), AllocationType::Reference),
        (offsets.line_number as int, Value::Integer(line_number), AllocationType::Int),
        (offsets.declaring_class as int, Value::Ref(declaring_class), AllocationType::Reference),
    ];
    proof {
        reveal_with_fuel(element_writes_post, 6);
        assert(ws.drop_first() =~= seq![ws[1], ws[2], ws[3], ws[4]]);
        assert(ws.drop_first().drop_first() =~= seq![ws[2], ws[3], ws[4]]);
        assert(ws.drop_first().drop_first().drop_first() =~= seq![ws[3], ws[4]]);
        assert(ws.drop_first().drop_first().drop_first().drop_first() =~= seq![ws[4]]);
        assert(ws.drop_first().drop_first().drop_first().drop_first().drop_first() =~= Seq::<
            (int, Value, AllocationType),
        >::empty());
    }
    let ghost m0 = heap@;
    heap.write_field(element, offsets.declaring_class_name, Value::Ref(class_name), AllocationType::Reference)?;
    let ghost m1 = heap@;
    heap.write_field(element, offsets.method_name, Value::Ref(method_name), AllocationType::Reference)?;
    let ghost m2 = heap@;
    heap.write_field(element, offsets.file_name, Value::Ref(source), AllocationType::Reference)?;
    let ghost m3 = heap@;
    heap.write_field(element, offsets.line_number, Value::Integer(line_number), AllocationType::Int)?;
    let ghost m4 = heap@;
    heap.write_field(element, offsets.declaring_class, Value::Ref(declaring_class), AllocationType::Reference)?;
    Ok(())
}

/// What writing the fields `writes` (offset, value, type) of the object at
/// `h` one after another does to memory `m`, giving `mf` and `r`: each
/// write as `write_field` does it, the first failing one ending the run.
pub open spec fn element_writes_post(
    m: Seq<u8>,
    h: int,
    writes: Seq<(int, Value, AllocationType)>,
    mf: Seq<u8>,
    r: Result<(), JvmError>,
) -> bool
    decreases writes.len(),
{
    if writes.len() == 0 {
        mf == m && r is Ok
    } else {
        let w = writes[0];
        match encode_field(w.1, w.2) {
            None => mf == m && r is Err,
            Some(b) => if data_start(h) + w.0 + b.len() <= m.len() {
                element_writes_post(splice(m, data_start(h) + w.0, b), h, writes.drop_first(), mf, r)
            } else {
                mf == m && r == Err::<(), JvmError>(JvmError::WrongHeapAddress(h as usize))
            },
        }
    }
}

/// What the method area gives for one stack trace element: the symbols of
/// the declaring class's name, of the method's name and of the source file
/// (none when the class names none), the line number, the declaring class's
/// mirror, and where the fields of the element lie.
#[derive(Clone, Copy, Debug, PartialEq, Eq, Structural)]
pub struct StackTraceElementInfo {
    pub class_name: Symbol,
    pub method_name: Symbol,
    pub source_file: Option<Symbol>,
    pub line_number: i32,
    pub declaring_class: HeapRef,
    pub offsets: StackTraceFieldOffsets,
}

/// The texts of the three strings of a stack trace element: the declaring
/// class's name with `/` turned into `.`, the method's name, and the source
/// file's name or "TODO: Unknown Source".
pub open spec fn element_texts(i: lasso::ThreadedRodeo, info: StackTraceElementInfo) -> Seq<Seq<char>> {
    seq![
        mapped_chars(interned_strings(i)[info.class_name], Some(('/', '.'))),
        interned_strings(i)[info.method_name],
        match info.source_file {
            Some(f) => interned_strings(i)[f],
            None => "TODO: Unknown Source"@,
        },
    ]
}

/// The writes that fill a stack trace element.
pub open spec fn element_writes(
    info: StackTraceElementInfo,
    class_name: HeapRef,
    method_name: HeapRef,
    source: HeapRef,
) -> Seq<(int, Value, AllocationType)> {
    seq![
        (info.offsets.declaring_class_name as int, Value::Ref(class_name), AllocationType::Reference),
        (info.offsets.method_name as int, Value::Ref(method_name), AllocationType::Reference),
        (info.offsets.file_name as int, Value::Ref(source), AllocationType::Reference),
        (info.offsets.line_number as int, Value::Integer(info.line_number), AllocationType::Int),
        (info.offsets.declaring_class as int, Value::Ref(info.declaring_class), AllocationType::Reference),
    ]
}

/// What filling element `index` of the array `elements` does to memory `m`
/// once its strings are allocated, giving `mf` and `r`: the element is read
/// from the array, then written as `write_stack_trace_element` does.
pub open spec fn element_fill_result(
    m: Seq<u8>,
    elements: HeapRef,
    index: i32,
    writes: Seq<(int, Value, AllocationType)>,
    mf: Seq<u8>,
    r: Result<(), JvmError>,
) -> bool {
    exists|read: Result<Value, JvmError>|
        #[trigger] array_read_post(m, elements as int, index, read) && match read {
            Err(e) => mf == m && r == Err::<(), JvmError>(e),
            Ok(Value::Ref(element)) => element_writes_post(m, element as int, writes, mf, r),
            Ok(Value::Null) => mf == m && r == Err::<(), JvmError>(
                java_exception(JavaExceptionKind::NullPointerException),
            ),
            Ok(_) => mf == m && (r matches Err(JvmError::Todo(s)) && s@
                == "Value::as_obj_ref called on non-reference value"@),
        }
}

/// What `StackTraceElement.initStackTraceElements` does for element `index`
/// of the array `elements` on the heap `h`, giving memory `mf` and `r`: the
/// three strings of `element_texts` are allocated in order, the first that
/// does not fit ending the run, then the element is filled.
pub open spec fn stack_trace_element_result(
    h: Heap,
    elements: HeapRef,
    index: i32,
    info: StackTraceElementInfo,
    mf: Seq<u8>,
    r: Result<(), JvmError>,
) -> bool {
    let t = element_texts(h.interner(), info);
    let (m1, o1) = string_alloc_at(h, h@, t[0]);
    match o1 {
        None => mf == m1 && (r matches Err(e) && string_alloc_error(h, h@, t[0], e)),
        Some(class_name) => {
            let (m2, o2) = string_alloc_at(h, m1, t[1]);
            match o2 {
                None => mf == m2 && (r matches Err(e) && string_alloc_error(h, m1, t[1], e)),
                Some(method_name) => {
                    let (m3, o3) = string_alloc_at(h, m2, t[2]);
                    match o3 {
                        None => mf == m3 && (r matches Err(e) && string_alloc_error(h, m2, t[2], e)),
                        Some(source) => element_fill_result(
                            m3,
                            elements,
                            index,
                            element_writes(info, class_name, method_name, source),
                            mf,
                            r,
                        ),
                    }
                },
            }
        },
    }
}

/// Reads element `index` of the array `elements` and fills its fields with
/// the strings `class_name`, `method_name` and `source` and the rest of `info`.
fn fill_stack_trace_element(
    heap: &mut Heap,
    elements: HeapRef,
    index: i32,
    info: &StackTraceElementInfo,
    class_name: HeapRef,
    method_name: HeapRef,
    source: HeapRef,
) -> (r: Result<(), JvmError>)
    requires
        old(heap).wf(),
    ensures
        final(heap).wf(),
        final(heap).same_setup(old(heap)),
        final(heap).string_pool() == old(heap).string_pool(),
        element_fill_result(
            old(heap)@,
            elements,
            index,
            element_writes(*info, class_name, method_name, source),
            final(heap)@,
            r,
        ),
{
    let ghost m3 = heap@;
    let read = heap.read_array_element(elements, index);
    proof {
        assert(array_read_post(m3, elements as int, index, read));
    }
    let element = match read {
        Ok(v) => match v.as_obj_ref() {
            Ok(x) => x,
            Err(e) => return Err(e),
        },
        Err(e) => return Err(e),
    };
    let r = write_stack_trace_element(
        heap,
        element,
        info.offsets,
        class_name,
        method_name,
        source,
        info.line_number,
        info.declaring_class,
    );
    proof {
        assert(element_writes(*info, class_name, method_name, source) == seq![
            (info.offsets.declaring_class_name as int, Value::Ref(class_name), AllocationType::Reference),
            (info.offsets.method_name as int, Value::Ref(method_name), AllocationType::Reference),
            (info.offsets.file_name as int, Value::Ref(source), AllocationType::Reference),
            (info.offsets.line_number as int, Value::Integer(info.line_number), AllocationType::Int),
            (info.offsets.declaring_class as int, Value::Ref(info.declaring_class), AllocationType::Reference),
        ]);
    }
    r
}

/// The error of an unknown symbol is not that of a full heap.
proof fn lemma_unknown_symbol_is_no_heap_full()
    ensures
        "Unknown string symbol"@ != "Heap full"@,
{
    reveal_strlit("Unknown string symbol");
    reveal_strlit("Heap full");
    assert("Unknown string symbol"@.len() != "Heap full"@.len());
}

/// `StackTraceElement.initStackTraceElements` for element `index` of the
/// array `elements`: allocates the names of the declaring class (with `/`
/// turned into `.`), of the method and of the source file, reads the
/// element and fills its fields. Interning the stand-in source name of a
/// class that names none may run out of memory, before anything else.
#[verifier::rlimit(100)]
pub fn init_stack_trace_element(
    heap: &mut Heap,
    elements: HeapRef,
    index: i32,
    info: &StackTraceElementInfo,
) -> (r: Result<(), JvmError>)
    requires
        old(heap).wf(),
        old(heap).string_size() >= 9,
    ensures
        final(heap).wf(),
        final(heap).same_setup(old(heap)),
        final(heap).string_pool() == old(heap).string_pool(),
        element_init_result(*old(heap), elements, index, *info, final(heap)@, r),
{
    let ghost h0 = *heap;
    let ghost t = element_texts(h0.interner(), *info);
    let source_sym = match info.source_file {
        Some(f) => f,
        None => match intern(heap.string_interner(), "TODO: Unknown Source") {
            Some(k) => k,
            None => return Err(JvmError::OutOfMemory),
        },
    };
    assert(interned_strings(h0.interner())[source_sym] == t[2]);
    let class_name = heap.alloc_string_from_interned_with_char_mapping(info.class_name, Some(('/', '.')));
    proof {
        if !unknown_symbol(class_name) {
            lemma_string_alloc_at(h0, h0, *heap, t[0], class_name);
        } else {
            lemma_unknown_symbol_is_no_heap_full();
            assert(heap@ == h0@);
            assert(unresolved_at_some_string(h0, *info, heap@));
        }
    }
    let class_name = match class_name {
        Ok(x) => x,
        Err(e) => return Err(e),
    };
    let ghost h1 = *heap;
    let method_name = heap.alloc_string_from_interned(info.method_name);
    proof {
        if !unknown_symbol(method_name) {
            lemma_string_alloc_at(h0, h1, *heap, t[1], method_name);
        } else {
            lemma_unknown_symbol_is_no_heap_full();
            assert(heap@ == h1@);
            assert(unresolved_at_some_string(h0, *info, heap@));
        }
    }
    let method_name = match method_name {
        Ok(x) => x,
        Err(e) => return Err(e),
    };
    let ghost h2 = *heap;
    let source = heap.alloc_string_from_interned(source_sym);
    proof {
        if !unknown_symbol(source) {
            lemma_string_alloc_at(h0, h2, *heap, t[2], source);
        } else {
            lemma_unknown_symbol_is_no_heap_full();
            assert(heap@ == h2@);
            assert(unresolved_at_some_string(h0, *info, heap@));
        }
    }
    let source = match source {
        Ok(x) => x,
        Err(e) => return Err(e),
    };
    let r = fill_stack_trace_element(heap, elements, index, info, class_name, method_name, source);
    r
}

/// What `init_stack_trace_element` may do for element `index` with `info`
/// on the heap `h`, giving memory `mf` and `r`.
pub open spec fn element_init_result(
    h: Heap,
    elements: HeapRef,
    index: i32,
    info: StackTraceElementInfo,
    mf: Seq<u8>,
    r: Result<(), JvmError>,
) -> bool {
    ||| info.source_file is None && r == Err::<(), JvmError>(JvmError::OutOfMemory) && mf == h@
    ||| todo_error(r, "Unknown string symbol"@) && unresolved_at_some_string(h, info, mf)
    ||| stack_trace_element_result(h, elements, index, info, mf, r)
}

/// Whether `mf` is the memory of `h` after allocating the first `n` strings
/// of the element (`n` below 3), each allocation succeeding: what is left
/// when the symbol of string `n` cannot be resolved.
pub open spec fn unresolved_at_some_string(h: Heap, info: StackTraceElementInfo, mf: Seq<u8>) -> bool {
    let t = element_texts(h.interner(), info);
    let (m1, o1) = string_alloc_at(h, h@, t[0]);
    let (m2, o2) = string_alloc_at(h, m1, t[1]);
    ||| mf == h@
    ||| o1 is Some && mf == m1
    ||| o1 is Some && o2 is Some && mf == m2
}

/// The element of a frame of a backtrace, as the method area describes it:
/// `classes`, `mirrors` and `methods` by id, with the fields of the element
/// at `offsets`. `None` when the frame names a class or method that is not
/// there. The line is the method's line of the frame's pc, or -1.
pub open spec fn frame_element_info(
    classes: Seq<BaseClass>,
    mirrors: Seq<HeapRef>,
    methods: Seq<Method>,
    f: BacktraceFrame,
    offsets: StackTraceFieldOffsets,
) -> Option<StackTraceElementInfo> {
    if 0 <= f.class_id < classes.len() && f.class_id < mirrors.len() && 0 <= f.method_id < methods.len() {
        let c = classes[f.class_id as int]@;
        let m = methods[f.method_id as int];
        Some(
            StackTraceElementInfo {
                class_name: c.name,
                method_name: m.spec_name(),
                source_file: c.source_file,
                line_number: match line_number_by_cp(m, f.pc) {
                    Some(l) => l,
                    None => -1i32,
                },
                declaring_class: mirrors[f.class_id as int],
                offsets,
            },
        )
    } else {
        None
    }
}

/// The error of a frame that names a class or method that is not there.
pub open spec fn unknown_frame_error(r: Result<(), JvmError>) -> bool {
    todo_error(r, "Unknown class or method in backtrace"@)
}

/// One step of `StackTraceElement.initStackTraceElements`: element `index`
/// of `elements` is filled from frame `index` of the backtrace `backtrace`,
/// taking the heap `h0` to `h1` with the result `r`.
pub open spec fn element_step(
    h0: Heap,
    elements: HeapRef,
    backtrace: HeapRef,
    index: i32,
    classes: Seq<BaseClass>,
    mirrors: Seq<HeapRef>,
    methods: Seq<Method>,
    offsets: StackTraceFieldOffsets,
    h1: Heap,
    r: Result<(), JvmError>,
) -> bool {
    &&& h1.wf()
    &&& h1.same_setup(&h0)
    &&& h1.string_pool() == h0.string_pool()
    &&& exists|read: Result<BacktraceFrame, JvmError>|
        #[trigger] backtrace_entry_post(h0@, backtrace, index, read) && match read {
            Err(e) => h1@ == h0@ && r == Err::<(), JvmError>(e),
            Ok(f) => match frame_element_info(classes, mirrors, methods, f, offsets) {
                None => h1@ == h0@ && unknown_frame_error(r),
                Some(info) => element_init_result(h0, elements, index, info, h1@, r),
            },
        }
}

/// A run of `StackTraceElement.initStackTraceElements` over `depth` frames
/// through the heaps `hs` (the first the heap before): each step succeeds
/// until the last heap, which is the final heap `hf` when every step
/// succeeded; otherwise the step after the last heap fails, giving `hf`
/// and `r`.
pub open spec fn elements_run(
    hs: Seq<Heap>,
    elements: HeapRef,
    backtrace: HeapRef,
    depth: i32,
    classes: Seq<BaseClass>,
    mirrors: Seq<HeapRef>,
    methods: Seq<Method>,
    offsets: StackTraceFieldOffsets,
    hf: Heap,
    r: Result<(), JvmError>,
) -> bool {
    let k = hs.len() - 1;
    &&& 0 <= k <= depth
    &&& forall|j: int|
        0 <= j < k ==> element_step(
            #[trigger] hs[j],
            elements,
            backtrace,
            j as i32,
            classes,
            mirrors,
            methods,
            offsets,
            hs[j + 1],
            Ok(()),
        )
    &&& if r is Ok {
        k == depth && hf == hs[k]
    } else {
        k < depth && element_step(hs[k], elements, backtrace, k as i32, classes, mirrors, methods, offsets, hf, r)
    }
}

/// The element of backtrace frame `f`, looked up in the method area's
/// `classes`, `mirrors` and `methods`.
fn frame_element(
    classes: &Vec<BaseClass>,
    mirrors: &Vec<HeapRef>,
    methods: &Vec<Method>,
    f: BacktraceFrame,
    offsets: StackTraceFieldOffsets,
) -> (r: Result<StackTraceElementInfo, JvmError>)
    ensures
        match frame_element_info(classes@, mirrors@, methods@, f, offsets) {
            Some(info) => r == Ok::<StackTraceElementInfo, JvmError>(info),
            None => unknown_frame_error(unit_result(r)),
        },
{
    if f.class_id < 0 || f.class_id as usize >= classes.len() || f.class_id as usize >= mirrors.len()
        || f.method_id < 0 || f.method_id as usize >= methods.len() {
        return Err(JvmError::Todo("Unknown class or method in backtrace".to_string()));
    }
    let c = &classes[f.class_id as usize];
    let m = &methods[f.method_id as usize];
    let line_number = match m.get_line_number_by_cp(f.pc) {
        Some(l) => l,
        None => -1,
    };
    Ok(
        StackTraceElementInfo {
            class_name: c.name(),
            method_name: m.name(),
            source_file: c.get_source_file(),
            line_number,
            declaring_class: mirrors[f.class_id as usize],
            offsets,
        },
    )
}

/// `r` without the value of its success.
pub open spec fn unit_result<T>(r: Result<T, JvmError>) -> Result<(), JvmError> {
    match r {
        Ok(_) => Ok(()),
        Err(e) => Err(e),
    }
}

/// `StackTraceElement.initStackTraceElements(elements, backtrace, depth)`:
/// for each of the first `depth` frames of the backtrace that
/// `fillInStackTrace` made, in order, reads the frame's class id, method id
/// and pc, looks them up in the method area (`classes`, `mirrors` and
/// `methods` by id) and fills the matching element of `elements`, whose
/// fields lie at `offsets`; the first failure ends the run.
#[verifier::rlimit(50)]
pub fn java_lang_stack_trace_element_init_stack_trace_elements(
    heap: &mut Heap,
    args: &[Value],
    classes: &Vec<BaseClass>,
    mirrors: &Vec<HeapRef>,
    methods: &Vec<Method>,
    offsets: StackTraceFieldOffsets,
) -> (r: Result<Option<Value>, JvmError>)
    requires
        old(heap).wf(),
        old(heap).string_size() >= 9,
        args@.len() >= 3,
        args@[0] is Ref,
        args@[1] is Ref,
        args@[2] matches Value::Integer(d) && d >= 0,
    ensures
        r is Ok ==> r == Ok::<Option<Value>, JvmError>(None),
        exists|hs: Seq<Heap>|
            #[trigger] elements_run(
                hs,
                args@[0]->Ref_0,
                args@[1]->Ref_0,
                args@[2]->Integer_0,
                classes@,
                mirrors@,
                methods@,
                offsets,
                *final(heap),
                unit_result(r),
            ) && hs[0] == *old(heap),
{
    let (elements, backtrace, depth) = match (args[0], args[1], args[2]) {
        (Value::Ref(e), Value::Ref(b), Value::Integer(d)) => (e, b, d),
        _ => (0, 0, 0),
    };
    let ghost mut hs: Seq<Heap> = seq![*heap];
    let mut i: i32 = 0;
    while i < depth
        invariant
            0 <= i <= depth,
            hs.len() == i + 1,
            hs[0] == *old(heap),
            hs[i as int] == *heap,
            heap.wf(),
            heap.string_size() >= 9,
            args@.len() >= 3,
            elements == args@[0]->Ref_0,
            backtrace == args@[1]->Ref_0,
            depth == args@[2]->Integer_0,
            forall|j: int|
                0 <= j < i ==> element_step(
                    #[trigger] hs[j],
                    elements,
                    backtrace,
                    j as i32,
                    classes@,
                    mirrors@,
                    methods@,
                    offsets,
                    hs[j + 1],
                    Ok(()),
                ),
        decreases depth - i,
    {
        let ghost h0 = *heap;
        let read = read_backtrace_entry(heap, backtrace, i);
        let f = match read {
            Ok(f) => f,
            Err(e) => {
                assert(element_step(h0, elements, backtrace, i, classes@, mirrors@, methods@, offsets, *heap, Err(e)));
                assert(elements_run(hs, elements, backtrace, depth, classes@, mirrors@, methods@, offsets, *heap, Err(e)));
                return Err(e);
            },
        };
        let info = match frame_element(classes, mirrors, methods, f, offsets) {
            Ok(info) => info,
            Err(e) => {
                assert(element_step(h0, elements, backtrace, i, classes@, mirrors@, methods@, offsets, *heap, Err(e)));
                assert(elements_run(hs, elements, backtrace, depth, classes@, mirrors@, methods@, offsets, *heap, Err(e)));
                return Err(e);
            },
        };
        let done = init_stack_trace_element(heap, elements, i, &info);
        assert(element_step(h0, elements, backtrace, i, classes@, mirrors@, methods@, offsets, *heap, done));
        let ghost h1 = *heap;
        if let Err(e) = done {
            assert(elements_run(hs, elements, backtrace, depth, classes@, mirrors@, methods@, offsets, *heap, Err(e)));
            return Err(e);
        }
        assert(done->Ok_0 == ());
        let ghost prev = hs;
        proof {
            hs = hs.push(*heap);
        }
        i = i + 1;
        assert forall|j: int| 0 <= j < i implies element_step(
            #[trigger] hs[j],
            elements,
            backtrace,
            j as i32,
            classes@,
            mirrors@,
            methods@,
            offsets,
            hs[j + 1],
            Ok(()),
        ) by {
            if j < i - 1 {
                assert(hs[j] == prev[j] && hs[j + 1] == prev[j + 1]);
            } else {
                assert(j as i32 == i - 1);
                assert(hs[j] == h0 && hs[j + 1] == h1);
            }
        }
    }
    assert(elements_run(hs, elements, backtrace, depth, classes@, mirrors@, methods@, offsets, *heap, Ok(())));
    Ok(None)
}

/// Whether `r` is the error of taking `v` as an object reference.
pub open spec fn not_obj_ref<T>(v: Value, r: Result<T, JvmError>) -> bool {
    if v is Null {
        r == Err::<T, JvmError>(java_exception(JavaExceptionKind::NullPointerException))
    } else {
        r matches Err(JvmError::Todo(s)) && s@ == "Value::as_obj_ref called on non-reference value"@
    }
}

/// Whether `r` is the error of taking `v` as an int.
pub open spec fn not_int<T>(r: Result<T, JvmError>) -> bool {
    r matches Err(JvmError::Todo(s)) && s@ == "Value::as_int called on non-integer value"@
}

/// Whether `e` raises `ArrayStoreException` for the object at `h` of memory
/// `m`, which is not an array: its message names the object's class by a
/// name that `class_name` may give, after `what` ("source" or
/// "destination").
pub open spec fn not_array_error<F: Fn(ClassId) -> String>(m: Seq<u8>, h: HeapRef, what: Seq<char>, class_name: F, e: JvmError) -> bool {
    exists|n: String|
        class_name.ensures((ClassId(header_at(m, h as int).class_id),), n) && #[trigger] raises_with_message(
            e,
            JavaExceptionKind::ArrayStoreException,
            "arraycopy: "@ + what + " type "@ + n@ + " is not an array"@,
        )
}

/// What `System.arraycopy` does to memory `m` with the arguments `args`
/// (source, source position, destination, destination position, length),
/// giving `mf` and `r`: arguments of the wrong kind and objects that are
/// not arrays are refused, a length of zero copies nothing, and otherwise
/// the elements are copied as `copy_primitive_slice` does.
pub open spec fn arraycopy_post<F: Fn(ClassId) -> String>(
    m: Seq<u8>,
    args: Seq<Value>,
    class_name: F,
    mf: Seq<u8>,
    r: Result<Option<Value>, JvmError>,
) -> bool {
    if !(args[0] is Ref) {
        mf == m && not_obj_ref(args[0], r)
    } else if !(args[1] is Integer) {
        mf == m && not_int(r)
    } else if !(args[2] is Ref) {
        mf == m && not_obj_ref(args[2], r)
    } else if !(args[3] is Integer) || !(args[4] is Integer) {
        mf == m && not_int(r)
    } else {
        let src = args[0]->Ref_0;
        let dest = args[2]->Ref_0;
        let length = args[4]->Integer_0;
        if !has_header(m, src as int) {
            mf == m && r == Err::<Option<Value>, JvmError>(JvmError::WrongHeapAddress(src))
        } else if !header_at(m, src as int).is_array {
            mf == m && (r matches Err(e) && not_array_error(m, src, "source"@, class_name, e))
        } else if !has_header(m, dest as int) {
            mf == m && r == Err::<Option<Value>, JvmError>(JvmError::WrongHeapAddress(dest))
        } else if !header_at(m, dest as int).is_array {
            mf == m && (r matches Err(e) && not_array_error(m, dest, "destination"@, class_name, e))
        } else if length == 0 {
            mf == m && r == Ok::<Option<Value>, JvmError>(None)
        } else {
            exists|copied: Result<(), JvmError>|
                #[trigger] array_copy_post(
                    m,
                    src as int,
                    args[1]->Integer_0,
                    dest as int,
                    args[3]->Integer_0,
                    length,
                    mf,
                    copied,
                ) && r == match copied {
                    Ok(()) => Ok::<Option<Value>, JvmError>(None),
                    Err(e) => Err(e),
                }
        }
    }
}

/// The `ArrayStoreException` for the object `h` of class `class_id`, which is
/// not an array; `what` says which argument it is.
fn not_array<F: Fn(ClassId) -> String>(heap: &Heap, h: HeapRef, class_id: ClassId, what: &str, class_name: &F) -> (e: JvmError)
    requires
        forall|c: ClassId| class_name.requires((c,)),
        has_header(heap@, h as int),
        class_id == ClassId(header_at(heap@, h as int).class_id),
    ensures
        not_array_error(heap@, h, what@, *class_name, e),
{
    let n = class_name(class_id);
    let mut s = String::new();
    push_str(&mut s, "arraycopy: ");
    push_str(&mut s, what);
    push_str(&mut s, " type ");
    push_str(&mut s, n.as_str());
    push_str(&mut s, " is not an array");
    let e = JvmError::JavaException(JavaExceptionFromJvm::with_message(JavaExceptionKind::ArrayStoreException, s));
    proof {
        reveal_strlit("arraycopy: ");
        reveal_strlit(" type ");
        reveal_strlit(" is not an array");
        assert(raises_with_message(
            e,
            JavaExceptionKind::ArrayStoreException,
            "arraycopy: "@ + what@ + " type "@ + n@ + " is not an array"@,
        ));
    }
    e
}

/// `System.arraycopy`: copies `args[4]` elements of the array `args[0]`
/// from `args[1]` on to the array `args[2]` from `args[3]` on. An object
/// that is not an array raises `ArrayStoreException`, naming its class by
/// `class_name`.
pub fn java_lang_system_arraycopy<F: Fn(ClassId) -> String>(heap: &mut Heap, args: &[Value], class_name: &F) -> (r: Result<
    Option<Value>,
    JvmError,
>)
    requires
        old(heap).wf(),
        args@.len() >= 5,
        forall|c: ClassId| class_name.requires((c,)),
    ensures
        final(heap).wf(),
        final(heap).same_setup(old(heap)),
        final(heap).string_pool() == old(heap).string_pool(),
        arraycopy_post(old(heap)@, args@, *class_name, final(heap)@, r),
{
    let src_addr = args[0].as_obj_ref()?;
    let src_pos = args[1].as_int()?;
    let dest_addr = args[2].as_obj_ref()?;
    let dest_pos = args[3].as_int()?;
    let length = args[4].as_int()?;
    let src_class_id = heap.get_class_id(src_addr)?;
    if !heap.is_array(src_addr)? {
        return Err(not_array(heap, src_addr, src_class_id, "source", class_name));
    }
    let dest_class_id = heap.get_class_id(dest_addr)?;
    if !heap.is_array(dest_addr)? {
        return Err(not_array(heap, dest_addr, dest_class_id, "destination", class_name));
    }
    if length == 0 {
        return Ok(None);
    }
    let ghost m0 = heap@;
    let copied = heap.copy_primitive_slice(src_addr, src_pos, dest_addr, dest_pos, length);
    proof {
        assert(array_copy_post(m0, src_addr as int, src_pos, dest_addr as int, dest_pos, length, heap@, copied));
    }
    match copied {
        Ok(()) => Ok(None),
        Err(e) => Err(e),
    }
}

/// What reading the path of the `java.io.File` object `args[1]` gives, its
/// `path` field lying at `path_offset` of memory `m`: the text of that
/// string.
pub open spec fn file_path_post(m: Seq<u8>, args: Seq<Value>, path_offset: int, r: Result<String, JvmError>) -> bool {
    match args[1] {
        Value::Ref(f) => if data_start(f as int) + path_offset + type_size(AllocationType::Reference) <= m.len() {
            match decode_field(m, data_start(f as int) + path_offset, AllocationType::Reference) {
                Value::Ref(p) => java_string_read(m, p as int, r),
                v => not_obj_ref(v, r),
            }
        } else {
            r == Err::<String, JvmError>(JvmError::WrongHeapAddress(f))
        },
        v => not_obj_ref(v, r),
    }
}

/// The path of the `java.io.File` object `args[1]`, whose `path` field lies
/// at `path_offset`.
pub fn file_path_of(heap: &Heap, args: &[Value], path_offset: usize) -> (r: Result<String, JvmError>)
    requires
        args@.len() >= 2,
    ensures
        file_path_post(heap@, args@, path_offset as int, r),
{
    let file_ref = args[1].as_obj_ref()?;
    let path_ref = heap.read_field(file_ref, path_offset, AllocationType::Reference)?.as_obj_ref()?;
    heap.get_rust_string_from_java_string(path_ref)
}

/// The name of the last component of the path `path`, as std's
/// `Path::file_name` gives it, when there is one.
pub uninterp spec fn file_name_of(path: Seq<char>) -> Option<Seq<char>>;

/// The last component of `path` (std's `Path::file_name`), as text; the
/// result is named `file_name_of`.
#[verifier::external_body]
fn path_file_name(path: &str) -> (r: Option<String>)
    ensures
        match r {
            Some(n) => file_name_of(path@) == Some(n@),
            None => file_name_of(path@) is None,
        },
{
    match std::path::Path::new(path).file_name() {
        Some(n) => Some(n.to_string_lossy().to_string()),
        None => None,
    }
}

/// The attribute bit of a file that exists.
pub const BA_EXISTS: i32 = 0x01;

/// The attribute bit of a regular file.
pub const BA_REGULAR: i32 = 0x02;

/// The attribute bit of a directory.
pub const BA_DIRECTORY: i32 = 0x04;

/// The attribute bit of a hidden file.
pub const BA_HIDDEN: i32 = 0x08;

/// Whether a file name marks a hidden file on Unix: it starts with `.`.
pub open spec fn hidden_name(name: Option<Seq<char>>) -> bool {
    name matches Some(n) && n.len() > 0 && n[0] == '.'
}

/// The attributes of a file: whether it exists, and then whether it is a
/// regular file and whether a directory (`metadata`), and whether its name
/// is hidden.
pub open spec fn attributes_of(metadata: Option<(bool, bool)>, hidden: bool) -> int {
    (match metadata {
        Some((file, dir)) => BA_EXISTS + (if file {
            BA_REGULAR as int
        } else {
            0
        }) + (if dir {
            BA_DIRECTORY as int
        } else {
            0
        }),
        None => 0,
    }) + (if hidden {
        BA_HIDDEN as int
    } else {
        0
    })
}

/// The bits of the attributes of a file: `BA_EXISTS` (1) exactly when it
/// exists, `BA_REGULAR` (2) exactly when it is a regular file, `BA_DIRECTORY`
/// (4) exactly when it is a directory, and `BA_HIDDEN` (8) exactly when its
/// name is hidden, whatever the file is or whether it exists.
pub proof fn law_attribute_bits(metadata: Option<(bool, bool)>, hidden: bool)
    ensures
        ({
            let a = attributes_of(metadata, hidden);
            &&& 0 <= a < 16
            &&& a % 2 == 1 <==> metadata is Some
            &&& (a / 2) % 2 == 1 <==> (metadata matches Some((true, _)))
            &&& (a / 4) % 2 == 1 <==> (metadata matches Some((_, true)))
            &&& (a / 8) % 2 == 1 <==> hidden
        }),
{
}

/// The result of `getBooleanAttributes0` has the hidden bit exactly when the
/// path's file name starts with `.`, and the existence bit exactly when the
/// file exists.
pub proof fn law_boolean_attributes_hidden(metadata: Option<(bool, bool)>, path: Seq<char>, r: i32)
    requires
        r == attributes_of(metadata, hidden_name(file_name_of(path))),
    ensures
        (r / 8) % 2 == 1 <==> (file_name_of(path) matches Some(n) && n.len() > 0 && n[0] == '.'),
        r % 2 == 1 <==> metadata is Some,
{
    law_attribute_bits(metadata, hidden_name(file_name_of(path)));
}

/// `UnixFileSystem.getBooleanAttributes0` once the file at `path` has been
/// looked at: `metadata` holds, when the file exists, whether it is a
/// regular file and whether a directory.
pub fn boolean_attributes(metadata: Option<(bool, bool)>, path: &str) -> (r: i32)
    ensures
        r == attributes_of(metadata, hidden_name(file_name_of(path@))),
{
    let mut attrs: i32 = 0;
    match metadata {
        Some((file, dir)) => {
            attrs = attrs + BA_EXISTS;
            if file {
                attrs = attrs + BA_REGULAR;
            }
            if dir {
                attrs = attrs + BA_DIRECTORY;
            }
        },
        None => {},
    }
    match path_file_name(path) {
        Some(name) => {
            let n = name.as_str();
            if n.unicode_len() > 0 && n.get_char(0) == '.' {
                attrs = attrs + BA_HIDDEN;
            }
        },
        None => {},
    }
    attrs
}

} // verus!
