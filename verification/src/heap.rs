//! The object heap: a growing byte memory holding object headers, instance
//! fields and array elements in little-endian layout.
use crate::error::{raises_with_message, HeapRef, JavaExceptionFromJvm, JavaExceptionKind, JvmError};
use crate::keys::{ClassId, Symbol};
use crate::text::{push_signed_decimal, push_str, signed_decimal};
use crate::value::Value;
use lasso::ThreadedRodeo;
use std::collections::HashMap;
use std::sync::Arc;
use vstd::prelude::*;

verus! {

/// Size in bytes of the header that precedes the data of every object.
pub const OBJECT_HEADER_SIZE: usize = 16;
/// Offset, in the data of an array, of its `i32` length.
pub const ARRAY_LENGTH_OFFSET: usize = 0;
/// Offset, in the data of an array, of the byte telling its element type.
pub const ARRAY_TYPE_OFFSET: usize = 4;
/// Offset, in the data of an array, of its first element.
pub const ARRAY_ELEMENTS_OFFSET: usize = 8;

/// How a field or an array element is laid out in the heap.
#[derive(Debug, Clone, Copy, PartialEq, Eq, Structural)]
pub enum AllocationType {
    Boolean,
    Byte,
    Short,
    Char,
    Int,
    Long,
    Float,
    Double,
    Reference,
}

/// The element type of a primitive array, as `newarray` names it.
#[derive(Debug, Clone, Copy, PartialEq, Eq, Structural)]
pub enum ArrayType {
    Boolean,
    Char,
    Float,
    Double,
    Byte,
    Short,
    Int,
    Long,
}

/// Number of bytes a value of type `t` takes in the heap.
pub open spec fn type_size(t: AllocationType) -> nat {
    match t {
        AllocationType::Boolean | AllocationType::Byte => 1,
        AllocationType::Short | AllocationType::Char => 2,
        AllocationType::Int | AllocationType::Float => 4,
        AllocationType::Long | AllocationType::Double | AllocationType::Reference => 8,
    }
}

/// The byte that tags an array with its element type.
pub open spec fn type_tag(t: AllocationType) -> u8 {
    match t {
        AllocationType::Boolean => 0,
        AllocationType::Byte => 1,
        AllocationType::Short => 2,
        AllocationType::Char => 3,
        AllocationType::Int => 4,
        AllocationType::Long => 5,
        AllocationType::Float => 6,
        AllocationType::Double => 7,
        AllocationType::Reference => 8,
    }
}

/// The element type that a tag byte names, if any.
pub open spec fn type_of_tag(b: u8) -> Option<AllocationType> {
    if b == 0 { Some(AllocationType::Boolean) }
    else if b == 1 { Some(AllocationType::Byte) }
    else if b == 2 { Some(AllocationType::Short) }
    else if b == 3 { Some(AllocationType::Char) }
    else if b == 4 { Some(AllocationType::Int) }
    else if b == 5 { Some(AllocationType::Long) }
    else if b == 6 { Some(AllocationType::Float) }
    else if b == 7 { Some(AllocationType::Double) }
    else if b == 8 { Some(AllocationType::Reference) }
    else { None }
}

/// The heap layout of the elements of a primitive array type.
pub open spec fn array_allocation_type(t: ArrayType) -> AllocationType {
    match t {
        ArrayType::Boolean => AllocationType::Boolean,
        ArrayType::Byte => AllocationType::Byte,
        ArrayType::Short => AllocationType::Short,
        ArrayType::Char => AllocationType::Char,
        ArrayType::Int => AllocationType::Int,
        ArrayType::Long => AllocationType::Long,
        ArrayType::Float => AllocationType::Float,
        ArrayType::Double => AllocationType::Double,
    }
}

impl AllocationType {
    /// Number of bytes a value of this type takes.
    pub fn byte_size(self) -> (r: usize)
        ensures
            r == type_size(self),
    {
        match self {
            AllocationType::Boolean | AllocationType::Byte => 1,
            AllocationType::Short | AllocationType::Char => 2,
            AllocationType::Int | AllocationType::Float => 4,
            AllocationType::Long | AllocationType::Double | AllocationType::Reference => 8,
        }
    }

    /// The tag byte stored in arrays of this element type.
    pub fn tag(self) -> (r: u8)
        ensures
            r == type_tag(self),
    {
        match self {
            AllocationType::Boolean => 0,
            AllocationType::Byte => 1,
            AllocationType::Short => 2,
            AllocationType::Char => 3,
            AllocationType::Int => 4,
            AllocationType::Long => 5,
            AllocationType::Float => 6,
            AllocationType::Double => 7,
            AllocationType::Reference => 8,
        }
    }

    /// The element type a tag byte names.
    pub fn from_tag(b: u8) -> (r: Option<AllocationType>)
        ensures
            r == type_of_tag(b),
    {
        if b == 0 { Some(AllocationType::Boolean) }
        else if b == 1 { Some(AllocationType::Byte) }
        else if b == 2 { Some(AllocationType::Short) }
        else if b == 3 { Some(AllocationType::Char) }
        else if b == 4 { Some(AllocationType::Int) }
        else if b == 5 { Some(AllocationType::Long) }
        else if b == 6 { Some(AllocationType::Float) }
        else if b == 7 { Some(AllocationType::Double) }
        else if b == 8 { Some(AllocationType::Reference) }
        else { None }
    }
}

/// Tags and types correspond one to one.
pub proof fn lemma_tag_roundtrip(t: AllocationType)
    ensures
        type_of_tag(type_tag(t)) == Some(t),
{
}

// ---------------------------------------------------------------------------
// Little-endian encodings

pub open spec fn u16_bytes(x: u16) -> Seq<u8> {
    seq![(x & 0xff) as u8, (x >> 8u16) as u8]
}

pub open spec fn u32_bytes(x: u32) -> Seq<u8> {
    seq![
        (x & 0xff) as u8,
        ((x >> 8u32) & 0xff) as u8,
        ((x >> 16u32) & 0xff) as u8,
        (x >> 24u32) as u8,
    ]
}

pub open spec fn u64_bytes(x: u64) -> Seq<u8> {
    seq![
        (x & 0xff) as u8,
        ((x >> 8u64) & 0xff) as u8,
        ((x >> 16u64) & 0xff) as u8,
        ((x >> 24u64) & 0xff) as u8,
        ((x >> 32u64) & 0xff) as u8,
        ((x >> 40u64) & 0xff) as u8,
        ((x >> 48u64) & 0xff) as u8,
        (x >> 56u64) as u8,
    ]
}

pub open spec fn le16(b0: u8, b1: u8) -> u16 {
    (b0 as u16) | ((b1 as u16) << 8u16)
}

pub open spec fn le32(b0: u8, b1: u8, b2: u8, b3: u8) -> u32 {
    (b0 as u32) | ((b1 as u32) << 8u32) | ((b2 as u32) << 16u32) | ((b3 as u32) << 24u32)
}

pub open spec fn le64(b0: u8, b1: u8, b2: u8, b3: u8, b4: u8, b5: u8, b6: u8, b7: u8) -> u64 {
    (b0 as u64) | ((b1 as u64) << 8u64) | ((b2 as u64) << 16u64) | ((b3 as u64) << 24u64)
        | ((b4 as u64) << 32u64) | ((b5 as u64) << 40u64) | ((b6 as u64) << 48u64) | ((b7
        as u64) << 56u64)
}

/// The `u16` stored little-endian at `p`.
pub open spec fn read_u16(m: Seq<u8>, p: int) -> u16 {
    le16(m[p], m[p + 1])
}

/// The `u32` stored little-endian at `p`.
pub open spec fn read_u32(m: Seq<u8>, p: int) -> u32 {
    le32(m[p], m[p + 1], m[p + 2], m[p + 3])
}

/// The `u64` stored little-endian at `p`.
pub open spec fn read_u64(m: Seq<u8>, p: int) -> u64 {
    le64(m[p], m[p + 1], m[p + 2], m[p + 3], m[p + 4], m[p + 5], m[p + 6], m[p + 7])
}

/// `m` with the bytes from `p` on replaced by `s`.
pub open spec fn splice(m: Seq<u8>, p: int, s: Seq<u8>) -> Seq<u8> {
    m.subrange(0, p) + s + m.subrange(p + s.len(), m.len() as int)
}

pub proof fn lemma_le16(x: u16)
    by (bit_vector)
    ensures
        le16((x & 0xff) as u8, (x >> 8u16) as u8) == x,
{
}

proof fn lemma_le32(x: u32)
    by (bit_vector)
    ensures
        le32(
            (x & 0xff) as u8,
            ((x >> 8u32) & 0xff) as u8,
            ((x >> 16u32) & 0xff) as u8,
            (x >> 24u32) as u8,
        ) == x,
{
}

proof fn lemma_le64(x: u64)
    by (bit_vector)
    ensures
        le64(
            (x & 0xff) as u8,
            ((x >> 8u64) & 0xff) as u8,
            ((x >> 16u64) & 0xff) as u8,
            ((x >> 24u64) & 0xff) as u8,
            ((x >> 32u64) & 0xff) as u8,
            ((x >> 40u64) & 0xff) as u8,
            ((x >> 48u64) & 0xff) as u8,
            (x >> 56u64) as u8,
        ) == x,
{
}

/// Reading back a `u16` written at `p` gives it.
pub proof fn lemma_read_u16_splice(m: Seq<u8>, p: int, x: u16)
    requires
        0 <= p,
        p + 2 <= m.len(),
    ensures
        read_u16(splice(m, p, u16_bytes(x)), p) == x,
        splice(m, p, u16_bytes(x)).len() == m.len(),
{
    let s = splice(m, p, u16_bytes(x));
    assert(s[p] == (x & 0xff) as u8);
    assert(s[p + 1] == (x >> 8u16) as u8);
    lemma_le16(x);
}

/// Reading back a `u32` written at `p` gives it.
pub proof fn lemma_read_u32_splice(m: Seq<u8>, p: int, x: u32)
    requires
        0 <= p,
        p + 4 <= m.len(),
    ensures
        read_u32(splice(m, p, u32_bytes(x)), p) == x,
        splice(m, p, u32_bytes(x)).len() == m.len(),
{
    let s = splice(m, p, u32_bytes(x));
    assert(s[p] == (x & 0xff) as u8);
    assert(s[p + 1] == ((x >> 8u32) & 0xff) as u8);
    assert(s[p + 2] == ((x >> 16u32) & 0xff) as u8);
    assert(s[p + 3] == (x >> 24u32) as u8);
    lemma_le32(x);
}

/// Reading back a `u64` written at `p` gives it.
pub proof fn lemma_read_u64_splice(m: Seq<u8>, p: int, x: u64)
    requires
        0 <= p,
        p + 8 <= m.len(),
    ensures
        read_u64(splice(m, p, u64_bytes(x)), p) == x,
        splice(m, p, u64_bytes(x)).len() == m.len(),
{
    let s = splice(m, p, u64_bytes(x));
    assert(s[p] == (x & 0xff) as u8);
    assert(s[p + 1] == ((x >> 8u64) & 0xff) as u8);
    assert(s[p + 2] == ((x >> 16u64) & 0xff) as u8);
    assert(s[p + 3] == ((x >> 24u64) & 0xff) as u8);
    assert(s[p + 4] == ((x >> 32u64) & 0xff) as u8);
    assert(s[p + 5] == ((x >> 40u64) & 0xff) as u8);
    assert(s[p + 6] == ((x >> 48u64) & 0xff) as u8);
    assert(s[p + 7] == (x >> 56u64) as u8);
    lemma_le64(x);
}

// ---------------------------------------------------------------------------
// Field encodings

/// The bytes that store `v` in a slot of type `t`; `None` when the value does
/// not fit the slot's type.
pub open spec fn encode_field(v: Value, t: AllocationType) -> Option<Seq<u8>> {
    match (v, t) {
        (Value::Integer(i), AllocationType::Boolean) => Some(seq![if i != 0 { 1u8 } else { 0u8 }]),
        (Value::Integer(i), AllocationType::Byte) => Some(seq![i as u8]),
        (Value::Integer(i), AllocationType::Short) => Some(u16_bytes(i as u16)),
        (Value::Integer(i), AllocationType::Char) => Some(u16_bytes(i as u16)),
        (Value::Integer(i), AllocationType::Int) => Some(u32_bytes(i as u32)),
        (Value::Long(l), AllocationType::Long) => Some(u64_bytes(l as u64)),
        (Value::Float(f), AllocationType::Float) => Some(u32_bytes(f)),
        (Value::Double(d), AllocationType::Double) => Some(u64_bytes(d)),
        (Value::Ref(r), AllocationType::Reference) => Some(u64_bytes(r as u64)),
        (Value::Null, AllocationType::Reference) => Some(u64_bytes(0)),
        _ => None,
    }
}

/// The value that a slot of type `t` at `p` holds.
pub open spec fn decode_field(m: Seq<u8>, p: int, t: AllocationType) -> Value {
    match t {
        AllocationType::Boolean => Value::Integer(if m[p] != 0 { 1 } else { 0 }),
        AllocationType::Byte => Value::Integer((m[p] as i8) as i32),
        AllocationType::Short => Value::Integer((read_u16(m, p) as i16) as i32),
        AllocationType::Char => Value::Integer(read_u16(m, p) as i32),
        AllocationType::Int => Value::Integer(read_u32(m, p) as i32),
        AllocationType::Long => Value::Long(read_u64(m, p) as i64),
        AllocationType::Float => Value::Float(read_u32(m, p)),
        AllocationType::Double => Value::Double(read_u64(m, p)),
        AllocationType::Reference => if read_u64(m, p) == 0 {
            Value::Null
        } else {
            Value::Ref(read_u64(m, p) as usize)
        },
    }
}

/// The value read back from a slot of type `t` after `v` was written to it:
/// `v` narrowed to the slot's width, a boolean as 0 or 1, and the address 0
/// as `null`.
pub open spec fn stored_value(v: Value, t: AllocationType) -> Value {
    match (v, t) {
        (Value::Integer(i), AllocationType::Boolean) => Value::Integer(if i != 0 { 1 } else { 0 }),
        (Value::Integer(i), AllocationType::Byte) => Value::Integer((i as i8) as i32),
        (Value::Integer(i), AllocationType::Short) => Value::Integer((i as i16) as i32),
        (Value::Integer(i), AllocationType::Char) => Value::Integer((i as u16) as i32),
        (Value::Ref(r), AllocationType::Reference) => if r == 0 {
            Value::Null
        } else {
            v
        },
        _ => v,
    }
}

proof fn lemma_byte_cast(i: i32)
    by (bit_vector)
    ensures
        ((i as u8) as i8) as i32 == (i as i8) as i32,
{
}

proof fn lemma_short_cast(i: i32)
    by (bit_vector)
    ensures
        ((i as u16) as i16) as i32 == (i as i16) as i32,
{
}

proof fn lemma_int_cast(i: i32)
    by (bit_vector)
    ensures
        (i as u32) as i32 == i,
{
}

proof fn lemma_long_cast(l: i64)
    by (bit_vector)
    ensures
        (l as u64) as i64 == l,
{
}

proof fn lemma_ref_cast(r: usize)
    by (bit_vector)
    ensures
        (r as u64) as usize == r,
        (r as u64 == 0) == (r == 0),
{
}

/// The encoding of a value takes exactly the width of its slot type.
pub proof fn lemma_encode_len(v: Value, t: AllocationType)
    ensures
        encode_field(v, t) matches Some(b) ==> b.len() == type_size(t),
{
}

/// Reading a slot right after writing `v` to it gives `stored_value(v, t)`.
pub proof fn lemma_decode_encode(m: Seq<u8>, p: int, v: Value, t: AllocationType)
    requires
        encode_field(v, t) is Some,
        0 <= p,
        p + type_size(t) <= m.len(),
    ensures
        decode_field(splice(m, p, encode_field(v, t)->0), p, t) == stored_value(v, t),
        splice(m, p, encode_field(v, t)->0).len() == m.len(),
{
    let b = encode_field(v, t)->0;
    let s = splice(m, p, b);
    match (v, t) {
        (Value::Integer(i), AllocationType::Boolean) => {
            assert(s[p] == b[0]);
        },
        (Value::Integer(i), AllocationType::Byte) => {
            assert(s[p] == b[0]);
            lemma_byte_cast(i);
        },
        (Value::Integer(i), AllocationType::Short) => {
            lemma_read_u16_splice(m, p, i as u16);
            lemma_short_cast(i);
        },
        (Value::Integer(i), AllocationType::Char) => {
            lemma_read_u16_splice(m, p, i as u16);
        },
        (Value::Integer(i), AllocationType::Int) => {
            lemma_read_u32_splice(m, p, i as u32);
            lemma_int_cast(i);
        },
        (Value::Long(l), AllocationType::Long) => {
            lemma_read_u64_splice(m, p, l as u64);
            lemma_long_cast(l);
        },
        (Value::Float(f), AllocationType::Float) => {
            lemma_read_u32_splice(m, p, f);
        },
        (Value::Double(d), AllocationType::Double) => {
            lemma_read_u64_splice(m, p, d);
        },
        (Value::Ref(r), AllocationType::Reference) => {
            lemma_read_u64_splice(m, p, r as u64);
            lemma_ref_cast(r);
        },
        (Value::Null, AllocationType::Reference) => {
            lemma_read_u64_splice(m, p, 0);
        },
        _ => {},
    }
}

fn u16_to_bytes(x: u16) -> (r: Vec<u8>)
    ensures
        r@ == u16_bytes(x),
{
    let r = vec![(x & 0xff) as u8, (x >> 8u16) as u8];
    assert(r@ =~= u16_bytes(x));
    r
}

pub(crate) fn u32_to_bytes(x: u32) -> (r: Vec<u8>)
    ensures
        r@ == u32_bytes(x),
{
    let r = vec![
        (x & 0xff) as u8,
        ((x >> 8u32) & 0xff) as u8,
        ((x >> 16u32) & 0xff) as u8,
        (x >> 24u32) as u8,
    ];
    assert(r@ =~= u32_bytes(x));
    r
}

pub(crate) fn u64_to_bytes(x: u64) -> (r: Vec<u8>)
    ensures
        r@ == u64_bytes(x),
{
    let r = vec![
        (x & 0xff) as u8,
        ((x >> 8u64) & 0xff) as u8,
        ((x >> 16u64) & 0xff) as u8,
        ((x >> 24u64) & 0xff) as u8,
        ((x >> 32u64) & 0xff) as u8,
        ((x >> 40u64) & 0xff) as u8,
        ((x >> 48u64) & 0xff) as u8,
        (x >> 56u64) as u8,
    ];
    assert(r@ =~= u64_bytes(x));
    r
}

/// The bytes that store `value` in a slot of type `t`, when it fits.
fn encode(value: Value, t: AllocationType) -> (r: Option<Vec<u8>>)
    ensures
        match encode_field(value, t) {
            Some(b) => r matches Some(v) && v@ == b,
            None => r is None,
        },
{
    match (value, t) {
        (Value::Integer(i), AllocationType::Boolean) => {
            let r = vec![if i != 0 { 1u8 } else { 0u8 }];
            assert(r@ =~= seq![if i != 0 { 1u8 } else { 0u8 }]);
            Some(r)
        },
        (Value::Integer(i), AllocationType::Byte) => {
            let r = vec![i as u8];
            assert(r@ =~= seq![i as u8]);
            Some(r)
        },
        (Value::Integer(i), AllocationType::Short) => Some(u16_to_bytes(i as u16)),
        (Value::Integer(i), AllocationType::Char) => Some(u16_to_bytes(i as u16)),
        (Value::Integer(i), AllocationType::Int) => Some(u32_to_bytes(i as u32)),
        (Value::Long(l), AllocationType::Long) => Some(u64_to_bytes(l as u64)),
        (Value::Float(f), AllocationType::Float) => Some(u32_to_bytes(f)),
        (Value::Double(d), AllocationType::Double) => Some(u64_to_bytes(d)),
        (Value::Ref(r), AllocationType::Reference) => Some(u64_to_bytes(r as u64)),
        (Value::Null, AllocationType::Reference) => Some(u64_to_bytes(0)),
        _ => None,
    }
}

// ---------------------------------------------------------------------------
// Object headers

/// The header that precedes the data of every object: its total size, the id
/// of its class, a mark bit for collection and whether it is an array.
/// Laid out as `size` (4 bytes), `class_id` (4 bytes), `marked` (1 byte),
/// `is_array` (1 byte) and 6 bytes of padding.
#[derive(Debug, Clone, Copy, PartialEq, Eq, Structural)]
pub struct ObjectHeader {
    pub size: u32,
    pub class_id: u32,
    pub marked: bool,
    pub is_array: bool,
}

impl ObjectHeader {
    /// Whether the object is an array.
    pub fn is_array(&self) -> (r: bool)
        ensures
            r == self.is_array,
    {
        self.is_array
    }
}

/// The header stored at `h`.
pub open spec fn header_at(m: Seq<u8>, h: int) -> ObjectHeader {
    ObjectHeader {
        size: read_u32(m, h),
        class_id: read_u32(m, h + 4),
        marked: m[h + 8] != 0,
        is_array: m[h + 9] != 0,
    }
}

/// Whether a whole header lies in the memory at `h`.
pub open spec fn has_header(m: Seq<u8>, h: int) -> bool {
    0 <= h && h + OBJECT_HEADER_SIZE <= m.len()
}

/// The bytes of a header.
pub open spec fn header_bytes(size: u32, class_id: u32, is_array: bool) -> Seq<u8> {
    u32_bytes(size) + u32_bytes(class_id) + seq![0u8, if is_array { 1u8 } else { 0u8 }]
}

/// A header of the given fields reads back as such.
pub proof fn lemma_header_roundtrip(m: Seq<u8>, h: int, size: u32, class_id: u32, is_array: bool)
    requires
        has_header(m, h),
    ensures
        header_at(splice(m, h, header_bytes(size, class_id, is_array)), h) == (ObjectHeader {
            size,
            class_id,
            marked: false,
            is_array,
        }),
        splice(m, h, header_bytes(size, class_id, is_array)).len() == m.len(),
{
    let b = header_bytes(size, class_id, is_array);
    let s = splice(m, h, b);
    assert(s.subrange(h, h + 4) =~= u32_bytes(size));
    assert(splice(m, h, u32_bytes(size)).subrange(h, h + 4) =~= u32_bytes(size));
    lemma_read_u32_splice(m, h, size);
    lemma_read_u32_splice(m, h + 4, class_id);
    assert(read_u32(s, h) == read_u32(splice(m, h, u32_bytes(size)), h));
    assert(read_u32(s, h + 4) == read_u32(splice(m, h + 4, u32_bytes(class_id)), h + 4));
}

/// Size of the block that an allocation of `size` data bytes takes: the
/// header and the data, rounded up to a multiple of 8.
pub open spec fn block_size(size: int) -> int {
    (OBJECT_HEADER_SIZE + size + 7) / 8 * 8
}

/// `m` followed by `n` zero bytes.
pub open spec fn zero_extend(m: Seq<u8>, n: int) -> Seq<u8> {
    m + Seq::new(n as nat, |i: int| 0u8)
}

/// Where the data of the object at `h` starts.
pub open spec fn data_start(h: int) -> int {
    h + OBJECT_HEADER_SIZE
}

/// The memory after allocating an instance of `size` data bytes of class
/// `class_id` at the end of `m`.
pub open spec fn instance_image(m: Seq<u8>, size: int, class_id: ClassId) -> Seq<u8> {
    splice(
        zero_extend(m, block_size(size)),
        m.len() as int,
        header_bytes((OBJECT_HEADER_SIZE + size) as u32, class_id.0, false),
    )
}

/// Number of data bytes of an array of `length` elements of type `t`.
pub open spec fn array_data_size(length: int, t: AllocationType) -> int {
    ARRAY_ELEMENTS_OFFSET + length * type_size(t)
}

/// The memory after allocating an array of `length` elements of type `t` and
/// class `class_id` at the end of `m`.
pub open spec fn array_image(m: Seq<u8>, class_id: ClassId, length: i32, t: AllocationType) -> Seq<u8> {
    let h = m.len() as int;
    let size = array_data_size(length as int, t);
    splice(
        splice(
            splice(
                zero_extend(m, block_size(size)),
                h,
                header_bytes((OBJECT_HEADER_SIZE + size) as u32, class_id.0, true),
            ),
            data_start(h) + ARRAY_LENGTH_OFFSET,
            u32_bytes(length as u32),
        ),
        data_start(h) + ARRAY_TYPE_OFFSET,
        seq![type_tag(t)],
    )
}

/// The length stored in the array at `h`.
pub open spec fn array_length_at(m: Seq<u8>, h: int) -> i32 {
    read_u32(m, data_start(h) + ARRAY_LENGTH_OFFSET) as i32
}

/// The tag byte of the array at `h`.
pub open spec fn array_tag_at(m: Seq<u8>, h: int) -> u8 {
    m[data_start(h) + ARRAY_TYPE_OFFSET]
}

/// Whether the length of an array at `h` lies in memory.
pub open spec fn has_array_length(m: Seq<u8>, h: int) -> bool {
    0 <= h && data_start(h) + ARRAY_LENGTH_OFFSET + 4 <= m.len()
}

/// Whether the element type tag of an array at `h` lies in memory.
pub open spec fn has_array_tag(m: Seq<u8>, h: int) -> bool {
    0 <= h && data_start(h) + ARRAY_TYPE_OFFSET + 1 <= m.len()
}

/// Where element `index` of an array at `h` with elements of type `t` starts.
pub open spec fn element_pos(h: int, index: int, t: AllocationType) -> int {
    data_start(h) + ARRAY_ELEMENTS_OFFSET + index * type_size(t)
}

/// The message of an out-of-bounds array access.
pub open spec fn index_message(index: i32, length: i32) -> Seq<char> {
    "Index "@ + signed_decimal(index as int) + " out of bounds for length "@ + signed_decimal(
        length as int,
    )
}

/// What writing `v` as a `t` at offset `off` of the object at `h` does to the
/// memory `m`, giving `m2` and the result `r`.
pub open spec fn write_field_post(
    m: Seq<u8>,
    h: int,
    off: int,
    v: Value,
    t: AllocationType,
    m2: Seq<u8>,
    r: Result<(), JvmError>,
) -> bool {
    match encode_field(v, t) {
        None => m2 == m && (r matches Err(JvmError::Todo(s)) && s@ == "Type mismatch in write_field"@),
        Some(b) => if data_start(h) + off + b.len() <= m.len() {
            m2 == splice(m, data_start(h) + off, b) && r is Ok
        } else {
            m2 == m && r == Err::<(), JvmError>(JvmError::WrongHeapAddress(h as usize))
        },
    }
}

/// What reading a `t` at offset `off` of the object at `h` gives.
pub open spec fn read_field_post(m: Seq<u8>, h: int, off: int, t: AllocationType, r: Result<Value, JvmError>) -> bool {
    if data_start(h) + off + type_size(t) <= m.len() {
        r == Ok::<Value, JvmError>(decode_field(m, data_start(h) + off, t))
    } else {
        r == Err::<Value, JvmError>(JvmError::WrongHeapAddress(h as usize))
    }
}

/// What looking up the element type of the array at `h` gives.
pub open spec fn allocation_type_post(m: Seq<u8>, h: int, r: Result<AllocationType, JvmError>) -> bool {
    if !has_array_tag(m, h) {
        r == Err::<AllocationType, JvmError>(JvmError::WrongHeapAddress(h as usize))
    } else {
        match type_of_tag(array_tag_at(m, h)) {
            Some(t) => r == Ok::<AllocationType, JvmError>(t),
            None => r matches Err(JvmError::Todo(s)) && s@ == "Invalid allocation type"@,
        }
    }
}

/// The element type of the array at `h`, when its tag lies in memory and
/// names a type.
pub open spec fn array_type_at(m: Seq<u8>, h: int) -> Option<AllocationType> {
    if has_array_tag(m, h) {
        type_of_tag(array_tag_at(m, h))
    } else {
        None
    }
}

/// `e` is the error of looking up the element type of the array at `h`.
pub open spec fn array_type_error(m: Seq<u8>, h: int, e: JvmError) -> bool {
    if !has_array_tag(m, h) {
        e == JvmError::WrongHeapAddress(h as usize)
    } else {
        e matches JvmError::Todo(s) && s@ == "Invalid allocation type"@
    }
}

/// Whether all elements of the array at `h`, of type `t`, lie in memory.
pub open spec fn has_elements(m: Seq<u8>, h: int, t: AllocationType) -> bool {
    array_length_at(m, h) >= 0 && element_pos(h, array_length_at(m, h) as int, t) <= m.len()
}

/// What writing `v` to element `index` of the array at `h` does.
pub open spec fn array_write_post(m: Seq<u8>, h: int, index: i32, v: Value, m2: Seq<u8>, r: Result<(), JvmError>) -> bool {
    if !has_array_length(m, h) {
        m2 == m && r == Err::<(), JvmError>(JvmError::WrongHeapAddress(h as usize))
    } else if index < 0 || index >= array_length_at(m, h) {
        m2 == m && (r matches Err(e) && raises_with_message(
            e,
            JavaExceptionKind::ArrayIndexOutOfBoundsException,
            index_message(index, array_length_at(m, h)),
        ))
    } else {
        match array_type_at(m, h) {
            None => m2 == m && (r matches Err(e) && array_type_error(m, h, e)),
            Some(t) => write_field_post(m, h, ARRAY_ELEMENTS_OFFSET + index * type_size(t), v, t, m2, r),
        }
    }
}

/// What reading element `index` of the array at `h` gives.
pub open spec fn array_read_post(m: Seq<u8>, h: int, index: i32, r: Result<Value, JvmError>) -> bool {
    if !has_array_length(m, h) {
        r == Err::<Value, JvmError>(JvmError::WrongHeapAddress(h as usize))
    } else if index < 0 || index >= array_length_at(m, h) {
        r matches Err(e) && raises_with_message(
            e,
            JavaExceptionKind::ArrayIndexOutOfBoundsException,
            index_message(index, array_length_at(m, h)),
        )
    } else {
        match array_type_at(m, h) {
            None => r matches Err(e) && array_type_error(m, h, e),
            Some(t) => read_field_post(m, h, ARRAY_ELEMENTS_OFFSET + index * type_size(t), t, r),
        }
    }
}

/// What copying `length` elements from `src` at `sp` to `dst` at `dp` does.
pub open spec fn array_copy_post(
    m: Seq<u8>,
    src: int,
    sp: i32,
    dst: int,
    dp: i32,
    length: i32,
    m2: Seq<u8>,
    r: Result<(), JvmError>,
) -> bool {
    if array_type_at(m, src) is None {
        m2 == m && (r matches Err(e) && array_type_error(m, src, e))
    } else if array_type_at(m, dst) is None {
        m2 == m && (r matches Err(e) && array_type_error(m, dst, e))
    } else if sp < 0 || dp < 0 || length < 0 || sp + length > array_length_at(m, src) || dp
        + length > array_length_at(m, dst) {
        m2 == m && (r matches Err(e) && raises_with_message(
            e,
            JavaExceptionKind::ArrayIndexOutOfBoundsException,
            "Start or destination index out of bounds"@,
        ))
    } else {
        let t = array_type_at(m, src)->0;
        let n = length * type_size(t);
        let s = element_pos(src, sp as int, t);
        let d = element_pos(dst, dp as int, t);
        if s + n > m.len() {
            m2 == m && r == Err::<(), JvmError>(JvmError::WrongHeapAddress(src as usize))
        } else if d + n > m.len() {
            m2 == m && r == Err::<(), JvmError>(JvmError::WrongHeapAddress(dst as usize))
        } else {
            m2 == splice(m, d, m.subrange(s, s + n)) && r is Ok
        }
    }
}

/// The memory after cloning the object at `src`, whose header is `hd`, to the
/// end of `m`: its data copied, and a header with its size, class and array
/// flag, unmarked.
pub open spec fn clone_image(m: Seq<u8>, src: int, hd: ObjectHeader) -> Seq<u8> {
    let ds = hd.size - OBJECT_HEADER_SIZE;
    let d = m.len() as int;
    splice(
        splice(zero_extend(m, block_size(ds)), data_start(d), m.subrange(data_start(src), data_start(src) + ds)),
        d,
        header_bytes(hd.size, hd.class_id, hd.is_array),
    )
}

/// The elements of the byte array at `h`.
pub open spec fn byte_elements(m: Seq<u8>, h: int) -> Seq<i8> {
    Seq::new(
        array_length_at(m, h) as nat,
        |i: int| m[element_pos(h, i, AllocationType::Byte)] as i8,
    )
}

/// The elements of the char array at `h`.
pub open spec fn char_elements(m: Seq<u8>, h: int) -> Seq<u16> {
    Seq::new(
        array_length_at(m, h) as nat,
        |i: int| read_u16(m, element_pos(h, i, AllocationType::Char)),
    )
}

/// The elements of the int array at `h`.
pub open spec fn int_elements(m: Seq<u8>, h: int) -> Seq<i32> {
    Seq::new(
        array_length_at(m, h) as nat,
        |i: int| read_u32(m, element_pos(h, i, AllocationType::Int)) as i32,
    )
}

/// What reading all elements of the array at `h`, expected of type `t` and
/// refused with `message` otherwise, gives: the elements are `elements`.
pub open spec fn elements_post<E>(
    m: Seq<u8>,
    h: int,
    t: AllocationType,
    message: Seq<char>,
    r: Result<Vec<E>, JvmError>,
    elements: Seq<E>,
) -> bool {
    match array_type_at(m, h) {
        None => r matches Err(e) && array_type_error(m, h, e),
        Some(actual) => if actual != t {
            r matches Err(JvmError::Todo(s)) && s@ == message
        } else if !has_elements(m, h, t) {
            r == Err::<Vec<E>, JvmError>(JvmError::WrongHeapAddress(h as usize))
        } else {
            r matches Ok(v) && v@ == elements
        },
    }
}

// ---------------------------------------------------------------------------
// The heap

/// The object heap. Its memory is a sequence of bytes that only grows, up to
/// `capacity` bytes; the first header-sized block is reserved so that no
/// object lives at address 0, which stands for `null`.
pub struct Heap {
    memory: Vec<u8>,
    capacity: usize,
    interner: Arc<ThreadedRodeo>,
    string_pool: HashMap<Symbol, HeapRef>,
    byte_array_class_id: ClassId,
    string_class_id: ClassId,
    string_instance_size: usize,
}

impl View for Heap {
    type V = Seq<u8>;

    closed spec fn view(&self) -> Seq<u8> {
        self.memory@
    }
}

impl Heap {
    /// The heap keeps its reserved first block and ends on an 8-byte boundary.
    pub closed spec fn wf(&self) -> bool {
        &&& self.memory@.len() >= OBJECT_HEADER_SIZE
        &&& self.memory@.len() % 8 == 0
    }

    /// A heap's memory is a machine-sized number of bytes.
    pub proof fn lemma_memory_fits(&self)
        ensures
            self@.len() <= usize::MAX,
    {
        assert(self.memory.len() == self.memory@.len());
    }

    /// A heap's capacity is a machine-sized number of bytes.
    pub proof fn lemma_capacity_fits(&self)
        ensures
            self.capacity() <= usize::MAX,
    {
    }

    /// A well-formed heap's memory ends on an 8-byte boundary, so each object
    /// it allocates next starts on one.
    pub proof fn law_heap_end_aligned(&self)
        requires
            self.wf(),
        ensures
            self@.len() % 8 == 0,
            self@.len() >= OBJECT_HEADER_SIZE,
    {
    }

    /// The most bytes the heap may hold.
    pub closed spec fn capacity(&self) -> nat {
        self.capacity as nat
    }

    /// The interner the heap resolves string symbols with.
    pub closed spec fn interner(&self) -> ThreadedRodeo {
        *self.interner
    }

    /// The pool of interned Java strings, by symbol.
    pub closed spec fn string_pool(&self) -> Map<Symbol, HeapRef> {
        self.string_pool@
    }

    /// The class of `byte[]`, for the value arrays of strings.
    pub closed spec fn byte_array_class(&self) -> ClassId {
        self.byte_array_class_id
    }

    /// The class of `java.lang.String`.
    pub closed spec fn string_class(&self) -> ClassId {
        self.string_class_id
    }

    /// The data size of a `java.lang.String` instance.
    pub closed spec fn string_size(&self) -> nat {
        self.string_instance_size as nat
    }

    /// `self` and `other` differ at most in their memory and string pool.
    pub open spec fn same_setup(&self, other: &Heap) -> bool {
        &&& self.capacity() == other.capacity()
        &&& self.interner() == other.interner()
        &&& self.byte_array_class() == other.byte_array_class()
        &&& self.string_class() == other.string_class()
        &&& self.string_size() == other.string_size()
    }

    /// A heap of `size_mb` mebibytes whose strings are instances of the class
    /// `string_class_id` with `string_instance_size` data bytes, holding their
    /// characters in arrays of the class `char_array_class_id`.
    pub fn new(
        size_mb: usize,
        interner: Arc<ThreadedRodeo>,
        string_class_id: ClassId,
        string_instance_size: usize,
        char_array_class_id: ClassId,
    ) -> (r: Result<Heap, JvmError>)
        requires
            size_mb * 1024 * 1024 <= usize::MAX,
        ensures
            r matches Ok(heap) && {
                &&& heap.wf()
                &&& heap@ == Seq::new(OBJECT_HEADER_SIZE as nat, |i: int| 0u8)
                &&& heap.capacity() == size_mb * 1024 * 1024
                &&& heap.interner() == *interner
                &&& heap.string_pool() == Map::<Symbol, HeapRef>::empty()
                &&& heap.string_class() == string_class_id
                &&& heap.string_size() == string_instance_size
                &&& heap.byte_array_class() == char_array_class_id
            },
    {
        let capacity = size_mb * 1024 * 1024;
        let memory: Vec<u8> = vec![0u8; OBJECT_HEADER_SIZE];
        proof {
            assert(memory@ =~= Seq::new(OBJECT_HEADER_SIZE as nat, |i: int| 0u8));
        }
        Ok(Heap {
            memory,
            capacity,
            interner,
            string_pool: HashMap::new(),
            byte_array_class_id: char_array_class_id,
            string_class_id,
            string_instance_size,
        })
    }

    /// The interner the heap resolves string symbols with.
    pub(crate) fn string_interner(&self) -> (r: &ThreadedRodeo)
        ensures
            *r == self.interner(),
    {
        &*self.interner
    }

    /// The number of bytes in use.
    pub(crate) fn memory_len(&self) -> (r: usize)
        ensures
            r == self@.len(),
    {
        self.memory.len()
    }

    /// The class of the value arrays of strings.
    pub(crate) fn byte_array_class_id(&self) -> (r: ClassId)
        ensures
            r == self.byte_array_class(),
    {
        self.byte_array_class_id
    }

    /// The class of `java.lang.String`.
    pub(crate) fn string_class_id(&self) -> (r: ClassId)
        ensures
            r == self.string_class(),
    {
        self.string_class_id
    }

    /// The data size of a `java.lang.String` instance.
    pub fn string_instance_size(&self) -> (r: usize)
        ensures
            r == self.string_size(),
    {
        self.string_instance_size
    }

    /// The pooled string of `sym`, if any.
    pub(crate) fn pooled_string(&self, sym: Symbol) -> (r: Option<HeapRef>)
        ensures
            r == (if self.string_pool().contains_key(sym) {
                Some(self.string_pool()[sym])
            } else {
                None::<HeapRef>
            }),
    {
        broadcast use vstd::std_specs::hash::group_hash_axioms;
        match self.string_pool.get(&sym) {
            Some(h) => Some(*h),
            None => None,
        }
    }

    /// Records `h` as the pooled string of `sym`.
    pub(crate) fn pool_string(&mut self, sym: Symbol, h: HeapRef)
        requires
            old(self).wf(),
        ensures
            final(self).wf(),
            final(self)@ == old(self)@,
            final(self).same_setup(old(self)),
            final(self).string_pool() == old(self).string_pool().insert(sym, h),
    {
        broadcast use vstd::std_specs::hash::group_hash_axioms;
        self.string_pool.insert(sym, h);
    }

    /// Writes `bytes` into memory from `p` on.
    pub(crate) fn write_bytes(&mut self, p: usize, bytes: &Vec<u8>)
        requires
            p + bytes@.len() <= old(self)@.len(),
        ensures
            final(self)@ == splice(old(self)@, p as int, bytes@),
            old(self).wf() ==> final(self).wf(),
            final(self).same_setup(old(self)),
            final(self).string_pool() == old(self).string_pool(),
    {
        let ghost m = self.memory@;
        let len = self.memory.len();
        let n = bytes.len();
        let mut i: usize = 0;
        while i < n
            invariant
                len == m.len(),
                n == bytes@.len(),
                i <= n,
                p + n <= m.len(),
                self.memory@ == m.subrange(0, p as int) + bytes@.subrange(0, i as int) + m.subrange(
                    p + i,
                    m.len() as int,
                ),
                self.same_setup(old(self)),
                self.string_pool() == old(self).string_pool(),
            decreases n - i,
        {
            let ghost before = self.memory@;
            self.memory.set(p + i, bytes[i]);
            i = i + 1;
            assert(self.memory@ =~= m.subrange(0, p as int) + bytes@.subrange(0, i as int)
                + m.subrange(p + i, m.len() as int));
        }
        assert(bytes@.subrange(0, n as int) =~= bytes@);
    }

    /// The `n` bytes of memory from `p` on.
    fn read_bytes(&self, p: usize, n: usize) -> (r: Vec<u8>)
        requires
            p + n <= self@.len(),
        ensures
            r@ == self@.subrange(p as int, p + n),
    {
        let mut r: Vec<u8> = Vec::new();
        let len = self.memory.len();
        let mut i: usize = 0;
        while i < n
            invariant
                len == self@.len(),
                i <= n,
                p + n <= self@.len(),
                r@ == self@.subrange(p as int, p + i),
            decreases n - i,
        {
            r.push(self.memory[p + i]);
            i = i + 1;
            assert(r@ =~= self@.subrange(p as int, p + i));
        }
        r
    }

    /// Reserves a zeroed block for an object with `size` data bytes, giving
    /// the address of its header. Fails with "Heap full" when the block would
    /// take the heap beyond its capacity.
    fn alloc_raw(&mut self, size: usize) -> (r: Result<HeapRef, JvmError>)
        requires
            old(self).wf(),
        ensures
            final(self).wf(),
            final(self).same_setup(old(self)),
            final(self).string_pool() == old(self).string_pool(),
            old(self)@.len() + block_size(size as int) > old(self).capacity() ==> {
                &&& r matches Err(JvmError::Todo(s)) && s@ == "Heap full"@
                &&& final(self)@ == old(self)@
            },
            old(self)@.len() + block_size(size as int) <= old(self).capacity() ==> {
                &&& r == Ok::<HeapRef, JvmError>(old(self)@.len() as usize)
                &&& final(self)@ == zero_extend(old(self)@, block_size(size as int))
            },
            r matches Ok(a) ==> a % 8 == 0 && a >= OBJECT_HEADER_SIZE,
    {
        let total: u128 = OBJECT_HEADER_SIZE as u128 + size as u128;
        let aligned: u128 = (total + 7) / 8 * 8;
        assert(aligned % 8 == 0) by (nonlinear_arith)
            requires
                aligned == (total + 7) / 8 * 8,
        ;
        if self.memory.len() as u128 + aligned > self.capacity as u128 {
            return Err(JvmError::Todo("Heap full".to_string()));
        }
        let offset = self.memory.len();
        let new_len = (offset as u128 + aligned) as usize;
        self.memory.resize(new_len, 0u8);
        proof {
            let z = zero_extend(old(self)@, block_size(size as int));
            assert forall|i: int| 0 <= i < z.len() implies #[trigger] self.memory@[i] == z[i] by {
                if i >= offset {
                    assert(cloned::<u8>(0u8, self.memory@[i]));
                } else {
                    assert(self.memory@.subrange(0, offset as int)[i] == old(self)@[i]);
                }
            }
            assert(self.memory@ =~= z);
        }
        Ok(offset)
    }

    /// The header of the object at `h`.
    pub fn get_header(&self, heap_ref: HeapRef) -> (r: Result<ObjectHeader, JvmError>)
        ensures
            has_header(self@, heap_ref as int) ==> r == Ok::<ObjectHeader, JvmError>(header_at(self@, heap_ref as int)),
            !has_header(self@, heap_ref as int) ==> r == Err::<ObjectHeader, JvmError>(JvmError::WrongHeapAddress(heap_ref)),
    {
        if heap_ref as u128 + OBJECT_HEADER_SIZE as u128 > self.memory.len() as u128 {
            return Err(JvmError::WrongHeapAddress(heap_ref));
        }
        let b = self.read_bytes(heap_ref, 10);
        let size = (b[0] as u32) | ((b[1] as u32) << 8u32) | ((b[2] as u32) << 16u32) | ((b[3] as u32) << 24u32);
        let class_id = (b[4] as u32) | ((b[5] as u32) << 8u32) | ((b[6] as u32) << 16u32) | ((b[7] as u32) << 24u32);
        Ok(ObjectHeader { size, class_id, marked: b[8] != 0, is_array: b[9] != 0 })
    }

    /// Whether the object at `heap_ref` is an array.
    pub fn is_array(&self, heap_ref: HeapRef) -> (r: Result<bool, JvmError>)
        ensures
            has_header(self@, heap_ref as int) ==> r == Ok::<bool, JvmError>(header_at(self@, heap_ref as int).is_array),
            !has_header(self@, heap_ref as int) ==> r == Err::<bool, JvmError>(JvmError::WrongHeapAddress(heap_ref)),
    {
        let header = self.get_header(heap_ref)?;
        Ok(header.is_array())
    }

    /// The class of the object at `heap_ref`.
    pub fn get_class_id(&self, heap_ref: HeapRef) -> (r: Result<ClassId, JvmError>)
        ensures
            has_header(self@, heap_ref as int) ==> r == Ok::<ClassId, JvmError>(ClassId(header_at(self@, heap_ref as int).class_id)),
            !has_header(self@, heap_ref as int) ==> r == Err::<ClassId, JvmError>(JvmError::WrongHeapAddress(heap_ref)),
    {
        let header = self.get_header(heap_ref)?;
        Ok(ClassId::new(header.class_id))
    }

    /// Allocates an instance of `instance_size` data bytes of class
    /// `class_id`, all fields zero.
    pub fn alloc_instance(&mut self, instance_size: usize, class_id: ClassId) -> (r: Result<HeapRef, JvmError>)
        requires
            old(self).wf(),
        ensures
            final(self).wf(),
            final(self).same_setup(old(self)),
            final(self).string_pool() == old(self).string_pool(),
            old(self)@.len() + block_size(instance_size as int) > old(self).capacity() ==> {
                &&& r matches Err(JvmError::Todo(s)) && s@ == "Heap full"@
                &&& final(self)@ == old(self)@
            },
            old(self)@.len() + block_size(instance_size as int) <= old(self).capacity() ==> {
                &&& r == Ok::<HeapRef, JvmError>(old(self)@.len() as usize)
                &&& final(self)@ == instance_image(old(self)@, instance_size as int, class_id)
            },
    {
        let heap_ref = self.alloc_raw(instance_size)?;
        let size = (OBJECT_HEADER_SIZE + instance_size) as u32;
        let mut header = u32_to_bytes(size);
        let cid = u32_to_bytes(class_id.into_inner());
        header.push(cid[0]);
        header.push(cid[1]);
        header.push(cid[2]);
        header.push(cid[3]);
        header.push(0u8);
        header.push(0u8);
        assert(header@ =~= header_bytes(size, class_id.0, false));
        self.write_bytes(heap_ref, &header);
        Ok(heap_ref)
    }

    /// Allocates an array of `length` elements of type `allocation_type` and
    /// class `class_id`, all elements zero.
    fn alloc_array_internal(
        &mut self,
        class_id: ClassId,
        length: i32,
        allocation_type: AllocationType,
    ) -> (r: Result<HeapRef, JvmError>)
        requires
            old(self).wf(),
        ensures
            final(self).wf(),
            final(self).same_setup(old(self)),
            final(self).string_pool() == old(self).string_pool(),
            length < 0 ==> {
                &&& r matches Err(JvmError::Todo(s)) && s@ == "Negative array length"@
                &&& final(self)@ == old(self)@
            },
            length >= 0 && old(self)@.len() + block_size(array_data_size(length as int, allocation_type))
                > old(self).capacity() ==> {
                &&& r matches Err(JvmError::Todo(s)) && s@ == "Heap full"@
                &&& final(self)@ == old(self)@
            },
            length >= 0 && old(self)@.len() + block_size(array_data_size(length as int, allocation_type))
                <= old(self).capacity() ==> {
                &&& r == Ok::<HeapRef, JvmError>(old(self)@.len() as usize)
                &&& final(self)@ == array_image(old(self)@, class_id, length, allocation_type)
            },
    {
        if length < 0 {
            return Err(JvmError::Todo("Negative array length".to_string()));
        }
        let element_size = allocation_type.byte_size();
        let len_wide = length as u128;
        let size_wide = element_size as u128;
        assert(len_wide * size_wide <= 0x8_0000_0000u128) by (nonlinear_arith)
            requires
                len_wide <= 0x7fff_ffffu128,
                size_wide <= 8u128,
        ;
        let data_size_wide: u128 = ARRAY_ELEMENTS_OFFSET as u128 + len_wide * size_wide;
        if data_size_wide > self.capacity as u128 {
            return Err(JvmError::Todo("Heap full".to_string()));
        }
        let array_data_size = data_size_wide as usize;
        let heap_ref = self.alloc_raw(array_data_size)?;
        let size = (OBJECT_HEADER_SIZE + array_data_size) as u32;
        let mut header = u32_to_bytes(size);
        let cid = u32_to_bytes(class_id.into_inner());
        header.push(cid[0]);
        header.push(cid[1]);
        header.push(cid[2]);
        header.push(cid[3]);
        header.push(0u8);
        header.push(1u8);
        assert(header@ =~= header_bytes(size, class_id.0, true));
        self.write_bytes(heap_ref, &header);
        let data = heap_ref + OBJECT_HEADER_SIZE;
        self.write_bytes(data + ARRAY_LENGTH_OFFSET, &u32_to_bytes(length as u32));
        let tag = vec![allocation_type.tag()];
        assert(tag@ =~= seq![type_tag(allocation_type)]);
        self.write_bytes(data + ARRAY_TYPE_OFFSET, &tag);
        Ok(heap_ref)
    }

    /// Allocates a primitive array of `length` elements of `array_type`.
    pub fn alloc_primitive_array(
        &mut self,
        class_id: ClassId,
        array_type: ArrayType,
        length: i32,
    ) -> (r: Result<HeapRef, JvmError>)
        requires
            old(self).wf(),
        ensures
            final(self).wf(),
            final(self).same_setup(old(self)),
            final(self).string_pool() == old(self).string_pool(),
            length < 0 ==> {
                &&& r matches Err(JvmError::Todo(s)) && s@ == "Negative array length"@
                &&& final(self)@ == old(self)@
            },
            length >= 0 && old(self)@.len() + block_size(
                array_data_size(length as int, array_allocation_type(array_type)),
            ) > old(self).capacity() ==> {
                &&& r matches Err(JvmError::Todo(s)) && s@ == "Heap full"@
                &&& final(self)@ == old(self)@
            },
            length >= 0 && old(self)@.len() + block_size(
                array_data_size(length as int, array_allocation_type(array_type)),
            ) <= old(self).capacity() ==> {
                &&& r == Ok::<HeapRef, JvmError>(old(self)@.len() as usize)
                &&& final(self)@ == array_image(
                    old(self)@,
                    class_id,
                    length,
                    array_allocation_type(array_type),
                )
            },
    {
        let allocation_type = match array_type {
            ArrayType::Boolean => AllocationType::Boolean,
            ArrayType::Byte => AllocationType::Byte,
            ArrayType::Short => AllocationType::Short,
            ArrayType::Char => AllocationType::Char,
            ArrayType::Int => AllocationType::Int,
            ArrayType::Long => AllocationType::Long,
            ArrayType::Float => AllocationType::Float,
            ArrayType::Double => AllocationType::Double,
        };
        self.alloc_array_internal(class_id, length, allocation_type)
    }

    /// Allocates an array of `length` references, all `null`.
    pub fn alloc_object_array(&mut self, class_id: ClassId, length: i32) -> (r: Result<HeapRef, JvmError>)
        requires
            old(self).wf(),
        ensures
            final(self).wf(),
            final(self).same_setup(old(self)),
            final(self).string_pool() == old(self).string_pool(),
            length < 0 ==> {
                &&& r matches Err(JvmError::Todo(s)) && s@ == "Negative array length"@
                &&& final(self)@ == old(self)@
            },
            length >= 0 && old(self)@.len() + block_size(
                array_data_size(length as int, AllocationType::Reference),
            ) > old(self).capacity() ==> {
                &&& r matches Err(JvmError::Todo(s)) && s@ == "Heap full"@
                &&& final(self)@ == old(self)@
            },
            length >= 0 && old(self)@.len() + block_size(
                array_data_size(length as int, AllocationType::Reference),
            ) <= old(self).capacity() ==> {
                &&& r == Ok::<HeapRef, JvmError>(old(self)@.len() as usize)
                &&& final(self)@ == array_image(old(self)@, class_id, length, AllocationType::Reference)
            },
    {
        self.alloc_array_internal(class_id, length, AllocationType::Reference)
    }

    /// The element type of the array at `heap_ref`.
    fn get_allocation_type(&self, heap_ref: HeapRef) -> (r: Result<AllocationType, JvmError>)
        ensures
            allocation_type_post(self@, heap_ref as int, r),
    {
        self.is_array(heap_ref)?;
        if heap_ref as u128 + (OBJECT_HEADER_SIZE + ARRAY_TYPE_OFFSET + 1) as u128 > self.memory.len() as u128 {
            return Err(JvmError::WrongHeapAddress(heap_ref));
        }
        let type_byte = self.memory[heap_ref + OBJECT_HEADER_SIZE + ARRAY_TYPE_OFFSET];
        match AllocationType::from_tag(type_byte) {
            Some(t) => Ok(t),
            None => Err(JvmError::Todo("Invalid allocation type".to_string())),
        }
    }

    /// The length of the array at `heap_ref`.
    pub fn get_array_length(&self, heap_ref: HeapRef) -> (r: Result<i32, JvmError>)
        ensures
            has_array_length(self@, heap_ref as int) ==> r == Ok::<i32, JvmError>(array_length_at(self@, heap_ref as int)),
            !has_array_length(self@, heap_ref as int) ==> r == Err::<i32, JvmError>(JvmError::WrongHeapAddress(heap_ref)),
    {
        self.is_array(heap_ref)?;
        if heap_ref as u128 + (OBJECT_HEADER_SIZE + ARRAY_LENGTH_OFFSET + 4) as u128 > self.memory.len() as u128 {
            return Err(JvmError::WrongHeapAddress(heap_ref));
        }
        let p = heap_ref + OBJECT_HEADER_SIZE + ARRAY_LENGTH_OFFSET;
        let raw = (self.memory[p] as u32) | ((self.memory[p + 1] as u32) << 8u32) | ((self.memory[p + 2] as u32) << 16u32)
            | ((self.memory[p + 3] as u32) << 24u32);
        Ok(raw as i32)
    }

    /// Writes `value` as a `field_type` at `field_offset` of the data of the
    /// object at `heap_ref`. A value whose kind does not fit the type is refused.
    pub fn write_field(
        &mut self,
        heap_ref: HeapRef,
        field_offset: usize,
        value: Value,
        field_type: AllocationType,
    ) -> (r: Result<(), JvmError>)
        requires
            old(self).wf(),
        ensures
            final(self).wf(),
            final(self).same_setup(old(self)),
            final(self).string_pool() == old(self).string_pool(),
            write_field_post(old(self)@, heap_ref as int, field_offset as int, value, field_type, final(self)@, r),
    {
        let bytes = match encode(value, field_type) {
            Some(b) => b,
            None => {
                return Err(JvmError::Todo("Type mismatch in write_field".to_string()));
            },
        };
        if heap_ref as u128 + OBJECT_HEADER_SIZE as u128 + field_offset as u128 + bytes.len() as u128
            > self.memory.len() as u128 {
            return Err(JvmError::WrongHeapAddress(heap_ref));
        }
        self.write_bytes(heap_ref + OBJECT_HEADER_SIZE + field_offset, &bytes);
        Ok(())
    }

    /// Reads a `field_type` at `field_offset` of the data of the object at
    /// `heap_ref`.
    pub fn read_field(&self, heap_ref: HeapRef, field_offset: usize, field_type: AllocationType) -> (r: Result<Value, JvmError>)
        ensures
            read_field_post(self@, heap_ref as int, field_offset as int, field_type, r),
    {
        let size = field_type.byte_size();
        if heap_ref as u128 + OBJECT_HEADER_SIZE as u128 + field_offset as u128 + size as u128
            > self.memory.len() as u128 {
            return Err(JvmError::WrongHeapAddress(heap_ref));
        }
        let p = heap_ref + OBJECT_HEADER_SIZE + field_offset;
        let b = self.read_bytes(p, size);
        let v = match field_type {
            AllocationType::Boolean => Value::Integer(if b[0] != 0 { 1 } else { 0 }),
            AllocationType::Byte => Value::Integer((b[0] as i8) as i32),
            AllocationType::Short => Value::Integer((((b[0] as u16) | ((b[1] as u16) << 8u16)) as i16) as i32),
            AllocationType::Char => Value::Integer(((b[0] as u16) | ((b[1] as u16) << 8u16)) as i32),
            AllocationType::Int => Value::Integer(
                ((b[0] as u32) | ((b[1] as u32) << 8u32) | ((b[2] as u32) << 16u32) | ((b[3] as u32) << 24u32)) as i32,
            ),
            AllocationType::Float => Value::Float(
                (b[0] as u32) | ((b[1] as u32) << 8u32) | ((b[2] as u32) << 16u32) | ((b[3] as u32) << 24u32),
            ),
            AllocationType::Long | AllocationType::Double | AllocationType::Reference => {
                let x = (b[0] as u64) | ((b[1] as u64) << 8u64) | ((b[2] as u64) << 16u64) | ((b[3] as u64) << 24u64)
                    | ((b[4] as u64) << 32u64) | ((b[5] as u64) << 40u64) | ((b[6] as u64) << 48u64)
                    | ((b[7] as u64) << 56u64);
                match field_type {
                    AllocationType::Long => Value::Long(x as i64),
                    AllocationType::Double => Value::Double(x),
                    _ => if x == 0 { Value::Null } else { Value::Ref(x as usize) },
                }
            },
        };
        Ok(v)
    }

    /// Writes `value` to element `index` of the array at `heap_ref`; an index
    /// outside the array raises `ArrayIndexOutOfBoundsException`.
    pub fn write_array_element(&mut self, heap_ref: HeapRef, index: i32, value: Value) -> (r: Result<(), JvmError>)
        requires
            old(self).wf(),
        ensures
            final(self).wf(),
            final(self).same_setup(old(self)),
            final(self).string_pool() == old(self).string_pool(),
            array_write_post(old(self)@, heap_ref as int, index, value, final(self)@, r),
    {
        let length = self.get_array_length(heap_ref)?;
        if index < 0 || index >= length {
            return Err(index_error(index, length));
        }
        let element_type = self.get_allocation_type(heap_ref)?;
        let element_size = element_type.byte_size();
        let offset_wide = ARRAY_ELEMENTS_OFFSET as u128 + wide_mul(index as u128, element_size as u128);
        let mem_len = self.memory.len();
        if offset_wide > usize::MAX as u128 {
            // the element lies beyond any memory the heap can have
            assert(mem_len == old(self)@.len());
            return match encode(value, element_type) {
                None => Err(JvmError::Todo("Type mismatch in write_field".to_string())),
                Some(_) => Err(JvmError::WrongHeapAddress(heap_ref)),
            };
        }
        self.write_field(heap_ref, offset_wide as usize, value, element_type)
    }

    /// Reads element `index` of the array at `heap_ref`; an index outside the
    /// array raises `ArrayIndexOutOfBoundsException`.
    pub fn read_array_element(&self, heap_ref: HeapRef, index: i32) -> (r: Result<Value, JvmError>)
        ensures
            array_read_post(self@, heap_ref as int, index, r),
    {
        let length = self.get_array_length(heap_ref)?;
        if index < 0 || index >= length {
            return Err(index_error(index, length));
        }
        let element_type = self.get_allocation_type(heap_ref)?;
        let offset_wide = ARRAY_ELEMENTS_OFFSET as u128 + wide_mul(index as u128, element_type.byte_size() as u128);
        let mem_len = self.memory.len();
        if offset_wide > usize::MAX as u128 {
            // the element lies beyond any memory the heap can have
            assert(mem_len == self@.len());
            return Err(JvmError::WrongHeapAddress(heap_ref));
        }
        self.read_field(heap_ref, offset_wide as usize, element_type)
    }

    /// Copies `length` elements of the array at `src` from `src_pos` on to the
    /// array at `dest` from `dest_pos` on, as by a memory move (overlapping
    /// ranges are fine). Elements are sized by the source's element type.
    pub fn copy_primitive_slice(
        &mut self,
        src: HeapRef,
        src_pos: i32,
        dest: HeapRef,
        dest_pos: i32,
        length: i32,
    ) -> (r: Result<(), JvmError>)
        requires
            old(self).wf(),
        ensures
            final(self).wf(),
            final(self).same_setup(old(self)),
            final(self).string_pool() == old(self).string_pool(),
            array_copy_post(old(self)@, src as int, src_pos, dest as int, dest_pos, length, final(self)@, r),
    {
        let src_type = self.get_allocation_type(src)?;
        let _dest_type = self.get_allocation_type(dest)?;
        let src_array_len = self.get_array_length(src)?;
        let dest_array_len = self.get_array_length(dest)?;
        if src_pos < 0 || dest_pos < 0 || length < 0 || (src_pos as i64 + length as i64) > src_array_len as i64
            || (dest_pos as i64 + length as i64) > dest_array_len as i64 {
            let mut msg = String::new();
            push_str(&mut msg, "Start or destination index out of bounds");
            return Err(JvmError::JavaException(JavaExceptionFromJvm::with_message(
                JavaExceptionKind::ArrayIndexOutOfBoundsException,
                msg,
            )));
        }
        let element_size = src_type.byte_size();
        let n: u128 = wide_mul(length as u128, element_size as u128);
        let s: u128 = src as u128 + (OBJECT_HEADER_SIZE + ARRAY_ELEMENTS_OFFSET) as u128 + wide_mul(src_pos as u128, element_size as u128);
        let d: u128 = dest as u128 + (OBJECT_HEADER_SIZE + ARRAY_ELEMENTS_OFFSET) as u128 + wide_mul(dest_pos as u128, element_size as u128);
        if s + n > self.memory.len() as u128 {
            return Err(JvmError::WrongHeapAddress(src));
        }
        if d + n > self.memory.len() as u128 {
            return Err(JvmError::WrongHeapAddress(dest));
        }
        let bytes = self.read_bytes(s as usize, n as usize);
        self.write_bytes(d as usize, &bytes);
        Ok(())
    }

    /// Allocates a copy of the object at `src`: same data, class and array
    /// flag, unmarked. The copy's size field is left zero.
    pub fn clone_object(&mut self, src: HeapRef) -> (r: Result<HeapRef, JvmError>)
        requires
            old(self).wf(),
        ensures
            final(self).wf(),
            final(self).same_setup(old(self)),
            final(self).string_pool() == old(self).string_pool(),
            !has_header(old(self)@, src as int) ==> {
                &&& r == Err::<HeapRef, JvmError>(JvmError::WrongHeapAddress(src))
                &&& final(self)@ == old(self)@
            },
            has_header(old(self)@, src as int) ==> {
                let hd = header_at(old(self)@, src as int);
                if hd.size < OBJECT_HEADER_SIZE || src + hd.size > old(self)@.len() {
                    &&& r == Err::<HeapRef, JvmError>(JvmError::WrongHeapAddress(src))
                    &&& final(self)@ == old(self)@
                } else if old(self)@.len() + block_size(hd.size - OBJECT_HEADER_SIZE) > old(self).capacity() {
                    &&& r matches Err(JvmError::Todo(s)) && s@ == "Heap full"@
                    &&& final(self)@ == old(self)@
                } else {
                    &&& r == Ok::<HeapRef, JvmError>(old(self)@.len() as usize)
                    &&& final(self)@ == clone_image(old(self)@, src as int, hd)
                }
            },
    {
        let header = self.get_header(src)?;
        if (header.size as usize) < OBJECT_HEADER_SIZE || src as u128 + header.size as u128 > self.memory.len() as u128 {
            return Err(JvmError::WrongHeapAddress(src));
        }
        let data_size = header.size as usize - OBJECT_HEADER_SIZE;
        let data = self.read_bytes(src + OBJECT_HEADER_SIZE, data_size);
        let dest = self.alloc_raw(data_size)?;
        self.write_bytes(dest + OBJECT_HEADER_SIZE, &data);
        let mut head = u32_to_bytes(header.size);
        let mut class_bytes = u32_to_bytes(header.class_id);
        head.append(&mut class_bytes);
        head.push(0u8);
        head.push(if header.is_array { 1u8 } else { 0u8 });
        assert(head@ =~= header_bytes(header.size, header.class_id, header.is_array));
        self.write_bytes(dest, &head);
        Ok(dest)
    }

    /// The bytes of all elements of the array at `heap_ref`.
    pub fn get_array_bytes(&self, heap_ref: HeapRef) -> (r: Result<Vec<u8>, JvmError>)
        ensures
            !has_header(self@, heap_ref as int) ==> r == Err::<Vec<u8>, JvmError>(JvmError::WrongHeapAddress(heap_ref)),
            has_header(self@, heap_ref as int) && !header_at(self@, heap_ref as int).is_array ==> (r matches Err(
                JvmError::Todo(s),
            ) && s@ == "Not an array"@),
            has_header(self@, heap_ref as int) && header_at(self@, heap_ref as int).is_array ==> {
                if array_type_at(self@, heap_ref as int) is None {
                    r matches Err(e) && array_type_error(self@, heap_ref as int, e)
                } else if !has_elements(self@, heap_ref as int, array_type_at(self@, heap_ref as int)->0) {
                    r == Err::<Vec<u8>, JvmError>(JvmError::WrongHeapAddress(heap_ref))
                } else {
                    r matches Ok(v) && v@ == self@.subrange(
                        element_pos(heap_ref as int, 0, array_type_at(self@, heap_ref as int)->0),
                        element_pos(
                            heap_ref as int,
                            array_length_at(self@, heap_ref as int) as int,
                            array_type_at(self@, heap_ref as int)->0,
                        ),
                    )
                }
            },
    {
        let header = self.get_header(heap_ref)?;
        if !header.is_array() {
            return Err(JvmError::Todo("Not an array".to_string()));
        }
        let length = self.get_array_length(heap_ref)?;
        let allocation_type = self.get_allocation_type(heap_ref)?;
        let element_size = allocation_type.byte_size();
        if length < 0 || heap_ref as u128 + (OBJECT_HEADER_SIZE + ARRAY_ELEMENTS_OFFSET) as u128 + wide_mul(
            length as u128,
            element_size as u128,
        ) > self.memory.len() as u128 {
            return Err(JvmError::WrongHeapAddress(heap_ref));
        }
        let total_bytes = length as usize * element_size;
        Ok(self.read_bytes(heap_ref + OBJECT_HEADER_SIZE + ARRAY_ELEMENTS_OFFSET, total_bytes))
    }

    /// Checks that the array at `heap_ref` has elements of type `t` that all
    /// lie in memory, giving its length.
    fn checked_elements(&self, heap_ref: HeapRef, t: AllocationType, message: &str) -> (r: Result<usize, JvmError>)
        ensures
            match array_type_at(self@, heap_ref as int) {
                None => r matches Err(e) && array_type_error(self@, heap_ref as int, e),
                Some(actual) => if actual != t {
                    r matches Err(JvmError::Todo(s)) && s@ == message@
                } else if !has_elements(self@, heap_ref as int, t) {
                    r == Err::<usize, JvmError>(JvmError::WrongHeapAddress(heap_ref))
                } else {
                    r == Ok::<usize, JvmError>(array_length_at(self@, heap_ref as int) as usize)
                },
            },
    {
        let allocation_type = self.get_allocation_type(heap_ref)?;
        if allocation_type != t {
            let mut s = String::new();
            push_str(&mut s, message);
            return Err(JvmError::Todo(s));
        }
        let length = self.get_array_length(heap_ref)?;
        if length < 0 || heap_ref as u128 + (OBJECT_HEADER_SIZE + ARRAY_ELEMENTS_OFFSET) as u128 + wide_mul(
            length as u128,
            t.byte_size() as u128,
        ) > self.memory.len() as u128 {
            return Err(JvmError::WrongHeapAddress(heap_ref));
        }
        Ok(length as usize)
    }

    /// The elements of the byte array at `heap_ref`.
    pub fn get_byte_array_slice(&self, heap_ref: HeapRef) -> (r: Result<Vec<i8>, JvmError>)
        ensures
            elements_post(self@, heap_ref as int, AllocationType::Byte, "Not a byte array"@, r, byte_elements(self@, heap_ref as int)),
    {
        let length = self.checked_elements(heap_ref, AllocationType::Byte, "Not a byte array")?;
        let mem_len = self.memory.len();
        let base = heap_ref + OBJECT_HEADER_SIZE + ARRAY_ELEMENTS_OFFSET;
        let mut out: Vec<i8> = Vec::new();
        let mut i: usize = 0;
        while i < length
            invariant
                i <= length,
                length == array_length_at(self@, heap_ref as int),
                has_elements(self@, heap_ref as int, AllocationType::Byte),
                mem_len == self@.len(),
                base == element_pos(heap_ref as int, 0, AllocationType::Byte),
                out@ == byte_elements(self@, heap_ref as int).subrange(0, i as int),
            decreases length - i,
        {
            out.push(self.memory[base + i] as i8);
            i = i + 1;
            assert(out@ =~= byte_elements(self@, heap_ref as int).subrange(0, i as int));
        }
        assert(byte_elements(self@, heap_ref as int).subrange(0, length as int) =~= byte_elements(self@, heap_ref as int));
        Ok(out)
    }

    /// The elements of the char array at `heap_ref`.
    pub fn get_char_array_slice(&self, heap_ref: HeapRef) -> (r: Result<Vec<u16>, JvmError>)
        ensures
            elements_post(self@, heap_ref as int, AllocationType::Char, "Not a char array"@, r, char_elements(self@, heap_ref as int)),
    {
        let length = self.checked_elements(heap_ref, AllocationType::Char, "Not a char array")?;
        let mem_len = self.memory.len();
        let base = heap_ref + OBJECT_HEADER_SIZE + ARRAY_ELEMENTS_OFFSET;
        let mut out: Vec<u16> = Vec::new();
        let mut i: usize = 0;
        while i < length
            invariant
                i <= length,
                length == array_length_at(self@, heap_ref as int),
                has_elements(self@, heap_ref as int, AllocationType::Char),
                mem_len == self@.len(),
                base == element_pos(heap_ref as int, 0, AllocationType::Char),
                out@ == char_elements(self@, heap_ref as int).subrange(0, i as int),
            decreases length - i,
        {
            let p = base + 2 * i;
            out.push((self.memory[p] as u16) | ((self.memory[p + 1] as u16) << 8u16));
            i = i + 1;
            assert(out@ =~= char_elements(self@, heap_ref as int).subrange(0, i as int));
        }
        assert(char_elements(self@, heap_ref as int).subrange(0, length as int) =~= char_elements(self@, heap_ref as int));
        Ok(out)
    }

    /// The elements of the int array at `heap_ref`.
    pub fn get_int_array_slice(&self, heap_ref: HeapRef) -> (r: Result<Vec<i32>, JvmError>)
        ensures
            elements_post(self@, heap_ref as int, AllocationType::Int, "Not an int array"@, r, int_elements(self@, heap_ref as int)),
    {
        let length = self.checked_elements(heap_ref, AllocationType::Int, "Not an int array")?;
        let mem_len = self.memory.len();
        let base = heap_ref + OBJECT_HEADER_SIZE + ARRAY_ELEMENTS_OFFSET;
        let mut out: Vec<i32> = Vec::new();
        let mut i: usize = 0;
        while i < length
            invariant
                i <= length,
                length == array_length_at(self@, heap_ref as int),
                has_elements(self@, heap_ref as int, AllocationType::Int),
                mem_len == self@.len(),
                base == element_pos(heap_ref as int, 0, AllocationType::Int),
                out@ == int_elements(self@, heap_ref as int).subrange(0, i as int),
            decreases length - i,
        {
            let p = base + 4 * i;
            let raw = (self.memory[p] as u32) | ((self.memory[p + 1] as u32) << 8u32) | ((self.memory[p + 2] as u32) << 16u32)
                | ((self.memory[p + 3] as u32) << 24u32);
            out.push(raw as i32);
            i = i + 1;
            assert(out@ =~= int_elements(self@, heap_ref as int).subrange(0, i as int));
        }
        assert(int_elements(self@, heap_ref as int).subrange(0, length as int) =~= int_elements(self@, heap_ref as int));
        Ok(out)
    }
}

/// The product of a count that fits 32 bits and an element size.
fn wide_mul(a: u128, b: u128) -> (r: u128)
    requires
        a <= 0xffff_ffffu128,
        b <= 8,
    ensures
        r == a * b,
        r <= 0x8_0000_0000u128 - 8,
{
    assert(a * b <= 0xffff_ffffu128 * 8) by (nonlinear_arith)
        requires
            a <= 0xffff_ffffu128,
            b <= 8,
    ;
    a * b
}

/// The error of an access to element `index` of an array of `length` elements.
fn index_error(index: i32, length: i32) -> (e: JvmError)
    ensures
        raises_with_message(e, JavaExceptionKind::ArrayIndexOutOfBoundsException, index_message(index, length)),
{
    let mut s = String::new();
    push_str(&mut s, "Index ");
    push_signed_decimal(&mut s, index as i64);
    push_str(&mut s, " out of bounds for length ");
    push_signed_decimal(&mut s, length as i64);
    JvmError::JavaException(
        JavaExceptionFromJvm::with_message(JavaExceptionKind::ArrayIndexOutOfBoundsException, s),
    )
}

/// The value of element `index` of the array at `h`, when it can be read.
pub open spec fn array_element_value(m: Seq<u8>, h: int, index: i32) -> Option<Value> {
    if has_array_length(m, h) && 0 <= index < array_length_at(m, h) {
        match array_type_at(m, h) {
            Some(t) => if element_pos(h, index as int, t) + type_size(t) <= m.len() {
                Some(decode_field(m, element_pos(h, index as int, t), t))
            } else {
                None
            },
            None => None,
        }
    } else {
        None
    }
}

/// A read of an array element succeeds exactly when the element has a
/// value, and gives it.
pub proof fn lemma_array_read_value(m: Seq<u8>, h: int, index: i32, r: Result<Value, JvmError>)
    requires
        array_read_post(m, h, index, r),
    ensures
        r is Ok <==> array_element_value(m, h, index) is Some,
        r matches Ok(v) ==> array_element_value(m, h, index) == Some(v),
{
}

/// Whether writing `v` to element `index` of the array at `h` succeeds.
pub open spec fn array_element_writable(m: Seq<u8>, h: int, index: i32, v: Value) -> bool {
    &&& has_array_length(m, h)
    &&& 0 <= index < array_length_at(m, h)
    &&& array_type_at(m, h) matches Some(t) && encode_field(v, t) is Some && element_pos(
        h,
        index as int,
        t,
    ) + type_size(t) <= m.len()
}

/// A write to an array element succeeds exactly when the element is
/// writable with that value.
pub proof fn lemma_array_write_ok(m: Seq<u8>, h: int, index: i32, v: Value, m2: Seq<u8>, r: Result<(), JvmError>)
    requires
        array_write_post(m, h, index, v, m2, r),
    ensures
        r is Ok <==> array_element_writable(m, h, index, v),
        r is Err ==> m2 == m,
{
    if has_array_length(m, h) && 0 <= index < array_length_at(m, h) {
        if let Some(t) = array_type_at(m, h) {
            lemma_encode_len(v, t);
        }
    }
}

// ---------------------------------------------------------------------------
// Laws of the heap

/// Reading a field right after a successful write of `v` to it gives `v` as
/// the slot stores it.
pub proof fn law_field_read_after_write(
    m: Seq<u8>,
    h: int,
    off: int,
    v: Value,
    t: AllocationType,
    m2: Seq<u8>,
)
    requires
        0 <= h,
        0 <= off,
        write_field_post(m, h, off, v, t, m2, Ok(())),
    ensures
        read_field_post(m2, h, off, t, Ok(stored_value(v, t))),
{
    lemma_encode_len(v, t);
    lemma_decode_encode(m, data_start(h) + off, v, t);
}

/// A slot whose bytes are the encoding of `v` reads as `v` is stored.
pub proof fn lemma_decode_chunk(m: Seq<u8>, p: int, v: Value, t: AllocationType)
    requires
        encode_field(v, t) is Some,
        0 <= p,
        p + type_size(t) <= m.len(),
        m.subrange(p, p + type_size(t)) == encode_field(v, t)->0,
    ensures
        decode_field(m, p, t) == stored_value(v, t),
{
    lemma_encode_len(v, t);
    assert(splice(m, p, encode_field(v, t)->0) =~= m);
    lemma_decode_encode(m, p, v, t);
}

/// An array element reads the same from memory that agrees on the array's
/// length, element type and that element.
pub proof fn lemma_element_kept(m: Seq<u8>, m2: Seq<u8>, h: int, i: i32)
    requires
        array_element_value(m, h, i) is Some,
        ({
            let t = array_type_at(m, h)->0;
            let end = element_pos(h, i as int, t) + type_size(t);
            &&& end <= m2.len()
            &&& m2.subrange(data_start(h), end) == m.subrange(data_start(h), end)
        }),
    ensures
        array_element_value(m2, h, i) == array_element_value(m, h, i),
{
    let t = array_type_at(m, h)->0;
    let ds = data_start(h);
    let end = element_pos(h, i as int, t) + type_size(t);
    assert forall|k: int| ds <= k < end implies m2[k] == m[k] by {
        assert(m2[k] == m2.subrange(ds, end)[k - ds]);
        assert(m[k] == m.subrange(ds, end)[k - ds]);
    }
    assert(0 <= i * type_size(t)) by (nonlinear_arith)
        requires
            0 <= i,
    ;
    assert(array_length_at(m2, h) == array_length_at(m, h));
    assert(array_tag_at(m2, h) == array_tag_at(m, h));
    lemma_decode_local(m, m2, element_pos(h, i as int, t), t);
}

/// `decode_field` only looks at the bytes of its slot.
pub proof fn lemma_decode_local(m: Seq<u8>, m2: Seq<u8>, q: int, t: AllocationType)
    requires
        0 <= q,
        q + type_size(t) <= m.len(),
        q + type_size(t) <= m2.len(),
        forall|i: int| q <= i < q + type_size(t) ==> m2[i] == m[i],
    ensures
        decode_field(m2, q, t) == decode_field(m, q, t),
{
    assert(m2[q] == m[q]);
    if type_size(t) >= 2 {
        assert(m2[q + 1] == m[q + 1]);
    }
    if type_size(t) >= 4 {
        assert(m2[q + 2] == m[q + 2]);
        assert(m2[q + 3] == m[q + 3]);
    }
    if type_size(t) >= 8 {
        assert(m2[q + 4] == m[q + 4]);
        assert(m2[q + 5] == m[q + 5]);
        assert(m2[q + 6] == m[q + 6]);
        assert(m2[q + 7] == m[q + 7]);
    }
}

/// A write to one field leaves every field whose bytes do not overlap it
/// as it was.
pub proof fn law_field_write_keeps_others(
    m: Seq<u8>,
    h: int,
    off: int,
    v: Value,
    t: AllocationType,
    m2: Seq<u8>,
    h2: int,
    off2: int,
    t2: AllocationType,
)
    requires
        0 <= h,
        0 <= off,
        0 <= h2,
        0 <= off2,
        write_field_post(m, h, off, v, t, m2, Ok(())),
        data_start(h2) + off2 + type_size(t2) <= data_start(h) + off || data_start(h) + off
            + type_size(t) <= data_start(h2) + off2,
    ensures
        forall|r: Result<Value, JvmError>| #[trigger]
            read_field_post(m2, h2, off2, t2, r) == read_field_post(m, h2, off2, t2, r),
{
    lemma_encode_len(v, t);
    let p = data_start(h) + off;
    let b = encode_field(v, t)->0;
    let q = data_start(h2) + off2;
    assert(m2 == splice(m, p, b));
    assert(m2.len() == m.len());
    if q + type_size(t2) <= m.len() {
        assert forall|i: int| q <= i < q + type_size(t2) implies m2[i] == m[i] by {
            if i < p {
                assert(m2[i] == m.subrange(0, p)[i]);
            } else {
                assert(m2[i] == m.subrange(p + b.len(), m.len() as int)[i - p - b.len()]);
            }
        }
        lemma_decode_local(m, m2, q, t2);
    }
}

/// A successful field write leaves the array flag and the class of every
/// object whose header it does not overlap as they were.
pub proof fn law_field_write_keeps_array_flags(
    m: Seq<u8>,
    h: int,
    off: int,
    v: Value,
    t: AllocationType,
    m2: Seq<u8>,
    h2: int,
)
    requires
        0 <= h,
        0 <= off,
        write_field_post(m, h, off, v, t, m2, Ok(())),
        has_header(m, h2),
        h2 + OBJECT_HEADER_SIZE <= data_start(h) + off || data_start(h) + off + type_size(t) <= h2,
    ensures
        has_header(m2, h2),
        header_at(m2, h2).is_array == header_at(m, h2).is_array,
        header_at(m2, h2).class_id == header_at(m, h2).class_id,
{
    lemma_encode_len(v, t);
    let p = data_start(h) + off;
    let b = encode_field(v, t)->0;
    assert(m2 == splice(m, p, b));
    assert(m2.len() == m.len());
    assert forall|i: int| h2 <= i < h2 + OBJECT_HEADER_SIZE implies m2[i] == m[i] by {
        if i < p {
            assert(m2[i] == m.subrange(0, p)[i]);
        } else {
            assert(m2[i] == m.subrange(p + b.len(), m.len() as int)[i - p - b.len()]);
        }
    }
}

/// A successful array element write leaves the array flag and the class of
/// every object whose header it does not overlap as they were.
pub proof fn law_element_write_keeps_array_flags(m: Seq<u8>, h: int, index: i32, v: Value, m2: Seq<u8>, h2: int)
    requires
        0 <= h,
        array_write_post(m, h, index, v, m2, Ok(())),
        has_header(m, h2),
        ({
            let t = array_type_at(m, h)->0;
            let p = data_start(h) + ARRAY_ELEMENTS_OFFSET + index * type_size(t);
            h2 + OBJECT_HEADER_SIZE <= p || p + type_size(t) <= h2
        }),
    ensures
        has_header(m2, h2),
        header_at(m2, h2).is_array == header_at(m, h2).is_array,
        header_at(m2, h2).class_id == header_at(m, h2).class_id,
{
    let t = array_type_at(m, h)->0;
    let off = ARRAY_ELEMENTS_OFFSET + index * type_size(t);
    assert(index * type_size(t) >= 0) by (nonlinear_arith)
        requires
            index >= 0,
            type_size(t) >= 0,
    ;
    law_field_write_keeps_array_flags(m, h, off, v, t, m2, h2);
}

/// A successful array element write leaves every field whose bytes do not
/// overlap the element as it was, other elements of the array among them.
pub proof fn law_element_write_keeps_others(
    m: Seq<u8>,
    h: int,
    index: i32,
    v: Value,
    m2: Seq<u8>,
    h2: int,
    off2: int,
    t2: AllocationType,
)
    requires
        0 <= h,
        0 <= h2,
        0 <= off2,
        array_write_post(m, h, index, v, m2, Ok(())),
        ({
            let t = array_type_at(m, h)->0;
            let p = data_start(h) + ARRAY_ELEMENTS_OFFSET + index * type_size(t);
            data_start(h2) + off2 + type_size(t2) <= p || p + type_size(t) <= data_start(h2) + off2
        }),
    ensures
        forall|r: Result<Value, JvmError>| #[trigger]
            read_field_post(m2, h2, off2, t2, r) == read_field_post(m, h2, off2, t2, r),
{
    let t = array_type_at(m, h)->0;
    let off = ARRAY_ELEMENTS_OFFSET + index * type_size(t);
    assert(index * type_size(t) >= 0) by (nonlinear_arith)
        requires
            index >= 0,
            type_size(t) >= 0,
    ;
    law_field_write_keeps_others(m, h, off, v, t, m2, h2, off2, t2);
}

/// Reading an array element right after a successful write of `v` to it
/// gives `v` as the element slot stores it.
pub proof fn law_array_read_after_write(m: Seq<u8>, h: int, index: i32, v: Value, m2: Seq<u8>)
    requires
        0 <= h,
        array_write_post(m, h, index, v, m2, Ok(())),
    ensures
        array_read_post(m2, h, index, Ok(stored_value(v, array_type_at(m, h)->0))),
{
    let t = array_type_at(m, h)->0;
    let off = ARRAY_ELEMENTS_OFFSET + index * type_size(t);
    assert(0 <= index * type_size(t)) by (nonlinear_arith)
        requires
            0 <= index,
    ;
    law_field_read_after_write(m, h, off, v, t, m2);
    lemma_encode_len(v, t);
    let p = data_start(h) + off;
    let b = encode_field(v, t)->0;
    assert(m2 == splice(m, p, b));
    // the length and the element tag lie before the element
    let lp = data_start(h) + ARRAY_LENGTH_OFFSET;
    assert forall|i: int| lp <= i < lp + 5 implies m2[i] == m[i] by {
        assert(m2[i] == m.subrange(0, p)[i]);
    }
    assert(array_length_at(m2, h) == array_length_at(m, h));
    assert(array_tag_at(m2, h) == array_tag_at(m, h));
}

/// A slot reads the same wherever its bytes are the same.
pub proof fn lemma_decode_moved(m: Seq<u8>, q: int, m2: Seq<u8>, q2: int, t: AllocationType)
    requires
        0 <= q,
        q + type_size(t) <= m.len(),
        0 <= q2,
        q2 + type_size(t) <= m2.len(),
        m2.subrange(q2, q2 + type_size(t)) == m.subrange(q, q + type_size(t)),
    ensures
        decode_field(m2, q2, t) == decode_field(m, q, t),
{
    let a = m2.subrange(q2, q2 + type_size(t));
    let b = m.subrange(q, q + type_size(t));
    assert(m2[q2] == a[0] && m[q] == b[0]);
    if type_size(t) >= 2 {
        assert(m2[q2 + 1] == a[1] && m[q + 1] == b[1]);
    }
    if type_size(t) >= 4 {
        assert(m2[q2 + 2] == a[2] && m[q + 2] == b[2]);
        assert(m2[q2 + 3] == a[3] && m[q + 3] == b[3]);
    }
    if type_size(t) >= 8 {
        assert(m2[q2 + 4] == a[4] && m[q + 4] == b[4]);
        assert(m2[q2 + 5] == a[5] && m[q + 5] == b[5]);
        assert(m2[q2 + 6] == a[6] && m[q + 6] == b[6]);
        assert(m2[q2 + 7] == a[7] && m[q + 7] == b[7]);
    }
}

/// After a successful copy between arrays of one element type, element
/// `dp + i` of the destination holds what element `sp + i` of the source
/// held before, for every `i` below the length copied; overlapping ranges
/// included.
pub proof fn law_array_copy_reads_back(
    m: Seq<u8>,
    src: int,
    sp: i32,
    dst: int,
    dp: i32,
    length: i32,
    m2: Seq<u8>,
    i: int,
)
    requires
        0 <= src,
        0 <= dst,
        array_copy_post(m, src, sp, dst, dp, length, m2, Ok(())),
        array_type_at(m, dst) == array_type_at(m, src),
        0 <= i < length,
    ensures
        array_element_value(m2, dst, (dp + i) as i32) == array_element_value(m, src, (sp + i) as i32),
        array_element_value(m, src, (sp + i) as i32) is Some,
{
    let t = array_type_at(m, src)->0;
    let ts = type_size(t) as int;
    let n = length * ts;
    let s = element_pos(src, sp as int, t);
    let d = element_pos(dst, dp as int, t);
    assert(ts >= 1);
    assert(0 <= i * ts && i * ts + ts <= n) by (nonlinear_arith)
        requires
            0 <= i < length,
            ts >= 1,
            n == length * ts,
    ;
    assert(0 <= sp * ts && 0 <= dp * ts) by (nonlinear_arith)
        requires
            sp >= 0,
            dp >= 0,
            ts >= 1,
    ;
    assert((sp + i) * ts == sp * ts + i * ts) by (nonlinear_arith);
    assert((dp + i) * ts == dp * ts + i * ts) by (nonlinear_arith);
    assert(element_pos(src, sp + i, t) == s + i * ts);
    assert(element_pos(dst, dp + i, t) == d + i * ts);
    assert(m2 == splice(m, d, m.subrange(s, s + n)));
    assert(m2.len() == m.len());
    // the destination's length and element type lie before the copied bytes
    let lp = data_start(dst) + ARRAY_LENGTH_OFFSET;
    assert forall|k: int| lp <= k < lp + 5 implies m2[k] == m[k] by {
        assert(m2[k] == m.subrange(0, d)[k]);
    }
    assert(array_length_at(m2, dst) == array_length_at(m, dst));
    assert(array_tag_at(m2, dst) == array_tag_at(m, dst));
    // the element's bytes are those of the source element
    assert forall|j: int| 0 <= j < ts implies #[trigger] m2.subrange(d + i * ts, d + i * ts + ts)[j]
        == m.subrange(s + i * ts, s + i * ts + ts)[j] by {
        assert(m2[d + i * ts + j] == m.subrange(s, s + n)[i * ts + j]);
    }
    assert(m2.subrange(d + i * ts, d + i * ts + ts) =~= m.subrange(s + i * ts, s + i * ts + ts));
    lemma_decode_moved(m, s + i * ts, m2, d + i * ts, t);
}

/// The data bytes of a clone are those of the object it was cloned from.
proof fn lemma_clone_data(m: Seq<u8>, src: int, hd: ObjectHeader, k: int)
    requires
        0 <= src,
        hd.size >= OBJECT_HEADER_SIZE,
        src + hd.size <= m.len(),
        0 <= k < hd.size - OBJECT_HEADER_SIZE,
    ensures
        clone_image(m, src, hd)[data_start(m.len() as int) + k] == m[data_start(src) + k],
        clone_image(m, src, hd).len() == m.len() + block_size(hd.size - OBJECT_HEADER_SIZE),
{
    let ds = hd.size - OBJECT_HEADER_SIZE;
    let d = m.len() as int;
    let z = zero_extend(m, block_size(ds));
    let data = m.subrange(data_start(src), data_start(src) + ds);
    let m1 = splice(z, data_start(d), data);
    let head = header_bytes(hd.size, hd.class_id, hd.is_array);
    assert(block_size(ds) >= OBJECT_HEADER_SIZE + ds);
    assert(m1[data_start(d) + k] == data[k]);
    assert(clone_image(m, src, hd) == splice(m1, d, head));
    assert(clone_image(m, src, hd)[data_start(d) + k] == m1.subrange(d + head.len(), m1.len() as int)[data_start(
        d,
    ) + k - d - head.len()]);
}

/// A clone has the header of the object it was cloned from (its size, class
/// and array flag), unmarked, and every field within the object's data reads
/// the same in it.
pub proof fn law_clone_reads_same(m: Seq<u8>, src: int, off: int, t: AllocationType)
    requires
        has_header(m, src),
        header_at(m, src).size >= OBJECT_HEADER_SIZE,
        src + header_at(m, src).size <= m.len(),
        0 <= off,
        off + type_size(t) <= header_at(m, src).size - OBJECT_HEADER_SIZE,
    ensures
        ({
            let hd = header_at(m, src);
            let m2 = clone_image(m, src, hd);
            let c = m.len() as int;
            &&& header_at(m2, c) == (ObjectHeader { marked: false, ..hd })
            &&& decode_field(m2, data_start(c) + off, t) == decode_field(m, data_start(src) + off, t)
        }),
{
    let hd = header_at(m, src);
    let ds = hd.size - OBJECT_HEADER_SIZE;
    let d = m.len() as int;
    let m2 = clone_image(m, src, hd);
    let z = zero_extend(m, block_size(ds));
    let m1 = splice(z, data_start(d), m.subrange(data_start(src), data_start(src) + ds));
    assert(block_size(ds) >= OBJECT_HEADER_SIZE + ds);
    assert(m2 == splice(m1, d, header_bytes(hd.size, hd.class_id, hd.is_array)));
    lemma_header_roundtrip(m1, d, hd.size, hd.class_id, hd.is_array);
    let q2 = data_start(d) + off;
    let q = data_start(src) + off;
    assert forall|j: int| 0 <= j < type_size(t) implies #[trigger] m2.subrange(q2, q2 + type_size(t))[j]
        == m.subrange(q, q + type_size(t))[j] by {
        lemma_clone_data(m, src, hd, off + j);
    }
    assert(m2.subrange(q2, q2 + type_size(t)) =~= m.subrange(q, q + type_size(t)));
    lemma_clone_data(m, src, hd, off);
    lemma_decode_moved(m, q, m2, q2, t);
}

/// A freshly allocated array has the requested header, length and element
/// type, all elements zero, and leaves the memory before it untouched.
pub proof fn law_alloc_array_fresh(m: Seq<u8>, class_id: ClassId, length: i32, t: AllocationType)
    requires
        length >= 0,
        m.len() >= OBJECT_HEADER_SIZE,
    ensures
        ({
            let h = m.len() as int;
            let m2 = array_image(m, class_id, length, t);
            let size = array_data_size(length as int, t);
            &&& m2.len() == m.len() + block_size(size)
            &&& m2.subrange(0, h) == m
            &&& header_at(m2, h) == (ObjectHeader {
                size: (OBJECT_HEADER_SIZE + size) as u32,
                class_id: class_id.0,
                marked: false,
                is_array: true,
            })
            &&& array_length_at(m2, h) == length
            &&& array_type_at(m2, h) == Some(t)
            &&& has_elements(m2, h, t)
            &&& forall|i: int| element_pos(h, 0, t) <= i < m2.len() ==> m2[i] == 0
        }),
{
    let h = m.len() as int;
    let size = array_data_size(length as int, t);
    assert(0 <= length * type_size(t)) by (nonlinear_arith)
        requires
            0 <= length,
    ;
    let z = zero_extend(m, block_size(size));
    let hb = header_bytes((OBJECT_HEADER_SIZE + size) as u32, class_id.0, true);
    let m_a = splice(z, h, hb);
    lemma_header_roundtrip(z, h, (OBJECT_HEADER_SIZE + size) as u32, class_id.0, true);
    let lp = data_start(h) + ARRAY_LENGTH_OFFSET;
    let m_b = splice(m_a, lp, u32_bytes(length as u32));
    lemma_read_u32_splice(m_a, lp, length as u32);
    lemma_int_cast(length);
    let tp = data_start(h) + ARRAY_TYPE_OFFSET;
    let m2 = splice(m_b, tp, seq![type_tag(t)]);
    assert(m2 == array_image(m, class_id, length, t));
    // the header survives the later writes
    assert forall|i: int| h <= i < h + OBJECT_HEADER_SIZE implies m2[i] == m_a[i] by {
        assert(m2[i] == m_b.subrange(0, tp)[i]);
        assert(m_b[i] == m_a.subrange(0, lp)[i]);
    }
    assert(header_at(m2, h) == header_at(m_a, h));
    // the length survives the tag write
    assert forall|i: int| lp <= i < lp + 4 implies m2[i] == m_b[i] by {
        assert(m2[i] == m_b.subrange(0, tp)[i]);
    }
    assert(array_length_at(m2, h) == array_length_at(m_b, h));
    assert(m2[tp] == type_tag(t));
    lemma_tag_roundtrip(t);
    // memory before the block is unchanged
    assert forall|i: int| 0 <= i < h implies m2[i] == m[i] by {
        assert(m2[i] == m_b.subrange(0, tp)[i]);
        assert(m_b[i] == m_a.subrange(0, lp)[i]);
        assert(m_a[i] == z.subrange(0, h)[i]);
    }
    assert(m2.subrange(0, h) =~= m);
    // the elements are zero
    assert forall|i: int| element_pos(h, 0, t) <= i < m2.len() implies m2[i] == 0 by {
        assert(m2[i] == m_b.subrange(tp + 1, m_b.len() as int)[i - tp - 1]);
        assert(m_b[i] == m_a.subrange(lp + 4, m_a.len() as int)[i - lp - 4]);
        assert(m_a[i] == z.subrange(h + hb.len(), z.len() as int)[i - h - hb.len()]);
    }
    assert(block_size(size) >= OBJECT_HEADER_SIZE + size);
}

/// A freshly allocated instance has the requested header, all data zero,
/// and leaves the memory before it untouched.
pub proof fn law_alloc_instance_fresh(m: Seq<u8>, size: int, class_id: ClassId)
    requires
        size >= 0,
        m.len() >= OBJECT_HEADER_SIZE,
    ensures
        ({
            let h = m.len() as int;
            let m2 = instance_image(m, size, class_id);
            &&& m2.len() == m.len() + block_size(size)
            &&& m2.subrange(0, h) == m
            &&& header_at(m2, h) == (ObjectHeader {
                size: (OBJECT_HEADER_SIZE + size) as u32,
                class_id: class_id.0,
                marked: false,
                is_array: false,
            })
            &&& forall|i: int| data_start(h) <= i < m2.len() ==> m2[i] == 0
        }),
{
    let h = m.len() as int;
    let z = zero_extend(m, block_size(size));
    let hb = header_bytes((OBJECT_HEADER_SIZE + size) as u32, class_id.0, false);
    lemma_header_roundtrip(z, h, (OBJECT_HEADER_SIZE + size) as u32, class_id.0, false);
    let m2 = splice(z, h, hb);
    assert forall|i: int| 0 <= i < h implies m2[i] == m[i] by {
        assert(m2[i] == z.subrange(0, h)[i]);
    }
    assert(m2.subrange(0, h) =~= m);
    assert forall|i: int| data_start(h) <= i < m2.len() implies m2[i] == 0 by {
        assert(m2[i] == z.subrange(h + hb.len(), z.len() as int)[i - h - hb.len()]);
    }
}

} // verus!
