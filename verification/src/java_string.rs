//! Java strings on the heap. A `java.lang.String` instance holds, in its
//! first field, a reference to a byte array with its characters and, in its
//! second, the coder of those bytes: Latin-1 when every character fits a
//! byte, UTF-16 (little-endian code units) otherwise.
use crate::error::{HeapRef, JvmError};
use crate::heap::{
    array_data_size, array_image, array_length_at, array_tag_at, array_type_at, array_type_error, block_size,
    byte_elements, data_start, decode_field, element_pos, has_elements, instance_image, law_alloc_array_fresh,
    law_alloc_instance_fresh, le16, lemma_decode_encode, lemma_decode_local, lemma_le16, splice, u16_bytes,
    u64_bytes, AllocationType, ArrayType, Heap, ARRAY_ELEMENTS_OFFSET, ARRAY_LENGTH_OFFSET,
    OBJECT_HEADER_SIZE,
};
use crate::interner::{interned_strings, resolve};
use crate::keys::Symbol;
use crate::text::{push_char, push_signed_decimal, push_str, signed_decimal};
use crate::value::Value;
use vstd::prelude::*;

verus! {

/// The coder of a string whose bytes are Latin-1.
pub const LATIN1: i32 = 0;

/// The coder of a string whose bytes are UTF-16 code units.
pub const UTF16: i32 = 1;

/// `c` after the optional replacement `f` of one character by another.
pub open spec fn map_char(c: char, f: Option<(char, char)>) -> char {
    match f {
        Some((from, to)) => if c == from { to } else { c },
        None => c,
    }
}

/// `s` after the optional replacement `f`.
pub open spec fn mapped_chars(s: Seq<char>, f: Option<(char, char)>) -> Seq<char> {
    s.map_values(|c: char| map_char(c, f))
}

/// Whether every character of `s` fits one Latin-1 byte.
pub open spec fn is_latin1(s: Seq<char>) -> bool {
    forall|i: int| 0 <= i < s.len() ==> (#[trigger] s[i] as u32) <= 0xff
}

/// The Latin-1 bytes of `s`: each character's low byte.
pub open spec fn latin1_bytes(s: Seq<char>) -> Seq<u8> {
    s.map_values(|c: char| (c as u32) as u8)
}

/// The UTF-16 code units of one character.
pub open spec fn utf16_units_of(c: char) -> Seq<u16> {
    let v = c as u32;
    if v < 0x10000 {
        seq![v as u16]
    } else {
        seq![(0xd800 + (v - 0x10000) / 0x400) as u16, (0xdc00 + (v - 0x10000) % 0x400) as u16]
    }
}

/// The UTF-16 code units of `s`.
pub open spec fn utf16_encode(s: Seq<char>) -> Seq<u16>
    decreases s.len(),
{
    if s.len() == 0 {
        Seq::empty()
    } else {
        utf16_encode(s.drop_last()) + utf16_units_of(s.last())
    }
}

/// Code units laid out as little-endian bytes.
pub open spec fn utf16_bytes(u: Seq<u16>) -> Seq<u8> {
    Seq::new(2 * u.len(), |i: int| u16_bytes(u[i / 2])[i % 2])
}

/// The coder a string of the characters `s` gets.
pub open spec fn string_coder(s: Seq<char>) -> i32 {
    if is_latin1(s) { LATIN1 } else { UTF16 }
}

/// The bytes a string of the characters `s` holds in its value array.
pub open spec fn string_bytes(s: Seq<char>) -> Seq<u8> {
    if is_latin1(s) { latin1_bytes(s) } else { utf16_bytes(utf16_encode(s)) }
}

/// The memory after allocating, at the end of `m`, a byte array of class
/// `class_id` holding `bytes`.
pub open spec fn byte_array_image(m: Seq<u8>, class_id: crate::keys::ClassId, bytes: Seq<u8>) -> Seq<u8> {
    splice(
        array_image(m, class_id, bytes.len() as i32, AllocationType::Byte),
        element_pos(m.len() as int, 0, AllocationType::Byte),
        bytes,
    )
}

/// The memory after allocating, at the end of `m`, the value array of a
/// string of the characters `s` and then the string instance itself, with
/// its value and coder fields set.
pub open spec fn string_image(
    m: Seq<u8>,
    array_class: crate::keys::ClassId,
    string_class: crate::keys::ClassId,
    string_size: int,
    s: Seq<char>,
) -> Seq<u8> {
    let a = m.len() as int;
    let m1 = byte_array_image(m, array_class, string_bytes(s));
    let h = m1.len() as int;
    let m2 = instance_image(m1, string_size, string_class);
    splice(
        splice(m2, data_start(h), u64_bytes(a as u64)),
        data_start(h) + 8,
        seq![string_coder(s) as u8],
    )
}

/// Whether `r` is the "Heap full" error.
pub open spec fn heap_full(r: Result<HeapRef, JvmError>) -> bool {
    r matches Err(JvmError::Todo(msg)) && msg@ == "Heap full"@
}

/// What allocating a string of the characters `s` does to the heap `h0`,
/// giving `h1` and the result `r`: the value array first, then the instance,
/// each refused with "Heap full" when it does not fit; a value array longer
/// than an array can be is refused as out of memory.
pub open spec fn string_alloc_post(h0: Heap, h1: Heap, s: Seq<char>, r: Result<HeapRef, JvmError>) -> bool {
    &&& h1.wf()
    &&& h1.same_setup(&h0)
    &&& h1.string_pool() == h0.string_pool()
    &&& string_alloc_result(h0, h1@, s, r)
}

/// The memory `m1` and result `r` of allocating a string of the characters
/// `s` on the heap `h0`.
pub open spec fn string_alloc_result(h0: Heap, m1: Seq<u8>, s: Seq<char>, r: Result<HeapRef, JvmError>) -> bool {
    let m = h0@;
    let bytes = string_bytes(s);
    let array_block = block_size(array_data_size(bytes.len() as int, AllocationType::Byte));
    let string_block = block_size(h0.string_size() as int);
    if bytes.len() > i32::MAX {
        r == Err::<HeapRef, JvmError>(JvmError::OutOfMemory) && m1 == m
    } else if m.len() + array_block > h0.capacity() {
        heap_full(r) && m1 == m
    } else if m.len() + array_block + string_block > h0.capacity() {
        heap_full(r) && m1 == byte_array_image(m, h0.byte_array_class(), bytes)
    } else {
        &&& r == Ok::<HeapRef, JvmError>((m.len() + array_block) as usize)
        &&& m1 == string_image(m, h0.byte_array_class(), h0.string_class(), h0.string_size() as int, s)
    }
}

/// The memory after allocating a string of the characters `s` on memory `m`
/// of a heap set up as `h`, and the new string when the allocation succeeds.
#[verifier::opaque]
pub open spec fn string_alloc_at(h: Heap, m: Seq<u8>, s: Seq<char>) -> (Seq<u8>, Option<HeapRef>) {
    let bytes = string_bytes(s);
    let array_block = block_size(array_data_size(bytes.len() as int, AllocationType::Byte));
    let string_block = block_size(h.string_size() as int);
    if bytes.len() > i32::MAX || m.len() + array_block > h.capacity() {
        (m, None)
    } else if m.len() + array_block + string_block > h.capacity() {
        (byte_array_image(m, h.byte_array_class(), bytes), None)
    } else {
        (
            string_image(m, h.byte_array_class(), h.string_class(), h.string_size() as int, s),
            Some((m.len() + array_block) as usize),
        )
    }
}

/// Whether `e` is the error of allocating a string of the characters `s` on
/// memory `m` of a heap set up as `h`: out of memory for a value array
/// longer than an array can be, "Heap full" otherwise.
pub open spec fn string_alloc_error(h: Heap, m: Seq<u8>, s: Seq<char>, e: JvmError) -> bool {
    if string_bytes(s).len() > i32::MAX {
        e is OutOfMemory
    } else {
        heap_full(Err(e))
    }
}

/// Allocating a string is a function of the heap's setup and memory: on
/// `h0` it is what it is on memory `h0@` of any heap `h` set up the same.
pub proof fn lemma_string_alloc_at(h: Heap, h0: Heap, h1: Heap, s: Seq<char>, r: Result<HeapRef, JvmError>)
    requires
        string_alloc_post(h0, h1, s, r),
        h.same_setup(&h0),
    ensures
        h1@ == string_alloc_at(h, h0@, s).0,
        match string_alloc_at(h, h0@, s).1 {
            Some(x) => r == Ok::<HeapRef, JvmError>(x),
            None => r matches Err(e) && string_alloc_error(h, h0@, s, e),
        },
{
    reveal(string_alloc_at);
}

/// What asking the heap `h0` for the pooled string of `val_sym` does: the
/// pooled reference when there is one, else a new string of the symbol's
/// text, pooled when it was allocated; a symbol the interner cannot resolve
/// is refused.
pub open spec fn string_pool_post(h0: Heap, h1: Heap, val_sym: Symbol, r: Result<HeapRef, JvmError>) -> bool {
    if h0.string_pool().contains_key(val_sym) {
        r == Ok::<HeapRef, JvmError>(h0.string_pool()[val_sym]) && h1 == h0
    } else {
        ||| unknown_symbol(r) && h1 == h0
        ||| {
            &&& interned_strings(h0.interner()).contains_key(val_sym)
            &&& h1.wf()
            &&& h1.same_setup(&h0)
            &&& string_alloc_result(h0, h1@, interned_strings(h0.interner())[val_sym], r)
            &&& h1.string_pool() == (match r {
                Ok(h) => h0.string_pool().insert(val_sym, h),
                Err(_) => h0.string_pool(),
            })
        }
    }
}

/// What allocating a byte array holding `bytes` does to the heap `h0`.
pub open spec fn byte_array_alloc_post(h0: Heap, h1: Heap, bytes: Seq<u8>, r: Result<HeapRef, JvmError>) -> bool {
    let m = h0@;
    &&& h1.wf()
    &&& h1.same_setup(&h0)
    &&& h1.string_pool() == h0.string_pool()
    &&& if bytes.len() > i32::MAX {
        r == Err::<HeapRef, JvmError>(JvmError::OutOfMemory) && h1@ == m
    } else if m.len() + block_size(array_data_size(bytes.len() as int, AllocationType::Byte)) > h0.capacity() {
        heap_full(r) && h1@ == m
    } else {
        r == Ok::<HeapRef, JvmError>(m.len() as usize) && h1@ == byte_array_image(m, h0.byte_array_class(), bytes)
    }
}

/// Whether `r` refuses a symbol the interner does not know.
pub open spec fn unknown_symbol(r: Result<HeapRef, JvmError>) -> bool {
    r matches Err(JvmError::Todo(msg)) && msg@ == "Unknown string symbol"@
}

/// The array of a pair of an array and a coder.
pub open spec fn array_part(r: Result<(HeapRef, i32), JvmError>) -> Result<HeapRef, JvmError> {
    match r {
        Ok(p) => Ok(p.0),
        Err(e) => Err(e),
    }
}

/// The characters that Latin-1 bytes stand for.
pub open spec fn latin1_chars(b: Seq<i8>) -> Seq<char> {
    b.map_values(|x: i8| (x as u8) as char)
}

/// The code units of little-endian byte pairs.
pub open spec fn units_of_bytes(b: Seq<i8>) -> Seq<u16> {
    Seq::new(b.len() / 2, |j: int| le16(b[2 * j] as u8, b[2 * j + 1] as u8))
}

/// Whether `u` is the first unit of a surrogate pair.
pub open spec fn is_high_surrogate(u: u16) -> bool {
    0xd800 <= u && u <= 0xdbff
}

/// Whether `u` is the second unit of a surrogate pair.
pub open spec fn is_low_surrogate(u: u16) -> bool {
    0xdc00 <= u && u <= 0xdfff
}

/// The text that lossy UTF-16 decoding gives for `units` (std's
/// `String::from_utf16_lossy`): a surrogate pair gives the character it
/// encodes, a surrogate that is not part of a pair gives U+FFFD, and every
/// other unit the character of its value.
#[verifier::opaque]
pub open spec fn utf16_lossy(units: Seq<u16>) -> Seq<char>
    decreases units.len(),
{
    if units.len() == 0 {
        Seq::empty()
    } else if units.len() >= 2 && is_high_surrogate(units[0]) && is_low_surrogate(units[1]) {
        seq![(0x10000 + (units[0] - 0xd800) * 0x400 + (units[1] - 0xdc00)) as char] + utf16_lossy(units.skip(2))
    } else if is_high_surrogate(units[0]) || is_low_surrogate(units[0]) {
        seq!['\u{fffd}'] + utf16_lossy(units.skip(1))
    } else {
        seq![units[0] as char] + utf16_lossy(units.skip(1))
    }
}

/// The encoding of a sequence of characters is that of its first character
/// followed by that of the rest.
proof fn lemma_utf16_encode_front(cs: Seq<char>)
    requires
        cs.len() > 0,
    ensures
        utf16_encode(cs) == utf16_units_of(cs[0]) + utf16_encode(cs.drop_first()),
    decreases cs.len(),
{
    if cs.len() == 1 {
        assert(cs.drop_last() =~= Seq::<char>::empty());
        assert(cs.drop_first() =~= Seq::<char>::empty());
        assert(utf16_encode(cs) =~= utf16_units_of(cs[0]));
    } else {
        lemma_utf16_encode_front(cs.drop_last());
        assert(cs.drop_last().drop_first() =~= cs.drop_first().drop_last());
        assert(cs.drop_first().last() == cs.last());
        assert(utf16_encode(cs) =~= utf16_units_of(cs[0]) + utf16_encode(cs.drop_first()));
    }
}

/// Decoding the units of a character followed by `rest` gives the character
/// followed by what `rest` decodes to.
proof fn lemma_utf16_decode_char(c: char, rest: Seq<u16>)
    ensures
        utf16_lossy(utf16_units_of(c) + rest) == seq![c] + utf16_lossy(rest),
{
    reveal(utf16_lossy);
    let v = c as u32;
    let u = utf16_units_of(c) + rest;
    if v < 0x10000 {
        assert(u[0] == v);
        assert(u.skip(1) =~= rest);
    } else {
        let hi = (0xd800 + (v - 0x10000) / 0x400) as u16;
        let lo = (0xdc00 + (v - 0x10000) % 0x400) as u16;
        assert((v - 0x10000) / 0x400 <= 0x3ff) by (nonlinear_arith)
            requires
                0x10000 <= v <= 0x10ffff,
        ;
        assert(0x10000 + ((v - 0x10000) / 0x400) * 0x400 + (v - 0x10000) % 0x400 == v) by (nonlinear_arith)
            requires
                0x10000 <= v,
        ;
        assert(u[0] == hi && u[1] == lo);
        assert(u.skip(2) =~= rest);
    }
}

/// Units that encode a sequence of characters decode to exactly those
/// characters.
pub proof fn lemma_utf16_lossy_encode(cs: Seq<char>)
    ensures
        utf16_lossy(utf16_encode(cs)) == cs,
    decreases cs.len(),
{
    if cs.len() == 0 {
        reveal(utf16_lossy);
    } else {
        lemma_utf16_encode_front(cs);
        lemma_utf16_decode_char(cs[0], utf16_encode(cs.drop_first()));
        lemma_utf16_lossy_encode(cs.drop_first());
        assert(seq![cs[0]] + cs.drop_first() =~= cs);
    }
}

/// Decodes UTF-16 code units (std's `String::from_utf16_lossy`), replacing
/// each unpaired surrogate by U+FFFD.
#[verifier::external_body]
fn string_from_utf16_lossy(units: &Vec<u16>) -> (r: String)
    ensures
        r@ == utf16_lossy(units@),
{
    String::from_utf16_lossy(units)
}

/// Whether the array at `a` is a byte array whose elements all lie in memory.
pub open spec fn byte_array_readable(m: Seq<u8>, a: int) -> bool {
    array_type_at(m, a) == Some(AllocationType::Byte) && has_elements(m, a, AllocationType::Byte)
}

/// The error of reading the elements of the array at `a` as bytes, when it
/// is not a readable byte array.
pub open spec fn byte_array_error(m: Seq<u8>, a: int, e: JvmError) -> bool {
    match array_type_at(m, a) {
        None => array_type_error(m, a, e),
        Some(t) => if t != AllocationType::Byte {
            e matches JvmError::Todo(msg) && msg@ == "Not a byte array"@
        } else {
            e == JvmError::WrongHeapAddress(a as usize)
        },
    }
}

/// Whether `r` is the error `JvmError::Todo(msg)`.
pub open spec fn todo_error<T>(r: Result<T, JvmError>, msg: Seq<char>) -> bool {
    r matches Err(JvmError::Todo(t)) && t@ == msg
}

/// What reading the text of the `java.lang.String` at `h` gives: its value
/// array decoded by its coder.
pub open spec fn java_string_read(m: Seq<u8>, h: int, r: Result<String, JvmError>) -> bool {
    let p = data_start(h);
    if p + 8 > m.len() {
        r == Err::<String, JvmError>(JvmError::WrongHeapAddress(h as usize))
    } else {
        match decode_field(m, p, AllocationType::Reference) {
            Value::Ref(a) => if p + 9 > m.len() {
                r == Err::<String, JvmError>(JvmError::WrongHeapAddress(h as usize))
            } else if !byte_array_readable(m, a as int) {
                r matches Err(e) && byte_array_error(m, a as int, e)
            } else {
                let coder = (m[p + 8] as i8) as i32;
                let bytes = byte_elements(m, a as int);
                if coder == LATIN1 {
                    r matches Ok(t) && t@ == latin1_chars(bytes)
                } else if coder == UTF16 {
                    if bytes.len() % 2 != 0 {
                        todo_error(r, "Invalid UTF-16 byte array (odd length)"@)
                    } else {
                        r matches Ok(t) && t@ == utf16_lossy(units_of_bytes(bytes)) && forall|cs: Seq<char>|
                            #[trigger] utf16_encode(cs) == units_of_bytes(bytes) ==> t@ == cs
                    }
                } else {
                    todo_error(r, "Unknown String coder: "@ + signed_decimal(coder as int))
                }
            },
            _ => todo_error(r, "String.value is null"@),
        }
    }
}

/// The text of the `java.lang.String` at `h`, when it can be read.
pub open spec fn string_text(m: Seq<u8>, h: int) -> Option<Seq<char>> {
    let p = data_start(h);
    if p + 9 > m.len() {
        None
    } else {
        match decode_field(m, p, AllocationType::Reference) {
            Value::Ref(a) => if !byte_array_readable(m, a as int) {
                None
            } else {
                let coder = (m[p + 8] as i8) as i32;
                let bytes = byte_elements(m, a as int);
                if coder == LATIN1 {
                    Some(latin1_chars(bytes))
                } else if coder == UTF16 && bytes.len() % 2 == 0 {
                    Some(utf16_lossy(units_of_bytes(bytes)))
                } else {
                    None
                }
            },
            _ => None,
        }
    }
}

/// Reading a string succeeds exactly when its text can be read, and gives
/// that text.
pub proof fn lemma_string_read_text(m: Seq<u8>, h: int, r: Result<String, JvmError>)
    requires
        java_string_read(m, h, r),
    ensures
        r is Ok <==> string_text(m, h) is Some,
        r matches Ok(t) ==> t@ == string_text(m, h)->0,
{
}

/// Applies the optional replacement `f` to one character.
fn map_one(c: char, f: Option<(char, char)>) -> (r: char)
    ensures
        r == map_char(c, f),
{
    match f {
        Some((from, to)) => if c == from { to } else { c },
        None => c,
    }
}

/// Whether every character of `s` fits one Latin-1 byte.
pub fn can_encode_latin1(s: &str) -> (r: bool)
    ensures
        r == is_latin1(s@),
{
    assert(mapped_chars(s@, None) =~= s@);
    can_encode_latin1_with_map(s, None)
}

/// Whether every character of `s`, after the replacement `f`, fits one
/// Latin-1 byte.
pub fn can_encode_latin1_with_map(s: &str, f: Option<(char, char)>) -> (r: bool)
    ensures
        r == is_latin1(mapped_chars(s@, f)),
{
    let n = s.unicode_len();
    let mut i: usize = 0;
    while i < n
        invariant
            n == s@.len(),
            i <= n,
            forall|j: int| 0 <= j < i ==> (#[trigger] mapped_chars(s@, f)[j] as u32) <= 0xff,
        decreases n - i,
    {
        let c = map_one(s.get_char(i), f);
        if c as u32 > 0xff {
            assert(mapped_chars(s@, f)[i as int] == c);
            return false;
        }
        i = i + 1;
    }
    true
}

/// The Latin-1 bytes of `s` after the replacement `f`.
fn latin1_vec(s: &str, f: Option<(char, char)>) -> (r: Vec<u8>)
    ensures
        r@ == latin1_bytes(mapped_chars(s@, f)),
{
    let n = s.unicode_len();
    let mut out: Vec<u8> = Vec::new();
    let mut i: usize = 0;
    while i < n
        invariant
            n == s@.len(),
            i <= n,
            out@ == latin1_bytes(mapped_chars(s@, f)).subrange(0, i as int),
        decreases n - i,
    {
        let c = map_one(s.get_char(i), f);
        out.push((c as u32) as u8);
        i = i + 1;
        assert(out@ =~= latin1_bytes(mapped_chars(s@, f)).subrange(0, i as int));
    }
    assert(latin1_bytes(mapped_chars(s@, f)).subrange(0, n as int) =~= latin1_bytes(mapped_chars(s@, f)));
    out
}

/// Appends the little-endian UTF-16 bytes of `c`.
fn push_utf16(out: &mut Vec<u8>, c: char)
    ensures
        final(out)@ == old(out)@ + utf16_bytes(utf16_units_of(c)),
{
    let v = c as u32;
    if v < 0x10000 {
        let u = v as u16;
        out.push((u & 0xff) as u8);
        out.push((u >> 8u16) as u8);
        assert(final(out)@ =~= old(out)@ + utf16_bytes(utf16_units_of(c)));
    } else {
        let w = v - 0x10000;
        let hi = (0xd800 + w / 0x400) as u16;
        let lo = (0xdc00 + w % 0x400) as u16;
        out.push((hi & 0xff) as u8);
        out.push((hi >> 8u16) as u8);
        out.push((lo & 0xff) as u8);
        out.push((lo >> 8u16) as u8);
        assert(final(out)@ =~= old(out)@ + utf16_bytes(utf16_units_of(c)));
    }
}

proof fn lemma_utf16_bytes_concat(a: Seq<u16>, b: Seq<u16>)
    ensures
        utf16_bytes(a + b) == utf16_bytes(a) + utf16_bytes(b),
{
    assert forall|i: int| 0 <= i < utf16_bytes(a + b).len() implies #[trigger] utf16_bytes(a + b)[i] == (
    utf16_bytes(a) + utf16_bytes(b))[i] by {
        if i >= 2 * a.len() {
            assert((i - 2 * a.len()) / 2 == i / 2 - a.len());
            assert((i - 2 * a.len()) % 2 == i % 2);
        }
    }
    assert(utf16_bytes(a + b) =~= utf16_bytes(a) + utf16_bytes(b));
}

/// The little-endian UTF-16 bytes of `s` after the replacement `f`.
fn utf16_vec(s: &str, f: Option<(char, char)>) -> (r: Vec<u8>)
    ensures
        r@ == utf16_bytes(utf16_encode(mapped_chars(s@, f))),
{
    let n = s.unicode_len();
    let mut out: Vec<u8> = Vec::new();
    let mut i: usize = 0;
    while i < n
        invariant
            n == s@.len(),
            i <= n,
            out@ == utf16_bytes(utf16_encode(mapped_chars(s@, f).subrange(0, i as int))),
        decreases n - i,
    {
        let c = map_one(s.get_char(i), f);
        let ghost prefix = mapped_chars(s@, f).subrange(0, i as int);
        push_utf16(&mut out, c);
        i = i + 1;
        proof {
            let next = mapped_chars(s@, f).subrange(0, i as int);
            assert(next.drop_last() =~= prefix);
            assert(next.last() == c);
            lemma_utf16_bytes_concat(utf16_encode(prefix), utf16_units_of(c));
        }
    }
    assert(mapped_chars(s@, f).subrange(0, n as int) =~= mapped_chars(s@, f));
    out
}

impl Heap {
    /// Allocates a value array holding `bytes`.
    fn alloc_filled_byte_array(&mut self, bytes: &Vec<u8>) -> (r: Result<HeapRef, JvmError>)
        requires
            old(self).wf(),
        ensures
            byte_array_alloc_post(*old(self), *final(self), bytes@, r),
    {
        if bytes.len() > 0x7fff_ffff {
            return Err(JvmError::OutOfMemory);
        }
        let class_id = self.byte_array_class_id();
        let byte_array = self.alloc_primitive_array(class_id, ArrayType::Byte, bytes.len() as i32)?;
        let len = self.memory_len();
        proof {
            assert(len == old(self)@.len() + block_size(array_data_size(bytes@.len() as int, AllocationType::Byte)));
        }
        self.write_bytes(byte_array + OBJECT_HEADER_SIZE + ARRAY_ELEMENTS_OFFSET, bytes);
        assert(element_pos(old(self)@.len() as int, 0, AllocationType::Byte) == byte_array + OBJECT_HEADER_SIZE
            + ARRAY_ELEMENTS_OFFSET);
        Ok(byte_array)
    }

    /// Allocates the value array of an ASCII string: its bytes as they are.
    fn alloc_ascii_byte_array_internal(&mut self, s: &str) -> (r: Result<(HeapRef, i32), JvmError>)
        requires
            old(self).wf(),
            s.is_ascii(),
        ensures
            byte_array_alloc_post(*old(self), *final(self), latin1_bytes(s@), array_part(r)),
            r matches Ok((_, coder)) ==> coder == LATIN1,
    {
        broadcast use vstd::string::is_ascii_spec_bytes;
        let bytes = vstd::slice::slice_to_vec(s.as_bytes());
        proof {
            assert forall|i: int| 0 <= i < s@.len() implies #[trigger] bytes@[i] == latin1_bytes(s@)[i] by {
                assert(vstd::utf8::is_ascii_chars(s@));
            }
            assert(bytes@ =~= latin1_bytes(s@));
        }
        let byte_array = self.alloc_filled_byte_array(&bytes)?;
        Ok((byte_array, LATIN1))
    }

    /// Allocates the Latin-1 value array of `s` after the replacement `f`.
    fn alloc_latin1_byte_array_internal(&mut self, s: &str, f: Option<(char, char)>) -> (r: Result<
        (HeapRef, i32),
        JvmError,
    >)
        requires
            old(self).wf(),
        ensures
            byte_array_alloc_post(*old(self), *final(self), latin1_bytes(mapped_chars(s@, f)), array_part(r)),
            r matches Ok((_, coder)) ==> coder == LATIN1,
    {
        let bytes = latin1_vec(s, f);
        let byte_array = self.alloc_filled_byte_array(&bytes)?;
        Ok((byte_array, LATIN1))
    }

    /// Allocates the UTF-16 value array of `s` after the replacement `f`.
    fn alloc_utf16_byte_array_internal(&mut self, s: &str, f: Option<(char, char)>) -> (r: Result<
        (HeapRef, i32),
        JvmError,
    >)
        requires
            old(self).wf(),
        ensures
            byte_array_alloc_post(
                *old(self),
                *final(self),
                utf16_bytes(utf16_encode(mapped_chars(s@, f))),
                array_part(r),
            ),
            r matches Ok((_, coder)) ==> coder == UTF16,
    {
        let bytes = utf16_vec(s, f);
        let byte_array = self.alloc_filled_byte_array(&bytes)?;
        Ok((byte_array, UTF16))
    }

    /// Allocates a `java.lang.String` of the characters of `s` after the
    /// replacement `f`: Latin-1 when they all fit a byte, UTF-16 otherwise.
    pub fn alloc_string_from_str_with_char_mapping(&mut self, s: &str, f: Option<(char, char)>) -> (r: Result<
        HeapRef,
        JvmError,
    >)
        requires
            old(self).wf(),
            old(self).string_size() >= 9,
        ensures
            string_alloc_post(*old(self), *final(self), mapped_chars(s@, f), r),
    {
        let ghost cs = mapped_chars(s@, f);
        let ghost m0 = self@;
        let start_len = self.memory_len();
        let (byte_array_ref, coder) = if f.is_none() && s.is_ascii() {
            proof {
                assert(cs =~= s@);
                assert(is_latin1(cs)) by {
                    assert forall|i: int| 0 <= i < cs.len() implies (#[trigger] cs[i] as u32) <= 0xff by {
                        assert(vstd::utf8::is_ascii_chars(s@));
                    }
                }
            }
            self.alloc_ascii_byte_array_internal(s)?
        } else if can_encode_latin1_with_map(s, f) {
            self.alloc_latin1_byte_array_internal(s, f)?
        } else {
            self.alloc_utf16_byte_array_internal(s, f)?
        };
        let ghost m1 = self@;
        let mid_len = self.memory_len();
        assert(m1 == byte_array_image(m0, old(self).byte_array_class(), string_bytes(cs)));
        assert(coder == string_coder(cs));
        assert(byte_array_ref == start_len);
        let size = self.string_instance_size();
        let class_id = self.string_class_id();
        let string_instance = self.alloc_instance(size, class_id)?;
        let ghost m2 = self@;
        assert(m2.len() == m1.len() + block_size(size as int));
        assert(data_start(string_instance as int) + 9 <= m2.len());
        self.write_field(string_instance, 0, Value::Ref(byte_array_ref), AllocationType::Reference)?;
        assert(self@ == splice(m2, data_start(string_instance as int), u64_bytes(m0.len() as u64)));
        self.write_field(
            string_instance,
            AllocationType::Reference.byte_size(),
            Value::Integer(coder),
            AllocationType::Byte,
        )?;
        assert(m1.len() == m0.len() + block_size(array_data_size(string_bytes(cs).len() as int, AllocationType::Byte)));
        assert(string_instance == mid_len);
        assert(m2 == instance_image(m1, old(self).string_size() as int, old(self).string_class()));
        assert(self@ == string_image(m0, old(self).byte_array_class(), old(self).string_class(), old(self).string_size() as int, cs));
        assert(self.same_setup(&*old(self)));
        Ok(string_instance)
    }

    /// Allocates a `java.lang.String` of the characters of `s`.
    pub fn alloc_string(&mut self, s: &str) -> (r: Result<HeapRef, JvmError>)
        requires
            old(self).wf(),
            old(self).string_size() >= 9,
        ensures
            string_alloc_post(*old(self), *final(self), s@, r),
    {
        assert(mapped_chars(s@, None) =~= s@);
        self.alloc_string_from_str_with_char_mapping(s, None)
    }

    /// Allocates a `java.lang.String` of the interned string `val_sym` after
    /// the replacement `f`. A symbol the interner does not know is refused.
    pub fn alloc_string_from_interned_with_char_mapping(&mut self, val_sym: Symbol, f: Option<(char, char)>) -> (r: Result<
        HeapRef,
        JvmError,
    >)
        requires
            old(self).wf(),
            old(self).string_size() >= 9,
        ensures
            unknown_symbol(r) && *final(self) == *old(self) || {
                &&& interned_strings(old(self).interner()).contains_key(val_sym)
                &&& string_alloc_post(*old(self), *final(self), mapped_chars(interned_strings(old(self).interner())[val_sym], f), r)
            },
    {
        let resolved = resolve(self.string_interner(), val_sym);
        match resolved {
            Some(s) => self.alloc_string_from_str_with_char_mapping(s.as_str(), f),
            None => Err(JvmError::Todo("Unknown string symbol".to_string())),
        }
    }

    /// Allocates a `java.lang.String` of the interned string `val_sym`.
    pub fn alloc_string_from_interned(&mut self, val_sym: Symbol) -> (r: Result<HeapRef, JvmError>)
        requires
            old(self).wf(),
            old(self).string_size() >= 9,
        ensures
            unknown_symbol(r) && *final(self) == *old(self) || {
                &&& interned_strings(old(self).interner()).contains_key(val_sym)
                &&& string_alloc_post(*old(self), *final(self), interned_strings(old(self).interner())[val_sym], r)
            },
    {
        let r = self.alloc_string_from_interned_with_char_mapping(val_sym, None);
        assert(mapped_chars(interned_strings(old(self).interner())[val_sym], None) =~= interned_strings(
            old(self).interner(),
        )[val_sym]);
        r
    }

    /// The pooled `java.lang.String` of the interned string `val_sym`,
    /// allocated and pooled on first use.
    pub fn get_str_from_pool_or_new(&mut self, val_sym: Symbol) -> (r: Result<HeapRef, JvmError>)
        requires
            old(self).wf(),
            old(self).string_size() >= 9,
        ensures
            string_pool_post(*old(self), *final(self), val_sym, r),
    {
        match self.pooled_string(val_sym) {
            Some(h) => Ok(h),
            None => {
                let res = self.alloc_string_from_interned(val_sym)?;
                self.pool_string(val_sym, res);
                Ok(res)
            },
        }
    }

    /// The text of the `java.lang.String` at `h`, decoded from its value
    /// array by its coder.
    pub fn get_rust_string_from_java_string(&self, h: HeapRef) -> (r: Result<String, JvmError>)
        ensures
            java_string_read(self@, h as int, r),
    {
        let byte_array_ref = match self.read_field(h, 0, AllocationType::Reference)? {
            Value::Ref(a) => a,
            Value::Null => {
                return Err(JvmError::Todo("String.value is null".to_string()));
            },
            _ => {
                return Err(JvmError::Todo("String.value is not a reference".to_string()));
            },
        };
        let coder = match self.read_field(h, 8, AllocationType::Byte)? {
            Value::Integer(c) => c,
            _ => {
                return Err(JvmError::Todo("String.coder is not a byte".to_string()));
            },
        };
        let bytes = self.get_byte_array_slice(byte_array_ref)?;
        let n = bytes.len();
        if coder == LATIN1 {
            let mut text = String::new();
            let mut i: usize = 0;
            while i < n
                invariant
                    n == bytes@.len(),
                    i <= n,
                    text@ == latin1_chars(bytes@).subrange(0, i as int),
                decreases n - i,
            {
                push_char(&mut text, (bytes[i] as u8) as char);
                i = i + 1;
                assert(text@ =~= latin1_chars(bytes@).subrange(0, i as int));
            }
            assert(latin1_chars(bytes@).subrange(0, n as int) =~= latin1_chars(bytes@));
            Ok(text)
        } else if coder == UTF16 {
            if n % 2 != 0 {
                return Err(JvmError::Todo("Invalid UTF-16 byte array (odd length)".to_string()));
            }
            let mut units: Vec<u16> = Vec::new();
            let mut j: usize = 0;
            while j < n / 2
                invariant
                    n == bytes@.len(),
                    n % 2 == 0,
                    j <= n / 2,
                    units@ == units_of_bytes(bytes@).subrange(0, j as int),
                decreases n / 2 - j,
            {
                let lo = bytes[2 * j] as u8;
                let hi = bytes[2 * j + 1] as u8;
                units.push((lo as u16) | ((hi as u16) << 8u16));
                j = j + 1;
                assert(units@ =~= units_of_bytes(bytes@).subrange(0, j as int));
            }
            assert(units_of_bytes(bytes@).subrange(0, (n / 2) as int) =~= units_of_bytes(bytes@));
            let text = string_from_utf16_lossy(&units);
            proof {
                assert forall|cs: Seq<char>| #[trigger] utf16_encode(cs) == units@ implies text@ == cs by {
                    lemma_utf16_lossy_encode(cs);
                }
            }
            Ok(text)
        } else {
            let mut msg = String::new();
            push_str(&mut msg, "Unknown String coder: ");
            push_signed_decimal(&mut msg, coder as i64);
            Err(JvmError::Todo(msg))
        }
    }
}

proof fn lemma_byte_roundtrip(x: u8)
    by (bit_vector)
    ensures
        (x as i8) as u8 == x,
{
}

proof fn lemma_latin1_char(c: char)
    requires
        (c as u32) <= 0xff,
    ensures
        (((c as u32) as u8) as char) == c,
{
    let v = c as u32;
    assert(((v as u8) as u32) == v) by (bit_vector)
        requires
            v <= 0xff,
    ;
}

/// Facts about the value array of a string allocated at the end of `m`.
proof fn lemma_byte_array_image(m: Seq<u8>, class_id: crate::keys::ClassId, bytes: Seq<u8>)
    requires
        m.len() >= OBJECT_HEADER_SIZE,
        bytes.len() <= i32::MAX,
    ensures
        ({
            let a = m.len() as int;
            let m1 = byte_array_image(m, class_id, bytes);
            &&& m1.len() == m.len() + block_size(array_data_size(bytes.len() as int, AllocationType::Byte))
            &&& m1.subrange(0, a) == m
            &&& array_length_at(m1, a) == bytes.len() as i32
            &&& array_type_at(m1, a) == Some(AllocationType::Byte)
            &&& has_elements(m1, a, AllocationType::Byte)
            &&& forall|i: int| 0 <= i < bytes.len() ==> #[trigger] m1[element_pos(a, i, AllocationType::Byte)] == bytes[i]
        }),
{
    let a = m.len() as int;
    let n = bytes.len() as i32;
    law_alloc_array_fresh(m, class_id, n, AllocationType::Byte);
    let ma = array_image(m, class_id, n, AllocationType::Byte);
    let p = element_pos(a, 0, AllocationType::Byte);
    let m1 = splice(ma, p, bytes);
    assert(m1.len() == ma.len());
    assert forall|i: int| 0 <= i < p implies m1[i] == ma[i] by {
        assert(m1[i] == ma.subrange(0, p)[i]);
    }
    assert(m1.subrange(0, a) =~= m) by {
        assert forall|i: int| 0 <= i < a implies m1.subrange(0, a)[i] == m[i] by {
            assert(ma.subrange(0, a)[i] == m[i]);
        }
    }
    assert(array_length_at(m1, a) == array_length_at(ma, a));
    assert(array_tag_at(m1, a) == array_tag_at(ma, a));
    assert forall|i: int| 0 <= i < bytes.len() implies #[trigger] m1[element_pos(a, i, AllocationType::Byte)] == bytes[i] by {
        assert(m1[p + i] == bytes[i]);
    }
}

/// The fields of a string allocated at the end of `m` and the bytes of its
/// value array.
#[verifier::rlimit(40)]
proof fn lemma_string_image(
    m: Seq<u8>,
    array_class: crate::keys::ClassId,
    string_class: crate::keys::ClassId,
    string_size: int,
    s: Seq<char>,
)
    requires
        m.len() >= OBJECT_HEADER_SIZE,
        string_size >= 9,
        string_bytes(s).len() <= i32::MAX,
        string_image(m, array_class, string_class, string_size, s).len() <= usize::MAX,
    ensures
        ({
            let bytes = string_bytes(s);
            let a = m.len() as int;
            let hs = a + block_size(array_data_size(bytes.len() as int, AllocationType::Byte));
            let m4 = string_image(m, array_class, string_class, string_size, s);
            &&& data_start(hs) + 9 <= m4.len()
            &&& decode_field(m4, data_start(hs), AllocationType::Reference) == Value::Ref(a as usize)
            &&& (m4[data_start(hs) + 8] as i8) as i32 == string_coder(s)
            &&& byte_array_readable(m4, a)
            &&& byte_elements(m4, a) == bytes.map_values(|b: u8| b as i8)
        }),
{
    let bytes = string_bytes(s);
    let a = m.len() as int;
    let m1 = byte_array_image(m, array_class, bytes);
    lemma_byte_array_image(m, array_class, bytes);
    let hs = m1.len() as int;
    let m2 = instance_image(m1, string_size, string_class);
    law_alloc_instance_fresh(m1, string_size, string_class);
    let p = data_start(hs);
    let m3 = splice(m2, p, u64_bytes(a as u64));
    let coder = string_coder(s);
    let m4 = splice(m3, p + 8, seq![coder as u8]);
    assert(m2.len() >= p + 9);
    assert(m4.len() == m2.len());
    // the value field holds the array
    lemma_decode_encode(m2, p, Value::Ref(a as usize), AllocationType::Reference);
    assert forall|i: int| p <= i < p + 8 implies m4[i] == m3[i] by {
        assert(m4[i] == m3.subrange(0, p + 8)[i]);
    }
    lemma_decode_local(m3, m4, p, AllocationType::Reference);
    // the coder field holds the coder
    assert(m4[p + 8] == coder as u8);
    assert(((coder as u8) as i8) as i32 == coder);
    // the array lies before the instance, untouched
    assert forall|i: int| 0 <= i < hs implies #[trigger] m4[i] == m1[i] by {
        assert(m4[i] == m3.subrange(0, p + 8)[i]);
        assert(m3[i] == m2.subrange(0, p)[i]);
        assert(m2.subrange(0, hs)[i] == m1[i]);
    }
    let lp = data_start(a) + ARRAY_LENGTH_OFFSET;
    assert(m4[lp] == m1[lp] && m4[lp + 1] == m1[lp + 1] && m4[lp + 2] == m1[lp + 2] && m4[lp + 3] == m1[lp + 3]);
    assert(array_length_at(m4, a) == array_length_at(m1, a));
    assert(array_tag_at(m4, a) == array_tag_at(m1, a));
    let elems = byte_elements(m4, a);
    assert forall|i: int| 0 <= i < bytes.len() implies #[trigger] elems[i] == bytes[i] as i8 by {
        assert(m4[element_pos(a, i, AllocationType::Byte)] == m1[element_pos(a, i, AllocationType::Byte)]);
    }
    assert(elems =~= bytes.map_values(|b: u8| b as i8));
}

/// Reading the text of a string allocated at the end of `m` gives its
/// characters back, whether they are stored as Latin-1 or as UTF-16.
pub proof fn law_string_read_after_alloc(
    m: Seq<u8>,
    array_class: crate::keys::ClassId,
    string_class: crate::keys::ClassId,
    string_size: int,
    s: Seq<char>,
    t: Result<String, JvmError>,
)
    requires
        m.len() >= OBJECT_HEADER_SIZE,
        string_size >= 9,
        string_bytes(s).len() <= i32::MAX,
        string_image(m, array_class, string_class, string_size, s).len() <= usize::MAX,
        java_string_read(
            string_image(m, array_class, string_class, string_size, s),
            m.len() + block_size(array_data_size(string_bytes(s).len() as int, AllocationType::Byte)),
            t,
        ),
    ensures
        t matches Ok(text) && text@ == s,
{
    lemma_string_image(m, array_class, string_class, string_size, s);
    if is_latin1(s) {
        lemma_latin1_roundtrip(s);
    } else {
        lemma_utf16_roundtrip(utf16_encode(s));
        let m4 = string_image(m, array_class, string_class, string_size, s);
        let hs = m.len() + block_size(array_data_size(string_bytes(s).len() as int, AllocationType::Byte));
        let a = decode_field(m4, data_start(hs), AllocationType::Reference)->Ref_0;
        assert(utf16_encode(s) == units_of_bytes(byte_elements(m4, a as int)));
    }
}

proof fn lemma_latin1_roundtrip(s: Seq<char>)
    requires
        is_latin1(s),
    ensures
        latin1_chars(latin1_bytes(s).map_values(|b: u8| b as i8)) == s,
{
    let bytes = latin1_bytes(s);
    let elems = bytes.map_values(|b: u8| b as i8);
    assert(latin1_chars(elems) =~= s) by {
        assert forall|i: int| 0 <= i < s.len() implies #[trigger] latin1_chars(elems)[i] == s[i] by {
            lemma_byte_roundtrip(bytes[i]);
            lemma_latin1_char(s[i]);
        }
    }
}

proof fn lemma_utf16_roundtrip(u: Seq<u16>)
    ensures
        units_of_bytes(utf16_bytes(u).map_values(|b: u8| b as i8)) == u,
{
    let bytes = utf16_bytes(u);
    let elems = bytes.map_values(|b: u8| b as i8);
    assert(units_of_bytes(elems) =~= u) by {
        assert forall|j: int| 0 <= j < u.len() implies #[trigger] units_of_bytes(elems)[j] == u[j] by {
            assert((2 * j) / 2 == j && (2 * j) % 2 == 0);
            assert((2 * j + 1) / 2 == j && (2 * j + 1) % 2 == 1);
            lemma_byte_roundtrip(bytes[2 * j]);
            lemma_byte_roundtrip(bytes[2 * j + 1]);
            lemma_le16(u[j]);
        }
    }
}

/// The memory after allocating a string ends past the string's instance.
proof fn lemma_string_image_len(
    m: Seq<u8>,
    array_class: crate::keys::ClassId,
    string_class: crate::keys::ClassId,
    string_size: int,
    s: Seq<char>,
)
    requires
        m.len() >= OBJECT_HEADER_SIZE,
        string_size >= 9,
        string_bytes(s).len() <= i32::MAX,
    ensures
        string_image(m, array_class, string_class, string_size, s).len() > m.len() + block_size(
            array_data_size(string_bytes(s).len() as int, AllocationType::Byte),
        ),
{
    let bytes = string_bytes(s);
    lemma_byte_array_image(m, array_class, bytes);
    let m1 = byte_array_image(m, array_class, bytes);
    law_alloc_instance_fresh(m1, string_size, string_class);
    let h = m1.len() as int;
    let m2 = instance_image(m1, string_size, string_class);
    assert(block_size(string_size) >= OBJECT_HEADER_SIZE + string_size);
    let m3 = splice(m2, data_start(h), u64_bytes(m.len() as u64));
    assert(m3.len() == m2.len());
    let m4 = splice(m3, data_start(h) + 8, seq![string_coder(s) as u8]);
    assert(m4.len() == m3.len());
}

/// A string newly pooled for a symbol reads back as the symbol's text.
pub proof fn law_pooled_string_reads_its_text(
    h0: Heap,
    h1: Heap,
    k: Symbol,
    r: Result<HeapRef, JvmError>,
    t: Result<String, JvmError>,
)
    requires
        h0.wf(),
        h0.string_size() >= 9,
        !h0.string_pool().contains_key(k),
        string_pool_post(h0, h1, k, r),
        r is Ok,
        java_string_read(h1@, r->Ok_0 as int, t),
    ensures
        t matches Ok(text) && text@ == interned_strings(h0.interner())[k],
{
    h0.law_heap_end_aligned();
    h1.lemma_memory_fits();
    let s = interned_strings(h0.interner())[k];
    law_string_read_after_alloc(h0@, h0.byte_array_class(), h0.string_class(), h0.string_size() as int, s, t);
}

/// Strings newly pooled for two symbols, one after the other, are two
/// different strings.
#[verifier::rlimit(50)]
pub proof fn law_distinct_symbols_distinct_strings(
    h0: Heap,
    h1: Heap,
    h2: Heap,
    k1: Symbol,
    k2: Symbol,
    r1: Result<HeapRef, JvmError>,
    r2: Result<HeapRef, JvmError>,
)
    requires
        h0.wf(),
        h0.string_size() >= 9,
        !h0.string_pool().contains_key(k1),
        string_pool_post(h0, h1, k1, r1),
        r1 is Ok,
        !h1.string_pool().contains_key(k2),
        string_pool_post(h1, h2, k2, r2),
        r2 is Ok,
    ensures
        k1 != k2,
        r1 != r2,
{
    h0.law_heap_end_aligned();
    h0.lemma_capacity_fits();
    let s1 = interned_strings(h0.interner())[k1];
    let s2 = interned_strings(h1.interner())[k2];
    let b1 = block_size(array_data_size(string_bytes(s1).len() as int, AllocationType::Byte));
    let b2 = block_size(array_data_size(string_bytes(s2).len() as int, AllocationType::Byte));
    assert(r1 == Ok::<HeapRef, JvmError>((h0@.len() + b1) as usize));
    assert(string_bytes(s1).len() <= i32::MAX);
    lemma_string_image_len(h0@, h0.byte_array_class(), h0.string_class(), h0.string_size() as int, s1);
    assert(h1@.len() > h0@.len() + b1);
    assert(r2 == Ok::<HeapRef, JvmError>((h1@.len() + b2) as usize));
    assert(b2 >= 0);
    assert(h1@.len() + b2 <= h0.capacity());
    assert(h0@.len() + b1 < h1@.len() + b2);
}

/// Once the string of a symbol is pooled, asking for it again gives the
/// same reference and leaves the heap as it is.
pub proof fn law_pooled_string_is_stable(
    h0: Heap,
    h1: Heap,
    h2: Heap,
    val_sym: Symbol,
    r1: Result<HeapRef, JvmError>,
    r2: Result<HeapRef, JvmError>,
)
    requires
        string_pool_post(h0, h1, val_sym, r1),
        r1 is Ok,
        string_pool_post(h1, h2, val_sym, r2),
    ensures
        r2 == r1,
        h2 == h1,
{
}

} // verus!
