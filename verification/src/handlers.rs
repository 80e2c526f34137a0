//! The effect of each bytecode instruction on the current frame (and, for
//! array and field instructions, on the heap).
use crate::constant_pool::{
    class_res, constant_res, exact_fault, names, pool_fault_error, resolved, string_res, RuntimeConstant,
    RuntimeConstantPool,
};
use crate::error::{raises_with_message, HeapRef, JavaExceptionFromJvm, JavaExceptionKind, JvmError};
use crate::frame::{
    double_of, fault_error, float_of, int_of, kind_fault, long_of, operand, operand_fault, ref_of,
    replace_top, with_pc, FrameState, JavaFrame, Kind,
};
use crate::heap::{
    array_allocation_type, array_data_size, array_element_value, array_image, array_length_at,
    array_read_post, array_write_post, block_size, data_start, decode_field, has_array_length, has_header,
    header_at, instance_image, lemma_array_read_value, type_size, write_field_post, AllocationType, ArrayType,
    Heap,
};
use crate::instruction::{keys_sorted, lookup_offset, table_offset, LookupSwitchData, TableSwitchData};
use crate::interner::interned_strings;
use crate::java_string::string_pool_post;
use crate::keys::{ClassId, Symbol};
use crate::natives::key_of;
use crate::text::{push_signed_decimal, push_str, signed_decimal};
use crate::value::Value;
use lasso::ThreadedRodeo;
use vstd::prelude::*;

verus! {

/// What an instruction that pops operands of `kinds` and pushes `pushed`
/// does to the frame: nothing when the operands are not as expected or the
/// stack would overflow, the replacement otherwise.
pub open spec fn op_post(
    old: FrameState,
    new: FrameState,
    r: Result<(), JvmError>,
    kinds: Seq<Kind>,
    pushed: Seq<Value>,
) -> bool {
    match operand_fault(old.operands, kinds) {
        Some(f) => new == old && (r matches Err(e) && fault_error(f, e)),
        None => if pushed.len() > kinds.len() && old.operands.len() - kinds.len() + pushed.len()
            > old.max_stack {
            new == old && (r matches Err(JvmError::StackOverflow))
        } else {
            r is Ok && new == replace_top(old, kinds.len() as int, pushed)
        },
    }
}

/// No fault means every expected operand is there.
pub proof fn lemma_no_fault_len(ops: Seq<Value>, kinds: Seq<Kind>)
    requires
        operand_fault(ops, kinds) is None,
    ensures
        kinds.len() <= ops.len(),
        forall|i: int| 0 <= i < kinds.len() ==> kind_fault(ops[ops.len() - 1 - i], #[trigger] kinds[i]) is None,
    decreases kinds.len(),
{
    if kinds.len() > 0 {
        lemma_no_fault_len(ops.drop_last(), kinds.drop_first());
        assert forall|i: int| 0 <= i < kinds.len() implies kind_fault(ops[ops.len() - 1 - i], #[trigger] kinds[i]) is None by {
            if i > 0 {
                assert(kinds.drop_first()[i - 1] == kinds[i]);
                assert(ops.drop_last()[ops.drop_last().len() - 1 - (i - 1)] == ops[ops.len() - 1 - i]);
            }
        }
    }
}

/// Checks the operands against `kinds` without changing the frame.
fn check_operands(frame: &JavaFrame, kinds: &Vec<Kind>) -> (r: Result<(), JvmError>)
    ensures
        match operand_fault(frame@.operands, kinds@) {
            Some(f) => r matches Err(e) && fault_error(f, e),
            None => r is Ok,
        },
{
    assert(frame@.operands.subrange(0, frame@.operands.len() as int) =~= frame@.operands);
    assert(kinds@.subrange(0, kinds@.len() as int) =~= kinds@);
    let mut i: usize = 0;
    while i < kinds.len()
        invariant
            i <= kinds@.len(),
            operand_fault(frame@.operands, kinds@) == operand_fault(
                frame@.operands.subrange(0, frame@.operands.len() - i),
                kinds@.subrange(i as int, kinds@.len() as int),
            ),
            i <= frame@.operands.len(),
        decreases kinds@.len() - i,
    {
        let ghost ops_i = frame@.operands.subrange(0, frame@.operands.len() - i);
        let ghost ks_i = kinds@.subrange(i as int, kinds@.len() as int);
        let v = frame.peek_kind(i, kinds[i]);
        match v {
            Err(e) => {
                proof {
                    if i < frame@.operands.len() {
                        assert(ops_i.last() == operand(frame@, i as int));
                    }
                }
                return Err(e);
            },
            Ok(_) => {},
        }
        assert(ops_i.drop_last() =~= frame@.operands.subrange(0, frame@.operands.len() - (i + 1)));
        assert(ks_i.drop_first() =~= kinds@.subrange(i + 1, kinds@.len() as int));
        assert(ops_i.last() == operand(frame@, i as int));
        i = i + 1;
    }
    Ok(())
}

/// Pops operands of `kinds` and pushes `pushed`, refusing (and changing
/// nothing) when the operands are wrong or the stack would overflow.
fn apply(frame: &mut JavaFrame, kinds: Vec<Kind>, pushed: Vec<Value>) -> (r: Result<(), JvmError>)
    ensures
        op_post(old(frame)@, final(frame)@, r, kinds@, pushed@),
{
    check_operands(frame, &kinds)?;
    proof {
        lemma_no_fault_len(frame@.operands, kinds@);
    }
    let n = kinds.len();
    if pushed.len() > n && (frame.operand_count() - n) as u128 + pushed.len() as u128 > frame.max_stack() as u128 {
        return Err(JvmError::StackOverflow);
    }
    frame.replace_top(n, pushed);
    Ok(())
}

fn value_at(frame: &JavaFrame, depth: usize) -> (r: Value)
    requires
        depth < frame@.operands.len(),
    ensures
        r == operand(frame@, depth as int),
{
    match frame.peek(depth) {
        Ok(v) => v,
        Err(_) => Value::Null,
    }
}

fn int_at(frame: &JavaFrame, depth: usize) -> (r: i32)
    requires
        depth < frame@.operands.len(),
    ensures
        r == int_of(operand(frame@, depth as int)),
{
    match value_at(frame, depth) {
        Value::Integer(i) => i,
        _ => 0,
    }
}

fn long_at(frame: &JavaFrame, depth: usize) -> (r: i64)
    requires
        depth < frame@.operands.len(),
    ensures
        r == long_of(operand(frame@, depth as int)),
{
    match value_at(frame, depth) {
        Value::Long(l) => l,
        _ => 0,
    }
}

fn float_at(frame: &JavaFrame, depth: usize) -> (r: u32)
    requires
        depth < frame@.operands.len(),
    ensures
        r == float_of(operand(frame@, depth as int)),
{
    match value_at(frame, depth) {
        Value::Float(f) => f,
        _ => 0,
    }
}

fn double_at(frame: &JavaFrame, depth: usize) -> (r: u64)
    requires
        depth < frame@.operands.len(),
    ensures
        r == double_of(operand(frame@, depth as int)),
{
    match value_at(frame, depth) {
        Value::Double(d) => d,
        _ => 0,
    }
}

fn ref_at(frame: &JavaFrame, depth: usize) -> (r: HeapRef)
    requires
        depth < frame@.operands.len(),
    ensures
        r == ref_of(operand(frame@, depth as int)),
{
    match value_at(frame, depth) {
        Value::Ref(a) => a,
        _ => 0,
    }
}

/// The key by which `f32::total_cmp` orders float bit patterns: the bits as a
/// signed integer, with the magnitude bits flipped for negative numbers.
pub open spec fn float_total_key(bits: u32) -> i32 {
    (bits as i32) ^ ((((bits as i32) >> 31u32) as u32 >> 1u32) as i32)
}

/// The key by which `f64::total_cmp` orders double bit patterns.
pub open spec fn double_total_key(bits: u64) -> i64 {
    (bits as i64) ^ ((((bits as i64) >> 63u64) as u64 >> 1u64) as i64)
}

fn float_total_key_exec(bits: u32) -> (r: i32)
    ensures
        r == float_total_key(bits),
{
    (bits as i32) ^ ((((bits as i32) >> 31u32) as u32 >> 1u32) as i32)
}

fn double_total_key_exec(bits: u64) -> (r: i64)
    ensures
        r == double_total_key(bits),
{
    (bits as i64) ^ ((((bits as i64) >> 63u64) as u64 >> 1u64) as i64)
}

/// The shift distance an int shift uses: the low 5 bits of `x`.
fn shift5(x: i32) -> (r: u32)
    ensures
        r == (x & 0x1f) as u32,
        r < 32,
{
    let r = (x & 0x1f) as u32;
    assert(r < 32) by (bit_vector)
        requires
            r == (x & 0x1f) as u32,
    ;
    r
}

/// The shift distance a long shift uses: the low 6 bits of `x`.
fn shift6(x: i32) -> (r: u64)
    ensures
        r == (x & 0x3f) as u64,
        r < 64,
{
    let r = (x & 0x3f) as u64;
    assert(r < 64) by (bit_vector)
        requires
            r == (x & 0x3f) as u64,
    ;
    r
}

/// The exact product of two ints.
fn wide_mul_i32(a: i32, b: i32) -> (r: i64)
    ensures
        r == (a as i64) * (b as i64),
{
    let x = a as i64;
    let y = b as i64;
    assert(-0x4000_0000_0000_0000 <= x * y <= 0x4000_0000_0000_0000) by (nonlinear_arith)
        requires
            -0x8000_0000 <= x <= 0x7fff_ffff,
            -0x8000_0000 <= y <= 0x7fff_ffff,
    ;
    x * y
}

/// The exact product of two longs.
fn wide_mul_i64(a: i64, b: i64) -> (r: i128)
    ensures
        r == (a as i128) * (b as i128),
{
    let x = a as i128;
    let y = b as i128;
    assert(-0x4000_0000_0000_0000_0000_0000_0000_0000 <= x * y <= 0x4000_0000_0000_0000_0000_0000_0000_0000) by (nonlinear_arith)
        requires
            -0x8000_0000_0000_0000 <= x <= 0x7fff_ffff_ffff_ffff,
            -0x8000_0000_0000_0000 <= y <= 0x7fff_ffff_ffff_ffff,
    ;
    x * y
}

/// Pushes `null`.
pub fn handle_aconst_null(frame: &mut JavaFrame) -> (r: Result<(), JvmError>)
    ensures
        op_post(old(frame)@, final(frame)@, r, seq![], seq![Value::Null]),
{
    let kinds = vec![];
    assert(kinds@ =~= seq![]);
    check_operands(frame, &kinds)?;
    proof {
        lemma_no_fault_len(frame@.operands, kinds@);
    }
    let p0 = Value::Null;
    let pushed = vec![p0];
    assert(pushed@ =~= seq![p0]);
    apply(frame, kinds, pushed)
}

/// Pushes the int -1.
pub fn handle_iconst_m1(frame: &mut JavaFrame) -> (r: Result<(), JvmError>)
    ensures
        op_post(old(frame)@, final(frame)@, r, seq![], seq![Value::Integer(-1i32)]),
{
    let kinds = vec![];
    assert(kinds@ =~= seq![]);
    check_operands(frame, &kinds)?;
    proof {
        lemma_no_fault_len(frame@.operands, kinds@);
    }
    let p0 = Value::Integer(-1i32);
    let pushed = vec![p0];
    assert(pushed@ =~= seq![p0]);
    apply(frame, kinds, pushed)
}

/// Pushes the int 0.
pub fn handle_iconst0(frame: &mut JavaFrame) -> (r: Result<(), JvmError>)
    ensures
        op_post(old(frame)@, final(frame)@, r, seq![], seq![Value::Integer(0)]),
{
    let kinds = vec![];
    assert(kinds@ =~= seq![]);
    check_operands(frame, &kinds)?;
    proof {
        lemma_no_fault_len(frame@.operands, kinds@);
    }
    let p0 = Value::Integer(0);
    let pushed = vec![p0];
    assert(pushed@ =~= seq![p0]);
    apply(frame, kinds, pushed)
}

/// Pushes the int 1.
pub fn handle_iconst1(frame: &mut JavaFrame) -> (r: Result<(), JvmError>)
    ensures
        op_post(old(frame)@, final(frame)@, r, seq![], seq![Value::Integer(1)]),
{
    let kinds = vec![];
    assert(kinds@ =~= seq![]);
    check_operands(frame, &kinds)?;
    proof {
        lemma_no_fault_len(frame@.operands, kinds@);
    }
    let p0 = Value::Integer(1);
    let pushed = vec![p0];
    assert(pushed@ =~= seq![p0]);
    apply(frame, kinds, pushed)
}

/// Pushes the int 2.
pub fn handle_iconst2(frame: &mut JavaFrame) -> (r: Result<(), JvmError>)
    ensures
        op_post(old(frame)@, final(frame)@, r, seq![], seq![Value::Integer(2)]),
{
    let kinds = vec![];
    assert(kinds@ =~= seq![]);
    check_operands(frame, &kinds)?;
    proof {
        lemma_no_fault_len(frame@.operands, kinds@);
    }
    let p0 = Value::Integer(2);
    let pushed = vec![p0];
    assert(pushed@ =~= seq![p0]);
    apply(frame, kinds, pushed)
}

/// Pushes the int 3.
pub fn handle_iconst3(frame: &mut JavaFrame) -> (r: Result<(), JvmError>)
    ensures
        op_post(old(frame)@, final(frame)@, r, seq![], seq![Value::Integer(3)]),
{
    let kinds = vec![];
    assert(kinds@ =~= seq![]);
    check_operands(frame, &kinds)?;
    proof {
        lemma_no_fault_len(frame@.operands, kinds@);
    }
    let p0 = Value::Integer(3);
    let pushed = vec![p0];
    assert(pushed@ =~= seq![p0]);
    apply(frame, kinds, pushed)
}

/// Pushes the int 4.
pub fn handle_iconst4(frame: &mut JavaFrame) -> (r: Result<(), JvmError>)
    ensures
        op_post(old(frame)@, final(frame)@, r, seq![], seq![Value::Integer(4)]),
{
    let kinds = vec![];
    assert(kinds@ =~= seq![]);
    check_operands(frame, &kinds)?;
    proof {
        lemma_no_fault_len(frame@.operands, kinds@);
    }
    let p0 = Value::Integer(4);
    let pushed = vec![p0];
    assert(pushed@ =~= seq![p0]);
    apply(frame, kinds, pushed)
}

/// Pushes the int 5.
pub fn handle_iconst5(frame: &mut JavaFrame) -> (r: Result<(), JvmError>)
    ensures
        op_post(old(frame)@, final(frame)@, r, seq![], seq![Value::Integer(5)]),
{
    let kinds = vec![];
    assert(kinds@ =~= seq![]);
    check_operands(frame, &kinds)?;
    proof {
        lemma_no_fault_len(frame@.operands, kinds@);
    }
    let p0 = Value::Integer(5);
    let pushed = vec![p0];
    assert(pushed@ =~= seq![p0]);
    apply(frame, kinds, pushed)
}

/// Pushes the long 0.
pub fn handle_lconst0(frame: &mut JavaFrame) -> (r: Result<(), JvmError>)
    ensures
        op_post(old(frame)@, final(frame)@, r, seq![], seq![Value::Long(0)]),
{
    let kinds = vec![];
    assert(kinds@ =~= seq![]);
    check_operands(frame, &kinds)?;
    proof {
        lemma_no_fault_len(frame@.operands, kinds@);
    }
    let p0 = Value::Long(0);
    let pushed = vec![p0];
    assert(pushed@ =~= seq![p0]);
    apply(frame, kinds, pushed)
}

/// Pushes the long 1.
pub fn handle_lconst1(frame: &mut JavaFrame) -> (r: Result<(), JvmError>)
    ensures
        op_post(old(frame)@, final(frame)@, r, seq![], seq![Value::Long(1)]),
{
    let kinds = vec![];
    assert(kinds@ =~= seq![]);
    check_operands(frame, &kinds)?;
    proof {
        lemma_no_fault_len(frame@.operands, kinds@);
    }
    let p0 = Value::Long(1);
    let pushed = vec![p0];
    assert(pushed@ =~= seq![p0]);
    apply(frame, kinds, pushed)
}

/// Pushes the float 0.0 (bits 0x00000000).
pub fn handle_fconst0(frame: &mut JavaFrame) -> (r: Result<(), JvmError>)
    ensures
        op_post(old(frame)@, final(frame)@, r, seq![], seq![Value::Float(0x0000_0000u32)]),
{
    let kinds = vec![];
    assert(kinds@ =~= seq![]);
    check_operands(frame, &kinds)?;
    proof {
        lemma_no_fault_len(frame@.operands, kinds@);
    }
    let p0 = Value::Float(0x0000_0000u32);
    let pushed = vec![p0];
    assert(pushed@ =~= seq![p0]);
    apply(frame, kinds, pushed)
}

/// Pushes the float 1.0 (bits 0x3f800000).
pub fn handle_fconst1(frame: &mut JavaFrame) -> (r: Result<(), JvmError>)
    ensures
        op_post(old(frame)@, final(frame)@, r, seq![], seq![Value::Float(0x3f80_0000u32)]),
{
    let kinds = vec![];
    assert(kinds@ =~= seq![]);
    check_operands(frame, &kinds)?;
    proof {
        lemma_no_fault_len(frame@.operands, kinds@);
    }
    let p0 = Value::Float(0x3f80_0000u32);
    let pushed = vec![p0];
    assert(pushed@ =~= seq![p0]);
    apply(frame, kinds, pushed)
}

/// Pushes the double 0.0 (bits 0).
pub fn handle_dconst0(frame: &mut JavaFrame) -> (r: Result<(), JvmError>)
    ensures
        op_post(old(frame)@, final(frame)@, r, seq![], seq![Value::Double(0x0000_0000_0000_0000u64)]),
{
    let kinds = vec![];
    assert(kinds@ =~= seq![]);
    check_operands(frame, &kinds)?;
    proof {
        lemma_no_fault_len(frame@.operands, kinds@);
    }
    let p0 = Value::Double(0x0000_0000_0000_0000u64);
    let pushed = vec![p0];
    assert(pushed@ =~= seq![p0]);
    apply(frame, kinds, pushed)
}

/// Pushes the double 1.0 (bits 0x3ff0000000000000).
pub fn handle_dconst1(frame: &mut JavaFrame) -> (r: Result<(), JvmError>)
    ensures
        op_post(old(frame)@, final(frame)@, r, seq![], seq![Value::Double(0x3ff0_0000_0000_0000u64)]),
{
    let kinds = vec![];
    assert(kinds@ =~= seq![]);
    check_operands(frame, &kinds)?;
    proof {
        lemma_no_fault_len(frame@.operands, kinds@);
    }
    let p0 = Value::Double(0x3ff0_0000_0000_0000u64);
    let pushed = vec![p0];
    assert(pushed@ =~= seq![p0]);
    apply(frame, kinds, pushed)
}

/// Pops two ints and pushes their sum, wrapping on overflow.
pub fn handle_iadd(frame: &mut JavaFrame) -> (r: Result<(), JvmError>)
    ensures
        op_post(old(frame)@, final(frame)@, r, seq![Kind::Int, Kind::Int], seq![Value::Integer(((int_of(operand(old(frame)@, 1)) as i64) + (int_of(operand(old(frame)@, 0)) as i64)) as i32)]),
{
    let kinds = vec![Kind::Int, Kind::Int];
    assert(kinds@ =~= seq![Kind::Int, Kind::Int]);
    check_operands(frame, &kinds)?;
    proof {
        lemma_no_fault_len(frame@.operands, kinds@);
    }
    let v0 = int_at(frame, 0);
    let v1 = int_at(frame, 1);
    let p0 = Value::Integer(((v1 as i64) + (v0 as i64)) as i32);
    let pushed = vec![p0];
    assert(pushed@ =~= seq![p0]);
    apply(frame, kinds, pushed)
}

/// Pops two ints and pushes their difference, wrapping on overflow.
pub fn handle_isub(frame: &mut JavaFrame) -> (r: Result<(), JvmError>)
    ensures
        op_post(old(frame)@, final(frame)@, r, seq![Kind::Int, Kind::Int], seq![Value::Integer(((int_of(operand(old(frame)@, 1)) as i64) - (int_of(operand(old(frame)@, 0)) as i64)) as i32)]),
{
    let kinds = vec![Kind::Int, Kind::Int];
    assert(kinds@ =~= seq![Kind::Int, Kind::Int]);
    check_operands(frame, &kinds)?;
    proof {
        lemma_no_fault_len(frame@.operands, kinds@);
    }
    let v0 = int_at(frame, 0);
    let v1 = int_at(frame, 1);
    let p0 = Value::Integer(((v1 as i64) - (v0 as i64)) as i32);
    let pushed = vec![p0];
    assert(pushed@ =~= seq![p0]);
    apply(frame, kinds, pushed)
}

/// Pops two ints and pushes their product, wrapping on overflow.
pub fn handle_imul(frame: &mut JavaFrame) -> (r: Result<(), JvmError>)
    ensures
        op_post(old(frame)@, final(frame)@, r, seq![Kind::Int, Kind::Int], seq![Value::Integer(((int_of(operand(old(frame)@, 1)) as i64) * (int_of(operand(old(frame)@, 0)) as i64)) as i32)]),
{
    let kinds = vec![Kind::Int, Kind::Int];
    assert(kinds@ =~= seq![Kind::Int, Kind::Int]);
    check_operands(frame, &kinds)?;
    proof {
        lemma_no_fault_len(frame@.operands, kinds@);
    }
    let v0 = int_at(frame, 0);
    let v1 = int_at(frame, 1);
    let p0 = Value::Integer(wide_mul_i32(v1, v0) as i32);
    let pushed = vec![p0];
    assert(pushed@ =~= seq![p0]);
    apply(frame, kinds, pushed)
}

/// Pops two ints and pushes their bitwise and.
pub fn handle_iand(frame: &mut JavaFrame) -> (r: Result<(), JvmError>)
    ensures
        op_post(old(frame)@, final(frame)@, r, seq![Kind::Int, Kind::Int], seq![Value::Integer(int_of(operand(old(frame)@, 1)) & int_of(operand(old(frame)@, 0)))]),
{
    let kinds = vec![Kind::Int, Kind::Int];
    assert(kinds@ =~= seq![Kind::Int, Kind::Int]);
    check_operands(frame, &kinds)?;
    proof {
        lemma_no_fault_len(frame@.operands, kinds@);
    }
    let v0 = int_at(frame, 0);
    let v1 = int_at(frame, 1);
    let p0 = Value::Integer(v1 & v0);
    let pushed = vec![p0];
    assert(pushed@ =~= seq![p0]);
    apply(frame, kinds, pushed)
}

/// Pops two ints and pushes their bitwise or.
pub fn handle_ior(frame: &mut JavaFrame) -> (r: Result<(), JvmError>)
    ensures
        op_post(old(frame)@, final(frame)@, r, seq![Kind::Int, Kind::Int], seq![Value::Integer(int_of(operand(old(frame)@, 1)) | int_of(operand(old(frame)@, 0)))]),
{
    let kinds = vec![Kind::Int, Kind::Int];
    assert(kinds@ =~= seq![Kind::Int, Kind::Int]);
    check_operands(frame, &kinds)?;
    proof {
        lemma_no_fault_len(frame@.operands, kinds@);
    }
    let v0 = int_at(frame, 0);
    let v1 = int_at(frame, 1);
    let p0 = Value::Integer(v1 | v0);
    let pushed = vec![p0];
    assert(pushed@ =~= seq![p0]);
    apply(frame, kinds, pushed)
}

/// Pops two ints and pushes their bitwise exclusive or.
pub fn handle_ixor(frame: &mut JavaFrame) -> (r: Result<(), JvmError>)
    ensures
        op_post(old(frame)@, final(frame)@, r, seq![Kind::Int, Kind::Int], seq![Value::Integer(int_of(operand(old(frame)@, 1)) ^ int_of(operand(old(frame)@, 0)))]),
{
    let kinds = vec![Kind::Int, Kind::Int];
    assert(kinds@ =~= seq![Kind::Int, Kind::Int]);
    check_operands(frame, &kinds)?;
    proof {
        lemma_no_fault_len(frame@.operands, kinds@);
    }
    let v0 = int_at(frame, 0);
    let v1 = int_at(frame, 1);
    let p0 = Value::Integer(v1 ^ v0);
    let pushed = vec![p0];
    assert(pushed@ =~= seq![p0]);
    apply(frame, kinds, pushed)
}

/// Pops a shift distance and an int; pushes the int shifted left by the low 5 bits of the distance.
pub fn handle_ishl(frame: &mut JavaFrame) -> (r: Result<(), JvmError>)
    ensures
        op_post(old(frame)@, final(frame)@, r, seq![Kind::Int, Kind::Int], seq![Value::Integer(((int_of(operand(old(frame)@, 1)) as u32) << ((int_of(operand(old(frame)@, 0)) & 0x1f) as u32)) as i32)]),
{
    let kinds = vec![Kind::Int, Kind::Int];
    assert(kinds@ =~= seq![Kind::Int, Kind::Int]);
    check_operands(frame, &kinds)?;
    proof {
        lemma_no_fault_len(frame@.operands, kinds@);
    }
    let v0 = int_at(frame, 0);
    let v1 = int_at(frame, 1);
    let p0 = Value::Integer(((v1 as u32) << shift5(v0)) as i32);
    let pushed = vec![p0];
    assert(pushed@ =~= seq![p0]);
    apply(frame, kinds, pushed)
}

/// Pops a shift distance and an int; pushes the int shifted right arithmetically by the low 5 bits of the distance.
pub fn handle_ishr(frame: &mut JavaFrame) -> (r: Result<(), JvmError>)
    ensures
        op_post(old(frame)@, final(frame)@, r, seq![Kind::Int, Kind::Int], seq![Value::Integer(int_of(operand(old(frame)@, 1)) >> ((int_of(operand(old(frame)@, 0)) & 0x1f) as u32))]),
{
    let kinds = vec![Kind::Int, Kind::Int];
    assert(kinds@ =~= seq![Kind::Int, Kind::Int]);
    check_operands(frame, &kinds)?;
    proof {
        lemma_no_fault_len(frame@.operands, kinds@);
    }
    let v0 = int_at(frame, 0);
    let v1 = int_at(frame, 1);
    let p0 = Value::Integer(v1 >> shift5(v0));
    let pushed = vec![p0];
    assert(pushed@ =~= seq![p0]);
    apply(frame, kinds, pushed)
}

/// Pops a shift distance and an int; pushes the int shifted right logically by the low 5 bits of the distance.
pub fn handle_iushr(frame: &mut JavaFrame) -> (r: Result<(), JvmError>)
    ensures
        op_post(old(frame)@, final(frame)@, r, seq![Kind::Int, Kind::Int], seq![Value::Integer(((int_of(operand(old(frame)@, 1)) as u32) >> ((int_of(operand(old(frame)@, 0)) & 0x1f) as u32)) as i32)]),
{
    let kinds = vec![Kind::Int, Kind::Int];
    assert(kinds@ =~= seq![Kind::Int, Kind::Int]);
    check_operands(frame, &kinds)?;
    proof {
        lemma_no_fault_len(frame@.operands, kinds@);
    }
    let v0 = int_at(frame, 0);
    let v1 = int_at(frame, 1);
    let p0 = Value::Integer(((v1 as u32) >> shift5(v0)) as i32);
    let pushed = vec![p0];
    assert(pushed@ =~= seq![p0]);
    apply(frame, kinds, pushed)
}

/// Pops two longs and pushes their sum, wrapping on overflow.
pub fn handle_ladd(frame: &mut JavaFrame) -> (r: Result<(), JvmError>)
    ensures
        op_post(old(frame)@, final(frame)@, r, seq![Kind::Long, Kind::Long], seq![Value::Long(((long_of(operand(old(frame)@, 1)) as i128) + (long_of(operand(old(frame)@, 0)) as i128)) as i64)]),
{
    let kinds = vec![Kind::Long, Kind::Long];
    assert(kinds@ =~= seq![Kind::Long, Kind::Long]);
    check_operands(frame, &kinds)?;
    proof {
        lemma_no_fault_len(frame@.operands, kinds@);
    }
    let v0 = long_at(frame, 0);
    let v1 = long_at(frame, 1);
    let p0 = Value::Long(((v1 as i128) + (v0 as i128)) as i64);
    let pushed = vec![p0];
    assert(pushed@ =~= seq![p0]);
    apply(frame, kinds, pushed)
}

/// Pops two longs and pushes their difference, wrapping on overflow.
pub fn handle_lsub(frame: &mut JavaFrame) -> (r: Result<(), JvmError>)
    ensures
        op_post(old(frame)@, final(frame)@, r, seq![Kind::Long, Kind::Long], seq![Value::Long(((long_of(operand(old(frame)@, 1)) as i128) - (long_of(operand(old(frame)@, 0)) as i128)) as i64)]),
{
    let kinds = vec![Kind::Long, Kind::Long];
    assert(kinds@ =~= seq![Kind::Long, Kind::Long]);
    check_operands(frame, &kinds)?;
    proof {
        lemma_no_fault_len(frame@.operands, kinds@);
    }
    let v0 = long_at(frame, 0);
    let v1 = long_at(frame, 1);
    let p0 = Value::Long(((v1 as i128) - (v0 as i128)) as i64);
    let pushed = vec![p0];
    assert(pushed@ =~= seq![p0]);
    apply(frame, kinds, pushed)
}

/// Pops two longs and pushes their product, wrapping on overflow.
pub fn handle_lmul(frame: &mut JavaFrame) -> (r: Result<(), JvmError>)
    ensures
        op_post(old(frame)@, final(frame)@, r, seq![Kind::Long, Kind::Long], seq![Value::Long(((long_of(operand(old(frame)@, 1)) as i128) * (long_of(operand(old(frame)@, 0)) as i128)) as i64)]),
{
    let kinds = vec![Kind::Long, Kind::Long];
    assert(kinds@ =~= seq![Kind::Long, Kind::Long]);
    check_operands(frame, &kinds)?;
    proof {
        lemma_no_fault_len(frame@.operands, kinds@);
    }
    let v0 = long_at(frame, 0);
    let v1 = long_at(frame, 1);
    let p0 = Value::Long(wide_mul_i64(v1, v0) as i64);
    let pushed = vec![p0];
    assert(pushed@ =~= seq![p0]);
    apply(frame, kinds, pushed)
}

/// Pops two longs and pushes their bitwise and.
pub fn handle_land(frame: &mut JavaFrame) -> (r: Result<(), JvmError>)
    ensures
        op_post(old(frame)@, final(frame)@, r, seq![Kind::Long, Kind::Long], seq![Value::Long(long_of(operand(old(frame)@, 1)) & long_of(operand(old(frame)@, 0)))]),
{
    let kinds = vec![Kind::Long, Kind::Long];
    assert(kinds@ =~= seq![Kind::Long, Kind::Long]);
    check_operands(frame, &kinds)?;
    proof {
        lemma_no_fault_len(frame@.operands, kinds@);
    }
    let v0 = long_at(frame, 0);
    let v1 = long_at(frame, 1);
    let p0 = Value::Long(v1 & v0);
    let pushed = vec![p0];
    assert(pushed@ =~= seq![p0]);
    apply(frame, kinds, pushed)
}

/// Pops two longs and pushes their bitwise or.
pub fn handle_lor(frame: &mut JavaFrame) -> (r: Result<(), JvmError>)
    ensures
        op_post(old(frame)@, final(frame)@, r, seq![Kind::Long, Kind::Long], seq![Value::Long(long_of(operand(old(frame)@, 1)) | long_of(operand(old(frame)@, 0)))]),
{
    let kinds = vec![Kind::Long, Kind::Long];
    assert(kinds@ =~= seq![Kind::Long, Kind::Long]);
    check_operands(frame, &kinds)?;
    proof {
        lemma_no_fault_len(frame@.operands, kinds@);
    }
    let v0 = long_at(frame, 0);
    let v1 = long_at(frame, 1);
    let p0 = Value::Long(v1 | v0);
    let pushed = vec![p0];
    assert(pushed@ =~= seq![p0]);
    apply(frame, kinds, pushed)
}

/// Pops two longs and pushes their bitwise exclusive or.
pub fn handle_lxor(frame: &mut JavaFrame) -> (r: Result<(), JvmError>)
    ensures
        op_post(old(frame)@, final(frame)@, r, seq![Kind::Long, Kind::Long], seq![Value::Long(long_of(operand(old(frame)@, 1)) ^ long_of(operand(old(frame)@, 0)))]),
{
    let kinds = vec![Kind::Long, Kind::Long];
    assert(kinds@ =~= seq![Kind::Long, Kind::Long]);
    check_operands(frame, &kinds)?;
    proof {
        lemma_no_fault_len(frame@.operands, kinds@);
    }
    let v0 = long_at(frame, 0);
    let v1 = long_at(frame, 1);
    let p0 = Value::Long(v1 ^ v0);
    let pushed = vec![p0];
    assert(pushed@ =~= seq![p0]);
    apply(frame, kinds, pushed)
}

/// Pops a shift distance and a long; pushes the long shifted left by the low 6 bits of the distance.
pub fn handle_lshl(frame: &mut JavaFrame) -> (r: Result<(), JvmError>)
    ensures
        op_post(old(frame)@, final(frame)@, r, seq![Kind::Int, Kind::Long], seq![Value::Long(((long_of(operand(old(frame)@, 1)) as u64) << ((int_of(operand(old(frame)@, 0)) & 0x3f) as u64)) as i64)]),
{
    let kinds = vec![Kind::Int, Kind::Long];
    assert(kinds@ =~= seq![Kind::Int, Kind::Long]);
    check_operands(frame, &kinds)?;
    proof {
        lemma_no_fault_len(frame@.operands, kinds@);
    }
    let v0 = int_at(frame, 0);
    let v1 = long_at(frame, 1);
    let p0 = Value::Long(((v1 as u64) << shift6(v0)) as i64);
    let pushed = vec![p0];
    assert(pushed@ =~= seq![p0]);
    apply(frame, kinds, pushed)
}

/// Pops a shift distance and a long; pushes the long shifted right arithmetically by the low 6 bits of the distance.
pub fn handle_lshr(frame: &mut JavaFrame) -> (r: Result<(), JvmError>)
    ensures
        op_post(old(frame)@, final(frame)@, r, seq![Kind::Int, Kind::Long], seq![Value::Long(long_of(operand(old(frame)@, 1)) >> ((int_of(operand(old(frame)@, 0)) & 0x3f) as u64))]),
{
    let kinds = vec![Kind::Int, Kind::Long];
    assert(kinds@ =~= seq![Kind::Int, Kind::Long]);
    check_operands(frame, &kinds)?;
    proof {
        lemma_no_fault_len(frame@.operands, kinds@);
    }
    let v0 = int_at(frame, 0);
    let v1 = long_at(frame, 1);
    let p0 = Value::Long(v1 >> shift6(v0));
    let pushed = vec![p0];
    assert(pushed@ =~= seq![p0]);
    apply(frame, kinds, pushed)
}

/// Pops a shift distance and a long; pushes the long shifted right logically by the low 6 bits of the distance.
pub fn handle_lushr(frame: &mut JavaFrame) -> (r: Result<(), JvmError>)
    ensures
        op_post(old(frame)@, final(frame)@, r, seq![Kind::Int, Kind::Long], seq![Value::Long(((long_of(operand(old(frame)@, 1)) as u64) >> ((int_of(operand(old(frame)@, 0)) & 0x3f) as u64)) as i64)]),
{
    let kinds = vec![Kind::Int, Kind::Long];
    assert(kinds@ =~= seq![Kind::Int, Kind::Long]);
    check_operands(frame, &kinds)?;
    proof {
        lemma_no_fault_len(frame@.operands, kinds@);
    }
    let v0 = int_at(frame, 0);
    let v1 = long_at(frame, 1);
    let p0 = Value::Long(((v1 as u64) >> shift6(v0)) as i64);
    let pushed = vec![p0];
    assert(pushed@ =~= seq![p0]);
    apply(frame, kinds, pushed)
}

/// Pops an int and pushes its negation, wrapping on overflow.
pub fn handle_ineg(frame: &mut JavaFrame) -> (r: Result<(), JvmError>)
    ensures
        op_post(old(frame)@, final(frame)@, r, seq![Kind::Int], seq![Value::Integer((0i64 - (int_of(operand(old(frame)@, 0)) as i64)) as i32)]),
{
    let kinds = vec![Kind::Int];
    assert(kinds@ =~= seq![Kind::Int]);
    check_operands(frame, &kinds)?;
    proof {
        lemma_no_fault_len(frame@.operands, kinds@);
    }
    let v0 = int_at(frame, 0);
    let p0 = Value::Integer((0i64 - (v0 as i64)) as i32);
    let pushed = vec![p0];
    assert(pushed@ =~= seq![p0]);
    apply(frame, kinds, pushed)
}

/// Pops an int and pushes it narrowed to a byte and sign-extended.
pub fn handle_i2b(frame: &mut JavaFrame) -> (r: Result<(), JvmError>)
    ensures
        op_post(old(frame)@, final(frame)@, r, seq![Kind::Int], seq![Value::Integer((int_of(operand(old(frame)@, 0)) as i8) as i32)]),
{
    let kinds = vec![Kind::Int];
    assert(kinds@ =~= seq![Kind::Int]);
    check_operands(frame, &kinds)?;
    proof {
        lemma_no_fault_len(frame@.operands, kinds@);
    }
    let v0 = int_at(frame, 0);
    let p0 = Value::Integer((v0 as i8) as i32);
    let pushed = vec![p0];
    assert(pushed@ =~= seq![p0]);
    apply(frame, kinds, pushed)
}

/// Pops an int and pushes it narrowed to a short and sign-extended.
pub fn handle_i2s(frame: &mut JavaFrame) -> (r: Result<(), JvmError>)
    ensures
        op_post(old(frame)@, final(frame)@, r, seq![Kind::Int], seq![Value::Integer((int_of(operand(old(frame)@, 0)) as i16) as i32)]),
{
    let kinds = vec![Kind::Int];
    assert(kinds@ =~= seq![Kind::Int]);
    check_operands(frame, &kinds)?;
    proof {
        lemma_no_fault_len(frame@.operands, kinds@);
    }
    let v0 = int_at(frame, 0);
    let p0 = Value::Integer((v0 as i16) as i32);
    let pushed = vec![p0];
    assert(pushed@ =~= seq![p0]);
    apply(frame, kinds, pushed)
}

/// Pops an int and pushes it narrowed to a char and zero-extended.
pub fn handle_i2c(frame: &mut JavaFrame) -> (r: Result<(), JvmError>)
    ensures
        op_post(old(frame)@, final(frame)@, r, seq![Kind::Int], seq![Value::Integer((int_of(operand(old(frame)@, 0)) as u16) as i32)]),
{
    let kinds = vec![Kind::Int];
    assert(kinds@ =~= seq![Kind::Int]);
    check_operands(frame, &kinds)?;
    proof {
        lemma_no_fault_len(frame@.operands, kinds@);
    }
    let v0 = int_at(frame, 0);
    let p0 = Value::Integer((v0 as u16) as i32);
    let pushed = vec![p0];
    assert(pushed@ =~= seq![p0]);
    apply(frame, kinds, pushed)
}

/// Pops an int and pushes it as a long.
pub fn handle_i2l(frame: &mut JavaFrame) -> (r: Result<(), JvmError>)
    ensures
        op_post(old(frame)@, final(frame)@, r, seq![Kind::Int], seq![Value::Long(int_of(operand(old(frame)@, 0)) as i64)]),
{
    let kinds = vec![Kind::Int];
    assert(kinds@ =~= seq![Kind::Int]);
    check_operands(frame, &kinds)?;
    proof {
        lemma_no_fault_len(frame@.operands, kinds@);
    }
    let v0 = int_at(frame, 0);
    let p0 = Value::Long(v0 as i64);
    let pushed = vec![p0];
    assert(pushed@ =~= seq![p0]);
    apply(frame, kinds, pushed)
}

/// Pops a long and pushes its low 32 bits as an int.
pub fn handle_l2i(frame: &mut JavaFrame) -> (r: Result<(), JvmError>)
    ensures
        op_post(old(frame)@, final(frame)@, r, seq![Kind::Long], seq![Value::Integer(long_of(operand(old(frame)@, 0)) as i32)]),
{
    let kinds = vec![Kind::Long];
    assert(kinds@ =~= seq![Kind::Long]);
    check_operands(frame, &kinds)?;
    proof {
        lemma_no_fault_len(frame@.operands, kinds@);
    }
    let v0 = long_at(frame, 0);
    let p0 = Value::Integer(v0 as i32);
    let pushed = vec![p0];
    assert(pushed@ =~= seq![p0]);
    apply(frame, kinds, pushed)
}

/// Pops two longs and pushes -1, 0 or 1 as the first is less than, equal to or greater than the second.
pub fn handle_lcmp(frame: &mut JavaFrame) -> (r: Result<(), JvmError>)
    ensures
        op_post(old(frame)@, final(frame)@, r, seq![Kind::Long, Kind::Long], seq![Value::Integer(if long_of(operand(old(frame)@, 1)) < long_of(operand(old(frame)@, 0)) { -1i32 } else if long_of(operand(old(frame)@, 1)) == long_of(operand(old(frame)@, 0)) { 0i32 } else { 1i32 })]),
{
    let kinds = vec![Kind::Long, Kind::Long];
    assert(kinds@ =~= seq![Kind::Long, Kind::Long]);
    check_operands(frame, &kinds)?;
    proof {
        lemma_no_fault_len(frame@.operands, kinds@);
    }
    let v0 = long_at(frame, 0);
    let v1 = long_at(frame, 1);
    let (x, y) = (v1, v0);
    let p0 = Value::Integer(if x < y { -1i32 } else if x == y { 0i32 } else { 1i32 });
    let pushed = vec![p0];
    assert(pushed@ =~= seq![p0]);
    apply(frame, kinds, pushed)
}

/// Pops two floats and pushes -1, 0 or 1 as they compare in the IEEE 754 total order.
pub fn handle_fcmpl(frame: &mut JavaFrame) -> (r: Result<(), JvmError>)
    ensures
        op_post(old(frame)@, final(frame)@, r, seq![Kind::Float, Kind::Float], seq![Value::Integer(if float_total_key(float_of(operand(old(frame)@, 1))) < float_total_key(float_of(operand(old(frame)@, 0))) { -1i32 } else if float_total_key(float_of(operand(old(frame)@, 1))) == float_total_key(float_of(operand(old(frame)@, 0))) { 0i32 } else { 1i32 })]),
{
    let kinds = vec![Kind::Float, Kind::Float];
    assert(kinds@ =~= seq![Kind::Float, Kind::Float]);
    check_operands(frame, &kinds)?;
    proof {
        lemma_no_fault_len(frame@.operands, kinds@);
    }
    let v0 = float_at(frame, 0);
    let v1 = float_at(frame, 1);
    let (x, y) = (float_total_key_exec(v1), float_total_key_exec(v0));
    let p0 = Value::Integer(if x < y { -1i32 } else if x == y { 0i32 } else { 1i32 });
    let pushed = vec![p0];
    assert(pushed@ =~= seq![p0]);
    apply(frame, kinds, pushed)
}

/// Pops two floats and pushes -1, 0 or 1 as they compare in the IEEE 754 total order.
pub fn handle_fcmpg(frame: &mut JavaFrame) -> (r: Result<(), JvmError>)
    ensures
        op_post(old(frame)@, final(frame)@, r, seq![Kind::Float, Kind::Float], seq![Value::Integer(if float_total_key(float_of(operand(old(frame)@, 1))) < float_total_key(float_of(operand(old(frame)@, 0))) { -1i32 } else if float_total_key(float_of(operand(old(frame)@, 1))) == float_total_key(float_of(operand(old(frame)@, 0))) { 0i32 } else { 1i32 })]),
{
    let kinds = vec![Kind::Float, Kind::Float];
    assert(kinds@ =~= seq![Kind::Float, Kind::Float]);
    check_operands(frame, &kinds)?;
    proof {
        lemma_no_fault_len(frame@.operands, kinds@);
    }
    let v0 = float_at(frame, 0);
    let v1 = float_at(frame, 1);
    let (x, y) = (float_total_key_exec(v1), float_total_key_exec(v0));
    let p0 = Value::Integer(if x < y { -1i32 } else if x == y { 0i32 } else { 1i32 });
    let pushed = vec![p0];
    assert(pushed@ =~= seq![p0]);
    apply(frame, kinds, pushed)
}

/// Pops two doubles and pushes -1, 0 or 1 as they compare in the IEEE 754 total order.
pub fn handle_dcmpl(frame: &mut JavaFrame) -> (r: Result<(), JvmError>)
    ensures
        op_post(old(frame)@, final(frame)@, r, seq![Kind::Double, Kind::Double], seq![Value::Integer(if double_total_key(double_of(operand(old(frame)@, 1))) < double_total_key(double_of(operand(old(frame)@, 0))) { -1i32 } else if double_total_key(double_of(operand(old(frame)@, 1))) == double_total_key(double_of(operand(old(frame)@, 0))) { 0i32 } else { 1i32 })]),
{
    let kinds = vec![Kind::Double, Kind::Double];
    assert(kinds@ =~= seq![Kind::Double, Kind::Double]);
    check_operands(frame, &kinds)?;
    proof {
        lemma_no_fault_len(frame@.operands, kinds@);
    }
    let v0 = double_at(frame, 0);
    let v1 = double_at(frame, 1);
    let (x, y) = (double_total_key_exec(v1), double_total_key_exec(v0));
    let p0 = Value::Integer(if x < y { -1i32 } else if x == y { 0i32 } else { 1i32 });
    let pushed = vec![p0];
    assert(pushed@ =~= seq![p0]);
    apply(frame, kinds, pushed)
}

/// Pops two doubles and pushes -1, 0 or 1 as they compare in the IEEE 754 total order.
pub fn handle_dcmpg(frame: &mut JavaFrame) -> (r: Result<(), JvmError>)
    ensures
        op_post(old(frame)@, final(frame)@, r, seq![Kind::Double, Kind::Double], seq![Value::Integer(if double_total_key(double_of(operand(old(frame)@, 1))) < double_total_key(double_of(operand(old(frame)@, 0))) { -1i32 } else if double_total_key(double_of(operand(old(frame)@, 1))) == double_total_key(double_of(operand(old(frame)@, 0))) { 0i32 } else { 1i32 })]),
{
    let kinds = vec![Kind::Double, Kind::Double];
    assert(kinds@ =~= seq![Kind::Double, Kind::Double]);
    check_operands(frame, &kinds)?;
    proof {
        lemma_no_fault_len(frame@.operands, kinds@);
    }
    let v0 = double_at(frame, 0);
    let v1 = double_at(frame, 1);
    let (x, y) = (double_total_key_exec(v1), double_total_key_exec(v0));
    let p0 = Value::Integer(if x < y { -1i32 } else if x == y { 0i32 } else { 1i32 });
    let pushed = vec![p0];
    assert(pushed@ =~= seq![p0]);
    apply(frame, kinds, pushed)
}

/// Pops the top operand.
pub fn handle_pop(frame: &mut JavaFrame) -> (r: Result<(), JvmError>)
    ensures
        op_post(old(frame)@, final(frame)@, r, seq![Kind::Any], seq![]),
{
    let kinds = vec![Kind::Any];
    assert(kinds@ =~= seq![Kind::Any]);
    check_operands(frame, &kinds)?;
    proof {
        lemma_no_fault_len(frame@.operands, kinds@);
    }
    let pushed = vec![];
    assert(pushed@ =~= seq![]);
    apply(frame, kinds, pushed)
}

/// Duplicates the top operand.
pub fn handle_dup(frame: &mut JavaFrame) -> (r: Result<(), JvmError>)
    ensures
        op_post(old(frame)@, final(frame)@, r, seq![Kind::Any], seq![operand(old(frame)@, 0), operand(old(frame)@, 0)]),
{
    let kinds = vec![Kind::Any];
    assert(kinds@ =~= seq![Kind::Any]);
    check_operands(frame, &kinds)?;
    proof {
        lemma_no_fault_len(frame@.operands, kinds@);
    }
    let v0 = value_at(frame, 0);
    let p0 = v0;
    let p1 = v0;
    let pushed = vec![p0, p1];
    assert(pushed@ =~= seq![p0, p1]);
    apply(frame, kinds, pushed)
}

/// Duplicates the top operand beneath the second one.
pub fn handle_dup_x1(frame: &mut JavaFrame) -> (r: Result<(), JvmError>)
    ensures
        op_post(old(frame)@, final(frame)@, r, seq![Kind::Any, Kind::Any], seq![operand(old(frame)@, 0), operand(old(frame)@, 1), operand(old(frame)@, 0)]),
{
    let kinds = vec![Kind::Any, Kind::Any];
    assert(kinds@ =~= seq![Kind::Any, Kind::Any]);
    check_operands(frame, &kinds)?;
    proof {
        lemma_no_fault_len(frame@.operands, kinds@);
    }
    let v0 = value_at(frame, 0);
    let v1 = value_at(frame, 1);
    let p0 = v0;
    let p1 = v1;
    let p2 = v0;
    let pushed = vec![p0, p1, p2];
    assert(pushed@ =~= seq![p0, p1, p2]);
    apply(frame, kinds, pushed)
}

/// Leaves the top operand in place (casts are not checked).
pub fn handle_checkcast(frame: &mut JavaFrame) -> (r: Result<(), JvmError>)
    ensures
        op_post(old(frame)@, final(frame)@, r, seq![Kind::Any], seq![operand(old(frame)@, 0)]),
{
    let kinds = vec![Kind::Any];
    assert(kinds@ =~= seq![Kind::Any]);
    check_operands(frame, &kinds)?;
    proof {
        lemma_no_fault_len(frame@.operands, kinds@);
    }
    let v0 = value_at(frame, 0);
    let p0 = v0;
    let pushed = vec![p0];
    assert(pushed@ =~= seq![p0]);
    apply(frame, kinds, pushed)
}

/// Pops an object reference to lock; `null` raises `NullPointerException` (locking is not modelled).
pub fn handle_monitorenter(frame: &mut JavaFrame) -> (r: Result<(), JvmError>)
    ensures
        op_post(old(frame)@, final(frame)@, r, seq![Kind::Ref], seq![]),
{
    let kinds = vec![Kind::Ref];
    assert(kinds@ =~= seq![Kind::Ref]);
    check_operands(frame, &kinds)?;
    proof {
        lemma_no_fault_len(frame@.operands, kinds@);
    }
    let pushed = vec![];
    assert(pushed@ =~= seq![]);
    apply(frame, kinds, pushed)
}

/// Pops an object reference to unlock; `null` raises `NullPointerException` (locking is not modelled).
pub fn handle_monitorexit(frame: &mut JavaFrame) -> (r: Result<(), JvmError>)
    ensures
        op_post(old(frame)@, final(frame)@, r, seq![Kind::Ref], seq![]),
{
    let kinds = vec![Kind::Ref];
    assert(kinds@ =~= seq![Kind::Ref]);
    check_operands(frame, &kinds)?;
    proof {
        lemma_no_fault_len(frame@.operands, kinds@);
    }
    let pushed = vec![];
    assert(pushed@ =~= seq![]);
    apply(frame, kinds, pushed)
}

/// What an instruction that pops operands of `kinds`, fails with an error
/// satisfying `failure` when `fails` (the operands popped), and otherwise
/// pushes `pushed`, does.
pub open spec fn checked_op_post(
    old: FrameState,
    new: FrameState,
    r: Result<(), JvmError>,
    kinds: Seq<Kind>,
    fails: bool,
    failure: spec_fn(JvmError) -> bool,
    pushed: Seq<Value>,
) -> bool {
    match operand_fault(old.operands, kinds) {
        Some(f) => new == old && (r matches Err(e) && fault_error(f, e)),
        None => if fails {
            new == replace_top(old, kinds.len() as int, seq![]) && (r matches Err(e) && failure(e))
        } else {
            op_post(old, new, r, kinds, pushed)
        },
    }
}

pub open spec fn abs(x: int) -> int {
    if x < 0 { -x } else { x }
}

/// Division rounding toward zero.
pub open spec fn trunc_div(a: int, b: int) -> int {
    let q = abs(a) / abs(b);
    if (a < 0) == (b < 0) { q } else { -q }
}

/// The remainder of division rounding toward zero; it has the sign of `a`.
pub open spec fn trunc_rem(a: int, b: int) -> int {
    let m = abs(a) % abs(b);
    if a < 0 { -m } else { m }
}

fn int_div(a: i32, b: i32) -> (r: i32)
    requires
        b != 0,
    ensures
        r == trunc_div(a as int, b as int) as i32,
{
    let ua: u64 = if a < 0 { (0i64 - a as i64) as u64 } else { a as u64 };
    let ub: u64 = if b < 0 { (0i64 - b as i64) as u64 } else { b as u64 };
    let q = ua / ub;
    assert(q <= ua) by (nonlinear_arith)
        requires
            q == ua / ub,
            ub >= 1,
    ;
    let s: i64 = if (a < 0) == (b < 0) { q as i64 } else { 0i64 - q as i64 };
    s as i32
}

fn long_div(a: i64, b: i64) -> (r: i64)
    requires
        b != 0,
    ensures
        r == trunc_div(a as int, b as int) as i64,
{
    let ua: u128 = if a < 0 { (0i128 - a as i128) as u128 } else { a as u128 };
    let ub: u128 = if b < 0 { (0i128 - b as i128) as u128 } else { b as u128 };
    let q = ua / ub;
    assert(q <= ua) by (nonlinear_arith)
        requires
            q == ua / ub,
            ub >= 1,
    ;
    let s: i128 = if (a < 0) == (b < 0) { q as i128 } else { 0i128 - q as i128 };
    s as i64
}

fn int_rem(a: i32, b: i32) -> (r: i32)
    requires
        b != 0,
    ensures
        r == trunc_rem(a as int, b as int) as i32,
{
    let ua: u64 = if a < 0 { (0i64 - a as i64) as u64 } else { a as u64 };
    let ub: u64 = if b < 0 { (0i64 - b as i64) as u64 } else { b as u64 };
    let m = ua % ub;
    let s: i64 = if a < 0 { 0i64 - m as i64 } else { m as i64 };
    s as i32
}

fn long_rem(a: i64, b: i64) -> (r: i64)
    requires
        b != 0,
    ensures
        r == trunc_rem(a as int, b as int) as i64,
{
    let ua: u128 = if a < 0 { (0i128 - a as i128) as u128 } else { a as u128 };
    let ub: u128 = if b < 0 { (0i128 - b as i128) as u128 } else { b as u128 };
    let m = ua % ub;
    let s: i128 = if a < 0 { 0i128 - m as i128 } else { m as i128 };
    s as i64
}

fn division_by_zero() -> (e: JvmError)
    ensures
        raises_with_message(e, JavaExceptionKind::ArithmeticException, "/ by zero"@),
{
    let mut s = String::new();
    push_str(&mut s, "/ by zero");
    JvmError::JavaException(JavaExceptionFromJvm::with_message(JavaExceptionKind::ArithmeticException, s))
}

/// What pushing local variable `idx`, expected of kind `kind`, does.
pub open spec fn load_post(old: FrameState, new: FrameState, r: Result<(), JvmError>, idx: u8, kind: Kind) -> bool {
    if idx >= old.locals.len() {
        new == old && r == Err::<(), JvmError>(JvmError::LocalVariableNotFound(idx))
    } else {
        match old.locals[idx as int] {
            None => new == old && r == Err::<(), JvmError>(JvmError::LocalVariableNotInitialized(idx)),
            Some(v) => match kind_fault(v, kind) {
                Some(_) => new == old && (r matches Err(JvmError::UnexpectedType(_))),
                None => op_post(old, new, r, seq![], seq![v]),
            },
        }
    }
}

fn load_local(frame: &mut JavaFrame, idx: u8, kind: Kind) -> (r: Result<(), JvmError>)
    requires
        kind == Kind::Any || kind == Kind::Float || kind == Kind::Double,
    ensures
        load_post(old(frame)@, final(frame)@, r, idx, kind),
{
    let v = frame.get_local(idx)?;
    let ok = match kind {
        Kind::Float => matches!(v, Value::Float(_)),
        Kind::Double => matches!(v, Value::Double(_)),
        _ => true,
    };
    if !ok {
        return Err(JvmError::UnexpectedType("local variable of an unexpected kind".to_string()));
    }
    let kinds: Vec<Kind> = Vec::new();
    assert(kinds@ =~= seq![]);
    let pushed = vec![v];
    assert(pushed@ =~= seq![v]);
    apply(frame, kinds, pushed)
}

/// What popping an operand of kind `kind` into local variable `idx` does.
pub open spec fn store_post(old: FrameState, new: FrameState, r: Result<(), JvmError>, idx: u8, kind: Kind) -> bool {
    match operand_fault(old.operands, seq![kind]) {
        Some(f) => new == old && (r matches Err(e) && fault_error(f, e)),
        None => if idx >= old.locals.len() {
            new == replace_top(old, 1, seq![]) && r == Err::<(), JvmError>(JvmError::LocalVariableNotFound(idx))
        } else {
            r is Ok && new == (FrameState {
                locals: old.locals.update(idx as int, Some(operand(old, 0))),
                ..replace_top(old, 1, seq![])
            })
        },
    }
}

fn store_local(frame: &mut JavaFrame, idx: u8, kind: Kind) -> (r: Result<(), JvmError>)
    ensures
        store_post(old(frame)@, final(frame)@, r, idx, kind),
{
    let kinds = vec![kind];
    assert(kinds@ =~= seq![kind]);
    check_operands(frame, &kinds)?;
    proof {
        lemma_no_fault_len(frame@.operands, kinds@);
    }
    let v = value_at(frame, 0);
    frame.replace_top(1, Vec::new());
    if idx as usize >= frame.local_count() {
        assert(final(frame)@.operands =~= replace_top(old(frame)@, 1, seq![]).operands);
        return Err(JvmError::LocalVariableNotFound(idx));
    }
    let _ = frame.set_local(idx, v);
    assert(final(frame)@.operands =~= replace_top(old(frame)@, 1, seq![]).operands);
    Ok(())
}

/// The target of a branch by `off` from `pc`.
pub open spec fn branch_target(pc: int, off: int) -> int {
    (pc + off) as usize as int
}

/// Where execution goes on past an instruction of `size` bytes at `pc`.
pub open spec fn fallthrough_target(pc: int, size: int) -> int {
    (pc + size) as usize as int
}

/// The address `off` bytes from `bci`.
fn branch16(bci: usize, off: i16) -> (r: usize)
    ensures
        r == branch_target(bci as int, off as int),
{
    (bci as i128 + off as i128) as usize
}

/// The address `off` bytes from `bci`.
fn branch32(bci: usize, off: i32) -> (r: usize)
    ensures
        r == branch_target(bci as int, off as int),
{
    (bci as i128 + off as i128) as usize
}

fn fallthrough(pc: usize, size: u16) -> (r: usize)
    ensures
        r == fallthrough_target(pc as int, size as int),
{
    (pc as u128 + size as u128) as usize
}

/// What a conditional branch over operands of `kinds` does: pops them and
/// moves the program counter by `offset` when `taken`, past the `size`-byte
/// instruction otherwise.
pub open spec fn branch_post(
    old: FrameState,
    new: FrameState,
    r: Result<(), JvmError>,
    kinds: Seq<Kind>,
    taken: bool,
    offset: int,
    size: int,
) -> bool {
    match operand_fault(old.operands, kinds) {
        Some(f) => new == old && (r matches Err(e) && fault_error(f, e)),
        None => r is Ok && new == with_pc(
            replace_top(old, kinds.len() as int, seq![]),
            if taken { branch_target(old.pc, offset) } else { fallthrough_target(old.pc, size) },
        ),
    }
}

fn same_reference(a: Value, b: Value) -> (r: bool)
    ensures
        r == (a == b),
{
    match (a, b) {
        (Value::Ref(x), Value::Ref(y)) => x == y,
        (Value::Null, Value::Null) => true,
        (Value::Integer(x), Value::Integer(y)) => x == y,
        (Value::Long(x), Value::Long(y)) => x == y,
        (Value::Float(x), Value::Float(y)) => x == y,
        (Value::Double(x), Value::Double(y)) => x == y,
        _ => false,
    }
}

fn is_null(v: Value) -> (r: bool)
    ensures
        r == (v is Null),
{
    matches!(v, Value::Null)
}

/// `branch_post` for a 16-bit branch offset.
pub open spec fn branch16_post(
    old: FrameState,
    new: FrameState,
    r: Result<(), JvmError>,
    kinds: Seq<Kind>,
    taken: bool,
    offset: i16,
    size: u16,
) -> bool {
    branch_post(old, new, r, kinds, taken, offset as int, size as int)
}

/// Pops `n` operands and moves the program counter by `offset` when
/// `taken`, past the `size`-byte instruction otherwise.
fn finish_branch(frame: &mut JavaFrame, n: usize, taken: bool, offset: i16, size: u16)
    requires
        n <= old(frame)@.operands.len(),
    ensures
        final(frame)@ == with_pc(
            replace_top(old(frame)@, n as int, seq![]),
            if taken { branch_target(old(frame)@.pc, offset as int) } else { fallthrough_target(old(frame)@.pc, size as int) },
        ),
{
    let pc = frame.pc();
    frame.replace_top(n, Vec::new());
    frame.set_pc(if taken { branch16(pc, offset) } else { fallthrough(pc, size) });
    assert(final(frame)@.operands =~= replace_top(old(frame)@, n as int, seq![]).operands);
}

/// Pops two ints and pushes their quotient rounded toward zero (`MIN / -1` wraps to `MIN`); a zero divisor raises `ArithmeticException`.
pub fn handle_idiv(frame: &mut JavaFrame) -> (r: Result<(), JvmError>)
    ensures
        checked_op_post(
            old(frame)@,
            final(frame)@,
            r,
            seq![Kind::Int, Kind::Int],
            int_of(operand(old(frame)@, 0)) == 0,
            |e: JvmError| raises_with_message(e, JavaExceptionKind::ArithmeticException, "/ by zero"@),
            seq![Value::Integer(trunc_div(int_of(operand(old(frame)@, 1)) as int, int_of(operand(old(frame)@, 0)) as int) as i32)],
        ),
{
    let kinds = vec![Kind::Int, Kind::Int];
    assert(kinds@ =~= seq![Kind::Int, Kind::Int]);
    check_operands(frame, &kinds)?;
    proof {
        lemma_no_fault_len(frame@.operands, kinds@);
    }
    let v0 = int_at(frame, 0);
    let v1 = int_at(frame, 1);
    if v0 == 0 {
        let none: Vec<Value> = Vec::new();
        assert(none@ =~= seq![]);
        let _ = apply(frame, kinds, none);
        return Err(division_by_zero());
    }
    let p0 = Value::Integer(int_div(v1, v0));
    let pushed = vec![p0];
    assert(pushed@ =~= seq![p0]);
    apply(frame, kinds, pushed)
}

/// Pops two longs and pushes their quotient rounded toward zero (`MIN / -1` wraps to `MIN`); a zero divisor raises `ArithmeticException`.
pub fn handle_ldiv(frame: &mut JavaFrame) -> (r: Result<(), JvmError>)
    ensures
        checked_op_post(
            old(frame)@,
            final(frame)@,
            r,
            seq![Kind::Long, Kind::Long],
            long_of(operand(old(frame)@, 0)) == 0,
            |e: JvmError| raises_with_message(e, JavaExceptionKind::ArithmeticException, "/ by zero"@),
            seq![Value::Long(trunc_div(long_of(operand(old(frame)@, 1)) as int, long_of(operand(old(frame)@, 0)) as int) as i64)],
        ),
{
    let kinds = vec![Kind::Long, Kind::Long];
    assert(kinds@ =~= seq![Kind::Long, Kind::Long]);
    check_operands(frame, &kinds)?;
    proof {
        lemma_no_fault_len(frame@.operands, kinds@);
    }
    let v0 = long_at(frame, 0);
    let v1 = long_at(frame, 1);
    if v0 == 0 {
        let none: Vec<Value> = Vec::new();
        assert(none@ =~= seq![]);
        let _ = apply(frame, kinds, none);
        return Err(division_by_zero());
    }
    let p0 = Value::Long(long_div(v1, v0));
    let pushed = vec![p0];
    assert(pushed@ =~= seq![p0]);
    apply(frame, kinds, pushed)
}

/// Pops two ints and pushes the remainder of their division, with the sign of the dividend; a zero divisor raises `ArithmeticException`. `MIN % -1` is left out: it overflows.
pub fn handle_irem(frame: &mut JavaFrame) -> (r: Result<(), JvmError>)
    requires
        !(operand_fault(old(frame)@.operands, seq![Kind::Int, Kind::Int]) is None && int_of(operand(old(frame)@, 1)) == i32::MIN && int_of(operand(old(frame)@, 0)) == -1),
    ensures
        checked_op_post(
            old(frame)@,
            final(frame)@,
            r,
            seq![Kind::Int, Kind::Int],
            int_of(operand(old(frame)@, 0)) == 0,
            |e: JvmError| raises_with_message(e, JavaExceptionKind::ArithmeticException, "/ by zero"@),
            seq![Value::Integer(trunc_rem(int_of(operand(old(frame)@, 1)) as int, int_of(operand(old(frame)@, 0)) as int) as i32)],
        ),
{
    let kinds = vec![Kind::Int, Kind::Int];
    assert(kinds@ =~= seq![Kind::Int, Kind::Int]);
    check_operands(frame, &kinds)?;
    proof {
        lemma_no_fault_len(frame@.operands, kinds@);
    }
    let v0 = int_at(frame, 0);
    let v1 = int_at(frame, 1);
    if v0 == 0 {
        let none: Vec<Value> = Vec::new();
        assert(none@ =~= seq![]);
        let _ = apply(frame, kinds, none);
        return Err(division_by_zero());
    }
    let p0 = Value::Integer(int_rem(v1, v0));
    let pushed = vec![p0];
    assert(pushed@ =~= seq![p0]);
    apply(frame, kinds, pushed)
}

/// Pops two longs and pushes the remainder of their division, with the sign of the dividend; a zero divisor raises `ArithmeticException`. `MIN % -1` is left out: it overflows.
pub fn handle_lrem(frame: &mut JavaFrame) -> (r: Result<(), JvmError>)
    requires
        !(operand_fault(old(frame)@.operands, seq![Kind::Long, Kind::Long]) is None && long_of(operand(old(frame)@, 1)) == i64::MIN && long_of(operand(old(frame)@, 0)) == -1),
    ensures
        checked_op_post(
            old(frame)@,
            final(frame)@,
            r,
            seq![Kind::Long, Kind::Long],
            long_of(operand(old(frame)@, 0)) == 0,
            |e: JvmError| raises_with_message(e, JavaExceptionKind::ArithmeticException, "/ by zero"@),
            seq![Value::Long(trunc_rem(long_of(operand(old(frame)@, 1)) as int, long_of(operand(old(frame)@, 0)) as int) as i64)],
        ),
{
    let kinds = vec![Kind::Long, Kind::Long];
    assert(kinds@ =~= seq![Kind::Long, Kind::Long]);
    check_operands(frame, &kinds)?;
    proof {
        lemma_no_fault_len(frame@.operands, kinds@);
    }
    let v0 = long_at(frame, 0);
    let v1 = long_at(frame, 1);
    if v0 == 0 {
        let none: Vec<Value> = Vec::new();
        assert(none@ =~= seq![]);
        let _ = apply(frame, kinds, none);
        return Err(division_by_zero());
    }
    let p0 = Value::Long(long_rem(v1, v0));
    let pushed = vec![p0];
    assert(pushed@ =~= seq![p0]);
    apply(frame, kinds, pushed)
}

/// Pushes local variable 0 (a reference).
pub fn handle_aload0(frame: &mut JavaFrame) -> (r: Result<(), JvmError>)
    ensures
        load_post(old(frame)@, final(frame)@, r, 0u8, Kind::Any),
{
    load_local(frame, 0u8, Kind::Any)
}

/// Pushes local variable 1 (a reference).
pub fn handle_aload1(frame: &mut JavaFrame) -> (r: Result<(), JvmError>)
    ensures
        load_post(old(frame)@, final(frame)@, r, 1u8, Kind::Any),
{
    load_local(frame, 1u8, Kind::Any)
}

/// Pushes local variable 2 (a reference).
pub fn handle_aload2(frame: &mut JavaFrame) -> (r: Result<(), JvmError>)
    ensures
        load_post(old(frame)@, final(frame)@, r, 2u8, Kind::Any),
{
    load_local(frame, 2u8, Kind::Any)
}

/// Pushes local variable 3 (a reference).
pub fn handle_aload3(frame: &mut JavaFrame) -> (r: Result<(), JvmError>)
    ensures
        load_post(old(frame)@, final(frame)@, r, 3u8, Kind::Any),
{
    load_local(frame, 3u8, Kind::Any)
}

/// Pushes local variable `pos` (a reference).
pub fn handle_aload(frame: &mut JavaFrame, pos: u8) -> (r: Result<(), JvmError>)
    ensures
        load_post(old(frame)@, final(frame)@, r, pos, Kind::Any),
{
    load_local(frame, pos, Kind::Any)
}

/// Pushes local variable 0 (an int).
pub fn handle_iload0(frame: &mut JavaFrame) -> (r: Result<(), JvmError>)
    ensures
        load_post(old(frame)@, final(frame)@, r, 0u8, Kind::Any),
{
    load_local(frame, 0u8, Kind::Any)
}

/// Pushes local variable 1 (an int).
pub fn handle_iload1(frame: &mut JavaFrame) -> (r: Result<(), JvmError>)
    ensures
        load_post(old(frame)@, final(frame)@, r, 1u8, Kind::Any),
{
    load_local(frame, 1u8, Kind::Any)
}

/// Pushes local variable 2 (an int).
pub fn handle_iload2(frame: &mut JavaFrame) -> (r: Result<(), JvmError>)
    ensures
        load_post(old(frame)@, final(frame)@, r, 2u8, Kind::Any),
{
    load_local(frame, 2u8, Kind::Any)
}

/// Pushes local variable 3 (an int).
pub fn handle_iload3(frame: &mut JavaFrame) -> (r: Result<(), JvmError>)
    ensures
        load_post(old(frame)@, final(frame)@, r, 3u8, Kind::Any),
{
    load_local(frame, 3u8, Kind::Any)
}

/// Pushes local variable `pos` (an int).
pub fn handle_iload(frame: &mut JavaFrame, pos: u8) -> (r: Result<(), JvmError>)
    ensures
        load_post(old(frame)@, final(frame)@, r, pos, Kind::Any),
{
    load_local(frame, pos, Kind::Any)
}

/// Pushes local variable 0 (a long).
pub fn handle_lload0(frame: &mut JavaFrame) -> (r: Result<(), JvmError>)
    ensures
        load_post(old(frame)@, final(frame)@, r, 0u8, Kind::Any),
{
    load_local(frame, 0u8, Kind::Any)
}

/// Pushes local variable 1 (a long).
pub fn handle_lload1(frame: &mut JavaFrame) -> (r: Result<(), JvmError>)
    ensures
        load_post(old(frame)@, final(frame)@, r, 1u8, Kind::Any),
{
    load_local(frame, 1u8, Kind::Any)
}

/// Pushes local variable 2 (a long).
pub fn handle_lload2(frame: &mut JavaFrame) -> (r: Result<(), JvmError>)
    ensures
        load_post(old(frame)@, final(frame)@, r, 2u8, Kind::Any),
{
    load_local(frame, 2u8, Kind::Any)
}

/// Pushes local variable 3 (a long).
pub fn handle_lload3(frame: &mut JavaFrame) -> (r: Result<(), JvmError>)
    ensures
        load_post(old(frame)@, final(frame)@, r, 3u8, Kind::Any),
{
    load_local(frame, 3u8, Kind::Any)
}

/// Pushes local variable `pos` (a long).
pub fn handle_lload(frame: &mut JavaFrame, pos: u8) -> (r: Result<(), JvmError>)
    ensures
        load_post(old(frame)@, final(frame)@, r, pos, Kind::Any),
{
    load_local(frame, pos, Kind::Any)
}

/// Pushes local variable 0 (a float).
pub fn handle_fload0(frame: &mut JavaFrame) -> (r: Result<(), JvmError>)
    ensures
        load_post(old(frame)@, final(frame)@, r, 0u8, Kind::Float),
{
    load_local(frame, 0u8, Kind::Float)
}

/// Pushes local variable 1 (a float).
pub fn handle_fload1(frame: &mut JavaFrame) -> (r: Result<(), JvmError>)
    ensures
        load_post(old(frame)@, final(frame)@, r, 1u8, Kind::Float),
{
    load_local(frame, 1u8, Kind::Float)
}

/// Pushes local variable 2 (a float).
pub fn handle_fload2(frame: &mut JavaFrame) -> (r: Result<(), JvmError>)
    ensures
        load_post(old(frame)@, final(frame)@, r, 2u8, Kind::Float),
{
    load_local(frame, 2u8, Kind::Float)
}

/// Pushes local variable 3 (a float).
pub fn handle_fload3(frame: &mut JavaFrame) -> (r: Result<(), JvmError>)
    ensures
        load_post(old(frame)@, final(frame)@, r, 3u8, Kind::Float),
{
    load_local(frame, 3u8, Kind::Float)
}

/// Pushes local variable `pos` (a float).
pub fn handle_fload(frame: &mut JavaFrame, pos: u8) -> (r: Result<(), JvmError>)
    ensures
        load_post(old(frame)@, final(frame)@, r, pos, Kind::Float),
{
    load_local(frame, pos, Kind::Float)
}

/// Pushes local variable 0 (a double).
pub fn handle_dload0(frame: &mut JavaFrame) -> (r: Result<(), JvmError>)
    ensures
        load_post(old(frame)@, final(frame)@, r, 0u8, Kind::Double),
{
    load_local(frame, 0u8, Kind::Double)
}

/// Pushes local variable 1 (a double).
pub fn handle_dload1(frame: &mut JavaFrame) -> (r: Result<(), JvmError>)
    ensures
        load_post(old(frame)@, final(frame)@, r, 1u8, Kind::Double),
{
    load_local(frame, 1u8, Kind::Double)
}

/// Pushes local variable 2 (a double).
pub fn handle_dload2(frame: &mut JavaFrame) -> (r: Result<(), JvmError>)
    ensures
        load_post(old(frame)@, final(frame)@, r, 2u8, Kind::Double),
{
    load_local(frame, 2u8, Kind::Double)
}

/// Pushes local variable 3 (a double).
pub fn handle_dload3(frame: &mut JavaFrame) -> (r: Result<(), JvmError>)
    ensures
        load_post(old(frame)@, final(frame)@, r, 3u8, Kind::Double),
{
    load_local(frame, 3u8, Kind::Double)
}

/// Pushes local variable `pos` (a double).
pub fn handle_dload(frame: &mut JavaFrame, pos: u8) -> (r: Result<(), JvmError>)
    ensures
        load_post(old(frame)@, final(frame)@, r, pos, Kind::Double),
{
    load_local(frame, pos, Kind::Double)
}

/// Pops a reference or `null` into local variable 0.
pub fn handle_astore0(frame: &mut JavaFrame) -> (r: Result<(), JvmError>)
    ensures
        store_post(old(frame)@, final(frame)@, r, 0u8, Kind::NullableRef),
{
    store_local(frame, 0u8, Kind::NullableRef)
}

/// Pops a reference or `null` into local variable 1.
pub fn handle_astore1(frame: &mut JavaFrame) -> (r: Result<(), JvmError>)
    ensures
        store_post(old(frame)@, final(frame)@, r, 1u8, Kind::NullableRef),
{
    store_local(frame, 1u8, Kind::NullableRef)
}

/// Pops a reference or `null` into local variable 2.
pub fn handle_astore2(frame: &mut JavaFrame) -> (r: Result<(), JvmError>)
    ensures
        store_post(old(frame)@, final(frame)@, r, 2u8, Kind::NullableRef),
{
    store_local(frame, 2u8, Kind::NullableRef)
}

/// Pops a reference or `null` into local variable 3.
pub fn handle_astore3(frame: &mut JavaFrame) -> (r: Result<(), JvmError>)
    ensures
        store_post(old(frame)@, final(frame)@, r, 3u8, Kind::NullableRef),
{
    store_local(frame, 3u8, Kind::NullableRef)
}

/// Pops a reference or `null` into local variable `pos`.
pub fn handle_astore(frame: &mut JavaFrame, pos: u8) -> (r: Result<(), JvmError>)
    ensures
        store_post(old(frame)@, final(frame)@, r, pos, Kind::NullableRef),
{
    store_local(frame, pos, Kind::NullableRef)
}

/// Pops an int into local variable 0.
pub fn handle_istore0(frame: &mut JavaFrame) -> (r: Result<(), JvmError>)
    ensures
        store_post(old(frame)@, final(frame)@, r, 0u8, Kind::Int),
{
    store_local(frame, 0u8, Kind::Int)
}

/// Pops an int into local variable 1.
pub fn handle_istore1(frame: &mut JavaFrame) -> (r: Result<(), JvmError>)
    ensures
        store_post(old(frame)@, final(frame)@, r, 1u8, Kind::Int),
{
    store_local(frame, 1u8, Kind::Int)
}

/// Pops an int into local variable 2.
pub fn handle_istore2(frame: &mut JavaFrame) -> (r: Result<(), JvmError>)
    ensures
        store_post(old(frame)@, final(frame)@, r, 2u8, Kind::Int),
{
    store_local(frame, 2u8, Kind::Int)
}

/// Pops an int into local variable 3.
pub fn handle_istore3(frame: &mut JavaFrame) -> (r: Result<(), JvmError>)
    ensures
        store_post(old(frame)@, final(frame)@, r, 3u8, Kind::Int),
{
    store_local(frame, 3u8, Kind::Int)
}

/// Pops an int into local variable `pos`.
pub fn handle_istore(frame: &mut JavaFrame, pos: u8) -> (r: Result<(), JvmError>)
    ensures
        store_post(old(frame)@, final(frame)@, r, pos, Kind::Int),
{
    store_local(frame, pos, Kind::Int)
}

/// Pops a long into local variable 0.
pub fn handle_lstore0(frame: &mut JavaFrame) -> (r: Result<(), JvmError>)
    ensures
        store_post(old(frame)@, final(frame)@, r, 0u8, Kind::Long),
{
    store_local(frame, 0u8, Kind::Long)
}

/// Pops a long into local variable 1.
pub fn handle_lstore1(frame: &mut JavaFrame) -> (r: Result<(), JvmError>)
    ensures
        store_post(old(frame)@, final(frame)@, r, 1u8, Kind::Long),
{
    store_local(frame, 1u8, Kind::Long)
}

/// Pops a long into local variable 2.
pub fn handle_lstore2(frame: &mut JavaFrame) -> (r: Result<(), JvmError>)
    ensures
        store_post(old(frame)@, final(frame)@, r, 2u8, Kind::Long),
{
    store_local(frame, 2u8, Kind::Long)
}

/// Pops a long into local variable 3.
pub fn handle_lstore3(frame: &mut JavaFrame) -> (r: Result<(), JvmError>)
    ensures
        store_post(old(frame)@, final(frame)@, r, 3u8, Kind::Long),
{
    store_local(frame, 3u8, Kind::Long)
}

/// Pops a long into local variable `pos`.
pub fn handle_lstore(frame: &mut JavaFrame, pos: u8) -> (r: Result<(), JvmError>)
    ensures
        store_post(old(frame)@, final(frame)@, r, pos, Kind::Long),
{
    store_local(frame, pos, Kind::Long)
}

/// Pops a float into local variable 0.
pub fn handle_fstore0(frame: &mut JavaFrame) -> (r: Result<(), JvmError>)
    ensures
        store_post(old(frame)@, final(frame)@, r, 0u8, Kind::Float),
{
    store_local(frame, 0u8, Kind::Float)
}

/// Pops a float into local variable 1.
pub fn handle_fstore1(frame: &mut JavaFrame) -> (r: Result<(), JvmError>)
    ensures
        store_post(old(frame)@, final(frame)@, r, 1u8, Kind::Float),
{
    store_local(frame, 1u8, Kind::Float)
}

/// Pops a float into local variable 2.
pub fn handle_fstore2(frame: &mut JavaFrame) -> (r: Result<(), JvmError>)
    ensures
        store_post(old(frame)@, final(frame)@, r, 2u8, Kind::Float),
{
    store_local(frame, 2u8, Kind::Float)
}

/// Pops a float into local variable 3.
pub fn handle_fstore3(frame: &mut JavaFrame) -> (r: Result<(), JvmError>)
    ensures
        store_post(old(frame)@, final(frame)@, r, 3u8, Kind::Float),
{
    store_local(frame, 3u8, Kind::Float)
}

/// Pops a float into local variable `pos`.
pub fn handle_fstore(frame: &mut JavaFrame, pos: u8) -> (r: Result<(), JvmError>)
    ensures
        store_post(old(frame)@, final(frame)@, r, pos, Kind::Float),
{
    store_local(frame, pos, Kind::Float)
}

/// Pops a double into local variable `pos`.
pub fn handle_dstore(frame: &mut JavaFrame, pos: u8) -> (r: Result<(), JvmError>)
    ensures
        store_post(old(frame)@, final(frame)@, r, pos, Kind::Double),
{
    store_local(frame, pos, Kind::Double)
}

/// Pops an int and branches by `offset` when it is zero; otherwise moves past the `size`-byte instruction.
pub fn handle_ifeq(frame: &mut JavaFrame, offset: i16, size: u16) -> (r: Result<(), JvmError>)
    ensures
        branch16_post(old(frame)@, final(frame)@, r, seq![Kind::Int], int_of(operand(old(frame)@, 0)) == 0, offset, size),
{
    let kinds = vec![Kind::Int];
    assert(kinds@ =~= seq![Kind::Int]);
    check_operands(frame, &kinds)?;
    proof {
        lemma_no_fault_len(frame@.operands, kinds@);
    }
    let v0 = int_at(frame, 0);
    let taken = v0 == 0;
    finish_branch(frame, kinds.len(), taken, offset, size);
    Ok(())
}

/// Pops an int and branches by `offset` when it is not zero; otherwise moves past the `size`-byte instruction.
pub fn handle_ifne(frame: &mut JavaFrame, offset: i16, size: u16) -> (r: Result<(), JvmError>)
    ensures
        branch16_post(old(frame)@, final(frame)@, r, seq![Kind::Int], int_of(operand(old(frame)@, 0)) != 0, offset, size),
{
    let kinds = vec![Kind::Int];
    assert(kinds@ =~= seq![Kind::Int]);
    check_operands(frame, &kinds)?;
    proof {
        lemma_no_fault_len(frame@.operands, kinds@);
    }
    let v0 = int_at(frame, 0);
    let taken = v0 != 0;
    finish_branch(frame, kinds.len(), taken, offset, size);
    Ok(())
}

/// Pops an int and branches by `offset` when it is negative; otherwise moves past the `size`-byte instruction.
pub fn handle_iflt(frame: &mut JavaFrame, offset: i16, size: u16) -> (r: Result<(), JvmError>)
    ensures
        branch16_post(old(frame)@, final(frame)@, r, seq![Kind::Int], int_of(operand(old(frame)@, 0)) < 0, offset, size),
{
    let kinds = vec![Kind::Int];
    assert(kinds@ =~= seq![Kind::Int]);
    check_operands(frame, &kinds)?;
    proof {
        lemma_no_fault_len(frame@.operands, kinds@);
    }
    let v0 = int_at(frame, 0);
    let taken = v0 < 0;
    finish_branch(frame, kinds.len(), taken, offset, size);
    Ok(())
}

/// Pops an int and branches by `offset` when it is not negative; otherwise moves past the `size`-byte instruction.
pub fn handle_ifge(frame: &mut JavaFrame, offset: i16, size: u16) -> (r: Result<(), JvmError>)
    ensures
        branch16_post(old(frame)@, final(frame)@, r, seq![Kind::Int], int_of(operand(old(frame)@, 0)) >= 0, offset, size),
{
    let kinds = vec![Kind::Int];
    assert(kinds@ =~= seq![Kind::Int]);
    check_operands(frame, &kinds)?;
    proof {
        lemma_no_fault_len(frame@.operands, kinds@);
    }
    let v0 = int_at(frame, 0);
    let taken = v0 >= 0;
    finish_branch(frame, kinds.len(), taken, offset, size);
    Ok(())
}

/// Pops an int and branches by `offset` when it is positive; otherwise moves past the `size`-byte instruction.
pub fn handle_ifgt(frame: &mut JavaFrame, offset: i16, size: u16) -> (r: Result<(), JvmError>)
    ensures
        branch16_post(old(frame)@, final(frame)@, r, seq![Kind::Int], int_of(operand(old(frame)@, 0)) > 0, offset, size),
{
    let kinds = vec![Kind::Int];
    assert(kinds@ =~= seq![Kind::Int]);
    check_operands(frame, &kinds)?;
    proof {
        lemma_no_fault_len(frame@.operands, kinds@);
    }
    let v0 = int_at(frame, 0);
    let taken = v0 > 0;
    finish_branch(frame, kinds.len(), taken, offset, size);
    Ok(())
}

/// Pops an int and branches by `offset` when it is not positive; otherwise moves past the `size`-byte instruction.
pub fn handle_ifle(frame: &mut JavaFrame, offset: i16, size: u16) -> (r: Result<(), JvmError>)
    ensures
        branch16_post(old(frame)@, final(frame)@, r, seq![Kind::Int], int_of(operand(old(frame)@, 0)) <= 0, offset, size),
{
    let kinds = vec![Kind::Int];
    assert(kinds@ =~= seq![Kind::Int]);
    check_operands(frame, &kinds)?;
    proof {
        lemma_no_fault_len(frame@.operands, kinds@);
    }
    let v0 = int_at(frame, 0);
    let taken = v0 <= 0;
    finish_branch(frame, kinds.len(), taken, offset, size);
    Ok(())
}

/// Pops two ints and branches by `offset` when the first is equal to the second; otherwise moves past the `size`-byte instruction.
pub fn handle_ificmpeq(frame: &mut JavaFrame, offset: i16, size: u16) -> (r: Result<(), JvmError>)
    ensures
        branch16_post(old(frame)@, final(frame)@, r, seq![Kind::Int, Kind::Int], int_of(operand(old(frame)@, 1)) == int_of(operand(old(frame)@, 0)), offset, size),
{
    let kinds = vec![Kind::Int, Kind::Int];
    assert(kinds@ =~= seq![Kind::Int, Kind::Int]);
    check_operands(frame, &kinds)?;
    proof {
        lemma_no_fault_len(frame@.operands, kinds@);
    }
    let v0 = int_at(frame, 0);
    let v1 = int_at(frame, 1);
    let taken = v1 == v0;
    finish_branch(frame, kinds.len(), taken, offset, size);
    Ok(())
}

/// Pops two ints and branches by `offset` when the first is not equal to the second; otherwise moves past the `size`-byte instruction.
pub fn handle_ificmpne(frame: &mut JavaFrame, offset: i16, size: u16) -> (r: Result<(), JvmError>)
    ensures
        branch16_post(old(frame)@, final(frame)@, r, seq![Kind::Int, Kind::Int], int_of(operand(old(frame)@, 1)) != int_of(operand(old(frame)@, 0)), offset, size),
{
    let kinds = vec![Kind::Int, Kind::Int];
    assert(kinds@ =~= seq![Kind::Int, Kind::Int]);
    check_operands(frame, &kinds)?;
    proof {
        lemma_no_fault_len(frame@.operands, kinds@);
    }
    let v0 = int_at(frame, 0);
    let v1 = int_at(frame, 1);
    let taken = v1 != v0;
    finish_branch(frame, kinds.len(), taken, offset, size);
    Ok(())
}

/// Pops two ints and branches by `offset` when the first is less than the second; otherwise moves past the `size`-byte instruction.
pub fn handle_ificmplt(frame: &mut JavaFrame, offset: i16, size: u16) -> (r: Result<(), JvmError>)
    ensures
        branch16_post(old(frame)@, final(frame)@, r, seq![Kind::Int, Kind::Int], int_of(operand(old(frame)@, 1)) < int_of(operand(old(frame)@, 0)), offset, size),
{
    let kinds = vec![Kind::Int, Kind::Int];
    assert(kinds@ =~= seq![Kind::Int, Kind::Int]);
    check_operands(frame, &kinds)?;
    proof {
        lemma_no_fault_len(frame@.operands, kinds@);
    }
    let v0 = int_at(frame, 0);
    let v1 = int_at(frame, 1);
    let taken = v1 < v0;
    finish_branch(frame, kinds.len(), taken, offset, size);
    Ok(())
}

/// Pops two ints and branches by `offset` when the first is not less than the second; otherwise moves past the `size`-byte instruction.
pub fn handle_ificmpge(frame: &mut JavaFrame, offset: i16, size: u16) -> (r: Result<(), JvmError>)
    ensures
        branch16_post(old(frame)@, final(frame)@, r, seq![Kind::Int, Kind::Int], int_of(operand(old(frame)@, 1)) >= int_of(operand(old(frame)@, 0)), offset, size),
{
    let kinds = vec![Kind::Int, Kind::Int];
    assert(kinds@ =~= seq![Kind::Int, Kind::Int]);
    check_operands(frame, &kinds)?;
    proof {
        lemma_no_fault_len(frame@.operands, kinds@);
    }
    let v0 = int_at(frame, 0);
    let v1 = int_at(frame, 1);
    let taken = v1 >= v0;
    finish_branch(frame, kinds.len(), taken, offset, size);
    Ok(())
}

/// Pops two ints and branches by `offset` when the first is greater than the second; otherwise moves past the `size`-byte instruction.
pub fn handle_ificmpgt(frame: &mut JavaFrame, offset: i16, size: u16) -> (r: Result<(), JvmError>)
    ensures
        branch16_post(old(frame)@, final(frame)@, r, seq![Kind::Int, Kind::Int], int_of(operand(old(frame)@, 1)) > int_of(operand(old(frame)@, 0)), offset, size),
{
    let kinds = vec![Kind::Int, Kind::Int];
    assert(kinds@ =~= seq![Kind::Int, Kind::Int]);
    check_operands(frame, &kinds)?;
    proof {
        lemma_no_fault_len(frame@.operands, kinds@);
    }
    let v0 = int_at(frame, 0);
    let v1 = int_at(frame, 1);
    let taken = v1 > v0;
    finish_branch(frame, kinds.len(), taken, offset, size);
    Ok(())
}

/// Pops two ints and branches by `offset` when the first is not greater than the second; otherwise moves past the `size`-byte instruction.
pub fn handle_ificmple(frame: &mut JavaFrame, offset: i16, size: u16) -> (r: Result<(), JvmError>)
    ensures
        branch16_post(old(frame)@, final(frame)@, r, seq![Kind::Int, Kind::Int], int_of(operand(old(frame)@, 1)) <= int_of(operand(old(frame)@, 0)), offset, size),
{
    let kinds = vec![Kind::Int, Kind::Int];
    assert(kinds@ =~= seq![Kind::Int, Kind::Int]);
    check_operands(frame, &kinds)?;
    proof {
        lemma_no_fault_len(frame@.operands, kinds@);
    }
    let v0 = int_at(frame, 0);
    let v1 = int_at(frame, 1);
    let taken = v1 <= v0;
    finish_branch(frame, kinds.len(), taken, offset, size);
    Ok(())
}

/// Pops two references and branches by `offset` when they are the same (both `null` or the same address); otherwise moves past the `size`-byte instruction.
pub fn handle_ifacmpeq(frame: &mut JavaFrame, offset: i16, size: u16) -> (r: Result<(), JvmError>)
    ensures
        branch16_post(old(frame)@, final(frame)@, r, seq![Kind::NullableRef, Kind::NullableRef], operand(old(frame)@, 1) == operand(old(frame)@, 0), offset, size),
{
    let kinds = vec![Kind::NullableRef, Kind::NullableRef];
    assert(kinds@ =~= seq![Kind::NullableRef, Kind::NullableRef]);
    check_operands(frame, &kinds)?;
    proof {
        lemma_no_fault_len(frame@.operands, kinds@);
    }
    let v0 = value_at(frame, 0);
    let v1 = value_at(frame, 1);
    let taken = same_reference(v1, v0);
    finish_branch(frame, kinds.len(), taken, offset, size);
    Ok(())
}

/// Pops two references and branches by `offset` when they differ; otherwise moves past the `size`-byte instruction.
pub fn handle_ifacmpne(frame: &mut JavaFrame, offset: i16, size: u16) -> (r: Result<(), JvmError>)
    ensures
        branch16_post(old(frame)@, final(frame)@, r, seq![Kind::NullableRef, Kind::NullableRef], operand(old(frame)@, 1) != operand(old(frame)@, 0), offset, size),
{
    let kinds = vec![Kind::NullableRef, Kind::NullableRef];
    assert(kinds@ =~= seq![Kind::NullableRef, Kind::NullableRef]);
    check_operands(frame, &kinds)?;
    proof {
        lemma_no_fault_len(frame@.operands, kinds@);
    }
    let v0 = value_at(frame, 0);
    let v1 = value_at(frame, 1);
    let taken = !same_reference(v1, v0);
    finish_branch(frame, kinds.len(), taken, offset, size);
    Ok(())
}

/// Pops a reference and branches by `offset` when it is `null`; otherwise moves past the `size`-byte instruction.
pub fn handle_ifnull(frame: &mut JavaFrame, offset: i16, size: u16) -> (r: Result<(), JvmError>)
    ensures
        branch16_post(old(frame)@, final(frame)@, r, seq![Kind::NullableRef], operand(old(frame)@, 0) is Null, offset, size),
{
    let kinds = vec![Kind::NullableRef];
    assert(kinds@ =~= seq![Kind::NullableRef]);
    check_operands(frame, &kinds)?;
    proof {
        lemma_no_fault_len(frame@.operands, kinds@);
    }
    let v0 = value_at(frame, 0);
    let taken = is_null(v0);
    finish_branch(frame, kinds.len(), taken, offset, size);
    Ok(())
}

/// Pops a reference and branches by `offset` when it is not `null`; otherwise moves past the `size`-byte instruction.
pub fn handle_ifnonnull(frame: &mut JavaFrame, offset: i16, size: u16) -> (r: Result<(), JvmError>)
    ensures
        branch16_post(old(frame)@, final(frame)@, r, seq![Kind::NullableRef], !(operand(old(frame)@, 0) is Null), offset, size),
{
    let kinds = vec![Kind::NullableRef];
    assert(kinds@ =~= seq![Kind::NullableRef]);
    check_operands(frame, &kinds)?;
    proof {
        lemma_no_fault_len(frame@.operands, kinds@);
    }
    let v0 = value_at(frame, 0);
    let taken = !is_null(v0);
    finish_branch(frame, kinds.len(), taken, offset, size);
    Ok(())
}

/// Pops the int a method returns.
pub fn handle_ireturn(frame: &mut JavaFrame) -> (r: Result<Value, JvmError>)
    ensures
        match operand_fault(old(frame)@.operands, seq![Kind::Int]) {
            Some(f) => final(frame)@ == old(frame)@ && (r matches Err(e) && fault_error(f, e)),
            None => r == Ok::<Value, JvmError>(operand(old(frame)@, 0)) && final(frame)@ == replace_top(old(frame)@, 1, seq![]),
        },
{
    let kinds = vec![Kind::Int];
    assert(kinds@ =~= seq![Kind::Int]);
    check_operands(frame, &kinds)?;
    proof {
        lemma_no_fault_len(frame@.operands, kinds@);
    }
    let v = value_at(frame, 0);
    frame.replace_top(1, Vec::new());
    assert(final(frame)@.operands =~= replace_top(old(frame)@, 1, seq![]).operands);
    Ok(v)
}

/// Pops the long a method returns.
pub fn handle_lreturn(frame: &mut JavaFrame) -> (r: Result<Value, JvmError>)
    ensures
        match operand_fault(old(frame)@.operands, seq![Kind::Long]) {
            Some(f) => final(frame)@ == old(frame)@ && (r matches Err(e) && fault_error(f, e)),
            None => r == Ok::<Value, JvmError>(operand(old(frame)@, 0)) && final(frame)@ == replace_top(old(frame)@, 1, seq![]),
        },
{
    let kinds = vec![Kind::Long];
    assert(kinds@ =~= seq![Kind::Long]);
    check_operands(frame, &kinds)?;
    proof {
        lemma_no_fault_len(frame@.operands, kinds@);
    }
    let v = value_at(frame, 0);
    frame.replace_top(1, Vec::new());
    assert(final(frame)@.operands =~= replace_top(old(frame)@, 1, seq![]).operands);
    Ok(v)
}

/// Pops the float a method returns.
pub fn handle_freturn(frame: &mut JavaFrame) -> (r: Result<Value, JvmError>)
    ensures
        match operand_fault(old(frame)@.operands, seq![Kind::Float]) {
            Some(f) => final(frame)@ == old(frame)@ && (r matches Err(e) && fault_error(f, e)),
            None => r == Ok::<Value, JvmError>(operand(old(frame)@, 0)) && final(frame)@ == replace_top(old(frame)@, 1, seq![]),
        },
{
    let kinds = vec![Kind::Float];
    assert(kinds@ =~= seq![Kind::Float]);
    check_operands(frame, &kinds)?;
    proof {
        lemma_no_fault_len(frame@.operands, kinds@);
    }
    let v = value_at(frame, 0);
    frame.replace_top(1, Vec::new());
    assert(final(frame)@.operands =~= replace_top(old(frame)@, 1, seq![]).operands);
    Ok(v)
}

/// Pops the double a method returns.
pub fn handle_dreturn(frame: &mut JavaFrame) -> (r: Result<Value, JvmError>)
    ensures
        match operand_fault(old(frame)@.operands, seq![Kind::Double]) {
            Some(f) => final(frame)@ == old(frame)@ && (r matches Err(e) && fault_error(f, e)),
            None => r == Ok::<Value, JvmError>(operand(old(frame)@, 0)) && final(frame)@ == replace_top(old(frame)@, 1, seq![]),
        },
{
    let kinds = vec![Kind::Double];
    assert(kinds@ =~= seq![Kind::Double]);
    check_operands(frame, &kinds)?;
    proof {
        lemma_no_fault_len(frame@.operands, kinds@);
    }
    let v = value_at(frame, 0);
    frame.replace_top(1, Vec::new());
    assert(final(frame)@.operands =~= replace_top(old(frame)@, 1, seq![]).operands);
    Ok(v)
}

/// Pops the reference (or `null`) a method returns.
pub fn handle_areturn(frame: &mut JavaFrame) -> (r: Result<Value, JvmError>)
    ensures
        match operand_fault(old(frame)@.operands, seq![Kind::NullableRef]) {
            Some(f) => final(frame)@ == old(frame)@ && (r matches Err(e) && fault_error(f, e)),
            None => r == Ok::<Value, JvmError>(operand(old(frame)@, 0)) && final(frame)@ == replace_top(old(frame)@, 1, seq![]),
        },
{
    let kinds = vec![Kind::NullableRef];
    assert(kinds@ =~= seq![Kind::NullableRef]);
    check_operands(frame, &kinds)?;
    proof {
        lemma_no_fault_len(frame@.operands, kinds@);
    }
    let v = value_at(frame, 0);
    frame.replace_top(1, Vec::new());
    assert(final(frame)@.operands =~= replace_top(old(frame)@, 1, seq![]).operands);
    Ok(v)
}

/// Moves the program counter by `offset`.
pub fn handle_goto(frame: &mut JavaFrame, offset: i16) -> (r: Result<(), JvmError>)
    ensures
        r is Ok,
        final(frame)@ == with_pc(old(frame)@, branch_target(old(frame)@.pc, offset as int)),
{
    let pc = frame.pc();
    frame.set_pc(branch16(pc, offset));
    Ok(())
}

/// Pushes the byte `val` as an int.
pub fn handle_bipush(frame: &mut JavaFrame, val: i8) -> (r: Result<(), JvmError>)
    ensures
        op_post(old(frame)@, final(frame)@, r, seq![], seq![Value::Integer(val as i32)]),
{
    let kinds: Vec<Kind> = Vec::new();
    assert(kinds@ =~= seq![]);
    let p0 = Value::Integer(val as i32);
    let pushed = vec![p0];
    assert(pushed@ =~= seq![p0]);
    apply(frame, kinds, pushed)
}

/// Pushes the short `value` as an int.
pub fn handle_sipush(frame: &mut JavaFrame, value: i16) -> (r: Result<(), JvmError>)
    ensures
        op_post(old(frame)@, final(frame)@, r, seq![], seq![Value::Integer(value as i32)]),
{
    let kinds: Vec<Kind> = Vec::new();
    assert(kinds@ =~= seq![]);
    let p0 = Value::Integer(value as i32);
    let pushed = vec![p0];
    assert(pushed@ =~= seq![p0]);
    apply(frame, kinds, pushed)
}

/// Adds `const_val` to the int in local variable `idx`, wrapping on overflow.
pub fn handle_iinc(frame: &mut JavaFrame, idx: u8, const_val: i8) -> (r: Result<(), JvmError>)
    ensures
        idx >= old(frame)@.locals.len() ==> final(frame)@ == old(frame)@ && r == Err::<(), JvmError>(
            JvmError::LocalVariableNotFound(idx),
        ),
        idx < old(frame)@.locals.len() ==> match old(frame)@.locals[idx as int] {
            None => final(frame)@ == old(frame)@ && r == Err::<(), JvmError>(JvmError::LocalVariableNotInitialized(idx)),
            Some(v) => if v is Integer {
                r is Ok && final(frame)@ == (FrameState {
                    locals: old(frame)@.locals.update(
                        idx as int,
                        Some(Value::Integer((int_of(v) + const_val) as i32)),
                    ),
                    ..old(frame)@
                })
            } else {
                final(frame)@ == old(frame)@ && (r matches Err(JvmError::UnexpectedType(_)))
            },
        },
{
    let v = frame.get_local(idx)?;
    let value = match v {
        Value::Integer(i) => i,
        _ => {
            return Err(JvmError::UnexpectedType("local variable is not an int".to_string()));
        },
    };
    frame.set_local(idx, Value::Integer((value as i64 + const_val as i64) as i32))
}

/// Duplicates the top long or double, or else the top two operands.
pub fn handle_dup2(frame: &mut JavaFrame) -> (r: Result<(), JvmError>)
    ensures
        old(frame)@.operands.len() == 0 ==> final(frame)@ == old(frame)@ && (r matches Err(JvmError::OperandStackIsEmpty)),
        old(frame)@.operands.len() > 0 && (operand(old(frame)@, 0) is Long || operand(old(frame)@, 0) is Double)
            ==> op_post(old(frame)@, final(frame)@, r, seq![Kind::Any], seq![operand(old(frame)@, 0), operand(old(frame)@, 0)]),
        old(frame)@.operands.len() > 0 && !(operand(old(frame)@, 0) is Long || operand(old(frame)@, 0) is Double)
            ==> op_post(
            old(frame)@,
            final(frame)@,
            r,
            seq![Kind::Any, Kind::Any],
            seq![operand(old(frame)@, 1), operand(old(frame)@, 0), operand(old(frame)@, 1), operand(old(frame)@, 0)],
        ),
{
    let top = frame.peek(0)?;
    match top {
        Value::Long(_) | Value::Double(_) => {
            let kinds = vec![Kind::Any];
            assert(kinds@ =~= seq![Kind::Any]);
            let pushed = vec![top, top];
            assert(pushed@ =~= seq![top, top]);
            apply(frame, kinds, pushed)
        },
        _ => {
            let kinds = vec![Kind::Any, Kind::Any];
            assert(kinds@ =~= seq![Kind::Any, Kind::Any]);
            check_operands(frame, &kinds)?;
            proof {
                lemma_no_fault_len(frame@.operands, kinds@);
            }
            let second = value_at(frame, 1);
            let pushed = vec![second, top, second, top];
            assert(pushed@ =~= seq![second, top, second, top]);
            apply(frame, kinds, pushed)
        },
    }
}

/// Pops the exception object and throws it.
pub fn handle_athrow(frame: &mut JavaFrame) -> (r: Result<(), JvmError>)
    ensures
        match operand_fault(old(frame)@.operands, seq![Kind::Ref]) {
            Some(f) => final(frame)@ == old(frame)@ && (r matches Err(e) && fault_error(f, e)),
            None => final(frame)@ == replace_top(old(frame)@, 1, seq![]) && r == Err::<(), JvmError>(
                JvmError::JavaExceptionThrown(ref_of(operand(old(frame)@, 0))),
            ),
        },
{
    let kinds = vec![Kind::Ref];
    assert(kinds@ =~= seq![Kind::Ref]);
    check_operands(frame, &kinds)?;
    proof {
        lemma_no_fault_len(frame@.operands, kinds@);
    }
    let exception_ref = ref_at(frame, 0);
    frame.replace_top(1, Vec::new());
    Err(JvmError::JavaExceptionThrown(exception_ref))
}

/// Pops an int index and jumps by the table's offset for it, or by the
/// default offset when it lies outside `low..=high`.
pub fn handle_tableswitch(frame: &mut JavaFrame, switch: &TableSwitchData) -> (r: Result<(), JvmError>)
    requires
        switch.low <= switch.high ==> switch.high - switch.low < switch.offsets@.len(),
    ensures
        match operand_fault(old(frame)@.operands, seq![Kind::Int]) {
            Some(f) => final(frame)@ == old(frame)@ && (r matches Err(e) && fault_error(f, e)),
            None => r is Ok && final(frame)@ == with_pc(
                replace_top(old(frame)@, 1, seq![]),
                branch_target(old(frame)@.pc, table_offset(*switch, int_of(operand(old(frame)@, 0))) as int),
            ),
        },
{
    let kinds = vec![Kind::Int];
    assert(kinds@ =~= seq![Kind::Int]);
    check_operands(frame, &kinds)?;
    proof {
        lemma_no_fault_len(frame@.operands, kinds@);
    }
    let index = int_at(frame, 0);
    let pc = frame.pc();
    let target_offset = if index < switch.low || index > switch.high {
        switch.default_offset
    } else {
        let idx = (index as i64 - switch.low as i64) as usize;
        switch.offsets[idx]
    };
    frame.replace_top(1, Vec::new());
    frame.set_pc(branch32(pc, target_offset));
    assert(final(frame)@.operands =~= replace_top(old(frame)@, 1, seq![]).operands);
    Ok(())
}

/// The offset for `key` among `pairs` sorted by key, or `default_offset`.
fn search_pairs(pairs: &Vec<(i32, i32)>, key: i32, default_offset: i32) -> (r: i32)
    requires
        keys_sorted(pairs@),
    ensures
        r == lookup_offset(LookupSwitchData { default_offset, pairs: *pairs }, key),
{
    let ghost sw = LookupSwitchData { default_offset, pairs: *pairs };
    let mut lo: usize = 0;
    let mut hi: usize = pairs.len();
    while lo < hi
        invariant
            lo <= hi <= pairs@.len(),
            keys_sorted(pairs@),
            sw == (LookupSwitchData { default_offset, pairs: *pairs }),
            forall|i: int| 0 <= i < lo ==> pairs@[i].0 < key,
            forall|i: int| hi <= i < pairs@.len() ==> pairs@[i].0 > key,
        decreases hi - lo,
    {
        let mid = lo + (hi - lo) / 2;
        let (k, off) = pairs[mid];
        if k == key {
            assert(exists|i: int| 0 <= i < sw.pairs@.len() && sw.pairs@[i].0 == key) by {
                assert(sw.pairs@[mid as int].0 == key);
            }
            let ghost c = choose|i: int| 0 <= i < sw.pairs@.len() && sw.pairs@[i].0 == key;
            assert(c == mid) by {
                if c < mid {
                    assert(pairs@[c].0 < pairs@[mid as int].0);
                } else if c > mid {
                    assert(pairs@[mid as int].0 < pairs@[c].0);
                }
            }
            return off;
        } else if k < key {
            assert forall|i: int| 0 <= i <= mid implies pairs@[i].0 < key by {
                if i < mid {
                    assert(pairs@[i].0 < pairs@[mid as int].0);
                }
            }
            lo = mid + 1;
        } else {
            assert forall|i: int| mid <= i < pairs@.len() implies pairs@[i].0 > key by {
                if i > mid {
                    assert(pairs@[mid as int].0 < pairs@[i].0);
                }
            }
            hi = mid;
        }
    }
    assert(!exists|i: int| 0 <= i < sw.pairs@.len() && sw.pairs@[i].0 == key);
    default_offset
}

/// Pops an int key and jumps by the offset paired with it, or by the
/// default offset when no pair has that key.
pub fn handle_lookupswitch(frame: &mut JavaFrame, switch: &LookupSwitchData) -> (r: Result<(), JvmError>)
    requires
        keys_sorted(switch.pairs@),
    ensures
        match operand_fault(old(frame)@.operands, seq![Kind::Int]) {
            Some(f) => final(frame)@ == old(frame)@ && (r matches Err(e) && fault_error(f, e)),
            None => r is Ok && final(frame)@ == with_pc(
                replace_top(old(frame)@, 1, seq![]),
                branch_target(old(frame)@.pc, lookup_offset(*switch, int_of(operand(old(frame)@, 0))) as int),
            ),
        },
{
    let kinds = vec![Kind::Int];
    assert(kinds@ =~= seq![Kind::Int]);
    check_operands(frame, &kinds)?;
    proof {
        lemma_no_fault_len(frame@.operands, kinds@);
    }
    let key = int_at(frame, 0);
    let pc = frame.pc();
    let target_offset = search_pairs(&switch.pairs, key, switch.default_offset);
    frame.replace_top(1, Vec::new());
    frame.set_pc(branch32(pc, target_offset));
    assert(final(frame)@.operands =~= replace_top(old(frame)@, 1, seq![]).operands);
    Ok(())
}

/// What an array load does: pops the index and the array, pushes the element.
pub open spec fn array_load_post(old: FrameState, new: FrameState, r: Result<(), JvmError>, m: Seq<u8>) -> bool {
    match operand_fault(old.operands, seq![Kind::Int, Kind::Ref]) {
        Some(f) => new == old && (r matches Err(e) && fault_error(f, e)),
        None => {
            let h = ref_of(operand(old, 1)) as int;
            let index = int_of(operand(old, 0));
            match array_element_value(m, h, index) {
                None => new == replace_top(old, 2, seq![]) && (r matches Err(e) && array_read_post(m, h, index, Err(e))),
                Some(v) => r is Ok && new == replace_top(old, 2, seq![v]),
            }
        },
    }
}

fn array_load(frame: &mut JavaFrame, heap: &Heap) -> (r: Result<(), JvmError>)
    ensures
        array_load_post(old(frame)@, final(frame)@, r, heap@),
{
    let kinds = vec![Kind::Int, Kind::Ref];
    assert(kinds@ =~= seq![Kind::Int, Kind::Ref]);
    check_operands(frame, &kinds)?;
    proof {
        lemma_no_fault_len(frame@.operands, kinds@);
    }
    let index = int_at(frame, 0);
    let array_ref = ref_at(frame, 1);
    let read = heap.read_array_element(array_ref, index);
    proof {
        lemma_array_read_value(heap@, array_ref as int, index, read);
    }
    let value = match read {
        Ok(v) => v,
        Err(e) => {
            frame.replace_top(2, Vec::new());
            assert(final(frame)@.operands =~= replace_top(old(frame)@, 2, seq![]).operands);
            return Err(e);
        },
    };
    let pushed = vec![value];
    assert(pushed@ =~= seq![value]);
    apply(frame, kinds, pushed)
}

/// Pops an index and an int array and pushes the element.
pub fn handle_iaload(frame: &mut JavaFrame, heap: &Heap) -> (r: Result<(), JvmError>)
    ensures
        array_load_post(old(frame)@, final(frame)@, r, heap@),
{
    array_load(frame, heap)
}

/// Pops an index and a char array and pushes the element.
pub fn handle_caload(frame: &mut JavaFrame, heap: &Heap) -> (r: Result<(), JvmError>)
    ensures
        array_load_post(old(frame)@, final(frame)@, r, heap@),
{
    array_load(frame, heap)
}

/// Pops an index and a byte or boolean array and pushes the element.
pub fn handle_baload(frame: &mut JavaFrame, heap: &Heap) -> (r: Result<(), JvmError>)
    ensures
        array_load_post(old(frame)@, final(frame)@, r, heap@),
{
    array_load(frame, heap)
}

/// Pops an index and a short array and pushes the element.
pub fn handle_saload(frame: &mut JavaFrame, heap: &Heap) -> (r: Result<(), JvmError>)
    ensures
        array_load_post(old(frame)@, final(frame)@, r, heap@),
{
    array_load(frame, heap)
}

/// Pops an index and a reference array and pushes the element; an element
/// that is not a reference is refused.
pub fn handle_aaload(frame: &mut JavaFrame, heap: &Heap) -> (r: Result<(), JvmError>)
    ensures
        match operand_fault(old(frame)@.operands, seq![Kind::Int, Kind::Ref]) {
            Some(f) => final(frame)@ == old(frame)@ && (r matches Err(e) && fault_error(f, e)),
            None => {
                let h = ref_of(operand(old(frame)@, 1)) as int;
                let index = int_of(operand(old(frame)@, 0));
                match array_element_value(heap@, h, index) {
                    None => final(frame)@ == old(frame)@ && (r matches Err(e) && array_read_post(heap@, h, index, Err(e))),
                    Some(v) => if v is Ref || v is Null {
                        r is Ok && final(frame)@ == replace_top(old(frame)@, 2, seq![v])
                    } else {
                        final(frame)@ == old(frame)@ && (r matches Err(JvmError::Todo(_)))
                    },
                }
            },
        },
{
    let kinds = vec![Kind::Int, Kind::Ref];
    assert(kinds@ =~= seq![Kind::Int, Kind::Ref]);
    check_operands(frame, &kinds)?;
    proof {
        lemma_no_fault_len(frame@.operands, kinds@);
    }
    let index = int_at(frame, 0);
    let array_ref = ref_at(frame, 1);
    let read = heap.read_array_element(array_ref, index);
    proof {
        lemma_array_read_value(heap@, array_ref as int, index, read);
    }
    let value = read?.as_nullable_obj_ref()?;
    let v = match value {
        Some(a) => Value::Ref(a),
        None => Value::Null,
    };
    let pushed = vec![v];
    assert(pushed@ =~= seq![v]);
    apply(frame, kinds, pushed)
}

/// What an array store does: pops the value, the index and the array and
/// writes the element; a failed write leaves the heap as it was, the
/// operands popped.
pub open spec fn array_store_post(
    old: FrameState,
    new: FrameState,
    r: Result<(), JvmError>,
    m: Seq<u8>,
    m2: Seq<u8>,
    value_kind: Kind,
) -> bool {
    match operand_fault(old.operands, seq![value_kind, Kind::Int, Kind::Ref]) {
        Some(f) => new == old && m2 == m && (r matches Err(e) && fault_error(f, e)),
        None => {
            &&& array_write_post(m, ref_of(operand(old, 2)) as int, int_of(operand(old, 1)), operand(old, 0), m2, r)
            &&& new == replace_top(old, 3, seq![])
        },
    }
}

fn array_store(frame: &mut JavaFrame, heap: &mut Heap, value_kind: Kind) -> (r: Result<(), JvmError>)
    requires
        old(heap).wf(),
    ensures
        final(heap).wf(),
        final(heap).same_setup(old(heap)),
        final(heap).string_pool() == old(heap).string_pool(),
        array_store_post(old(frame)@, final(frame)@, r, old(heap)@, final(heap)@, value_kind),
{
    let kinds = vec![value_kind, Kind::Int, Kind::Ref];
    assert(kinds@ =~= seq![value_kind, Kind::Int, Kind::Ref]);
    check_operands(frame, &kinds)?;
    proof {
        lemma_no_fault_len(frame@.operands, kinds@);
    }
    let value = value_at(frame, 0);
    let index = int_at(frame, 1);
    let array_ref = ref_at(frame, 2);
    let w = heap.write_array_element(array_ref, index, value);
    frame.replace_top(3, Vec::new());
    assert(final(frame)@.operands =~= replace_top(old(frame)@, 3, seq![]).operands);
    w?;
    assert(final(frame)@.operands =~= replace_top(old(frame)@, 3, seq![]).operands);
    Ok(())
}

/// Pops a reference (or `null`), an index and a reference array and stores
/// the element.
pub fn handle_aastore(frame: &mut JavaFrame, heap: &mut Heap) -> (r: Result<(), JvmError>)
    requires
        old(heap).wf(),
    ensures
        final(heap).wf(),
        final(heap).same_setup(old(heap)),
        final(heap).string_pool() == old(heap).string_pool(),
        array_store_post(old(frame)@, final(frame)@, r, old(heap)@, final(heap)@, Kind::NullableRef),
{
    array_store(frame, heap, Kind::NullableRef)
}

/// Pops an int, an index and a byte or boolean array and stores the element.
pub fn handle_bastore(frame: &mut JavaFrame, heap: &mut Heap) -> (r: Result<(), JvmError>)
    requires
        old(heap).wf(),
    ensures
        final(heap).wf(),
        final(heap).same_setup(old(heap)),
        final(heap).string_pool() == old(heap).string_pool(),
        array_store_post(old(frame)@, final(frame)@, r, old(heap)@, final(heap)@, Kind::Int),
{
    array_store(frame, heap, Kind::Int)
}

/// Pops an int, an index and a char array and stores the element.
pub fn handle_castore(frame: &mut JavaFrame, heap: &mut Heap) -> (r: Result<(), JvmError>)
    requires
        old(heap).wf(),
    ensures
        final(heap).wf(),
        final(heap).same_setup(old(heap)),
        final(heap).string_pool() == old(heap).string_pool(),
        array_store_post(old(frame)@, final(frame)@, r, old(heap)@, final(heap)@, Kind::Int),
{
    array_store(frame, heap, Kind::Int)
}

/// Pops an int, an index and an int array and stores the element.
pub fn handle_iastore(frame: &mut JavaFrame, heap: &mut Heap) -> (r: Result<(), JvmError>)
    requires
        old(heap).wf(),
    ensures
        final(heap).wf(),
        final(heap).same_setup(old(heap)),
        final(heap).string_pool() == old(heap).string_pool(),
        array_store_post(old(frame)@, final(frame)@, r, old(heap)@, final(heap)@, Kind::Int),
{
    array_store(frame, heap, Kind::Int)
}

/// Pops an int, an index and a short array and stores the element.
pub fn handle_sastore(frame: &mut JavaFrame, heap: &mut Heap) -> (r: Result<(), JvmError>)
    requires
        old(heap).wf(),
    ensures
        final(heap).wf(),
        final(heap).same_setup(old(heap)),
        final(heap).string_pool() == old(heap).string_pool(),
        array_store_post(old(frame)@, final(frame)@, r, old(heap)@, final(heap)@, Kind::Int),
{
    array_store(frame, heap, Kind::Int)
}

/// Pops an array reference and pushes its length.
pub fn handle_arraylength(frame: &mut JavaFrame, heap: &Heap) -> (r: Result<(), JvmError>)
    ensures
        match operand_fault(old(frame)@.operands, seq![Kind::Ref]) {
            Some(f) => final(frame)@ == old(frame)@ && (r matches Err(e) && fault_error(f, e)),
            None => {
                let h = ref_of(operand(old(frame)@, 0));
                if has_array_length(heap@, h as int) {
                    r is Ok && final(frame)@ == replace_top(old(frame)@, 1, seq![Value::Integer(array_length_at(heap@, h as int))])
                } else {
                    final(frame)@ == old(frame)@ && r == Err::<(), JvmError>(JvmError::WrongHeapAddress(h))
                }
            },
        },
{
    let kinds = vec![Kind::Ref];
    assert(kinds@ =~= seq![Kind::Ref]);
    check_operands(frame, &kinds)?;
    proof {
        lemma_no_fault_len(frame@.operands, kinds@);
    }
    let array_ref = ref_at(frame, 0);
    let length = heap.get_array_length(array_ref)?;
    let p0 = Value::Integer(length);
    let pushed = vec![p0];
    assert(pushed@ =~= seq![p0]);
    apply(frame, kinds, pushed)
}

/// What allocating an array of the popped size does: a negative size raises
/// `NegativeArraySizeException` and a full heap is refused, the size popped
/// either way; otherwise the new array is pushed.
pub open spec fn new_array_post(
    old: FrameState,
    new: FrameState,
    r: Result<(), JvmError>,
    heap_old: &Heap,
    heap_new: &Heap,
    class_id: ClassId,
    t: AllocationType,
) -> bool {
    match operand_fault(old.operands, seq![Kind::Int]) {
        Some(f) => new == old && heap_new@ == heap_old@ && (r matches Err(e) && fault_error(f, e)),
        None => {
            let n = int_of(operand(old, 0));
            if n < 0 {
                new == replace_top(old, 1, seq![]) && heap_new@ == heap_old@ && (r matches Err(e) && raises_with_message(
                    e,
                    JavaExceptionKind::NegativeArraySizeException,
                    signed_decimal(n as int),
                ))
            } else if heap_old@.len() + block_size(array_data_size(n as int, t)) > heap_old.capacity() {
                new == replace_top(old, 1, seq![]) && heap_new@ == heap_old@ && (r matches Err(JvmError::Todo(s)) && s@ == "Heap full"@)
            } else {
                &&& r is Ok
                &&& heap_new@ == array_image(heap_old@, class_id, n, t)
                &&& new == replace_top(old, 1, seq![Value::Ref(heap_old@.len() as usize)])
            }
        },
    }
}

fn negative_size(size: i32) -> (e: JvmError)
    ensures
        raises_with_message(e, JavaExceptionKind::NegativeArraySizeException, signed_decimal(size as int)),
{
    let mut s = String::new();
    push_signed_decimal(&mut s, size as i64);
    JvmError::JavaException(JavaExceptionFromJvm::with_message(JavaExceptionKind::NegativeArraySizeException, s))
}

/// Pops a size and pushes a new primitive array of that many elements of
/// `array_type`, of class `class_id`.
pub fn handle_newarray(frame: &mut JavaFrame, heap: &mut Heap, class_id: ClassId, array_type: ArrayType) -> (r: Result<(), JvmError>)
    requires
        old(heap).wf(),
    ensures
        final(heap).wf(),
        final(heap).same_setup(old(heap)),
        final(heap).string_pool() == old(heap).string_pool(),
        new_array_post(old(frame)@, final(frame)@, r, old(heap), final(heap), class_id, array_allocation_type(array_type)),
{
    let kinds = vec![Kind::Int];
    assert(kinds@ =~= seq![Kind::Int]);
    check_operands(frame, &kinds)?;
    proof {
        lemma_no_fault_len(frame@.operands, kinds@);
    }
    let size = int_at(frame, 0);
    frame.replace_top(1, Vec::new());
    assert(frame@.operands =~= replace_top(old(frame)@, 1, seq![]).operands);
    if size < 0 {
        return Err(negative_size(size));
    }
    let array_ref = heap.alloc_primitive_array(class_id, array_type, size)?;
    frame.replace_top(0, vec![Value::Ref(array_ref)]);
    assert(frame@.operands =~= replace_top(old(frame)@, 1, seq![Value::Ref(array_ref)]).operands);
    Ok(())
}

/// Pops a size and pushes a new array of that many `null` references, of
/// class `class_id`.
pub fn handle_anewarray(frame: &mut JavaFrame, heap: &mut Heap, class_id: ClassId) -> (r: Result<(), JvmError>)
    requires
        old(heap).wf(),
    ensures
        final(heap).wf(),
        final(heap).same_setup(old(heap)),
        final(heap).string_pool() == old(heap).string_pool(),
        new_array_post(old(frame)@, final(frame)@, r, old(heap), final(heap), class_id, AllocationType::Reference),
{
    let kinds = vec![Kind::Int];
    assert(kinds@ =~= seq![Kind::Int]);
    check_operands(frame, &kinds)?;
    proof {
        lemma_no_fault_len(frame@.operands, kinds@);
    }
    let size = int_at(frame, 0);
    frame.replace_top(1, Vec::new());
    assert(frame@.operands =~= replace_top(old(frame)@, 1, seq![]).operands);
    if size < 0 {
        return Err(negative_size(size));
    }
    let array_ref = heap.alloc_object_array(class_id, size)?;
    frame.replace_top(0, vec![Value::Ref(array_ref)]);
    assert(frame@.operands =~= replace_top(old(frame)@, 1, seq![Value::Ref(array_ref)]).operands);
    Ok(())
}

/// What `new` of an instance of class `class_id` with `instance_size` data
/// bytes does to the frame `f0` and memory `m0` of a heap of `capacity`
/// bytes: a full operand stack is refused before allocating, a full heap
/// refused, and otherwise the zeroed instance is allocated and pushed.
pub open spec fn new_post(
    f0: FrameState,
    f1: FrameState,
    m0: Seq<u8>,
    m1: Seq<u8>,
    capacity: int,
    class_id: ClassId,
    instance_size: usize,
    r: Result<(), JvmError>,
) -> bool {
    if f0.operands.len() >= f0.max_stack {
        f1 == f0 && m1 == m0 && (r matches Err(JvmError::StackOverflow))
    } else if m0.len() + block_size(instance_size as int) > capacity {
        f1 == f0 && m1 == m0 && (r matches Err(JvmError::Todo(s)) && s@ == "Heap full"@)
    } else {
        &&& r is Ok
        &&& m1 == instance_image(m0, instance_size as int, class_id)
        &&& f1 == replace_top(f0, 0, seq![Value::Ref(m0.len() as usize)])
    }
}

/// Pushes a new instance of class `class_id` with `instance_size` data
/// bytes, all fields zero. A full operand stack is refused before allocating.
pub fn handle_new(frame: &mut JavaFrame, heap: &mut Heap, class_id: ClassId, instance_size: usize) -> (r: Result<(), JvmError>)
    requires
        old(heap).wf(),
    ensures
        final(heap).wf(),
        final(heap).same_setup(old(heap)),
        final(heap).string_pool() == old(heap).string_pool(),
        new_post(old(frame)@, final(frame)@, old(heap)@, final(heap)@, old(heap).capacity() as int, class_id, instance_size, r),
{
    if frame.operand_count() >= frame.max_stack() {
        return Err(JvmError::StackOverflow);
    }
    let instance_ref = heap.alloc_instance(instance_size, class_id)?;
    frame.push_operand(Value::Ref(instance_ref))
}

/// What `getfield` of the `field_type` field at `field_offset` does to the
/// frame `f0` on memory `m`: the object reference is popped and the field's
/// value pushed; a field outside memory is refused, the reference popped.
pub open spec fn getfield_post(
    f0: FrameState,
    f1: FrameState,
    m: Seq<u8>,
    field_offset: usize,
    field_type: AllocationType,
    r: Result<(), JvmError>,
) -> bool {
    match operand_fault(f0.operands, seq![Kind::Ref]) {
        Some(f) => f1 == f0 && (r matches Err(e) && fault_error(f, e)),
        None => {
            let h = ref_of(operand(f0, 0));
            if data_start(h as int) + field_offset + type_size(field_type) <= m.len() {
                r is Ok && f1 == replace_top(f0, 1, seq![decode_field(m, data_start(h as int) + field_offset, field_type)])
            } else {
                f1 == replace_top(f0, 1, seq![]) && r == Err::<(), JvmError>(JvmError::WrongHeapAddress(h))
            }
        },
    }
}

/// Pops an object reference and pushes the `field_type` field at
/// `field_offset` of its data.
pub fn handle_getfield(frame: &mut JavaFrame, heap: &Heap, field_offset: usize, field_type: AllocationType) -> (r: Result<(), JvmError>)
    ensures
        getfield_post(old(frame)@, final(frame)@, heap@, field_offset, field_type, r),
{
    let kinds = vec![Kind::Ref];
    assert(kinds@ =~= seq![Kind::Ref]);
    check_operands(frame, &kinds)?;
    proof {
        lemma_no_fault_len(frame@.operands, kinds@);
    }
    let target_obj_ref = ref_at(frame, 0);
    let value = match heap.read_field(target_obj_ref, field_offset, field_type) {
        Ok(v) => v,
        Err(e) => {
            frame.replace_top(1, Vec::new());
            assert(frame@.operands =~= replace_top(old(frame)@, 1, seq![]).operands);
            return Err(e);
        },
    };
    let pushed = vec![value];
    assert(pushed@ =~= seq![value]);
    apply(frame, kinds, pushed)
}

/// What `putfield` of the `field_type` field at `field_offset` does to the
/// frame `f0` and memory `m0`, giving `f1` and `m1`: the value and the
/// object reference are popped and the value written, as `write_field` does.
pub open spec fn putfield_post(
    f0: FrameState,
    f1: FrameState,
    m0: Seq<u8>,
    m1: Seq<u8>,
    field_offset: usize,
    field_type: AllocationType,
    r: Result<(), JvmError>,
) -> bool {
    match operand_fault(f0.operands, seq![Kind::Any, Kind::Ref]) {
        Some(f) => f1 == f0 && m1 == m0 && (r matches Err(e) && fault_error(f, e)),
        None => {
            &&& write_field_post(m0, ref_of(operand(f0, 1)) as int, field_offset as int, operand(f0, 0), field_type, m1, r)
            &&& f1 == replace_top(f0, 2, seq![])
        },
    }
}

/// Pops a value and an object reference and writes the value as the
/// `field_type` field at `field_offset` of the object's data.
pub fn handle_putfield(frame: &mut JavaFrame, heap: &mut Heap, field_offset: usize, field_type: AllocationType) -> (r: Result<(), JvmError>)
    requires
        old(heap).wf(),
    ensures
        final(heap).wf(),
        final(heap).same_setup(old(heap)),
        final(heap).string_pool() == old(heap).string_pool(),
        putfield_post(old(frame)@, final(frame)@, old(heap)@, final(heap)@, field_offset, field_type, r),
{
    let kinds = vec![Kind::Any, Kind::Ref];
    assert(kinds@ =~= seq![Kind::Any, Kind::Ref]);
    check_operands(frame, &kinds)?;
    proof {
        lemma_no_fault_len(frame@.operands, kinds@);
    }
    let value = value_at(frame, 0);
    let target_obj_ref = ref_at(frame, 1);
    let w = heap.write_field(target_obj_ref, field_offset, value, field_type);
    frame.replace_top(2, Vec::new());
    assert(frame@.operands =~= replace_top(old(frame)@, 2, seq![]).operands);
    w
}

/// Storing the top operand into a local variable and loading that variable
/// back gives the operand stack it started with, the value now also held by
/// the local variable.
pub proof fn law_local_load_after_store(
    f0: FrameState,
    f1: FrameState,
    f2: FrameState,
    r1: Result<(), JvmError>,
    r2: Result<(), JvmError>,
    idx: u8,
    store_kind: Kind,
    load_kind: Kind,
)
    requires
        f0.operands.len() <= f0.max_stack,
        store_post(f0, f1, r1, idx, store_kind),
        r1 is Ok,
        load_post(f1, f2, r2, idx, load_kind),
        kind_fault(operand(f0, 0), load_kind) is None,
    ensures
        r2 is Ok,
        f2.operands == f0.operands,
        f2.locals[idx as int] == Some(operand(f0, 0)),
        f2.pc == f0.pc,
{
    assert(operand_fault(f0.operands, seq![store_kind]) is None);
    assert(f1.locals[idx as int] == Some(operand(f0, 0)));
    assert(f2.operands =~= f0.operands);
}

/// What pushing `v` does to the frame `f0`, giving `f1` and `r`: `ok` and
/// the value on top, or `StackOverflow` and the frame unchanged when the
/// operand stack is full.
pub open spec fn push_post<T>(f0: FrameState, f1: FrameState, v: Value, r: Result<T, JvmError>, ok: T) -> bool {
    if f0.operands.len() < f0.max_stack {
        r == Ok::<T, JvmError>(ok) && f1 == replace_top(f0, 0, seq![v])
    } else {
        (r matches Err(JvmError::StackOverflow)) && f1 == f0
    }
}

/// Whether `ldc` can load the constant at `idx` of the pool entries `es`: a
/// number, a string or a class (a bad entry is reported).
pub open spec fn ldc_loadable(es: Seq<RuntimeConstant>, idx: u16) -> bool {
    match constant_res(es, idx) {
        Ok(c) => c is Integer || c is Float || c is Long || c is Double || c is Class || c is String,
        Err(_) => true,
    }
}

/// What `ldc` of the constant at `idx` of the pool entries `es` does to the
/// frame `f0` and the heap `h0`, giving `f1`, `h1` and `r`: a number is
/// pushed; a string is pushed as its pooled `java.lang.String`; for a class
/// the interned name is returned for its mirror to be pushed by the caller.
/// Interning may run out of memory.
pub open spec fn ldc_post(
    f0: FrameState,
    f1: FrameState,
    h0: Heap,
    h1: Heap,
    es: Seq<RuntimeConstant>,
    idx: u16,
    r: Result<Option<Symbol>, JvmError>,
) -> bool {
    let i = h0.interner();
    match constant_res(es, idx) {
        Err(fault) => f1 == f0 && h1 == h0 && (r matches Err(e) && (pool_fault_error(fault, e) || e is OutOfMemory)),
        Ok(RuntimeConstant::Integer(v)) => h1 == h0 && push_post(f0, f1, Value::Integer(v), r, None),
        Ok(RuntimeConstant::Float(v)) => h1 == h0 && push_post(f0, f1, Value::Float(v), r, None),
        Ok(RuntimeConstant::Long(v)) => h1 == h0 && push_post(f0, f1, Value::Long(v), r, None),
        Ok(RuntimeConstant::Double(v)) => h1 == h0 && push_post(f0, f1, Value::Double(v), r, None),
        Ok(RuntimeConstant::Class { .. }) => h1 == h0 && f1 == f0 && ((r matches Ok(Some(k)) && names(
            i,
            k,
            class_res(es, idx)->Ok_0,
        )) || (r matches Err(JvmError::OutOfMemory))),
        Ok(RuntimeConstant::String { .. }) => f1 == f0 && h1 == h0 && (r matches Err(JvmError::OutOfMemory)) || exists|
            pooled: Result<HeapRef, JvmError>,
        |
            #[trigger] string_pool_post(h0, h1, key_of(i, string_res(es, idx)->Ok_0), pooled) && match pooled {
                Err(e) => f1 == f0 && r == Err::<Option<Symbol>, JvmError>(e),
                Ok(a) => push_post(f0, f1, Value::Ref(a), r, None),
            },
        _ => false,
    }
}

/// Two `ldc` of string constants with the same text, the second on the heap
/// the first left, push the same `java.lang.String`.
pub proof fn law_ldc_same_text_same_string(
    f0: FrameState,
    f1: FrameState,
    f2: FrameState,
    f3: FrameState,
    h0: Heap,
    h1: Heap,
    h2: Heap,
    es: Seq<RuntimeConstant>,
    idx1: u16,
    idx2: u16,
    r1: Result<Option<Symbol>, JvmError>,
    r2: Result<Option<Symbol>, JvmError>,
)
    requires
        constant_res(es, idx1) matches Ok(RuntimeConstant::String { .. }),
        constant_res(es, idx2) matches Ok(RuntimeConstant::String { .. }),
        string_res(es, idx1) == string_res(es, idx2),
        ldc_post(f0, f1, h0, h1, es, idx1, r1),
        r1 is Ok,
        ldc_post(f2, f3, h1, h2, es, idx2, r2),
        r2 is Ok,
    ensures
        operand(f1, 0) is Ref,
        operand(f3, 0) == operand(f1, 0),
{
    let k = key_of(h0.interner(), string_res(es, idx1)->Ok_0);
    let p1 = choose|pooled: Result<HeapRef, JvmError>|
        #[trigger] string_pool_post(h0, h1, k, pooled) && match pooled {
            Err(e) => f1 == f0 && r1 == Err::<Option<Symbol>, JvmError>(e),
            Ok(a) => push_post(f0, f1, Value::Ref(a), r1, None),
        };
    assert(h1.interner() == h0.interner());
    let p2 = choose|pooled: Result<HeapRef, JvmError>|
        #[trigger] string_pool_post(h1, h2, k, pooled) && match pooled {
            Err(e) => f3 == f2 && r2 == Err::<Option<Symbol>, JvmError>(e),
            Ok(a) => push_post(f2, f3, Value::Ref(a), r2, None),
        };
    crate::java_string::law_pooled_string_is_stable(h0, h1, h2, k, p1, p2);
    assert(f1.operands =~= f0.operands.push(Value::Ref(p1->Ok_0)));
    assert(f3.operands =~= f2.operands.push(Value::Ref(p2->Ok_0)));
}

/// `ldc`, `ldc_w` and `ldc2_w` of the constant at `idx` of the pool `cp`: a
/// number or a string is pushed and `None` returned; for a class constant
/// its interned name is returned and nothing pushed, for the caller to load
/// the class and push its mirror.
pub fn handle_ldc_ldcw_ldc2w(frame: &mut JavaFrame, heap: &mut Heap, cp: &RuntimeConstantPool, idx: u16) -> (r: Result<
    Option<Symbol>,
    JvmError,
>)
    requires
        old(heap).wf(),
        old(heap).string_size() >= 9,
        ldc_loadable(cp.entries(), idx),
    ensures
        final(heap).wf(),
        ldc_post(old(frame)@, final(frame)@, *old(heap), *final(heap), cp.entries(), idx, r),
{
    let ghost h0 = *heap;
    let ghost i = h0.interner();
    let constant = cp.get_constant(&idx, heap.string_interner());
    let value = match constant {
        Err(e) => return Err(e),
        Ok(RuntimeConstant::Integer(v)) => Value::Integer(*v),
        Ok(RuntimeConstant::Float(v)) => Value::Float(*v),
        Ok(RuntimeConstant::Long(v)) => Value::Long(*v),
        Ok(RuntimeConstant::Double(v)) => Value::Double(*v),
        Ok(RuntimeConstant::Class { .. }) => {
            let sym = cp.get_class_sym(&idx, heap.string_interner())?;
            return Ok(Some(sym));
        },
        Ok(RuntimeConstant::String { .. }) => {
            let sym = cp.get_string_sym(&idx, heap.string_interner())?;
            proof {
                let text = string_res(cp.entries(), idx)->Ok_0;
                assert(names(i, sym, text));
                assert(interned_strings(i).contains_key(sym) && interned_strings(i)[sym] == text);
                assert(key_of(i, text) == sym);
            }
            let pooled = heap.get_str_from_pool_or_new(sym);
            match pooled {
                Ok(a) => Value::Ref(a),
                Err(e) => return Err(e),
            }
        },
        Ok(_) => {
            // ruled out by `ldc_loadable`
            proof {
                assert(false);
            }
            return Err(JvmError::OutOfMemory);
        },
    };
    frame.push_operand(value)?;
    Ok(None)
}

/// What `instanceof` of the class entry `idx` of the pool entries `es` does
/// to the frame `f0`, on memory `m` and the interner `i`, giving `f1` and
/// `r`: the class is resolved first; then the top operand, a reference, is
/// replaced by 1 when `instance_of` says its object's class (from its
/// header) is the class or a subclass, by 0 otherwise and for `null`.
pub open spec fn instanceof_post<F: Fn(ClassId, Symbol) -> bool>(
    f0: FrameState,
    f1: FrameState,
    m: Seq<u8>,
    es: Seq<RuntimeConstant>,
    i: ThreadedRodeo,
    idx: u16,
    instance_of: F,
    r: Result<(), JvmError>,
) -> bool {
    exists|sym: Result<Symbol, JvmError>|
        resolved(class_res(es, idx), sym, |k: Symbol, s: Seq<char>| names(i, k, s)) && #[trigger] exact_fault(
            class_res(es, idx),
            sym,
        ) && match sym {
            Err(e) => f1 == f0 && r == Err::<(), JvmError>(e),
            Ok(k) => match operand_fault(f0.operands, seq![Kind::NullableRef]) {
                Some(f) => f1 == f0 && (r matches Err(e) && fault_error(f, e)),
                None => match operand(f0, 0) {
                    Value::Ref(o) => if !has_header(m, o as int) {
                        f1 == f0 && r == Err::<(), JvmError>(JvmError::WrongHeapAddress(o))
                    } else {
                        exists|b: bool|
                            #[trigger] instance_of.ensures((ClassId(header_at(m, o as int).class_id), k), b) && r is Ok
                                && f1 == replace_top(
                                f0,
                                1,
                                seq![
                                    Value::Integer(
                                        if b {
                                            1
                                        } else {
                                            0
                                        },
                                    ),
                                ],
                            )
                    },
                    _ => r is Ok && f1 == replace_top(f0, 1, seq![Value::Integer(0)]),
                },
            },
        }
}

/// `instanceof`: whether the object on top of the stack is an instance of
/// the class named by entry `idx` of the pool `cp`, as `instance_of`
/// judges it from the object's class and the class's interned name; `null`
/// is an instance of nothing.
pub fn handle_instanceof<F: Fn(ClassId, Symbol) -> bool>(
    frame: &mut JavaFrame,
    heap: &Heap,
    cp: &RuntimeConstantPool,
    interner: &ThreadedRodeo,
    idx: u16,
    instance_of: &F,
) -> (r: Result<(), JvmError>)
    requires
        forall|c: ClassId, k: Symbol| instance_of.requires((c, k)),
    ensures
        instanceof_post(old(frame)@, final(frame)@, heap@, cp.entries(), *interner, idx, *instance_of, r),
{
    let class_name_sym = cp.get_class_sym(&idx, interner);
    proof {
        assert(exact_fault(class_res(cp.entries(), idx), class_name_sym));
    }
    let class_name_sym = match class_name_sym {
        Ok(k) => k,
        Err(e) => return Err(e),
    };
    let kinds = vec![Kind::NullableRef];
    assert(kinds@ =~= seq![Kind::NullableRef]);
    check_operands(frame, &kinds)?;
    proof {
        lemma_no_fault_len(frame@.operands, kinds@);
    }
    let v0 = value_at(frame, 0);
    let res = match v0 {
        Value::Ref(o) => {
            let target_class = heap.get_class_id(o)?;
            let b = instance_of(target_class, class_name_sym);
            if b {
                1
            } else {
                0
            }
        },
        _ => 0,
    };
    let pushed = vec![Value::Integer(res)];
    assert(pushed@ =~= seq![Value::Integer(res)]);
    frame.replace_top(1, pushed);
    Ok(())
}

} // verus!
