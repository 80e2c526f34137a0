//! The interpreter: carrying out one bytecode instruction on the current
//! frame and the heap, passing arguments to calls, choosing the key of a
//! native method, and finding the handler of an exception.
use crate::bootstrap_registry::BootstrapRegistry;
use crate::class::{BaseClass, InterfaceClass};
use crate::constant_pool::{class_res, exact_fault, names, resolved, RuntimeConstant, RuntimeConstantPool};
use crate::error::{java_exception, raises_with_message, HeapRef, JavaExceptionKind, JvmError};
use crate::frame::{
    double_of, fault_error, float_of, int_of, long_of, operand, operand_fault, ref_of, replace_top, with_pc,
    FrameState, JavaFrame, Kind,
};
use crate::handlers::{
    array_load_post, array_store_post, branch16_post, branch_target, checked_op_post, double_total_key,
    float_total_key, handle_aaload, handle_aastore, handle_aconst_null, handle_aload, handle_aload0,
    handle_aload1, handle_aload2, handle_aload3, handle_areturn, handle_arraylength, handle_astore,
    handle_astore0, handle_astore1, handle_astore2, handle_astore3, handle_athrow, handle_baload,
    handle_bastore, handle_bipush, handle_caload, handle_castore, handle_checkcast, handle_dcmpg,
    handle_dcmpl, handle_dconst0, handle_dconst1, handle_dload, handle_dload0, handle_dload1, handle_dload2,
    handle_dload3, handle_dreturn, handle_dstore, handle_dup, handle_dup2, handle_dup_x1, handle_fcmpg,
    handle_fcmpl, handle_fconst0, handle_fconst1, handle_fload, handle_fload0, handle_fload1, handle_fload2,
    handle_fload3, handle_freturn, handle_fstore, handle_fstore0, handle_fstore1, handle_fstore2,
    handle_fstore3, handle_goto, handle_i2b, handle_i2c, handle_i2l, handle_i2s, handle_iadd, handle_iaload,
    handle_iand, handle_iastore, handle_iconst0, handle_iconst1, handle_iconst2, handle_iconst3,
    handle_iconst4, handle_iconst5, handle_iconst_m1, handle_idiv, handle_ifacmpeq, handle_ifacmpne,
    handle_ifeq, handle_ifge, handle_ifgt, handle_ificmpeq, handle_ificmpge, handle_ificmpgt, handle_ificmple,
    handle_ificmplt, handle_ificmpne, handle_ifle, handle_iflt, handle_ifne, handle_ifnonnull, handle_ifnull,
    handle_iinc, handle_iload, handle_iload0, handle_iload1, handle_iload2, handle_iload3, handle_imul,
    handle_ineg, handle_ior, handle_irem, handle_ireturn, handle_ishl, handle_ishr, handle_istore,
    handle_istore0, handle_istore1, handle_istore2, handle_istore3, handle_isub, handle_iushr, handle_ixor,
    handle_l2i, handle_ladd, handle_land, handle_lcmp, handle_lconst0, handle_lconst1, handle_ldiv,
    handle_lload, handle_lload0, handle_lload1, handle_lload2, handle_lload3, handle_lmul,
    handle_lookupswitch, handle_lor, handle_lrem, handle_lreturn, handle_lshl, handle_lshr, handle_lstore,
    handle_lstore0, handle_lstore1, handle_lstore2, handle_lstore3, handle_lsub, handle_lushr, handle_lxor,
    handle_monitorenter, handle_monitorexit, handle_pop, handle_saload, handle_sastore, handle_sipush,
    handle_tableswitch, load_post, op_post, store_post, trunc_div, trunc_rem,
};
use crate::heap::{
    array_element_value, array_length_at, array_read_post, has_array_length, has_header, header_at, Heap,
};
use crate::instruction::{
    instruction_size, is_branch_instruction, is_supported_instruction, keys_sorted, lookup_offset,
    table_offset, Instruction, LookupSwitchData, TableSwitchData,
};
use crate::keys::{ClassId, MethodId, Symbol};
use crate::method::{covers, ExceptionTableEntry};
use crate::natives::FullyQualifiedMethodKey;
use crate::value::Value;
use lasso::ThreadedRodeo;
use vstd::prelude::*;

verus! {

/// How the interpretation of a method goes on after an instruction.
pub enum Step {
    /// On with the next instruction.
    Continue,
    /// The method returns, with a value or without.
    Return(Option<Value>),
    /// The instruction needs the method area (`interpret_with_method_area`
    /// carries those out with its answer) or floating point; nothing was
    /// changed.
    Defer,
}

/// The outcome of an instruction whose handler gives no value.
pub open spec fn unit_of(r: Result<Step, JvmError>) -> Result<(), JvmError> {
    match r {
        Ok(_) => Ok(()),
        Err(e) => Err(e),
    }
}

/// The value an instruction returns from its method.
pub open spec fn returned(r: Result<Step, JvmError>) -> Result<Value, JvmError> {
    match r {
        Ok(Step::Return(Some(v))) => Ok(v),
        Ok(_) => Ok(Value::Null),
        Err(e) => Err(e),
    }
}

/// What the operands of an instruction must satisfy for it to be carried
/// out: switch tables as decoding builds them, and no remainder that
/// overflows.
pub open spec fn instruction_requires(i: Instruction, f0: FrameState) -> bool {
    &&& is_supported_instruction(i)
    &&& match i {
        Instruction::Lookupswitch(sw) => (keys_sorted(sw.pairs@)),
        Instruction::Irem => (!(operand_fault(f0.operands, seq![Kind::Int, Kind::Int]) is None && int_of(operand(f0, 1)) == i32::MIN && int_of(operand(f0, 0)) == -1)),
        Instruction::Lrem => (!(operand_fault(f0.operands, seq![Kind::Long, Kind::Long]) is None && long_of(operand(f0, 1)) == i64::MIN && long_of(operand(f0, 0)) == -1)),
        Instruction::TableSwitch(sw) => (sw.low <= sw.high ==> sw.high - sw.low < sw.offsets@.len()),
        _ => true,
    }
}

/// What `athrow` does.
pub open spec fn athrow_effect(f0: FrameState, f1: FrameState, h0: Heap, h1: Heap, r: Result<Step, JvmError>) -> bool {
    let ru = unit_of(r);
    &&& (r is Ok ==> r == Ok::<Step, JvmError>(Step::Continue))
    &&& (match operand_fault(f0.operands, seq![Kind::Ref]) {
            Some(f) => f1 == f0 && (ru matches Err(e) && fault_error(f, e)),
            None => f1 == replace_top(f0, 1, seq![]) && ru == Err::<(), JvmError>(
                JvmError::JavaExceptionThrown(ref_of(operand(f0, 0))),
            ),
        })
    &&& h1 == h0
}

/// What `aaload` does.
pub open spec fn aaload_effect(f0: FrameState, f1: FrameState, h0: Heap, h1: Heap, r: Result<Step, JvmError>) -> bool {
    let ru = unit_of(r);
    &&& (r is Ok ==> r == Ok::<Step, JvmError>(Step::Continue))
    &&& (match operand_fault(f0.operands, seq![Kind::Int, Kind::Ref]) {
            Some(f) => f1 == f0 && (ru matches Err(e) && fault_error(f, e)),
            None => {
                let h = ref_of(operand(f0, 1)) as int;
                let index = int_of(operand(f0, 0));
                match array_element_value(h0@, h, index) {
                    None => f1 == f0 && (ru matches Err(e) && array_read_post(h0@, h, index, Err(e))),
                    Some(v) => if v is Ref || v is Null {
                        ru is Ok && f1 == replace_top(f0, 2, seq![v])
                    } else {
                        f1 == f0 && (ru matches Err(JvmError::Todo(_)))
                    },
                }
            },
        })
    &&& h1 == h0
}

/// What `aastore` does.
pub open spec fn aastore_effect(f0: FrameState, f1: FrameState, h0: Heap, h1: Heap, r: Result<Step, JvmError>) -> bool {
    let ru = unit_of(r);
    &&& (r is Ok ==> r == Ok::<Step, JvmError>(Step::Continue))
    &&& (h1.wf())
    &&& (h1.same_setup(&h0))
    &&& (h1.string_pool() == h0.string_pool())
    &&& (array_store_post(f0, f1, ru, h0@, h1@, Kind::NullableRef))
}

/// What `bastore` does.
pub open spec fn bastore_effect(f0: FrameState, f1: FrameState, h0: Heap, h1: Heap, r: Result<Step, JvmError>) -> bool {
    let ru = unit_of(r);
    &&& (r is Ok ==> r == Ok::<Step, JvmError>(Step::Continue))
    &&& (h1.wf())
    &&& (h1.same_setup(&h0))
    &&& (h1.string_pool() == h0.string_pool())
    &&& (array_store_post(f0, f1, ru, h0@, h1@, Kind::Int))
}

/// What `iaload` does.
pub open spec fn iaload_effect(f0: FrameState, f1: FrameState, h0: Heap, h1: Heap, r: Result<Step, JvmError>) -> bool {
    let ru = unit_of(r);
    &&& (r is Ok ==> r == Ok::<Step, JvmError>(Step::Continue))
    &&& (array_load_post(f0, f1, ru, h0@))
    &&& h1 == h0
}

/// What `caload` does.
pub open spec fn caload_effect(f0: FrameState, f1: FrameState, h0: Heap, h1: Heap, r: Result<Step, JvmError>) -> bool {
    let ru = unit_of(r);
    &&& (r is Ok ==> r == Ok::<Step, JvmError>(Step::Continue))
    &&& (array_load_post(f0, f1, ru, h0@))
    &&& h1 == h0
}

/// What `baload` does.
pub open spec fn baload_effect(f0: FrameState, f1: FrameState, h0: Heap, h1: Heap, r: Result<Step, JvmError>) -> bool {
    let ru = unit_of(r);
    &&& (r is Ok ==> r == Ok::<Step, JvmError>(Step::Continue))
    &&& (array_load_post(f0, f1, ru, h0@))
    &&& h1 == h0
}

/// What `checkcast` does.
pub open spec fn checkcast_effect(f0: FrameState, f1: FrameState, h0: Heap, h1: Heap, r: Result<Step, JvmError>, idx: u16) -> bool {
    let ru = unit_of(r);
    &&& (r is Ok ==> r == Ok::<Step, JvmError>(Step::Continue))
    &&& (op_post(f0, f1, ru, seq![Kind::Any], seq![operand(f0, 0)]))
    &&& h1 == h0
}

/// What `aconstnull` does.
pub open spec fn aconst_null_effect(f0: FrameState, f1: FrameState, h0: Heap, h1: Heap, r: Result<Step, JvmError>) -> bool {
    let ru = unit_of(r);
    &&& (r is Ok ==> r == Ok::<Step, JvmError>(Step::Continue))
    &&& (op_post(f0, f1, ru, seq![], seq![Value::Null]))
    &&& h1 == h0
}

/// What `aload0` does.
pub open spec fn aload0_effect(f0: FrameState, f1: FrameState, h0: Heap, h1: Heap, r: Result<Step, JvmError>) -> bool {
    let ru = unit_of(r);
    &&& (r is Ok ==> r == Ok::<Step, JvmError>(Step::Continue))
    &&& (load_post(f0, f1, ru, 0u8, Kind::Any))
    &&& h1 == h0
}

/// What `aload1` does.
pub open spec fn aload1_effect(f0: FrameState, f1: FrameState, h0: Heap, h1: Heap, r: Result<Step, JvmError>) -> bool {
    let ru = unit_of(r);
    &&& (r is Ok ==> r == Ok::<Step, JvmError>(Step::Continue))
    &&& (load_post(f0, f1, ru, 1u8, Kind::Any))
    &&& h1 == h0
}

/// What `aload2` does.
pub open spec fn aload2_effect(f0: FrameState, f1: FrameState, h0: Heap, h1: Heap, r: Result<Step, JvmError>) -> bool {
    let ru = unit_of(r);
    &&& (r is Ok ==> r == Ok::<Step, JvmError>(Step::Continue))
    &&& (load_post(f0, f1, ru, 2u8, Kind::Any))
    &&& h1 == h0
}

/// What `aload3` does.
pub open spec fn aload3_effect(f0: FrameState, f1: FrameState, h0: Heap, h1: Heap, r: Result<Step, JvmError>) -> bool {
    let ru = unit_of(r);
    &&& (r is Ok ==> r == Ok::<Step, JvmError>(Step::Continue))
    &&& (load_post(f0, f1, ru, 3u8, Kind::Any))
    &&& h1 == h0
}

/// What `aload` does.
pub open spec fn aload_effect(f0: FrameState, f1: FrameState, h0: Heap, h1: Heap, r: Result<Step, JvmError>, pos: u8) -> bool {
    let ru = unit_of(r);
    &&& (r is Ok ==> r == Ok::<Step, JvmError>(Step::Continue))
    &&& (load_post(f0, f1, ru, pos, Kind::Any))
    &&& h1 == h0
}

/// What `arraylength` does.
pub open spec fn array_length_effect(f0: FrameState, f1: FrameState, h0: Heap, h1: Heap, r: Result<Step, JvmError>) -> bool {
    let ru = unit_of(r);
    &&& (r is Ok ==> r == Ok::<Step, JvmError>(Step::Continue))
    &&& (match operand_fault(f0.operands, seq![Kind::Ref]) {
            Some(f) => f1 == f0 && (ru matches Err(e) && fault_error(f, e)),
            None => {
                let h = ref_of(operand(f0, 0));
                if has_array_length(h0@, h as int) {
                    ru is Ok && f1 == replace_top(f0, 1, seq![Value::Integer(array_length_at(h0@, h as int))])
                } else {
                    f1 == f0 && ru == Err::<(), JvmError>(JvmError::WrongHeapAddress(h))
                }
            },
        })
    &&& h1 == h0
}

/// What `astore0` does.
pub open spec fn astore0_effect(f0: FrameState, f1: FrameState, h0: Heap, h1: Heap, r: Result<Step, JvmError>) -> bool {
    let ru = unit_of(r);
    &&& (r is Ok ==> r == Ok::<Step, JvmError>(Step::Continue))
    &&& (store_post(f0, f1, ru, 0u8, Kind::NullableRef))
    &&& h1 == h0
}

/// What `astore1` does.
pub open spec fn astore1_effect(f0: FrameState, f1: FrameState, h0: Heap, h1: Heap, r: Result<Step, JvmError>) -> bool {
    let ru = unit_of(r);
    &&& (r is Ok ==> r == Ok::<Step, JvmError>(Step::Continue))
    &&& (store_post(f0, f1, ru, 1u8, Kind::NullableRef))
    &&& h1 == h0
}

/// What `astore2` does.
pub open spec fn astore2_effect(f0: FrameState, f1: FrameState, h0: Heap, h1: Heap, r: Result<Step, JvmError>) -> bool {
    let ru = unit_of(r);
    &&& (r is Ok ==> r == Ok::<Step, JvmError>(Step::Continue))
    &&& (store_post(f0, f1, ru, 2u8, Kind::NullableRef))
    &&& h1 == h0
}

/// What `astore3` does.
pub open spec fn astore3_effect(f0: FrameState, f1: FrameState, h0: Heap, h1: Heap, r: Result<Step, JvmError>) -> bool {
    let ru = unit_of(r);
    &&& (r is Ok ==> r == Ok::<Step, JvmError>(Step::Continue))
    &&& (store_post(f0, f1, ru, 3u8, Kind::NullableRef))
    &&& h1 == h0
}

/// What `astore` does.
pub open spec fn astore_effect(f0: FrameState, f1: FrameState, h0: Heap, h1: Heap, r: Result<Step, JvmError>, pos: u8) -> bool {
    let ru = unit_of(r);
    &&& (r is Ok ==> r == Ok::<Step, JvmError>(Step::Continue))
    &&& (store_post(f0, f1, ru, pos, Kind::NullableRef))
    &&& h1 == h0
}

/// What `bipush` does.
pub open spec fn bipush_effect(f0: FrameState, f1: FrameState, h0: Heap, h1: Heap, r: Result<Step, JvmError>, value: i8) -> bool {
    let ru = unit_of(r);
    &&& (r is Ok ==> r == Ok::<Step, JvmError>(Step::Continue))
    &&& (op_post(f0, f1, ru, seq![], seq![Value::Integer(value as i32)]))
    &&& h1 == h0
}

/// What `castore` does.
pub open spec fn castore_effect(f0: FrameState, f1: FrameState, h0: Heap, h1: Heap, r: Result<Step, JvmError>) -> bool {
    let ru = unit_of(r);
    &&& (r is Ok ==> r == Ok::<Step, JvmError>(Step::Continue))
    &&& (h1.wf())
    &&& (h1.same_setup(&h0))
    &&& (h1.string_pool() == h0.string_pool())
    &&& (array_store_post(f0, f1, ru, h0@, h1@, Kind::Int))
}

/// What `dcmpl` does.
pub open spec fn dcmpl_effect(f0: FrameState, f1: FrameState, h0: Heap, h1: Heap, r: Result<Step, JvmError>) -> bool {
    let ru = unit_of(r);
    &&& (r is Ok ==> r == Ok::<Step, JvmError>(Step::Continue))
    &&& (op_post(f0, f1, ru, seq![Kind::Double, Kind::Double], seq![Value::Integer(if double_total_key(double_of(operand(f0, 1))) < double_total_key(double_of(operand(f0, 0))) { -1i32 } else if double_total_key(double_of(operand(f0, 1))) == double_total_key(double_of(operand(f0, 0))) { 0i32 } else { 1i32 })]))
    &&& h1 == h0
}

/// What `dcmpg` does.
pub open spec fn dcmpg_effect(f0: FrameState, f1: FrameState, h0: Heap, h1: Heap, r: Result<Step, JvmError>) -> bool {
    let ru = unit_of(r);
    &&& (r is Ok ==> r == Ok::<Step, JvmError>(Step::Continue))
    &&& (op_post(f0, f1, ru, seq![Kind::Double, Kind::Double], seq![Value::Integer(if double_total_key(double_of(operand(f0, 1))) < double_total_key(double_of(operand(f0, 0))) { -1i32 } else if double_total_key(double_of(operand(f0, 1))) == double_total_key(double_of(operand(f0, 0))) { 0i32 } else { 1i32 })]))
    &&& h1 == h0
}

/// What `dconst0` does.
pub open spec fn dconst0_effect(f0: FrameState, f1: FrameState, h0: Heap, h1: Heap, r: Result<Step, JvmError>) -> bool {
    let ru = unit_of(r);
    &&& (r is Ok ==> r == Ok::<Step, JvmError>(Step::Continue))
    &&& (op_post(f0, f1, ru, seq![], seq![Value::Double(0x0000_0000_0000_0000u64)]))
    &&& h1 == h0
}

/// What `dconst1` does.
pub open spec fn dconst1_effect(f0: FrameState, f1: FrameState, h0: Heap, h1: Heap, r: Result<Step, JvmError>) -> bool {
    let ru = unit_of(r);
    &&& (r is Ok ==> r == Ok::<Step, JvmError>(Step::Continue))
    &&& (op_post(f0, f1, ru, seq![], seq![Value::Double(0x3ff0_0000_0000_0000u64)]))
    &&& h1 == h0
}

/// What `dload0` does.
pub open spec fn dload0_effect(f0: FrameState, f1: FrameState, h0: Heap, h1: Heap, r: Result<Step, JvmError>) -> bool {
    let ru = unit_of(r);
    &&& (r is Ok ==> r == Ok::<Step, JvmError>(Step::Continue))
    &&& (load_post(f0, f1, ru, 0u8, Kind::Double))
    &&& h1 == h0
}

/// What `dload1` does.
pub open spec fn dload1_effect(f0: FrameState, f1: FrameState, h0: Heap, h1: Heap, r: Result<Step, JvmError>) -> bool {
    let ru = unit_of(r);
    &&& (r is Ok ==> r == Ok::<Step, JvmError>(Step::Continue))
    &&& (load_post(f0, f1, ru, 1u8, Kind::Double))
    &&& h1 == h0
}

/// What `dload2` does.
pub open spec fn dload2_effect(f0: FrameState, f1: FrameState, h0: Heap, h1: Heap, r: Result<Step, JvmError>) -> bool {
    let ru = unit_of(r);
    &&& (r is Ok ==> r == Ok::<Step, JvmError>(Step::Continue))
    &&& (load_post(f0, f1, ru, 2u8, Kind::Double))
    &&& h1 == h0
}

/// What `dload3` does.
pub open spec fn dload3_effect(f0: FrameState, f1: FrameState, h0: Heap, h1: Heap, r: Result<Step, JvmError>) -> bool {
    let ru = unit_of(r);
    &&& (r is Ok ==> r == Ok::<Step, JvmError>(Step::Continue))
    &&& (load_post(f0, f1, ru, 3u8, Kind::Double))
    &&& h1 == h0
}

/// What `dload` does.
pub open spec fn dload_effect(f0: FrameState, f1: FrameState, h0: Heap, h1: Heap, r: Result<Step, JvmError>, pos: u8) -> bool {
    let ru = unit_of(r);
    &&& (r is Ok ==> r == Ok::<Step, JvmError>(Step::Continue))
    &&& (load_post(f0, f1, ru, pos, Kind::Double))
    &&& h1 == h0
}

/// What `dstore` does.
pub open spec fn dstore_effect(f0: FrameState, f1: FrameState, h0: Heap, h1: Heap, r: Result<Step, JvmError>, pos: u8) -> bool {
    let ru = unit_of(r);
    &&& (r is Ok ==> r == Ok::<Step, JvmError>(Step::Continue))
    &&& (store_post(f0, f1, ru, pos, Kind::Double))
    &&& h1 == h0
}

/// What `dup` does.
pub open spec fn dup_effect(f0: FrameState, f1: FrameState, h0: Heap, h1: Heap, r: Result<Step, JvmError>) -> bool {
    let ru = unit_of(r);
    &&& (r is Ok ==> r == Ok::<Step, JvmError>(Step::Continue))
    &&& (op_post(f0, f1, ru, seq![Kind::Any], seq![operand(f0, 0), operand(f0, 0)]))
    &&& h1 == h0
}

/// What `dup2` does.
pub open spec fn dup2_effect(f0: FrameState, f1: FrameState, h0: Heap, h1: Heap, r: Result<Step, JvmError>) -> bool {
    let ru = unit_of(r);
    &&& (r is Ok ==> r == Ok::<Step, JvmError>(Step::Continue))
    &&& (f0.operands.len() == 0 ==> f1 == f0 && (ru matches Err(JvmError::OperandStackIsEmpty)))
    &&& (f0.operands.len() > 0 && (operand(f0, 0) is Long || operand(f0, 0) is Double)
            ==> op_post(f0, f1, ru, seq![Kind::Any], seq![operand(f0, 0), operand(f0, 0)]))
    &&& (f0.operands.len() > 0 && !(operand(f0, 0) is Long || operand(f0, 0) is Double)
            ==> op_post(
            f0,
            f1,
            ru,
            seq![Kind::Any, Kind::Any],
            seq![operand(f0, 1), operand(f0, 0), operand(f0, 1), operand(f0, 0)],
        ))
    &&& h1 == h0
}

/// What `dupx1` does.
pub open spec fn dup_x1_effect(f0: FrameState, f1: FrameState, h0: Heap, h1: Heap, r: Result<Step, JvmError>) -> bool {
    let ru = unit_of(r);
    &&& (r is Ok ==> r == Ok::<Step, JvmError>(Step::Continue))
    &&& (op_post(f0, f1, ru, seq![Kind::Any, Kind::Any], seq![operand(f0, 0), operand(f0, 1), operand(f0, 0)]))
    &&& h1 == h0
}

/// What `fcmpl` does.
pub open spec fn fcmpl_effect(f0: FrameState, f1: FrameState, h0: Heap, h1: Heap, r: Result<Step, JvmError>) -> bool {
    let ru = unit_of(r);
    &&& (r is Ok ==> r == Ok::<Step, JvmError>(Step::Continue))
    &&& (op_post(f0, f1, ru, seq![Kind::Float, Kind::Float], seq![Value::Integer(if float_total_key(float_of(operand(f0, 1))) < float_total_key(float_of(operand(f0, 0))) { -1i32 } else if float_total_key(float_of(operand(f0, 1))) == float_total_key(float_of(operand(f0, 0))) { 0i32 } else { 1i32 })]))
    &&& h1 == h0
}

/// What `fcmpg` does.
pub open spec fn fcmpg_effect(f0: FrameState, f1: FrameState, h0: Heap, h1: Heap, r: Result<Step, JvmError>) -> bool {
    let ru = unit_of(r);
    &&& (r is Ok ==> r == Ok::<Step, JvmError>(Step::Continue))
    &&& (op_post(f0, f1, ru, seq![Kind::Float, Kind::Float], seq![Value::Integer(if float_total_key(float_of(operand(f0, 1))) < float_total_key(float_of(operand(f0, 0))) { -1i32 } else if float_total_key(float_of(operand(f0, 1))) == float_total_key(float_of(operand(f0, 0))) { 0i32 } else { 1i32 })]))
    &&& h1 == h0
}

/// What `fconst0` does.
pub open spec fn fconst0_effect(f0: FrameState, f1: FrameState, h0: Heap, h1: Heap, r: Result<Step, JvmError>) -> bool {
    let ru = unit_of(r);
    &&& (r is Ok ==> r == Ok::<Step, JvmError>(Step::Continue))
    &&& (op_post(f0, f1, ru, seq![], seq![Value::Float(0x0000_0000u32)]))
    &&& h1 == h0
}

/// What `fconst1` does.
pub open spec fn fconst1_effect(f0: FrameState, f1: FrameState, h0: Heap, h1: Heap, r: Result<Step, JvmError>) -> bool {
    let ru = unit_of(r);
    &&& (r is Ok ==> r == Ok::<Step, JvmError>(Step::Continue))
    &&& (op_post(f0, f1, ru, seq![], seq![Value::Float(0x3f80_0000u32)]))
    &&& h1 == h0
}

/// What `fload0` does.
pub open spec fn fload0_effect(f0: FrameState, f1: FrameState, h0: Heap, h1: Heap, r: Result<Step, JvmError>) -> bool {
    let ru = unit_of(r);
    &&& (r is Ok ==> r == Ok::<Step, JvmError>(Step::Continue))
    &&& (load_post(f0, f1, ru, 0u8, Kind::Float))
    &&& h1 == h0
}

/// What `fload1` does.
pub open spec fn fload1_effect(f0: FrameState, f1: FrameState, h0: Heap, h1: Heap, r: Result<Step, JvmError>) -> bool {
    let ru = unit_of(r);
    &&& (r is Ok ==> r == Ok::<Step, JvmError>(Step::Continue))
    &&& (load_post(f0, f1, ru, 1u8, Kind::Float))
    &&& h1 == h0
}

/// What `fload2` does.
pub open spec fn fload2_effect(f0: FrameState, f1: FrameState, h0: Heap, h1: Heap, r: Result<Step, JvmError>) -> bool {
    let ru = unit_of(r);
    &&& (r is Ok ==> r == Ok::<Step, JvmError>(Step::Continue))
    &&& (load_post(f0, f1, ru, 2u8, Kind::Float))
    &&& h1 == h0
}

/// What `fload3` does.
pub open spec fn fload3_effect(f0: FrameState, f1: FrameState, h0: Heap, h1: Heap, r: Result<Step, JvmError>) -> bool {
    let ru = unit_of(r);
    &&& (r is Ok ==> r == Ok::<Step, JvmError>(Step::Continue))
    &&& (load_post(f0, f1, ru, 3u8, Kind::Float))
    &&& h1 == h0
}

/// What `fload` does.
pub open spec fn fload_effect(f0: FrameState, f1: FrameState, h0: Heap, h1: Heap, r: Result<Step, JvmError>, pos: u8) -> bool {
    let ru = unit_of(r);
    &&& (r is Ok ==> r == Ok::<Step, JvmError>(Step::Continue))
    &&& (load_post(f0, f1, ru, pos, Kind::Float))
    &&& h1 == h0
}

/// What `fstore0` does.
pub open spec fn fstore0_effect(f0: FrameState, f1: FrameState, h0: Heap, h1: Heap, r: Result<Step, JvmError>) -> bool {
    let ru = unit_of(r);
    &&& (r is Ok ==> r == Ok::<Step, JvmError>(Step::Continue))
    &&& (store_post(f0, f1, ru, 0u8, Kind::Float))
    &&& h1 == h0
}

/// What `fstore1` does.
pub open spec fn fstore1_effect(f0: FrameState, f1: FrameState, h0: Heap, h1: Heap, r: Result<Step, JvmError>) -> bool {
    let ru = unit_of(r);
    &&& (r is Ok ==> r == Ok::<Step, JvmError>(Step::Continue))
    &&& (store_post(f0, f1, ru, 1u8, Kind::Float))
    &&& h1 == h0
}

/// What `fstore2` does.
pub open spec fn fstore2_effect(f0: FrameState, f1: FrameState, h0: Heap, h1: Heap, r: Result<Step, JvmError>) -> bool {
    let ru = unit_of(r);
    &&& (r is Ok ==> r == Ok::<Step, JvmError>(Step::Continue))
    &&& (store_post(f0, f1, ru, 2u8, Kind::Float))
    &&& h1 == h0
}

/// What `fstore3` does.
pub open spec fn fstore3_effect(f0: FrameState, f1: FrameState, h0: Heap, h1: Heap, r: Result<Step, JvmError>) -> bool {
    let ru = unit_of(r);
    &&& (r is Ok ==> r == Ok::<Step, JvmError>(Step::Continue))
    &&& (store_post(f0, f1, ru, 3u8, Kind::Float))
    &&& h1 == h0
}

/// What `fstore` does.
pub open spec fn fstore_effect(f0: FrameState, f1: FrameState, h0: Heap, h1: Heap, r: Result<Step, JvmError>, pos: u8) -> bool {
    let ru = unit_of(r);
    &&& (r is Ok ==> r == Ok::<Step, JvmError>(Step::Continue))
    &&& (store_post(f0, f1, ru, pos, Kind::Float))
    &&& h1 == h0
}

/// What `goto` does.
pub open spec fn goto_effect(f0: FrameState, f1: FrameState, h0: Heap, h1: Heap, r: Result<Step, JvmError>, offset: i16) -> bool {
    let ru = unit_of(r);
    &&& (r is Ok ==> r == Ok::<Step, JvmError>(Step::Continue))
    &&& (ru is Ok)
    &&& (f1 == with_pc(f0, branch_target(f0.pc, offset as int)))
    &&& h1 == h0
}

/// What `iadd` does.
pub open spec fn iadd_effect(f0: FrameState, f1: FrameState, h0: Heap, h1: Heap, r: Result<Step, JvmError>) -> bool {
    let ru = unit_of(r);
    &&& (r is Ok ==> r == Ok::<Step, JvmError>(Step::Continue))
    &&& (op_post(f0, f1, ru, seq![Kind::Int, Kind::Int], seq![Value::Integer(((int_of(operand(f0, 1)) as i64) + (int_of(operand(f0, 0)) as i64)) as i32)]))
    &&& h1 == h0
}

/// What `iconst0` does.
pub open spec fn iconst0_effect(f0: FrameState, f1: FrameState, h0: Heap, h1: Heap, r: Result<Step, JvmError>) -> bool {
    let ru = unit_of(r);
    &&& (r is Ok ==> r == Ok::<Step, JvmError>(Step::Continue))
    &&& (op_post(f0, f1, ru, seq![], seq![Value::Integer(0)]))
    &&& h1 == h0
}

/// What `iconst1` does.
pub open spec fn iconst1_effect(f0: FrameState, f1: FrameState, h0: Heap, h1: Heap, r: Result<Step, JvmError>) -> bool {
    let ru = unit_of(r);
    &&& (r is Ok ==> r == Ok::<Step, JvmError>(Step::Continue))
    &&& (op_post(f0, f1, ru, seq![], seq![Value::Integer(1)]))
    &&& h1 == h0
}

/// What `iconst2` does.
pub open spec fn iconst2_effect(f0: FrameState, f1: FrameState, h0: Heap, h1: Heap, r: Result<Step, JvmError>) -> bool {
    let ru = unit_of(r);
    &&& (r is Ok ==> r == Ok::<Step, JvmError>(Step::Continue))
    &&& (op_post(f0, f1, ru, seq![], seq![Value::Integer(2)]))
    &&& h1 == h0
}

/// What `iconst3` does.
pub open spec fn iconst3_effect(f0: FrameState, f1: FrameState, h0: Heap, h1: Heap, r: Result<Step, JvmError>) -> bool {
    let ru = unit_of(r);
    &&& (r is Ok ==> r == Ok::<Step, JvmError>(Step::Continue))
    &&& (op_post(f0, f1, ru, seq![], seq![Value::Integer(3)]))
    &&& h1 == h0
}

/// What `iconst4` does.
pub open spec fn iconst4_effect(f0: FrameState, f1: FrameState, h0: Heap, h1: Heap, r: Result<Step, JvmError>) -> bool {
    let ru = unit_of(r);
    &&& (r is Ok ==> r == Ok::<Step, JvmError>(Step::Continue))
    &&& (op_post(f0, f1, ru, seq![], seq![Value::Integer(4)]))
    &&& h1 == h0
}

/// What `iconst5` does.
pub open spec fn iconst5_effect(f0: FrameState, f1: FrameState, h0: Heap, h1: Heap, r: Result<Step, JvmError>) -> bool {
    let ru = unit_of(r);
    &&& (r is Ok ==> r == Ok::<Step, JvmError>(Step::Continue))
    &&& (op_post(f0, f1, ru, seq![], seq![Value::Integer(5)]))
    &&& h1 == h0
}

/// What `iconstm1` does.
pub open spec fn iconst_m1_effect(f0: FrameState, f1: FrameState, h0: Heap, h1: Heap, r: Result<Step, JvmError>) -> bool {
    let ru = unit_of(r);
    &&& (r is Ok ==> r == Ok::<Step, JvmError>(Step::Continue))
    &&& (op_post(f0, f1, ru, seq![], seq![Value::Integer(-1i32)]))
    &&& h1 == h0
}

/// What `idiv` does.
pub open spec fn idiv_effect(f0: FrameState, f1: FrameState, h0: Heap, h1: Heap, r: Result<Step, JvmError>) -> bool {
    let ru = unit_of(r);
    &&& (r is Ok ==> r == Ok::<Step, JvmError>(Step::Continue))
    &&& (checked_op_post(
            f0,
            f1,
            ru,
            seq![Kind::Int, Kind::Int],
            int_of(operand(f0, 0)) == 0,
            |e: JvmError| raises_with_message(e, JavaExceptionKind::ArithmeticException, "/ by zero"@),
            seq![Value::Integer(trunc_div(int_of(operand(f0, 1)) as int, int_of(operand(f0, 0)) as int) as i32)],
        ))
    &&& h1 == h0
}

/// What `ifeq` does.
pub open spec fn if_eq_effect(f0: FrameState, f1: FrameState, h0: Heap, h1: Heap, r: Result<Step, JvmError>, offset: i16) -> bool {
    let ru = unit_of(r);
    &&& (r is Ok ==> r == Ok::<Step, JvmError>(Step::Continue))
    &&& (branch16_post(f0, f1, ru, seq![Kind::Int], int_of(operand(f0, 0)) == 0, offset, 3u16))
    &&& h1 == h0
}

/// What `ifge` does.
pub open spec fn if_ge_effect(f0: FrameState, f1: FrameState, h0: Heap, h1: Heap, r: Result<Step, JvmError>, offset: i16) -> bool {
    let ru = unit_of(r);
    &&& (r is Ok ==> r == Ok::<Step, JvmError>(Step::Continue))
    &&& (branch16_post(f0, f1, ru, seq![Kind::Int], int_of(operand(f0, 0)) >= 0, offset, 3u16))
    &&& h1 == h0
}

/// What `ifgt` does.
pub open spec fn if_gt_effect(f0: FrameState, f1: FrameState, h0: Heap, h1: Heap, r: Result<Step, JvmError>, offset: i16) -> bool {
    let ru = unit_of(r);
    &&& (r is Ok ==> r == Ok::<Step, JvmError>(Step::Continue))
    &&& (branch16_post(f0, f1, ru, seq![Kind::Int], int_of(operand(f0, 0)) > 0, offset, 3u16))
    &&& h1 == h0
}

/// What `lcmp` does.
pub open spec fn lcmp_effect(f0: FrameState, f1: FrameState, h0: Heap, h1: Heap, r: Result<Step, JvmError>) -> bool {
    let ru = unit_of(r);
    &&& (r is Ok ==> r == Ok::<Step, JvmError>(Step::Continue))
    &&& (op_post(f0, f1, ru, seq![Kind::Long, Kind::Long], seq![Value::Integer(if long_of(operand(f0, 1)) < long_of(operand(f0, 0)) { -1i32 } else if long_of(operand(f0, 1)) == long_of(operand(f0, 0)) { 0i32 } else { 1i32 })]))
    &&& h1 == h0
}

/// What `lconst0` does.
pub open spec fn lconst0_effect(f0: FrameState, f1: FrameState, h0: Heap, h1: Heap, r: Result<Step, JvmError>) -> bool {
    let ru = unit_of(r);
    &&& (r is Ok ==> r == Ok::<Step, JvmError>(Step::Continue))
    &&& (op_post(f0, f1, ru, seq![], seq![Value::Long(0)]))
    &&& h1 == h0
}

/// What `lconst1` does.
pub open spec fn lconst1_effect(f0: FrameState, f1: FrameState, h0: Heap, h1: Heap, r: Result<Step, JvmError>) -> bool {
    let ru = unit_of(r);
    &&& (r is Ok ==> r == Ok::<Step, JvmError>(Step::Continue))
    &&& (op_post(f0, f1, ru, seq![], seq![Value::Long(1)]))
    &&& h1 == h0
}

/// What `lookupswitch` does.
pub open spec fn lookupswitch_effect(f0: FrameState, f1: FrameState, h0: Heap, h1: Heap, r: Result<Step, JvmError>, sw: LookupSwitchData) -> bool {
    let ru = unit_of(r);
    &&& (r is Ok ==> r == Ok::<Step, JvmError>(Step::Continue))
    &&& (match operand_fault(f0.operands, seq![Kind::Int]) {
            Some(f) => f1 == f0 && (ru matches Err(e) && fault_error(f, e)),
            None => ru is Ok && f1 == with_pc(
                replace_top(f0, 1, seq![]),
                branch_target(f0.pc, lookup_offset(sw, int_of(operand(f0, 0))) as int),
            ),
        })
    &&& h1 == h0
}

/// What `ifnull` does.
pub open spec fn ifnull_effect(f0: FrameState, f1: FrameState, h0: Heap, h1: Heap, r: Result<Step, JvmError>, offset: i16) -> bool {
    let ru = unit_of(r);
    &&& (r is Ok ==> r == Ok::<Step, JvmError>(Step::Continue))
    &&& (branch16_post(f0, f1, ru, seq![Kind::NullableRef], operand(f0, 0) is Null, offset, 3u16))
    &&& h1 == h0
}

/// What `ificmplt` does.
pub open spec fn if_icmplt_effect(f0: FrameState, f1: FrameState, h0: Heap, h1: Heap, r: Result<Step, JvmError>, offset: i16) -> bool {
    let ru = unit_of(r);
    &&& (r is Ok ==> r == Ok::<Step, JvmError>(Step::Continue))
    &&& (branch16_post(f0, f1, ru, seq![Kind::Int, Kind::Int], int_of(operand(f0, 1)) < int_of(operand(f0, 0)), offset, 3u16))
    &&& h1 == h0
}

/// What `ifle` does.
pub open spec fn if_le_effect(f0: FrameState, f1: FrameState, h0: Heap, h1: Heap, r: Result<Step, JvmError>, offset: i16) -> bool {
    let ru = unit_of(r);
    &&& (r is Ok ==> r == Ok::<Step, JvmError>(Step::Continue))
    &&& (branch16_post(f0, f1, ru, seq![Kind::Int], int_of(operand(f0, 0)) <= 0, offset, 3u16))
    &&& h1 == h0
}

/// What `iflt` does.
pub open spec fn if_lt_effect(f0: FrameState, f1: FrameState, h0: Heap, h1: Heap, r: Result<Step, JvmError>, offset: i16) -> bool {
    let ru = unit_of(r);
    &&& (r is Ok ==> r == Ok::<Step, JvmError>(Step::Continue))
    &&& (branch16_post(f0, f1, ru, seq![Kind::Int], int_of(operand(f0, 0)) < 0, offset, 3u16))
    &&& h1 == h0
}

/// What `ifacmpeq` does.
pub open spec fn if_acmp_eq_effect(f0: FrameState, f1: FrameState, h0: Heap, h1: Heap, r: Result<Step, JvmError>, offset: i16) -> bool {
    let ru = unit_of(r);
    &&& (r is Ok ==> r == Ok::<Step, JvmError>(Step::Continue))
    &&& (branch16_post(f0, f1, ru, seq![Kind::NullableRef, Kind::NullableRef], operand(f0, 1) == operand(f0, 0), offset, 3u16))
    &&& h1 == h0
}

/// What `ifacmpne` does.
pub open spec fn if_acmp_ne_effect(f0: FrameState, f1: FrameState, h0: Heap, h1: Heap, r: Result<Step, JvmError>, offset: i16) -> bool {
    let ru = unit_of(r);
    &&& (r is Ok ==> r == Ok::<Step, JvmError>(Step::Continue))
    &&& (branch16_post(f0, f1, ru, seq![Kind::NullableRef, Kind::NullableRef], operand(f0, 1) != operand(f0, 0), offset, 3u16))
    &&& h1 == h0
}

/// What `ificmpne` does.
pub open spec fn if_icmpne_effect(f0: FrameState, f1: FrameState, h0: Heap, h1: Heap, r: Result<Step, JvmError>, offset: i16) -> bool {
    let ru = unit_of(r);
    &&& (r is Ok ==> r == Ok::<Step, JvmError>(Step::Continue))
    &&& (branch16_post(f0, f1, ru, seq![Kind::Int, Kind::Int], int_of(operand(f0, 1)) != int_of(operand(f0, 0)), offset, 3u16))
    &&& h1 == h0
}

/// What `ificmpge` does.
pub open spec fn if_icmpge_effect(f0: FrameState, f1: FrameState, h0: Heap, h1: Heap, r: Result<Step, JvmError>, offset: i16) -> bool {
    let ru = unit_of(r);
    &&& (r is Ok ==> r == Ok::<Step, JvmError>(Step::Continue))
    &&& (branch16_post(f0, f1, ru, seq![Kind::Int, Kind::Int], int_of(operand(f0, 1)) >= int_of(operand(f0, 0)), offset, 3u16))
    &&& h1 == h0
}

/// What `ificmpgt` does.
pub open spec fn if_icmpgt_effect(f0: FrameState, f1: FrameState, h0: Heap, h1: Heap, r: Result<Step, JvmError>, offset: i16) -> bool {
    let ru = unit_of(r);
    &&& (r is Ok ==> r == Ok::<Step, JvmError>(Step::Continue))
    &&& (branch16_post(f0, f1, ru, seq![Kind::Int, Kind::Int], int_of(operand(f0, 1)) > int_of(operand(f0, 0)), offset, 3u16))
    &&& h1 == h0
}

/// What `ificmpeq` does.
pub open spec fn if_icmpeq_effect(f0: FrameState, f1: FrameState, h0: Heap, h1: Heap, r: Result<Step, JvmError>, offset: i16) -> bool {
    let ru = unit_of(r);
    &&& (r is Ok ==> r == Ok::<Step, JvmError>(Step::Continue))
    &&& (branch16_post(f0, f1, ru, seq![Kind::Int, Kind::Int], int_of(operand(f0, 1)) == int_of(operand(f0, 0)), offset, 3u16))
    &&& h1 == h0
}

/// What `ificmple` does.
pub open spec fn if_icmple_effect(f0: FrameState, f1: FrameState, h0: Heap, h1: Heap, r: Result<Step, JvmError>, offset: i16) -> bool {
    let ru = unit_of(r);
    &&& (r is Ok ==> r == Ok::<Step, JvmError>(Step::Continue))
    &&& (branch16_post(f0, f1, ru, seq![Kind::Int, Kind::Int], int_of(operand(f0, 1)) <= int_of(operand(f0, 0)), offset, 3u16))
    &&& h1 == h0
}

/// What `ifnonnull` does.
pub open spec fn ifnonnull_effect(f0: FrameState, f1: FrameState, h0: Heap, h1: Heap, r: Result<Step, JvmError>, offset: i16) -> bool {
    let ru = unit_of(r);
    &&& (r is Ok ==> r == Ok::<Step, JvmError>(Step::Continue))
    &&& (branch16_post(f0, f1, ru, seq![Kind::NullableRef], !(operand(f0, 0) is Null), offset, 3u16))
    &&& h1 == h0
}

/// What `ifne` does.
pub open spec fn if_ne_effect(f0: FrameState, f1: FrameState, h0: Heap, h1: Heap, r: Result<Step, JvmError>, offset: i16) -> bool {
    let ru = unit_of(r);
    &&& (r is Ok ==> r == Ok::<Step, JvmError>(Step::Continue))
    &&& (branch16_post(f0, f1, ru, seq![Kind::Int], int_of(operand(f0, 0)) != 0, offset, 3u16))
    &&& h1 == h0
}

/// What `iload0` does.
pub open spec fn iload0_effect(f0: FrameState, f1: FrameState, h0: Heap, h1: Heap, r: Result<Step, JvmError>) -> bool {
    let ru = unit_of(r);
    &&& (r is Ok ==> r == Ok::<Step, JvmError>(Step::Continue))
    &&& (load_post(f0, f1, ru, 0u8, Kind::Any))
    &&& h1 == h0
}

/// What `iload1` does.
pub open spec fn iload1_effect(f0: FrameState, f1: FrameState, h0: Heap, h1: Heap, r: Result<Step, JvmError>) -> bool {
    let ru = unit_of(r);
    &&& (r is Ok ==> r == Ok::<Step, JvmError>(Step::Continue))
    &&& (load_post(f0, f1, ru, 1u8, Kind::Any))
    &&& h1 == h0
}

/// What `iload2` does.
pub open spec fn iload2_effect(f0: FrameState, f1: FrameState, h0: Heap, h1: Heap, r: Result<Step, JvmError>) -> bool {
    let ru = unit_of(r);
    &&& (r is Ok ==> r == Ok::<Step, JvmError>(Step::Continue))
    &&& (load_post(f0, f1, ru, 2u8, Kind::Any))
    &&& h1 == h0
}

/// What `iload3` does.
pub open spec fn iload3_effect(f0: FrameState, f1: FrameState, h0: Heap, h1: Heap, r: Result<Step, JvmError>) -> bool {
    let ru = unit_of(r);
    &&& (r is Ok ==> r == Ok::<Step, JvmError>(Step::Continue))
    &&& (load_post(f0, f1, ru, 3u8, Kind::Any))
    &&& h1 == h0
}

/// What `iload` does.
pub open spec fn iload_effect(f0: FrameState, f1: FrameState, h0: Heap, h1: Heap, r: Result<Step, JvmError>, pos: u8) -> bool {
    let ru = unit_of(r);
    &&& (r is Ok ==> r == Ok::<Step, JvmError>(Step::Continue))
    &&& (load_post(f0, f1, ru, pos, Kind::Any))
    &&& h1 == h0
}

/// What `irem` does.
pub open spec fn irem_effect(f0: FrameState, f1: FrameState, h0: Heap, h1: Heap, r: Result<Step, JvmError>) -> bool {
    let ru = unit_of(r);
    &&& (r is Ok ==> r == Ok::<Step, JvmError>(Step::Continue))
    &&& (checked_op_post(
            f0,
            f1,
            ru,
            seq![Kind::Int, Kind::Int],
            int_of(operand(f0, 0)) == 0,
            |e: JvmError| raises_with_message(e, JavaExceptionKind::ArithmeticException, "/ by zero"@),
            seq![Value::Integer(trunc_rem(int_of(operand(f0, 1)) as int, int_of(operand(f0, 0)) as int) as i32)],
        ))
    &&& h1 == h0
}

/// What `ladd` does.
pub open spec fn ladd_effect(f0: FrameState, f1: FrameState, h0: Heap, h1: Heap, r: Result<Step, JvmError>) -> bool {
    let ru = unit_of(r);
    &&& (r is Ok ==> r == Ok::<Step, JvmError>(Step::Continue))
    &&& (op_post(f0, f1, ru, seq![Kind::Long, Kind::Long], seq![Value::Long(((long_of(operand(f0, 1)) as i128) + (long_of(operand(f0, 0)) as i128)) as i64)]))
    &&& h1 == h0
}

/// What `ldiv` does.
pub open spec fn ldiv_effect(f0: FrameState, f1: FrameState, h0: Heap, h1: Heap, r: Result<Step, JvmError>) -> bool {
    let ru = unit_of(r);
    &&& (r is Ok ==> r == Ok::<Step, JvmError>(Step::Continue))
    &&& (checked_op_post(
            f0,
            f1,
            ru,
            seq![Kind::Long, Kind::Long],
            long_of(operand(f0, 0)) == 0,
            |e: JvmError| raises_with_message(e, JavaExceptionKind::ArithmeticException, "/ by zero"@),
            seq![Value::Long(trunc_div(long_of(operand(f0, 1)) as int, long_of(operand(f0, 0)) as int) as i64)],
        ))
    &&& h1 == h0
}

/// What `lmul` does.
pub open spec fn lmul_effect(f0: FrameState, f1: FrameState, h0: Heap, h1: Heap, r: Result<Step, JvmError>) -> bool {
    let ru = unit_of(r);
    &&& (r is Ok ==> r == Ok::<Step, JvmError>(Step::Continue))
    &&& (op_post(f0, f1, ru, seq![Kind::Long, Kind::Long], seq![Value::Long(((long_of(operand(f0, 1)) as i128) * (long_of(operand(f0, 0)) as i128)) as i64)]))
    &&& h1 == h0
}

/// What `lrem` does.
pub open spec fn lrem_effect(f0: FrameState, f1: FrameState, h0: Heap, h1: Heap, r: Result<Step, JvmError>) -> bool {
    let ru = unit_of(r);
    &&& (r is Ok ==> r == Ok::<Step, JvmError>(Step::Continue))
    &&& (checked_op_post(
            f0,
            f1,
            ru,
            seq![Kind::Long, Kind::Long],
            long_of(operand(f0, 0)) == 0,
            |e: JvmError| raises_with_message(e, JavaExceptionKind::ArithmeticException, "/ by zero"@),
            seq![Value::Long(trunc_rem(long_of(operand(f0, 1)) as int, long_of(operand(f0, 0)) as int) as i64)],
        ))
    &&& h1 == h0
}

/// What `land` does.
pub open spec fn land_effect(f0: FrameState, f1: FrameState, h0: Heap, h1: Heap, r: Result<Step, JvmError>) -> bool {
    let ru = unit_of(r);
    &&& (r is Ok ==> r == Ok::<Step, JvmError>(Step::Continue))
    &&& (op_post(f0, f1, ru, seq![Kind::Long, Kind::Long], seq![Value::Long(long_of(operand(f0, 1)) & long_of(operand(f0, 0)))]))
    &&& h1 == h0
}

/// What `lor` does.
pub open spec fn lor_effect(f0: FrameState, f1: FrameState, h0: Heap, h1: Heap, r: Result<Step, JvmError>) -> bool {
    let ru = unit_of(r);
    &&& (r is Ok ==> r == Ok::<Step, JvmError>(Step::Continue))
    &&& (op_post(f0, f1, ru, seq![Kind::Long, Kind::Long], seq![Value::Long(long_of(operand(f0, 1)) | long_of(operand(f0, 0)))]))
    &&& h1 == h0
}

/// What `lxor` does.
pub open spec fn lxor_effect(f0: FrameState, f1: FrameState, h0: Heap, h1: Heap, r: Result<Step, JvmError>) -> bool {
    let ru = unit_of(r);
    &&& (r is Ok ==> r == Ok::<Step, JvmError>(Step::Continue))
    &&& (op_post(f0, f1, ru, seq![Kind::Long, Kind::Long], seq![Value::Long(long_of(operand(f0, 1)) ^ long_of(operand(f0, 0)))]))
    &&& h1 == h0
}

/// What `iand` does.
pub open spec fn iand_effect(f0: FrameState, f1: FrameState, h0: Heap, h1: Heap, r: Result<Step, JvmError>) -> bool {
    let ru = unit_of(r);
    &&& (r is Ok ==> r == Ok::<Step, JvmError>(Step::Continue))
    &&& (op_post(f0, f1, ru, seq![Kind::Int, Kind::Int], seq![Value::Integer(int_of(operand(f0, 1)) & int_of(operand(f0, 0)))]))
    &&& h1 == h0
}

/// What `ior` does.
pub open spec fn ior_effect(f0: FrameState, f1: FrameState, h0: Heap, h1: Heap, r: Result<Step, JvmError>) -> bool {
    let ru = unit_of(r);
    &&& (r is Ok ==> r == Ok::<Step, JvmError>(Step::Continue))
    &&& (op_post(f0, f1, ru, seq![Kind::Int, Kind::Int], seq![Value::Integer(int_of(operand(f0, 1)) | int_of(operand(f0, 0)))]))
    &&& h1 == h0
}

/// What `ixor` does.
pub open spec fn ixor_effect(f0: FrameState, f1: FrameState, h0: Heap, h1: Heap, r: Result<Step, JvmError>) -> bool {
    let ru = unit_of(r);
    &&& (r is Ok ==> r == Ok::<Step, JvmError>(Step::Continue))
    &&& (op_post(f0, f1, ru, seq![Kind::Int, Kind::Int], seq![Value::Integer(int_of(operand(f0, 1)) ^ int_of(operand(f0, 0)))]))
    &&& h1 == h0
}

/// What `l2i` does.
pub open spec fn l2i_effect(f0: FrameState, f1: FrameState, h0: Heap, h1: Heap, r: Result<Step, JvmError>) -> bool {
    let ru = unit_of(r);
    &&& (r is Ok ==> r == Ok::<Step, JvmError>(Step::Continue))
    &&& (op_post(f0, f1, ru, seq![Kind::Long], seq![Value::Integer(long_of(operand(f0, 0)) as i32)]))
    &&& h1 == h0
}

/// What `ineg` does.
pub open spec fn ineg_effect(f0: FrameState, f1: FrameState, h0: Heap, h1: Heap, r: Result<Step, JvmError>) -> bool {
    let ru = unit_of(r);
    &&& (r is Ok ==> r == Ok::<Step, JvmError>(Step::Continue))
    &&& (op_post(f0, f1, ru, seq![Kind::Int], seq![Value::Integer((0i64 - (int_of(operand(f0, 0)) as i64)) as i32)]))
    &&& h1 == h0
}

/// What `i2s` does.
pub open spec fn i2s_effect(f0: FrameState, f1: FrameState, h0: Heap, h1: Heap, r: Result<Step, JvmError>) -> bool {
    let ru = unit_of(r);
    &&& (r is Ok ==> r == Ok::<Step, JvmError>(Step::Continue))
    &&& (op_post(f0, f1, ru, seq![Kind::Int], seq![Value::Integer((int_of(operand(f0, 0)) as i16) as i32)]))
    &&& h1 == h0
}

/// What `i2c` does.
pub open spec fn i2c_effect(f0: FrameState, f1: FrameState, h0: Heap, h1: Heap, r: Result<Step, JvmError>) -> bool {
    let ru = unit_of(r);
    &&& (r is Ok ==> r == Ok::<Step, JvmError>(Step::Continue))
    &&& (op_post(f0, f1, ru, seq![Kind::Int], seq![Value::Integer((int_of(operand(f0, 0)) as u16) as i32)]))
    &&& h1 == h0
}

/// What `i2l` does.
pub open spec fn i2l_effect(f0: FrameState, f1: FrameState, h0: Heap, h1: Heap, r: Result<Step, JvmError>) -> bool {
    let ru = unit_of(r);
    &&& (r is Ok ==> r == Ok::<Step, JvmError>(Step::Continue))
    &&& (op_post(f0, f1, ru, seq![Kind::Int], seq![Value::Long(int_of(operand(f0, 0)) as i64)]))
    &&& h1 == h0
}

/// What `i2b` does.
pub open spec fn i2b_effect(f0: FrameState, f1: FrameState, h0: Heap, h1: Heap, r: Result<Step, JvmError>) -> bool {
    let ru = unit_of(r);
    &&& (r is Ok ==> r == Ok::<Step, JvmError>(Step::Continue))
    &&& (op_post(f0, f1, ru, seq![Kind::Int], seq![Value::Integer((int_of(operand(f0, 0)) as i8) as i32)]))
    &&& h1 == h0
}

/// What `istore0` does.
pub open spec fn istore0_effect(f0: FrameState, f1: FrameState, h0: Heap, h1: Heap, r: Result<Step, JvmError>) -> bool {
    let ru = unit_of(r);
    &&& (r is Ok ==> r == Ok::<Step, JvmError>(Step::Continue))
    &&& (store_post(f0, f1, ru, 0u8, Kind::Int))
    &&& h1 == h0
}

/// What `istore1` does.
pub open spec fn istore1_effect(f0: FrameState, f1: FrameState, h0: Heap, h1: Heap, r: Result<Step, JvmError>) -> bool {
    let ru = unit_of(r);
    &&& (r is Ok ==> r == Ok::<Step, JvmError>(Step::Continue))
    &&& (store_post(f0, f1, ru, 1u8, Kind::Int))
    &&& h1 == h0
}

/// What `istore2` does.
pub open spec fn istore2_effect(f0: FrameState, f1: FrameState, h0: Heap, h1: Heap, r: Result<Step, JvmError>) -> bool {
    let ru = unit_of(r);
    &&& (r is Ok ==> r == Ok::<Step, JvmError>(Step::Continue))
    &&& (store_post(f0, f1, ru, 2u8, Kind::Int))
    &&& h1 == h0
}

/// What `istore3` does.
pub open spec fn istore3_effect(f0: FrameState, f1: FrameState, h0: Heap, h1: Heap, r: Result<Step, JvmError>) -> bool {
    let ru = unit_of(r);
    &&& (r is Ok ==> r == Ok::<Step, JvmError>(Step::Continue))
    &&& (store_post(f0, f1, ru, 3u8, Kind::Int))
    &&& h1 == h0
}

/// What `istore` does.
pub open spec fn istore_effect(f0: FrameState, f1: FrameState, h0: Heap, h1: Heap, r: Result<Step, JvmError>, pos: u8) -> bool {
    let ru = unit_of(r);
    &&& (r is Ok ==> r == Ok::<Step, JvmError>(Step::Continue))
    &&& (store_post(f0, f1, ru, pos, Kind::Int))
    &&& h1 == h0
}

/// What `isub` does.
pub open spec fn isub_effect(f0: FrameState, f1: FrameState, h0: Heap, h1: Heap, r: Result<Step, JvmError>) -> bool {
    let ru = unit_of(r);
    &&& (r is Ok ==> r == Ok::<Step, JvmError>(Step::Continue))
    &&& (op_post(f0, f1, ru, seq![Kind::Int, Kind::Int], seq![Value::Integer(((int_of(operand(f0, 1)) as i64) - (int_of(operand(f0, 0)) as i64)) as i32)]))
    &&& h1 == h0
}

/// What `imul` does.
pub open spec fn imul_effect(f0: FrameState, f1: FrameState, h0: Heap, h1: Heap, r: Result<Step, JvmError>) -> bool {
    let ru = unit_of(r);
    &&& (r is Ok ==> r == Ok::<Step, JvmError>(Step::Continue))
    &&& (op_post(f0, f1, ru, seq![Kind::Int, Kind::Int], seq![Value::Integer(((int_of(operand(f0, 1)) as i64) * (int_of(operand(f0, 0)) as i64)) as i32)]))
    &&& h1 == h0
}

/// What `iinc` does.
pub open spec fn iinc_effect(f0: FrameState, f1: FrameState, h0: Heap, h1: Heap, r: Result<Step, JvmError>, idx: u8, const_val: i8) -> bool {
    let ru = unit_of(r);
    &&& (r is Ok ==> r == Ok::<Step, JvmError>(Step::Continue))
    &&& (idx >= f0.locals.len() ==> f1 == f0 && ru == Err::<(), JvmError>(
            JvmError::LocalVariableNotFound(idx),
        ))
    &&& (idx < f0.locals.len() ==> match f0.locals[idx as int] {
            None => f1 == f0 && ru == Err::<(), JvmError>(JvmError::LocalVariableNotInitialized(idx)),
            Some(v) => if v is Integer {
                ru is Ok && f1 == (FrameState {
                    locals: f0.locals.update(
                        idx as int,
                        Some(Value::Integer((int_of(v) + const_val) as i32)),
                    ),
                    ..f0
                })
            } else {
                f1 == f0 && (ru matches Err(JvmError::UnexpectedType(_)))
            },
        })
    &&& h1 == h0
}

/// What `pop` does.
pub open spec fn pop_effect(f0: FrameState, f1: FrameState, h0: Heap, h1: Heap, r: Result<Step, JvmError>) -> bool {
    let ru = unit_of(r);
    &&& (r is Ok ==> r == Ok::<Step, JvmError>(Step::Continue))
    &&& (op_post(f0, f1, ru, seq![Kind::Any], seq![]))
    &&& h1 == h0
}

/// What `iushr` does.
pub open spec fn iushr_effect(f0: FrameState, f1: FrameState, h0: Heap, h1: Heap, r: Result<Step, JvmError>) -> bool {
    let ru = unit_of(r);
    &&& (r is Ok ==> r == Ok::<Step, JvmError>(Step::Continue))
    &&& (op_post(f0, f1, ru, seq![Kind::Int, Kind::Int], seq![Value::Integer(((int_of(operand(f0, 1)) as u32) >> ((int_of(operand(f0, 0)) & 0x1f) as u32)) as i32)]))
    &&& h1 == h0
}

/// What `lload0` does.
pub open spec fn lload0_effect(f0: FrameState, f1: FrameState, h0: Heap, h1: Heap, r: Result<Step, JvmError>) -> bool {
    let ru = unit_of(r);
    &&& (r is Ok ==> r == Ok::<Step, JvmError>(Step::Continue))
    &&& (load_post(f0, f1, ru, 0u8, Kind::Any))
    &&& h1 == h0
}

/// What `lload1` does.
pub open spec fn lload1_effect(f0: FrameState, f1: FrameState, h0: Heap, h1: Heap, r: Result<Step, JvmError>) -> bool {
    let ru = unit_of(r);
    &&& (r is Ok ==> r == Ok::<Step, JvmError>(Step::Continue))
    &&& (load_post(f0, f1, ru, 1u8, Kind::Any))
    &&& h1 == h0
}

/// What `lload2` does.
pub open spec fn lload2_effect(f0: FrameState, f1: FrameState, h0: Heap, h1: Heap, r: Result<Step, JvmError>) -> bool {
    let ru = unit_of(r);
    &&& (r is Ok ==> r == Ok::<Step, JvmError>(Step::Continue))
    &&& (load_post(f0, f1, ru, 2u8, Kind::Any))
    &&& h1 == h0
}

/// What `lload3` does.
pub open spec fn lload3_effect(f0: FrameState, f1: FrameState, h0: Heap, h1: Heap, r: Result<Step, JvmError>) -> bool {
    let ru = unit_of(r);
    &&& (r is Ok ==> r == Ok::<Step, JvmError>(Step::Continue))
    &&& (load_post(f0, f1, ru, 3u8, Kind::Any))
    &&& h1 == h0
}

/// What `lload` does.
pub open spec fn lload_effect(f0: FrameState, f1: FrameState, h0: Heap, h1: Heap, r: Result<Step, JvmError>, pos: u8) -> bool {
    let ru = unit_of(r);
    &&& (r is Ok ==> r == Ok::<Step, JvmError>(Step::Continue))
    &&& (load_post(f0, f1, ru, pos, Kind::Any))
    &&& h1 == h0
}

/// What `lshl` does.
pub open spec fn lshl_effect(f0: FrameState, f1: FrameState, h0: Heap, h1: Heap, r: Result<Step, JvmError>) -> bool {
    let ru = unit_of(r);
    &&& (r is Ok ==> r == Ok::<Step, JvmError>(Step::Continue))
    &&& (op_post(f0, f1, ru, seq![Kind::Int, Kind::Long], seq![Value::Long(((long_of(operand(f0, 1)) as u64) << ((int_of(operand(f0, 0)) & 0x3f) as u64)) as i64)]))
    &&& h1 == h0
}

/// What `lshr` does.
pub open spec fn lshr_effect(f0: FrameState, f1: FrameState, h0: Heap, h1: Heap, r: Result<Step, JvmError>) -> bool {
    let ru = unit_of(r);
    &&& (r is Ok ==> r == Ok::<Step, JvmError>(Step::Continue))
    &&& (op_post(f0, f1, ru, seq![Kind::Int, Kind::Long], seq![Value::Long(long_of(operand(f0, 1)) >> ((int_of(operand(f0, 0)) & 0x3f) as u64))]))
    &&& h1 == h0
}

/// What `lushr` does.
pub open spec fn lushr_effect(f0: FrameState, f1: FrameState, h0: Heap, h1: Heap, r: Result<Step, JvmError>) -> bool {
    let ru = unit_of(r);
    &&& (r is Ok ==> r == Ok::<Step, JvmError>(Step::Continue))
    &&& (op_post(f0, f1, ru, seq![Kind::Int, Kind::Long], seq![Value::Long(((long_of(operand(f0, 1)) as u64) >> ((int_of(operand(f0, 0)) & 0x3f) as u64)) as i64)]))
    &&& h1 == h0
}

/// What `lstore0` does.
pub open spec fn lstore0_effect(f0: FrameState, f1: FrameState, h0: Heap, h1: Heap, r: Result<Step, JvmError>) -> bool {
    let ru = unit_of(r);
    &&& (r is Ok ==> r == Ok::<Step, JvmError>(Step::Continue))
    &&& (store_post(f0, f1, ru, 0u8, Kind::Long))
    &&& h1 == h0
}

/// What `lstore1` does.
pub open spec fn lstore1_effect(f0: FrameState, f1: FrameState, h0: Heap, h1: Heap, r: Result<Step, JvmError>) -> bool {
    let ru = unit_of(r);
    &&& (r is Ok ==> r == Ok::<Step, JvmError>(Step::Continue))
    &&& (store_post(f0, f1, ru, 1u8, Kind::Long))
    &&& h1 == h0
}

/// What `lstore2` does.
pub open spec fn lstore2_effect(f0: FrameState, f1: FrameState, h0: Heap, h1: Heap, r: Result<Step, JvmError>) -> bool {
    let ru = unit_of(r);
    &&& (r is Ok ==> r == Ok::<Step, JvmError>(Step::Continue))
    &&& (store_post(f0, f1, ru, 2u8, Kind::Long))
    &&& h1 == h0
}

/// What `lstore3` does.
pub open spec fn lstore3_effect(f0: FrameState, f1: FrameState, h0: Heap, h1: Heap, r: Result<Step, JvmError>) -> bool {
    let ru = unit_of(r);
    &&& (r is Ok ==> r == Ok::<Step, JvmError>(Step::Continue))
    &&& (store_post(f0, f1, ru, 3u8, Kind::Long))
    &&& h1 == h0
}

/// What `lstore` does.
pub open spec fn lstore_effect(f0: FrameState, f1: FrameState, h0: Heap, h1: Heap, r: Result<Step, JvmError>, pos: u8) -> bool {
    let ru = unit_of(r);
    &&& (r is Ok ==> r == Ok::<Step, JvmError>(Step::Continue))
    &&& (store_post(f0, f1, ru, pos, Kind::Long))
    &&& h1 == h0
}

/// What `lsub` does.
pub open spec fn lsub_effect(f0: FrameState, f1: FrameState, h0: Heap, h1: Heap, r: Result<Step, JvmError>) -> bool {
    let ru = unit_of(r);
    &&& (r is Ok ==> r == Ok::<Step, JvmError>(Step::Continue))
    &&& (op_post(f0, f1, ru, seq![Kind::Long, Kind::Long], seq![Value::Long(((long_of(operand(f0, 1)) as i128) - (long_of(operand(f0, 0)) as i128)) as i64)]))
    &&& h1 == h0
}

/// What `iastore` does.
pub open spec fn iastore_effect(f0: FrameState, f1: FrameState, h0: Heap, h1: Heap, r: Result<Step, JvmError>) -> bool {
    let ru = unit_of(r);
    &&& (r is Ok ==> r == Ok::<Step, JvmError>(Step::Continue))
    &&& (h1.wf())
    &&& (h1.same_setup(&h0))
    &&& (h1.string_pool() == h0.string_pool())
    &&& (array_store_post(f0, f1, ru, h0@, h1@, Kind::Int))
}

/// What `ishl` does.
pub open spec fn ishl_effect(f0: FrameState, f1: FrameState, h0: Heap, h1: Heap, r: Result<Step, JvmError>) -> bool {
    let ru = unit_of(r);
    &&& (r is Ok ==> r == Ok::<Step, JvmError>(Step::Continue))
    &&& (op_post(f0, f1, ru, seq![Kind::Int, Kind::Int], seq![Value::Integer(((int_of(operand(f0, 1)) as u32) << ((int_of(operand(f0, 0)) & 0x1f) as u32)) as i32)]))
    &&& h1 == h0
}

/// What `ishr` does.
pub open spec fn ishr_effect(f0: FrameState, f1: FrameState, h0: Heap, h1: Heap, r: Result<Step, JvmError>) -> bool {
    let ru = unit_of(r);
    &&& (r is Ok ==> r == Ok::<Step, JvmError>(Step::Continue))
    &&& (op_post(f0, f1, ru, seq![Kind::Int, Kind::Int], seq![Value::Integer(int_of(operand(f0, 1)) >> ((int_of(operand(f0, 0)) & 0x1f) as u32))]))
    &&& h1 == h0
}

/// What `saload` does.
pub open spec fn saload_effect(f0: FrameState, f1: FrameState, h0: Heap, h1: Heap, r: Result<Step, JvmError>) -> bool {
    let ru = unit_of(r);
    &&& (r is Ok ==> r == Ok::<Step, JvmError>(Step::Continue))
    &&& (array_load_post(f0, f1, ru, h0@))
    &&& h1 == h0
}

/// What `sastore` does.
pub open spec fn sastore_effect(f0: FrameState, f1: FrameState, h0: Heap, h1: Heap, r: Result<Step, JvmError>) -> bool {
    let ru = unit_of(r);
    &&& (r is Ok ==> r == Ok::<Step, JvmError>(Step::Continue))
    &&& (h1.wf())
    &&& (h1.same_setup(&h0))
    &&& (h1.string_pool() == h0.string_pool())
    &&& (array_store_post(f0, f1, ru, h0@, h1@, Kind::Int))
}

/// What `sipush` does.
pub open spec fn sipush_effect(f0: FrameState, f1: FrameState, h0: Heap, h1: Heap, r: Result<Step, JvmError>, value: i16) -> bool {
    let ru = unit_of(r);
    &&& (r is Ok ==> r == Ok::<Step, JvmError>(Step::Continue))
    &&& (op_post(f0, f1, ru, seq![], seq![Value::Integer(value as i32)]))
    &&& h1 == h0
}

/// What `tableswitch` does.
pub open spec fn table_switch_effect(f0: FrameState, f1: FrameState, h0: Heap, h1: Heap, r: Result<Step, JvmError>, sw: TableSwitchData) -> bool {
    let ru = unit_of(r);
    &&& (r is Ok ==> r == Ok::<Step, JvmError>(Step::Continue))
    &&& (match operand_fault(f0.operands, seq![Kind::Int]) {
            Some(f) => f1 == f0 && (ru matches Err(e) && fault_error(f, e)),
            None => ru is Ok && f1 == with_pc(
                replace_top(f0, 1, seq![]),
                branch_target(f0.pc, table_offset(sw, int_of(operand(f0, 0))) as int),
            ),
        })
    &&& h1 == h0
}

/// What `monitorenter` does.
pub open spec fn monitorenter_effect(f0: FrameState, f1: FrameState, h0: Heap, h1: Heap, r: Result<Step, JvmError>) -> bool {
    let ru = unit_of(r);
    &&& (r is Ok ==> r == Ok::<Step, JvmError>(Step::Continue))
    &&& (op_post(f0, f1, ru, seq![Kind::Ref], seq![]))
    &&& h1 == h0
}

/// What `monitorexit` does.
pub open spec fn monitorexit_effect(f0: FrameState, f1: FrameState, h0: Heap, h1: Heap, r: Result<Step, JvmError>) -> bool {
    let ru = unit_of(r);
    &&& (r is Ok ==> r == Ok::<Step, JvmError>(Step::Continue))
    &&& (op_post(f0, f1, ru, seq![Kind::Ref], seq![]))
    &&& h1 == h0
}

/// What `dreturn` does.
pub open spec fn dreturn_effect(f0: FrameState, f1: FrameState, h0: Heap, h1: Heap, r: Result<Step, JvmError>) -> bool {
    let ru = returned(r);
    &&& (r is Ok ==> r matches Ok(Step::Return(Some(_))))
    &&& (match operand_fault(f0.operands, seq![Kind::Double]) {
            Some(f) => f1 == f0 && (ru matches Err(e) && fault_error(f, e)),
            None => ru == Ok::<Value, JvmError>(operand(f0, 0)) && f1 == replace_top(f0, 1, seq![]),
        })
    &&& h1 == h0
}

/// What `ireturn` does.
pub open spec fn ireturn_effect(f0: FrameState, f1: FrameState, h0: Heap, h1: Heap, r: Result<Step, JvmError>) -> bool {
    let ru = returned(r);
    &&& (r is Ok ==> r matches Ok(Step::Return(Some(_))))
    &&& (match operand_fault(f0.operands, seq![Kind::Int]) {
            Some(f) => f1 == f0 && (ru matches Err(e) && fault_error(f, e)),
            None => ru == Ok::<Value, JvmError>(operand(f0, 0)) && f1 == replace_top(f0, 1, seq![]),
        })
    &&& h1 == h0
}

/// What `areturn` does.
pub open spec fn areturn_effect(f0: FrameState, f1: FrameState, h0: Heap, h1: Heap, r: Result<Step, JvmError>) -> bool {
    let ru = returned(r);
    &&& (r is Ok ==> r matches Ok(Step::Return(Some(_))))
    &&& (match operand_fault(f0.operands, seq![Kind::NullableRef]) {
            Some(f) => f1 == f0 && (ru matches Err(e) && fault_error(f, e)),
            None => ru == Ok::<Value, JvmError>(operand(f0, 0)) && f1 == replace_top(f0, 1, seq![]),
        })
    &&& h1 == h0
}

/// What `lreturn` does.
pub open spec fn lreturn_effect(f0: FrameState, f1: FrameState, h0: Heap, h1: Heap, r: Result<Step, JvmError>) -> bool {
    let ru = returned(r);
    &&& (r is Ok ==> r matches Ok(Step::Return(Some(_))))
    &&& (match operand_fault(f0.operands, seq![Kind::Long]) {
            Some(f) => f1 == f0 && (ru matches Err(e) && fault_error(f, e)),
            None => ru == Ok::<Value, JvmError>(operand(f0, 0)) && f1 == replace_top(f0, 1, seq![]),
        })
    &&& h1 == h0
}

/// What `freturn` does.
pub open spec fn freturn_effect(f0: FrameState, f1: FrameState, h0: Heap, h1: Heap, r: Result<Step, JvmError>) -> bool {
    let ru = returned(r);
    &&& (r is Ok ==> r matches Ok(Step::Return(Some(_))))
    &&& (match operand_fault(f0.operands, seq![Kind::Float]) {
            Some(f) => f1 == f0 && (ru matches Err(e) && fault_error(f, e)),
            None => ru == Ok::<Value, JvmError>(operand(f0, 0)) && f1 == replace_top(f0, 1, seq![]),
        })
    &&& h1 == h0
}

/// What carrying out instruction `i` does, before the pc moves on: the
/// frame goes from `f0` to `f1`, the heap from `h0` to `h1`, with outcome `r`.
pub open spec fn handler_post(i: Instruction, f0: FrameState, f1: FrameState, h0: Heap, h1: Heap, r: Result<Step, JvmError>) -> bool {
    match i {
        Instruction::Athrow => athrow_effect(f0, f1, h0, h1, r),
        Instruction::Aaload => aaload_effect(f0, f1, h0, h1, r),
        Instruction::Aastore => aastore_effect(f0, f1, h0, h1, r),
        Instruction::Bastore => bastore_effect(f0, f1, h0, h1, r),
        Instruction::Iaload => iaload_effect(f0, f1, h0, h1, r),
        Instruction::Caload => caload_effect(f0, f1, h0, h1, r),
        Instruction::Baload => baload_effect(f0, f1, h0, h1, r),
        Instruction::Checkcast(idx) => checkcast_effect(f0, f1, h0, h1, r, idx),
        Instruction::AconstNull => aconst_null_effect(f0, f1, h0, h1, r),
        Instruction::Aload0 => aload0_effect(f0, f1, h0, h1, r),
        Instruction::Aload1 => aload1_effect(f0, f1, h0, h1, r),
        Instruction::Aload2 => aload2_effect(f0, f1, h0, h1, r),
        Instruction::Aload3 => aload3_effect(f0, f1, h0, h1, r),
        Instruction::Aload(pos) => aload_effect(f0, f1, h0, h1, r, pos),
        Instruction::Anewarray(_) => r == Ok::<Step, JvmError>(Step::Defer) && f1 == f0 && h1 == h0,
        Instruction::ArrayLength => array_length_effect(f0, f1, h0, h1, r),
        Instruction::Astore0 => astore0_effect(f0, f1, h0, h1, r),
        Instruction::Astore1 => astore1_effect(f0, f1, h0, h1, r),
        Instruction::Astore2 => astore2_effect(f0, f1, h0, h1, r),
        Instruction::Astore3 => astore3_effect(f0, f1, h0, h1, r),
        Instruction::Astore(pos) => astore_effect(f0, f1, h0, h1, r, pos),
        Instruction::Bipush(value) => bipush_effect(f0, f1, h0, h1, r, value),
        Instruction::Castore => castore_effect(f0, f1, h0, h1, r),
        Instruction::Dadd => r == Ok::<Step, JvmError>(Step::Defer) && f1 == f0 && h1 == h0,
        Instruction::Ddiv => r == Ok::<Step, JvmError>(Step::Defer) && f1 == f0 && h1 == h0,
        Instruction::Dcmpl => dcmpl_effect(f0, f1, h0, h1, r),
        Instruction::Dcmpg => dcmpg_effect(f0, f1, h0, h1, r),
        Instruction::Dconst0 => dconst0_effect(f0, f1, h0, h1, r),
        Instruction::Dconst1 => dconst1_effect(f0, f1, h0, h1, r),
        Instruction::Dload0 => dload0_effect(f0, f1, h0, h1, r),
        Instruction::Dload1 => dload1_effect(f0, f1, h0, h1, r),
        Instruction::Dload2 => dload2_effect(f0, f1, h0, h1, r),
        Instruction::Dload3 => dload3_effect(f0, f1, h0, h1, r),
        Instruction::Dload(pos) => dload_effect(f0, f1, h0, h1, r, pos),
        Instruction::Dmul => r == Ok::<Step, JvmError>(Step::Defer) && f1 == f0 && h1 == h0,
        Instruction::Dstore(pos) => dstore_effect(f0, f1, h0, h1, r, pos),
        Instruction::Dup => dup_effect(f0, f1, h0, h1, r),
        Instruction::Dup2 => dup2_effect(f0, f1, h0, h1, r),
        Instruction::DupX1 => dup_x1_effect(f0, f1, h0, h1, r),
        Instruction::Fcmpl => fcmpl_effect(f0, f1, h0, h1, r),
        Instruction::Fcmpg => fcmpg_effect(f0, f1, h0, h1, r),
        Instruction::Fconst0 => fconst0_effect(f0, f1, h0, h1, r),
        Instruction::Fconst1 => fconst1_effect(f0, f1, h0, h1, r),
        Instruction::Fload0 => fload0_effect(f0, f1, h0, h1, r),
        Instruction::Fload1 => fload1_effect(f0, f1, h0, h1, r),
        Instruction::Fload2 => fload2_effect(f0, f1, h0, h1, r),
        Instruction::Fload3 => fload3_effect(f0, f1, h0, h1, r),
        Instruction::Fload(pos) => fload_effect(f0, f1, h0, h1, r, pos),
        Instruction::Fstore0 => fstore0_effect(f0, f1, h0, h1, r),
        Instruction::Fstore1 => fstore1_effect(f0, f1, h0, h1, r),
        Instruction::Fstore2 => fstore2_effect(f0, f1, h0, h1, r),
        Instruction::Fstore3 => fstore3_effect(f0, f1, h0, h1, r),
        Instruction::Fstore(pos) => fstore_effect(f0, f1, h0, h1, r, pos),
        Instruction::Getfield(_) => r == Ok::<Step, JvmError>(Step::Defer) && f1 == f0 && h1 == h0,
        Instruction::Getstatic(_) => r == Ok::<Step, JvmError>(Step::Defer) && f1 == f0 && h1 == h0,
        Instruction::Goto(offset) => goto_effect(f0, f1, h0, h1, r, offset),
        Instruction::Iadd => iadd_effect(f0, f1, h0, h1, r),
        Instruction::Iconst0 => iconst0_effect(f0, f1, h0, h1, r),
        Instruction::Iconst1 => iconst1_effect(f0, f1, h0, h1, r),
        Instruction::Iconst2 => iconst2_effect(f0, f1, h0, h1, r),
        Instruction::Iconst3 => iconst3_effect(f0, f1, h0, h1, r),
        Instruction::Iconst4 => iconst4_effect(f0, f1, h0, h1, r),
        Instruction::Iconst5 => iconst5_effect(f0, f1, h0, h1, r),
        Instruction::IconstM1 => iconst_m1_effect(f0, f1, h0, h1, r),
        Instruction::Idiv => idiv_effect(f0, f1, h0, h1, r),
        Instruction::IfEq(offset) => if_eq_effect(f0, f1, h0, h1, r, offset),
        Instruction::IfGe(offset) => if_ge_effect(f0, f1, h0, h1, r, offset),
        Instruction::IfGt(offset) => if_gt_effect(f0, f1, h0, h1, r, offset),
        Instruction::Lcmp => lcmp_effect(f0, f1, h0, h1, r),
        Instruction::Lconst0 => lconst0_effect(f0, f1, h0, h1, r),
        Instruction::Lconst1 => lconst1_effect(f0, f1, h0, h1, r),
        Instruction::Lookupswitch(sw) => lookupswitch_effect(f0, f1, h0, h1, r, sw),
        Instruction::Ifnull(offset) => ifnull_effect(f0, f1, h0, h1, r, offset),
        Instruction::IfIcmplt(offset) => if_icmplt_effect(f0, f1, h0, h1, r, offset),
        Instruction::IfLe(offset) => if_le_effect(f0, f1, h0, h1, r, offset),
        Instruction::IfLt(offset) => if_lt_effect(f0, f1, h0, h1, r, offset),
        Instruction::IfAcmpEq(offset) => if_acmp_eq_effect(f0, f1, h0, h1, r, offset),
        Instruction::IfAcmpNe(offset) => if_acmp_ne_effect(f0, f1, h0, h1, r, offset),
        Instruction::IfIcmpne(offset) => if_icmpne_effect(f0, f1, h0, h1, r, offset),
        Instruction::IfIcmpge(offset) => if_icmpge_effect(f0, f1, h0, h1, r, offset),
        Instruction::IfIcmpgt(offset) => if_icmpgt_effect(f0, f1, h0, h1, r, offset),
        Instruction::IfIcmpeq(offset) => if_icmpeq_effect(f0, f1, h0, h1, r, offset),
        Instruction::IfIcmple(offset) => if_icmple_effect(f0, f1, h0, h1, r, offset),
        Instruction::Ifnonnull(offset) => ifnonnull_effect(f0, f1, h0, h1, r, offset),
        Instruction::IfNe(offset) => if_ne_effect(f0, f1, h0, h1, r, offset),
        Instruction::Iload0 => iload0_effect(f0, f1, h0, h1, r),
        Instruction::Iload1 => iload1_effect(f0, f1, h0, h1, r),
        Instruction::Iload2 => iload2_effect(f0, f1, h0, h1, r),
        Instruction::Iload3 => iload3_effect(f0, f1, h0, h1, r),
        Instruction::Iload(pos) => iload_effect(f0, f1, h0, h1, r, pos),
        Instruction::InvokeVirtual(_) => r == Ok::<Step, JvmError>(Step::Defer) && f1 == f0 && h1 == h0,
        Instruction::Instanceof(_) => r == Ok::<Step, JvmError>(Step::Defer) && f1 == f0 && h1 == h0,
        Instruction::Fmul => r == Ok::<Step, JvmError>(Step::Defer) && f1 == f0 && h1 == h0,
        Instruction::Fdiv => r == Ok::<Step, JvmError>(Step::Defer) && f1 == f0 && h1 == h0,
        Instruction::Irem => irem_effect(f0, f1, h0, h1, r),
        Instruction::Ladd => ladd_effect(f0, f1, h0, h1, r),
        Instruction::Ldiv => ldiv_effect(f0, f1, h0, h1, r),
        Instruction::Lmul => lmul_effect(f0, f1, h0, h1, r),
        Instruction::Lrem => lrem_effect(f0, f1, h0, h1, r),
        Instruction::Land => land_effect(f0, f1, h0, h1, r),
        Instruction::Lor => lor_effect(f0, f1, h0, h1, r),
        Instruction::Lxor => lxor_effect(f0, f1, h0, h1, r),
        Instruction::Iand => iand_effect(f0, f1, h0, h1, r),
        Instruction::Ior => ior_effect(f0, f1, h0, h1, r),
        Instruction::Ixor => ixor_effect(f0, f1, h0, h1, r),
        Instruction::L2i => l2i_effect(f0, f1, h0, h1, r),
        Instruction::L2f => r == Ok::<Step, JvmError>(Step::Defer) && f1 == f0 && h1 == h0,
        Instruction::D2i => r == Ok::<Step, JvmError>(Step::Defer) && f1 == f0 && h1 == h0,
        Instruction::D2l => r == Ok::<Step, JvmError>(Step::Defer) && f1 == f0 && h1 == h0,
        Instruction::F2i => r == Ok::<Step, JvmError>(Step::Defer) && f1 == f0 && h1 == h0,
        Instruction::F2d => r == Ok::<Step, JvmError>(Step::Defer) && f1 == f0 && h1 == h0,
        Instruction::Ineg => ineg_effect(f0, f1, h0, h1, r),
        Instruction::I2s => i2s_effect(f0, f1, h0, h1, r),
        Instruction::I2c => i2c_effect(f0, f1, h0, h1, r),
        Instruction::I2l => i2l_effect(f0, f1, h0, h1, r),
        Instruction::I2f => r == Ok::<Step, JvmError>(Step::Defer) && f1 == f0 && h1 == h0,
        Instruction::I2d => r == Ok::<Step, JvmError>(Step::Defer) && f1 == f0 && h1 == h0,
        Instruction::I2b => i2b_effect(f0, f1, h0, h1, r),
        Instruction::Istore0 => istore0_effect(f0, f1, h0, h1, r),
        Instruction::Istore1 => istore1_effect(f0, f1, h0, h1, r),
        Instruction::Istore2 => istore2_effect(f0, f1, h0, h1, r),
        Instruction::Istore3 => istore3_effect(f0, f1, h0, h1, r),
        Instruction::Istore(pos) => istore_effect(f0, f1, h0, h1, r, pos),
        Instruction::Isub => isub_effect(f0, f1, h0, h1, r),
        Instruction::Imul => imul_effect(f0, f1, h0, h1, r),
        Instruction::Iinc(idx, const_val) => iinc_effect(f0, f1, h0, h1, r, idx, const_val),
        Instruction::Ldc(_) => r == Ok::<Step, JvmError>(Step::Defer) && f1 == f0 && h1 == h0,
        Instruction::LdcW(_) => r == Ok::<Step, JvmError>(Step::Defer) && f1 == f0 && h1 == h0,
        Instruction::Ldc2W(_) => r == Ok::<Step, JvmError>(Step::Defer) && f1 == f0 && h1 == h0,
        Instruction::New(_) => r == Ok::<Step, JvmError>(Step::Defer) && f1 == f0 && h1 == h0,
        Instruction::Newarray(_) => r == Ok::<Step, JvmError>(Step::Defer) && f1 == f0 && h1 == h0,
        Instruction::Pop => pop_effect(f0, f1, h0, h1, r),
        Instruction::Putfield(_) => r == Ok::<Step, JvmError>(Step::Defer) && f1 == f0 && h1 == h0,
        Instruction::Putstatic(_) => r == Ok::<Step, JvmError>(Step::Defer) && f1 == f0 && h1 == h0,
        Instruction::InvokeInterface(_, _) => r == Ok::<Step, JvmError>(Step::Defer) && f1 == f0 && h1 == h0,
        Instruction::InvokeSpecial(_) => r == Ok::<Step, JvmError>(Step::Defer) && f1 == f0 && h1 == h0,
        Instruction::InvokeStatic(_) => r == Ok::<Step, JvmError>(Step::Defer) && f1 == f0 && h1 == h0,
        Instruction::InvokeDynamic(_) => r == Ok::<Step, JvmError>(Step::Defer) && f1 == f0 && h1 == h0,
        Instruction::Iushr => iushr_effect(f0, f1, h0, h1, r),
        Instruction::Lload0 => lload0_effect(f0, f1, h0, h1, r),
        Instruction::Lload1 => lload1_effect(f0, f1, h0, h1, r),
        Instruction::Lload2 => lload2_effect(f0, f1, h0, h1, r),
        Instruction::Lload3 => lload3_effect(f0, f1, h0, h1, r),
        Instruction::Lload(pos) => lload_effect(f0, f1, h0, h1, r, pos),
        Instruction::Lshl => lshl_effect(f0, f1, h0, h1, r),
        Instruction::Lshr => lshr_effect(f0, f1, h0, h1, r),
        Instruction::Lushr => lushr_effect(f0, f1, h0, h1, r),
        Instruction::Lstore0 => lstore0_effect(f0, f1, h0, h1, r),
        Instruction::Lstore1 => lstore1_effect(f0, f1, h0, h1, r),
        Instruction::Lstore2 => lstore2_effect(f0, f1, h0, h1, r),
        Instruction::Lstore3 => lstore3_effect(f0, f1, h0, h1, r),
        Instruction::Lstore(pos) => lstore_effect(f0, f1, h0, h1, r, pos),
        Instruction::Lsub => lsub_effect(f0, f1, h0, h1, r),
        Instruction::Iastore => iastore_effect(f0, f1, h0, h1, r),
        Instruction::Ishl => ishl_effect(f0, f1, h0, h1, r),
        Instruction::Ishr => ishr_effect(f0, f1, h0, h1, r),
        Instruction::Saload => saload_effect(f0, f1, h0, h1, r),
        Instruction::Sastore => sastore_effect(f0, f1, h0, h1, r),
        Instruction::Sipush(value) => sipush_effect(f0, f1, h0, h1, r, value),
        Instruction::TableSwitch(sw) => table_switch_effect(f0, f1, h0, h1, r, sw),
        Instruction::Monitorenter => monitorenter_effect(f0, f1, h0, h1, r),
        Instruction::Monitorexit => monitorexit_effect(f0, f1, h0, h1, r),
        Instruction::Return => r == Ok::<Step, JvmError>(Step::Return(None)) && f1 == f0 && h1 == h0,
        Instruction::Dreturn => dreturn_effect(f0, f1, h0, h1, r),
        Instruction::Ireturn => ireturn_effect(f0, f1, h0, h1, r),
        Instruction::Areturn => areturn_effect(f0, f1, h0, h1, r),
        Instruction::Lreturn => lreturn_effect(f0, f1, h0, h1, r),
        Instruction::Freturn => freturn_effect(f0, f1, h0, h1, r),
        Instruction::Nop => false,
        Instruction::Pop2 => false,
        Instruction::Swap => false,
        Instruction::DupX2 => false,
        Instruction::Dup2X1 => false,
        Instruction::Dup2X2 => false,
        Instruction::Fadd => false,
        Instruction::Fsub => false,
        Instruction::Frem => false,
        Instruction::Fneg => false,
        Instruction::Dsub => false,
        Instruction::Drem => false,
        Instruction::Dneg => false,
        Instruction::Lneg => false,
        Instruction::L2d => false,
        Instruction::F2l => false,
        Instruction::D2f => false,
        Instruction::Laload => false,
        Instruction::Faload => false,
        Instruction::Daload => false,
        Instruction::Lastore => false,
        Instruction::Fastore => false,
        Instruction::Dastore => false,
        Instruction::Jsr(_) => false,
        Instruction::Ret(_) => false,
        Instruction::GotoW(_) => false,
        Instruction::JsrW(_) => false,
        Instruction::Multianewarray(_, _) => false,
    }
}

/// Carries out `instruction`, leaving the pc where the handler leaves it.
#[verifier::rlimit(100)]
fn execute(frame: &mut JavaFrame, heap: &mut Heap, instruction: &Instruction) -> (r: Result<Step, JvmError>)
    requires
        old(heap).wf(),
        instruction_requires(*instruction, old(frame)@),
    ensures
        final(heap).wf(),
        handler_post(*instruction, old(frame)@, final(frame)@, *old(heap), *final(heap), r),
{
    match instruction {
        Instruction::Athrow => {
            handle_athrow(frame)?;
            Ok(Step::Continue)
        },
        Instruction::Aaload => {
            handle_aaload(frame, heap)?;
            Ok(Step::Continue)
        },
        Instruction::Aastore => {
            handle_aastore(frame, heap)?;
            Ok(Step::Continue)
        },
        Instruction::Bastore => {
            handle_bastore(frame, heap)?;
            Ok(Step::Continue)
        },
        Instruction::Iaload => {
            handle_iaload(frame, heap)?;
            Ok(Step::Continue)
        },
        Instruction::Caload => {
            handle_caload(frame, heap)?;
            Ok(Step::Continue)
        },
        Instruction::Baload => {
            handle_baload(frame, heap)?;
            Ok(Step::Continue)
        },
        Instruction::Checkcast(_) => {
            handle_checkcast(frame)?;
            Ok(Step::Continue)
        },
        Instruction::AconstNull => {
            handle_aconst_null(frame)?;
            Ok(Step::Continue)
        },
        Instruction::Aload0 => {
            handle_aload0(frame)?;
            Ok(Step::Continue)
        },
        Instruction::Aload1 => {
            handle_aload1(frame)?;
            Ok(Step::Continue)
        },
        Instruction::Aload2 => {
            handle_aload2(frame)?;
            Ok(Step::Continue)
        },
        Instruction::Aload3 => {
            handle_aload3(frame)?;
            Ok(Step::Continue)
        },
        Instruction::Aload(pos) => {
            handle_aload(frame, *pos)?;
            Ok(Step::Continue)
        },
        Instruction::Anewarray(_) => Ok(Step::Defer),
        Instruction::ArrayLength => {
            handle_arraylength(frame, heap)?;
            Ok(Step::Continue)
        },
        Instruction::Astore0 => {
            handle_astore0(frame)?;
            Ok(Step::Continue)
        },
        Instruction::Astore1 => {
            handle_astore1(frame)?;
            Ok(Step::Continue)
        },
        Instruction::Astore2 => {
            handle_astore2(frame)?;
            Ok(Step::Continue)
        },
        Instruction::Astore3 => {
            handle_astore3(frame)?;
            Ok(Step::Continue)
        },
        Instruction::Astore(pos) => {
            handle_astore(frame, *pos)?;
            Ok(Step::Continue)
        },
        Instruction::Bipush(value) => {
            handle_bipush(frame, *value)?;
            Ok(Step::Continue)
        },
        Instruction::Castore => {
            handle_castore(frame, heap)?;
            Ok(Step::Continue)
        },
        Instruction::Dadd => Ok(Step::Defer),
        Instruction::Ddiv => Ok(Step::Defer),
        Instruction::Dcmpl => {
            handle_dcmpl(frame)?;
            Ok(Step::Continue)
        },
        Instruction::Dcmpg => {
            handle_dcmpg(frame)?;
            Ok(Step::Continue)
        },
        Instruction::Dconst0 => {
            handle_dconst0(frame)?;
            Ok(Step::Continue)
        },
        Instruction::Dconst1 => {
            handle_dconst1(frame)?;
            Ok(Step::Continue)
        },
        Instruction::Dload0 => {
            handle_dload0(frame)?;
            Ok(Step::Continue)
        },
        Instruction::Dload1 => {
            handle_dload1(frame)?;
            Ok(Step::Continue)
        },
        Instruction::Dload2 => {
            handle_dload2(frame)?;
            Ok(Step::Continue)
        },
        Instruction::Dload3 => {
            handle_dload3(frame)?;
            Ok(Step::Continue)
        },
        Instruction::Dload(pos) => {
            handle_dload(frame, *pos)?;
            Ok(Step::Continue)
        },
        Instruction::Dmul => Ok(Step::Defer),
        Instruction::Dstore(pos) => {
            handle_dstore(frame, *pos)?;
            Ok(Step::Continue)
        },
        Instruction::Dup => {
            handle_dup(frame)?;
            Ok(Step::Continue)
        },
        Instruction::Dup2 => {
            handle_dup2(frame)?;
            Ok(Step::Continue)
        },
        Instruction::DupX1 => {
            handle_dup_x1(frame)?;
            Ok(Step::Continue)
        },
        Instruction::Fcmpl => {
            handle_fcmpl(frame)?;
            Ok(Step::Continue)
        },
        Instruction::Fcmpg => {
            handle_fcmpg(frame)?;
            Ok(Step::Continue)
        },
        Instruction::Fconst0 => {
            handle_fconst0(frame)?;
            Ok(Step::Continue)
        },
        Instruction::Fconst1 => {
            handle_fconst1(frame)?;
            Ok(Step::Continue)
        },
        Instruction::Fload0 => {
            handle_fload0(frame)?;
            Ok(Step::Continue)
        },
        Instruction::Fload1 => {
            handle_fload1(frame)?;
            Ok(Step::Continue)
        },
        Instruction::Fload2 => {
            handle_fload2(frame)?;
            Ok(Step::Continue)
        },
        Instruction::Fload3 => {
            handle_fload3(frame)?;
            Ok(Step::Continue)
        },
        Instruction::Fload(pos) => {
            handle_fload(frame, *pos)?;
            Ok(Step::Continue)
        },
        Instruction::Fstore0 => {
            handle_fstore0(frame)?;
            Ok(Step::Continue)
        },
        Instruction::Fstore1 => {
            handle_fstore1(frame)?;
            Ok(Step::Continue)
        },
        Instruction::Fstore2 => {
            handle_fstore2(frame)?;
            Ok(Step::Continue)
        },
        Instruction::Fstore3 => {
            handle_fstore3(frame)?;
            Ok(Step::Continue)
        },
        Instruction::Fstore(pos) => {
            handle_fstore(frame, *pos)?;
            Ok(Step::Continue)
        },
        Instruction::Getfield(_) => Ok(Step::Defer),
        Instruction::Getstatic(_) => Ok(Step::Defer),
        Instruction::Goto(offset) => {
            handle_goto(frame, *offset)?;
            Ok(Step::Continue)
        },
        Instruction::Iadd => {
            handle_iadd(frame)?;
            Ok(Step::Continue)
        },
        Instruction::Iconst0 => {
            handle_iconst0(frame)?;
            Ok(Step::Continue)
        },
        Instruction::Iconst1 => {
            handle_iconst1(frame)?;
            Ok(Step::Continue)
        },
        Instruction::Iconst2 => {
            handle_iconst2(frame)?;
            Ok(Step::Continue)
        },
        Instruction::Iconst3 => {
            handle_iconst3(frame)?;
            Ok(Step::Continue)
        },
        Instruction::Iconst4 => {
            handle_iconst4(frame)?;
            Ok(Step::Continue)
        },
        Instruction::Iconst5 => {
            handle_iconst5(frame)?;
            Ok(Step::Continue)
        },
        Instruction::IconstM1 => {
            handle_iconst_m1(frame)?;
            Ok(Step::Continue)
        },
        Instruction::Idiv => {
            handle_idiv(frame)?;
            Ok(Step::Continue)
        },
        Instruction::IfEq(offset) => {
            handle_ifeq(frame, *offset, 3u16)?;
            Ok(Step::Continue)
        },
        Instruction::IfGe(offset) => {
            handle_ifge(frame, *offset, 3u16)?;
            Ok(Step::Continue)
        },
        Instruction::IfGt(offset) => {
            handle_ifgt(frame, *offset, 3u16)?;
            Ok(Step::Continue)
        },
        Instruction::Lcmp => {
            handle_lcmp(frame)?;
            Ok(Step::Continue)
        },
        Instruction::Lconst0 => {
            handle_lconst0(frame)?;
            Ok(Step::Continue)
        },
        Instruction::Lconst1 => {
            handle_lconst1(frame)?;
            Ok(Step::Continue)
        },
        Instruction::Lookupswitch(sw) => {
            handle_lookupswitch(frame, sw)?;
            Ok(Step::Continue)
        },
        Instruction::Ifnull(offset) => {
            handle_ifnull(frame, *offset, 3u16)?;
            Ok(Step::Continue)
        },
        Instruction::IfIcmplt(offset) => {
            handle_ificmplt(frame, *offset, 3u16)?;
            Ok(Step::Continue)
        },
        Instruction::IfLe(offset) => {
            handle_ifle(frame, *offset, 3u16)?;
            Ok(Step::Continue)
        },
        Instruction::IfLt(offset) => {
            handle_iflt(frame, *offset, 3u16)?;
            Ok(Step::Continue)
        },
        Instruction::IfAcmpEq(offset) => {
            handle_ifacmpeq(frame, *offset, 3u16)?;
            Ok(Step::Continue)
        },
        Instruction::IfAcmpNe(offset) => {
            handle_ifacmpne(frame, *offset, 3u16)?;
            Ok(Step::Continue)
        },
        Instruction::IfIcmpne(offset) => {
            handle_ificmpne(frame, *offset, 3u16)?;
            Ok(Step::Continue)
        },
        Instruction::IfIcmpge(offset) => {
            handle_ificmpge(frame, *offset, 3u16)?;
            Ok(Step::Continue)
        },
        Instruction::IfIcmpgt(offset) => {
            handle_ificmpgt(frame, *offset, 3u16)?;
            Ok(Step::Continue)
        },
        Instruction::IfIcmpeq(offset) => {
            handle_ificmpeq(frame, *offset, 3u16)?;
            Ok(Step::Continue)
        },
        Instruction::IfIcmple(offset) => {
            handle_ificmple(frame, *offset, 3u16)?;
            Ok(Step::Continue)
        },
        Instruction::Ifnonnull(offset) => {
            handle_ifnonnull(frame, *offset, 3u16)?;
            Ok(Step::Continue)
        },
        Instruction::IfNe(offset) => {
            handle_ifne(frame, *offset, 3u16)?;
            Ok(Step::Continue)
        },
        Instruction::Iload0 => {
            handle_iload0(frame)?;
            Ok(Step::Continue)
        },
        Instruction::Iload1 => {
            handle_iload1(frame)?;
            Ok(Step::Continue)
        },
        Instruction::Iload2 => {
            handle_iload2(frame)?;
            Ok(Step::Continue)
        },
        Instruction::Iload3 => {
            handle_iload3(frame)?;
            Ok(Step::Continue)
        },
        Instruction::Iload(pos) => {
            handle_iload(frame, *pos)?;
            Ok(Step::Continue)
        },
        Instruction::InvokeVirtual(_) => Ok(Step::Defer),
        Instruction::Instanceof(_) => Ok(Step::Defer),
        Instruction::Fmul => Ok(Step::Defer),
        Instruction::Fdiv => Ok(Step::Defer),
        Instruction::Irem => {
            handle_irem(frame)?;
            Ok(Step::Continue)
        },
        Instruction::Ladd => {
            handle_ladd(frame)?;
            Ok(Step::Continue)
        },
        Instruction::Ldiv => {
            handle_ldiv(frame)?;
            Ok(Step::Continue)
        },
        Instruction::Lmul => {
            handle_lmul(frame)?;
            Ok(Step::Continue)
        },
        Instruction::Lrem => {
            handle_lrem(frame)?;
            Ok(Step::Continue)
        },
        Instruction::Land => {
            handle_land(frame)?;
            Ok(Step::Continue)
        },
        Instruction::Lor => {
            handle_lor(frame)?;
            Ok(Step::Continue)
        },
        Instruction::Lxor => {
            handle_lxor(frame)?;
            Ok(Step::Continue)
        },
        Instruction::Iand => {
            handle_iand(frame)?;
            Ok(Step::Continue)
        },
        Instruction::Ior => {
            handle_ior(frame)?;
            Ok(Step::Continue)
        },
        Instruction::Ixor => {
            handle_ixor(frame)?;
            Ok(Step::Continue)
        },
        Instruction::L2i => {
            handle_l2i(frame)?;
            Ok(Step::Continue)
        },
        Instruction::L2f => Ok(Step::Defer),
        Instruction::D2i => Ok(Step::Defer),
        Instruction::D2l => Ok(Step::Defer),
        Instruction::F2i => Ok(Step::Defer),
        Instruction::F2d => Ok(Step::Defer),
        Instruction::Ineg => {
            handle_ineg(frame)?;
            Ok(Step::Continue)
        },
        Instruction::I2s => {
            handle_i2s(frame)?;
            Ok(Step::Continue)
        },
        Instruction::I2c => {
            handle_i2c(frame)?;
            Ok(Step::Continue)
        },
        Instruction::I2l => {
            handle_i2l(frame)?;
            Ok(Step::Continue)
        },
        Instruction::I2f => Ok(Step::Defer),
        Instruction::I2d => Ok(Step::Defer),
        Instruction::I2b => {
            handle_i2b(frame)?;
            Ok(Step::Continue)
        },
        Instruction::Istore0 => {
            handle_istore0(frame)?;
            Ok(Step::Continue)
        },
        Instruction::Istore1 => {
            handle_istore1(frame)?;
            Ok(Step::Continue)
        },
        Instruction::Istore2 => {
            handle_istore2(frame)?;
            Ok(Step::Continue)
        },
        Instruction::Istore3 => {
            handle_istore3(frame)?;
            Ok(Step::Continue)
        },
        Instruction::Istore(pos) => {
            handle_istore(frame, *pos)?;
            Ok(Step::Continue)
        },
        Instruction::Isub => {
            handle_isub(frame)?;
            Ok(Step::Continue)
        },
        Instruction::Imul => {
            handle_imul(frame)?;
            Ok(Step::Continue)
        },
        Instruction::Iinc(idx, const_val) => {
            handle_iinc(frame, *idx, *const_val)?;
            Ok(Step::Continue)
        },
        Instruction::Ldc(_) => Ok(Step::Defer),
        Instruction::LdcW(_) => Ok(Step::Defer),
        Instruction::Ldc2W(_) => Ok(Step::Defer),
        Instruction::New(_) => Ok(Step::Defer),
        Instruction::Newarray(_) => Ok(Step::Defer),
        Instruction::Pop => {
            handle_pop(frame)?;
            Ok(Step::Continue)
        },
        Instruction::Putfield(_) => Ok(Step::Defer),
        Instruction::Putstatic(_) => Ok(Step::Defer),
        Instruction::InvokeInterface(_, _) => Ok(Step::Defer),
        Instruction::InvokeSpecial(_) => Ok(Step::Defer),
        Instruction::InvokeStatic(_) => Ok(Step::Defer),
        Instruction::InvokeDynamic(_) => Ok(Step::Defer),
        Instruction::Iushr => {
            handle_iushr(frame)?;
            Ok(Step::Continue)
        },
        Instruction::Lload0 => {
            handle_lload0(frame)?;
            Ok(Step::Continue)
        },
        Instruction::Lload1 => {
            handle_lload1(frame)?;
            Ok(Step::Continue)
        },
        Instruction::Lload2 => {
            handle_lload2(frame)?;
            Ok(Step::Continue)
        },
        Instruction::Lload3 => {
            handle_lload3(frame)?;
            Ok(Step::Continue)
        },
        Instruction::Lload(pos) => {
            handle_lload(frame, *pos)?;
            Ok(Step::Continue)
        },
        Instruction::Lshl => {
            handle_lshl(frame)?;
            Ok(Step::Continue)
        },
        Instruction::Lshr => {
            handle_lshr(frame)?;
            Ok(Step::Continue)
        },
        Instruction::Lushr => {
            handle_lushr(frame)?;
            Ok(Step::Continue)
        },
        Instruction::Lstore0 => {
            handle_lstore0(frame)?;
            Ok(Step::Continue)
        },
        Instruction::Lstore1 => {
            handle_lstore1(frame)?;
            Ok(Step::Continue)
        },
        Instruction::Lstore2 => {
            handle_lstore2(frame)?;
            Ok(Step::Continue)
        },
        Instruction::Lstore3 => {
            handle_lstore3(frame)?;
            Ok(Step::Continue)
        },
        Instruction::Lstore(pos) => {
            handle_lstore(frame, *pos)?;
            Ok(Step::Continue)
        },
        Instruction::Lsub => {
            handle_lsub(frame)?;
            Ok(Step::Continue)
        },
        Instruction::Iastore => {
            handle_iastore(frame, heap)?;
            Ok(Step::Continue)
        },
        Instruction::Ishl => {
            handle_ishl(frame)?;
            Ok(Step::Continue)
        },
        Instruction::Ishr => {
            handle_ishr(frame)?;
            Ok(Step::Continue)
        },
        Instruction::Saload => {
            handle_saload(frame, heap)?;
            Ok(Step::Continue)
        },
        Instruction::Sastore => {
            handle_sastore(frame, heap)?;
            Ok(Step::Continue)
        },
        Instruction::Sipush(value) => {
            handle_sipush(frame, *value)?;
            Ok(Step::Continue)
        },
        Instruction::TableSwitch(sw) => {
            handle_tableswitch(frame, sw)?;
            Ok(Step::Continue)
        },
        Instruction::Monitorenter => {
            handle_monitorenter(frame)?;
            Ok(Step::Continue)
        },
        Instruction::Monitorexit => {
            handle_monitorexit(frame)?;
            Ok(Step::Continue)
        },
        Instruction::Return => Ok(Step::Return(None)),
        Instruction::Dreturn => {
            let value = handle_dreturn(frame)?;
            Ok(Step::Return(Some(value)))
        },
        Instruction::Ireturn => {
            let value = handle_ireturn(frame)?;
            Ok(Step::Return(Some(value)))
        },
        Instruction::Areturn => {
            let value = handle_areturn(frame)?;
            Ok(Step::Return(Some(value)))
        },
        Instruction::Lreturn => {
            let value = handle_lreturn(frame)?;
            Ok(Step::Return(Some(value)))
        },
        Instruction::Freturn => {
            let value = handle_freturn(frame)?;
            Ok(Step::Return(Some(value)))
        },
        Instruction::Nop => Err(JvmError::Todo("unsupported instruction".to_string())),
        Instruction::Pop2 => Err(JvmError::Todo("unsupported instruction".to_string())),
        Instruction::Swap => Err(JvmError::Todo("unsupported instruction".to_string())),
        Instruction::DupX2 => Err(JvmError::Todo("unsupported instruction".to_string())),
        Instruction::Dup2X1 => Err(JvmError::Todo("unsupported instruction".to_string())),
        Instruction::Dup2X2 => Err(JvmError::Todo("unsupported instruction".to_string())),
        Instruction::Fadd => Err(JvmError::Todo("unsupported instruction".to_string())),
        Instruction::Fsub => Err(JvmError::Todo("unsupported instruction".to_string())),
        Instruction::Frem => Err(JvmError::Todo("unsupported instruction".to_string())),
        Instruction::Fneg => Err(JvmError::Todo("unsupported instruction".to_string())),
        Instruction::Dsub => Err(JvmError::Todo("unsupported instruction".to_string())),
        Instruction::Drem => Err(JvmError::Todo("unsupported instruction".to_string())),
        Instruction::Dneg => Err(JvmError::Todo("unsupported instruction".to_string())),
        Instruction::Lneg => Err(JvmError::Todo("unsupported instruction".to_string())),
        Instruction::L2d => Err(JvmError::Todo("unsupported instruction".to_string())),
        Instruction::F2l => Err(JvmError::Todo("unsupported instruction".to_string())),
        Instruction::D2f => Err(JvmError::Todo("unsupported instruction".to_string())),
        Instruction::Laload => Err(JvmError::Todo("unsupported instruction".to_string())),
        Instruction::Faload => Err(JvmError::Todo("unsupported instruction".to_string())),
        Instruction::Daload => Err(JvmError::Todo("unsupported instruction".to_string())),
        Instruction::Lastore => Err(JvmError::Todo("unsupported instruction".to_string())),
        Instruction::Fastore => Err(JvmError::Todo("unsupported instruction".to_string())),
        Instruction::Dastore => Err(JvmError::Todo("unsupported instruction".to_string())),
        Instruction::Jsr(_) => Err(JvmError::Todo("unsupported instruction".to_string())),
        Instruction::Ret(_) => Err(JvmError::Todo("unsupported instruction".to_string())),
        Instruction::GotoW(_) => Err(JvmError::Todo("unsupported instruction".to_string())),
        Instruction::JsrW(_) => Err(JvmError::Todo("unsupported instruction".to_string())),
        Instruction::Multianewarray(_, _) => Err(JvmError::Todo("unsupported instruction".to_string())),
    }
}

/// What interpreting instruction `i` does: what its handler does and, when
/// it goes on to the next instruction without branching, the pc moved past it.
pub open spec fn step_post(i: Instruction, f0: FrameState, f1: FrameState, h0: Heap, h1: Heap, r: Result<Step, JvmError>) -> bool {
    if !is_branch_instruction(i) && r == Ok::<Step, JvmError>(Step::Continue) {
        &&& f1.pc == (f0.pc + instruction_size(i)) as usize as int
        &&& handler_post(i, f0, with_pc(f1, f0.pc), h0, h1, r)
    } else {
        handler_post(i, f0, f1, h0, h1, r)
    }
}

/// The bytecode interpreter.
pub struct Interpreter;

/// What judging whether the handler of `entry` catches the exception `exc`
/// may give, on memory `m`, the constant pool entries `es` and the interner
/// `i`: a handler for any exception catches it; otherwise the exception's
/// class (from its header) and the handler's class (from the pool) go to
/// `instance_of`, whose answer is the judgement.
pub open spec fn catch_judgement<F: Fn(ClassId, Symbol) -> bool>(
    m: Seq<u8>,
    es: Seq<RuntimeConstant>,
    i: ThreadedRodeo,
    entry: ExceptionTableEntry,
    exc: HeapRef,
    instance_of: F,
    res: Result<bool, JvmError>,
) -> bool {
    if entry.catch_type == 0 {
        res == Ok::<bool, JvmError>(true)
    } else if !has_header(m, exc as int) {
        res == Err::<bool, JvmError>(JvmError::WrongHeapAddress(exc))
    } else {
        exists|sym: Result<Symbol, JvmError>|
            resolved(class_res(es, entry.catch_type), sym, |k: Symbol, s: Seq<char>| names(i, k, s))
                && #[trigger] exact_fault(class_res(es, entry.catch_type), sym) && match sym {
                Err(e) => res == Err::<bool, JvmError>(e),
                Ok(k) => res matches Ok(b) && instance_of.ensures(
                    (ClassId(header_at(m, exc as int).class_id), k),
                    b,
                ),
            }
    }
}

/// Whether every entry of `table` before position `k` that covers `pc` may
/// have been judged not to catch the exception.
pub open spec fn none_caught_before<F: Fn(ClassId, Symbol) -> bool>(
    m: Seq<u8>,
    es: Seq<RuntimeConstant>,
    i: ThreadedRodeo,
    table: Seq<ExceptionTableEntry>,
    k: int,
    pc: int,
    exc: HeapRef,
    instance_of: F,
) -> bool {
    forall|j: int|
        0 <= j < k && covers(#[trigger] table[j], pc) ==> catch_judgement(
            m,
            es,
            i,
            table[j],
            exc,
            instance_of,
            Ok::<bool, JvmError>(false),
        )
}

/// What searching the exception table `table` for a handler of the
/// exception `exc`, thrown at the pc of the frame `f0`, gives: the first
/// entry that covers the pc and catches the exception has its handler run,
/// the exception pushed; none such leaves the frame as it is.
pub open spec fn handler_search_post<F: Fn(ClassId, Symbol) -> bool>(
    m: Seq<u8>,
    es: Seq<RuntimeConstant>,
    i: ThreadedRodeo,
    table: Seq<ExceptionTableEntry>,
    exc: HeapRef,
    instance_of: F,
    f0: FrameState,
    f1: FrameState,
    r: Result<bool, JvmError>,
) -> bool {
    let pc = f0.pc;
    match r {
        Ok(true) => exists|k: int|
            0 <= k < table.len() && covers(#[trigger] table[k], pc) && none_caught_before(
                m,
                es,
                i,
                table,
                k,
                pc,
                exc,
                instance_of,
            ) && catch_judgement(
                m,
                es,
                i,
                table[k],
                exc,
                instance_of,
                Ok::<bool, JvmError>(true),
            ) && f0.operands.len() < f0.max_stack && f1 == with_pc(
                replace_top(f0, 0, seq![Value::Ref(exc)]),
                table[k].handler_pc as int,
            ),
        Ok(false) => f1 == f0 && none_caught_before(
            m,
            es,
            i,
            table,
            table.len() as int,
            pc,
            exc,
            instance_of,
        ),
        Err(e) => f1 == f0 && exists|k: int|
            0 <= k < table.len() && covers(#[trigger] table[k], pc) && none_caught_before(
                m,
                es,
                i,
                table,
                k,
                pc,
                exc,
                instance_of,
            ) && (catch_judgement(
                m,
                es,
                i,
                table[k],
                exc,
                instance_of,
                Err::<bool, JvmError>(e),
            ) || catch_judgement(
                m,
                es,
                i,
                table[k],
                exc,
                instance_of,
                Ok::<bool, JvmError>(true),
            ) && f0.operands.len() >= f0.max_stack && e is StackOverflow),
    }
}

/// An exception thrown at a pc that the first entry of the exception table
/// covers (from its start, included, to its end, excluded), an entry that
/// catches any exception, is handled there: the search succeeds, the pc
/// moves to the entry's handler and the exception is pushed, given room on
/// the operand stack.
pub proof fn law_first_catch_all_entry_handles<F: Fn(ClassId, Symbol) -> bool>(
    m: Seq<u8>,
    es: Seq<RuntimeConstant>,
    i: ThreadedRodeo,
    table: Seq<ExceptionTableEntry>,
    exc: HeapRef,
    instance_of: F,
    f0: FrameState,
    f1: FrameState,
    r: Result<bool, JvmError>,
)
    requires
        handler_search_post(m, es, i, table, exc, instance_of, f0, f1, r),
        table.len() > 0,
        table[0].catch_type == 0,
        table[0].start_pc <= f0.pc < table[0].end_pc,
        f0.operands.len() < f0.max_stack,
    ensures
        r == Ok::<bool, JvmError>(true),
        f1.pc == table[0].handler_pc,
        f1.operands == f0.operands.push(Value::Ref(exc)),
{
    assert(covers(table[0], f0.pc));
    match r {
        Ok(true) => {
            let k = choose|k: int|
                0 <= k < table.len() && covers(#[trigger] table[k], f0.pc) && none_caught_before(
                    m,
                    es,
                    i,
                    table,
                    k,
                    f0.pc,
                    exc,
                    instance_of,
                ) && catch_judgement(m, es, i, table[k], exc, instance_of, Ok::<bool, JvmError>(true))
                    && f0.operands.len() < f0.max_stack && f1 == with_pc(
                    replace_top(f0, 0, seq![Value::Ref(exc)]),
                    table[k].handler_pc as int,
                );
            if k > 0 {
                assert(covers(table[0], f0.pc));
            }
            assert(k == 0);
            assert(f1.operands =~= f0.operands.push(Value::Ref(exc)));
        },
        Ok(false) => {
            assert(covers(table[0], f0.pc));
        },
        Err(e) => {
            let k = choose|k: int|
                0 <= k < table.len() && covers(#[trigger] table[k], f0.pc) && none_caught_before(
                    m,
                    es,
                    i,
                    table,
                    k,
                    f0.pc,
                    exc,
                    instance_of,
                );
            if k > 0 {
                assert(covers(table[0], f0.pc));
            }
        },
    }
}

impl Interpreter {
    /// Interprets one instruction on the current frame: carries it out and,
    /// unless it branched, returned or was deferred, moves the pc past it.
    pub fn interpret_instruction(frame: &mut JavaFrame, heap: &mut Heap, instruction: Instruction) -> (r: Result<Step, JvmError>)
        requires
            old(heap).wf(),
            instruction_requires(instruction, old(frame)@),
        ensures
            final(heap).wf(),
            step_post(instruction, old(frame)@, final(frame)@, *old(heap), *final(heap), r),
    {
        let is_branch = instruction.is_branch();
        let instr_size = instruction.byte_size();
        let step = execute(frame, heap, &instruction)?;
        match step {
            Step::Continue => {
                if !is_branch {
                    let ghost mid = frame@;
                    frame.increment_pc(instr_size);
                    assert(with_pc(frame@, old(frame)@.pc) == mid);
                }
                Ok(Step::Continue)
            },
            other => Ok(other),
        }
    }

    /// Whether initializing `interface` runs code: it does when the interface
    /// has a class initializer.
    pub fn interface_needs_initialization(interface: &InterfaceClass) -> (r: bool)
        ensures
            r == interface.base@.clinit is Some,
    {
        interface.base.has_clinit()
    }

    /// The class initializer of `class` that initialization runs, with no
    /// arguments, when the class has one.
    pub fn run_clinit_if_exists(class: &BaseClass) -> (r: Option<MethodId>)
        ensures
            r == class@.clinit,
    {
        class.get_clinit_method_id()
    }

    /// Pops the `args_count` arguments of a call, deepest first: for an instance
    /// method, the receiver comes first. Too few operands are refused and leave
    /// the frame as it is.
    pub fn prepare_method_args(frame: &mut JavaFrame, args_count: usize) -> (r: Result<Vec<Value>, JvmError>)
        ensures
            args_count <= old(frame)@.operands.len() ==> {
                &&& r matches Ok(args) && args@ == old(frame)@.operands.subrange(
                    old(frame)@.operands.len() - args_count,
                    old(frame)@.operands.len() as int,
                )
                &&& final(frame)@ == replace_top(old(frame)@, args_count as int, seq![])
            },
            args_count > old(frame)@.operands.len() ==> {
                &&& r matches Err(JvmError::OperandStackIsEmpty)
                &&& final(frame)@ == old(frame)@
            },
    {
        let n = frame.operand_count();
        if args_count > n {
            return Err(JvmError::OperandStackIsEmpty);
        }
        let ghost ops = frame@.operands;
        let mut args: Vec<Value> = Vec::new();
        let mut i: usize = 0;
        while i < args_count
            invariant
                frame@ == old(frame)@,
                ops == frame@.operands,
                n == ops.len(),
                args_count <= n,
                i <= args_count,
                args@ == ops.subrange(n - args_count, n - args_count + i),
            decreases args_count - i,
        {
            let v = match frame.peek(args_count - 1 - i) {
                Ok(v) => v,
                Err(_) => Value::Null,
            };
            args.push(v);
            i = i + 1;
            assert(args@ =~= ops.subrange(n - args_count, n - args_count + i));
        }
        frame.replace_top(args_count, Vec::new());
        assert(Seq::<Value>::empty() =~= seq![]);
        Ok(args)
    }

    /// The key under which the native code of a method with key `key` is
    /// registered: `Object.clone` called on an array is looked up with no
    /// class. For an instance method the receiver `args[0]` must be an
    /// object of the heap.
    pub fn native_method_key(
        heap: &Heap,
        br: &BootstrapRegistry,
        is_static: bool,
        args: &[Value],
        key: FullyQualifiedMethodKey,
    ) -> (r: Result<FullyQualifiedMethodKey, JvmError>)
        requires
            !is_static ==> args@.len() >= 1,
        ensures
            is_static ==> r == Ok::<FullyQualifiedMethodKey, JvmError>(key),
            !is_static ==> match args@[0] {
                Value::Ref(a) => if !has_header(heap@, a as int) {
                    r == Err::<FullyQualifiedMethodKey, JvmError>(JvmError::WrongHeapAddress(a))
                } else if header_at(heap@, a as int).is_array && key.name == br.clone_sym && key.desc == br.clone_desc
                    && key.class == Some(br.java_lang_object_sym) {
                    r == Ok::<FullyQualifiedMethodKey, JvmError>(FullyQualifiedMethodKey { class: None, ..key })
                } else {
                    r == Ok::<FullyQualifiedMethodKey, JvmError>(key)
                },
                Value::Null => r == Err::<FullyQualifiedMethodKey, JvmError>(
                    java_exception(JavaExceptionKind::NullPointerException),
                ),
                _ => r matches Err(JvmError::Todo(s)) && s@ == "Value::as_obj_ref called on non-reference value"@,
            },
    {
        let mut method_key = key;
        if !is_static {
            let receiver = args[0].as_obj_ref()?;
            if heap.is_array(receiver)? && method_key.name == br.clone_sym && method_key.desc == br.clone_desc
                && method_key.class == Some(br.java_lang_object_sym) {
                method_key.class = None;
            }
        }
        Ok(method_key)
    }

    /// Whether the exception table entry covers the code at `pc`.
    pub fn pc_in_range(pc: usize, entry: &ExceptionTableEntry) -> (r: bool)
        ensures
            r == covers(*entry, pc as int),
    {
        pc >= entry.start_pc as usize && pc < entry.end_pc as usize
    }

    /// Whether the handler of `entry` catches the exception `java_exception`:
    /// a handler for any exception does; otherwise `instance_of` says
    /// whether the exception's class is the handler's class, named by the
    /// constant pool `cp`, or a subclass of it.
    pub fn is_exception_caught<F: Fn(ClassId, Symbol) -> bool>(
        heap: &Heap,
        cp: &RuntimeConstantPool,
        interner: &ThreadedRodeo,
        entry: &ExceptionTableEntry,
        java_exception: HeapRef,
        instance_of: &F,
    ) -> (r: Result<bool, JvmError>)
        requires
            forall|c: ClassId, k: Symbol| instance_of.requires((c, k)),
        ensures
            catch_judgement(heap@, cp.entries(), *interner, *entry, java_exception, *instance_of, r),
    {
        let catch_type = entry.catch_type;
        if catch_type == 0 {
            return Ok(true);
        }
        let exception_class_id = heap.get_class_id(java_exception)?;
        let catch_type_sym = cp.get_class_sym(&catch_type, interner);
        match catch_type_sym {
            Ok(k) => {
                let b = instance_of(exception_class_id, k);
                proof {
                    assert(resolved(
                        class_res(cp.entries(), entry.catch_type),
                        catch_type_sym,
                        |k: Symbol, s: Seq<char>| names(*interner, k, s),
                    ));
                }
                Ok(b)
            },
            Err(e) => {
                proof {
                    assert(resolved(
                        class_res(cp.entries(), entry.catch_type),
                        catch_type_sym,
                        |k: Symbol, s: Seq<char>| names(*interner, k, s),
                    ));
                }
                Err(e)
            },
        }
    }

    /// Looks for a handler of the exception `java_exception` at the frame's
    /// pc in the exception table `table`: the first entry covering the pc
    /// that catches it is entered (the exception pushed, the pc moved to the
    /// handler) and `true` returned; `false` when none catches it. A failed
    /// judgement or a full operand stack ends the search with its error and
    /// the frame as it was.
    pub fn find_exception_handler<F: Fn(ClassId, Symbol) -> bool>(
        frame: &mut JavaFrame,
        heap: &Heap,
        cp: &RuntimeConstantPool,
        interner: &ThreadedRodeo,
        table: &[ExceptionTableEntry],
        java_exception: HeapRef,
        instance_of: &F,
    ) -> (r: Result<bool, JvmError>)
        requires
            forall|c: ClassId, k: Symbol| instance_of.requires((c, k)),
        ensures
            handler_search_post(heap@, cp.entries(), *interner, table@, java_exception, *instance_of, old(frame)@, final(frame)@, r),
    {
        let pc = frame.pc();
        let mut k: usize = 0;
        while k < table.len()
            invariant
                k <= table@.len(),
                pc == frame@.pc,
                frame@ == old(frame)@,
                forall|c: ClassId, s: Symbol| instance_of.requires((c, s)),
                none_caught_before(
                    heap@,
                    cp.entries(),
                    *interner,
                    table@,
                    k as int,
                    pc as int,
                    java_exception,
                    *instance_of,
                ),
            decreases table@.len() - k,
        {
            if Self::pc_in_range(pc, &table[k]) {
                let caught = Self::is_exception_caught(heap, cp, interner, &table[k], java_exception, instance_of);
                match caught {
                    Ok(true) => {
                        let pushed = frame.push_operand(Value::Ref(java_exception));
                        match pushed {
                            Ok(()) => {},
                            Err(e) => {
                                assert(covers(table@[k as int], pc as int));
                                return Err(e);
                            },
                        }
                        frame.set_pc(table[k].handler_pc as usize);
                        assert(covers(table@[k as int], pc as int));
                        return Ok(true);
                    },
                    Ok(false) => {},
                    Err(e) => {
                        assert(covers(table@[k as int], pc as int));
                        return Err(e);
                    },
                }
            }
            k = k + 1;
        }
        Ok(false)
    }
}

/// An instruction that fails (`athrow` among them, whose failure is the
/// exception it throws) leaves the heap's memory, the locals and the pc as
/// they were; of the operand stack it may only have popped what it took.
#[verifier::rlimit(100)]
pub proof fn law_failed_instruction_only_pops(
    i: Instruction,
    f0: FrameState,
    f1: FrameState,
    h0: Heap,
    h1: Heap,
    r: Result<Step, JvmError>,
)
    requires
        handler_post(i, f0, f1, h0, h1, r),
        r is Err,
    ensures
        h1@ == h0@,
        f1 == (FrameState { operands: f1.operands, ..f0 }),
        f1.operands.len() <= f0.operands.len(),
        f1.operands == f0.operands.subrange(0, f1.operands.len() as int),
{
    assert forall|ops: Seq<Value>, kinds: Seq<Kind>| #[trigger] operand_fault(ops, kinds) is None implies kinds.len()
        <= ops.len() by {
        crate::handlers::lemma_no_fault_len(ops, kinds);
    }
    assert forall|n: int| 0 <= n <= f0.operands.len() implies (#[trigger] replace_top(f0, n, seq![])).operands
        == f0.operands.subrange(0, f0.operands.len() - n) by {
        assert(replace_top(f0, n, seq![]).operands =~= f0.operands.subrange(0, f0.operands.len() - n));
    }
}

} // verus!
