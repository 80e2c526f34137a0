//! The instructions that need the method area: field and static access,
//! object and array creation, constants, `instanceof` and calls. The caller
//! resolves the instruction's constant pool entry in the method area and
//! hands the answer over as plain values; the step itself is carried out
//! here, and what only the method area can do (storing a static, running a
//! method, loading a class) is handed back as a pending action.
use crate::constant_pool::{invoke_dynamic_res, pool_fault_error, BootstrapMethodEntry, RuntimeConstantPool};
use crate::error::{ExceptionMessage, HeapRef, JavaExceptionFromJvm, JavaExceptionKind, JvmError};
use crate::frame::{operand, operand_fault, replace_top, with_pc, FrameState, JavaFrame, Kind};
use crate::handlers::{
    getfield_post, handle_anewarray, handle_getfield, handle_instanceof, handle_ldc_ldcw_ldc2w, handle_new,
    handle_newarray, handle_pop, handle_putfield, instanceof_post, ldc_loadable, ldc_post, new_array_post, new_post,
    op_post, push_post, putfield_post,
};
use crate::heap::{array_allocation_type, AllocationType, Heap};
use crate::instruction::{instruction_size, Instruction};
use crate::interpreter::{instruction_requires, step_post, Interpreter, Step};
use crate::keys::{ClassId, MethodKey, Symbol};
use crate::natives::{FullyQualifiedMethodKey, NativeMethod, NativeRegistry};
use crate::value::Value;
use vstd::prelude::*;

verus! {

/// What the method area answers for an instruction, resolved by the caller
/// from the instruction's constant pool entry.
#[derive(Clone, Copy)]
pub enum AreaAnswer {
    /// `getfield`, `putfield`: where the field lies in its object, and its type.
    Field { offset: usize, field_type: AllocationType },
    /// `getstatic`: the value of the static field (its class initialized).
    StaticValue(Value),
    /// `new`: the class (loaded and initialized) and its instances' data size.
    Instance { class_id: ClassId, instance_size: usize },
    /// `newarray`, `anewarray`: the array class.
    ArrayClass(ClassId),
    /// The invocations: how many operand slots the arguments take.
    ArgsCount(usize),
    /// Every other instruction needs nothing of the method area.
    Nothing,
}

/// How interpretation goes on after an instruction that may need the
/// method area.
pub enum AreaStep {
    /// On with the next instruction; the pc has moved past this one.
    Continue,
    /// The method returns, with a value or without.
    Return(Option<Value>),
    /// Floating point, which the caller carries out; nothing was changed.
    Defer,
    /// `putstatic`: the value was popped; the caller stores it, then
    /// completes the instruction.
    StoreStatic(Value),
    /// An invocation: the arguments were popped, deepest first; the caller
    /// runs the method, then completes the instruction with its result.
    Invoke(Vec<Value>),
    /// `ldc` of a class constant: the caller loads the class named by the
    /// symbol, then completes the instruction with its mirror.
    LoadClass(Symbol),
}

/// Whether `answer` is of the kind that instruction `i` needs.
pub open spec fn answer_fits(i: Instruction, answer: AreaAnswer) -> bool {
    match i {
        Instruction::Getfield(_) | Instruction::Putfield(_) => answer is Field,
        Instruction::Getstatic(_) => answer is StaticValue,
        Instruction::New(_) => answer is Instance,
        Instruction::Newarray(_) | Instruction::Anewarray(_) => answer is ArrayClass,
        Instruction::InvokeVirtual(_) | Instruction::InvokeInterface(_, _) | Instruction::InvokeSpecial(_)
        | Instruction::InvokeStatic(_) => answer is ArgsCount,
        _ => true,
    }
}

/// Whether `i` is one of the instructions carried out here with the
/// method area's answer.
pub open spec fn needs_method_area(i: Instruction) -> bool {
    match i {
        Instruction::Getfield(_) | Instruction::Putfield(_) | Instruction::Getstatic(_) | Instruction::Putstatic(_)
        | Instruction::New(_) | Instruction::Newarray(_) | Instruction::Anewarray(_) | Instruction::Instanceof(_)
        | Instruction::Ldc(_) | Instruction::LdcW(_) | Instruction::Ldc2W(_) | Instruction::InvokeVirtual(_)
        | Instruction::InvokeInterface(_, _) | Instruction::InvokeSpecial(_) | Instruction::InvokeStatic(_) => true,
        _ => false,
    }
}

/// The constant pool index of an `ldc`.
pub open spec fn ldc_index(i: Instruction) -> u16 {
    match i {
        Instruction::Ldc(x) | Instruction::LdcW(x) | Instruction::Ldc2W(x) => x,
        _ => 0,
    }
}

/// The constant pool index of an `invokedynamic`.
pub open spec fn call_site_index(i: Instruction) -> u16 {
    match i {
        Instruction::InvokeDynamic(x) => x,
        _ => 0,
    }
}

/// What an instruction asks of its operands: those that need the method
/// area an `ldc` constant that can be loaded; an `invokedynamic` a call site
/// that does not resolve (one that does is not carried out); the others
/// what `instruction_requires` asks.
pub open spec fn area_requires(
    i: Instruction,
    es: Seq<crate::constant_pool::RuntimeConstant>,
    bs: Seq<BootstrapMethodEntry>,
    f0: FrameState,
) -> bool {
    if i is InvokeDynamic {
        invoke_dynamic_res(es, bs, call_site_index(i)) is Err
    } else if needs_method_area(i) {
        (i is Ldc || i is LdcW || i is Ldc2W) ==> ldc_loadable(es, ldc_index(i))
    } else {
        instruction_requires(i, f0)
    }
}

/// `r` without the value of its success.
pub open spec fn done<T>(r: Result<T, JvmError>) -> Result<(), JvmError> {
    match r {
        Ok(_) => Ok(()),
        Err(e) => Err(e),
    }
}

/// The frame `f1` of an instruction `i` that completed when `completed`:
/// its pc moved past `i`, and before that move it is one that `post` accepts;
/// otherwise `f1` itself is.
pub open spec fn after(i: Instruction, f0: FrameState, f1: FrameState, completed: bool, post: spec_fn(FrameState) -> bool) -> bool {
    if completed {
        f1.pc == (f0.pc + instruction_size(i)) as usize as int && post(with_pc(f1, f0.pc))
    } else {
        post(f1)
    }
}

/// The result of an `ldc` that gave `r`: `None` when it completed, the
/// class's name when it left loading the class to the caller.
pub open spec fn ldc_result(r: Result<AreaStep, JvmError>) -> Result<Option<Symbol>, JvmError> {
    match r {
        Ok(AreaStep::LoadClass(k)) => Ok(Some(k)),
        Ok(_) => Ok(None),
        Err(e) => Err(e),
    }
}

/// The arguments an invocation handed back.
pub open spec fn invoke_args(r: Result<AreaStep, JvmError>) -> Result<Vec<Value>, JvmError> {
    match r {
        Ok(AreaStep::Invoke(args)) => Ok(args),
        Ok(_) => Err(JvmError::Uninitialized),
        Err(e) => Err(e),
    }
}

/// The frame `f1` before its pc moved, when it moved.
pub open spec fn before_move(f0: FrameState, f1: FrameState, moved: bool) -> FrameState {
    if moved { with_pc(f1, f0.pc) } else { f1 }
}

/// The plain step of an `AreaStep` that is one.
pub open spec fn plain_step(r: Result<AreaStep, JvmError>) -> Result<Step, JvmError> {
    match r {
        Ok(AreaStep::Continue) => Ok(Step::Continue),
        Ok(AreaStep::Return(v)) => Ok(Step::Return(v)),
        Ok(AreaStep::Defer) => Ok(Step::Defer),
        Ok(_) => Ok(Step::Defer),
        Err(e) => Err(e),
    }
}

/// What an instruction `i`, with the method area's answer `answer`, does to
/// the frame `f0` and the heap `h0`, giving `f1`, `h1` and `r`. The
/// instructions that need the method area do what their handlers do, with
/// the answer, and move the pc past the instruction when they complete;
/// those whose rest is the method area's (`putstatic`, the invocations, the
/// `ldc` of a class) hand it back without moving the pc. Every other
/// instruction is interpreted as `interpret_instruction` does.
pub open spec fn area_step_post<F: Fn(ClassId, Symbol) -> bool>(
    i: Instruction,
    answer: AreaAnswer,
    es: Seq<crate::constant_pool::RuntimeConstant>,
    bs: Seq<BootstrapMethodEntry>,
    instance_of: F,
    f0: FrameState,
    f1: FrameState,
    h0: Heap,
    h1: Heap,
    r: Result<AreaStep, JvmError>,
) -> bool {
    let completed = r matches Ok(AreaStep::Continue);
    let m0 = h0@;
    match i {
        Instruction::InvokeDynamic(idx) => {
            &&& h1 == h0
            &&& f1 == f0
            &&& r matches Err(e) && (pool_fault_error(invoke_dynamic_res(es, bs, idx)->Err_0, e) || e is OutOfMemory)
        },
        Instruction::Getfield(_) => match answer {
            AreaAnswer::Field { offset, field_type } => {
                &&& h1 == h0
                &&& r is Ok ==> completed
                &&& after(i, f0, f1, completed, |f: FrameState| getfield_post(f0, f, m0, offset, field_type, done(r)))
            },
            _ => false,
        },
        Instruction::Putfield(_) => match answer {
            AreaAnswer::Field { offset, field_type } => {
                &&& h1.wf() && h1.same_setup(&h0) && h1.string_pool() == h0.string_pool()
                &&& r is Ok ==> completed
                &&& after(
                    i,
                    f0,
                    f1,
                    completed,
                    |f: FrameState| putfield_post(f0, f, m0, h1@, offset, field_type, done(r)),
                )
            },
            _ => false,
        },
        Instruction::Getstatic(_) => match answer {
            AreaAnswer::StaticValue(v) => {
                &&& h1 == h0
                &&& r is Ok ==> completed
                &&& after(i, f0, f1, completed, |f: FrameState| push_post(f0, f, v, done(r), ()))
            },
            _ => false,
        },
        Instruction::Putstatic(_) => {
            &&& h1 == h0
            &&& op_post(f0, f1, done(r), seq![Kind::Any], seq![])
            &&& r is Ok ==> r == Ok::<AreaStep, JvmError>(AreaStep::StoreStatic(operand(f0, 0)))
        },
        Instruction::New(_) => match answer {
            AreaAnswer::Instance { class_id, instance_size } => {
                &&& h1.wf() && h1.same_setup(&h0) && h1.string_pool() == h0.string_pool()
                &&& r is Ok ==> completed
                &&& after(
                    i,
                    f0,
                    f1,
                    completed,
                    |f: FrameState| new_post(f0, f, m0, h1@, h0.capacity() as int, class_id, instance_size, done(r)),
                )
            },
            _ => false,
        },
        Instruction::Newarray(t) => match answer {
            AreaAnswer::ArrayClass(c) => {
                &&& h1.wf() && h1.same_setup(&h0) && h1.string_pool() == h0.string_pool()
                &&& r is Ok ==> completed
                &&& after(
                    i,
                    f0,
                    f1,
                    completed,
                    |f: FrameState| new_array_post(f0, f, done(r), &h0, &h1, c, array_allocation_type(t)),
                )
            },
            _ => false,
        },
        Instruction::Anewarray(_) => match answer {
            AreaAnswer::ArrayClass(c) => {
                &&& h1.wf() && h1.same_setup(&h0) && h1.string_pool() == h0.string_pool()
                &&& r is Ok ==> completed
                &&& after(
                    i,
                    f0,
                    f1,
                    completed,
                    |f: FrameState| new_array_post(f0, f, done(r), &h0, &h1, c, AllocationType::Reference),
                )
            },
            _ => false,
        },
        Instruction::Instanceof(idx) => {
            &&& h1 == h0
            &&& r is Ok ==> completed
            &&& after(
                i,
                f0,
                f1,
                completed,
                |f: FrameState| instanceof_post(f0, f, m0, es, h0.interner(), idx, instance_of, done(r)),
            )
        },
        Instruction::Ldc(_) | Instruction::LdcW(_) | Instruction::Ldc2W(_) => {
            &&& h1.wf()
            &&& (r is Ok ==> completed || r is Ok && r->Ok_0 is LoadClass)
            &&& ldc_post(f0, before_move(f0, f1, completed), h0, h1, es, ldc_index(i), ldc_result(r))
            &&& completed ==> f1.pc == (f0.pc + instruction_size(i)) as usize as int
        },
        Instruction::InvokeVirtual(_) | Instruction::InvokeInterface(_, _) | Instruction::InvokeSpecial(_)
        | Instruction::InvokeStatic(_) => match answer {
            AreaAnswer::ArgsCount(n) => {
                &&& h1 == h0
                &&& call_args_post(f0, f1, n, invoke_args(r))
            },
            _ => false,
        },
        _ => {
            &&& !(r matches Ok(AreaStep::StoreStatic(_)) || r matches Ok(AreaStep::Invoke(_)) || r matches Ok(
                AreaStep::LoadClass(_),
            ))
            &&& h1.wf()
            &&& step_post(i, f0, f1, h0, h1, plain_step(r))
        },
    }
}

/// What popping the `n` argument slots of a call does to the frame `f0`:
/// they are handed out deepest first and popped; too few operands are
/// refused, the frame as it was.
pub open spec fn call_args_post(f0: FrameState, f1: FrameState, n: usize, r: Result<Vec<Value>, JvmError>) -> bool {
    if n <= f0.operands.len() {
        &&& r matches Ok(args) && args@ == f0.operands.subrange(f0.operands.len() - n, f0.operands.len() as int)
        &&& f1 == replace_top(f0, n as int, seq![])
    } else {
        r == Err::<Vec<Value>, JvmError>(JvmError::OperandStackIsEmpty) && f1 == f0
    }
}

/// `getstatic`: pushes `value`, the static field's value that the method
/// area gave (its class initialized).
pub fn handle_getstatic(frame: &mut JavaFrame, value: Value) -> (r: Result<(), JvmError>)
    ensures
        push_post(old(frame)@, final(frame)@, value, r, ()),
{
    let r = frame.push_operand(value);
    proof {
        if r is Ok {
            assert(r->Ok_0 == ());
        }
    }
    r
}

/// `putstatic`: pops the value for the method area to store in the field.
pub fn handle_putstatic(frame: &mut JavaFrame) -> (r: Result<Value, JvmError>)
    ensures
        op_post(old(frame)@, final(frame)@, done(r), seq![Kind::Any], seq![]),
        r is Ok ==> r == Ok::<Value, JvmError>(operand(old(frame)@, 0)),
{
    let top = frame.peek(0);
    let popped = handle_pop(frame);
    match (popped, top) {
        (Ok(()), Ok(v)) => Ok(v),
        (Err(e), _) => Err(e),
        (_, Err(e)) => Err(e),
    }
}

/// `invokevirtual`: pops the `args_count` argument slots, the receiver
/// first, for the method area to run the method the receiver's class picks.
pub fn handle_invokevirtual(frame: &mut JavaFrame, args_count: usize) -> (r: Result<Vec<Value>, JvmError>)
    ensures
        call_args_post(old(frame)@, final(frame)@, args_count, r),
{
    Interpreter::prepare_method_args(frame, args_count)
}

/// `invokespecial`: pops the `args_count` argument slots, the receiver
/// first, for the method area to run the method named.
pub fn handle_invokespecial(frame: &mut JavaFrame, args_count: usize) -> (r: Result<Vec<Value>, JvmError>)
    ensures
        call_args_post(old(frame)@, final(frame)@, args_count, r),
{
    Interpreter::prepare_method_args(frame, args_count)
}

/// `invokestatic`: pops the `args_count` argument slots for the method area
/// to run the static method named (its class initialized).
pub fn handle_invokestatic(frame: &mut JavaFrame, args_count: usize) -> (r: Result<Vec<Value>, JvmError>)
    ensures
        call_args_post(old(frame)@, final(frame)@, args_count, r),
{
    Interpreter::prepare_method_args(frame, args_count)
}

/// `invokeinterface`: pops the `args_count` argument slots, the receiver
/// first, for the method area to run the method the receiver's class picks.
pub fn handle_invokeinterface(frame: &mut JavaFrame, args_count: usize) -> (r: Result<Vec<Value>, JvmError>)
    ensures
        call_args_post(old(frame)@, final(frame)@, args_count, r),
{
    Interpreter::prepare_method_args(frame, args_count)
}

/// Whether `i` creates an array and the size on top of the stack `f` is
/// negative.
pub open spec fn negative_array_size(i: Instruction, f: FrameState) -> bool {
    &&& i is Newarray || i is Anewarray
    &&& f.operands.len() > 0
    &&& operand(f, 0) matches Value::Integer(n) && n < 0
}

/// Whether `instruction` needs the method area's answer before it runs:
/// `newarray` and `anewarray` do not when the size on top of the stack is
/// negative, which is refused before the array class is loaded.
pub fn needs_answer(frame: &JavaFrame, instruction: &Instruction) -> (r: bool)
    ensures
        r == !negative_array_size(*instruction, frame@),
{
    match instruction {
        Instruction::Newarray(_) | Instruction::Anewarray(_) => match frame.peek(0) {
            Ok(Value::Integer(n)) => n >= 0,
            _ => true,
        },
        _ => true,
    }
}

/// What becomes of an error raised while interpreting a method.
pub enum RaisedError {
    /// A Java exception the runtime raised, to be created on the heap and
    /// then looked up in the exception table.
    Materialize(JavaExceptionFromJvm),
    /// A Java exception object thrown by the code, to be looked up in the
    /// exception table.
    Thrown(HeapRef),
    /// Any other error, which leaves the method.
    Fatal(JvmError),
}

/// Sorts an error raised while interpreting a method: Java exceptions are
/// handed to the exception table, other errors leave the method.
pub fn classify_error(e: JvmError) -> (r: RaisedError)
    ensures
        match e {
            JvmError::JavaException(ex) => r == RaisedError::Materialize(ex),
            JvmError::JavaExceptionThrown(h) => r == RaisedError::Thrown(h),
            other => r == RaisedError::Fatal(other),
        },
{
    match e {
        JvmError::JavaException(ex) => RaisedError::Materialize(ex),
        JvmError::JavaExceptionThrown(h) => RaisedError::Thrown(h),
        other => RaisedError::Fatal(other),
    }
}

/// The native registered under `key`, or `UnsatisfiedLinkError` naming the
/// method when there is none; `class_sym` names the class when the key has
/// none.
pub fn native_or_link_error(registry: &NativeRegistry, key: FullyQualifiedMethodKey, class_sym: Symbol) -> (r: Result<
    NativeMethod,
    JvmError,
>)
    ensures
        registry.natives().contains_key(key) ==> r == Ok::<NativeMethod, JvmError>(registry.natives()[key]),
        !registry.natives().contains_key(key) ==> r == Err::<NativeMethod, JvmError>(
            JvmError::JavaException(
                JavaExceptionFromJvm {
                    kind: JavaExceptionKind::UnsatisfiedLinkError,
                    message: Some(
                        ExceptionMessage::MethodNotFound(
                            MethodKey { name: key.name, desc: key.desc },
                            match key.class {
                                Some(c) => c,
                                None => class_sym,
                            },
                        ),
                    ),
                    cause: None,
                },
            ),
        ),
{
    match registry.get(&key) {
        Some(native) => Ok(native),
        None => {
            let class = match key.class {
                Some(c) => c,
                None => class_sym,
            };
            Err(
                JvmError::JavaException(
                    JavaExceptionFromJvm::with_method_not_found(
                        JavaExceptionKind::UnsatisfiedLinkError,
                        MethodKey { name: key.name, desc: key.desc },
                        class,
                    ),
                ),
            )
        },
    }
}

impl Interpreter {
    /// Interprets one instruction on the current frame, with the method
    /// area's answer for it: carries it out and, unless it branched,
    /// returned, was deferred or left its rest to the method area, moves the
    /// pc past it. `instance_of` tells whether a class is the class with a
    /// given name or a subclass of it.
    #[verifier::rlimit(50)]
    pub fn interpret_with_method_area<F: Fn(ClassId, Symbol) -> bool>(
        frame: &mut JavaFrame,
        heap: &mut Heap,
        cp: &RuntimeConstantPool,
        instruction: Instruction,
        answer: AreaAnswer,
        instance_of: &F,
    ) -> (r: Result<AreaStep, JvmError>)
        requires
            old(heap).wf(),
            old(heap).string_size() >= 9,
            answer_fits(instruction, answer),
            area_requires(instruction, cp.entries(), cp.bootstrap(), old(frame)@),
            forall|c: ClassId, k: Symbol| instance_of.requires((c, k)),
        ensures
            final(heap).wf(),
            area_step_post(
                instruction,
                answer,
                cp.entries(),
                cp.bootstrap(),
                *instance_of,
                old(frame)@,
                final(frame)@,
                *old(heap),
                *final(heap),
                r,
            ),
    {
        let size = instruction.byte_size();
        let ghost f0 = frame@;
        let done: Result<(), JvmError> = match instruction {
            Instruction::Getfield(_) => match answer {
                AreaAnswer::Field { offset, field_type } => handle_getfield(frame, heap, offset, field_type),
                _ => {
                    // ruled out by `answer_fits`
                    proof {
                        assert(false);
                    }
                    Err(JvmError::Uninitialized)
                },
            },
            Instruction::Putfield(_) => match answer {
                AreaAnswer::Field { offset, field_type } => handle_putfield(frame, heap, offset, field_type),
                _ => {
                    // ruled out by `answer_fits`
                    proof {
                        assert(false);
                    }
                    Err(JvmError::Uninitialized)
                },
            },
            Instruction::Getstatic(_) => match answer {
                AreaAnswer::StaticValue(v) => handle_getstatic(frame, v),
                _ => {
                    // ruled out by `answer_fits`
                    proof {
                        assert(false);
                    }
                    Err(JvmError::Uninitialized)
                },
            },
            Instruction::Putstatic(_) => {
                return match handle_putstatic(frame) {
                    Ok(v) => Ok(AreaStep::StoreStatic(v)),
                    Err(e) => Err(e),
                };
            },
            Instruction::New(_) => match answer {
                AreaAnswer::Instance { class_id, instance_size } => handle_new(frame, heap, class_id, instance_size),
                _ => {
                    // ruled out by `answer_fits`
                    proof {
                        assert(false);
                    }
                    Err(JvmError::Uninitialized)
                },
            },
            Instruction::Newarray(t) => match answer {
                AreaAnswer::ArrayClass(c) => handle_newarray(frame, heap, c, t),
                _ => {
                    // ruled out by `answer_fits`
                    proof {
                        assert(false);
                    }
                    Err(JvmError::Uninitialized)
                },
            },
            Instruction::Anewarray(_) => match answer {
                AreaAnswer::ArrayClass(c) => handle_anewarray(frame, heap, c),
                _ => {
                    // ruled out by `answer_fits`
                    proof {
                        assert(false);
                    }
                    Err(JvmError::Uninitialized)
                },
            },
            Instruction::InvokeDynamic(idx) => {
                // The call site is resolved, and its fault reported; one that
                // resolves is ruled out by `area_requires`.
                return match cp.get_invoke_dynamic_view(&idx, heap.string_interner()) {
                    Err(e) => Err(e),
                    Ok(_) => {
                        proof {
                            assert(false);
                        }
                        Err(JvmError::Uninitialized)
                    },
                };
            },
            Instruction::Instanceof(idx) => handle_instanceof(frame, heap, cp, heap.string_interner(), idx, instance_of),
            Instruction::Ldc(idx) | Instruction::LdcW(idx) | Instruction::Ldc2W(idx) => {
                let ghost h0 = *old(heap);
                let lr = handle_ldc_ldcw_ldc2w(frame, heap, cp, idx);
                let ghost mid = frame@;
                assert(ldc_index(instruction) == idx);
                return match lr {
                    Ok(None) => {
                        frame.increment_pc(size);
                        assert(before_move(f0, frame@, true) == mid);
                        assert(ldc_post(f0, before_move(f0, frame@, true), h0, *heap, cp.entries(), idx, lr));
                        Ok(AreaStep::Continue)
                    },
                    Ok(Some(k)) => {
                        assert(ldc_post(f0, before_move(f0, frame@, false), h0, *heap, cp.entries(), idx, lr));
                        Ok(AreaStep::LoadClass(k))
                    },
                    Err(e) => {
                        assert(ldc_post(f0, before_move(f0, frame@, false), h0, *heap, cp.entries(), idx, lr));
                        Err(e)
                    },
                };
            },
            Instruction::InvokeVirtual(_) | Instruction::InvokeInterface(_, _) | Instruction::InvokeSpecial(_)
            | Instruction::InvokeStatic(_) => {
                let n = match answer {
                    AreaAnswer::ArgsCount(n) => n,
                    _ => {
                        // ruled out by `answer_fits`
                        proof {
                            assert(false);
                        }
                        0
                    },
                };
                let args = match instruction {
                    Instruction::InvokeVirtual(_) => handle_invokevirtual(frame, n),
                    Instruction::InvokeInterface(_, _) => handle_invokeinterface(frame, n),
                    Instruction::InvokeSpecial(_) => handle_invokespecial(frame, n),
                    _ => handle_invokestatic(frame, n),
                };
                return match args {
                    Ok(args) => Ok(AreaStep::Invoke(args)),
                    Err(e) => Err(e),
                };
            },
            _ => {
                let step = Interpreter::interpret_instruction(frame, heap, instruction);
                return match step {
                    Ok(Step::Continue) => Ok(AreaStep::Continue),
                    Ok(Step::Return(v)) => Ok(AreaStep::Return(v)),
                    Ok(Step::Defer) => Ok(AreaStep::Defer),
                    Err(e) => Err(e),
                };
            },
        };
        match done {
            Ok(()) => {
                let ghost mid = frame@;
                frame.increment_pc(size);
                assert(with_pc(frame@, f0.pc) == mid);
                Ok(AreaStep::Continue)
            },
            Err(e) => Err(e),
        }
    }

    /// Completes an instruction that left its rest to the method area
    /// (`putstatic`, an invocation, the `ldc` of a class): pushes `result`
    /// when there is one (the method's value, the class's mirror) and moves
    /// the pc past the instruction.
    pub fn complete_instruction(frame: &mut JavaFrame, instruction: Instruction, result: Option<Value>) -> (r: Result<(), JvmError>)
        ensures
            match result {
                None => r is Ok && final(frame)@ == with_pc(old(frame)@, (old(frame)@.pc + instruction_size(instruction)) as usize as int),
                Some(v) => if old(frame)@.operands.len() < old(frame)@.max_stack {
                    r is Ok && final(frame)@ == with_pc(
                        replace_top(old(frame)@, 0, seq![v]),
                        (old(frame)@.pc + instruction_size(instruction)) as usize as int,
                    )
                } else {
                    (r matches Err(JvmError::StackOverflow)) && final(frame)@ == old(frame)@
                },
            },
    {
        if let Some(v) = result {
            frame.push_operand(v)?;
        }
        frame.increment_pc(instruction.byte_size());
        Ok(())
    }
}

} // verus!
