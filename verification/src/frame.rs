//! The frame of a Java method invocation: program counter, local variables
//! and operand stack.
use crate::error::{java_exception, HeapRef, JavaExceptionFromJvm, JavaExceptionKind, JvmError};
use crate::keys::MethodId;
use crate::value::Value;
use vstd::prelude::*;

verus! {

/// What a frame holds, as seen by specifications.
pub struct FrameState {
    pub method_id: MethodId,
    pub pc: int,
    pub max_stack: int,
    pub locals: Seq<Option<Value>>,
    pub operands: Seq<Value>,
}

/// The kind of value an instruction expects on the operand stack.
#[derive(Clone, Copy, PartialEq, Eq, Structural)]
pub enum Kind {
    Int,
    Long,
    Float,
    Double,
    /// A non-null reference.
    Ref,
    /// A reference or `null`.
    NullableRef,
    Any,
}

/// Why the operand stack does not hold what an instruction expects.
pub enum StackFault {
    Empty,
    WrongType,
    NullRef,
}

/// What is wrong with `v` as a value of kind `k`, if anything.
pub open spec fn kind_fault(v: Value, k: Kind) -> Option<StackFault> {
    match k {
        Kind::Int => if v is Integer { None } else { Some(StackFault::WrongType) },
        Kind::Long => if v is Long { None } else { Some(StackFault::WrongType) },
        Kind::Float => if v is Float { None } else { Some(StackFault::WrongType) },
        Kind::Double => if v is Double { None } else { Some(StackFault::WrongType) },
        Kind::Ref => if v is Ref { None } else if v is Null { Some(StackFault::NullRef) } else { Some(StackFault::WrongType) },
        Kind::NullableRef => if v is Ref || v is Null { None } else { Some(StackFault::WrongType) },
        Kind::Any => None,
    }
}

/// The first fault found when checking the operands from the top of the
/// stack down against `kinds`, `kinds[0]` being the expected top.
pub open spec fn operand_fault(ops: Seq<Value>, kinds: Seq<Kind>) -> Option<StackFault>
    decreases kinds.len(),
{
    if kinds.len() == 0 {
        None
    } else if ops.len() == 0 {
        Some(StackFault::Empty)
    } else {
        match kind_fault(ops.last(), kinds[0]) {
            Some(f) => Some(f),
            None => operand_fault(ops.drop_last(), kinds.drop_first()),
        }
    }
}

/// `e` is the error that reports `f`.
pub open spec fn fault_error(f: StackFault, e: JvmError) -> bool {
    match f {
        StackFault::Empty => e is OperandStackIsEmpty,
        StackFault::WrongType => e is UnexpectedType,
        StackFault::NullRef => e == java_exception(JavaExceptionKind::NullPointerException),
    }
}

/// The operand `depth` places below the top.
pub open spec fn operand(s: FrameState, depth: int) -> Value {
    s.operands[s.operands.len() - 1 - depth]
}

/// The `int` in an operand known to be one.
pub open spec fn int_of(v: Value) -> i32 {
    match v {
        Value::Integer(i) => i,
        _ => 0,
    }
}

/// The `long` in an operand known to be one.
pub open spec fn long_of(v: Value) -> i64 {
    match v {
        Value::Long(l) => l,
        _ => 0,
    }
}

/// The bits of the `float` in an operand known to be one.
pub open spec fn float_of(v: Value) -> u32 {
    match v {
        Value::Float(f) => f,
        _ => 0,
    }
}

/// The bits of the `double` in an operand known to be one.
pub open spec fn double_of(v: Value) -> u64 {
    match v {
        Value::Double(d) => d,
        _ => 0,
    }
}

/// The address in an operand known to be a reference.
pub open spec fn ref_of(v: Value) -> HeapRef {
    match v {
        Value::Ref(r) => r,
        _ => 0,
    }
}

/// `s` with `n` operands popped and `pushed` pushed.
pub open spec fn replace_top(s: FrameState, n: int, pushed: Seq<Value>) -> FrameState {
    FrameState { operands: s.operands.subrange(0, s.operands.len() - n) + pushed, ..s }
}

/// `s` with its program counter set to `pc`.
pub open spec fn with_pc(s: FrameState, pc: int) -> FrameState {
    FrameState { pc, ..s }
}

/// The frame of one invocation of a Java method.
pub struct JavaFrame {
    method_id: MethodId,
    pc: usize,
    max_stack: usize,
    locals: Vec<Option<Value>>,
    operands: Vec<Value>,
}

impl View for JavaFrame {
    type V = FrameState;

    closed spec fn view(&self) -> FrameState {
        FrameState {
            method_id: self.method_id,
            pc: self.pc as int,
            max_stack: self.max_stack as int,
            locals: self.locals@,
            operands: self.operands@,
        }
    }
}

/// `locals` with the arguments first and uninitialised slots up to `max_locals`.
pub open spec fn initial_locals(args: Seq<Value>, max_locals: int) -> Seq<Option<Value>> {
    Seq::new(
        if args.len() > max_locals { args.len() } else { max_locals as nat },
        |i: int| if i < args.len() { Some(args[i]) } else { None },
    )
}

impl JavaFrame {
    /// The frame of a fresh invocation of `method_id`: the arguments in the
    /// first local variables, an empty operand stack, the program counter at 0.
    pub fn new(method_id: MethodId, max_stack: u16, max_locals: u16, args: Vec<Value>) -> (r: JavaFrame)
        ensures
            r@ == (FrameState {
                method_id,
                pc: 0,
                max_stack: max_stack as int,
                locals: initial_locals(args@, max_locals as int),
                operands: Seq::empty(),
            }),
    {
        let n = if args.len() > max_locals as usize { args.len() } else { max_locals as usize };
        let mut locals: Vec<Option<Value>> = Vec::new();
        let mut i: usize = 0;
        while i < n
            invariant
                i <= n,
                n == (if args@.len() > max_locals { args@.len() } else { max_locals as nat }),
                locals@ == initial_locals(args@, max_locals as int).subrange(0, i as int),
            decreases n - i,
        {
            if i < args.len() {
                locals.push(Some(args[i]));
            } else {
                locals.push(None);
            }
            i = i + 1;
            assert(locals@ =~= initial_locals(args@, max_locals as int).subrange(0, i as int));
        }
        assert(locals@ =~= initial_locals(args@, max_locals as int));
        JavaFrame { method_id, pc: 0, max_stack: max_stack as usize, locals, operands: Vec::new() }
    }

    /// The method this frame runs.
    pub fn method_id(&self) -> (r: MethodId)
        ensures
            r == self@.method_id,
    {
        self.method_id
    }

    /// The program counter.
    pub fn pc(&self) -> (r: usize)
        ensures
            r == self@.pc,
    {
        self.pc
    }

    /// Sets the program counter.
    pub fn set_pc(&mut self, pc: usize)
        ensures
            final(self)@ == with_pc(old(self)@, pc as int),
    {
        self.pc = pc;
    }

    /// Moves the program counter past an instruction of `size` bytes.
    pub fn increment_pc(&mut self, size: u16)
        ensures
            final(self)@ == with_pc(old(self)@, (old(self)@.pc + size) as usize as int),
    {
        self.pc = (self.pc as u128 + size as u128) as usize;
    }

    /// Number of local variable slots.
    pub fn local_count(&self) -> (r: usize)
        ensures
            r == self@.locals.len(),
    {
        self.locals.len()
    }

    /// Number of operands on the stack.
    pub fn operand_count(&self) -> (r: usize)
        ensures
            r == self@.operands.len(),
    {
        self.operands.len()
    }

    /// The most operands the stack may hold.
    pub fn max_stack(&self) -> (r: usize)
        ensures
            r == self@.max_stack,
    {
        self.max_stack
    }

    /// The operand `depth` places below the top.
    pub fn peek(&self, depth: usize) -> (r: Result<Value, JvmError>)
        ensures
            depth < self@.operands.len() ==> r == Ok::<Value, JvmError>(operand(self@, depth as int)),
            depth >= self@.operands.len() ==> r matches Err(JvmError::OperandStackIsEmpty),
    {
        let n = self.operands.len();
        if depth >= n {
            return Err(JvmError::OperandStackIsEmpty);
        }
        Ok(self.operands[n - 1 - depth])
    }

    /// The operand `depth` places below the top, checked to be of kind `k`.
    pub fn peek_kind(&self, depth: usize, k: Kind) -> (r: Result<Value, JvmError>)
        ensures
            depth >= self@.operands.len() ==> r matches Err(JvmError::OperandStackIsEmpty),
            depth < self@.operands.len() ==> match kind_fault(operand(self@, depth as int), k) {
                Some(f) => r matches Err(e) && fault_error(f, e),
                None => r == Ok::<Value, JvmError>(operand(self@, depth as int)),
            },
    {
        let v = self.peek(depth)?;
        let ok = match k {
            Kind::Int => matches!(v, Value::Integer(_)),
            Kind::Long => matches!(v, Value::Long(_)),
            Kind::Float => matches!(v, Value::Float(_)),
            Kind::Double => matches!(v, Value::Double(_)),
            Kind::Ref => {
                if let Value::Null = v {
                    return Err(JvmError::JavaException(
                        JavaExceptionFromJvm::new(JavaExceptionKind::NullPointerException),
                    ));
                }
                matches!(v, Value::Ref(_))
            },
            Kind::NullableRef => matches!(v, Value::Ref(_)) || matches!(v, Value::Null),
            Kind::Any => true,
        };
        if !ok {
            return Err(JvmError::UnexpectedType("operand of an unexpected kind".to_string()));
        }
        Ok(v)
    }

    /// Replaces the top `n` operands by `pushed`.
    pub fn replace_top(&mut self, n: usize, pushed: Vec<Value>)
        requires
            n <= old(self)@.operands.len(),
        ensures
            final(self)@ == replace_top(old(self)@, n as int, pushed@),
    {
        assert(replace_top(old(self)@, 0, Seq::empty()).operands =~= old(self)@.operands);
        let mut i: usize = 0;
        while i < n
            invariant
                i <= n,
                n <= old(self)@.operands.len(),
                self@ == replace_top(old(self)@, i as int, Seq::empty()),
            decreases n - i,
        {
            self.operands.pop();
            i = i + 1;
            assert(self@.operands =~= replace_top(old(self)@, i as int, Seq::empty()).operands);
        }
        assert(pushed@.subrange(0, 0) =~= Seq::<Value>::empty());
        assert(replace_top(old(self)@, n as int, pushed@.subrange(0, 0)).operands =~= replace_top(
            old(self)@,
            n as int,
            Seq::empty(),
        ).operands);
        let mut j: usize = 0;
        while j < pushed.len()
            invariant
                j <= pushed@.len(),
                n <= old(self)@.operands.len(),
                self@ == replace_top(old(self)@, n as int, pushed@.subrange(0, j as int)),
            decreases pushed@.len() - j,
        {
            self.operands.push(pushed[j]);
            j = j + 1;
            assert(self@.operands =~= replace_top(old(self)@, n as int, pushed@.subrange(0, j as int)).operands);
        }
        assert(pushed@.subrange(0, pushed@.len() as int) =~= pushed@);
    }

    /// Pushes `v`; a full operand stack is a `StackOverflow`.
    pub fn push_operand(&mut self, v: Value) -> (r: Result<(), JvmError>)
        ensures
            old(self)@.operands.len() < old(self)@.max_stack ==> r is Ok && final(self)@ == replace_top(old(self)@, 0, seq![v]),
            old(self)@.operands.len() >= old(self)@.max_stack ==> (r matches Err(JvmError::StackOverflow)) && final(self)@ == old(self)@,
    {
        if self.operands.len() >= self.max_stack {
            return Err(JvmError::StackOverflow);
        }
        self.operands.push(v);
        assert(self@.operands =~= replace_top(old(self)@, 0, seq![v]).operands);
        Ok(())
    }

    /// The local variable `idx`; an error when there is none or it was never set.
    pub fn get_local(&self, idx: u8) -> (r: Result<Value, JvmError>)
        ensures
            idx >= self@.locals.len() ==> r == Err::<Value, JvmError>(JvmError::LocalVariableNotFound(idx)),
            idx < self@.locals.len() ==> match self@.locals[idx as int] {
                Some(v) => r == Ok::<Value, JvmError>(v),
                None => r == Err::<Value, JvmError>(JvmError::LocalVariableNotInitialized(idx)),
            },
    {
        if idx as usize >= self.locals.len() {
            return Err(JvmError::LocalVariableNotFound(idx));
        }
        match self.locals[idx as usize] {
            Some(v) => Ok(v),
            None => Err(JvmError::LocalVariableNotInitialized(idx)),
        }
    }

    /// Sets the local variable `idx`; an error when there is none.
    pub fn set_local(&mut self, idx: u8, v: Value) -> (r: Result<(), JvmError>)
        ensures
            idx >= old(self)@.locals.len() ==> r == Err::<(), JvmError>(JvmError::LocalVariableNotFound(idx)) && final(self)@ == old(self)@,
            idx < old(self)@.locals.len() ==> r is Ok && final(self)@ == (FrameState {
                locals: old(self)@.locals.update(idx as int, Some(v)),
                ..old(self)@
            }),
    {
        if idx as usize >= self.locals.len() {
            return Err(JvmError::LocalVariableNotFound(idx));
        }
        self.locals.set(idx as usize, Some(v));
        Ok(())
    }
}

} // verus!
