//! The bytecode instructions and the operands of the switch instructions.
use crate::heap::ArrayType;
use vstd::prelude::*;

verus! {

/// The operands of `tableswitch`: jump offsets for the keys `low..=high`.
#[derive(Clone, Debug)]
pub struct TableSwitchData {
    pub default_offset: i32,
    pub low: i32,
    pub high: i32,
    pub offsets: Vec<i32>,
}

/// The operands of `lookupswitch`: `(key, offset)` pairs sorted by key.
#[derive(Clone, Debug)]
pub struct LookupSwitchData {
    pub default_offset: i32,
    pub pairs: Vec<(i32, i32)>,
}

/// The offset `tableswitch` jumps by for `index`.
pub open spec fn table_offset(sw: TableSwitchData, index: i32) -> i32 {
    if index < sw.low || index > sw.high {
        sw.default_offset
    } else {
        sw.offsets@[index - sw.low]
    }
}

/// `tableswitch` jumps by the table's offset for every index from `low` to
/// `high`, both included (`offsets[index - low]`), and by the default
/// offset exactly for the indices outside that range.
pub proof fn law_tableswitch_offset(sw: TableSwitchData, index: i32)
    ensures
        sw.low <= index <= sw.high ==> table_offset(sw, index) == sw.offsets@[index - sw.low],
        index < sw.low || index > sw.high ==> table_offset(sw, index) == sw.default_offset,
        sw.low <= sw.high ==> table_offset(sw, sw.low) == sw.offsets@[0] && table_offset(sw, sw.high)
            == sw.offsets@[sw.high - sw.low],
{
}

/// The keys of a `lookupswitch` are strictly increasing.
pub open spec fn keys_sorted(pairs: Seq<(i32, i32)>) -> bool {
    forall|i: int, j: int| 0 <= i < j < pairs.len() ==> pairs[i].0 < pairs[j].0
}

/// The offset `lookupswitch` jumps by for `key`: that of the pair with this
/// key, or the default one.
pub open spec fn lookup_offset(sw: LookupSwitchData, key: i32) -> i32 {
    if exists|i: int| 0 <= i < sw.pairs@.len() && sw.pairs@[i].0 == key {
        sw.pairs@[choose|i: int| 0 <= i < sw.pairs@.len() && sw.pairs@[i].0 == key].1
    } else {
        sw.default_offset
    }
}

/// A decoded bytecode instruction with its operands.
#[derive(Clone, Debug)]
pub enum Instruction {
    Athrow,
    Aaload,
    Aastore,
    Bastore,
    Iaload,
    Caload,
    Baload,
    Checkcast(u16),
    AconstNull,
    Aload0,
    Aload1,
    Aload2,
    Aload3,
    Aload(u8),
    Anewarray(u16),
    ArrayLength,
    Astore0,
    Astore1,
    Astore2,
    Astore3,
    Astore(u8),
    Bipush(i8),
    Castore,
    Dadd,
    Ddiv,
    Dcmpl,
    Dcmpg,
    Dconst0,
    Dconst1,
    Dload0,
    Dload1,
    Dload2,
    Dload3,
    Dload(u8),
    Dmul,
    Dstore(u8),
    Dup,
    Dup2,
    DupX1,
    Fcmpl,
    Fcmpg,
    Fconst0,
    Fconst1,
    Fload0,
    Fload1,
    Fload2,
    Fload3,
    Fload(u8),
    Fstore0,
    Fstore1,
    Fstore2,
    Fstore3,
    Fstore(u8),
    Getfield(u16),
    Getstatic(u16),
    Goto(i16),
    Iadd,
    Iconst0,
    Iconst1,
    Iconst2,
    Iconst3,
    Iconst4,
    Iconst5,
    IconstM1,
    Idiv,
    IfEq(i16),
    IfGe(i16),
    IfGt(i16),
    Lcmp,
    Lconst0,
    Lconst1,
    Lookupswitch(LookupSwitchData),
    Ifnull(i16),
    IfIcmplt(i16),
    IfLe(i16),
    IfLt(i16),
    IfAcmpEq(i16),
    IfAcmpNe(i16),
    IfIcmpne(i16),
    IfIcmpge(i16),
    IfIcmpgt(i16),
    IfIcmpeq(i16),
    IfIcmple(i16),
    Ifnonnull(i16),
    IfNe(i16),
    Iload0,
    Iload1,
    Iload2,
    Iload3,
    Iload(u8),
    InvokeVirtual(u16),
    Instanceof(u16),
    Fmul,
    Fdiv,
    Irem,
    Ladd,
    Ldiv,
    Lmul,
    Lrem,
    Land,
    Lor,
    Lxor,
    Iand,
    Ior,
    Ixor,
    L2i,
    L2f,
    D2i,
    D2l,
    F2i,
    F2d,
    Ineg,
    I2s,
    I2c,
    I2l,
    I2f,
    I2d,
    I2b,
    Istore0,
    Istore1,
    Istore2,
    Istore3,
    Istore(u8),
    Isub,
    Imul,
    Iinc(u8, i8),
    Ldc(u16),
    LdcW(u16),
    Ldc2W(u16),
    New(u16),
    Newarray(ArrayType),
    Pop,
    Putfield(u16),
    Putstatic(u16),
    InvokeInterface(u16, u8),
    InvokeSpecial(u16),
    InvokeStatic(u16),
    InvokeDynamic(u16),
    Iushr,
    Lload0,
    Lload1,
    Lload2,
    Lload3,
    Lload(u8),
    Lshl,
    Lshr,
    Lushr,
    Lstore0,
    Lstore1,
    Lstore2,
    Lstore3,
    Lstore(u8),
    Lsub,
    Iastore,
    Ishl,
    Ishr,
    Saload,
    Sastore,
    Sipush(i16),
    TableSwitch(TableSwitchData),
    Monitorenter,
    Monitorexit,
    Return,
    Dreturn,
    Ireturn,
    Areturn,
    Lreturn,
    Freturn,
    Nop,
    Pop2,
    Swap,
    DupX2,
    Dup2X1,
    Dup2X2,
    Fadd,
    Fsub,
    Frem,
    Fneg,
    Dsub,
    Drem,
    Dneg,
    Lneg,
    L2d,
    F2l,
    D2f,
    Laload,
    Faload,
    Daload,
    Lastore,
    Fastore,
    Dastore,
    Jsr(i16),
    Ret(u8),
    GotoW(i32),
    JsrW(i32),
    Multianewarray(u16, u8),
}

/// The number of bytes an instruction takes in the code; for the switch
/// instructions, not counting the padding that aligns their operands.
pub open spec fn instruction_size(i: Instruction) -> u16 {
    match i {
        Instruction::Athrow => 1,
        Instruction::Aaload => 1,
        Instruction::Aastore => 1,
        Instruction::Bastore => 1,
        Instruction::Iaload => 1,
        Instruction::Caload => 1,
        Instruction::Baload => 1,
        Instruction::Checkcast(_) => 3,
        Instruction::AconstNull => 1,
        Instruction::Aload0 => 1,
        Instruction::Aload1 => 1,
        Instruction::Aload2 => 1,
        Instruction::Aload3 => 1,
        Instruction::Aload(_) => 2,
        Instruction::Anewarray(_) => 3,
        Instruction::ArrayLength => 1,
        Instruction::Astore0 => 1,
        Instruction::Astore1 => 1,
        Instruction::Astore2 => 1,
        Instruction::Astore3 => 1,
        Instruction::Astore(_) => 2,
        Instruction::Bipush(_) => 2,
        Instruction::Castore => 1,
        Instruction::Dadd => 1,
        Instruction::Ddiv => 1,
        Instruction::Dcmpl => 1,
        Instruction::Dcmpg => 1,
        Instruction::Dconst0 => 1,
        Instruction::Dconst1 => 1,
        Instruction::Dload0 => 1,
        Instruction::Dload1 => 1,
        Instruction::Dload2 => 1,
        Instruction::Dload3 => 1,
        Instruction::Dload(_) => 2,
        Instruction::Dmul => 1,
        Instruction::Dstore(_) => 2,
        Instruction::Dup => 1,
        Instruction::Dup2 => 1,
        Instruction::DupX1 => 1,
        Instruction::Fcmpl => 1,
        Instruction::Fcmpg => 1,
        Instruction::Fconst0 => 1,
        Instruction::Fconst1 => 1,
        Instruction::Fload0 => 1,
        Instruction::Fload1 => 1,
        Instruction::Fload2 => 1,
        Instruction::Fload3 => 1,
        Instruction::Fload(_) => 2,
        Instruction::Fstore0 => 1,
        Instruction::Fstore1 => 1,
        Instruction::Fstore2 => 1,
        Instruction::Fstore3 => 1,
        Instruction::Fstore(_) => 2,
        Instruction::Getfield(_) => 3,
        Instruction::Getstatic(_) => 3,
        Instruction::Goto(_) => 3,
        Instruction::Iadd => 1,
        Instruction::Iconst0 => 1,
        Instruction::Iconst1 => 1,
        Instruction::Iconst2 => 1,
        Instruction::Iconst3 => 1,
        Instruction::Iconst4 => 1,
        Instruction::Iconst5 => 1,
        Instruction::IconstM1 => 1,
        Instruction::Idiv => 1,
        Instruction::IfEq(_) => 3,
        Instruction::IfGe(_) => 3,
        Instruction::IfGt(_) => 3,
        Instruction::Lcmp => 1,
        Instruction::Lconst0 => 1,
        Instruction::Lconst1 => 1,
        Instruction::Lookupswitch(_) => 1,
        Instruction::Ifnull(_) => 3,
        Instruction::IfIcmplt(_) => 3,
        Instruction::IfLe(_) => 3,
        Instruction::IfLt(_) => 3,
        Instruction::IfAcmpEq(_) => 3,
        Instruction::IfAcmpNe(_) => 3,
        Instruction::IfIcmpne(_) => 3,
        Instruction::IfIcmpge(_) => 3,
        Instruction::IfIcmpgt(_) => 3,
        Instruction::IfIcmpeq(_) => 3,
        Instruction::IfIcmple(_) => 3,
        Instruction::Ifnonnull(_) => 3,
        Instruction::IfNe(_) => 3,
        Instruction::Iload0 => 1,
        Instruction::Iload1 => 1,
        Instruction::Iload2 => 1,
        Instruction::Iload3 => 1,
        Instruction::Iload(_) => 2,
        Instruction::InvokeVirtual(_) => 3,
        Instruction::Instanceof(_) => 3,
        Instruction::Fmul => 1,
        Instruction::Fdiv => 1,
        Instruction::Irem => 1,
        Instruction::Ladd => 1,
        Instruction::Ldiv => 1,
        Instruction::Lmul => 1,
        Instruction::Lrem => 1,
        Instruction::Land => 1,
        Instruction::Lor => 1,
        Instruction::Lxor => 1,
        Instruction::Iand => 1,
        Instruction::Ior => 1,
        Instruction::Ixor => 1,
        Instruction::L2i => 1,
        Instruction::L2f => 1,
        Instruction::D2i => 1,
        Instruction::D2l => 1,
        Instruction::F2i => 1,
        Instruction::F2d => 1,
        Instruction::Ineg => 1,
        Instruction::I2s => 1,
        Instruction::I2c => 1,
        Instruction::I2l => 1,
        Instruction::I2f => 1,
        Instruction::I2d => 1,
        Instruction::I2b => 1,
        Instruction::Istore0 => 1,
        Instruction::Istore1 => 1,
        Instruction::Istore2 => 1,
        Instruction::Istore3 => 1,
        Instruction::Istore(_) => 2,
        Instruction::Isub => 1,
        Instruction::Imul => 1,
        Instruction::Iinc(_, _) => 3,
        Instruction::Ldc(_) => 2,
        Instruction::LdcW(_) => 3,
        Instruction::Ldc2W(_) => 3,
        Instruction::New(_) => 3,
        Instruction::Newarray(_) => 2,
        Instruction::Pop => 1,
        Instruction::Putfield(_) => 3,
        Instruction::Putstatic(_) => 3,
        Instruction::InvokeInterface(_, _) => 5,
        Instruction::InvokeSpecial(_) => 3,
        Instruction::InvokeStatic(_) => 3,
        Instruction::InvokeDynamic(_) => 5,
        Instruction::Iushr => 1,
        Instruction::Lload0 => 1,
        Instruction::Lload1 => 1,
        Instruction::Lload2 => 1,
        Instruction::Lload3 => 1,
        Instruction::Lload(_) => 2,
        Instruction::Lshl => 1,
        Instruction::Lshr => 1,
        Instruction::Lushr => 1,
        Instruction::Lstore0 => 1,
        Instruction::Lstore1 => 1,
        Instruction::Lstore2 => 1,
        Instruction::Lstore3 => 1,
        Instruction::Lstore(_) => 2,
        Instruction::Lsub => 1,
        Instruction::Iastore => 1,
        Instruction::Ishl => 1,
        Instruction::Ishr => 1,
        Instruction::Saload => 1,
        Instruction::Sastore => 1,
        Instruction::Sipush(_) => 3,
        Instruction::TableSwitch(_) => 1,
        Instruction::Monitorenter => 1,
        Instruction::Monitorexit => 1,
        Instruction::Return => 1,
        Instruction::Dreturn => 1,
        Instruction::Ireturn => 1,
        Instruction::Areturn => 1,
        Instruction::Lreturn => 1,
        Instruction::Freturn => 1,
        Instruction::Nop => 1,
        Instruction::Pop2 => 1,
        Instruction::Swap => 1,
        Instruction::DupX2 => 1,
        Instruction::Dup2X1 => 1,
        Instruction::Dup2X2 => 1,
        Instruction::Fadd => 1,
        Instruction::Fsub => 1,
        Instruction::Frem => 1,
        Instruction::Fneg => 1,
        Instruction::Dsub => 1,
        Instruction::Drem => 1,
        Instruction::Dneg => 1,
        Instruction::Lneg => 1,
        Instruction::L2d => 1,
        Instruction::F2l => 1,
        Instruction::D2f => 1,
        Instruction::Laload => 1,
        Instruction::Faload => 1,
        Instruction::Daload => 1,
        Instruction::Lastore => 1,
        Instruction::Fastore => 1,
        Instruction::Dastore => 1,
        Instruction::Jsr(_) => 3,
        Instruction::Ret(_) => 2,
        Instruction::GotoW(_) => 5,
        Instruction::JsrW(_) => 5,
        Instruction::Multianewarray(_, _) => 4,
    }
}

/// Whether the instruction sets the pc itself.
pub open spec fn is_branch_instruction(i: Instruction) -> bool {
    match i {
        Instruction::Goto(_) |
        Instruction::IfEq(_) |
        Instruction::IfGe(_) |
        Instruction::IfGt(_) |
        Instruction::Lookupswitch(_) |
        Instruction::Ifnull(_) |
        Instruction::IfIcmplt(_) |
        Instruction::IfLe(_) |
        Instruction::IfLt(_) |
        Instruction::IfAcmpEq(_) |
        Instruction::IfAcmpNe(_) |
        Instruction::IfIcmpne(_) |
        Instruction::IfIcmpge(_) |
        Instruction::IfIcmpgt(_) |
        Instruction::IfIcmpeq(_) |
        Instruction::IfIcmple(_) |
        Instruction::Ifnonnull(_) |
        Instruction::IfNe(_) |
        Instruction::TableSwitch(_) |
        Instruction::Jsr(_) |
        Instruction::Ret(_) |
        Instruction::GotoW(_) |
        Instruction::JsrW(_) => true,
        _ => false,
    }
}

/// Whether the interpreter carries out the instruction at all.
pub open spec fn is_supported_instruction(i: Instruction) -> bool {
    match i {
        Instruction::Nop |
        Instruction::Pop2 |
        Instruction::Swap |
        Instruction::DupX2 |
        Instruction::Dup2X1 |
        Instruction::Dup2X2 |
        Instruction::Fadd |
        Instruction::Fsub |
        Instruction::Frem |
        Instruction::Fneg |
        Instruction::Dsub |
        Instruction::Drem |
        Instruction::Dneg |
        Instruction::Lneg |
        Instruction::L2d |
        Instruction::F2l |
        Instruction::D2f |
        Instruction::Laload |
        Instruction::Faload |
        Instruction::Daload |
        Instruction::Lastore |
        Instruction::Fastore |
        Instruction::Dastore |
        Instruction::Jsr(_) |
        Instruction::Ret(_) |
        Instruction::GotoW(_) |
        Instruction::JsrW(_) |
        Instruction::Multianewarray(_, _) => false,
        _ => true,
    }
}

impl Instruction {
    /// The number of bytes the instruction takes in the code.
    pub fn byte_size(&self) -> (r: u16)
        ensures
            r == instruction_size(*self),
    {
        match self {
            Instruction::Athrow => 1,
            Instruction::Aaload => 1,
            Instruction::Aastore => 1,
            Instruction::Bastore => 1,
            Instruction::Iaload => 1,
            Instruction::Caload => 1,
            Instruction::Baload => 1,
            Instruction::Checkcast(_) => 3,
            Instruction::AconstNull => 1,
            Instruction::Aload0 => 1,
            Instruction::Aload1 => 1,
            Instruction::Aload2 => 1,
            Instruction::Aload3 => 1,
            Instruction::Aload(_) => 2,
            Instruction::Anewarray(_) => 3,
            Instruction::ArrayLength => 1,
            Instruction::Astore0 => 1,
            Instruction::Astore1 => 1,
            Instruction::Astore2 => 1,
            Instruction::Astore3 => 1,
            Instruction::Astore(_) => 2,
            Instruction::Bipush(_) => 2,
            Instruction::Castore => 1,
            Instruction::Dadd => 1,
            Instruction::Ddiv => 1,
            Instruction::Dcmpl => 1,
            Instruction::Dcmpg => 1,
            Instruction::Dconst0 => 1,
            Instruction::Dconst1 => 1,
            Instruction::Dload0 => 1,
            Instruction::Dload1 => 1,
            Instruction::Dload2 => 1,
            Instruction::Dload3 => 1,
            Instruction::Dload(_) => 2,
            Instruction::Dmul => 1,
            Instruction::Dstore(_) => 2,
            Instruction::Dup => 1,
            Instruction::Dup2 => 1,
            Instruction::DupX1 => 1,
            Instruction::Fcmpl => 1,
            Instruction::Fcmpg => 1,
            Instruction::Fconst0 => 1,
            Instruction::Fconst1 => 1,
            Instruction::Fload0 => 1,
            Instruction::Fload1 => 1,
            Instruction::Fload2 => 1,
            Instruction::Fload3 => 1,
            Instruction::Fload(_) => 2,
            Instruction::Fstore0 => 1,
            Instruction::Fstore1 => 1,
            Instruction::Fstore2 => 1,
            Instruction::Fstore3 => 1,
            Instruction::Fstore(_) => 2,
            Instruction::Getfield(_) => 3,
            Instruction::Getstatic(_) => 3,
            Instruction::Goto(_) => 3,
            Instruction::Iadd => 1,
            Instruction::Iconst0 => 1,
            Instruction::Iconst1 => 1,
            Instruction::Iconst2 => 1,
            Instruction::Iconst3 => 1,
            Instruction::Iconst4 => 1,
            Instruction::Iconst5 => 1,
            Instruction::IconstM1 => 1,
            Instruction::Idiv => 1,
            Instruction::IfEq(_) => 3,
            Instruction::IfGe(_) => 3,
            Instruction::IfGt(_) => 3,
            Instruction::Lcmp => 1,
            Instruction::Lconst0 => 1,
            Instruction::Lconst1 => 1,
            Instruction::Lookupswitch(_) => 1,
            Instruction::Ifnull(_) => 3,
            Instruction::IfIcmplt(_) => 3,
            Instruction::IfLe(_) => 3,
            Instruction::IfLt(_) => 3,
            Instruction::IfAcmpEq(_) => 3,
            Instruction::IfAcmpNe(_) => 3,
            Instruction::IfIcmpne(_) => 3,
            Instruction::IfIcmpge(_) => 3,
            Instruction::IfIcmpgt(_) => 3,
            Instruction::IfIcmpeq(_) => 3,
            Instruction::IfIcmple(_) => 3,
            Instruction::Ifnonnull(_) => 3,
            Instruction::IfNe(_) => 3,
            Instruction::Iload0 => 1,
            Instruction::Iload1 => 1,
            Instruction::Iload2 => 1,
            Instruction::Iload3 => 1,
            Instruction::Iload(_) => 2,
            Instruction::InvokeVirtual(_) => 3,
            Instruction::Instanceof(_) => 3,
            Instruction::Fmul => 1,
            Instruction::Fdiv => 1,
            Instruction::Irem => 1,
            Instruction::Ladd => 1,
            Instruction::Ldiv => 1,
            Instruction::Lmul => 1,
            Instruction::Lrem => 1,
            Instruction::Land => 1,
            Instruction::Lor => 1,
            Instruction::Lxor => 1,
            Instruction::Iand => 1,
            Instruction::Ior => 1,
            Instruction::Ixor => 1,
            Instruction::L2i => 1,
            Instruction::L2f => 1,
            Instruction::D2i => 1,
            Instruction::D2l => 1,
            Instruction::F2i => 1,
            Instruction::F2d => 1,
            Instruction::Ineg => 1,
            Instruction::I2s => 1,
            Instruction::I2c => 1,
            Instruction::I2l => 1,
            Instruction::I2f => 1,
            Instruction::I2d => 1,
            Instruction::I2b => 1,
            Instruction::Istore0 => 1,
            Instruction::Istore1 => 1,
            Instruction::Istore2 => 1,
            Instruction::Istore3 => 1,
            Instruction::Istore(_) => 2,
            Instruction::Isub => 1,
            Instruction::Imul => 1,
            Instruction::Iinc(_, _) => 3,
            Instruction::Ldc(_) => 2,
            Instruction::LdcW(_) => 3,
            Instruction::Ldc2W(_) => 3,
            Instruction::New(_) => 3,
            Instruction::Newarray(_) => 2,
            Instruction::Pop => 1,
            Instruction::Putfield(_) => 3,
            Instruction::Putstatic(_) => 3,
            Instruction::InvokeInterface(_, _) => 5,
            Instruction::InvokeSpecial(_) => 3,
            Instruction::InvokeStatic(_) => 3,
            Instruction::InvokeDynamic(_) => 5,
            Instruction::Iushr => 1,
            Instruction::Lload0 => 1,
            Instruction::Lload1 => 1,
            Instruction::Lload2 => 1,
            Instruction::Lload3 => 1,
            Instruction::Lload(_) => 2,
            Instruction::Lshl => 1,
            Instruction::Lshr => 1,
            Instruction::Lushr => 1,
            Instruction::Lstore0 => 1,
            Instruction::Lstore1 => 1,
            Instruction::Lstore2 => 1,
            Instruction::Lstore3 => 1,
            Instruction::Lstore(_) => 2,
            Instruction::Lsub => 1,
            Instruction::Iastore => 1,
            Instruction::Ishl => 1,
            Instruction::Ishr => 1,
            Instruction::Saload => 1,
            Instruction::Sastore => 1,
            Instruction::Sipush(_) => 3,
            Instruction::TableSwitch(_) => 1,
            Instruction::Monitorenter => 1,
            Instruction::Monitorexit => 1,
            Instruction::Return => 1,
            Instruction::Dreturn => 1,
            Instruction::Ireturn => 1,
            Instruction::Areturn => 1,
            Instruction::Lreturn => 1,
            Instruction::Freturn => 1,
            Instruction::Nop => 1,
            Instruction::Pop2 => 1,
            Instruction::Swap => 1,
            Instruction::DupX2 => 1,
            Instruction::Dup2X1 => 1,
            Instruction::Dup2X2 => 1,
            Instruction::Fadd => 1,
            Instruction::Fsub => 1,
            Instruction::Frem => 1,
            Instruction::Fneg => 1,
            Instruction::Dsub => 1,
            Instruction::Drem => 1,
            Instruction::Dneg => 1,
            Instruction::Lneg => 1,
            Instruction::L2d => 1,
            Instruction::F2l => 1,
            Instruction::D2f => 1,
            Instruction::Laload => 1,
            Instruction::Faload => 1,
            Instruction::Daload => 1,
            Instruction::Lastore => 1,
            Instruction::Fastore => 1,
            Instruction::Dastore => 1,
            Instruction::Jsr(_) => 3,
            Instruction::Ret(_) => 2,
            Instruction::GotoW(_) => 5,
            Instruction::JsrW(_) => 5,
            Instruction::Multianewarray(_, _) => 4,
        }
    }

    /// Whether the instruction sets the pc itself.
    pub fn is_branch(&self) -> (r: bool)
        ensures
            r == is_branch_instruction(*self),
    {
        match self {
            Instruction::Goto(_) |
            Instruction::IfEq(_) |
            Instruction::IfGe(_) |
            Instruction::IfGt(_) |
            Instruction::Lookupswitch(_) |
            Instruction::Ifnull(_) |
            Instruction::IfIcmplt(_) |
            Instruction::IfLe(_) |
            Instruction::IfLt(_) |
            Instruction::IfAcmpEq(_) |
            Instruction::IfAcmpNe(_) |
            Instruction::IfIcmpne(_) |
            Instruction::IfIcmpge(_) |
            Instruction::IfIcmpgt(_) |
            Instruction::IfIcmpeq(_) |
            Instruction::IfIcmple(_) |
            Instruction::Ifnonnull(_) |
            Instruction::IfNe(_) |
            Instruction::TableSwitch(_) |
            Instruction::Jsr(_) |
            Instruction::Ret(_) |
            Instruction::GotoW(_) |
            Instruction::JsrW(_) => true,
            _ => false,
        }
    }
}

} // verus!
