//! Instructions and their operands.
use vstd::prelude::*;
use super::enums::{OpCodeValue, OperandType};
use super::opcode::OpCode;
use crate::cil::clr::argument::Argument;
use crate::cil::clr::local::Local;
use crate::cil::clr::token::Token;
use crate::error::Error;
use crate::Result;

verus! {

/// The bits of a floating-point operand, as they stand in the code.
#[derive(Debug, Clone, Copy, PartialEq, Eq, Structural)]
pub enum FloatBits {
    /// The bits of a 32-bit number.
    Single(u32),
    /// The bits of a 64-bit number.
    Double(u64),
}

/// The operand of an instruction.
#[derive(Debug, Clone, PartialEq, Eq)]
pub enum Operand {
    /// A metadata token.
    Token(Token),
    /// A token into the user-string heap.
    StringToken(Token),
    /// A local variable.
    Local(Local),
    /// An argument.
    Argument(Argument),
    /// The targets of a switch, as offsets from the start of the code.
    Arguments(Vec<i64>),
    /// An integer, or the target of a branch as an offset from the start
    /// of the code.
    Int(i64),
    /// A floating-point number.
    Float(FloatBits),
    /// No operand.
    NoOperand,
}

/// An operand as a mathematical value.
pub enum OperandView {
    Token(Token),
    StringToken(Token),
    Local(Local),
    Argument(Argument),
    Arguments(Seq<i64>),
    Int(i64),
    Float(FloatBits),
    NoOperand,
}

impl View for Operand {
    type V = OperandView;

    open spec fn view(&self) -> OperandView {
        match self {
            Operand::Token(t) => OperandView::Token(*t),
            Operand::StringToken(t) => OperandView::StringToken(*t),
            Operand::Local(l) => OperandView::Local(*l),
            Operand::Argument(a) => OperandView::Argument(*a),
            Operand::Arguments(v) => OperandView::Arguments(v@),
            Operand::Int(i) => OperandView::Int(*i),
            Operand::Float(f) => OperandView::Float(*f),
            Operand::NoOperand => OperandView::NoOperand,
        }
    }
}

impl Operand {
    /// The bits of the token that the operand holds.
    pub fn value(&self) -> (r: Result<usize>)
        ensures
            match self@ {
                OperandView::Token(t) => r == Ok::<usize, Error>(t.value),
                OperandView::StringToken(t) => r == Ok::<usize, Error>(t.value),
                _ => r == Err::<usize, Error>(Error::OperandHasNoValue),
            },
    {
        match self {
            Operand::Token(t) => Ok(t.value),
            Operand::StringToken(t) => Ok(t.value),
            _ => Err(Error::OperandHasNoValue),
        }
    }

    /// The argument that the operand names.
    pub fn to_argument(&self) -> (r: Result<Argument>)
        ensures
            match self@ {
                OperandView::Argument(a) => r == Ok::<Argument, Error>(a),
                _ => r == Err::<Argument, Error>(Error::ConversionError("to argument")),
            },
    {
        match self {
            Operand::Argument(a) => Ok(*a),
            _ => Err(Error::ConversionError("to argument")),
        }
    }

    /// The local variable that the operand names.
    pub fn to_local(&self) -> (r: Result<Local>)
        ensures
            match self@ {
                OperandView::Local(l) => r == Ok::<Local, Error>(l),
                _ => r == Err::<Local, Error>(Error::ConversionError("to local")),
            },
    {
        match self {
            Operand::Local(l) => Ok(*l),
            _ => Err(Error::ConversionError("to local")),
        }
    }

    /// The number that the operand holds, as an operand of its own.
    pub fn to_number(&self) -> (r: Result<Operand>)
        ensures
            match self@ {
                OperandView::Int(i) => r matches Ok(n) && n@ == self@,
                OperandView::Float(f) => r matches Ok(n) && n@ == self@,
                _ => r == Err::<Operand, Error>(Error::ConversionError("to number")),
            },
    {
        match self {
            Operand::Int(i) => Ok(Operand::Int(*i)),
            Operand::Float(f) => Ok(Operand::Float(*f)),
            _ => Err(Error::ConversionError("to number")),
        }
    }
}

/// The number of bytes that an operand of the given kind takes in the
/// code. A switch takes its count and four bytes for each target.
pub open spec fn spec_operand_width(operand_type: OperandType, operand: OperandView) -> int {
    match operand_type {
        OperandType::InlineBrTarget
        | OperandType::InlineField
        | OperandType::InlineI
        | OperandType::InlineMethod
        | OperandType::InlineSig
        | OperandType::InlineString
        | OperandType::InlineTok
        | OperandType::InlineType
        | OperandType::ShortInlineR => 4,
        OperandType::InlineI8 | OperandType::InlineR => 8,
        OperandType::InlineSwitch => match operand {
            OperandView::Arguments(targets) => 4 + 4 * (targets.len() as int),
            _ => 4,
        },
        OperandType::InlineVar => 2,
        OperandType::ShortInlineBrTarget
        | OperandType::ShortInlineI
        | OperandType::ShortInlineVar => 1,
        OperandType::InlineNone | OperandType::InlinePhi | OperandType::NotUsed8 => 0,
    }
}

/// One instruction of a method body.
#[derive(Debug, Clone, PartialEq, Eq)]
pub struct Instruction {
    /// Where the instruction starts, counted from the start of the code.
    pub offset: usize,
    pub opcode: OpCode,
    pub operand: Operand,
}

/// An instruction as a mathematical value.
pub struct InstructionView {
    pub offset: usize,
    pub opcode: OpCode,
    pub operand: OperandView,
}

impl InstructionView {
    /// The number of bytes of the instruction: its opcode and its operand.
    pub open spec fn size(self) -> int {
        self.opcode.spec_size() + spec_operand_width(self.opcode.operand_type, self.operand)
    }
}

impl View for Instruction {
    type V = InstructionView;

    open spec fn view(&self) -> InstructionView {
        InstructionView { offset: self.offset, opcode: self.opcode, operand: self.operand@ }
    }
}

/// The views of a sequence of instructions.
pub open spec fn instruction_views(s: Seq<Instruction>) -> Seq<InstructionView> {
    s.map_values(|i: Instruction| i@)
}

impl Instruction {
    /// An instruction at offset 0 that stands for no operation yet.
    pub fn new() -> (r: Self)
        ensures
            r@ == (InstructionView {
                offset: 0,
                opcode: OpCode::spec_of(OpCodeValue::UNKNOWN1),
                operand: OperandView::NoOperand,
            }),
    {
        Self { offset: 0, opcode: OpCode::of(OpCodeValue::UNKNOWN1), operand: Operand::NoOperand }
    }

    /// The number of bytes of the instruction: the size of its opcode and
    /// the width of its operand.
    pub fn size(&self) -> (r: usize)
        requires
            self@.size() <= usize::MAX,
        ensures
            r == self@.size(),
            r == self.opcode.spec_size() + spec_operand_width(self.opcode.operand_type, self.operand@),
    {
        let opcode_size = self.opcode.size();
        match self.opcode.operand_type {
            OperandType::InlineBrTarget
            | OperandType::InlineField
            | OperandType::InlineI
            | OperandType::InlineMethod
            | OperandType::InlineSig
            | OperandType::InlineString
            | OperandType::InlineTok
            | OperandType::InlineType
            | OperandType::ShortInlineR => opcode_size + 4,
            OperandType::InlineI8 | OperandType::InlineR => opcode_size + 8,
            OperandType::InlineSwitch => match &self.operand {
                Operand::Arguments(targets) => opcode_size + 4 + targets.len() * 4,
                _ => opcode_size + 4,
            },
            OperandType::InlineVar => opcode_size + 2,
            OperandType::ShortInlineBrTarget
            | OperandType::ShortInlineI
            | OperandType::ShortInlineVar => opcode_size + 1,
            OperandType::InlineNone | OperandType::InlinePhi | OperandType::NotUsed8 => opcode_size,
        }
    }

    /// Whether the instruction leaves a protected region.
    pub fn is_leave(&self) -> (r: bool)
        ensures
            r == (self.opcode.value is Leave || self.opcode.value is Leave_S),
    {
        match self.opcode.value {
            OpCodeValue::Leave | OpCodeValue::Leave_S => true,
            _ => false,
        }
    }

    /// Whether the instruction is an unconditional branch.
    pub fn is_br(&self) -> (r: bool)
        ensures
            r == (self.opcode.value is Br || self.opcode.value is Br_S),
    {
        match self.opcode.value {
            OpCodeValue::Br | OpCodeValue::Br_S => true,
            _ => false,
        }
    }

    /// Whether the instruction branches on false, null or zero.
    pub fn is_br_false(&self) -> (r: bool)
        ensures
            r == (self.opcode.value is Brfalse || self.opcode.value is Brfalse_S),
    {
        match self.opcode.value {
            OpCodeValue::Brfalse | OpCodeValue::Brfalse_S => true,
            _ => false,
        }
    }

    /// Whether the instruction branches on true, non-null or non-zero.
    pub fn is_br_true(&self) -> (r: bool)
        ensures
            r == (self.opcode.value is Brtrue || self.opcode.value is Brtrue_S),
    {
        match self.opcode.value {
            OpCodeValue::Brtrue | OpCodeValue::Brtrue_S => true,
            _ => false,
        }
    }

    /// The conditional branches of the instruction set.
    pub open spec fn spec_is_cond_br(value: OpCodeValue) -> bool {
        match value {
            OpCodeValue::Bge
            | OpCodeValue::Bge_S
            | OpCodeValue::Bge_Un
            | OpCodeValue::Bge_Un_S
            | OpCodeValue::Blt
            | OpCodeValue::Blt_S
            | OpCodeValue::Blt_Un
            | OpCodeValue::Blt_Un_S
            | OpCodeValue::Bgt
            | OpCodeValue::Bgt_S
            | OpCodeValue::Bgt_Un
            | OpCodeValue::Bgt_Un_S
            | OpCodeValue::Ble
            | OpCodeValue::Ble_S
            | OpCodeValue::Ble_Un
            | OpCodeValue::Ble_Un_S
            | OpCodeValue::Brfalse
            | OpCodeValue::Brfalse_S
            | OpCodeValue::Brtrue
            | OpCodeValue::Brtrue_S
            | OpCodeValue::Beq
            | OpCodeValue::Beq_S
            | OpCodeValue::Bne_Un
            | OpCodeValue::Bne_Un_S => true,
            _ => false,
        }
    }

    /// Whether the instruction is a conditional branch.
    pub fn is_cond_br(&self) -> (r: bool)
        ensures
            r == Instruction::spec_is_cond_br(self.opcode.value),
    {
        match self.opcode.value {
            OpCodeValue::Bge
            | OpCodeValue::Bge_S
            | OpCodeValue::Bge_Un
            | OpCodeValue::Bge_Un_S
            | OpCodeValue::Blt
            | OpCodeValue::Blt_S
            | OpCodeValue::Blt_Un
            | OpCodeValue::Blt_Un_S
            | OpCodeValue::Bgt
            | OpCodeValue::Bgt_S
            | OpCodeValue::Bgt_Un
            | OpCodeValue::Bgt_Un_S
            | OpCodeValue::Ble
            | OpCodeValue::Ble_S
            | OpCodeValue::Ble_Un
            | OpCodeValue::Ble_Un_S
            | OpCodeValue::Brfalse
            | OpCodeValue::Brfalse_S
            | OpCodeValue::Brtrue
            | OpCodeValue::Brtrue_S
            | OpCodeValue::Beq
            | OpCodeValue::Beq_S
            | OpCodeValue::Bne_Un
            | OpCodeValue::Bne_Un_S => true,
            _ => false,
        }
    }

    /// Whether the instruction loads a string literal.
    pub fn is_ldstr(&self) -> (r: bool)
        ensures
            r == (self.opcode.value is Ldstr),
    {
        match self.opcode.value {
            OpCodeValue::Ldstr => true,
            _ => false,
        }
    }

    /// The constant that an operation loads by itself, without an operand.
    pub open spec fn spec_short_constant(value: OpCodeValue) -> Option<i64> {
        match value {
            OpCodeValue::Ldc_I4_M1 => Some((-1) as i64),
            OpCodeValue::Ldc_I4_0 => Some(0i64),
            OpCodeValue::Ldc_I4_1 => Some(1i64),
            OpCodeValue::Ldc_I4_2 => Some(2i64),
            OpCodeValue::Ldc_I4_3 => Some(3i64),
            OpCodeValue::Ldc_I4_4 => Some(4i64),
            OpCodeValue::Ldc_I4_5 => Some(5i64),
            OpCodeValue::Ldc_I4_6 => Some(6i64),
            OpCodeValue::Ldc_I4_7 => Some(7i64),
            OpCodeValue::Ldc_I4_8 => Some(8i64),
            _ => None,
        }
    }

    /// Whether an operation loads a constant from its operand.
    pub open spec fn spec_long_constant(value: OpCodeValue) -> bool {
        value is Ldc_I4_S || value is Ldc_I4 || value is Ldc_I8 || value is Ldc_R4
            || value is Ldc_R8
    }

    /// Whether the instruction loads a numeric constant.
    pub fn is_ldc(&self) -> (r: bool)
        ensures
            r == (Instruction::spec_short_constant(self.opcode.value) is Some
                || Instruction::spec_long_constant(self.opcode.value)),
    {
        match self.opcode.value {
            OpCodeValue::Ldc_I4_M1
            | OpCodeValue::Ldc_I4_0
            | OpCodeValue::Ldc_I4_1
            | OpCodeValue::Ldc_I4_2
            | OpCodeValue::Ldc_I4_3
            | OpCodeValue::Ldc_I4_4
            | OpCodeValue::Ldc_I4_5
            | OpCodeValue::Ldc_I4_6
            | OpCodeValue::Ldc_I4_7
            | OpCodeValue::Ldc_I4_8
            | OpCodeValue::Ldc_I4_S
            | OpCodeValue::Ldc_I4
            | OpCodeValue::Ldc_I8
            | OpCodeValue::Ldc_R4
            | OpCodeValue::Ldc_R8 => true,
            _ => false,
        }
    }

    /// The numeric constant that the instruction loads: the one its
    /// opcode stands for, or else its operand where that is a number.
    pub fn get_ldc(&self) -> (r: Option<Operand>)
        ensures
            match Instruction::spec_short_constant(self.opcode.value) {
                Some(c) => r matches Some(n) && n@ == OperandView::Int(c),
                None => if Instruction::spec_long_constant(self.opcode.value) && (self.operand@ is Int
                    || self.operand@ is Float) {
                    r matches Some(n) && n@ == self.operand@
                } else {
                    r is None
                },
            },
    {
        match self.opcode.value {
            OpCodeValue::Ldc_I4_M1 => Some(Operand::Int(-1)),
            OpCodeValue::Ldc_I4_0 => Some(Operand::Int(0)),
            OpCodeValue::Ldc_I4_1 => Some(Operand::Int(1)),
            OpCodeValue::Ldc_I4_2 => Some(Operand::Int(2)),
            OpCodeValue::Ldc_I4_3 => Some(Operand::Int(3)),
            OpCodeValue::Ldc_I4_4 => Some(Operand::Int(4)),
            OpCodeValue::Ldc_I4_5 => Some(Operand::Int(5)),
            OpCodeValue::Ldc_I4_6 => Some(Operand::Int(6)),
            OpCodeValue::Ldc_I4_7 => Some(Operand::Int(7)),
            OpCodeValue::Ldc_I4_8 => Some(Operand::Int(8)),
            OpCodeValue::Ldc_I4_S
            | OpCodeValue::Ldc_I4
            | OpCodeValue::Ldc_I8
            | OpCodeValue::Ldc_R4
            | OpCodeValue::Ldc_R8 => match self.operand.to_number() {
                Ok(n) => Some(n),
                Err(_) => None,
            },
            _ => None,
        }
    }

    /// The position of the argument that an operation names by itself.
    pub open spec fn spec_short_ldarg(value: OpCodeValue) -> Option<usize> {
        match value {
            OpCodeValue::Ldarg_0 => Some(0usize),
            OpCodeValue::Ldarg_1 => Some(1usize),
            OpCodeValue::Ldarg_2 => Some(2usize),
            OpCodeValue::Ldarg_3 => Some(3usize),
            _ => None,
        }
    }

    /// Whether an operation loads an argument, or its address, that its
    /// operand names.
    pub open spec fn spec_long_ldarg(value: OpCodeValue) -> bool {
        value is Ldarg || value is Ldarga || value is Ldarg_S || value is Ldarga_S
    }

    /// Whether the instruction loads an argument or its address.
    pub fn is_ldarg(&self) -> (r: bool)
        ensures
            r == (Instruction::spec_short_ldarg(self.opcode.value) is Some
                || Instruction::spec_long_ldarg(self.opcode.value)),
    {
        match self.opcode.value {
            OpCodeValue::Ldarg
            | OpCodeValue::Ldarg_0
            | OpCodeValue::Ldarg_1
            | OpCodeValue::Ldarg_2
            | OpCodeValue::Ldarg_3
            | OpCodeValue::Ldarg_S
            | OpCodeValue::Ldarga
            | OpCodeValue::Ldarga_S => true,
            _ => false,
        }
    }

    /// The argument that the instruction loads.
    pub fn get_ldarg(&self) -> (r: Option<Argument>)
        ensures
            match Instruction::spec_short_ldarg(self.opcode.value) {
                Some(n) => r matches Some(a) && a.index() == n,
                None => match self.operand@ {
                    OperandView::Argument(a) if Instruction::spec_long_ldarg(self.opcode.value) => r
                        == Some(a),
                    _ => r is None,
                },
            },
    {
        match self.opcode.value {
            OpCodeValue::Ldarg
            | OpCodeValue::Ldarga
            | OpCodeValue::Ldarg_S
            | OpCodeValue::Ldarga_S => match self.operand.to_argument() {
                Ok(a) => Some(a),
                Err(_) => None,
            },
            OpCodeValue::Ldarg_0 => Some(Argument::new(0)),
            OpCodeValue::Ldarg_1 => Some(Argument::new(1)),
            OpCodeValue::Ldarg_2 => Some(Argument::new(2)),
            OpCodeValue::Ldarg_3 => Some(Argument::new(3)),
            _ => None,
        }
    }

    /// Whether the instruction stores to an argument.
    pub fn is_starg(&self) -> (r: bool)
        ensures
            r == (self.opcode.value is Starg || self.opcode.value is Starg_S),
    {
        match self.opcode.value {
            OpCodeValue::Starg | OpCodeValue::Starg_S => true,
            _ => false,
        }
    }

    /// The argument that the instruction stores to.
    pub fn get_starg(&self) -> (r: Option<Argument>)
        ensures
            match self.operand@ {
                OperandView::Argument(a) if (self.opcode.value is Starg
                    || self.opcode.value is Starg_S) => r == Some(a),
                _ => r is None,
            },
    {
        match self.opcode.value {
            OpCodeValue::Starg | OpCodeValue::Starg_S => match self.operand.to_argument() {
                Ok(a) => Some(a),
                Err(_) => None,
            },
            _ => None,
        }
    }

    /// The position of the local variable that a load names by itself.
    pub open spec fn spec_short_ldloc(value: OpCodeValue) -> Option<usize> {
        match value {
            OpCodeValue::Ldloc_0 => Some(0usize),
            OpCodeValue::Ldloc_1 => Some(1usize),
            OpCodeValue::Ldloc_2 => Some(2usize),
            OpCodeValue::Ldloc_3 => Some(3usize),
            _ => None,
        }
    }

    /// Whether an operation loads a local variable, or its address, that
    /// its operand names.
    pub open spec fn spec_long_ldloc(value: OpCodeValue) -> bool {
        value is Ldloc || value is Ldloca || value is Ldloc_S || value is Ldloca_S
    }

    /// Whether the instruction loads a local variable or its address.
    pub fn is_ldloc(&self) -> (r: bool)
        ensures
            r == (Instruction::spec_short_ldloc(self.opcode.value) is Some
                || Instruction::spec_long_ldloc(self.opcode.value)),
    {
        match self.opcode.value {
            OpCodeValue::Ldloc
            | OpCodeValue::Ldloc_0
            | OpCodeValue::Ldloc_1
            | OpCodeValue::Ldloc_2
            | OpCodeValue::Ldloc_3
            | OpCodeValue::Ldloc_S
            | OpCodeValue::Ldloca
            | OpCodeValue::Ldloca_S => true,
            _ => false,
        }
    }

    /// The local variable that the instruction loads.
    pub fn get_ldoc(&self) -> (r: Option<Local>)
        ensures
            match Instruction::spec_short_ldloc(self.opcode.value) {
                Some(n) => r matches Some(l) && l.index() == n,
                None => match self.operand@ {
                    OperandView::Local(l) if Instruction::spec_long_ldloc(self.opcode.value) => r
                        == Some(l),
                    _ => r is None,
                },
            },
    {
        match self.opcode.value {
            OpCodeValue::Ldloc
            | OpCodeValue::Ldloc_S
            | OpCodeValue::Ldloca
            | OpCodeValue::Ldloca_S => match self.operand.to_local() {
                Ok(l) => Some(l),
                Err(_) => None,
            },
            OpCodeValue::Ldloc_0 => Some(Local::new(0)),
            OpCodeValue::Ldloc_1 => Some(Local::new(1)),
            OpCodeValue::Ldloc_2 => Some(Local::new(2)),
            OpCodeValue::Ldloc_3 => Some(Local::new(3)),
            _ => None,
        }
    }

    /// The position of the local variable that a store names by itself.
    pub open spec fn spec_short_stloc(value: OpCodeValue) -> Option<usize> {
        match value {
            OpCodeValue::Stloc_0 => Some(0usize),
            OpCodeValue::Stloc_1 => Some(1usize),
            OpCodeValue::Stloc_2 => Some(2usize),
            OpCodeValue::Stloc_3 => Some(3usize),
            _ => None,
        }
    }

    /// Whether the instruction stores to a local variable.
    pub fn is_stloc(&self) -> (r: bool)
        ensures
            r == (Instruction::spec_short_stloc(self.opcode.value) is Some
                || self.opcode.value is Stloc || self.opcode.value is Stloc_S),
    {
        match self.opcode.value {
            OpCodeValue::Stloc
            | OpCodeValue::Stloc_0
            | OpCodeValue::Stloc_1
            | OpCodeValue::Stloc_2
            | OpCodeValue::Stloc_3
            | OpCodeValue::Stloc_S => true,
            _ => false,
        }
    }

    /// The local variable that the instruction stores to.
    pub fn get_stloc(&self) -> (r: Option<Local>)
        ensures
            match Instruction::spec_short_stloc(self.opcode.value) {
                Some(n) => r matches Some(l) && l.index() == n,
                None => match self.operand@ {
                    OperandView::Local(l) if (self.opcode.value is Stloc
                        || self.opcode.value is Stloc_S) => r == Some(l),
                    _ => r is None,
                },
            },
    {
        match self.opcode.value {
            OpCodeValue::Stloc | OpCodeValue::Stloc_S => match self.operand.to_local() {
                Ok(l) => Some(l),
                Err(_) => None,
            },
            OpCodeValue::Stloc_0 => Some(Local::new(0)),
            OpCodeValue::Stloc_1 => Some(Local::new(1)),
            OpCodeValue::Stloc_2 => Some(Local::new(2)),
            OpCodeValue::Stloc_3 => Some(Local::new(3)),
            _ => None,
        }
    }
}

} // verus!
