//! A cursor over the bytes of an image, and the decoding of instructions.
use vstd::prelude::*;
use crate::cil::cil::enums::{OpCodeValue, OperandType};
use crate::cil::cil::instruction::{FloatBits, Instruction, InstructionView, Operand, OperandView};
use crate::cil::cil::opcode::{OpCode, OpCodes, TWO_BYTE_PREFIX};
use crate::cil::clr::argument::Argument;
use crate::cil::clr::local::Local;
use crate::cil::clr::token::Token;
use crate::error::Error;
use crate::utils::{le_u16, le_u16_at, le_u32, le_u32_at, le_u64, le_u64_at};
use crate::Result;

verus! {

/// The number of bytes of `data` from `pos` on; none if `pos` is past the end.
pub open spec fn available(data: Seq<u8>, pos: int) -> int {
    if 0 <= pos <= data.len() {
        data.len() - pos
    } else {
        0
    }
}

/// The error of a read of `needed` bytes at `pos` that `data` cannot serve.
pub open spec fn short_of(data: Seq<u8>, pos: int, needed: int) -> Error {
    Error::NotEnoughData(needed as usize, available(data, pos) as usize)
}

/// The number that `value` stands for in two's complement, where `modulus`
/// is two to the power of the width in bits.
pub open spec fn signed(value: int, modulus: int) -> int {
    if 2 * value < modulus {
        value
    } else {
        value - modulus
    }
}

/// The largest offset at which an instruction with a branch target is
/// decoded: below it every target fits in 64 bits.
pub const MAX_BRANCH_OFFSET: usize = 0xFFFF_FFFF;

/// The opcode at `pos` and the number of bytes it is written with.
pub open spec fn spec_opcode(data: Seq<u8>, pos: int) -> Result<OpCode> {
    if available(data, pos) < 1 {
        Err(short_of(data, pos, 1))
    } else if data[pos] == TWO_BYTE_PREFIX {
        if available(data, pos + 1) < 1 {
            Err(short_of(data, pos + 1, 1))
        } else {
            Ok(OpCodes::spec_two_byte(data[pos + 1]))
        }
    } else {
        Ok(OpCodes::spec_one_byte(data[pos]))
    }
}

/// Whether the operand of an operation names an argument and not a local
/// variable.
pub open spec fn spec_is_arg_operand(value: OpCodeValue) -> bool {
    value is Ldarg || value is Ldarg_S || value is Ldarga || value is Ldarga_S || value is Starg
        || value is Starg_S
}

/// A four-byte token operand at `pos`.
pub open spec fn spec_token_operand(data: Seq<u8>, pos: int) -> Result<OperandView> {
    if available(data, pos) < 4 {
        Err(short_of(data, pos, 4))
    } else {
        Ok(OperandView::Token(Token { value: le_u32_at(data, pos) as usize }))
    }
}

/// The operand of a branch: the offset after the instruction plus the
/// signed distance written in `width` bytes at `pos`.
pub open spec fn spec_branch_operand(
    data: Seq<u8>,
    pos: int,
    width: int,
    offset: usize,
    opcode: OpCode,
) -> Result<OperandView> {
    if available(data, pos) < width {
        Err(short_of(data, pos, width))
    } else if offset > MAX_BRANCH_OFFSET {
        Err(Error::ConversionError("branch target"))
    } else {
        let distance = if width == 1 {
            signed(data[pos] as int, 0x100)
        } else {
            signed(le_u32_at(data, pos), 0x1_0000_0000)
        };
        Ok(OperandView::Int((offset + opcode.spec_size() + width + distance) as i64))
    }
}

/// The target of case `i` of a switch whose count stands at `pos`:
/// the offset after the instruction plus the signed distance of the case.
pub open spec fn spec_switch_target(
    data: Seq<u8>,
    pos: int,
    offset: usize,
    opcode: OpCode,
    count: int,
    i: int,
) -> i64 {
    (offset + opcode.spec_size() + 4 + 4 * count + signed(
        le_u32_at(data, pos + 4 + 4 * i),
        0x1_0000_0000,
    )) as i64
}

/// The operand of a switch: a count of four bytes at `pos`, then that many
/// distances of four bytes each.
pub open spec fn spec_switch_operand(data: Seq<u8>, pos: int, offset: usize, opcode: OpCode) -> Result<
    OperandView,
> {
    if available(data, pos) < 4 {
        Err(short_of(data, pos, 4))
    } else {
        let count = le_u32_at(data, pos);
        if available(data, pos + 4) < 4 * count {
            Err(short_of(data, pos + 4, 4 * count))
        } else if offset > MAX_BRANCH_OFFSET {
            Err(Error::ConversionError("branch target"))
        } else {
            Ok(
                OperandView::Arguments(
                    Seq::new(
                        count as nat,
                        |i: int| spec_switch_target(data, pos, offset, opcode, count, i),
                    ),
                ),
            )
        }
    }
}

/// The operand that names an argument or a local variable by the number
/// written in `width` bytes at `pos`.
pub open spec fn spec_var_operand(data: Seq<u8>, pos: int, width: int, opcode: OpCode) -> Result<
    OperandView,
> {
    if available(data, pos) < width {
        Err(short_of(data, pos, width))
    } else {
        let index = if width == 1 {
            data[pos] as usize
        } else {
            le_u16_at(data, pos) as usize
        };
        if spec_is_arg_operand(opcode.value) {
            Ok(OperandView::Argument(Argument::spec_new(index)))
        } else {
            Ok(OperandView::Local(Local::spec_new(index)))
        }
    }
}

/// A four-byte token into the heap of user strings at `pos`.
pub open spec fn spec_string_operand(data: Seq<u8>, pos: int) -> Result<OperandView> {
    if available(data, pos) < 4 {
        Err(short_of(data, pos, 4))
    } else {
        Ok(OperandView::StringToken(Token { value: le_u32_at(data, pos) as usize }))
    }
}

/// An integer of four bytes at `pos`, taken as unsigned.
pub open spec fn spec_i4_operand(data: Seq<u8>, pos: int) -> Result<OperandView> {
    if available(data, pos) < 4 {
        Err(short_of(data, pos, 4))
    } else {
        Ok(OperandView::Int(le_u32_at(data, pos) as i64))
    }
}

/// An integer of eight bytes at `pos`, in two's complement.
pub open spec fn spec_i8_operand(data: Seq<u8>, pos: int) -> Result<OperandView> {
    if available(data, pos) < 8 {
        Err(short_of(data, pos, 8))
    } else {
        Ok(OperandView::Int(signed(le_u64_at(data, pos), 0x1_0000_0000_0000_0000) as i64))
    }
}

/// The bits of a floating-point number of four bytes at `pos`.
pub open spec fn spec_r4_operand(data: Seq<u8>, pos: int) -> Result<OperandView> {
    if available(data, pos) < 4 {
        Err(short_of(data, pos, 4))
    } else {
        Ok(OperandView::Float(FloatBits::Single(le_u32_at(data, pos) as u32)))
    }
}

/// The bits of a floating-point number of eight bytes at `pos`.
pub open spec fn spec_r8_operand(data: Seq<u8>, pos: int) -> Result<OperandView> {
    if available(data, pos) < 8 {
        Err(short_of(data, pos, 8))
    } else {
        Ok(OperandView::Float(FloatBits::Double(le_u64_at(data, pos) as u64)))
    }
}

/// An integer of one byte at `pos`: in two's complement for `ldc.i4.s`,
/// unsigned otherwise.
pub open spec fn spec_short_i_operand(data: Seq<u8>, pos: int, opcode: OpCode) -> Result<
    OperandView,
> {
    if available(data, pos) < 1 {
        Err(short_of(data, pos, 1))
    } else if opcode.value is Ldc_I4_S {
        Ok(OperandView::Int(signed(data[pos] as int, 0x100) as i64))
    } else {
        Ok(OperandView::Int(data[pos] as i64))
    }
}

/// The operand of the instruction with the opcode `opcode` at the offset
/// `offset` of its code, where the operand bytes start at `pos`.
pub open spec fn spec_operand(data: Seq<u8>, pos: int, offset: usize, opcode: OpCode) -> Result<
    OperandView,
> {
    match opcode.operand_type {
        OperandType::InlineBrTarget => spec_branch_operand(data, pos, 4, offset, opcode),
        OperandType::ShortInlineBrTarget => spec_branch_operand(data, pos, 1, offset, opcode),
        OperandType::InlineField
        | OperandType::InlineMethod
        | OperandType::InlineSig
        | OperandType::InlineTok
        | OperandType::InlineType => spec_token_operand(data, pos),
        OperandType::InlineString => spec_string_operand(data, pos),
        OperandType::InlineI => spec_i4_operand(data, pos),
        OperandType::InlineI8 => spec_i8_operand(data, pos),
        OperandType::InlineNone | OperandType::InlinePhi => Ok(OperandView::NoOperand),
        OperandType::InlineR => spec_r8_operand(data, pos),
        OperandType::ShortInlineR => spec_r4_operand(data, pos),
        OperandType::InlineSwitch => spec_switch_operand(data, pos, offset, opcode),
        OperandType::InlineVar => spec_var_operand(data, pos, 2, opcode),
        OperandType::ShortInlineVar => spec_var_operand(data, pos, 1, opcode),
        OperandType::ShortInlineI => spec_short_i_operand(data, pos, opcode),
        OperandType::NotUsed8 => Err(Error::UndefinedOperandType(opcode.operand_type)),
    }
}

/// The instruction that starts at `pos`, placed at the offset `offset` of
/// its code.
pub open spec fn spec_instruction(data: Seq<u8>, pos: int, offset: usize) -> Result<
    InstructionView,
> {
    match spec_opcode(data, pos) {
        Err(e) => Err(e),
        Ok(opcode) => match spec_operand(data, pos + opcode.spec_size(), offset, opcode) {
            Err(e) => Err(e),
            Ok(operand) => Ok(InstructionView { offset, opcode, operand }),
        },
    }
}

/// A cursor over a byte slice.
pub struct Reader<'a> {
    cil_opcodes: OpCodes,
    data: &'a [u8],
    pos: usize,
}

impl<'a> Reader<'a> {
    /// The bytes the cursor runs over.
    pub closed spec fn bytes(&self) -> Seq<u8> {
        self.data@
    }

    /// The position of the cursor. It may lie past the end.
    pub closed spec fn position(&self) -> usize {
        self.pos
    }

    /// The number of bytes from the cursor on.
    pub open spec fn left(&self) -> int {
        available(self.bytes(), self.position() as int)
    }

    /// What holds of the cursor after a read of `n` bytes that was served.
    pub open spec fn advanced(&self, before: &Reader<'a>, n: int) -> bool {
        &&& before.left() >= n
        &&& self.bytes() == before.bytes()
        &&& self.position() == before.position() + n
    }

    /// What holds of the cursor and the error after a read of `n` bytes
    /// that was not served: the cursor has not moved.
    pub open spec fn refused(&self, before: &Reader<'a>, n: int, e: Error) -> bool {
        &&& before.left() < n
        &&& self.bytes() == before.bytes()
        &&& self.position() == before.position()
        &&& e == short_of(before.bytes(), before.position() as int, n)
    }

    /// What holds of the cursor and the result after an operand of
    /// `width` bytes was read that `expected` describes: the cursor stands
    /// behind the operand.
    pub open spec fn read_as(
        &self,
        before: &Reader<'a>,
        r: Result<Operand>,
        expected: Result<OperandView>,
        width: int,
    ) -> bool {
        &&& self.bytes() == before.bytes()
        &&& match r {
            Ok(operand) => {
                &&& expected == Ok::<OperandView, Error>(operand@)
                &&& self.position() == before.position() + width
                &&& width > 0 ==> self.position() <= self.bytes().len()
            },
            Err(e) => expected == Err::<OperandView, Error>(e),
        }
    }

    /// What holds of the cursor and the result after an operand was read
    /// that `expected` describes: the cursor stands behind the operand.
    pub open spec fn read_operand_as(
        &self,
        before: &Reader<'a>,
        insn: &Instruction,
        r: Result<Operand>,
        expected: Result<OperandView>,
    ) -> bool {
        &&& self.bytes() == before.bytes()
        &&& match r {
            Ok(operand) => {
                &&& expected == Ok::<OperandView, Error>(operand@)
                &&& self.position() == before.position() + crate::cil::cil::instruction::spec_operand_width(
                    insn.opcode.operand_type,
                    operand@,
                )
                &&& (self.position() <= self.bytes().len() || self.position()
                    == before.position())
            },
            Err(e) => expected == Err::<OperandView, Error>(e),
        }
    }

    /// A cursor at the start of `bytes`.
    pub fn new(bytes: &'a [u8]) -> (r: Self)
        ensures
            r.bytes() == bytes@,
            r.position() == 0,
    {
        Self { cil_opcodes: OpCodes::new(), data: bytes, pos: 0 }
    }

    /// The position of the cursor.
    pub fn tell(&self) -> (r: Result<usize>)
        ensures
            r == Ok::<usize, Error>(self.position()),
    {
        Ok(self.pos)
    }

    /// The number of bytes from the cursor on.
    pub fn bytes_left(&self) -> (r: usize)
        ensures
            r == self.left(),
            self.bytes().len() <= usize::MAX,
    {
        if self.pos <= self.data.len() {
            self.data.len() - self.pos
        } else {
            0
        }
    }

    /// Moves the cursor to `pos`, which may lie past the end.
    pub fn seek(&mut self, pos: usize) -> (r: Result<usize>)
        ensures
            r == Ok::<usize, Error>(pos),
            final(self).position() == pos,
            final(self).bytes() == old(self).bytes(),
    {
        self.pos = pos;
        Ok(pos)
    }

    /// Whether the operand of `insn` names an argument and not a local
    /// variable.
    pub fn is_arg_operand_instruction(&self, insn: &Instruction) -> (r: bool)
        ensures
            r == spec_is_arg_operand(insn.opcode.value),
    {
        match insn.opcode.value {
            OpCodeValue::Ldarg
            | OpCodeValue::Ldarg_S
            | OpCodeValue::Ldarga
            | OpCodeValue::Ldarga_S
            | OpCodeValue::Starg
            | OpCodeValue::Starg_S => true,
            _ => false,
        }
    }

    /// Hands out the next `n` bytes and moves behind them.
    fn take(&mut self, n: usize) -> (r: Result<&'a [u8]>)
        requires
            n >= 1,
        ensures
            match r {
                Ok(s) => final(self).advanced(old(self), n as int) && s@ == old(self).bytes().subrange(
                    old(self).position() as int,
                    old(self).position() + n,
                ),
                Err(e) => final(self).refused(old(self), n as int, e),
            },
    {
        let len = self.data.len();
        if self.pos > len {
            return Err(Error::NotEnoughData(n, 0));
        }
        if len - self.pos < n {
            return Err(Error::NotEnoughData(n, len - self.pos));
        }
        let s = vstd::slice::slice_subrange(self.data, self.pos, self.pos + n);
        self.pos = self.pos + n;
        Ok(s)
    }

    /// Reads one byte.
    pub fn read_u8(&mut self) -> (r: Result<u8>)
        ensures
            match r {
                Ok(v) => final(self).advanced(old(self), 1) && v == old(self).bytes()[old(
                    self,
                ).position() as int],
                Err(e) => final(self).refused(old(self), 1, e),
            },
    {
        let s = self.take(1)?;
        Ok(s[0])
    }

    /// Reads one byte as a number in two's complement.
    pub fn read_i8(&mut self) -> (r: Result<i8>)
        ensures
            match r {
                Ok(v) => final(self).advanced(old(self), 1) && v == signed(
                    old(self).bytes()[old(self).position() as int] as int,
                    0x100,
                ),
                Err(e) => final(self).refused(old(self), 1, e),
            },
    {
        let b = self.read_u8()?;
        if b < 0x80 {
            Ok(b as i8)
        } else {
            Ok((b as i16 - 0x100) as i8)
        }
    }

    /// Reads two bytes, the low one first.
    pub fn read_u16(&mut self) -> (r: Result<u16>)
        ensures
            match r {
                Ok(v) => final(self).advanced(old(self), 2) && v == le_u16_at(
                    old(self).bytes(),
                    old(self).position() as int,
                ),
                Err(e) => final(self).refused(old(self), 2, e),
            },
    {
        let s = self.take(2)?;
        Ok(le_u16(s))
    }

    /// Reads two bytes, the low one first, as a number in two's complement.
    pub fn read_i16(&mut self) -> (r: Result<i16>)
        ensures
            match r {
                Ok(v) => final(self).advanced(old(self), 2) && v == signed(
                    le_u16_at(old(self).bytes(), old(self).position() as int),
                    0x1_0000,
                ),
                Err(e) => final(self).refused(old(self), 2, e),
            },
    {
        let v = self.read_u16()?;
        if v < 0x8000 {
            Ok(v as i16)
        } else {
            Ok((v as i32 - 0x1_0000) as i16)
        }
    }

    /// Reads four bytes, the lowest first.
    pub fn read_u32(&mut self) -> (r: Result<u32>)
        ensures
            match r {
                Ok(v) => final(self).advanced(old(self), 4) && v == le_u32_at(
                    old(self).bytes(),
                    old(self).position() as int,
                ),
                Err(e) => final(self).refused(old(self), 4, e),
            },
    {
        let s = self.take(4)?;
        Ok(le_u32(s))
    }

    /// Reads four bytes, the lowest first, as a number in two's complement.
    pub fn read_i32(&mut self) -> (r: Result<i32>)
        ensures
            match r {
                Ok(v) => final(self).advanced(old(self), 4) && v == signed(
                    le_u32_at(old(self).bytes(), old(self).position() as int),
                    0x1_0000_0000,
                ),
                Err(e) => final(self).refused(old(self), 4, e),
            },
    {
        let v = self.read_u32()?;
        if v < 0x8000_0000 {
            Ok(v as i32)
        } else {
            Ok((v as i64 - 0x1_0000_0000) as i32)
        }
    }

    /// Reads eight bytes, the lowest first.
    pub fn read_u64(&mut self) -> (r: Result<u64>)
        ensures
            match r {
                Ok(v) => final(self).advanced(old(self), 8) && v == le_u64_at(
                    old(self).bytes(),
                    old(self).position() as int,
                ),
                Err(e) => final(self).refused(old(self), 8, e),
            },
    {
        let s = self.take(8)?;
        Ok(le_u64(s))
    }

    /// Reads eight bytes, the lowest first, as a number in two's complement.
    pub fn read_i64(&mut self) -> (r: Result<i64>)
        ensures
            match r {
                Ok(v) => final(self).advanced(old(self), 8) && v == signed(
                    le_u64_at(old(self).bytes(), old(self).position() as int),
                    0x1_0000_0000_0000_0000,
                ),
                Err(e) => final(self).refused(old(self), 8, e),
            },
    {
        let v = self.read_u64()?;
        if v < 0x8000_0000_0000_0000 {
            Ok(v as i64)
        } else {
            Ok((v as i128 - 0x1_0000_0000_0000_0000) as i64)
        }
    }

    /// Reads the four bytes of a 32-bit floating-point number, as bits.
    pub fn read_f32(&mut self) -> (r: Result<u32>)
        ensures
            match r {
                Ok(v) => final(self).advanced(old(self), 4) && v == le_u32_at(
                    old(self).bytes(),
                    old(self).position() as int,
                ),
                Err(e) => final(self).refused(old(self), 4, e),
            },
    {
        self.read_u32()
    }

    /// Reads the eight bytes of a 64-bit floating-point number, as bits.
    pub fn read_f64(&mut self) -> (r: Result<u64>)
        ensures
            match r {
                Ok(v) => final(self).advanced(old(self), 8) && v == le_u64_at(
                    old(self).bytes(),
                    old(self).position() as int,
                ),
                Err(e) => final(self).refused(old(self), 8, e),
            },
    {
        self.read_u64()
    }

    /// Reads the distance of a branch, written in `width` bytes, and gives
    /// its target.
    fn read_branch(&mut self, insn: &Instruction, width: usize) -> (r: Result<Operand>)
        requires
            width == 1 || width == 4,
        ensures
            final(self).read_as(
                old(self),
                r,
                spec_branch_operand(
                    old(self).bytes(),
                    old(self).position() as int,
                    width as int,
                    insn.offset,
                    insn.opcode,
                ),
                width as int,
            ),
    {
        let distance: i64 = if width == 1 {
            self.read_i8()? as i64
        } else {
            self.read_i32()? as i64
        };
        if insn.offset > MAX_BRANCH_OFFSET {
            return Err(Error::ConversionError("branch target"));
        }
        Ok(Operand::Int(insn.offset as i64 + insn.opcode.size() as i64 + width as i64 + distance))
    }

    /// Reads a token of four bytes.
    fn read_token(&mut self) -> (r: Result<Token>)
        ensures
            final(self).bytes() == old(self).bytes(),
            match r {
                Ok(t) => spec_token_operand(old(self).bytes(), old(self).position() as int) == Ok::<
                    OperandView,
                    Error,
                >(OperandView::Token(t)) && final(self).advanced(old(self), 4),
                Err(e) => spec_token_operand(old(self).bytes(), old(self).position() as int)
                    == Err::<OperandView, Error>(e),
            },
    {
        let value = self.read_u32()? as usize;
        Ok(Token::new(value))
    }

    /// Reads the target of a long branch: the offset behind the instruction plus
    /// the signed distance of four bytes.
    pub fn read_inline_br_target(&mut self, insn: &Instruction) -> (r: Result<Operand>)
        ensures
            final(self).read_as(
                old(self),
                r,
                spec_branch_operand(old(self).bytes(), old(self).position() as int, 4, insn.offset, insn.opcode),
                4,
            ),
    {
        self.read_branch(insn, 4)
    }

    /// Reads the target of a short branch: the offset behind the instruction
    /// plus the signed distance of one byte.
    pub fn read_short_inline_br_target(&mut self, insn: &Instruction) -> (r: Result<Operand>)
        ensures
            final(self).read_as(
                old(self),
                r,
                spec_branch_operand(old(self).bytes(), old(self).position() as int, 1, insn.offset, insn.opcode),
                1,
            ),
    {
        self.read_branch(insn, 1)
    }

    /// Reads the token of a field.
    pub fn read_inline_field(&mut self, _insn: &Instruction) -> (r: Result<Operand>)
        ensures
            final(self).read_as(
                old(self),
                r,
                spec_token_operand(old(self).bytes(), old(self).position() as int),
                4,
            ),
    {
        Ok(Operand::Token(self.read_token()?))
    }

    /// Reads the token of a method.
    pub fn read_inline_method(&mut self, _insn: &Instruction) -> (r: Result<Operand>)
        ensures
            final(self).read_as(
                old(self),
                r,
                spec_token_operand(old(self).bytes(), old(self).position() as int),
                4,
            ),
    {
        Ok(Operand::Token(self.read_token()?))
    }

    /// Reads the token of a signature.
    pub fn read_inline_sig(&mut self, _insn: &Instruction) -> (r: Result<Operand>)
        ensures
            final(self).read_as(
                old(self),
                r,
                spec_token_operand(old(self).bytes(), old(self).position() as int),
                4,
            ),
    {
        Ok(Operand::Token(self.read_token()?))
    }

    /// Reads the token of any table.
    pub fn read_inline_tok(&mut self, _insn: &Instruction) -> (r: Result<Operand>)
        ensures
            final(self).read_as(
                old(self),
                r,
                spec_token_operand(old(self).bytes(), old(self).position() as int),
                4,
            ),
    {
        Ok(Operand::Token(self.read_token()?))
    }

    /// Reads the token of a type.
    pub fn read_inline_type(&mut self, _insn: &Instruction) -> (r: Result<Operand>)
        ensures
            final(self).read_as(
                old(self),
                r,
                spec_token_operand(old(self).bytes(), old(self).position() as int),
                4,
            ),
    {
        Ok(Operand::Token(self.read_token()?))
    }

    /// Reads the token of a string literal.
    pub fn read_inline_string(&mut self, _insn: &Instruction) -> (r: Result<Operand>)
        ensures
            final(self).read_as(
                old(self),
                r,
                spec_string_operand(old(self).bytes(), old(self).position() as int),
                4,
            ),
    {
        Ok(Operand::StringToken(self.read_token()?))
    }

    /// Reads an integer of four bytes, taken as unsigned.
    pub fn read_inline_i(&mut self, _insn: &Instruction) -> (r: Result<Operand>)
        ensures
            final(self).read_as(
                old(self),
                r,
                spec_i4_operand(old(self).bytes(), old(self).position() as int),
                4,
            ),
    {
        let v = self.read_u32()? as i64;
        Ok(Operand::Int(v))
    }

    /// Reads an integer of eight bytes.
    pub fn read_inline_i8(&mut self, _insn: &Instruction) -> (r: Result<Operand>)
        ensures
            final(self).read_as(
                old(self),
                r,
                spec_i8_operand(old(self).bytes(), old(self).position() as int),
                8,
            ),
    {
        let v = self.read_i64()?;
        Ok(Operand::Int(v))
    }

    /// Reads nothing: the instruction has no operand.
    pub fn read_inline_none(&mut self, _insn: &Instruction) -> (r: Result<Operand>)
        ensures
            final(self).read_as(
                old(self),
                r,
                Ok::<OperandView, Error>(OperandView::NoOperand),
                0,
            ),
    {
        Ok(Operand::NoOperand)
    }

    /// Reads nothing: the operand kind is reserved.
    pub fn read_inline_phi(&mut self, _insn: &Instruction) -> (r: Result<Operand>)
        ensures
            final(self).read_as(
                old(self),
                r,
                Ok::<OperandView, Error>(OperandView::NoOperand),
                0,
            ),
    {
        Ok(Operand::NoOperand)
    }

    /// Reads the bits of a floating-point number of eight bytes.
    pub fn read_inline_r(&mut self, _insn: &Instruction) -> (r: Result<Operand>)
        ensures
            final(self).read_as(
                old(self),
                r,
                spec_r8_operand(old(self).bytes(), old(self).position() as int),
                8,
            ),
    {
        let v = self.read_f64()?;
        Ok(Operand::Float(FloatBits::Double(v)))
    }

    /// Reads the bits of a floating-point number of four bytes.
    pub fn read_short_inline_r(&mut self, _insn: &Instruction) -> (r: Result<Operand>)
        ensures
            final(self).read_as(
                old(self),
                r,
                spec_r4_operand(old(self).bytes(), old(self).position() as int),
                4,
            ),
    {
        let v = self.read_f32()?;
        Ok(Operand::Float(FloatBits::Single(v)))
    }

    /// Reads the count and the targets of a switch.
    pub fn read_inline_switch(&mut self, insn: &Instruction) -> (r: Result<Operand>)
        ensures
            final(self).read_as(
                old(self),
                r,
                spec_switch_operand(
                    old(self).bytes(),
                    old(self).position() as int,
                    insn.offset,
                    insn.opcode,
                ),
                match r {
                    Ok(Operand::Arguments(targets)) => 4 + 4 * (targets@.len() as int),
                    _ => 4,
                },
            ),
    {
        let ghost start = self.pos as int;
        let ghost data = self.data@;
        let count = self.read_u32()?;
        let len = self.data.len();
        if count as usize > (len - self.pos) / 4 {
            let needed: u64 = 4 * (count as u64);
            return Err(
                Error::NotEnoughData(
                    #[verifier::truncate]
                    (needed as usize),
                    len - self.pos,
                ),
            );
        }
        if insn.offset > MAX_BRANCH_OFFSET {
            return Err(Error::ConversionError("branch target"));
        }
        let after: i64 = insn.offset as i64 + insn.opcode.size() as i64 + 4 + 4 * (count as i64);
        let mut targets: Vec<i64> = Vec::new();
        let mut i: u32 = 0;
        while i < count
            invariant
                i <= count,
                self.data@ == data,
                start + 4 + 4 * count <= data.len(),
                self.pos == start + 4 + 4 * i,
                insn.offset <= MAX_BRANCH_OFFSET,
                after == insn.offset + insn.opcode.spec_size() + 4 + 4 * count,
                targets@.len() == i,
                forall|k: int|
                    0 <= k < i ==> targets@[k] == spec_switch_target(
                        data,
                        start,
                        insn.offset,
                        insn.opcode,
                        count as int,
                        k,
                    ),
            decreases count - i,
        {
            let distance = self.read_i32()?;
            targets.push(after + distance as i64);
            i = i + 1;
        }
        assert(targets@ =~= Seq::new(
            count as nat,
            |k: int| spec_switch_target(data, start, insn.offset, insn.opcode, count as int, k),
        ));
        Ok(Operand::Arguments(targets))
    }

    /// Reads the two-byte number of an argument or a local variable.
    pub fn read_inline_var(&mut self, insn: &Instruction) -> (r: Result<Operand>)
        ensures
            final(self).read_as(
                old(self),
                r,
                spec_var_operand(old(self).bytes(), old(self).position() as int, 2, insn.opcode),
                2,
            ),
    {
        let index = self.read_u16()? as usize;
        if self.is_arg_operand_instruction(insn) {
            Ok(Operand::Argument(Argument::new(index)))
        } else {
            Ok(Operand::Local(Local::new(index)))
        }
    }

    /// Reads the one-byte number of an argument or a local variable.
    pub fn read_short_inline_var(&mut self, insn: &Instruction) -> (r: Result<Operand>)
        ensures
            final(self).read_as(
                old(self),
                r,
                spec_var_operand(old(self).bytes(), old(self).position() as int, 1, insn.opcode),
                1,
            ),
    {
        let index = self.read_u8()? as usize;
        if self.is_arg_operand_instruction(insn) {
            Ok(Operand::Argument(Argument::new(index)))
        } else {
            Ok(Operand::Local(Local::new(index)))
        }
    }

    /// Reads an integer of one byte: signed for `ldc.i4.s`, unsigned
    /// otherwise.
    pub fn read_short_inline_i(&mut self, insn: &Instruction) -> (r: Result<Operand>)
        ensures
            final(self).read_as(
                old(self),
                r,
                spec_short_i_operand(old(self).bytes(), old(self).position() as int, insn.opcode),
                1,
            ),
    {
        match insn.opcode.value {
            OpCodeValue::Ldc_I4_S => {
                let v = self.read_i8()?;
                Ok(Operand::Int(v as i64))
            },
            _ => {
                let v = self.read_u8()?;
                Ok(Operand::Int(v as i64))
            },
        }
    }

    /// Reads the opcode at the cursor: one byte, or the escape `0xFE` and
    /// one byte of the second table.
    pub fn read_opcode(&mut self) -> (r: Result<OpCode>)
        ensures
            final(self).bytes() == old(self).bytes(),
            match r {
                Ok(opcode) => spec_opcode(old(self).bytes(), old(self).position() as int) == Ok::<
                    OpCode,
                    Error,
                >(opcode) && final(self).advanced(old(self), opcode.spec_size() as int),
                Err(e) => spec_opcode(old(self).bytes(), old(self).position() as int) == Err::<
                    OpCode,
                    Error,
                >(e),
            },
    {
        let first = self.read_u8()?;
        if first == TWO_BYTE_PREFIX {
            let second = self.read_u8()?;
            Ok(self.cil_opcodes.two_byte(second))
        } else {
            Ok(self.cil_opcodes.one_byte(first))
        }
    }

    /// Reads the operand that the opcode of `insn` asks for.
    pub fn read_operand(&mut self, insn: &Instruction) -> (r: Result<Operand>)
        ensures
            final(self).read_operand_as(
                old(self),
                insn,
                r,
                spec_operand(
                    old(self).bytes(),
                    old(self).position() as int,
                    insn.offset,
                    insn.opcode,
                ),
            ),
    {
        match insn.opcode.operand_type {
            OperandType::InlineBrTarget => self.read_inline_br_target(insn),
            OperandType::InlineField => self.read_inline_field(insn),
            OperandType::InlineI => self.read_inline_i(insn),
            OperandType::InlineI8 => self.read_inline_i8(insn),
            OperandType::InlineMethod => self.read_inline_method(insn),
            OperandType::InlineNone => self.read_inline_none(insn),
            OperandType::InlinePhi => self.read_inline_phi(insn),
            OperandType::InlineR => self.read_inline_r(insn),
            OperandType::InlineSig => self.read_inline_sig(insn),
            OperandType::InlineString => self.read_inline_string(insn),
            OperandType::InlineSwitch => self.read_inline_switch(insn),
            OperandType::InlineTok => self.read_inline_tok(insn),
            OperandType::InlineType => self.read_inline_type(insn),
            OperandType::InlineVar => self.read_inline_var(insn),
            OperandType::ShortInlineBrTarget => self.read_short_inline_br_target(insn),
            OperandType::ShortInlineI => self.read_short_inline_i(insn),
            OperandType::ShortInlineR => self.read_short_inline_r(insn),
            OperandType::ShortInlineVar => self.read_short_inline_var(insn),
            OperandType::NotUsed8 => Err(Error::UndefinedOperandType(insn.opcode.operand_type)),
        }
    }

    /// Reads the instruction at the cursor and places it at the offset
    /// `off` of its code.
    pub fn read_instruction(&mut self, off: usize) -> (r: Result<Instruction>)
        ensures
            final(self).bytes() == old(self).bytes(),
            match r {
                Ok(insn) => {
                    &&& spec_instruction(old(self).bytes(), old(self).position() as int, off)
                        == Ok::<InstructionView, Error>(insn@)
                    &&& final(self).position() == old(self).position() + insn@.size()
                    &&& final(self).position() <= final(self).bytes().len()
                },
                Err(e) => spec_instruction(old(self).bytes(), old(self).position() as int, off)
                    == Err::<InstructionView, Error>(e),
            },
    {
        let mut insn = Instruction::new();
        insn.offset = off;
        insn.opcode = self.read_opcode()?;
        insn.operand = self.read_operand(&insn)?;
        Ok(insn)
    }
}

} // verus!
