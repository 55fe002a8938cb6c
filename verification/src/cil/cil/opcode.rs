//! The two opcode tables: one for a lone byte, one for the byte after the
//! escape `0xFE`.
use vstd::prelude::*;
use super::enums::{OpCodeValue, OperandType};

verus! {

/// The byte that announces an opcode of the second table.
pub const TWO_BYTE_PREFIX: u8 = 0xFE;

/// The operation that a byte without prefix stands for.
pub open spec fn spec_one_byte_value(b: u8) -> OpCodeValue {
    match b {
        0x00 => OpCodeValue::Nop,
        0x01 => OpCodeValue::Break,
        0x02 => OpCodeValue::Ldarg_0,
        0x03 => OpCodeValue::Ldarg_1,
        0x04 => OpCodeValue::Ldarg_2,
        0x05 => OpCodeValue::Ldarg_3,
        0x06 => OpCodeValue::Ldloc_0,
        0x07 => OpCodeValue::Ldloc_1,
        0x08 => OpCodeValue::Ldloc_2,
        0x09 => OpCodeValue::Ldloc_3,
        0x0A => OpCodeValue::Stloc_0,
        0x0B => OpCodeValue::Stloc_1,
        0x0C => OpCodeValue::Stloc_2,
        0x0D => OpCodeValue::Stloc_3,
        0x0E => OpCodeValue::Ldarg_S,
        0x0F => OpCodeValue::Ldarga_S,
        0x10 => OpCodeValue::Starg_S,
        0x11 => OpCodeValue::Ldloc_S,
        0x12 => OpCodeValue::Ldloca_S,
        0x13 => OpCodeValue::Stloc_S,
        0x14 => OpCodeValue::Ldnull,
        0x15 => OpCodeValue::Ldc_I4_M1,
        0x16 => OpCodeValue::Ldc_I4_0,
        0x17 => OpCodeValue::Ldc_I4_1,
        0x18 => OpCodeValue::Ldc_I4_2,
        0x19 => OpCodeValue::Ldc_I4_3,
        0x1A => OpCodeValue::Ldc_I4_4,
        0x1B => OpCodeValue::Ldc_I4_5,
        0x1C => OpCodeValue::Ldc_I4_6,
        0x1D => OpCodeValue::Ldc_I4_7,
        0x1E => OpCodeValue::Ldc_I4_8,
        0x1F => OpCodeValue::Ldc_I4_S,
        0x20 => OpCodeValue::Ldc_I4,
        0x21 => OpCodeValue::Ldc_I8,
        0x22 => OpCodeValue::Ldc_R4,
        0x23 => OpCodeValue::Ldc_R8,
        0x25 => OpCodeValue::Dup,
        0x26 => OpCodeValue::Pop,
        0x27 => OpCodeValue::Jmp,
        0x28 => OpCodeValue::Call,
        0x29 => OpCodeValue::Calli,
        0x2A => OpCodeValue::Ret,
        0x2B => OpCodeValue::Br_S,
        0x2C => OpCodeValue::Brfalse_S,
        0x2D => OpCodeValue::Brtrue_S,
        0x2E => OpCodeValue::Beq_S,
        0x2F => OpCodeValue::Bge_S,
        0x30 => OpCodeValue::Bgt_S,
        0x31 => OpCodeValue::Ble_S,
        0x32 => OpCodeValue::Blt_S,
        0x33 => OpCodeValue::Bne_Un_S,
        0x34 => OpCodeValue::Bge_Un_S,
        0x35 => OpCodeValue::Bgt_Un_S,
        0x36 => OpCodeValue::Ble_Un_S,
        0x37 => OpCodeValue::Blt_Un_S,
        0x38 => OpCodeValue::Br,
        0x39 => OpCodeValue::Brfalse,
        0x3A => OpCodeValue::Brtrue,
        0x3B => OpCodeValue::Beq,
        0x3C => OpCodeValue::Bge,
        0x3D => OpCodeValue::Bgt,
        0x3E => OpCodeValue::Ble,
        0x3F => OpCodeValue::Blt,
        0x40 => OpCodeValue::Bne_Un,
        0x41 => OpCodeValue::Bge_Un,
        0x42 => OpCodeValue::Bgt_Un,
        0x43 => OpCodeValue::Ble_Un,
        0x44 => OpCodeValue::Blt_Un,
        0x45 => OpCodeValue::Switch,
        0x46 => OpCodeValue::Ldind_I1,
        0x47 => OpCodeValue::Ldind_U1,
        0x48 => OpCodeValue::Ldind_I2,
        0x49 => OpCodeValue::Ldind_U2,
        0x4A => OpCodeValue::Ldind_I4,
        0x4B => OpCodeValue::Ldind_U4,
        0x4C => OpCodeValue::Ldind_I8,
        0x4D => OpCodeValue::Ldind_I,
        0x4E => OpCodeValue::Ldind_R4,
        0x4F => OpCodeValue::Ldind_R8,
        0x50 => OpCodeValue::Ldind_Ref,
        0x51 => OpCodeValue::Stind_Ref,
        0x52 => OpCodeValue::Stind_I1,
        0x53 => OpCodeValue::Stind_I2,
        0x54 => OpCodeValue::Stind_I4,
        0x55 => OpCodeValue::Stind_I8,
        0x56 => OpCodeValue::Stind_R4,
        0x57 => OpCodeValue::Stind_R8,
        0x58 => OpCodeValue::Add,
        0x59 => OpCodeValue::Sub,
        0x5A => OpCodeValue::Mul,
        0x5B => OpCodeValue::Div,
        0x5C => OpCodeValue::Div_Un,
        0x5D => OpCodeValue::Rem,
        0x5E => OpCodeValue::Rem_Un,
        0x5F => OpCodeValue::And,
        0x60 => OpCodeValue::Or,
        0x61 => OpCodeValue::Xor,
        0x62 => OpCodeValue::Shl,
        0x63 => OpCodeValue::Shr,
        0x64 => OpCodeValue::Shr_Un,
        0x65 => OpCodeValue::Neg,
        0x66 => OpCodeValue::Not,
        0x67 => OpCodeValue::Conv_I1,
        0x68 => OpCodeValue::Conv_I2,
        0x69 => OpCodeValue::Conv_I4,
        0x6A => OpCodeValue::Conv_I8,
        0x6B => OpCodeValue::Conv_R4,
        0x6C => OpCodeValue::Conv_R8,
        0x6D => OpCodeValue::Conv_U4,
        0x6E => OpCodeValue::Conv_U8,
        0x6F => OpCodeValue::Callvirt,
        0x70 => OpCodeValue::Cpobj,
        0x71 => OpCodeValue::Ldobj,
        0x72 => OpCodeValue::Ldstr,
        0x73 => OpCodeValue::Newobj,
        0x74 => OpCodeValue::Castclass,
        0x75 => OpCodeValue::Isinst,
        0x76 => OpCodeValue::Conv_R_Un,
        0x79 => OpCodeValue::Unbox,
        0x7A => OpCodeValue::Throw,
        0x7B => OpCodeValue::Ldfld,
        0x7C => OpCodeValue::Ldflda,
        0x7D => OpCodeValue::Stfld,
        0x7E => OpCodeValue::Ldsfld,
        0x7F => OpCodeValue::Ldsflda,
        0x80 => OpCodeValue::Stsfld,
        0x81 => OpCodeValue::Stobj,
        0x82 => OpCodeValue::Conv_Ovf_I1_Un,
        0x83 => OpCodeValue::Conv_Ovf_I2_Un,
        0x84 => OpCodeValue::Conv_Ovf_I4_Un,
        0x85 => OpCodeValue::Conv_Ovf_I8_Un,
        0x86 => OpCodeValue::Conv_Ovf_U1_Un,
        0x87 => OpCodeValue::Conv_Ovf_U2_Un,
        0x88 => OpCodeValue::Conv_Ovf_U4_Un,
        0x89 => OpCodeValue::Conv_Ovf_U8_Un,
        0x8A => OpCodeValue::Conv_Ovf_I_Un,
        0x8B => OpCodeValue::Conv_Ovf_U_Un,
        0x8C => OpCodeValue::Box,
        0x8D => OpCodeValue::Newarr,
        0x8E => OpCodeValue::Ldlen,
        0x8F => OpCodeValue::Ldelema,
        0x90 => OpCodeValue::Ldelem_I1,
        0x91 => OpCodeValue::Ldelem_U1,
        0x92 => OpCodeValue::Ldelem_I2,
        0x93 => OpCodeValue::Ldelem_U2,
        0x94 => OpCodeValue::Ldelem_I4,
        0x95 => OpCodeValue::Ldelem_U4,
        0x96 => OpCodeValue::Ldelem_I8,
        0x97 => OpCodeValue::Ldelem_I,
        0x98 => OpCodeValue::Ldelem_R4,
        0x99 => OpCodeValue::Ldelem_R8,
        0x9A => OpCodeValue::Ldelem_Ref,
        0x9B => OpCodeValue::Stelem_I,
        0x9C => OpCodeValue::Stelem_I1,
        0x9D => OpCodeValue::Stelem_I2,
        0x9E => OpCodeValue::Stelem_I4,
        0x9F => OpCodeValue::Stelem_I8,
        0xA0 => OpCodeValue::Stelem_R4,
        0xA1 => OpCodeValue::Stelem_R8,
        0xA2 => OpCodeValue::Stelem_Ref,
        0xA3 => OpCodeValue::Ldelem,
        0xA4 => OpCodeValue::Stelem,
        0xA5 => OpCodeValue::Unbox_Any,
        0xB3 => OpCodeValue::Conv_Ovf_I1,
        0xB4 => OpCodeValue::Conv_Ovf_U1,
        0xB5 => OpCodeValue::Conv_Ovf_I2,
        0xB6 => OpCodeValue::Conv_Ovf_U2,
        0xB7 => OpCodeValue::Conv_Ovf_I4,
        0xB8 => OpCodeValue::Conv_Ovf_U4,
        0xB9 => OpCodeValue::Conv_Ovf_I8,
        0xBA => OpCodeValue::Conv_Ovf_U8,
        0xC2 => OpCodeValue::Refanyval,
        0xC3 => OpCodeValue::Ckfinite,
        0xC6 => OpCodeValue::Mkrefany,
        0xD0 => OpCodeValue::Ldtoken,
        0xD1 => OpCodeValue::Conv_U2,
        0xD2 => OpCodeValue::Conv_U1,
        0xD3 => OpCodeValue::Conv_I,
        0xD4 => OpCodeValue::Conv_Ovf_I,
        0xD5 => OpCodeValue::Conv_Ovf_U,
        0xD6 => OpCodeValue::Add_Ovf,
        0xD7 => OpCodeValue::Add_Ovf_Un,
        0xD8 => OpCodeValue::Mul_Ovf,
        0xD9 => OpCodeValue::Mul_Ovf_Un,
        0xDA => OpCodeValue::Sub_Ovf,
        0xDB => OpCodeValue::Sub_Ovf_Un,
        0xDC => OpCodeValue::Endfinally,
        0xDD => OpCodeValue::Leave,
        0xDE => OpCodeValue::Leave_S,
        0xDF => OpCodeValue::Stind_I,
        0xE0 => OpCodeValue::Conv_U,
        0xF8 => OpCodeValue::Prefix7,
        0xF9 => OpCodeValue::Prefix6,
        0xFA => OpCodeValue::Prefix5,
        0xFB => OpCodeValue::Prefix4,
        0xFC => OpCodeValue::Prefix3,
        0xFD => OpCodeValue::Prefix2,
        0xFE => OpCodeValue::Prefix1,
        0xFF => OpCodeValue::Prefixref,
        _ => OpCodeValue::UNKNOWN1,
    }
}

/// The operation that a byte after the escape `0xFE` stands for.
pub open spec fn spec_two_byte_value(b: u8) -> OpCodeValue {
    match b {
        0x00 => OpCodeValue::Arglist,
        0x01 => OpCodeValue::Ceq,
        0x02 => OpCodeValue::Cgt,
        0x03 => OpCodeValue::Cgt_Un,
        0x04 => OpCodeValue::Clt,
        0x05 => OpCodeValue::Clt_Un,
        0x06 => OpCodeValue::Ldftn,
        0x07 => OpCodeValue::Ldvirtftn,
        0x09 => OpCodeValue::Ldarg,
        0x0A => OpCodeValue::Ldarga,
        0x0B => OpCodeValue::Starg,
        0x0C => OpCodeValue::Ldloc,
        0x0D => OpCodeValue::Ldloca,
        0x0E => OpCodeValue::Stloc,
        0x0F => OpCodeValue::Localloc,
        0x11 => OpCodeValue::Endfilter,
        0x12 => OpCodeValue::Unaligned,
        0x13 => OpCodeValue::Volatile,
        0x14 => OpCodeValue::Tailcall,
        0x15 => OpCodeValue::Initobj,
        0x16 => OpCodeValue::Constrained,
        0x17 => OpCodeValue::Cpblk,
        0x18 => OpCodeValue::Initblk,
        0x19 => OpCodeValue::No,
        0x1A => OpCodeValue::Rethrow,
        0x1C => OpCodeValue::Sizeof,
        0x1D => OpCodeValue::Refanytype,
        0x1E => OpCodeValue::Readonly,
        _ => OpCodeValue::UNKNOWN2,
    }
}

/// The kind of operand that follows an operation.
pub open spec fn spec_operand_type(value: OpCodeValue) -> OperandType {
    match value {
        OpCodeValue::Br | OpCodeValue::Brfalse | OpCodeValue::Brtrue | OpCodeValue::Beq
        | OpCodeValue::Bge | OpCodeValue::Bgt | OpCodeValue::Ble | OpCodeValue::Blt
        | OpCodeValue::Bne_Un | OpCodeValue::Bge_Un | OpCodeValue::Bgt_Un | OpCodeValue::Ble_Un
        | OpCodeValue::Blt_Un | OpCodeValue::Leave => OperandType::InlineBrTarget,
        OpCodeValue::Ldfld | OpCodeValue::Ldflda | OpCodeValue::Stfld | OpCodeValue::Ldsfld
        | OpCodeValue::Ldsflda | OpCodeValue::Stsfld => OperandType::InlineField,
        OpCodeValue::Ldc_I4 => OperandType::InlineI,
        OpCodeValue::Ldc_I8 => OperandType::InlineI8,
        OpCodeValue::Jmp | OpCodeValue::Call | OpCodeValue::Callvirt | OpCodeValue::Newobj
        | OpCodeValue::Ldftn | OpCodeValue::Ldvirtftn => OperandType::InlineMethod,
        OpCodeValue::Ldc_R8 => OperandType::InlineR,
        OpCodeValue::Calli => OperandType::InlineSig,
        OpCodeValue::Ldstr => OperandType::InlineString,
        OpCodeValue::Switch => OperandType::InlineSwitch,
        OpCodeValue::Ldtoken => OperandType::InlineTok,
        OpCodeValue::Cpobj | OpCodeValue::Ldobj | OpCodeValue::Castclass | OpCodeValue::Isinst
        | OpCodeValue::Unbox | OpCodeValue::Stobj | OpCodeValue::Box | OpCodeValue::Newarr
        | OpCodeValue::Ldelema | OpCodeValue::Ldelem | OpCodeValue::Stelem
        | OpCodeValue::Unbox_Any | OpCodeValue::Refanyval | OpCodeValue::Mkrefany
        | OpCodeValue::Initobj | OpCodeValue::Constrained | OpCodeValue::Sizeof => OperandType::InlineType,
        OpCodeValue::Ldarg | OpCodeValue::Ldarga | OpCodeValue::Starg | OpCodeValue::Ldloc
        | OpCodeValue::Ldloca | OpCodeValue::Stloc => OperandType::InlineVar,
        OpCodeValue::Br_S | OpCodeValue::Brfalse_S | OpCodeValue::Brtrue_S | OpCodeValue::Beq_S
        | OpCodeValue::Bge_S | OpCodeValue::Bgt_S | OpCodeValue::Ble_S | OpCodeValue::Blt_S
        | OpCodeValue::Bne_Un_S | OpCodeValue::Bge_Un_S | OpCodeValue::Bgt_Un_S
        | OpCodeValue::Ble_Un_S | OpCodeValue::Blt_Un_S | OpCodeValue::Leave_S => OperandType::ShortInlineBrTarget,
        OpCodeValue::Ldc_I4_S | OpCodeValue::Unaligned | OpCodeValue::No => OperandType::ShortInlineI,
        OpCodeValue::Ldc_R4 => OperandType::ShortInlineR,
        OpCodeValue::Ldarg_S | OpCodeValue::Ldarga_S | OpCodeValue::Starg_S
        | OpCodeValue::Ldloc_S | OpCodeValue::Ldloca_S | OpCodeValue::Stloc_S => OperandType::ShortInlineVar,
        _ => OperandType::InlineNone,
    }
}

/// Whether an operation is written with the escape byte before it.
pub open spec fn spec_is_two_byte(value: OpCodeValue) -> bool {
    match value {
        OpCodeValue::Arglist | OpCodeValue::Ceq | OpCodeValue::Cgt | OpCodeValue::Cgt_Un
        | OpCodeValue::Clt | OpCodeValue::Clt_Un | OpCodeValue::Ldftn | OpCodeValue::Ldvirtftn
        | OpCodeValue::Ldarg | OpCodeValue::Ldarga | OpCodeValue::Starg | OpCodeValue::Ldloc
        | OpCodeValue::Ldloca | OpCodeValue::Stloc | OpCodeValue::Localloc
        | OpCodeValue::Endfilter | OpCodeValue::Unaligned | OpCodeValue::Volatile
        | OpCodeValue::Tailcall | OpCodeValue::Initobj | OpCodeValue::Constrained
        | OpCodeValue::Cpblk | OpCodeValue::Initblk | OpCodeValue::No | OpCodeValue::Rethrow
        | OpCodeValue::Sizeof | OpCodeValue::Refanytype | OpCodeValue::Readonly
        | OpCodeValue::UNKNOWN2 => true,
        _ => false,
    }
}

/// An entry of an opcode table.
#[derive(Debug, Clone, Copy, PartialEq, Eq, Structural)]
pub struct OpCode {
    pub value: OpCodeValue,
    pub operand_type: OperandType,
    pub two_byte: bool,
}

impl OpCode {
    /// The entry of an operation.
    pub open spec fn spec_of(value: OpCodeValue) -> OpCode {
        OpCode {
            value,
            operand_type: spec_operand_type(value),
            two_byte: spec_is_two_byte(value),
        }
    }

    /// The number of bytes an opcode is written with.
    pub open spec fn spec_size(&self) -> usize {
        if self.two_byte {
            2
        } else {
            1
        }
    }

    /// The entry of an operation.
    pub fn of(value: OpCodeValue) -> (r: OpCode)
        ensures
            r == OpCode::spec_of(value),
    {
        OpCode { value, operand_type: operand_type(value), two_byte: is_two_byte(value) }
    }

    /// The number of bytes the opcode is written with: 1, or 2 with the
    /// escape byte.
    #[verifier::when_used_as_spec(spec_size)]
    pub fn size(&self) -> (r: usize)
        ensures
            r == self.spec_size(),
            1 <= r <= 2,
    {
        if self.two_byte {
            2
        } else {
            1
        }
    }
}

/// The operation that a byte without prefix stands for.
pub fn one_byte_value(b: u8) -> (r: OpCodeValue)
    ensures
        r == spec_one_byte_value(b),
        !spec_is_two_byte(r),
{
    match b {
        0x00 => OpCodeValue::Nop,
        0x01 => OpCodeValue::Break,
        0x02 => OpCodeValue::Ldarg_0,
        0x03 => OpCodeValue::Ldarg_1,
        0x04 => OpCodeValue::Ldarg_2,
        0x05 => OpCodeValue::Ldarg_3,
        0x06 => OpCodeValue::Ldloc_0,
        0x07 => OpCodeValue::Ldloc_1,
        0x08 => OpCodeValue::Ldloc_2,
        0x09 => OpCodeValue::Ldloc_3,
        0x0A => OpCodeValue::Stloc_0,
        0x0B => OpCodeValue::Stloc_1,
        0x0C => OpCodeValue::Stloc_2,
        0x0D => OpCodeValue::Stloc_3,
        0x0E => OpCodeValue::Ldarg_S,
        0x0F => OpCodeValue::Ldarga_S,
        0x10 => OpCodeValue::Starg_S,
        0x11 => OpCodeValue::Ldloc_S,
        0x12 => OpCodeValue::Ldloca_S,
        0x13 => OpCodeValue::Stloc_S,
        0x14 => OpCodeValue::Ldnull,
        0x15 => OpCodeValue::Ldc_I4_M1,
        0x16 => OpCodeValue::Ldc_I4_0,
        0x17 => OpCodeValue::Ldc_I4_1,
        0x18 => OpCodeValue::Ldc_I4_2,
        0x19 => OpCodeValue::Ldc_I4_3,
        0x1A => OpCodeValue::Ldc_I4_4,
        0x1B => OpCodeValue::Ldc_I4_5,
        0x1C => OpCodeValue::Ldc_I4_6,
        0x1D => OpCodeValue::Ldc_I4_7,
        0x1E => OpCodeValue::Ldc_I4_8,
        0x1F => OpCodeValue::Ldc_I4_S,
        0x20 => OpCodeValue::Ldc_I4,
        0x21 => OpCodeValue::Ldc_I8,
        0x22 => OpCodeValue::Ldc_R4,
        0x23 => OpCodeValue::Ldc_R8,
        0x25 => OpCodeValue::Dup,
        0x26 => OpCodeValue::Pop,
        0x27 => OpCodeValue::Jmp,
        0x28 => OpCodeValue::Call,
        0x29 => OpCodeValue::Calli,
        0x2A => OpCodeValue::Ret,
        0x2B => OpCodeValue::Br_S,
        0x2C => OpCodeValue::Brfalse_S,
        0x2D => OpCodeValue::Brtrue_S,
        0x2E => OpCodeValue::Beq_S,
        0x2F => OpCodeValue::Bge_S,
        0x30 => OpCodeValue::Bgt_S,
        0x31 => OpCodeValue::Ble_S,
        0x32 => OpCodeValue::Blt_S,
        0x33 => OpCodeValue::Bne_Un_S,
        0x34 => OpCodeValue::Bge_Un_S,
        0x35 => OpCodeValue::Bgt_Un_S,
        0x36 => OpCodeValue::Ble_Un_S,
        0x37 => OpCodeValue::Blt_Un_S,
        0x38 => OpCodeValue::Br,
        0x39 => OpCodeValue::Brfalse,
        0x3A => OpCodeValue::Brtrue,
        0x3B => OpCodeValue::Beq,
        0x3C => OpCodeValue::Bge,
        0x3D => OpCodeValue::Bgt,
        0x3E => OpCodeValue::Ble,
        0x3F => OpCodeValue::Blt,
        0x40 => OpCodeValue::Bne_Un,
        0x41 => OpCodeValue::Bge_Un,
        0x42 => OpCodeValue::Bgt_Un,
        0x43 => OpCodeValue::Ble_Un,
        0x44 => OpCodeValue::Blt_Un,
        0x45 => OpCodeValue::Switch,
        0x46 => OpCodeValue::Ldind_I1,
        0x47 => OpCodeValue::Ldind_U1,
        0x48 => OpCodeValue::Ldind_I2,
        0x49 => OpCodeValue::Ldind_U2,
        0x4A => OpCodeValue::Ldind_I4,
        0x4B => OpCodeValue::Ldind_U4,
        0x4C => OpCodeValue::Ldind_I8,
        0x4D => OpCodeValue::Ldind_I,
        0x4E => OpCodeValue::Ldind_R4,
        0x4F => OpCodeValue::Ldind_R8,
        0x50 => OpCodeValue::Ldind_Ref,
        0x51 => OpCodeValue::Stind_Ref,
        0x52 => OpCodeValue::Stind_I1,
        0x53 => OpCodeValue::Stind_I2,
        0x54 => OpCodeValue::Stind_I4,
        0x55 => OpCodeValue::Stind_I8,
        0x56 => OpCodeValue::Stind_R4,
        0x57 => OpCodeValue::Stind_R8,
        0x58 => OpCodeValue::Add,
        0x59 => OpCodeValue::Sub,
        0x5A => OpCodeValue::Mul,
        0x5B => OpCodeValue::Div,
        0x5C => OpCodeValue::Div_Un,
        0x5D => OpCodeValue::Rem,
        0x5E => OpCodeValue::Rem_Un,
        0x5F => OpCodeValue::And,
        0x60 => OpCodeValue::Or,
        0x61 => OpCodeValue::Xor,
        0x62 => OpCodeValue::Shl,
        0x63 => OpCodeValue::Shr,
        0x64 => OpCodeValue::Shr_Un,
        0x65 => OpCodeValue::Neg,
        0x66 => OpCodeValue::Not,
        0x67 => OpCodeValue::Conv_I1,
        0x68 => OpCodeValue::Conv_I2,
        0x69 => OpCodeValue::Conv_I4,
        0x6A => OpCodeValue::Conv_I8,
        0x6B => OpCodeValue::Conv_R4,
        0x6C => OpCodeValue::Conv_R8,
        0x6D => OpCodeValue::Conv_U4,
        0x6E => OpCodeValue::Conv_U8,
        0x6F => OpCodeValue::Callvirt,
        0x70 => OpCodeValue::Cpobj,
        0x71 => OpCodeValue::Ldobj,
        0x72 => OpCodeValue::Ldstr,
        0x73 => OpCodeValue::Newobj,
        0x74 => OpCodeValue::Castclass,
        0x75 => OpCodeValue::Isinst,
        0x76 => OpCodeValue::Conv_R_Un,
        0x79 => OpCodeValue::Unbox,
        0x7A => OpCodeValue::Throw,
        0x7B => OpCodeValue::Ldfld,
        0x7C => OpCodeValue::Ldflda,
        0x7D => OpCodeValue::Stfld,
        0x7E => OpCodeValue::Ldsfld,
        0x7F => OpCodeValue::Ldsflda,
        0x80 => OpCodeValue::Stsfld,
        0x81 => OpCodeValue::Stobj,
        0x82 => OpCodeValue::Conv_Ovf_I1_Un,
        0x83 => OpCodeValue::Conv_Ovf_I2_Un,
        0x84 => OpCodeValue::Conv_Ovf_I4_Un,
        0x85 => OpCodeValue::Conv_Ovf_I8_Un,
        0x86 => OpCodeValue::Conv_Ovf_U1_Un,
        0x87 => OpCodeValue::Conv_Ovf_U2_Un,
        0x88 => OpCodeValue::Conv_Ovf_U4_Un,
        0x89 => OpCodeValue::Conv_Ovf_U8_Un,
        0x8A => OpCodeValue::Conv_Ovf_I_Un,
        0x8B => OpCodeValue::Conv_Ovf_U_Un,
        0x8C => OpCodeValue::Box,
        0x8D => OpCodeValue::Newarr,
        0x8E => OpCodeValue::Ldlen,
        0x8F => OpCodeValue::Ldelema,
        0x90 => OpCodeValue::Ldelem_I1,
        0x91 => OpCodeValue::Ldelem_U1,
        0x92 => OpCodeValue::Ldelem_I2,
        0x93 => OpCodeValue::Ldelem_U2,
        0x94 => OpCodeValue::Ldelem_I4,
        0x95 => OpCodeValue::Ldelem_U4,
        0x96 => OpCodeValue::Ldelem_I8,
        0x97 => OpCodeValue::Ldelem_I,
        0x98 => OpCodeValue::Ldelem_R4,
        0x99 => OpCodeValue::Ldelem_R8,
        0x9A => OpCodeValue::Ldelem_Ref,
        0x9B => OpCodeValue::Stelem_I,
        0x9C => OpCodeValue::Stelem_I1,
        0x9D => OpCodeValue::Stelem_I2,
        0x9E => OpCodeValue::Stelem_I4,
        0x9F => OpCodeValue::Stelem_I8,
        0xA0 => OpCodeValue::Stelem_R4,
        0xA1 => OpCodeValue::Stelem_R8,
        0xA2 => OpCodeValue::Stelem_Ref,
        0xA3 => OpCodeValue::Ldelem,
        0xA4 => OpCodeValue::Stelem,
        0xA5 => OpCodeValue::Unbox_Any,
        0xB3 => OpCodeValue::Conv_Ovf_I1,
        0xB4 => OpCodeValue::Conv_Ovf_U1,
        0xB5 => OpCodeValue::Conv_Ovf_I2,
        0xB6 => OpCodeValue::Conv_Ovf_U2,
        0xB7 => OpCodeValue::Conv_Ovf_I4,
        0xB8 => OpCodeValue::Conv_Ovf_U4,
        0xB9 => OpCodeValue::Conv_Ovf_I8,
        0xBA => OpCodeValue::Conv_Ovf_U8,
        0xC2 => OpCodeValue::Refanyval,
        0xC3 => OpCodeValue::Ckfinite,
        0xC6 => OpCodeValue::Mkrefany,
        0xD0 => OpCodeValue::Ldtoken,
        0xD1 => OpCodeValue::Conv_U2,
        0xD2 => OpCodeValue::Conv_U1,
        0xD3 => OpCodeValue::Conv_I,
        0xD4 => OpCodeValue::Conv_Ovf_I,
        0xD5 => OpCodeValue::Conv_Ovf_U,
        0xD6 => OpCodeValue::Add_Ovf,
        0xD7 => OpCodeValue::Add_Ovf_Un,
        0xD8 => OpCodeValue::Mul_Ovf,
        0xD9 => OpCodeValue::Mul_Ovf_Un,
        0xDA => OpCodeValue::Sub_Ovf,
        0xDB => OpCodeValue::Sub_Ovf_Un,
        0xDC => OpCodeValue::Endfinally,
        0xDD => OpCodeValue::Leave,
        0xDE => OpCodeValue::Leave_S,
        0xDF => OpCodeValue::Stind_I,
        0xE0 => OpCodeValue::Conv_U,
        0xF8 => OpCodeValue::Prefix7,
        0xF9 => OpCodeValue::Prefix6,
        0xFA => OpCodeValue::Prefix5,
        0xFB => OpCodeValue::Prefix4,
        0xFC => OpCodeValue::Prefix3,
        0xFD => OpCodeValue::Prefix2,
        0xFE => OpCodeValue::Prefix1,
        0xFF => OpCodeValue::Prefixref,
        _ => OpCodeValue::UNKNOWN1,
    }
}

/// The operation that a byte after the escape `0xFE` stands for.
pub fn two_byte_value(b: u8) -> (r: OpCodeValue)
    ensures
        r == spec_two_byte_value(b),
        spec_is_two_byte(r),
{
    match b {
        0x00 => OpCodeValue::Arglist,
        0x01 => OpCodeValue::Ceq,
        0x02 => OpCodeValue::Cgt,
        0x03 => OpCodeValue::Cgt_Un,
        0x04 => OpCodeValue::Clt,
        0x05 => OpCodeValue::Clt_Un,
        0x06 => OpCodeValue::Ldftn,
        0x07 => OpCodeValue::Ldvirtftn,
        0x09 => OpCodeValue::Ldarg,
        0x0A => OpCodeValue::Ldarga,
        0x0B => OpCodeValue::Starg,
        0x0C => OpCodeValue::Ldloc,
        0x0D => OpCodeValue::Ldloca,
        0x0E => OpCodeValue::Stloc,
        0x0F => OpCodeValue::Localloc,
        0x11 => OpCodeValue::Endfilter,
        0x12 => OpCodeValue::Unaligned,
        0x13 => OpCodeValue::Volatile,
        0x14 => OpCodeValue::Tailcall,
        0x15 => OpCodeValue::Initobj,
        0x16 => OpCodeValue::Constrained,
        0x17 => OpCodeValue::Cpblk,
        0x18 => OpCodeValue::Initblk,
        0x19 => OpCodeValue::No,
        0x1A => OpCodeValue::Rethrow,
        0x1C => OpCodeValue::Sizeof,
        0x1D => OpCodeValue::Refanytype,
        0x1E => OpCodeValue::Readonly,
        _ => OpCodeValue::UNKNOWN2,
    }
}

/// The kind of operand that follows an operation.
pub fn operand_type(value: OpCodeValue) -> (r: OperandType)
    ensures
        r == spec_operand_type(value),
{
    match value {
        OpCodeValue::Br | OpCodeValue::Brfalse | OpCodeValue::Brtrue | OpCodeValue::Beq
        | OpCodeValue::Bge | OpCodeValue::Bgt | OpCodeValue::Ble | OpCodeValue::Blt
        | OpCodeValue::Bne_Un | OpCodeValue::Bge_Un | OpCodeValue::Bgt_Un | OpCodeValue::Ble_Un
        | OpCodeValue::Blt_Un | OpCodeValue::Leave => OperandType::InlineBrTarget,
        OpCodeValue::Ldfld | OpCodeValue::Ldflda | OpCodeValue::Stfld | OpCodeValue::Ldsfld
        | OpCodeValue::Ldsflda | OpCodeValue::Stsfld => OperandType::InlineField,
        OpCodeValue::Ldc_I4 => OperandType::InlineI,
        OpCodeValue::Ldc_I8 => OperandType::InlineI8,
        OpCodeValue::Jmp | OpCodeValue::Call | OpCodeValue::Callvirt | OpCodeValue::Newobj
        | OpCodeValue::Ldftn | OpCodeValue::Ldvirtftn => OperandType::InlineMethod,
        OpCodeValue::Ldc_R8 => OperandType::InlineR,
        OpCodeValue::Calli => OperandType::InlineSig,
        OpCodeValue::Ldstr => OperandType::InlineString,
        OpCodeValue::Switch => OperandType::InlineSwitch,
        OpCodeValue::Ldtoken => OperandType::InlineTok,
        OpCodeValue::Cpobj | OpCodeValue::Ldobj | OpCodeValue::Castclass | OpCodeValue::Isinst
        | OpCodeValue::Unbox | OpCodeValue::Stobj | OpCodeValue::Box | OpCodeValue::Newarr
        | OpCodeValue::Ldelema | OpCodeValue::Ldelem | OpCodeValue::Stelem
        | OpCodeValue::Unbox_Any | OpCodeValue::Refanyval | OpCodeValue::Mkrefany
        | OpCodeValue::Initobj | OpCodeValue::Constrained | OpCodeValue::Sizeof => OperandType::InlineType,
        OpCodeValue::Ldarg | OpCodeValue::Ldarga | OpCodeValue::Starg | OpCodeValue::Ldloc
        | OpCodeValue::Ldloca | OpCodeValue::Stloc => OperandType::InlineVar,
        OpCodeValue::Br_S | OpCodeValue::Brfalse_S | OpCodeValue::Brtrue_S | OpCodeValue::Beq_S
        | OpCodeValue::Bge_S | OpCodeValue::Bgt_S | OpCodeValue::Ble_S | OpCodeValue::Blt_S
        | OpCodeValue::Bne_Un_S | OpCodeValue::Bge_Un_S | OpCodeValue::Bgt_Un_S
        | OpCodeValue::Ble_Un_S | OpCodeValue::Blt_Un_S | OpCodeValue::Leave_S => OperandType::ShortInlineBrTarget,
        OpCodeValue::Ldc_I4_S | OpCodeValue::Unaligned | OpCodeValue::No => OperandType::ShortInlineI,
        OpCodeValue::Ldc_R4 => OperandType::ShortInlineR,
        OpCodeValue::Ldarg_S | OpCodeValue::Ldarga_S | OpCodeValue::Starg_S
        | OpCodeValue::Ldloc_S | OpCodeValue::Ldloca_S | OpCodeValue::Stloc_S => OperandType::ShortInlineVar,
        _ => OperandType::InlineNone,
    }
}

/// Whether an operation is written with the escape byte before it.
pub fn is_two_byte(value: OpCodeValue) -> (r: bool)
    ensures
        r == spec_is_two_byte(value),
{
    match value {
        OpCodeValue::Arglist | OpCodeValue::Ceq | OpCodeValue::Cgt | OpCodeValue::Cgt_Un
        | OpCodeValue::Clt | OpCodeValue::Clt_Un | OpCodeValue::Ldftn | OpCodeValue::Ldvirtftn
        | OpCodeValue::Ldarg | OpCodeValue::Ldarga | OpCodeValue::Starg | OpCodeValue::Ldloc
        | OpCodeValue::Ldloca | OpCodeValue::Stloc | OpCodeValue::Localloc
        | OpCodeValue::Endfilter | OpCodeValue::Unaligned | OpCodeValue::Volatile
        | OpCodeValue::Tailcall | OpCodeValue::Initobj | OpCodeValue::Constrained
        | OpCodeValue::Cpblk | OpCodeValue::Initblk | OpCodeValue::No | OpCodeValue::Rethrow
        | OpCodeValue::Sizeof | OpCodeValue::Refanytype | OpCodeValue::Readonly
        | OpCodeValue::UNKNOWN2 => true,
        _ => false,
    }
}

/// The two tables, as the reader consults them.
#[derive(Debug, Clone, Copy, PartialEq, Eq, Structural)]
pub struct OpCodes {}

impl OpCodes {
    /// The tables of the instruction set.
    pub fn new() -> (r: Self)
        ensures
            r == (OpCodes {  }),
    {
        OpCodes {  }
    }

    /// The entry of the first table for `b`.
    pub open spec fn spec_one_byte(b: u8) -> OpCode {
        OpCode::spec_of(spec_one_byte_value(b))
    }

    /// The entry of the second table for `b`.
    pub open spec fn spec_two_byte(b: u8) -> OpCode {
        OpCode::spec_of(spec_two_byte_value(b))
    }

    /// The entry of the first table for `b`: the opcode that the lone byte
    /// `b` stands for.
    pub fn one_byte(&self, b: u8) -> (r: OpCode)
        ensures
            r == OpCodes::spec_one_byte(b),
            !r.two_byte,
    {
        OpCode::of(one_byte_value(b))
    }

    /// The entry of the second table for `b`: the opcode that `0xFE`, `b`
    /// stands for.
    pub fn two_byte(&self, b: u8) -> (r: OpCode)
        ensures
            r == OpCodes::spec_two_byte(b),
            r.two_byte,
    {
        OpCode::of(two_byte_value(b))
    }
}

} // verus!
