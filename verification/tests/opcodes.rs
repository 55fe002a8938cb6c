use dnfile::cil::cil::enums::{OpCodeValue, OperandType};
use dnfile::cil::cil::opcode::{
    is_two_byte, one_byte_value, operand_type, two_byte_value, OpCode, OpCodes,
};

#[test]
fn one_byte_table() {
    let codes = OpCodes::new();
    assert_eq!(codes.one_byte(0x00).value, OpCodeValue::Nop);
    assert_eq!(codes.one_byte(0x02).value, OpCodeValue::Ldarg_0);
    assert_eq!(codes.one_byte(0x1F).value, OpCodeValue::Ldc_I4_S);
    assert_eq!(codes.one_byte(0x20).value, OpCodeValue::Ldc_I4);
    assert_eq!(codes.one_byte(0x2A).value, OpCodeValue::Ret);
    assert_eq!(codes.one_byte(0x45).value, OpCodeValue::Switch);
    assert_eq!(codes.one_byte(0x58).value, OpCodeValue::Add);
    assert_eq!(codes.one_byte(0x6F).value, OpCodeValue::Callvirt);
    assert_eq!(codes.one_byte(0x72).value, OpCodeValue::Ldstr);
    assert_eq!(codes.one_byte(0x8D).value, OpCodeValue::Newarr);
    assert_eq!(codes.one_byte(0xA5).value, OpCodeValue::Unbox_Any);
    assert_eq!(codes.one_byte(0xD0).value, OpCodeValue::Ldtoken);
    assert_eq!(codes.one_byte(0xDD).value, OpCodeValue::Leave);
    assert_eq!(codes.one_byte(0xE0).value, OpCodeValue::Conv_U);
    assert_eq!(codes.one_byte(0xFE).value, OpCodeValue::Prefix1);
}

#[test]
fn two_byte_table() {
    let codes = OpCodes::new();
    assert_eq!(codes.two_byte(0x00).value, OpCodeValue::Arglist);
    assert_eq!(codes.two_byte(0x01).value, OpCodeValue::Ceq);
    assert_eq!(codes.two_byte(0x06).value, OpCodeValue::Ldftn);
    assert_eq!(codes.two_byte(0x09).value, OpCodeValue::Ldarg);
    assert_eq!(codes.two_byte(0x0E).value, OpCodeValue::Stloc);
    assert_eq!(codes.two_byte(0x16).value, OpCodeValue::Constrained);
    assert_eq!(codes.two_byte(0x1C).value, OpCodeValue::Sizeof);
    assert_eq!(codes.two_byte(0x1E).value, OpCodeValue::Readonly);
}

#[test]
fn the_two_tables_differ() {
    let codes = OpCodes::new();
    assert_eq!(codes.one_byte(0x01).value, OpCodeValue::Break);
    assert_eq!(codes.two_byte(0x01).value, OpCodeValue::Ceq);
    assert_eq!(codes.one_byte(0x09).value, OpCodeValue::Ldloc_3);
    assert_eq!(codes.two_byte(0x09).value, OpCodeValue::Ldarg);
}

#[test]
fn bytes_without_an_operation() {
    for b in [0x24u8, 0x77, 0x78, 0xA6, 0xBB, 0xC4, 0xC7, 0xE1, 0xF7] {
        let opcode = OpCodes::new().one_byte(b);
        assert_eq!(opcode.value, OpCodeValue::UNKNOWN1);
        assert_eq!(opcode.operand_type, OperandType::InlineNone);
        assert_eq!(opcode.size(), 1);
    }
    for b in [0x08u8, 0x10, 0x1B, 0x1F, 0x80, 0xFF] {
        let opcode = OpCodes::new().two_byte(b);
        assert_eq!(opcode.value, OpCodeValue::UNKNOWN2);
        assert_eq!(opcode.operand_type, OperandType::InlineNone);
        assert_eq!(opcode.size(), 2);
    }
}

#[test]
fn operand_types() {
    assert_eq!(operand_type(OpCodeValue::Nop), OperandType::InlineNone);
    assert_eq!(operand_type(OpCodeValue::Ldarg_S), OperandType::ShortInlineVar);
    assert_eq!(operand_type(OpCodeValue::Ldc_I4_S), OperandType::ShortInlineI);
    assert_eq!(operand_type(OpCodeValue::Ldc_I4), OperandType::InlineI);
    assert_eq!(operand_type(OpCodeValue::Ldc_I8), OperandType::InlineI8);
    assert_eq!(operand_type(OpCodeValue::Ldc_R4), OperandType::ShortInlineR);
    assert_eq!(operand_type(OpCodeValue::Ldc_R8), OperandType::InlineR);
    assert_eq!(operand_type(OpCodeValue::Call), OperandType::InlineMethod);
    assert_eq!(operand_type(OpCodeValue::Calli), OperandType::InlineSig);
    assert_eq!(operand_type(OpCodeValue::Br_S), OperandType::ShortInlineBrTarget);
    assert_eq!(operand_type(OpCodeValue::Blt_Un), OperandType::InlineBrTarget);
    assert_eq!(operand_type(OpCodeValue::Switch), OperandType::InlineSwitch);
    assert_eq!(operand_type(OpCodeValue::Ldstr), OperandType::InlineString);
    assert_eq!(operand_type(OpCodeValue::Ldfld), OperandType::InlineField);
    assert_eq!(operand_type(OpCodeValue::Box), OperandType::InlineType);
    assert_eq!(operand_type(OpCodeValue::Ldtoken), OperandType::InlineTok);
    assert_eq!(operand_type(OpCodeValue::Ldloc), OperandType::InlineVar);
    assert_eq!(operand_type(OpCodeValue::Unaligned), OperandType::ShortInlineI);
    assert_eq!(operand_type(OpCodeValue::Leave_S), OperandType::ShortInlineBrTarget);
}

#[test]
fn opcode_sizes() {
    assert_eq!(OpCode::of(OpCodeValue::Nop).size(), 1);
    assert_eq!(OpCode::of(OpCodeValue::Switch).size(), 1);
    assert_eq!(OpCode::of(OpCodeValue::Ceq).size(), 2);
    assert_eq!(OpCode::of(OpCodeValue::Ldarg).size(), 2);
    assert_eq!(OpCode::of(OpCodeValue::UNKNOWN1).size(), 1);
    assert_eq!(OpCode::of(OpCodeValue::UNKNOWN2).size(), 2);
    assert!(!is_two_byte(OpCodeValue::Ldarg_0));
    assert!(is_two_byte(OpCodeValue::Ldarg));
}

#[test]
fn every_byte_has_an_entry_of_its_table() {
    for b in 0..=255u8 {
        assert!(!is_two_byte(one_byte_value(b)));
        assert!(is_two_byte(two_byte_value(b)));
        let one = OpCodes::new().one_byte(b);
        assert_eq!(one, OpCode::of(one_byte_value(b)));
        let two = OpCodes::new().two_byte(b);
        assert_eq!(two, OpCode::of(two_byte_value(b)));
    }
}
