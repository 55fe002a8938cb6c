use dnfile::cil::cil::enums::{OpCodeValue, OperandType};
use dnfile::cil::cil::exception::ExceptionHandler;
use dnfile::cil::cil::function::flags::CilMethodBodyFlags;
use dnfile::cil::cil::function::reader::Reader;
use dnfile::cil::cil::function::Function;
use dnfile::cil::cil::instruction::{FloatBits, Instruction, Operand};
use dnfile::cil::cil::opcode::OpCode;
use dnfile::cil::clr::argument::Argument;
use dnfile::cil::clr::local::Local;
use dnfile::cil::clr::token::Token;
use dnfile::error::Error;

fn parse(bytes: &[u8]) -> Result<Function, Error> {
    let mut reader = Reader::new(bytes);
    Function::new(&mut reader)
}

fn parse_at(bytes: &[u8], at: usize) -> (Result<Function, Error>, usize) {
    let mut reader = Reader::new(bytes);
    reader.seek(at).unwrap();
    let f = Function::new(&mut reader);
    (f, reader.tell().unwrap())
}

fn instruction(bytes: &[u8], offset: usize) -> Result<Instruction, Error> {
    let mut reader = Reader::new(bytes);
    reader.read_instruction(offset)
}

#[test]
fn tiny_method_body() {
    let bytes = [0x12, 0x20, 0x05, 0x00, 0x00, 0x00, 0x2A];
    let f = parse(&bytes).unwrap();
    assert_eq!(f.offset, 0);
    assert_eq!(f.header_size, 1);
    assert_eq!(f.max_stack, 8);
    assert_eq!(f.code_size, 4);
    assert_eq!(f.local_var_sig_tok, None);
    assert!(f.flags.is_tiny());
    assert!(!f.flags.is_fat());
    assert!(!f.flags.more_sects());
    assert_eq!(f.instructions.len(), 1);
    assert_eq!(f.instructions[0].offset, 0);
    assert_eq!(f.instructions[0].opcode.value, OpCodeValue::Ldc_I4);
    assert_eq!(f.instructions[0].operand, Operand::Int(5));
    assert!(f.exception_handlers.is_empty());
}

#[test]
fn tiny_method_body_with_two_instructions() {
    // code size 2: ldc.i4.1, ret
    let bytes = [0x0A, 0x17, 0x2A, 0xFF];
    let f = parse(&bytes).unwrap();
    assert_eq!(f.code_size, 2);
    assert_eq!(f.size, 3);
    assert_eq!(f.instructions.len(), 2);
    assert_eq!(f.instructions[0].opcode.value, OpCodeValue::Ldc_I4_1);
    assert_eq!(f.instructions[0].offset, 0);
    assert_eq!(f.instructions[1].opcode.value, OpCodeValue::Ret);
    assert_eq!(f.instructions[1].offset, 1);
    assert_eq!(f.instructions[1].operand, Operand::NoOperand);
}

#[test]
fn tiny_method_body_of_odd_size() {
    // code size 1, so the low three bits of the header are 110
    let bytes = [0x06, 0x2A];
    let f = parse(&bytes).unwrap();
    assert_eq!(f.code_size, 1);
    assert_eq!(f.flags.flags, 6);
    assert!(f.flags.tiny_format_1());
    assert!(f.flags.is_tiny());
    assert_eq!(f.size, 2);
}

#[test]
fn empty_tiny_method_body() {
    let f = parse(&[0x02]).unwrap();
    assert_eq!(f.code_size, 0);
    assert_eq!(f.size, 1);
    assert!(f.instructions.is_empty());
}

fn fat_body() -> Vec<u8> {
    let mut bytes = vec![
        0x1B, 0x30, // fat, more sections, init locals; three words
        0x02, 0x00, // max stack
        0x08, 0x00, 0x00, 0x00, // code size
        0x00, 0x00, 0x00, 0x00, // no local variables
    ];
    bytes.extend([0x00, 0x00, 0x17, 0x26, 0x00, 0x00, 0x00, 0x2A]);
    // a tiny section with one handler that catches 0x01000007
    bytes.extend([0x01, 0x01, 0x00, 0x00]);
    bytes.extend([0x00, 0x00, 0x02, 0x00, 0x03, 0x05, 0x00, 0x02, 0x07, 0x00, 0x00, 0x01]);
    bytes
}

#[test]
fn fat_method_body() {
    let f = parse(&fat_body()).unwrap();
    assert_eq!(f.flags.flags, 0x301B);
    assert!(f.flags.is_fat());
    assert!(f.flags.more_sects());
    assert!(f.flags.init_locals());
    assert_eq!(f.header_size, 12);
    assert_eq!(f.max_stack, 2);
    assert_eq!(f.code_size, 8);
    assert_eq!(f.local_var_sig_tok, None);
    assert_eq!(f.instructions.len(), 8);
    assert_eq!(f.instructions[2].opcode.value, OpCodeValue::Ldc_I4_1);
    assert_eq!(f.instructions[7].opcode.value, OpCodeValue::Ret);
    assert_eq!(f.instructions[7].offset, 7);
}

#[test]
fn fat_method_body_with_local_variables() {
    let mut bytes = fat_body();
    bytes[8..12].copy_from_slice(&[0x02, 0x00, 0x00, 0x11]);
    let f = parse(&bytes).unwrap();
    assert_eq!(f.local_var_sig_tok, Some(Token::new(0x1100_0002)));
    assert_eq!(f.local_var_sig_tok.unwrap().table(), 0x11);
    assert_eq!(f.local_var_sig_tok.unwrap().rid(), 2);
}

#[test]
fn exception_handler_tiny() {
    let f = parse(&fat_body()).unwrap();
    assert_eq!(f.exception_handlers.len(), 1);
    let eh = f.exception_handlers[0];
    assert_eq!(eh.exception_type, 0);
    assert!(eh.is_catch());
    assert_eq!(eh.try_start, 2);
    assert_eq!(eh.try_end, 2 + 3);
    assert_eq!(eh.handler_start, 5);
    assert_eq!(eh.handler_end, 5 + 2);
    assert_eq!(eh.catch_type, Some(Token::new(0x0100_0007)));
    assert_eq!(eh.filter_start, -1);
}

#[test]
fn method_body_size_is_what_was_read() {
    let body = fat_body();
    let mut bytes = vec![0xEE; 8];
    bytes.extend(&body);
    bytes.extend([0xEE; 9]);
    let (f, end) = parse_at(&bytes, 8);
    let f = f.unwrap();
    assert_eq!(f.offset, 8);
    // header, code, no padding, and a section of 4 + 12 bytes
    assert_eq!(f.size, 12 + 8 + 16);
    assert_eq!(end - 8, f.size);
    let (tiny, end) = parse_at(&[0xEE, 0x0A, 0x17, 0x2A, 0xEE], 1);
    assert_eq!(tiny.unwrap().size, 3);
    assert_eq!(end, 4);
}

#[test]
fn section_starts_at_a_multiple_of_four() {
    let mut bytes = vec![
        0x0B, 0x30, 0x01, 0x00, 0x05, 0x00, 0x00, 0x00, 0x00, 0x00, 0x00, 0x00,
    ];
    bytes.extend([0x00, 0x00, 0x00, 0x00, 0x2A]);
    bytes.extend([0xCC, 0xCC, 0xCC]);
    bytes.extend([0x01, 0x00, 0x00, 0x00]);
    let f = parse(&bytes).unwrap();
    assert_eq!(f.code_size, 5);
    assert_eq!(f.instructions.len(), 5);
    assert!(f.exception_handlers.is_empty());
    // header 12, code 5, padding 3, section 4
    assert_eq!(f.size, 24);
}

#[test]
fn section_of_another_kind_is_left_alone() {
    let mut bytes = vec![
        0x0B, 0x30, 0x01, 0x00, 0x04, 0x00, 0x00, 0x00, 0x00, 0x00, 0x00, 0x00,
    ];
    bytes.extend([0x00, 0x00, 0x00, 0x2A]);
    bytes.extend([0x02, 0x01, 0x00, 0x00]);
    let f = parse(&bytes).unwrap();
    assert!(f.exception_handlers.is_empty());
    // only the first byte of the section is read
    assert_eq!(f.size, 12 + 4 + 1);
}

#[test]
fn fat_exception_handlers() {
    let mut bytes = vec![
        0x0B, 0x30, 0x01, 0x00, 0x04, 0x00, 0x00, 0x00, 0x00, 0x00, 0x00, 0x00,
    ];
    bytes.extend([0x00, 0x00, 0x00, 0x2A]);
    // fat section of 4 + 3 * 24 bytes
    bytes.extend([0x41, 0x4C, 0x00, 0x00]);
    let records: [[u32; 6]; 3] = [
        [0, 0x10, 0x20, 0x30, 0x08, 0x0100_0002],
        [1, 0x1_0000, 0x2_0000, 0x4_0000, 0x10, 0x3_8000],
        [2, 1, 2, 3, 4, 0xFFFF_FFFF],
    ];
    for record in records {
        for field in record {
            bytes.extend(field.to_le_bytes());
        }
    }
    let f = parse(&bytes).unwrap();
    assert_eq!(f.size, 12 + 4 + 4 + 72);
    assert_eq!(f.exception_handlers.len(), 3);
    let catch = f.exception_handlers[0];
    assert!(catch.is_catch());
    assert_eq!((catch.try_start, catch.try_end), (0x10, 0x30));
    assert_eq!((catch.handler_start, catch.handler_end), (0x30, 0x38));
    assert_eq!(catch.catch_type, Some(Token::new(0x0100_0002)));
    assert_eq!(catch.filter_start, -1);
    let filter = f.exception_handlers[1];
    assert!(filter.is_filter());
    assert!(!filter.is_catch());
    assert_eq!((filter.try_start, filter.try_end), (0x1_0000, 0x3_0000));
    assert_eq!((filter.handler_start, filter.handler_end), (0x4_0000, 0x4_0010));
    assert_eq!(filter.filter_start, 0x3_8000);
    assert_eq!(filter.catch_type, None);
    let finally = f.exception_handlers[2];
    assert!(finally.is_finally());
    assert!(!finally.is_fault());
    assert_eq!((finally.try_start, finally.try_end), (1, 3));
    assert_eq!((finally.handler_start, finally.handler_end), (3, 7));
    assert_eq!(finally.filter_start, -1);
    assert_eq!(finally.catch_type, None);
}

#[test]
fn fat_header_of_fewer_than_three_words_has_no_sections() {
    let mut bytes = vec![
        0x0B, 0x20, 0x01, 0x00, 0x00, 0x00, 0x00, 0x00, 0x00, 0x00, 0x00, 0x00,
    ];
    bytes.extend([0x01, 0x01, 0x00, 0x00]);
    let f = parse(&bytes).unwrap();
    assert_eq!(f.flags.flags, 0x2003);
    assert!(!f.flags.more_sects());
    assert_eq!(f.header_size, 8);
    assert_eq!(f.size, 8);
    assert!(f.exception_handlers.is_empty());
}

#[test]
fn bad_method_header() {
    assert!(matches!(parse(&[0x00]), Err(Error::MethodBodyFormatError(0))));
    assert!(matches!(parse(&[0x01]), Err(Error::MethodBodyFormatError(1))));
    assert!(matches!(parse(&[0x0C]), Err(Error::MethodBodyFormatError(4))));
    assert!(matches!(parse(&[0xF5]), Err(Error::MethodBodyFormatError(5))));
}

#[test]
fn method_body_cut_off() {
    assert!(matches!(parse(&[]), Err(Error::NotEnoughData(1, 0))));
    // a fat header needs twelve bytes
    assert!(matches!(parse(&[0x03, 0x30, 0x01, 0x00]), Err(Error::NotEnoughData(12, 4))));
    // the code of a tiny body must lie within the bytes
    assert!(matches!(parse(&[0x12, 0x00, 0x00]), Err(Error::NotEnoughData(4, 2))));
    // an operand that is cut off
    assert!(matches!(parse(&[0x0A, 0x00, 0x20]), Err(Error::NotEnoughData(4, 0))));
    // a section that is announced but missing
    let bytes = [0x0B, 0x30, 0x01, 0x00, 0x00, 0x00, 0x00, 0x00, 0x00, 0x00, 0x00, 0x00];
    assert!(matches!(parse(&bytes), Err(Error::NotEnoughData(1, 0))));
    // a handler that is cut off
    let mut bytes = bytes.to_vec();
    bytes.extend([0x01, 0x01, 0x00, 0x00, 0x00, 0x00]);
    assert!(matches!(parse(&bytes), Err(Error::NotEnoughData(12, 2))));
}

#[test]
fn reader_reads_little_endian() {
    let bytes = [0x01, 0x02, 0x03, 0x04, 0x05, 0x06, 0x07, 0x08, 0x09];
    let mut reader = Reader::new(&bytes);
    assert_eq!(reader.tell().unwrap(), 0);
    assert_eq!(reader.read_u8().unwrap(), 0x01);
    assert_eq!(reader.read_u16().unwrap(), 0x0302);
    assert_eq!(reader.tell().unwrap(), 3);
    assert_eq!(reader.read_u32().unwrap(), 0x0706_0504);
    assert_eq!(reader.tell().unwrap(), 7);
    assert_eq!(reader.seek(1).unwrap(), 1);
    assert_eq!(reader.read_u64().unwrap(), 0x0908_0706_0504_0302);
    assert_eq!(reader.bytes_left(), 0);
}

#[test]
fn reader_reads_signed_numbers() {
    let bytes = [0xFE, 0xFF, 0xFF, 0xFF, 0xFF, 0xFF, 0xFF, 0xFF, 0x7F, 0x80];
    let mut reader = Reader::new(&bytes);
    assert_eq!(reader.read_i8().unwrap(), -2);
    reader.seek(0).unwrap();
    assert_eq!(reader.read_i16().unwrap(), -2);
    reader.seek(0).unwrap();
    assert_eq!(reader.read_i32().unwrap(), -2);
    reader.seek(0).unwrap();
    assert_eq!(reader.read_i64().unwrap(), -2);
    assert_eq!(reader.read_i8().unwrap(), 127);
    assert_eq!(reader.read_i8().unwrap(), -128);
    reader.seek(7).unwrap();
    assert_eq!(reader.read_i16().unwrap(), 0x7FFF);
    reader.seek(8).unwrap();
    assert_eq!(reader.read_i16().unwrap(), -32641);
}

#[test]
fn reader_reads_the_bits_of_floats() {
    let mut bytes = 1.5f32.to_le_bytes().to_vec();
    bytes.extend((-2.25f64).to_le_bytes());
    let mut reader = Reader::new(&bytes);
    assert_eq!(f32::from_bits(reader.read_f32().unwrap()), 1.5);
    assert_eq!(f64::from_bits(reader.read_f64().unwrap()), -2.25);
}

#[test]
fn reader_refuses_reads_past_the_end() {
    let bytes = [1, 2, 3];
    let mut reader = Reader::new(&bytes);
    assert_eq!(reader.read_u32(), Err(Error::NotEnoughData(4, 3)));
    assert_eq!(reader.tell().unwrap(), 0);
    assert_eq!(reader.read_u16().unwrap(), 0x0201);
    assert_eq!(reader.read_u16(), Err(Error::NotEnoughData(2, 1)));
    assert_eq!(reader.read_u64(), Err(Error::NotEnoughData(8, 1)));
    assert_eq!(reader.read_u8().unwrap(), 3);
    assert_eq!(reader.read_u8(), Err(Error::NotEnoughData(1, 0)));
    assert_eq!(reader.seek(100).unwrap(), 100);
    assert_eq!(reader.tell().unwrap(), 100);
    assert_eq!(reader.read_i8(), Err(Error::NotEnoughData(1, 0)));
    assert_eq!(reader.bytes_left(), 0);
}

#[test]
fn opcode_with_and_without_escape() {
    let bytes = [0x01, 0xFE, 0x01, 0xFE];
    let mut reader = Reader::new(&bytes);
    assert_eq!(reader.read_opcode().unwrap().value, OpCodeValue::Break);
    let ceq = reader.read_opcode().unwrap();
    assert_eq!(ceq.value, OpCodeValue::Ceq);
    assert_eq!(ceq.size(), 2);
    assert_eq!(reader.tell().unwrap(), 3);
    assert_eq!(reader.read_opcode(), Err(Error::NotEnoughData(1, 0)));
}

#[test]
fn switch_operand() {
    let mut bytes = vec![0x45, 0x02, 0x00, 0x00, 0x00];
    bytes.extend(7i32.to_le_bytes());
    bytes.extend((-20i32).to_le_bytes());
    let insn = instruction(&bytes, 100).unwrap();
    assert_eq!(insn.offset, 100);
    assert_eq!(insn.opcode.value, OpCodeValue::Switch);
    assert_eq!(insn.operand, Operand::Arguments(vec![100 + 1 + 4 + 8 + 7, 100 + 1 + 4 + 8 - 20]));
    assert_eq!(insn.size(), 1 + 4 + 8);
}

#[test]
fn switch_without_targets() {
    let insn = instruction(&[0x45, 0x00, 0x00, 0x00, 0x00], 3).unwrap();
    assert_eq!(insn.operand, Operand::Arguments(vec![]));
    assert_eq!(insn.size(), 5);
}

#[test]
fn switch_cut_off() {
    let bytes = [0x45, 0x03, 0x00, 0x00, 0x00, 0x01, 0x00, 0x00, 0x00, 0x02];
    assert_eq!(instruction(&bytes, 0), Err(Error::NotEnoughData(12, 5)));
    assert_eq!(instruction(&[0x45, 0x03], 0), Err(Error::NotEnoughData(4, 1)));
}

#[test]
fn branch_targets() {
    // br.s +5 at offset 10: 10 + 2 + 5
    assert_eq!(instruction(&[0x2B, 0x05], 10).unwrap().operand, Operand::Int(17));
    // br.s -4 at offset 10: 10 + 2 - 4
    assert_eq!(instruction(&[0x2B, 0xFC], 10).unwrap().operand, Operand::Int(8));
    // br +0x100 at offset 10: 10 + 5 + 0x100
    assert_eq!(instruction(&[0x38, 0x00, 0x01, 0x00, 0x00], 10).unwrap().operand, Operand::Int(0x10F));
    // br -15 at offset 10: 10 + 5 - 15
    assert_eq!(instruction(&[0x38, 0xF1, 0xFF, 0xFF, 0xFF], 10).unwrap().operand, Operand::Int(0));
    // leave.s and brtrue
    assert_eq!(instruction(&[0xDE, 0x01], 0).unwrap().operand, Operand::Int(3));
    assert_eq!(instruction(&[0x3A, 0x02, 0x00, 0x00, 0x00], 7).unwrap().operand, Operand::Int(14));
}

#[test]
fn operands_by_kind() {
    assert_eq!(instruction(&[0x00], 0).unwrap().operand, Operand::NoOperand);
    let call = instruction(&[0x28, 0x01, 0x00, 0x00, 0x0A], 0).unwrap();
    assert_eq!(call.operand, Operand::Token(Token::new(0x0A00_0001)));
    assert_eq!(call.operand.value().unwrap(), 0x0A00_0001);
    let ldstr = instruction(&[0x72, 0x01, 0x00, 0x00, 0x70], 0).unwrap();
    assert_eq!(ldstr.operand, Operand::StringToken(Token::new(0x7000_0001)));
    assert!(ldstr.is_ldstr());
    assert_eq!(instruction(&[0x7B, 0x02, 0x00, 0x00, 0x04], 0).unwrap().operand, Operand::Token(Token::new(0x0400_0002)));
    assert_eq!(instruction(&[0x8C, 0x03, 0x00, 0x00, 0x01], 0).unwrap().operand, Operand::Token(Token::new(0x0100_0003)));
    assert_eq!(instruction(&[0xD0, 0x04, 0x00, 0x00, 0x02], 0).unwrap().operand, Operand::Token(Token::new(0x0200_0004)));
    assert_eq!(instruction(&[0x29, 0x05, 0x00, 0x00, 0x11], 0).unwrap().operand, Operand::Token(Token::new(0x1100_0005)));
    // ldc.i4.s is signed, unaligned. is not
    assert_eq!(instruction(&[0x1F, 0xFE], 0).unwrap().operand, Operand::Int(-2));
    assert_eq!(instruction(&[0xFE, 0x12, 0xFE], 0).unwrap().operand, Operand::Int(0xFE));
    assert_eq!(instruction(&[0x20, 0xFF, 0xFF, 0xFF, 0xFF], 0).unwrap().operand, Operand::Int(0xFFFF_FFFF));
    let mut ldc_i8 = vec![0x21];
    ldc_i8.extend((-3i64).to_le_bytes());
    assert_eq!(instruction(&ldc_i8, 0).unwrap().operand, Operand::Int(-3));
    let mut ldc_r4 = vec![0x22];
    ldc_r4.extend(1.5f32.to_le_bytes());
    assert_eq!(instruction(&ldc_r4, 0).unwrap().operand, Operand::Float(FloatBits::Single(1.5f32.to_bits())));
    let mut ldc_r8 = vec![0x23];
    ldc_r8.extend(2.5f64.to_le_bytes());
    assert_eq!(instruction(&ldc_r8, 0).unwrap().operand, Operand::Float(FloatBits::Double(2.5f64.to_bits())));
}

#[test]
fn arguments_and_local_variables() {
    assert_eq!(instruction(&[0x0E, 0x03], 0).unwrap().operand, Operand::Argument(Argument::new(3)));
    assert_eq!(instruction(&[0x0F, 0x04], 0).unwrap().operand, Operand::Argument(Argument::new(4)));
    assert_eq!(instruction(&[0x10, 0x05], 0).unwrap().operand, Operand::Argument(Argument::new(5)));
    assert_eq!(instruction(&[0x11, 0x06], 0).unwrap().operand, Operand::Local(Local::new(6)));
    assert_eq!(instruction(&[0x12, 0x07], 0).unwrap().operand, Operand::Local(Local::new(7)));
    assert_eq!(instruction(&[0x13, 0x08], 0).unwrap().operand, Operand::Local(Local::new(8)));
    assert_eq!(instruction(&[0xFE, 0x09, 0x34, 0x12], 0).unwrap().operand, Operand::Argument(Argument::new(0x1234)));
    assert_eq!(instruction(&[0xFE, 0x0B, 0x01, 0x00], 0).unwrap().operand, Operand::Argument(Argument::new(1)));
    assert_eq!(instruction(&[0xFE, 0x0C, 0x34, 0x12], 0).unwrap().operand, Operand::Local(Local::new(0x1234)));
    assert_eq!(instruction(&[0xFE, 0x0E, 0x02, 0x00], 0).unwrap().operand, Operand::Local(Local::new(2)));
    assert_eq!(Argument::new(9).index(), 9);
    assert_eq!(Local::new(9).index(), 9);
}

#[test]
fn instruction_size_is_opcode_and_operand() {
    let cases: [(&[u8], usize); 12] = [
        (&[0x00], 1),
        (&[0x2B, 0x00], 2),
        (&[0x1F, 0x00], 2),
        (&[0x0E, 0x00], 2),
        (&[0xFE, 0x01], 2),
        (&[0xFE, 0x09, 0x00, 0x00], 4),
        (&[0xFE, 0x12, 0x00], 3),
        (&[0x20, 0, 0, 0, 0], 5),
        (&[0x28, 0, 0, 0, 0], 5),
        (&[0x22, 0, 0, 0, 0], 5),
        (&[0x21, 0, 0, 0, 0, 0, 0, 0, 0], 9),
        (&[0xFE, 0x16, 0, 0, 0, 0], 6),
    ];
    for (bytes, size) in cases {
        let mut reader = Reader::new(bytes);
        let insn = reader.read_instruction(0).unwrap();
        assert_eq!(insn.size(), size);
        assert_eq!(reader.tell().unwrap(), size);
        assert_eq!(insn.size(), insn.opcode.size() + (size - insn.opcode.size()));
    }
}

#[test]
fn instruction_made_by_hand() {
    let insn = Instruction::new();
    assert_eq!(insn.offset, 0);
    assert_eq!(insn.opcode.value, OpCodeValue::UNKNOWN1);
    assert_eq!(insn.operand, Operand::NoOperand);
    assert_eq!(insn.size(), 1);
    let reserved = Instruction {
        offset: 0,
        opcode: OpCode { value: OpCodeValue::Nop, operand_type: OperandType::NotUsed8, two_byte: false },
        operand: Operand::NoOperand,
    };
    let mut reader = Reader::new(&[0, 0, 0, 0]);
    assert_eq!(reader.read_operand(&reserved), Err(Error::UndefinedOperandType(OperandType::NotUsed8)));
    let phi = Instruction {
        offset: 0,
        opcode: OpCode { value: OpCodeValue::Nop, operand_type: OperandType::InlinePhi, two_byte: false },
        operand: Operand::NoOperand,
    };
    assert_eq!(reader.read_operand(&phi), Ok(Operand::NoOperand));
    assert_eq!(reader.tell().unwrap(), 0);
}

#[test]
fn instruction_kinds() {
    let at = |bytes: &[u8]| instruction(bytes, 0).unwrap();
    assert!(at(&[0xDD, 0, 0, 0, 0]).is_leave());
    assert!(at(&[0xDE, 0]).is_leave());
    assert!(at(&[0x2B, 0]).is_br());
    assert!(at(&[0x38, 0, 0, 0, 0]).is_br());
    assert!(!at(&[0x2B, 0]).is_cond_br());
    assert!(at(&[0x2C, 0]).is_br_false());
    assert!(at(&[0x2D, 0]).is_br_true());
    assert!(at(&[0x2C, 0]).is_cond_br());
    assert!(at(&[0x40, 0, 0, 0, 0]).is_cond_br());
    assert!(at(&[0x37, 0]).is_cond_br());
    assert!(!at(&[0x2A]).is_cond_br());
    assert!(at(&[0x16]).is_ldc());
    assert!(at(&[0x23, 0, 0, 0, 0, 0, 0, 0, 0]).is_ldc());
    assert!(!at(&[0x14]).is_ldc());
    assert!(at(&[0x03]).is_ldarg());
    assert!(at(&[0x0F, 1]).is_ldarg());
    assert!(!at(&[0x10, 1]).is_ldarg());
    assert!(at(&[0x10, 1]).is_starg());
    assert!(at(&[0xFE, 0x0B, 1, 0]).is_starg());
    assert!(at(&[0x06]).is_ldloc());
    assert!(at(&[0x07]).is_ldloc());
    assert!(at(&[0x08]).is_ldloc());
    assert!(at(&[0x09]).is_ldloc());
    assert!(at(&[0x12, 0]).is_ldloc());
    assert!(!at(&[0x03]).is_ldloc());
    assert!(!at(&[0x04]).is_ldloc());
    assert!(at(&[0x0A]).is_stloc());
    assert!(at(&[0x13, 0]).is_stloc());
    assert!(!at(&[0x11, 0]).is_stloc());
}

#[test]
fn constants_arguments_and_locals_of_instructions() {
    let at = |bytes: &[u8]| instruction(bytes, 0).unwrap();
    assert_eq!(at(&[0x15]).get_ldc(), Some(Operand::Int(-1)));
    assert_eq!(at(&[0x16]).get_ldc(), Some(Operand::Int(0)));
    assert_eq!(at(&[0x1E]).get_ldc(), Some(Operand::Int(8)));
    assert_eq!(at(&[0x1F, 0x80]).get_ldc(), Some(Operand::Int(-128)));
    assert_eq!(at(&[0x20, 0x2A, 0, 0, 0]).get_ldc(), Some(Operand::Int(42)));
    assert_eq!(at(&[0x22, 0, 0, 0x80, 0x3F]).get_ldc(), Some(Operand::Float(FloatBits::Single(1.0f32.to_bits()))));
    assert_eq!(at(&[0x2A]).get_ldc(), None);
    assert_eq!(at(&[0x02]).get_ldarg(), Some(Argument::new(0)));
    assert_eq!(at(&[0x05]).get_ldarg(), Some(Argument::new(3)));
    assert_eq!(at(&[0x0E, 0x07]).get_ldarg(), Some(Argument::new(7)));
    assert_eq!(at(&[0x10, 0x07]).get_ldarg(), None);
    assert_eq!(at(&[0x10, 0x07]).get_starg(), Some(Argument::new(7)));
    assert_eq!(at(&[0x0E, 0x07]).get_starg(), None);
    assert_eq!(at(&[0x06]).get_ldoc(), Some(Local::new(0)));
    assert_eq!(at(&[0x09]).get_ldoc(), Some(Local::new(3)));
    assert_eq!(at(&[0x11, 0x05]).get_ldoc(), Some(Local::new(5)));
    assert_eq!(at(&[0x13, 0x05]).get_ldoc(), None);
    assert_eq!(at(&[0x0A]).get_stloc(), Some(Local::new(0)));
    assert_eq!(at(&[0x0D]).get_stloc(), Some(Local::new(3)));
    assert_eq!(at(&[0x13, 0x05]).get_stloc(), Some(Local::new(5)));
    assert_eq!(at(&[0x11, 0x05]).get_stloc(), None);
}

#[test]
fn operand_conversions() {
    assert_eq!(Operand::Int(1).value(), Err(Error::OperandHasNoValue));
    assert_eq!(Operand::NoOperand.value(), Err(Error::OperandHasNoValue));
    assert_eq!(Operand::Argument(Argument::new(1)).to_argument(), Ok(Argument::new(1)));
    assert_eq!(Operand::Local(Local::new(1)).to_argument(), Err(Error::ConversionError("to argument")));
    assert_eq!(Operand::Local(Local::new(1)).to_local(), Ok(Local::new(1)));
    assert_eq!(Operand::Int(1).to_local(), Err(Error::ConversionError("to local")));
    assert_eq!(Operand::Int(1).to_number(), Ok(Operand::Int(1)));
    assert_eq!(Operand::NoOperand.to_number(), Err(Error::ConversionError("to number")));
}

#[test]
fn header_flags() {
    let tiny = CilMethodBodyFlags::new(0x2);
    assert!(tiny.tiny_format() && tiny.is_tiny() && !tiny.is_fat() && !tiny.small_format());
    let fat = CilMethodBodyFlags::new(0x301B);
    assert!(fat.fat_format() && fat.is_fat() && !fat.is_tiny());
    assert!(fat.more_sects() && fat.init_locals() && !fat.compressed_il());
    assert!(CilMethodBodyFlags::new(0x40).compressed_il());
    assert!(CilMethodBodyFlags::new(0x40).small_format());
    assert!(CilMethodBodyFlags::new(0x6).tiny_format_1());
    let odd = CilMethodBodyFlags::new(0x6);
    assert!(odd.is_tiny() && !odd.is_fat());
    let wide = CilMethodBodyFlags::new(0x3007);
    assert!(wide.is_fat() && !wide.is_tiny() && !wide.fat_format());
    for flags in 0..16usize {
        let f = CilMethodBodyFlags::new(flags);
        assert_eq!(f.is_tiny(), flags & 3 == 2);
        assert_eq!(f.is_fat(), flags & 3 == 3);
    }
}

#[test]
fn exception_handler_kinds() {
    let eh = ExceptionHandler::new(0);
    assert!(eh.is_catch() && !eh.is_filter() && !eh.is_finally() && !eh.is_fault());
    assert_eq!((eh.try_start, eh.try_end, eh.filter_start, eh.handler_start, eh.handler_end), (-1, -1, -1, -1, -1));
    assert_eq!(eh.catch_type, None);
    assert!(ExceptionHandler::new(1).is_filter());
    assert!(ExceptionHandler::new(2).is_finally());
    assert!(ExceptionHandler::new(4).is_fault());
    assert!(!ExceptionHandler::new(4).is_catch());
    assert!(ExceptionHandler::new(8).is_catch());
}

#[test]
fn token_parts() {
    let token = Token::new(0x0600_0012);
    assert_eq!(token.table(), 6);
    assert_eq!(token.rid(), 0x12);
    assert_eq!(Token::new(0x70FF_FFFF).rid(), 0xFF_FFFF);
    assert_eq!(Token::new(0x70FF_FFFF).table(), 0x70);
    assert_eq!(Token::new(0).rid(), 0);
}
