//! Method bodies: header, instructions and exception handlers.
use vstd::prelude::*;
use crate::cil::cil::exception::{ExceptionHandler, UNSET};
use crate::cil::cil::instruction::{instruction_views, Instruction, InstructionView};
use crate::cil::clr::token::Token;
use crate::error::Error;
use crate::utils::{le_u16_at, le_u32_at};
use crate::Result;
use flags::CilMethodBodyFlags;
use reader::{available, short_of, spec_instruction, Reader};

pub mod flags;
pub mod reader;

verus! {

/// The size of a tiny header.
pub const TINY_HEADER_SIZE: usize = 1;

/// The size of the fixed part of a fat header.
pub const FAT_HEADER_SIZE: usize = 12;

/// What a method header says.
pub struct Header {
    pub flags: CilMethodBodyFlags,
    pub header_size: usize,
    pub max_stack: usize,
    pub code_size: usize,
    pub local_var_sig_tok: Option<Token>,
}

/// The header that starts at `pos`.
///
/// The low two bits of the first byte select the form. `10` is a tiny
/// header of one byte, whose upper six bits are the code size. `11` is a
/// fat header: the flags in sixteen bits, of which the upper four count the
/// header's size in words of four bytes, then the stack depth in two bytes,
/// the code size in four and the token of the local variables in four. A
/// fat header of fewer than three words has its bit for extra sections
/// cleared.
pub open spec fn spec_header(data: Seq<u8>, pos: int) -> Result<Header> {
    if available(data, pos) < 1 {
        Err(short_of(data, pos, 1))
    } else if data[pos] & 3 == 2 {
        Ok(
            Header {
                flags: CilMethodBodyFlags { flags: (data[pos] & 7) as usize },
                header_size: TINY_HEADER_SIZE,
                max_stack: 8,
                code_size: (data[pos] / 4) as usize,
                local_var_sig_tok: None,
            },
        )
    } else if data[pos] & 3 == 3 {
        let flags = le_u16_at(data, pos) as usize;
        let words = flags / 0x1000;
        let token = le_u32_at(data, pos + 8) as usize;
        if available(data, pos) < FAT_HEADER_SIZE {
            Err(short_of(data, pos, FAT_HEADER_SIZE as int))
        } else if available(data, pos) < 4 * words {
            Err(short_of(data, pos, 4 * words))
        } else {
            Ok(
                Header {
                    flags: CilMethodBodyFlags {
                        flags: if words < 3 {
                            flags & 0xFFF7
                        } else {
                            flags
                        },
                    },
                    header_size: (4 * words) as usize,
                    max_stack: le_u16_at(data, pos + 2) as usize,
                    code_size: le_u32_at(data, pos + 4) as usize,
                    local_var_sig_tok: if token == 0 {
                        None
                    } else {
                        Some(Token { value: token })
                    },
                },
            )
        }
    } else {
        Err(Error::MethodBodyFormatError((data[pos] & 7) as usize))
    }
}

/// The instructions from `pos` up to `end`, the first one at the offset
/// `offset` of the code, and the position behind the last one.
///
/// An instruction that starts before `end` is read in full, also where it
/// runs past `end`.
pub open spec fn spec_instructions(data: Seq<u8>, pos: int, end: int, offset: int) -> Result<
    (Seq<InstructionView>, int),
>
    decreases
            (if end > pos {
                end - pos
            } else {
                0
            }),
{
    if pos >= end || offset < 0 || offset > usize::MAX {
        Ok((Seq::empty(), pos))
    } else {
        match spec_instruction(data, pos, offset as usize) {
            Err(e) => Err(e),
            Ok(insn) => if insn.size() < 1 {
                Ok((Seq::empty(), pos))
            } else {
                match spec_instructions(data, pos + insn.size(), end, offset + insn.size()) {
                    Err(e) => Err(e),
                    Ok((rest, last)) => Ok((seq![insn] + rest, last)),
                }
            },
        }
    }
}

/// The first multiple of four that is not below `pos`.
pub open spec fn align4(pos: int) -> int {
    ((pos + 3) / 4) * 4
}

/// The handler record of a fat section at `at`: six fields of four bytes.
pub open spec fn spec_fat_handler(data: Seq<u8>, at: int) -> ExceptionHandler {
    spec_handler(
        le_u32_at(data, at) as usize,
        le_u32_at(data, at + 4),
        le_u32_at(data, at + 8),
        le_u32_at(data, at + 12),
        le_u32_at(data, at + 16),
        le_u32_at(data, at + 20),
    )
}

/// The handler record of a tiny section at `at`: flags and offsets in two
/// bytes, lengths in one, the last field in four.
pub open spec fn spec_tiny_handler(data: Seq<u8>, at: int) -> ExceptionHandler {
    spec_handler(
        le_u16_at(data, at) as usize,
        le_u16_at(data, at + 2),
        data[at + 4] as int,
        le_u16_at(data, at + 5),
        data[at + 7] as int,
        le_u32_at(data, at + 8),
    )
}

/// The handler with the given fields. The ends are the starts plus the
/// lengths. The last field is the caught type where the handler catches
/// one, the start of the filter where it has one, and unused otherwise.
pub open spec fn spec_handler(
    flags: usize,
    try_start: int,
    try_length: int,
    handler_start: int,
    handler_length: int,
    last: int,
) -> ExceptionHandler {
    let kind = ExceptionHandler::spec_new(flags);
    ExceptionHandler {
        exception_type: flags,
        try_start: try_start as i64,
        try_end: (try_start + try_length) as i64,
        filter_start: if !kind.spec_is_catch() && kind.spec_is_filter() {
            last as i64
        } else {
            UNSET
        },
        handler_start: handler_start as i64,
        handler_end: (handler_start + handler_length) as i64,
        catch_type: if kind.spec_is_catch() {
            Some(Token { value: last as usize })
        } else {
            None
        },
    }
}

/// The number of handler records of a fat section whose first four bytes
/// stand at `at`: its length in the upper three of them, less the four,
/// by the size of a record.
pub open spec fn spec_fat_count(data: Seq<u8>, at: int) -> int {
    let length = le_u32_at(data, at) / 0x100;
    if length >= 4 {
        (length - 4) / 24
    } else {
        0
    }
}

/// The handlers of a fat section that starts at `at`, and the position
/// behind it.
pub open spec fn spec_fat_section(data: Seq<u8>, at: int) -> Result<(Seq<ExceptionHandler>, int)> {
    if available(data, at) < 4 {
        Err(short_of(data, at, 4))
    } else {
        let count = spec_fat_count(data, at);
        if available(data, at + 4) < 24 * count {
            Err(short_of(data, at + 4, 24 * count))
        } else {
            Ok((Seq::new(count as nat, |i: int| spec_fat_handler(data, at + 4 + 24 * i)), at + 4 + 24 * count))
        }
    }
}

/// The handlers of a tiny section whose count stands at `at`, behind the
/// byte of the section's kind, and the position behind the section.
pub open spec fn spec_tiny_section(data: Seq<u8>, at: int) -> Result<(Seq<ExceptionHandler>, int)> {
    if available(data, at) < 3 {
        Err(short_of(data, at, 3))
    } else {
        let count = data[at] as int;
        if available(data, at + 3) < 12 * count {
            Err(short_of(data, at + 3, 12 * count))
        } else {
            Ok((Seq::new(count as nat, |i: int| spec_tiny_handler(data, at + 3 + 12 * i)), at + 3 + 12 * count))
        }
    }
}

/// The exception handlers behind the code that ends at `pos`, and the
/// position behind them.
///
/// Without the flag for extra sections there are none and nothing is
/// read. With it the section starts at the next multiple of four. Its first
/// byte must have bit 0 set, or else it is no handler section, and only
/// that byte is read; bit `0x40` tells a fat section from a tiny one.
pub open spec fn spec_sections(data: Seq<u8>, pos: int, flags: CilMethodBodyFlags) -> Result<
    (Seq<ExceptionHandler>, int),
> {
    if !flags.spec_more_sects() {
        Ok((Seq::empty(), pos))
    } else {
        let at = align4(pos);
        if available(data, at) < 1 {
            Err(short_of(data, at, 1))
        } else if data[at] & 1 != 1 {
            Ok((Seq::empty(), at + 1))
        } else if data[at] & 0x40 != 0 {
            spec_fat_section(data, at)
        } else {
            spec_tiny_section(data, at + 1)
        }
    }
}

/// A method body as a mathematical value.
pub struct FunctionView {
    pub offset: usize,
    pub header_size: usize,
    pub flags: CilMethodBodyFlags,
    pub max_stack: usize,
    pub code_size: usize,
    pub local_var_sig_tok: Option<Token>,
    pub size: usize,
    pub instructions: Seq<InstructionView>,
    pub exception_handlers: Seq<ExceptionHandler>,
}

/// The method body that starts at `pos`.
///
/// The code follows the header and must lie within `data`. The offsets of
/// the instructions count from the start of the code. The size is the
/// number of bytes from `pos` to the end of what was read.
pub open spec fn spec_function(data: Seq<u8>, pos: int) -> Result<FunctionView> {
    match spec_header(data, pos) {
        Err(e) => Err(e),
        Ok(header) => {
            let code = pos + header.header_size;
            if available(data, code) < header.code_size {
                Err(short_of(data, code, header.code_size as int))
            } else {
                match spec_instructions(data, code, code + header.code_size, 0) {
                    Err(e) => Err(e),
                    Ok((instructions, after_code)) => match spec_sections(
                        data,
                        after_code,
                        header.flags,
                    ) {
                        Err(e) => Err(e),
                        Ok((exception_handlers, end)) => Ok(
                            FunctionView {
                                offset: pos as usize,
                                header_size: header.header_size,
                                flags: header.flags,
                                max_stack: header.max_stack,
                                code_size: header.code_size,
                                local_var_sig_tok: header.local_var_sig_tok,
                                size: (end - pos) as usize,
                                instructions,
                                exception_handlers,
                            },
                        ),
                    },
                }
            }
        },
    }
}

/// A method body.
#[derive(Debug, Clone)]
pub struct Function {
    /// Where the body starts in the image.
    pub offset: usize,
    pub header_size: usize,
    pub flags: CilMethodBodyFlags,
    pub max_stack: usize,
    pub code_size: usize,
    pub local_var_sig_tok: Option<Token>,
    /// The number of bytes of the body: header, code, and what was read of
    /// the exception handlers and the padding before them.
    pub size: usize,
    pub instructions: Vec<Instruction>,
    pub exception_handlers: Vec<ExceptionHandler>,
}

impl View for Function {
    type V = FunctionView;

    open spec fn view(&self) -> FunctionView {
        FunctionView {
            offset: self.offset,
            header_size: self.header_size,
            flags: self.flags,
            max_stack: self.max_stack,
            code_size: self.code_size,
            local_var_sig_tok: self.local_var_sig_tok,
            size: self.size,
            instructions: instruction_views(self.instructions@),
            exception_handlers: self.exception_handlers@,
        }
    }
}

impl Function {
    /// The header fields of the body.
    pub open spec fn header(&self) -> Header {
        Header {
            flags: self.flags,
            header_size: self.header_size,
            max_stack: self.max_stack,
            code_size: self.code_size,
            local_var_sig_tok: self.local_var_sig_tok,
        }
    }

    /// Reads the method body at the cursor.
    ///
    /// On success the cursor stands behind the body, and the size of the
    /// body is the number of bytes the cursor has moved.
    pub fn new(reader: &mut Reader) -> (r: Result<Self>)
        ensures
            final(reader).bytes() == old(reader).bytes(),
            match r {
                Ok(f) => {
                    &&& spec_function(old(reader).bytes(), old(reader).position() as int) == Ok::<
                        FunctionView,
                        Error,
                    >(f@)
                    &&& final(reader).position() == old(reader).position() + f.size
                },
                Err(e) => spec_function(old(reader).bytes(), old(reader).position() as int)
                    == Err::<FunctionView, Error>(e),
            },
    {
        let offset = reader.tell()?;
        let mut res = Self {
            offset,
            header_size: 0,
            flags: CilMethodBodyFlags::new(0),
            max_stack: 0,
            code_size: 0,
            local_var_sig_tok: None,
            size: 0,
            instructions: Vec::new(),
            exception_handlers: Vec::new(),
        };
        res.parse_header(reader)?;
        res.parse_instructions(reader)?;
        let ghost decoded = instruction_views(res.instructions@);
        proof {
            assert(Seq::<InstructionView>::empty() + decoded =~= decoded);
        }
        res.parse_exception_handlers(reader)?;
        proof {
            assert(Seq::<ExceptionHandler>::empty() + res.exception_handlers@
                =~= res.exception_handlers@);
        }
        Ok(res)
    }

    /// Reads the header at the cursor, where the body starts, and moves
    /// the cursor to the code.
    pub fn parse_header(&mut self, reader: &mut Reader) -> (r: Result<()>)
        ensures
            final(reader).bytes() == old(reader).bytes(),
            match r {
                Ok(_) => {
                    &&& spec_header(old(reader).bytes(), old(reader).position() as int) == Ok::<
                        Header,
                        Error,
                    >(final(self).header())
                    &&& final(reader).position() == old(reader).position() + final(self).header_size
                    &&& final(reader).position() <= final(reader).bytes().len()
                    &&& final(self).offset == old(self).offset
                    &&& final(self).size == old(self).size
                    &&& final(self).instructions == old(self).instructions
                    &&& final(self).exception_handlers == old(self).exception_handlers
                },
                Err(e) => spec_header(old(reader).bytes(), old(reader).position() as int) == Err::<
                    Header,
                    Error,
                >(e),
            },
    {
        let start = reader.tell()?;
        let header_byte = reader.read_u8()?;
        if header_byte & 3 == 2 {
            self.flags = CilMethodBodyFlags::new((header_byte & 7) as usize);
            self.header_size = TINY_HEADER_SIZE;
            self.max_stack = 8;
            self.code_size = (header_byte / 4) as usize;
            self.local_var_sig_tok = None;
            Ok(())
        } else if header_byte & 3 == 3 {
            reader.seek(start)?;
            let left = reader.bytes_left();
            if left < FAT_HEADER_SIZE {
                return Err(Error::NotEnoughData(FAT_HEADER_SIZE, left));
            }
            let flags = reader.read_u16()? as usize;
            let words = flags / 0x1000;
            if left < 4 * words {
                return Err(Error::NotEnoughData(4 * words, left));
            }
            self.max_stack = reader.read_u16()? as usize;
            self.code_size = reader.read_u32()? as usize;
            let token = reader.read_u32()? as usize;
            self.local_var_sig_tok = if token == 0 {
                None
            } else {
                Some(Token::new(token))
            };
            self.flags = CilMethodBodyFlags::new(
                if words < 3 {
                    flags & 0xFFF7
                } else {
                    flags
                },
            );
            self.header_size = 4 * words;
            reader.seek(start + self.header_size)?;
            Ok(())
        } else {
            Err(Error::MethodBodyFormatError((header_byte & 7) as usize))
        }
    }

    /// Reads the instructions of the code at the cursor, and appends them
    /// to the instructions of the body.
    pub fn parse_instructions(&mut self, reader: &mut Reader) -> (r: Result<()>)
        ensures
            final(reader).bytes() == old(reader).bytes(),
            match r {
                Ok(_) => {
                    &&& old(reader).left() >= old(self).code_size
                    &&& spec_instructions(
                        old(reader).bytes(),
                        old(reader).position() as int,
                        old(reader).position() + old(self).code_size,
                        0,
                    ) matches Ok((decoded, end))
                    &&& end == final(reader).position()
                    &&& instruction_views(final(self).instructions@) == instruction_views(
                        old(self).instructions@,
                    ) + decoded
                    &&& old(reader).position() <= final(reader).position()
                    &&& final(self).header() == old(self).header()
                    &&& final(self).offset == old(self).offset
                    &&& final(self).size == old(self).size
                    &&& final(self).exception_handlers == old(self).exception_handlers
                },
                Err(e) => if old(reader).left() < old(self).code_size {
                    e == short_of(
                        old(reader).bytes(),
                        old(reader).position() as int,
                        old(self).code_size as int,
                    )
                } else {
                    spec_instructions(
                        old(reader).bytes(),
                        old(reader).position() as int,
                        old(reader).position() + old(self).code_size,
                        0,
                    ) == Err::<(Seq<InstructionView>, int), Error>(e)
                },
            },
    {
        let left = reader.bytes_left();
        if left < self.code_size {
            return Err(Error::NotEnoughData(self.code_size, left));
        }
        let ghost data = reader.bytes();
        let ghost before = instruction_views(self.instructions@);
        let ghost done = Seq::<InstructionView>::empty();
        let start = reader.tell()?;
        let code_end_offset = start + self.code_size;
        let mut current_offset: usize = 0;
        let mut pos = start;
        proof {
            assert(before + done =~= before);
        }
        while pos < code_end_offset
            invariant
                before == instruction_views(old(self).instructions@),
                instruction_views(self.instructions@) == before + done,
                data == old(reader).bytes(),
                start == old(reader).position(),
                code_end_offset == start + old(self).code_size,
                old(reader).left() >= old(self).code_size,
                data.len() <= usize::MAX,
                reader.bytes() == data,
                reader.position() == pos,
                start <= pos,
                pos <= data.len() || pos == start,
                code_end_offset <= data.len() || code_end_offset == start,
                current_offset == pos - start,
                self.header() == old(self).header(),
                self.offset == old(self).offset,
                self.size == old(self).size,
                self.exception_handlers == old(self).exception_handlers,
                match spec_instructions(data, pos as int, code_end_offset as int, current_offset as int) {
                    Ok((rest, last)) => spec_instructions(
                        data,
                        start as int,
                        code_end_offset as int,
                        0,
                    ) == Ok::<(Seq<InstructionView>, int), Error>((done + rest, last)),
                    Err(e) => spec_instructions(data, start as int, code_end_offset as int, 0)
                        == Err::<(Seq<InstructionView>, int), Error>(e),
                },
            decreases data.len() - pos,
        {
            let insn = reader.read_instruction(current_offset)?;
            let size = insn.size();
            current_offset = current_offset + size;
            pos = pos + size;
            proof {
                let rest = spec_instructions(
                    data,
                    pos as int,
                    code_end_offset as int,
                    current_offset as int,
                );
                assert(instruction_views(self.instructions@.push(insn)) =~= instruction_views(
                    self.instructions@,
                ).push(insn@));
                assert((before + done).push(insn@) =~= before + done.push(insn@));
                if let Ok((tail, last)) = rest {
                    assert(done + (seq![insn@] + tail) =~= done.push(insn@) + tail);
                }
                done = done.push(insn@);
            }
            self.instructions.push(insn);
        }
        proof {
            assert(done + Seq::<InstructionView>::empty() =~= done);
        }
        Ok(())
    }

    /// Reads the exception handlers behind the code, where the header
    /// announces them, appends them to the handlers of the body, and sets the
    /// size of the body to the distance of the cursor from its start.
    pub fn parse_exception_handlers(&mut self, reader: &mut Reader) -> (r: Result<()>)
        requires
            old(self).offset <= old(reader).position(),
        ensures
            final(reader).bytes() == old(reader).bytes(),
            match r {
                Ok(_) => {
                    &&& spec_sections(
                        old(reader).bytes(),
                        old(reader).position() as int,
                        old(self).flags,
                    ) matches Ok((handlers, end))
                    &&& end == final(reader).position()
                    &&& final(self).exception_handlers@ == old(self).exception_handlers@ + handlers
                    &&& final(self).size == final(reader).position() - old(self).offset
                    &&& final(self).header() == old(self).header()
                    &&& final(self).offset == old(self).offset
                    &&& final(self).instructions == old(self).instructions
                },
                Err(e) => spec_sections(
                    old(reader).bytes(),
                    old(reader).position() as int,
                    old(self).flags,
                ) == Err::<(Seq<ExceptionHandler>, int), Error>(e),
            },
    {
        let _ = reader.bytes_left();
        assert(self.exception_handlers@ + Seq::<ExceptionHandler>::empty()
            =~= self.exception_handlers@);
        if !self.flags.more_sects() {
            self.size = reader.tell()? - self.offset;
            return Ok(());
        }
        let pos = reader.tell()?;
        if pos > usize::MAX - 3 {
            assert(usize::MAX % 4 == 3);
            return Err(Error::NotEnoughData(1, 0));
        }
        let at = ((pos + 3) / 4) * 4;
        reader.seek(at)?;
        let header_byte = reader.read_u8()?;
        if header_byte & 1 != 1 {
            self.size = reader.tell()? - self.offset;
            return Ok(());
        }
        if header_byte & 0x40 != 0 {
            self.parse_fat_exception_handlers(reader)?;
        } else {
            self.parse_tiny_exception_handlers(reader)?;
        }
        self.size = reader.tell()? - self.offset;
        Ok(())
    }

    /// Reads a fat handler section whose first byte the cursor has just
    /// passed.
    pub fn parse_fat_exception_handlers(&mut self, reader: &mut Reader) -> (r: Result<()>)
        requires
            1 <= old(reader).position(),
        ensures
            final(reader).bytes() == old(reader).bytes(),
            match r {
                Ok(_) => {
                    &&& spec_fat_section(old(reader).bytes(), old(reader).position() - 1) matches Ok(
                        (handlers, end),
                    )
                    &&& end == final(reader).position()
                    &&& final(self).exception_handlers@ == old(self).exception_handlers@ + handlers
                    &&& old(reader).position() <= final(reader).position()
                    &&& final(self).header() == old(self).header()
                    &&& final(self).offset == old(self).offset
                    &&& final(self).size == old(self).size
                    &&& final(self).instructions == old(self).instructions
                },
                Err(e) => spec_fat_section(old(reader).bytes(), old(reader).position() - 1)
                    == Err::<(Seq<ExceptionHandler>, int), Error>(e),
            },
    {
        let ghost data = reader.bytes();
        let at = reader.tell()? - 1;
        reader.seek(at)?;
        let total_size = reader.read_u32()? / 0x100;
        let num_exceptions: usize = if total_size >= 4 {
            ((total_size - 4) / 24) as usize
        } else {
            0
        };
        let left = reader.bytes_left();
        if left < 24 * num_exceptions {
            return Err(Error::NotEnoughData(24 * num_exceptions, left));
        }
        let ghost done = Seq::<ExceptionHandler>::empty();
        proof {
            assert(self.exception_handlers@ + done =~= self.exception_handlers@);
        }
        let mut i: usize = 0;
        while i < num_exceptions
            invariant
                i <= num_exceptions,
                num_exceptions == spec_fat_count(data, at as int),
                reader.bytes() == data,
                reader.position() == at + 4 + 24 * i,
                at + 4 + 24 * num_exceptions <= data.len(),
                self.header() == old(self).header(),
                self.offset == old(self).offset,
                self.size == old(self).size,
                self.instructions == old(self).instructions,
                self.exception_handlers@ == old(self).exception_handlers@ + done,
                done =~= Seq::new(i as nat, |k: int| spec_fat_handler(data, at + 4 + 24 * k)),
            decreases num_exceptions - i,
        {
            let mut eh = ExceptionHandler::new(reader.read_u32()? as usize);
            eh.try_start = reader.read_u32()? as i64;
            eh.try_end = eh.try_start + reader.read_u32()? as i64;
            eh.handler_start = reader.read_u32()? as i64;
            eh.handler_end = eh.handler_start + reader.read_u32()? as i64;
            let last = reader.read_u32()?;
            if eh.is_catch() {
                eh.catch_type = Some(Token::new(last as usize));
            } else if eh.is_filter() {
                eh.filter_start = last as i64;
            }
            proof {
                assert(self.exception_handlers@.push(eh) =~= old(self).exception_handlers@
                    + done.push(eh));
                done = done.push(eh);
            }
            self.exception_handlers.push(eh);
            i = i + 1;
        }

        Ok(())
    }

    /// Reads a tiny handler section whose first byte the cursor has just
    /// passed.
    pub fn parse_tiny_exception_handlers(&mut self, reader: &mut Reader) -> (r: Result<()>)
        ensures
            final(reader).bytes() == old(reader).bytes(),
            match r {
                Ok(_) => {
                    &&& spec_tiny_section(old(reader).bytes(), old(reader).position() as int) matches Ok(
                        (handlers, end),
                    )
                    &&& end == final(reader).position()
                    &&& final(self).exception_handlers@ == old(self).exception_handlers@ + handlers
                    &&& old(reader).position() <= final(reader).position()
                    &&& final(self).header() == old(self).header()
                    &&& final(self).offset == old(self).offset
                    &&& final(self).size == old(self).size
                    &&& final(self).instructions == old(self).instructions
                },
                Err(e) => spec_tiny_section(old(reader).bytes(), old(reader).position() as int)
                    == Err::<(Seq<ExceptionHandler>, int), Error>(e),
            },
    {
        let ghost data = reader.bytes();
        let at = reader.tell()?;
        let left = reader.bytes_left();
        if left < 3 {
            return Err(Error::NotEnoughData(3, left));
        }
        let num_exceptions = reader.read_u8()? as usize;
        reader.seek(at + 3)?;
        let left = reader.bytes_left();
        if left < 12 * num_exceptions {
            return Err(Error::NotEnoughData(12 * num_exceptions, left));
        }
        let ghost done = Seq::<ExceptionHandler>::empty();
        proof {
            assert(self.exception_handlers@ + done =~= self.exception_handlers@);
        }
        let mut i: usize = 0;
        while i < num_exceptions
            invariant
                i <= num_exceptions,
                num_exceptions == data[at as int],
                reader.bytes() == data,
                reader.position() == at + 3 + 12 * i,
                at + 3 + 12 * num_exceptions <= data.len(),
                self.header() == old(self).header(),
                self.offset == old(self).offset,
                self.size == old(self).size,
                self.instructions == old(self).instructions,
                self.exception_handlers@ == old(self).exception_handlers@ + done,
                done =~= Seq::new(i as nat, |k: int| spec_tiny_handler(data, at + 3 + 12 * k)),
            decreases num_exceptions - i,
        {
            let mut eh = ExceptionHandler::new(reader.read_u16()? as usize);
            eh.try_start = reader.read_u16()? as i64;
            eh.try_end = eh.try_start + reader.read_u8()? as i64;
            eh.handler_start = reader.read_u16()? as i64;
            eh.handler_end = eh.handler_start + reader.read_u8()? as i64;
            let last = reader.read_u32()?;
            if eh.is_catch() {
                eh.catch_type = Some(Token::new(last as usize));
            } else if eh.is_filter() {
                eh.filter_start = last as i64;
            }
            proof {
                assert(self.exception_handlers@.push(eh) =~= old(self).exception_handlers@
                    + done.push(eh));
                done = done.push(eh);
            }
            self.exception_handlers.push(eh);
            i = i + 1;
        }

        Ok(())
    }
}

/// The flags of a header tell its form: those of a tiny header are tiny,
/// those of a fat header are fat, and none are both.
pub proof fn lemma_header_kind(data: Seq<u8>, pos: int)
    requires
        spec_header(data, pos) is Ok,
    ensures
        spec_header(data, pos).unwrap().flags.spec_is_tiny() == (data[pos] & 3 == 2),
        spec_header(data, pos).unwrap().flags.spec_is_fat() == (data[pos] & 3 == 3),
        spec_header(data, pos).unwrap().flags.spec_is_tiny() != spec_header(
            data,
            pos,
        ).unwrap().flags.spec_is_fat(),
{
    let b = data[pos];
    if b & 3 == 2 {
        assert(((b & 7) as usize) & 3 == 2) by (bit_vector)
            requires
                b & 3 == 2,
        ;
    } else {
        let f = le_u16_at(data, pos) as usize;
        assert(b & 3 == b % 4) by (bit_vector);
        assert(f & 3 == f % 4) by (bit_vector);
        assert(f % 4 == b % 4);
        assert((f & 0xFFF7) & 3 == f & 3) by (bit_vector);
    }
}

} // verus!
