//! Integer decoding shared by the heaps and the metadata tables.
use vstd::prelude::*;
use crate::error::Error;
use crate::Result;

verus! {

/// The little-endian value of the two bytes of `s` that start at `i`.
pub open spec fn le_u16_at(s: Seq<u8>, i: int) -> int {
    s[i] as int + 0x100 * (s[i + 1] as int)
}

/// The little-endian value of the four bytes of `s` that start at `i`.
pub open spec fn le_u32_at(s: Seq<u8>, i: int) -> int {
    le_u16_at(s, i) + 0x1_0000 * le_u16_at(s, i + 2)
}

/// The little-endian value of the eight bytes of `s` that start at `i`.
pub open spec fn le_u64_at(s: Seq<u8>, i: int) -> int {
    le_u32_at(s, i) + 0x1_0000_0000 * le_u32_at(s, i + 4)
}

/// Reads two bytes in little-endian order through `byteorder`.
///
/// Trusted: `LittleEndian::read_u16` looks at the first two bytes of the
/// slice only, and panics on a shorter one.
#[verifier::external_body]
pub(crate) fn le_u16(buf: &[u8]) -> (r: u16)
    requires
        buf@.len() >= 2,
    ensures
        r as int == le_u16_at(buf@, 0),
{
    <byteorder::LittleEndian as byteorder::ByteOrder>::read_u16(buf)
}

/// Reads four bytes in little-endian order through `byteorder`.
///
/// Trusted: `LittleEndian::read_u32` looks at the first four bytes of the
/// slice only, and panics on a shorter one.
#[verifier::external_body]
pub(crate) fn le_u32(buf: &[u8]) -> (r: u32)
    requires
        buf@.len() >= 4,
    ensures
        r as int == le_u32_at(buf@, 0),
{
    <byteorder::LittleEndian as byteorder::ByteOrder>::read_u32(buf)
}

/// Reads eight bytes in little-endian order through `byteorder`.
///
/// Trusted: `LittleEndian::read_u64` looks at the first eight bytes of the
/// slice only, and panics on a shorter one.
#[verifier::external_body]
pub(crate) fn le_u64(buf: &[u8]) -> (r: u64)
    requires
        buf@.len() >= 8,
    ensures
        r as int == le_u64_at(buf@, 0),
{
    <byteorder::LittleEndian as byteorder::ByteOrder>::read_u64(buf)
}

/// Decodes bytes as UTF-8.
///
/// Trusted: `String::from_utf8` accepts exactly the well-formed UTF-8 byte
/// sequences, and gives the text that they encode.
#[verifier::external_body]
pub(crate) fn string_from_utf8(bytes: Vec<u8>) -> (r: Option<String>)
    ensures
        r is Some <==> vstd::utf8::valid_utf8(bytes@),
        r matches Some(s) ==> s@ == vstd::utf8::decode_utf8(bytes@),
{
    String::from_utf8(bytes).ok()
}

/// Whether two strings hold the same text.
pub fn str_eq(a: &str, b: &str) -> (r: bool)
    ensures
        r == (a@ == b@),
{
    let x = a.as_bytes();
    let y = b.as_bytes();
    proof {
        vstd::utf8::encode_utf8_decode_utf8(a@);
        vstd::utf8::encode_utf8_decode_utf8(b@);
    }
    bytes_eq(x, y)
}

/// Whether two byte slices hold the same bytes.
pub fn bytes_eq(a: &[u8], b: &[u8]) -> (r: bool)
    ensures
        r == (a@ == b@),
{
    if a.len() != b.len() {
        return false;
    }
    let mut i: usize = 0;
    while i < a.len()
        invariant
            i <= a.len(),
            a.len() == b.len(),
            forall|j: int| 0 <= j < i ==> a@[j] == b@[j],
        decreases a.len() - i,
    {
        if a[i] != b[i] {
            return false;
        }
        i = i + 1;
    }
    assert(a@ =~= b@);
    true
}

/// The sum of `a` and `b`, or the largest `usize` where the sum is larger.
pub open spec fn spec_saturating_sum(a: int, b: int) -> usize {
    if a + b <= usize::MAX {
        (a + b) as usize
    } else {
        usize::MAX
    }
}

/// Adds without overflow: a sum that does not fit is the largest `usize`.
pub fn saturating_sum(a: usize, b: usize) -> (r: usize)
    ensures
        r == spec_saturating_sum(a as int, b as int),
{
    if a > usize::MAX - b {
        usize::MAX
    } else {
        a + b
    }
}

/// The product of `a` and `b`, or the largest `usize` where the product is
/// larger.
pub open spec fn spec_saturating_product(a: int, b: int) -> usize {
    if a * b <= usize::MAX {
        (a * b) as usize
    } else {
        usize::MAX
    }
}

/// Multiplies without overflow: a product that does not fit is the largest
/// `usize`.
pub fn saturating_product(a: usize, b: usize) -> (r: usize)
    ensures
        r == spec_saturating_product(a as int, b as int),
{
    if b != 0 && a > usize::MAX / b {
        proof {
            assert(a * b > usize::MAX) by (nonlinear_arith)
                requires
                    b > 0,
                    a > (usize::MAX as int) / (b as int),
            ;
        }
        usize::MAX
    } else {
        proof {
            assert(a * b <= usize::MAX) by (nonlinear_arith)
                requires
                    b == 0 || a <= (usize::MAX as int) / (b as int),
                    0 <= a,
                    0 <= b,
            ;
        }
        a * b
    }
}

/// Copies the bytes `from..to` of `data`.
pub fn copy_range(data: &[u8], from: usize, to: usize) -> (r: Vec<u8>)
    requires
        from <= to <= data@.len(),
    ensures
        r@ == data@.subrange(from as int, to as int),
{
    vstd::slice::slice_to_vec(vstd::slice::slice_subrange(data, from, to))
}

/// What `read_usize` makes of a field: its little-endian value, if its width
/// is one of 1, 2, 4 and 8 bytes.
pub open spec fn spec_read_usize(data: Seq<u8>) -> Result<usize> {
    if data.len() == 1 {
        Ok(data[0] as usize)
    } else if data.len() == 2 {
        Ok(le_u16_at(data, 0) as usize)
    } else if data.len() == 4 {
        Ok(le_u32_at(data, 0) as usize)
    } else if data.len() == 8 {
        Ok(le_u64_at(data, 0) as usize)
    } else {
        Err(Error::CantReadUsizeFromBytesLen(data.len() as usize))
    }
}

/// Reads a whole little-endian field of 1, 2, 4 or 8 bytes.
pub fn read_usize(data: &[u8]) -> (r: Result<usize>)
    ensures
        r == spec_read_usize(data@),
{
    let n = data.len();
    if n == 1 {
        Ok(data[0] as usize)
    } else if n == 2 {
        Ok(le_u16(data) as usize)
    } else if n == 4 {
        Ok(le_u32(data) as usize)
    } else if n == 8 {
        let v: u64 = le_u64(data);
        Ok(
            #[verifier::truncate]
            (v as usize),
        )
    } else {
        Err(Error::CantReadUsizeFromBytesLen(n))
    }
}

/// What `read_compressed_usize` makes of `data`: the value of the compressed
/// unsigned integer at its start and the number of bytes it takes.
///
/// The top bits of the first byte select the form: `0` one byte with seven
/// value bits, `10` two bytes with fourteen, `110` four bytes with twenty-nine,
/// the most significant byte first. `111` is reserved.
pub open spec fn spec_read_compressed_usize(data: Seq<u8>) -> Result<(usize, usize)> {
    if data.len() < 1 {
        Err(Error::NotEnoughData(1, 0))
    } else if data[0] < 0x80 {
        Ok((data[0] as usize, 1))
    } else if data[0] < 0xC0 {
        if data.len() < 2 {
            Err(Error::NotEnoughData(2, data.len() as usize))
        } else {
            Ok((((data[0] - 0x80) * 0x100 + data[1]) as usize, 2))
        }
    } else if data[0] < 0xE0 {
        if data.len() < 4 {
            Err(Error::NotEnoughData(4, data.len() as usize))
        } else {
            Ok(
                (
                    ((data[0] - 0xC0) * 0x100_0000 + data[1] * 0x1_0000 + data[2] * 0x100
                        + data[3]) as usize,
                    4,
                ),
            )
        }
    } else {
        Err(Error::ReadCompressedUsize)
    }
}

/// Reads the compressed unsigned integer at the start of `data`.
///
/// Returns its value and the number of bytes it takes. Bytes after it are
/// not looked at.
pub fn read_compressed_usize(data: &[u8]) -> (r: Result<(usize, usize)>)
    ensures
        r == spec_read_compressed_usize(data@),
{
    let n = data.len();
    if n < 1 {
        return Err(Error::NotEnoughData(1, 0));
    }
    let b0 = data[0];
    if b0 < 0x80 {
        Ok((b0 as usize, 1))
    } else if b0 < 0xC0 {
        if n < 2 {
            return Err(Error::NotEnoughData(2, n));
        }
        let value: u32 = (b0 - 0x80) as u32 * 0x100 + data[1] as u32;
        Ok((value as usize, 2))
    } else if b0 < 0xE0 {
        if n < 4 {
            return Err(Error::NotEnoughData(4, n));
        }
        let value: u32 = (b0 - 0xC0) as u32 * 0x100_0000 + data[1] as u32 * 0x1_0000
            + data[2] as u32 * 0x100 + data[3] as u32;
        Ok((value as usize, 4))
    } else {
        Err(Error::ReadCompressedUsize)
    }
}

/// The largest value a compressed unsigned integer can hold.
pub const COMPRESSED_MAX: usize = 0x1FFF_FFFF;

/// The shortest compressed form of `value`.
pub open spec fn compressed_encoding(value: int) -> Seq<u8> {
    if value < 0x80 {
        seq![value as u8]
    } else if value < 0x4000 {
        seq![(0x80 + value / 0x100) as u8, (value % 0x100) as u8]
    } else {
        seq![
            (0xC0 + value / 0x100_0000) as u8,
            ((value / 0x1_0000) % 0x100) as u8,
            ((value / 0x100) % 0x100) as u8,
            (value % 0x100) as u8,
        ]
    }
}

/// Writes `value` in its shortest compressed form, or nothing if it does
/// not fit in twenty-nine bits.
pub fn write_compressed_usize(value: usize) -> (r: Option<Vec<u8>>)
    ensures
        value > COMPRESSED_MAX ==> r is None,
        value <= COMPRESSED_MAX ==> r is Some && r.unwrap()@ == compressed_encoding(value as int),
{
    if value > COMPRESSED_MAX {
        return None;
    }
    let mut out: Vec<u8> = Vec::new();
    if value < 0x80 {
        out.push(value as u8);
    } else if value < 0x4000 {
        out.push((0x80 + value / 0x100) as u8);
        out.push((value % 0x100) as u8);
    } else {
        out.push((0xC0 + value / 0x100_0000) as u8);
        out.push(((value / 0x1_0000) % 0x100) as u8);
        out.push(((value / 0x100) % 0x100) as u8);
        out.push((value % 0x100) as u8);
    }
    assert(out@ =~= compressed_encoding(value as int));
    Some(out)
}

/// Whether the compressed integer at the start of `data` is written in the
/// shortest form that holds its value.
pub open spec fn is_shortest_form(data: Seq<u8>) -> bool {
    match spec_read_compressed_usize(data) {
        Ok((value, used)) => used == compressed_encoding(value as int).len(),
        Err(_) => false,
    }
}

/// Reading what was written gives the value back: the shortest form of a
/// value of at most twenty-nine bits, followed by anything, reads as that
/// value and as many bytes as the form has.
pub proof fn lemma_read_of_written(value: usize, rest: Seq<u8>)
    requires
        value <= COMPRESSED_MAX,
    ensures
        spec_read_compressed_usize(compressed_encoding(value as int) + rest) == Ok::<
            (usize, usize),
            Error,
        >((value, compressed_encoding(value as int).len() as usize)),
{
    let enc = compressed_encoding(value as int);
    let data = enc + rest;
    assert(forall|i: int| 0 <= i < enc.len() ==> data[i] == enc[i]);
}

/// Writing what was read gives the bytes back: where a compressed integer
/// is in its shortest form, the form of its value is the bytes it was read
/// from.
pub proof fn lemma_written_of_read(data: Seq<u8>)
    requires
        is_shortest_form(data),
    ensures
        spec_read_compressed_usize(data) matches Ok((value, used)) && compressed_encoding(
            value as int,
        ) == data.subrange(0, used as int),
{
    let (value, used) = spec_read_compressed_usize(data).unwrap();
    let b0 = data[0] as int;
    if b0 < 0x80 {
    } else if b0 < 0xC0 {
        let b1 = data[1] as int;
        lemma_split(b0 - 0x80, b1, 0x100);
    } else {
        let (b1, b2, b3) = (data[1] as int, data[2] as int, data[3] as int);
        let v = value as int;
        assert(v == (b0 - 0xC0) * 0x100_0000 + b1 * 0x1_0000 + b2 * 0x100 + b3);
        lemma_split((b0 - 0xC0) * 0x1_0000 + b1 * 0x100 + b2, b3, 0x100);
        lemma_split((b0 - 0xC0) * 0x100 + b1, b2 * 0x100 + b3, 0x1_0000);
        lemma_split(b0 - 0xC0, b1 * 0x1_0000 + b2 * 0x100 + b3, 0x100_0000);
        lemma_split(b0 - 0xC0, b1, 0x100);
        lemma_split((b0 - 0xC0) * 0x100 + b1, b2, 0x100);
    }
    assert(compressed_encoding(value as int) =~= data.subrange(0, used as int));
}

/// Quotient and remainder of a number written as `high * base + low`.
proof fn lemma_split(high: int, low: int, base: int)
    requires
        0 <= low < base,
    ensures
        (high * base + low) / base == high,
        (high * base + low) % base == low,
{
    vstd::arithmetic::div_mod::lemma_fundamental_div_mod_converse(
        high * base + low,
        base,
        high,
        low,
    );
}

} // verus!
