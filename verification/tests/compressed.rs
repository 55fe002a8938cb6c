use dnfile::error::Error;
use dnfile::utils::{
    bytes_eq, read_compressed_usize, read_usize, saturating_product, saturating_sum, str_eq,
    write_compressed_usize,
};

#[test]
fn compressed_integer_boundaries() {
    assert_eq!(read_compressed_usize(&[0x03]).unwrap(), (3, 1));
    assert_eq!(read_compressed_usize(&[0x7F]).unwrap(), (127, 1));
    assert_eq!(read_compressed_usize(&[0x80, 0x80]).unwrap(), (128, 2));
    assert_eq!(read_compressed_usize(&[0xBF, 0xFF]).unwrap(), (16383, 2));
    assert_eq!(read_compressed_usize(&[0xC0, 0x00, 0x40, 0x00]).unwrap(), (16384, 4));
    assert_eq!(read_compressed_usize(&[0xDF, 0xFF, 0xFF, 0xFF]).unwrap(), (0x1FFF_FFFF, 4));
    assert!(matches!(read_compressed_usize(&[0xE0, 0, 0, 0]), Err(Error::ReadCompressedUsize)));
}

#[test]
fn compressed_integer_is_big_endian() {
    assert_eq!(read_compressed_usize(&[0x81, 0x02]).unwrap(), (0x0102, 2));
    assert_eq!(read_compressed_usize(&[0xC1, 0x02, 0x03, 0x04]).unwrap(), (0x0102_0304, 4));
}

#[test]
fn compressed_integer_ignores_what_follows() {
    assert_eq!(read_compressed_usize(&[0x05, 0xFF, 0xFF]).unwrap(), (5, 1));
    assert_eq!(read_compressed_usize(&[0x80, 0x05, 0xFF]).unwrap(), (5, 2));
}

#[test]
fn compressed_integer_cut_off() {
    assert!(matches!(read_compressed_usize(&[]), Err(Error::NotEnoughData(1, 0))));
    assert!(matches!(read_compressed_usize(&[0x80]), Err(Error::NotEnoughData(2, 1))));
    assert!(matches!(read_compressed_usize(&[0xC0, 0, 0]), Err(Error::NotEnoughData(4, 3))));
}

#[test]
fn compressed_integer_written_then_read() {
    for value in [0usize, 1, 0x7F, 0x80, 0x3FFF, 0x4000, 0x12_3456, 0x1FFF_FFFF] {
        let written = write_compressed_usize(value).unwrap();
        assert_eq!(read_compressed_usize(&written).unwrap(), (value, written.len()));
    }
}

#[test]
fn compressed_integer_read_then_written() {
    let forms: [&[u8]; 6] = [
        &[0x03],
        &[0x7F],
        &[0x80, 0x80],
        &[0xBF, 0xFF],
        &[0xC0, 0x00, 0x40, 0x00],
        &[0xDF, 0xFF, 0xFF, 0xFF],
    ];
    for form in forms {
        let (value, used) = read_compressed_usize(form).unwrap();
        assert_eq!(used, form.len());
        assert_eq!(write_compressed_usize(value).unwrap(), form.to_vec());
    }
}

#[test]
fn compressed_integer_longer_form_is_not_written_back() {
    let (value, used) = read_compressed_usize(&[0x80, 0x05]).unwrap();
    assert_eq!((value, used), (5, 2));
    assert_eq!(write_compressed_usize(value).unwrap(), vec![0x05]);
}

#[test]
fn compressed_integer_written_forms() {
    assert_eq!(write_compressed_usize(0x7F).unwrap(), vec![0x7F]);
    assert_eq!(write_compressed_usize(0x80).unwrap(), vec![0x80, 0x80]);
    assert_eq!(write_compressed_usize(0x3FFF).unwrap(), vec![0xBF, 0xFF]);
    assert_eq!(write_compressed_usize(0x4000).unwrap(), vec![0xC0, 0x00, 0x40, 0x00]);
    assert!(write_compressed_usize(0x2000_0000).is_none());
}

#[test]
fn read_usize_by_width() {
    assert_eq!(read_usize(&[0x12]).unwrap(), 0x12);
    assert_eq!(read_usize(&[0x34, 0x12]).unwrap(), 0x1234);
    assert_eq!(read_usize(&[0x78, 0x56, 0x34, 0x12]).unwrap(), 0x1234_5678);
    assert_eq!(
        read_usize(&[0x08, 0x07, 0x06, 0x05, 0x04, 0x03, 0x02, 0x01]).unwrap(),
        0x0102_0304_0506_0708
    );
}

#[test]
fn read_usize_refuses_other_widths() {
    assert!(matches!(read_usize(&[]), Err(Error::CantReadUsizeFromBytesLen(0))));
    assert!(matches!(read_usize(&[1, 2, 3]), Err(Error::CantReadUsizeFromBytesLen(3))));
    assert!(matches!(read_usize(&[0; 16]), Err(Error::CantReadUsizeFromBytesLen(16))));
}

#[test]
fn text_and_bytes_compare() {
    assert!(str_eq("#Strings", "#Strings"));
    assert!(!str_eq("#Strings", "#String"));
    assert!(!str_eq("TypeDef", "TypeRef"));
    assert!(str_eq("", ""));
    assert!(bytes_eq(&[1, 2, 3], &[1, 2, 3]));
    assert!(!bytes_eq(&[1, 2, 3], &[1, 2, 4]));
    assert!(!bytes_eq(&[1, 2, 3], &[1, 2]));
}

#[test]
fn sums_and_products_saturate() {
    assert_eq!(saturating_sum(2, 3), 5);
    assert_eq!(saturating_sum(usize::MAX, 1), usize::MAX);
    assert_eq!(saturating_product(6, 7), 42);
    assert_eq!(saturating_product(0, usize::MAX), 0);
    assert_eq!(saturating_product(usize::MAX, 2), usize::MAX);
}
