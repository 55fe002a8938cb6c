use dnfile::error::Error;
use dnfile::stream::blob_heap::BlobHeap;
use dnfile::stream::guid_heap::{Guid, GuidHeap};
use dnfile::stream::string_heap::StringHeap;
use dnfile::stream::user_string_heap::UserStringHeap;

fn string_heap() -> StringHeap {
    StringHeap::new(b"\0<Module>\0Program\0Main\0".to_vec())
}

#[test]
fn string_heap_index_zero_is_empty() {
    assert_eq!(string_heap().get(0).unwrap(), "");
}

#[test]
fn string_heap_reads_up_to_nul() {
    let heap = string_heap();
    assert_eq!(heap.get(1).unwrap(), "<Module>");
    assert_eq!(heap.get(10).unwrap(), "Program");
    assert_eq!(heap.get(13).unwrap(), "gram");
    assert_eq!(heap.get(18).unwrap(), "Main");
    assert_eq!(heap.get(22).unwrap(), "");
}

#[test]
fn string_heap_reads_to_the_end_without_nul() {
    let heap = StringHeap::new(b"\0abc".to_vec());
    assert_eq!(heap.get(1).unwrap(), "abc");
}

#[test]
fn string_heap_out_of_bounds() {
    let heap = string_heap();
    assert!(matches!(heap.get(23), Err(Error::StringHeapReadOutOfBound(23, 23))));
    assert!(matches!(heap.get(1000), Err(Error::StringHeapReadOutOfBound(1000, 23))));
    let empty = StringHeap::new(Vec::new());
    assert!(matches!(empty.get(0), Err(Error::StringHeapReadOutOfBound(0, 0))));
}

#[test]
fn string_heap_replaces_malformed_bytes() {
    let heap = StringHeap::new(vec![0, 0x66, 0x6F, 0xFF, 0x6F, 0]);
    assert_eq!(heap.get(1).unwrap(), "fo\u{FFFD}o");
    let heap = StringHeap::new(vec![0, 0xC3, 0xA9, 0]);
    assert_eq!(heap.get(1).unwrap(), "\u{E9}");
}

fn blob_heap() -> BlobHeap {
    BlobHeap::new(vec![0x00, 0x03, 0x0A, 0x0B, 0x0C, 0x01, 0xFF, 0x80, 0x02, 0x11, 0x22])
}

#[test]
fn blob_heap_index_zero_is_empty() {
    assert_eq!(blob_heap().get(0).unwrap(), Vec::<u8>::new());
}

#[test]
fn blob_heap_reads_length_then_bytes() {
    let heap = blob_heap();
    assert_eq!(heap.get(1).unwrap(), vec![0x0A, 0x0B, 0x0C]);
    assert_eq!(heap.get(5).unwrap(), vec![0xFF]);
    assert_eq!(heap.get(7).unwrap(), vec![0x11, 0x22]);
}

#[test]
fn blob_heap_out_of_bounds() {
    let heap = blob_heap();
    assert!(matches!(heap.get(11), Err(Error::BlobHeapReadOutOfBound(11, 11))));
    // a blob of 0x0A bytes at index 2 would end at 13
    assert!(matches!(heap.get(2), Err(Error::BlobHeapReadOutOfBound(13, 11))));
    // the two-byte length at the last byte is cut off
    let cut = BlobHeap::new(vec![0x00, 0x80]);
    assert!(matches!(cut.get(1), Err(Error::BlobHeapReadOutOfBound(3, 2))));
}

#[test]
fn blob_heap_reserved_length() {
    let heap = BlobHeap::new(vec![0x00, 0xE0, 0x00, 0x00, 0x00]);
    assert!(matches!(heap.get(1), Err(Error::ReadCompressedUsize)));
}

fn user_string_heap() -> UserStringHeap {
    UserStringHeap::new(vec![
        0x00, 0x05, 0x48, 0x00, 0x69, 0x00, 0x00, 0x03, 0x00, 0xD8, 0x00, 0x0B, 0x3D, 0xD8, 0x00,
        0xDE, 0xE9, 0x00, 0x21, 0x00, 0x20, 0x00, 0x01,
    ])
}

#[test]
fn user_string_heap_raw_entry() {
    let heap = user_string_heap();
    assert_eq!(heap.get(1).unwrap(), vec![0x48, 0x00, 0x69, 0x00, 0x00]);
    assert_eq!(heap.get(0).unwrap(), Vec::<u8>::new());
}

#[test]
fn user_string_heap_decodes_utf16() {
    let heap = user_string_heap();
    assert_eq!(heap.get_us(1).unwrap(), "Hi");
    assert_eq!(heap.get_us(0).unwrap(), "");
    // a surrogate pair, a letter outside ASCII, and two ASCII characters
    assert_eq!(heap.get_us(11).unwrap(), "\u{1F600}\u{E9}! ");
}

#[test]
fn user_string_heap_unpaired_surrogate() {
    assert!(matches!(user_string_heap().get_us(7), Err(Error::Utf16Error)));
}

#[test]
fn user_string_heap_out_of_bounds() {
    let heap = user_string_heap();
    assert!(matches!(heap.get(23), Err(Error::UserStringHeapReadOutOfBound(23, 23))));
    assert!(matches!(heap.get_us(23), Err(Error::UserStringHeapReadOutOfBound(23, 23))));
    // the entry at index 19 claims 0x20 bytes
    assert!(matches!(heap.get(20), Err(Error::UserStringHeapReadOutOfBound(20, 23))));
}

fn guid_heap() -> GuidHeap {
    let mut data: Vec<u8> = (1..=16).collect();
    data.extend([0xFFu8; 16]);
    data.extend([0xAB, 0xCD]);
    GuidHeap::new(data)
}

#[test]
fn guid_heap_index_zero_is_nil() {
    let guid = guid_heap().get(0).unwrap();
    assert_eq!(guid, Guid::nil());
    assert_eq!(guid.value, 0);
    assert!(guid.is_nil());
    let empty = GuidHeap::new(Vec::new());
    assert_eq!(empty.get(0).unwrap(), Guid::nil());
}

#[test]
fn guid_heap_slots_count_from_one() {
    let heap = guid_heap();
    assert_eq!(heap.get(1).unwrap().value, 0x0102_0304_0506_0708_090A_0B0C_0D0E_0F10);
    assert_eq!(heap.get(2).unwrap().value, u128::MAX);
    assert!(!heap.get(1).unwrap().is_nil());
}

#[test]
fn guid_heap_out_of_bounds() {
    let heap = guid_heap();
    assert!(matches!(heap.get(3), Err(Error::GuidHeapReadOutOfBound(3, 34))));
    assert!(matches!(heap.get(usize::MAX), Err(Error::GuidHeapReadOutOfBound(usize::MAX, 34))));
    let empty = GuidHeap::new(Vec::new());
    assert!(matches!(empty.get(1), Err(Error::GuidHeapReadOutOfBound(1, 0))));
}

#[test]
fn guid_default_is_nil() {
    assert_eq!(Guid::default(), Guid::nil());
}
