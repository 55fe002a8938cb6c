//! What the container of an image tells: its sections, and where a
//! relative virtual address lies in the file.
use vstd::prelude::*;

verus! {

/// A section of the container, as far as addresses are resolved with it.
#[derive(Debug, Clone, Copy, PartialEq, Eq, Structural)]
pub struct Section {
    pub virtual_address: u32,
    pub virtual_size: u32,
    pub pointer_to_raw_data: u32,
    pub size_of_raw_data: u32,
}

/// What is read of the headers of a portable executable.
#[derive(Debug, Clone)]
pub struct PeImage {
    pub sections: Vec<Section>,
    /// The file alignment of the optional header, where there is one.
    pub file_alignment: Option<u32>,
    /// Address and size of the directory of the runtime header, where the
    /// optional header has one.
    pub clr_directory: Option<(u32, u32)>,
}

/// What is read of the headers of a portable executable, as a
/// mathematical value.
pub struct PeImageView {
    pub sections: Seq<Section>,
    pub file_alignment: Option<u32>,
    pub clr_directory: Option<(u32, u32)>,
}

impl View for PeImage {
    type V = PeImageView;

    open spec fn view(&self) -> PeImageView {
        PeImageView {
            sections: self.sections@,
            file_alignment: self.file_alignment,
            clr_directory: self.clr_directory,
        }
    }
}

/// What `goblin` makes of the bytes of a file: nothing where it cannot
/// parse them, and the headers of a portable executable where they are
/// one.
pub uninterp spec fn pe_image_of(data: Seq<u8>) -> Option<Option<PeImageView>>;

/// Parses the bytes of a file through `goblin`.
///
/// Trusted: `goblin::Object::parse` depends on the bytes alone, and it
/// returns for every sequence of bytes, with an error for what it cannot
/// read. The sections are taken over in the order of the section table.
#[verifier::external_body]
pub(crate) fn pe_image(data: &[u8]) -> (r: Option<Option<PeImage>>)
    ensures
        match r {
            Some(Some(image)) => pe_image_of(data@) == Some(Some(image@)),
            Some(None) => pe_image_of(data@) == Some(None::<PeImageView>),
            None => pe_image_of(data@) is None,
        },
{
    match goblin::Object::parse(data) {
        Ok(goblin::Object::PE(pe)) => Some(Some(PeImage {
            sections: pe.sections.iter().map(|s| Section {
                virtual_address: s.virtual_address,
                virtual_size: s.virtual_size,
                pointer_to_raw_data: s.pointer_to_raw_data,
                size_of_raw_data: s.size_of_raw_data,
            }).collect(),
            file_alignment: pe.header.optional_header.map(|h| h.windows_fields.file_alignment),
            clr_directory: pe.header.optional_header.and_then(|h| h.data_directories.get_clr_runtime_header().map(|d| (d.virtual_address, d.size))),
        })),
        Ok(_) => Some(None),
        Err(_) => None,
    }
}

/// Whether the sums that the resolving of an address forms over the fields
/// of a section stay within the integers they are formed in: the end of
/// the raw data, rounded up to the file alignment and to a page, and the end
/// of the section in memory within `usize`, and the sum of virtual address
/// and virtual size within `u32`.
pub open spec fn section_in_range(s: Section, file_alignment: u32) -> bool {
    &&& s.pointer_to_raw_data + s.size_of_raw_data + file_alignment + 0xFFF <= usize::MAX
    &&& s.virtual_address + s.size_of_raw_data + 0xFFF <= usize::MAX
    &&& s.virtual_size + 0xFFF <= usize::MAX
    &&& s.virtual_address + s.virtual_size <= u32::MAX
}

/// Whether every section is in range.
pub open spec fn sections_in_range(sections: Seq<Section>, file_alignment: u32) -> bool {
    forall|i: int|
        0 <= i < sections.len() ==> section_in_range(#[trigger] sections[i], file_alignment)
}

/// The offset in the file at which `goblin` finds the relative virtual
/// address `rva`, given the sections and the file alignment.
pub uninterp spec fn pe_offset_of(rva: u32, sections: Seq<Section>, file_alignment: u32) -> Option<usize>;

/// Resolves a relative virtual address through `goblin`.
///
/// Trusted: `goblin::pe::utils::find_offset` depends on the address, on
/// the four fields of each section that are handed to it, and on the file
/// alignment alone. It adds the fields of a section without a check, and
/// so is called for sections in range only.
#[verifier::external_body]
pub(crate) fn pe_find_offset(rva: u32, sections: &Vec<Section>, file_alignment: u32) -> (r: Option<usize>)
    requires
        sections_in_range(sections@, file_alignment),
    ensures
        r == pe_offset_of(rva, sections@, file_alignment),
{
    let table: Vec<goblin::pe::section_table::SectionTable> = sections.iter().map(|s| goblin::pe::section_table::SectionTable {
        virtual_address: s.virtual_address,
        virtual_size: s.virtual_size,
        pointer_to_raw_data: s.pointer_to_raw_data,
        size_of_raw_data: s.size_of_raw_data,
        ..Default::default()
    }).collect();
    goblin::pe::utils::find_offset(rva as usize, &table, file_alignment, &goblin::pe::options::ParseOptions::default())
}

/// The offset in the file of the relative virtual address `rva`: the one
/// that `goblin` finds where every section is in range, and none
/// otherwise.
pub open spec fn spec_find_offset(rva: u32, sections: Seq<Section>, file_alignment: u32) -> Option<
    usize,
> {
    if sections_in_range(sections, file_alignment) {
        pe_offset_of(rva, sections, file_alignment)
    } else {
        None
    }
}

/// Whether the section is in range.
pub fn in_range(s: &Section, file_alignment: u32) -> (r: bool)
    ensures
        r == section_in_range(*s, file_alignment),
{
    let limit: u64 = usize::MAX as u64;
    let pointer: u64 = s.pointer_to_raw_data as u64;
    let raw: u64 = s.size_of_raw_data as u64;
    let address: u64 = s.virtual_address as u64;
    let size: u64 = s.virtual_size as u64;
    pointer + raw + file_alignment as u64 + 0xFFF <= limit && address + raw + 0xFFF <= limit
        && size + 0xFFF <= limit && address + size <= 0xFFFF_FFFF
}

/// The offset in the file of the relative virtual address `rva`, where
/// every section is in range and one of them holds the address.
pub fn find_offset(rva: u32, sections: &Vec<Section>, file_alignment: u32) -> (r: Option<usize>)
    ensures
        r == spec_find_offset(rva, sections@, file_alignment),
{
    let mut i: usize = 0;
    while i < sections.len()
        invariant
            i <= sections@.len(),
            forall|k: int| 0 <= k < i ==> section_in_range(#[trigger] sections@[k], file_alignment),
        decreases sections@.len() - i,
    {
        if !in_range(&sections[i], file_alignment) {
            return None;
        }
        i = i + 1;
    }
    pe_find_offset(rva, sections, file_alignment)
}

} // verus!
