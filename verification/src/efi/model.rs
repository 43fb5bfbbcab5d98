//! What a structurally complete x86_64 UEFI application is, as a statement
//! about the bytes of the file.
use super::error::ImageError;
use vstd::arithmetic::power2;
use vstd::prelude::*;

verus! {

/// The little-endian 16-bit number at `offset`.
pub open spec fn u16_at(data: Seq<u8>, offset: int) -> int {
    data[offset] + 0x100 * data[offset + 1]
}

/// The little-endian 32-bit number at `offset`.
pub open spec fn u32_at(data: Seq<u8>, offset: int) -> int {
    data[offset] + 0x100 * data[offset + 1] + 0x1_0000 * data[offset + 2] + 0x100_0000
        * data[offset + 3]
}

/// Whether the bit of the given weight is set in `flags`.
pub open spec fn has_bit(flags: int, weight: int) -> bool {
    (flags / weight) % 2 == 1
}

/// Whether two half-open ranges collide. An empty range collides with a range
/// that it lies strictly inside.
pub open spec fn ranges_meet(a_start: int, a_end: int, b_start: int, b_end: int) -> bool {
    a_start < b_end && b_start < a_end
}

/// File offset of the PE header.
pub open spec fn pe_offset(data: Seq<u8>) -> int {
    u32_at(data, 0x3c)
}

pub open spec fn section_count(data: Seq<u8>) -> int {
    u16_at(data, pe_offset(data) + 6)
}

pub open spec fn optional_size(data: Seq<u8>) -> int {
    u16_at(data, pe_offset(data) + 20)
}

/// File offset of the optional header.
pub open spec fn optional_offset(data: Seq<u8>) -> int {
    pe_offset(data) + 24
}

pub open spec fn entry_point(data: Seq<u8>) -> int {
    u32_at(data, optional_offset(data) + 16)
}

pub open spec fn section_alignment(data: Seq<u8>) -> int {
    u32_at(data, optional_offset(data) + 32)
}

pub open spec fn file_alignment(data: Seq<u8>) -> int {
    u32_at(data, optional_offset(data) + 36)
}

pub open spec fn image_size(data: Seq<u8>) -> int {
    u32_at(data, optional_offset(data) + 56)
}

pub open spec fn header_size(data: Seq<u8>) -> int {
    u32_at(data, optional_offset(data) + 60)
}

pub open spec fn directory_count(data: Seq<u8>) -> int {
    u32_at(data, optional_offset(data) + 108)
}

/// File offset of the section table.
pub open spec fn table_offset(data: Seq<u8>) -> int {
    optional_offset(data) + optional_size(data)
}

/// File offset just behind the section table.
pub open spec fn table_end(data: Seq<u8>) -> int {
    table_offset(data) + 40 * section_count(data)
}

/// One entry of the section table.
pub struct SectionModel {
    pub virtual_size: int,
    pub virtual_start: int,
    pub raw_size: int,
    pub raw_start: int,
    pub flags: int,
}

impl SectionModel {
    /// End of the memory that the section takes.
    pub open spec fn virtual_end(self) -> int {
        self.virtual_start + if self.virtual_size >= self.raw_size {
            self.virtual_size
        } else {
            self.raw_size
        }
    }

    /// End of the file data that the section takes.
    pub open spec fn raw_end(self) -> int {
        self.raw_start + self.raw_size
    }

    /// End of the memory that file data fills.
    pub open spec fn backed_end(self) -> int {
        self.virtual_start + self.raw_size
    }

    pub open spec fn meets_in_memory(self, other: SectionModel) -> bool {
        ranges_meet(
            self.virtual_start,
            self.virtual_end(),
            other.virtual_start,
            other.virtual_end(),
        )
    }

    /// Whether both sections have file data and the two pieces collide.
    pub open spec fn meets_in_file(self, other: SectionModel) -> bool {
        &&& self.raw_size > 0
        &&& other.raw_size > 0
        &&& ranges_meet(self.raw_start, self.raw_end(), other.raw_start, other.raw_end())
    }

    /// Whether the section is executable and its file data holds the address.
    pub open spec fn runs(self, address: int) -> bool {
        &&& self.raw_size > 0
        &&& has_bit(self.flags, 0x2000_0000)
        &&& self.virtual_start <= address < self.backed_end()
        &&& self.virtual_size == 0 || address < self.virtual_start + self.virtual_size
    }

    /// Whether the section's file data holds the addresses `start..end`.
    pub open spec fn backs(self, start: int, end: int) -> bool {
        &&& self.raw_size > 0
        &&& self.virtual_start <= start
        &&& end <= self.backed_end()
    }
}

/// The section table entry with the given index.
pub open spec fn section(data: Seq<u8>, index: int) -> SectionModel {
    let base = table_offset(data) + 40 * index;
    SectionModel {
        virtual_size: u32_at(data, base + 8),
        virtual_start: u32_at(data, base + 12),
        raw_size: u32_at(data, base + 16),
        raw_start: u32_at(data, base + 20),
        flags: u32_at(data, base + 36),
    }
}

pub open spec fn directory_start(data: Seq<u8>, index: int) -> int {
    u32_at(data, optional_offset(data) + 112 + 8 * index)
}

pub open spec fn directory_size(data: Seq<u8>, index: int) -> int {
    u32_at(data, optional_offset(data) + 116 + 8 * index)
}

pub open spec fn directory_end(data: Seq<u8>, index: int) -> int {
    directory_start(data, index) + directory_size(data, index)
}

/// Index of the certificate table, the one directory that holds a file offset
/// instead of an address.
pub open spec fn certificate_index() -> int {
    4
}

/// Whether `size` bytes from `start` lie in a file of `length` bytes and the
/// end can be counted by a `usize`.
pub open spec fn span_fits(length: nat, start: int, size: int) -> bool {
    start + size <= usize::MAX && start + size <= length
}

pub open spec fn alignments_ok(data: Seq<u8>) -> bool {
    &&& power2::is_pow2(section_alignment(data))
    &&& power2::is_pow2(file_alignment(data))
    &&& section_alignment(data) >= file_alignment(data)
    &&& file_alignment_ok(section_alignment(data), file_alignment(data))
}

/// Below the page size both alignments must be the same; from the page size on
/// the file alignment lies between 512 and 65536.
pub open spec fn file_alignment_ok(section_align: int, file_align: int) -> bool {
    if section_align < 4096 {
        file_align == section_align
    } else {
        512 <= file_align <= 65536
    }
}

pub open spec fn header_size_ok(data: Seq<u8>) -> bool {
    &&& header_size(data) >= table_end(data)
    &&& header_size(data) <= data.len()
    &&& header_size(data) <= image_size(data)
    &&& header_size(data) % file_alignment(data) == 0
}

/// The headers up to and with the section table are there and agree with each
/// other.
pub open spec fn headers_ok(data: Seq<u8>) -> bool {
    let pe = pe_offset(data);
    let optional = optional_offset(data);
    // DOS header
    &&& span_fits(data.len(), 0, 2)
    &&& data[0] == 0x4d && data[1] == 0x5a
    &&& span_fits(data.len(), 0x3c, 4)
    &&& pe >= 64
    // PE signature and file header
    &&& span_fits(data.len(), pe, 24)
    &&& data[pe] == 0x50 && data[pe + 1] == 0x45 && data[pe + 2] == 0 && data[pe + 3] == 0
    &&& u16_at(data, pe + 4) == 0x8664
    &&& section_count(data) > 0
    &&& has_bit(u16_at(data, pe + 22), 0x0002)
    // Optional header
    &&& span_fits(data.len(), optional, optional_size(data))
    &&& optional_size(data) >= 112
    &&& u16_at(data, optional) == 0x20b
    &&& u16_at(data, optional + 68) == 10
    &&& directory_count(data) <= (optional_size(data) - 112) / 8
    // Image layout
    &&& alignments_ok(data)
    &&& image_size(data) > 0 && image_size(data) % section_alignment(data) == 0
    &&& span_fits(data.len(), table_offset(data), 40 * section_count(data))
    &&& header_size_ok(data)
    &&& header_size(data) <= entry_point(data) < image_size(data)
}

/// The section's memory is aligned and lies between the headers and the end of
/// the image.
pub open spec fn virtual_range_ok(data: Seq<u8>, part: SectionModel) -> bool {
    &&& part.virtual_start >= header_size(data)
    &&& part.virtual_start % section_alignment(data) == 0
    &&& part.virtual_end() <= image_size(data)
}

/// The section's file data is aligned and does not start inside the headers.
pub open spec fn raw_alignment_ok(data: Seq<u8>, part: SectionModel) -> bool {
    &&& part.raw_start >= header_size(data)
    &&& part.raw_start % file_alignment(data) == 0
    &&& part.raw_size % file_alignment(data) == 0
}

/// The section by itself fits the image and the file.
pub open spec fn section_ok(data: Seq<u8>, index: int) -> bool {
    let part = section(data, index);
    &&& virtual_range_ok(data, part)
    &&& part.raw_size > 0 ==> raw_alignment_ok(data, part) && part.raw_end() <= data.len()
}

pub open spec fn sections_ok(data: Seq<u8>) -> bool {
    &&& forall|i: int| 0 <= i < section_count(data) ==> #[trigger] section_ok(data, i)
    &&& forall|i: int, j: int|
        #![trigger section(data, i), section(data, j)]
        0 <= j < i < section_count(data) ==> {
            &&& !section(data, i).meets_in_memory(section(data, j))
            &&& !section(data, i).meets_in_file(section(data, j))
        }
}

/// Some executable section's file data holds the entry point.
pub open spec fn entry_ok(data: Seq<u8>) -> bool {
    exists|i: int|
        0 <= i < section_count(data) && (#[trigger] section(data, i)).runs(entry_point(data))
}

/// Some section's file data holds the addresses `start..end`.
pub open spec fn backed(data: Seq<u8>, start: int, end: int) -> bool {
    exists|i: int| 0 <= i < section_count(data) && (#[trigger] section(data, i)).backs(start, end)
}

pub open spec fn certificate_ok(data: Seq<u8>, start: int, end: int) -> bool {
    start % 8 == 0 && end <= data.len()
}

/// An empty directory is always fine. Any other has an address and lies in
/// section data, or in the file where it is the certificate table.
pub open spec fn directory_ok(data: Seq<u8>, index: int) -> bool {
    directory_size(data, index) == 0 || {
        &&& directory_start(data, index) != 0
        &&& if index == certificate_index() {
            certificate_ok(data, directory_start(data, index), directory_end(data, index))
        } else {
            backed(data, directory_start(data, index), directory_end(data, index))
        }
    }
}

/// The bytes are a structurally complete x86_64 UEFI application.
pub open spec fn well_formed(data: Seq<u8>) -> bool {
    &&& headers_ok(data)
    &&& sections_ok(data)
    &&& entry_ok(data)
    &&& forall|i: int| 0 <= i < directory_count(data) ==> #[trigger] directory_ok(data, i)
}

/// The first of two faults.
pub open spec fn first(a: Option<ImageError>, b: Option<ImageError>) -> Option<ImageError> {
    if a is Some {
        a
    } else {
        b
    }
}

/// The fault of a requirement that may be met.
pub open spec fn unless(met: bool, error: ImageError) -> Option<ImageError> {
    if met {
        None
    } else {
        Some(error)
    }
}

/// The fault of reading `size` bytes from `start` of a file of `length` bytes.
pub open spec fn span_fault(length: nat, start: int, size: int) -> Option<ImageError> {
    first(
        unless(start + size <= usize::MAX, ImageError::OffsetOverflow),
        unless(start + size <= length, ImageError::Truncated),
    )
}

pub open spec fn dos_fault(data: Seq<u8>) -> Option<ImageError> {
    first(
        span_fault(data.len(), 0, 2),
        first(
            unless(data[0] == 0x4d && data[1] == 0x5a, ImageError::MissingDosSignature),
            first(
                span_fault(data.len(), 0x3c, 4),
                unless(pe_offset(data) >= 64, ImageError::HeaderOverlapsDosHeader),
            ),
        ),
    )
}

pub open spec fn file_header_fault(data: Seq<u8>) -> Option<ImageError> {
    let pe = pe_offset(data);
    first(
        span_fault(data.len(), pe, 24),
        first(
            unless(
                data[pe] == 0x50 && data[pe + 1] == 0x45 && data[pe + 2] == 0 && data[pe + 3] == 0,
                ImageError::MissingPeSignature,
            ),
            first(
                unless(u16_at(data, pe + 4) == 0x8664, ImageError::WrongMachine),
                first(
                    unless(section_count(data) > 0, ImageError::NoSections),
                    unless(has_bit(u16_at(data, pe + 22), 0x0002), ImageError::NotExecutable),
                ),
            ),
        ),
    )
}

pub open spec fn optional_header_fault(data: Seq<u8>) -> Option<ImageError> {
    let optional = optional_offset(data);
    first(
        span_fault(data.len(), optional, optional_size(data)),
        first(
            unless(optional_size(data) >= 112, ImageError::TruncatedOptionalHeader),
            first(
                unless(u16_at(data, optional) == 0x20b, ImageError::NotPe32Plus),
                first(
                    unless(u16_at(data, optional + 68) == 10, ImageError::WrongSubsystem),
                    unless(
                        directory_count(data) <= (optional_size(data) - 112) / 8,
                        ImageError::TruncatedDirectories,
                    ),
                ),
            ),
        ),
    )
}

pub open spec fn alignment_fault(data: Seq<u8>) -> Option<ImageError> {
    first(
        unless(
            power2::is_pow2(section_alignment(data)) && power2::is_pow2(file_alignment(data)),
            ImageError::AlignmentNotPowerOfTwo,
        ),
        first(
            unless(
                section_alignment(data) >= file_alignment(data),
                ImageError::SectionAlignmentTooSmall,
            ),
            unless(
                file_alignment_ok(section_alignment(data), file_alignment(data)),
                ImageError::FileAlignment,
            ),
        ),
    )
}

pub open spec fn layout_fault(data: Seq<u8>) -> Option<ImageError> {
    first(
        alignment_fault(data),
        first(
            unless(
                image_size(data) > 0 && image_size(data) % section_alignment(data) == 0,
                ImageError::ImageSize,
            ),
            first(
                span_fault(data.len(), table_offset(data), 40 * section_count(data)),
                first(
                    unless(header_size_ok(data), ImageError::HeaderSize),
                    unless(
                        header_size(data) <= entry_point(data) < image_size(data),
                        ImageError::EntryOutsideImage,
                    ),
                ),
            ),
        ),
    )
}

/// The first fault of the headers.
pub open spec fn headers_fault(data: Seq<u8>) -> Option<ImageError> {
    first(
        dos_fault(data),
        first(
            file_header_fault(data),
            first(optional_header_fault(data), layout_fault(data)),
        ),
    )
}

/// The first fault of the file data of one section. A section without file
/// data has none.
pub open spec fn raw_fault(data: Seq<u8>, index: int) -> Option<ImageError> {
    let part = section(data, index);
    if part.raw_size > 0 {
        first(
            unless(raw_alignment_ok(data, part), ImageError::SectionRawAlignment),
            first(
                unless(part.raw_end() <= data.len(), ImageError::TruncatedSectionData),
                unless(
                    forall|j: int|
                        0 <= j < index ==> !part.meets_in_file(#[trigger] section(data, j)),
                    ImageError::OverlappingRawSections,
                ),
            ),
        )
    } else {
        None
    }
}

/// The first fault of one section, held against those before it.
pub open spec fn section_fault(data: Seq<u8>, index: int) -> Option<ImageError> {
    let part = section(data, index);
    first(
        unless(virtual_range_ok(data, part), ImageError::SectionVirtualRange),
        first(
            unless(
                forall|j: int|
                    0 <= j < index ==> !part.meets_in_memory(#[trigger] section(data, j)),
                ImageError::OverlappingVirtualSections,
            ),
            raw_fault(data, index),
        ),
    )
}

/// The first fault of the first `count` sections.
pub open spec fn sections_fault(data: Seq<u8>, count: nat) -> Option<ImageError>
    decreases count,
{
    if count == 0 {
        None
    } else {
        first(sections_fault(data, (count - 1) as nat), section_fault(data, count - 1))
    }
}

/// The first fault of one directory.
pub open spec fn directory_fault(data: Seq<u8>, index: int) -> Option<ImageError> {
    let start = directory_start(data, index);
    let end = directory_end(data, index);
    if directory_size(data, index) == 0 {
        None
    } else {
        first(
            unless(start != 0, ImageError::NullDirectory),
            if index == certificate_index() {
                unless(certificate_ok(data, start, end), ImageError::CertificateTableRange)
            } else {
                unless(backed(data, start, end), ImageError::DirectoryOutsideSections)
            },
        )
    }
}

/// The first fault of the first `count` directories.
pub open spec fn directories_fault(data: Seq<u8>, count: nat) -> Option<ImageError>
    decreases count,
{
    if count == 0 {
        None
    } else {
        first(directories_fault(data, (count - 1) as nat), directory_fault(data, count - 1))
    }
}

/// The first requirement that the bytes fail to meet, where there is one.
pub open spec fn image_fault(data: Seq<u8>) -> Option<ImageError> {
    first(
        headers_fault(data),
        first(
            sections_fault(data, section_count(data) as nat),
            first(
                unless(entry_ok(data), ImageError::EntryNotExecutable),
                directories_fault(data, directory_count(data) as nat),
            ),
        ),
    )
}

} // verus!
