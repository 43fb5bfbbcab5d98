//! Structural PE32+ validation for an x86_64 UEFI application. This is neither
//! a signature check nor a proof that firmware will run the image.
//!
//! Public format references:
//! https://learn.microsoft.com/en-us/windows/win32/debug/pe-format
//! https://uefi.org/specs/UEFI/2.10_A/02_Overview.html#uefi-images
pub mod byte_laws;
pub mod error;
pub mod laws;
pub mod model;

pub use error::ImageError;

use model::SectionModel;
use std::ops::Range;
use vstd::arithmetic::power2;
use vstd::prelude::*;
use vstd::slice::slice_subrange;

verus! {

/// The `size` bytes from `start`.
pub fn bytes(data: &[u8], start: usize, size: usize) -> (result: Result<&[u8], ImageError>)
    ensures
        match result {
            Ok(part) => model::span_fault(data@.len(), start as int, size as int) is None && part@
                == data@.subrange(start as int, start + size),
            Err(e) => model::span_fault(data@.len(), start as int, size as int) == Some(e),
        },
{
    match start.checked_add(size) {
        None => Err(ImageError::OffsetOverflow),
        Some(end) => if end <= data.len() {
            Ok(slice_subrange(data, start, end))
        } else {
            Err(ImageError::Truncated)
        },
    }
}

/// The little-endian 16-bit number at `offset`.
pub fn word(data: &[u8], offset: usize) -> (result: Result<u16, ImageError>)
    ensures
        match result {
            Ok(value) => model::span_fault(data@.len(), offset as int, 2) is None && value
                == model::u16_at(data@, offset as int),
            Err(e) => model::span_fault(data@.len(), offset as int, 2) == Some(e),
        },
{
    let part = bytes(data, offset, 2)?;
    Ok(part[0] as u16 + 0x100 * (part[1] as u16))
}

/// The little-endian 32-bit number at `offset`.
pub fn dword(data: &[u8], offset: usize) -> (result: Result<u32, ImageError>)
    ensures
        match result {
            Ok(value) => model::span_fault(data@.len(), offset as int, 4) is None && value
                == model::u32_at(data@, offset as int),
            Err(e) => model::span_fault(data@.len(), offset as int, 4) == Some(e),
        },
{
    let part = bytes(data, offset, 4)?;
    Ok(
        part[0] as u32 + 0x100 * (part[1] as u32) + 0x1_0000 * (part[2] as u32) + 0x100_0000 * (
        part[3] as u32),
    )
}

/// Whether two ranges collide.
pub fn overlaps(a: &Range<u64>, b: &Range<u64>) -> (result: bool)
    ensures
        result == model::ranges_meet(a.start as int, a.end as int, b.start as int, b.end as int),
{
    a.start < b.end && b.start < a.end
}

/// Whether the number is two to some power.
fn is_power_of_two(value: u64) -> (result: bool)
    ensures
        result == power2::is_pow2(value as int),
{
    reveal(power2::is_pow2);
    if value == 0 {
        return false;
    }
    let mut rest: u64 = value;
    while rest % 2 == 0
        invariant
            rest > 0,
            power2::is_pow2(rest as int) == power2::is_pow2(value as int),
        decreases rest,
    {
        reveal(power2::is_pow2);
        rest = rest / 2;
    }
    rest == 1
}

/// The header fields that the checks behind the headers need.
struct Headers {
    optional: usize,
    table: usize,
    sections: usize,
    directories: usize,
    entry: u64,
    section_align: u64,
    file_align: u64,
    image_size: u64,
    header_size: u64,
}

impl Headers {
    /// The fields are those of the image.
    spec fn describes(&self, data: Seq<u8>) -> bool {
        &&& self.optional == model::optional_offset(data)
        &&& self.table == model::table_offset(data)
        &&& self.sections == model::section_count(data)
        &&& self.directories == model::directory_count(data)
        &&& self.entry == model::entry_point(data)
        &&& self.section_align == model::section_alignment(data)
        &&& self.file_align == model::file_alignment(data)
        &&& self.image_size == model::image_size(data)
        &&& self.header_size == model::header_size(data)
    }
}

/// Checks the DOS header and gives the offset of the PE header.
fn check_dos_header(data: &[u8]) -> (result: Result<usize, ImageError>)
    ensures
        match result {
            Ok(pe) => model::dos_fault(data@) is None && pe == model::pe_offset(data@),
            Err(e) => model::dos_fault(data@) == Some(e),
        },
{
    let magic = bytes(data, 0, 2)?;
    if !(magic[0] == 0x4d && magic[1] == 0x5a) {
        return Err(ImageError::MissingDosSignature);
    }
    let pe: usize = dword(data, 0x3c)? as usize;
    if pe < 64 {
        return Err(ImageError::HeaderOverlapsDosHeader);
    }
    Ok(pe)
}

/// Checks the file header and gives the number of sections and the size of the
/// optional header.
fn check_file_header(data: &[u8], pe: usize) -> (result: Result<(usize, usize), ImageError>)
    requires
        pe == model::pe_offset(data@),
    ensures
        match result {
            Ok((sections, optional_size)) => {
                &&& model::file_header_fault(data@) is None
                &&& sections == model::section_count(data@)
                &&& optional_size == model::optional_size(data@)
            },
            Err(e) => model::file_header_fault(data@) == Some(e),
        },
{
    let header = bytes(data, pe, 24)?;
    if !(header[0] == 0x50 && header[1] == 0x45 && header[2] == 0 && header[3] == 0) {
        return Err(ImageError::MissingPeSignature);
    }
    if word(header, 4)? != 0x8664 {
        return Err(ImageError::WrongMachine);
    }
    let sections: usize = word(header, 6)? as usize;
    if sections == 0 {
        return Err(ImageError::NoSections);
    }
    let flags: u16 = word(header, 22)?;
    assert((flags & 0x0002 != 0) == ((flags / 2) % 2 == 1)) by (bit_vector);
    if flags & 0x0002 == 0 {
        return Err(ImageError::NotExecutable);
    }
    let optional_size: usize = word(header, 20)? as usize;
    Ok((sections, optional_size))
}

/// Checks the optional header and gives the number of directories.
fn check_optional_header(data: &[u8], start: usize, size: usize) -> (result: Result<
    usize,
    ImageError,
>)
    requires
        start == model::optional_offset(data@),
        size == model::optional_size(data@),
    ensures
        match result {
            Ok(directories) => model::optional_header_fault(data@) is None && directories
                == model::directory_count(data@),
            Err(e) => model::optional_header_fault(data@) == Some(e),
        },
{
    let optional = bytes(data, start, size)?;
    if optional.len() < 112 {
        return Err(ImageError::TruncatedOptionalHeader);
    }
    if word(optional, 0)? != 0x20b {
        return Err(ImageError::NotPe32Plus);
    }
    if word(optional, 68)? != 10 {
        return Err(ImageError::WrongSubsystem);
    }
    let directories: usize = dword(optional, 108)? as usize;
    if directories > (optional.len() - 112) / 8 {
        return Err(ImageError::TruncatedDirectories);
    }
    Ok(directories)
}

/// Checks the two alignments.
fn check_alignments(section_align: u64, file_align: u64) -> (result: Result<(), ImageError>)
    ensures
        forall|data: Seq<u8>|
            model::section_alignment(data) == section_align && model::file_alignment(data)
                == file_align ==> match result {
                Ok(_) => #[trigger] model::alignment_fault(data) is None,
                Err(e) => model::alignment_fault(data) == Some(e),
            },
{
    if !(is_power_of_two(section_align) && is_power_of_two(file_align)) {
        return Err(ImageError::AlignmentNotPowerOfTwo);
    }
    if section_align < file_align {
        return Err(ImageError::SectionAlignmentTooSmall);
    }
    let matched = if section_align < 4096 {
        file_align == section_align
    } else {
        512 <= file_align && file_align <= 65536
    };
    if !matched {
        return Err(ImageError::FileAlignment);
    }
    Ok(())
}

/// Checks all headers and gives the fields that are needed further on.
fn check_headers(data: &[u8]) -> (result: Result<Headers, ImageError>)
    ensures
        match result {
            Ok(headers) => model::headers_fault(data@) is None && headers.describes(data@),
            Err(e) => model::headers_fault(data@) == Some(e),
        },
{
    let pe = check_dos_header(data)?;
    let (sections, optional_size) = check_file_header(data, pe)?;
    let optional: usize = pe + 24;
    let directories = check_optional_header(data, optional, optional_size)?;

    let entry: u64 = dword(data, optional + 16)? as u64;
    let section_align: u64 = dword(data, optional + 32)? as u64;
    let file_align: u64 = dword(data, optional + 36)? as u64;
    let image_size: u64 = dword(data, optional + 56)? as u64;
    let header_size: u64 = dword(data, optional + 60)? as u64;
    check_alignments(section_align, file_align)?;
    reveal(power2::is_pow2);
    if !(image_size > 0 && image_size % section_align == 0) {
        return Err(ImageError::ImageSize);
    }
    let table: usize = optional + optional_size;
    let entries = bytes(data, table, sections * 40)?;
    if !(header_size >= (table + entries.len()) as u64 && header_size <= data.len() as u64
        && header_size <= image_size && header_size % file_align == 0) {
        return Err(ImageError::HeaderSize);
    }
    if !(entry >= header_size && entry < image_size) {
        return Err(ImageError::EntryOutsideImage);
    }
    Ok(
        Headers {
            optional,
            table,
            sections,
            directories,
            entry,
            section_align,
            file_align,
            image_size,
            header_size,
        },
    )
}

/// One entry of the section table, as it stands in the file.
struct Section {
    virtual_size: u32,
    virtual_start: u32,
    raw_size: u32,
    raw_start: u32,
    flags: u32,
}

impl View for Section {
    type V = SectionModel;

    closed spec fn view(&self) -> SectionModel {
        SectionModel {
            virtual_size: self.virtual_size as int,
            virtual_start: self.virtual_start as int,
            raw_size: self.raw_size as int,
            raw_start: self.raw_start as int,
            flags: self.flags as int,
        }
    }
}

impl Section {
    fn virtual_range(&self) -> (range: Range<u64>)
        ensures
            range.start == self@.virtual_start,
            range.end == self@.virtual_end(),
    {
        let size: u32 = if self.virtual_size >= self.raw_size {
            self.virtual_size
        } else {
            self.raw_size
        };
        self.virtual_start as u64..self.virtual_start as u64 + size as u64
    }

    fn raw_range(&self) -> (range: Range<u64>)
        ensures
            range.start == self@.raw_start,
            range.end == self@.raw_end(),
    {
        self.raw_start as u64..self.raw_start as u64 + self.raw_size as u64
    }

    /// Whether the section is executable and its file data holds the address.
    fn runs(&self, address: u64) -> (result: bool)
        ensures
            result == self@.runs(address as int),
    {
        let flags: u32 = self.flags;
        assert((flags & 0x2000_0000 != 0) == ((flags / 0x2000_0000) % 2 == 1)) by (bit_vector);
        let start: u64 = self.virtual_start as u64;
        self.raw_size > 0 && flags & 0x2000_0000 != 0 && start <= address && address < start
            + self.raw_size as u64 && (self.virtual_size == 0 || address < start
            + self.virtual_size as u64)
    }

    /// Whether the section's file data holds the addresses `start..end`.
    fn backs(&self, start: u64, end: u64) -> (result: bool)
        ensures
            result == self@.backs(start as int, end as int),
    {
        self.raw_size > 0 && self.virtual_start as u64 <= start && end <= self.virtual_start as u64
            + self.raw_size as u64
    }
}

/// The sections are the first ones of the image.
spec fn are_sections(sections: Seq<Section>, data: Seq<u8>) -> bool {
    forall|i: int|
        #![trigger sections[i]]
        #![trigger model::section(data, i)]
        0 <= i < sections.len() ==> sections[i]@ == model::section(data, i)
}

/// Reads the entry of the section table with the given index.
fn read_section(data: &[u8], headers: &Headers, index: usize) -> (result: Result<
    Section,
    ImageError,
>)
    requires
        model::headers_fault(data@) is None,
        headers.describes(data@),
        index < headers.sections,
    ensures
        result matches Ok(part) && part@ == model::section(data@, index as int),
{
    let entry = bytes(data, headers.table + 40 * index, 40)?;
    Ok(
        Section {
            virtual_size: dword(entry, 8)?,
            virtual_start: dword(entry, 12)?,
            raw_size: dword(entry, 16)?,
            raw_start: dword(entry, 20)?,
            flags: dword(entry, 36)?,
        },
    )
}

/// Whether the section takes memory of one of the others.
fn meets_in_memory(part: &Section, others: &Vec<Section>) -> (result: bool)
    ensures
        result == exists|i: int| 0 <= i < others@.len() && part@.meets_in_memory(#[trigger] others@[i]@),
{
    let range = part.virtual_range();
    for i in 0..others.len()
        invariant
            range.start == part@.virtual_start,
            range.end == part@.virtual_end(),
            forall|j: int| 0 <= j < i ==> !part@.meets_in_memory(#[trigger] others@[j]@),
    {
        if overlaps(&range, &others[i].virtual_range()) {
            assert(part@.meets_in_memory(others@[i as int]@));
            return true;
        }
    }
    false
}

/// Whether the section takes file data of one of the others.
fn meets_in_file(part: &Section, others: &Vec<Section>) -> (result: bool)
    requires
        part@.raw_size > 0,
    ensures
        result == exists|i: int| 0 <= i < others@.len() && part@.meets_in_file(#[trigger] others@[i]@),
{
    let range = part.raw_range();
    for i in 0..others.len()
        invariant
            part@.raw_size > 0,
            range.start == part@.raw_start,
            range.end == part@.raw_end(),
            forall|j: int| 0 <= j < i ==> !part@.meets_in_file(#[trigger] others@[j]@),
    {
        if others[i].raw_size > 0 && overlaps(&range, &others[i].raw_range()) {
            assert(part@.meets_in_file(others@[i as int]@));
            return true;
        }
    }
    false
}

/// Checks one section against the headers and the sections before it.
fn check_section(
    data: &[u8],
    headers: &Headers,
    part: &Section,
    earlier: &Vec<Section>,
) -> (result: Result<(), ImageError>)
    requires
        model::headers_fault(data@) is None,
        headers.describes(data@),
        are_sections(earlier@, data@),
        part@ == model::section(data@, earlier@.len() as int),
    ensures
        match result {
            Ok(_) => model::section_fault(data@, earlier@.len() as int) is None,
            Err(e) => model::section_fault(data@, earlier@.len() as int) == Some(e),
        },
{
    reveal(power2::is_pow2);
    let range = part.virtual_range();
    if !(range.start >= headers.header_size && range.start % headers.section_align == 0
        && range.end <= headers.image_size) {
        return Err(ImageError::SectionVirtualRange);
    }
    let ghost index = earlier@.len() as int;
    assert forall|j: int| 0 <= j < index implies #[trigger] earlier@[j]@ == model::section(
        data@,
        j,
    ) by {}
    if meets_in_memory(part, earlier) {
        return Err(ImageError::OverlappingVirtualSections);
    }
    if part.raw_size > 0 {
        let raw = part.raw_range();
        if !(raw.start >= headers.header_size && raw.start % headers.file_align == 0
            && part.raw_size as u64 % headers.file_align == 0) {
            return Err(ImageError::SectionRawAlignment);
        }
        if raw.end > data.len() as u64 {
            return Err(ImageError::TruncatedSectionData);
        }
        if meets_in_file(part, earlier) {
            return Err(ImageError::OverlappingRawSections);
        }
    }
    Ok(())
}

/// Checks all sections and gives them.
fn check_sections(data: &[u8], headers: &Headers) -> (result: Result<Vec<Section>, ImageError>)
    requires
        model::headers_fault(data@) is None,
        headers.describes(data@),
    ensures
        match result {
            Ok(sections) => {
                &&& model::sections_fault(data@, model::section_count(data@) as nat) is None
                &&& sections@.len() == model::section_count(data@)
                &&& are_sections(sections@, data@)
            },
            Err(e) => model::sections_fault(data@, model::section_count(data@) as nat) == Some(e),
        },
{
    let mut sections: Vec<Section> = Vec::new();
    let mut index: usize = 0;
    while index < headers.sections
        invariant
            model::headers_fault(data@) is None,
            headers.describes(data@),
            index <= headers.sections,
            sections@.len() == index,
            are_sections(sections@, data@),
            model::sections_fault(data@, index as nat) is None,
        decreases headers.sections - index,
    {
        let part = read_section(data, headers, index)?;
        match check_section(data, headers, &part, &sections) {
            Ok(_) => {},
            Err(e) => {
                proof {
                    laws::lemma_first_section_fault(
                        data@,
                        index as nat + 1,
                        model::section_count(data@) as nat,
                    );
                }
                return Err(e);
            },
        }
        sections.push(part);
        index = index + 1;
    }
    Ok(sections)
}

/// Whether an executable section's file data holds the address.
fn entry_is_executable(sections: &Vec<Section>, entry: u64) -> (result: bool)
    ensures
        result == exists|i: int| 0 <= i < sections@.len() && (#[trigger] sections@[i]@).runs(entry as int),
{
    for i in 0..sections.len()
        invariant
            forall|j: int| 0 <= j < i ==> !(#[trigger] sections@[j]@).runs(entry as int),
    {
        if sections[i].runs(entry) {
            assert(sections@[i as int]@.runs(entry as int));
            return true;
        }
    }
    false
}

/// Whether some section's file data holds the addresses `start..end`.
fn is_backed(sections: &Vec<Section>, start: u64, end: u64) -> (result: bool)
    ensures
        result == exists|i: int|
            0 <= i < sections@.len() && (#[trigger] sections@[i]@).backs(start as int, end as int),
{
    for i in 0..sections.len()
        invariant
            forall|j: int|
                0 <= j < i ==> !(#[trigger] sections@[j]@).backs(start as int, end as int),
    {
        if sections[i].backs(start, end) {
            assert(sections@[i as int]@.backs(start as int, end as int));
            return true;
        }
    }
    false
}

/// Checks one directory.
fn check_directory(
    data: &[u8],
    headers: &Headers,
    sections: &Vec<Section>,
    index: usize,
) -> (result: Result<(), ImageError>)
    requires
        model::headers_fault(data@) is None,
        headers.describes(data@),
        sections@.len() == model::section_count(data@),
        are_sections(sections@, data@),
        index < headers.directories,
    ensures
        match result {
            Ok(_) => model::directory_fault(data@, index as int) is None,
            Err(e) => model::directory_fault(data@, index as int) == Some(e),
        },
{
    let start: u64 = dword(data, headers.optional + 112 + index * 8)? as u64;
    let size: u64 = dword(data, headers.optional + 116 + index * 8)? as u64;
    if size == 0 {
        return Ok(());
    }
    if start == 0 {
        return Err(ImageError::NullDirectory);
    }
    let end: u64 = start + size;
    // The certificate table uniquely uses a file offset instead of an RVA.
    if index == 4 {
        if !(start % 8 == 0 && end <= data.len() as u64) {
            return Err(ImageError::CertificateTableRange);
        }
    } else {
        let inside = is_backed(sections, start, end);
        proof {
            if inside {
                let i = choose|i: int|
                    0 <= i < sections@.len() && (#[trigger] sections@[i]@).backs(
                        start as int,
                        end as int,
                    );
                assert(model::section(data@, i).backs(start as int, end as int));
            }
        }
        if !inside {
            return Err(ImageError::DirectoryOutsideSections);
        }
    }
    Ok(())
}

/// Checks all directories.
fn check_directories(data: &[u8], headers: &Headers, sections: &Vec<Section>) -> (result: Result<
    (),
    ImageError,
>)
    requires
        model::headers_fault(data@) is None,
        headers.describes(data@),
        sections@.len() == model::section_count(data@),
        are_sections(sections@, data@),
    ensures
        match result {
            Ok(_) => model::directories_fault(data@, model::directory_count(data@) as nat) is None,
            Err(e) => model::directories_fault(data@, model::directory_count(data@) as nat) == Some(
                e,
            ),
        },
{
    let mut index: usize = 0;
    while index < headers.directories
        invariant
            model::headers_fault(data@) is None,
            headers.describes(data@),
            sections@.len() == model::section_count(data@),
            are_sections(sections@, data@),
            index <= headers.directories,
            model::directories_fault(data@, index as nat) is None,
        decreases headers.directories - index,
    {
        match check_directory(data, headers, sections, index) {
            Ok(_) => {},
            Err(e) => {
                proof {
                    laws::lemma_first_directory_fault(
                        data@,
                        index as nat + 1,
                        model::directory_count(data@) as nat,
                    );
                }
                return Err(e);
            },
        }
        index = index + 1;
    }
    Ok(())
}

/// Reject wrong architectures/subsystems and structurally incomplete PE images.
/// Relocation semantics, code behavior and Secure Boot trust remain firmware checks.
pub fn validate_x64_application(data: &[u8]) -> (result: Result<(), ImageError>)
    ensures
        result is Ok <==> model::well_formed(data@),
        match result {
            Ok(_) => model::image_fault(data@) is None,
            Err(e) => model::image_fault(data@) == Some(e),
        },
{
    proof {
        laws::fault_free_is_well_formed(data@);
    }
    let headers = check_headers(data)?;
    let sections = check_sections(data, &headers)?;
    let executable = entry_is_executable(&sections, headers.entry);
    proof {
        if executable {
            let i = choose|i: int|
                0 <= i < sections@.len() && (#[trigger] sections@[i]@).runs(headers.entry as int);
            assert(model::section(data@, i).runs(model::entry_point(data@)));
        }
    }
    if !executable {
        return Err(ImageError::EntryNotExecutable);
    }
    check_directories(data, &headers, &sections)
}

} // verus!
