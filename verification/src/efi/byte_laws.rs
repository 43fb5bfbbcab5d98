//! What acceptance and rejection of a file say of its bytes, at their offsets.
use super::error::ImageError;
use super::laws;
use super::model;
use std::ops::Range;
use vstd::arithmetic::power2;
use vstd::prelude::*;

verus! {

/// The number that two bytes make, the low one first.
pub open spec fn le16(data: Seq<u8>, at: int) -> int {
    data[at] + 256 * data[at + 1]
}

/// The number that four bytes make, the low ones first.
pub open spec fn le32(data: Seq<u8>, at: int) -> int {
    data[at] + 256 * data[at + 1] + 65536 * data[at + 2] + 16777216 * data[at + 3]
}

/// Bytes can be had exactly if all of them are in the file, and are those of
/// the file.
pub proof fn bytes_are_those_of_the_file(
    data: &[u8],
    start: usize,
    size: usize,
    result: Result<&[u8], ImageError>,
)
    requires
        call_ensures(super::bytes, (data, start, size), result),
    ensures
        result is Ok <==> start + size <= data@.len() && start + size <= usize::MAX,
        result matches Ok(part) ==> {
            &&& part@.len() == size
            &&& forall|i: int| 0 <= i < size ==> part@[i] == data@[start + i]
        },
        result == Err::<&[u8], ImageError>(ImageError::OffsetOverflow) <==> start + size
            > usize::MAX,
        result == Err::<&[u8], ImageError>(ImageError::Truncated) <==> start + size <= usize::MAX
            && start + size > data@.len(),
{
}

/// A 16-bit number is made of two bytes of the file, the low one first.
pub proof fn word_is_two_bytes(data: &[u8], offset: usize, result: Result<u16, ImageError>)
    requires
        call_ensures(super::word, (data, offset), result),
    ensures
        result is Ok <==> offset + 2 <= data@.len() && offset + 2 <= usize::MAX,
        result matches Ok(value) ==> {
            &&& value % 256 == data@[offset as int]
            &&& value / 256 == data@[offset + 1]
        },
        result == Err::<u16, ImageError>(ImageError::OffsetOverflow) <==> offset + 2 > usize::MAX,
        result matches Err(e) ==> e == ImageError::OffsetOverflow || e == ImageError::Truncated,
{
}

/// A 32-bit number is made of four bytes of the file, the low ones first.
pub proof fn dword_is_four_bytes(data: &[u8], offset: usize, result: Result<u32, ImageError>)
    requires
        call_ensures(super::dword, (data, offset), result),
    ensures
        result is Ok <==> offset + 4 <= data@.len() && offset + 4 <= usize::MAX,
        result matches Ok(value) ==> {
            &&& value % 256 == data@[offset as int]
            &&& (value / 256) % 256 == data@[offset + 1]
            &&& (value / 65536) % 256 == data@[offset + 2]
            &&& value / 16777216 == data@[offset + 3]
        },
        result == Err::<u32, ImageError>(ImageError::OffsetOverflow) <==> offset + 4 > usize::MAX,
        result matches Err(e) ==> e == ImageError::OffsetOverflow || e == ImageError::Truncated,
{
}

/// Two ranges overlap exactly if each starts before the other ends. Where neither
/// is empty, one of their starts then lies in the other; an empty one overlaps
/// what it lies strictly inside, and nothing else.
pub proof fn overlap_is_a_start_inside(a: &Range<u64>, b: &Range<u64>, result: bool)
    requires
        call_ensures(super::overlaps, (a, b), result),
    ensures
        result <==> a.start < b.end && b.start < a.end,
        a.start < a.end && b.start < b.end ==> (result <==> b.start <= a.start < b.end || a.start
            <= b.start < a.end),
        a.start == a.end ==> (result <==> b.start < a.start < b.end),
        b.start == b.end ==> (result <==> a.start < b.start < a.end),
{
}

/// The file starts as a DOS file, whose header names the place of the PE header.
pub open spec fn starts_as_dos_file(data: Seq<u8>) -> bool {
    &&& data.len() >= 64
    &&& data[0] == 0x4d
    &&& data[1] == 0x5a
    &&& le32(data, 0x3c) >= 64
}

/// The PE signature and the file header are there: AMD64, one section at least,
/// executable.
pub open spec fn has_file_header(data: Seq<u8>) -> bool {
    let pe = le32(data, 0x3c);
    &&& pe + 24 <= data.len()
    &&& data[pe] == 0x50 && data[pe + 1] == 0x45 && data[pe + 2] == 0 && data[pe + 3] == 0
    &&& data[pe + 4] == 0x64 && data[pe + 5] == 0x86
    &&& le16(data, pe + 6) >= 1
    &&& (data[pe + 22] as int / 2) % 2 == 1
}

/// The optional header is there: PE32+, for an EFI application, with all its
/// directories.
pub open spec fn has_optional_header(data: Seq<u8>) -> bool {
    let pe = le32(data, 0x3c);
    let size = le16(data, pe + 20);
    &&& pe + 24 + size <= data.len()
    &&& size >= 112
    &&& data[pe + 24] == 0x0b && data[pe + 25] == 0x02
    &&& data[pe + 92] == 10 && data[pe + 93] == 0
    &&& 112 + 8 * le32(data, pe + 132) <= size
}

/// The two alignments go with each other.
pub open spec fn is_aligned(data: Seq<u8>) -> bool {
    let pe = le32(data, 0x3c);
    let in_memory = le32(data, pe + 56);
    let in_file = le32(data, pe + 60);
    &&& power2::is_pow2(in_memory)
    &&& power2::is_pow2(in_file)
    &&& in_memory >= in_file
    &&& in_memory < 4096 ==> in_file == in_memory
    &&& in_memory >= 4096 ==> 512 <= in_file <= 65536
}

/// The sizes of the image and of its headers fit each other and the file.
pub open spec fn has_sizes(data: Seq<u8>) -> bool {
    let pe = le32(data, 0x3c);
    let image = le32(data, pe + 80);
    let headers = le32(data, pe + 84);
    let behind_table = pe + 24 + le16(data, pe + 20) + 40 * le16(data, pe + 6);
    &&& image > 0
    &&& image % le32(data, pe + 56) == 0
    &&& behind_table <= data.len()
    &&& behind_table <= headers <= data.len()
    &&& headers <= image
    &&& headers % le32(data, pe + 60) == 0
}

/// The entry point lies behind the headers, in the image.
pub open spec fn has_entry(data: Seq<u8>) -> bool {
    let pe = le32(data, 0x3c);
    le32(data, pe + 84) <= le32(data, pe + 40) < le32(data, pe + 80)
}

/// The entry of the section table with the given index, from its first byte on.
pub open spec fn entry_offset(data: Seq<u8>, index: int) -> int {
    let pe = le32(data, 0x3c);
    pe + 24 + le16(data, pe + 20) + 40 * index
}

pub open spec fn section_number(data: Seq<u8>) -> int {
    le16(data, le32(data, 0x3c) + 6)
}

/// The first address behind the section.
pub open spec fn end_in_memory(data: Seq<u8>, index: int) -> int {
    let at = entry_offset(data, index);
    let in_memory = le32(data, at + 8);
    let in_file = le32(data, at + 16);
    le32(data, at + 12) + if in_memory > in_file {
        in_memory
    } else {
        in_file
    }
}

/// The section lies behind the headers, in the image, at its alignment.
pub open spec fn section_in_memory(data: Seq<u8>, index: int) -> bool {
    let pe = le32(data, 0x3c);
    let start = le32(data, entry_offset(data, index) + 12);
    &&& le32(data, pe + 84) <= start
    &&& start % le32(data, pe + 56) == 0
    &&& end_in_memory(data, index) <= le32(data, pe + 80)
}

/// The file data of the section lies behind the headers, at its alignment.
pub open spec fn section_data_aligned(data: Seq<u8>, index: int) -> bool {
    let pe = le32(data, 0x3c);
    let at = entry_offset(data, index);
    &&& le32(data, pe + 84) <= le32(data, at + 20)
    &&& le32(data, at + 20) % le32(data, pe + 60) == 0
    &&& le32(data, at + 16) % le32(data, pe + 60) == 0
}

/// The file data of the section is in the file.
pub open spec fn section_data_there(data: Seq<u8>, index: int) -> bool {
    let at = entry_offset(data, index);
    le32(data, at + 20) + le32(data, at + 16) <= data.len()
}

pub open spec fn has_data(data: Seq<u8>, index: int) -> bool {
    le32(data, entry_offset(data, index) + 16) > 0
}

/// The two sections collide in memory.
pub open spec fn collide_in_memory(data: Seq<u8>, i: int, j: int) -> bool {
    &&& le32(data, entry_offset(data, i) + 12) < end_in_memory(data, j)
    &&& le32(data, entry_offset(data, j) + 12) < end_in_memory(data, i)
}

/// The file data of the two sections collide.
pub open spec fn collide_in_file(data: Seq<u8>, i: int, j: int) -> bool {
    let a = entry_offset(data, i);
    let b = entry_offset(data, j);
    &&& has_data(data, i)
    &&& has_data(data, j)
    &&& le32(data, a + 20) < le32(data, b + 20) + le32(data, b + 16)
    &&& le32(data, b + 20) < le32(data, a + 20) + le32(data, a + 16)
}

/// The section is executable and the entry point lies in its file data.
pub open spec fn holds_entry(data: Seq<u8>, index: int) -> bool {
    let entry = le32(data, le32(data, 0x3c) + 40);
    let at = entry_offset(data, index);
    let start = le32(data, at + 12);
    &&& has_data(data, index)
    &&& (data[at + 39] as int / 32) % 2 == 1
    &&& start <= entry < start + le32(data, at + 16)
    &&& le32(data, at + 8) == 0 || entry < start + le32(data, at + 8)
}

/// The file data of the section hold `size` bytes from the address on.
pub open spec fn holds_bytes(data: Seq<u8>, index: int, address: int, size: int) -> bool {
    let at = entry_offset(data, index);
    let start = le32(data, at + 12);
    &&& has_data(data, index)
    &&& start <= address
    &&& address + size <= start + le32(data, at + 16)
}

pub open spec fn directory_address(data: Seq<u8>, index: int) -> int {
    le32(data, le32(data, 0x3c) + 136 + 8 * index)
}

pub open spec fn directory_length(data: Seq<u8>, index: int) -> int {
    le32(data, le32(data, 0x3c) + 140 + 8 * index)
}

pub open spec fn directory_number(data: Seq<u8>) -> int {
    le32(data, le32(data, 0x3c) + 132)
}

/// The numbers of the model are those of the bytes.
proof fn lemma_same_numbers(data: Seq<u8>)
    ensures
        model::pe_offset(data) == le32(data, 0x3c),
        model::section_count(data) == section_number(data),
        model::directory_count(data) == directory_number(data),
        forall|i: int| #[trigger]
            model::section(data, i).virtual_start == le32(data, entry_offset(data, i) + 12),
        forall|i: int| #[trigger]
            model::section(data, i).virtual_end() == end_in_memory(data, i),
        forall|i: int| #[trigger]
            model::section(data, i).raw_size == le32(data, entry_offset(data, i) + 16),
        forall|i: int| #[trigger]
            model::section(data, i).raw_start == le32(data, entry_offset(data, i) + 20),
{
}

/// A bit in the highest byte of a number.
proof fn lemma_executable_bit(data: Seq<u8>, at: int)
    ensures
        (le32(data, at) / 0x2000_0000) % 2 == (data[at + 3] as int / 32) % 2,
{
    let low = data[at] + 256 * data[at + 1] + 65536 * data[at + 2];
    let high = data[at + 3] as int;
    assert(0 <= low < 16777216);
    assert((low + 16777216 * high) / 0x2000_0000 == high / 32);
}

/// The second bit of a number is that of its low byte.
proof fn lemma_second_bit(data: Seq<u8>, at: int)
    ensures
        (le16(data, at) / 2) % 2 == (data[at] as int / 2) % 2,
{
    let low = data[at] as int;
    let high = data[at + 1] as int;
    assert((low + 256 * high) / 2 == low / 2 + 128 * high);
}

/// The headers of an accepted file, byte by byte: an AMD64 image, PE32+, for an
/// EFI application and for nothing else the firmware can load, with headers,
/// directories and section table in the file.
pub proof fn accepted_headers(data: &[u8])
    requires
        call_ensures(super::validate_x64_application, (data,), Ok::<(), ImageError>(())),
    ensures
        ({
            let bytes = data@;
            let pe = le32(bytes, 0x3c);
            let optional = pe + 24;
            let size = le16(bytes, pe + 20);
            let behind_table = optional + size + 40 * le16(bytes, pe + 6);
            let entry = le32(bytes, optional + 16);
            let in_memory = le32(bytes, optional + 32);
            let in_file = le32(bytes, optional + 36);
            let image = le32(bytes, optional + 56);
            let headers = le32(bytes, optional + 60);
            &&& bytes[0] == 0x4d && bytes[1] == 0x5a
            &&& pe >= 64
            &&& bytes[pe] == 0x50 && bytes[pe + 1] == 0x45 && bytes[pe + 2] == 0 && bytes[pe + 3]
                == 0
            &&& le16(bytes, pe + 4) == 0x8664
            &&& le16(bytes, pe + 6) > 0
            &&& (le16(bytes, pe + 22) / 2) % 2 == 1
            &&& size >= 112
            &&& le16(bytes, optional) == 0x20b
            &&& le16(bytes, optional + 68) == 10
            &&& 112 + 8 * le32(bytes, optional + 108) <= size
            &&& power2::is_pow2(in_memory) && power2::is_pow2(in_file)
            &&& in_memory >= in_file
            &&& in_memory < 4096 ==> in_file == in_memory
            &&& in_memory >= 4096 ==> 512 <= in_file <= 65536
            &&& image > 0 && image % in_memory == 0
            &&& behind_table <= headers <= bytes.len()
            &&& headers <= image && headers % in_file == 0
            &&& headers <= entry < image
            &&& starts_as_dos_file(bytes) && has_file_header(bytes) && has_optional_header(bytes)
            &&& is_aligned(bytes) && has_sizes(bytes) && has_entry(bytes)
        }),
{
    lemma_second_bit(data@, le32(data@, 0x3c) + 22);
}

/// A section of an accepted file: where it lies in memory and in the file, and
/// that it keeps away from every other.
pub proof fn accepted_section(data: &[u8], i: int, j: int)
    requires
        call_ensures(super::validate_x64_application, (data,), Ok::<(), ImageError>(())),
        0 <= i < section_number(data@),
        0 <= j < section_number(data@),
        i != j,
    ensures
        ({
            let bytes = data@;
            let pe = le32(bytes, 0x3c);
            let in_memory = le32(bytes, pe + 56);
            let in_file = le32(bytes, pe + 60);
            let image = le32(bytes, pe + 80);
            let headers = le32(bytes, pe + 84);
            let at = pe + 24 + le16(bytes, pe + 20) + 40 * i;
            let memory_size = le32(bytes, at + 8);
            let address = le32(bytes, at + 12);
            let file_size = le32(bytes, at + 16);
            let offset = le32(bytes, at + 20);
            &&& headers <= address && address % in_memory == 0
            &&& address + memory_size <= image && address + file_size <= image
            &&& file_size > 0 ==> {
                &&& headers <= offset && offset % in_file == 0
                &&& file_size % in_file == 0
                &&& offset + file_size <= bytes.len()
            }
            &&& !collide_in_memory(bytes, i, j)
            &&& !collide_in_file(bytes, i, j)
        }),
{
    let bytes = data@;
    lemma_same_numbers(bytes);
    assert(model::section_ok(bytes, i));
    let a = model::section(bytes, i);
    let b = model::section(bytes, j);
    if i < j {
        assert(!b.meets_in_memory(a) && !b.meets_in_file(a));
    } else {
        assert(!a.meets_in_memory(b) && !a.meets_in_file(b));
    }
}

/// A section of an accepted file by itself, be it the only one.
pub proof fn accepted_section_alone(data: &[u8], i: int)
    requires
        call_ensures(super::validate_x64_application, (data,), Ok::<(), ImageError>(())),
        0 <= i < section_number(data@),
    ensures
        section_in_memory(data@, i),
        has_data(data@, i) ==> section_data_aligned(data@, i) && section_data_there(data@, i),
{
    lemma_same_numbers(data@);
    assert(model::section_ok(data@, i));
}

/// The entry point of an accepted file lies in the file data of an executable
/// section.
pub proof fn accepted_entry(data: &[u8])
    requires
        call_ensures(super::validate_x64_application, (data,), Ok::<(), ImageError>(())),
    ensures
        exists|i: int| 0 <= i < section_number(data@) && #[trigger] holds_entry(data@, i),
{
    let bytes = data@;
    let i = choose|i: int|
        0 <= i < model::section_count(bytes) && (#[trigger] model::section(bytes, i)).runs(
            model::entry_point(bytes),
        );
    lemma_executable_bit(bytes, entry_offset(bytes, i) + 36);
    assert(holds_entry(bytes, i));
}

/// A directory of an accepted file is empty, or its bytes are in the file: the
/// fifth, the certificate table, at an offset that eight divides, every other in
/// the file data of a section.
pub proof fn accepted_directory(data: &[u8], index: int)
    requires
        call_ensures(super::validate_x64_application, (data,), Ok::<(), ImageError>(())),
        0 <= index < directory_number(data@),
        directory_length(data@, index) > 0,
    ensures
        directory_address(data@, index) > 0,
        index == 4 ==> {
            &&& directory_address(data@, 4) % 8 == 0
            &&& directory_address(data@, 4) + directory_length(data@, 4) <= data@.len()
        },
        index != 4 ==> exists|i: int|
            0 <= i < section_number(data@) && #[trigger] holds_bytes(
                data@,
                i,
                directory_address(data@, index),
                directory_length(data@, index),
            ),
{
    let bytes = data@;
    lemma_same_numbers(bytes);
    assert(model::directory_ok(bytes, index));
    if index != 4 {
        let start = directory_address(bytes, index);
        let size = directory_length(bytes, index);
        let i = choose|i: int|
            0 <= i < model::section_count(bytes) && (#[trigger] model::section(bytes, i)).backs(
                start,
                start + size,
            );
        assert(holds_bytes(bytes, i, start, size));
    }
}

/// All headers are as they must be.
pub open spec fn has_headers(data: Seq<u8>) -> bool {
    &&& starts_as_dos_file(data)
    &&& has_file_header(data)
    &&& has_optional_header(data)
    &&& is_aligned(data)
    &&& has_sizes(data)
    &&& has_entry(data)
}

/// A fault of the headers is the first: what is looked at before it is as it
/// must be.
pub open spec fn header_fault_shows(data: Seq<u8>, fault: ImageError) -> bool {
    let pe = le32(data, 0x3c);
    let size = le16(data, pe + 20);
    let count = le16(data, pe + 6);
    let in_memory = le32(data, pe + 56);
    let in_file = le32(data, pe + 60);
    let image = le32(data, pe + 80);
    let signed = data[pe] == 0x50 && data[pe + 1] == 0x45 && data[pe + 2] == 0 && data[pe + 3] == 0;
    let there = starts_as_dos_file(data) && pe + 24 <= data.len();
    let described = starts_as_dos_file(data) && has_file_header(data);
    let laid_out = described && has_optional_header(data) && is_aligned(data) && image > 0 && image
        % in_memory == 0;
    match fault {
        ImageError::OffsetOverflow => pe + 24 + size + 40 * count > usize::MAX,
        ImageError::Truncated => {
            ||| data.len() < 64 && (data.len() >= 2 ==> data[0] == 0x4d && data[1] == 0x5a)
            ||| starts_as_dos_file(data) && data.len() < pe + 24
            ||| described && data.len() < pe + 24 + size
            ||| laid_out && data.len() < pe + 24 + size + 40 * count
        },
        ImageError::MissingDosSignature => data.len() >= 2 && !(data[0] == 0x4d && data[1] == 0x5a),
        ImageError::HeaderOverlapsDosHeader => data.len() >= 64 && data[0] == 0x4d && data[1] == 0x5a
            && pe < 64,
        ImageError::MissingPeSignature => there && !signed,
        ImageError::WrongMachine => there && signed && !(data[pe + 4] == 0x64 && data[pe + 5]
            == 0x86),
        ImageError::NoSections => there && signed && data[pe + 4] == 0x64 && data[pe + 5] == 0x86
            && count == 0,
        ImageError::NotExecutable => there && signed && data[pe + 4] == 0x64 && data[pe + 5] == 0x86
            && count > 0 && (data[pe + 22] as int / 2) % 2 == 0,
        ImageError::TruncatedOptionalHeader => described && pe + 24 + size <= data.len() && size
            < 112,
        ImageError::NotPe32Plus => described && pe + 24 + size <= data.len() && size >= 112 && !(
        data[pe + 24] == 0x0b && data[pe + 25] == 0x02),
        ImageError::WrongSubsystem => described && pe + 24 + size <= data.len() && size >= 112
            && data[pe + 24] == 0x0b && data[pe + 25] == 0x02 && !(data[pe + 92] == 10 && data[pe
            + 93] == 0),
        ImageError::TruncatedDirectories => described && pe + 24 + size <= data.len() && size >= 112
            && data[pe + 24] == 0x0b && data[pe + 25] == 0x02 && data[pe + 92] == 10 && data[pe + 93]
            == 0 && 112 + 8 * le32(data, pe + 132) > size,
        ImageError::AlignmentNotPowerOfTwo => described && has_optional_header(data) && !(
        power2::is_pow2(in_memory) && power2::is_pow2(in_file)),
        ImageError::SectionAlignmentTooSmall => described && has_optional_header(data)
            && power2::is_pow2(in_memory) && power2::is_pow2(in_file) && in_memory < in_file,
        ImageError::FileAlignment => described && has_optional_header(data) && power2::is_pow2(
            in_memory,
        ) && power2::is_pow2(in_file) && in_memory >= in_file && if in_memory < 4096 {
            in_file != in_memory
        } else {
            in_file < 512 || in_file > 65536
        },
        ImageError::ImageSize => described && has_optional_header(data) && is_aligned(data) && (image
            == 0 || image % in_memory != 0),
        ImageError::HeaderSize => laid_out && pe + 24 + size + 40 * count <= data.len()
            && !has_sizes(data),
        ImageError::EntryOutsideImage => laid_out && has_sizes(data) && !has_entry(data),
        _ => false,
    }
}

/// The section is as it must be, held against those before it.
pub open spec fn section_fine(data: Seq<u8>, index: int) -> bool {
    &&& section_in_memory(data, index)
    &&& forall|j: int| 0 <= j < index ==> !#[trigger] collide_in_memory(data, index, j)
    &&& has_data(data, index) ==> {
        &&& section_data_aligned(data, index)
        &&& section_data_there(data, index)
        &&& forall|j: int| 0 <= j < index ==> !#[trigger] collide_in_file(data, index, j)
    }
}

/// The fault is the first of the section.
pub open spec fn section_fault_shows(data: Seq<u8>, index: int, fault: ImageError) -> bool {
    let alone = forall|j: int| 0 <= j < index ==> !#[trigger] collide_in_memory(data, index, j);
    match fault {
        ImageError::SectionVirtualRange => !section_in_memory(data, index),
        ImageError::OverlappingVirtualSections => section_in_memory(data, index) && exists|j: int|
            0 <= j < index && #[trigger] collide_in_memory(data, index, j),
        ImageError::SectionRawAlignment => section_in_memory(data, index) && alone && has_data(
            data,
            index,
        ) && !section_data_aligned(data, index),
        ImageError::TruncatedSectionData => section_in_memory(data, index) && alone && has_data(
            data,
            index,
        ) && section_data_aligned(data, index) && !section_data_there(data, index),
        ImageError::OverlappingRawSections => section_in_memory(data, index) && alone && has_data(
            data,
            index,
        ) && section_data_aligned(data, index) && section_data_there(data, index) && exists|j: int|
            0 <= j < index && #[trigger] collide_in_file(data, index, j),
        _ => false,
    }
}

/// The bytes of the directory are in the file.
pub open spec fn directory_fine(data: Seq<u8>, index: int) -> bool {
    let address = directory_address(data, index);
    let size = directory_length(data, index);
    size == 0 || {
        &&& address != 0
        &&& index == 4 ==> address % 8 == 0 && address + size <= data.len()
        &&& index != 4 ==> exists|i: int|
            0 <= i < section_number(data) && #[trigger] holds_bytes(data, i, address, size)
    }
}

/// The fault is the first of the directory.
pub open spec fn directory_fault_shows(data: Seq<u8>, index: int, fault: ImageError) -> bool {
    let address = directory_address(data, index);
    let size = directory_length(data, index);
    match fault {
        ImageError::NullDirectory => size > 0 && address == 0,
        ImageError::CertificateTableRange => size > 0 && address > 0 && index == 4 && (address % 8
            != 0 || address + size > data.len()),
        ImageError::DirectoryOutsideSections => size > 0 && address > 0 && index != 4 && forall|
            i: int,
        |
            0 <= i < section_number(data) ==> !#[trigger] holds_bytes(data, i, address, size),
        _ => false,
    }
}

/// A section of the model is fine exactly if the bytes say so, and its fault is
/// one of the bytes.
proof fn lemma_section_of_bytes(data: Seq<u8>, index: int)
    ensures
        model::section_fault(data, index) is None <==> section_fine(data, index),
        model::section_fault(data, index) matches Some(e) ==> section_fault_shows(data, index, e),
{
    lemma_same_numbers(data);
    let part = model::section(data, index);
    assert forall|j: int| #[trigger] collide_in_memory(data, index, j) == part.meets_in_memory(
        model::section(data, j),
    ) by {}
    assert forall|j: int| #[trigger] collide_in_file(data, index, j) == part.meets_in_file(
        model::section(data, j),
    ) by {}
    assert(model::virtual_range_ok(data, part) == section_in_memory(data, index));
    assert(model::raw_alignment_ok(data, part) == section_data_aligned(data, index));
    assert((forall|j: int| 0 <= j < index ==> !part.meets_in_memory(#[trigger] model::section(data, j)))
        == (forall|j: int| 0 <= j < index ==> !#[trigger] collide_in_memory(data, index, j))) by {
        if forall|j: int| 0 <= j < index ==> !#[trigger] collide_in_memory(data, index, j) {
            assert forall|j: int| 0 <= j < index implies !part.meets_in_memory(
                #[trigger] model::section(data, j),
            ) by {
                assert(!collide_in_memory(data, index, j));
            }
        }
    }
    assert((forall|j: int| 0 <= j < index ==> !part.meets_in_file(#[trigger] model::section(data, j)))
        == (forall|j: int| 0 <= j < index ==> !#[trigger] collide_in_file(data, index, j))) by {
        if forall|j: int| 0 <= j < index ==> !#[trigger] collide_in_file(data, index, j) {
            assert forall|j: int| 0 <= j < index implies !part.meets_in_file(
                #[trigger] model::section(data, j),
            ) by {
                assert(!collide_in_file(data, index, j));
            }
        }
    }
}

/// The first section with a fault.
proof fn lemma_first_bad_section(data: Seq<u8>, count: nat) -> (index: int)
    requires
        model::sections_fault(data, count) is Some,
    ensures
        0 <= index < count,
        section_fault_shows(data, index, model::sections_fault(data, count)->0),
        forall|k: int| 0 <= k < index ==> #[trigger] section_fine(data, k),
    decreases count,
{
    let before = (count - 1) as nat;
    if model::sections_fault(data, before) is Some {
        lemma_first_bad_section(data, before)
    } else {
        lemma_all_sections_fine(data, before);
        lemma_section_of_bytes(data, count - 1);
        count - 1
    }
}

proof fn lemma_all_sections_fine(data: Seq<u8>, count: nat)
    ensures
        model::sections_fault(data, count) is None <==> forall|k: int|
            0 <= k < count ==> #[trigger] section_fine(data, k),
    decreases count,
{
    if count > 0 {
        lemma_all_sections_fine(data, (count - 1) as nat);
        lemma_section_of_bytes(data, count - 1);
        if forall|k: int| 0 <= k < count ==> #[trigger] section_fine(data, k) {
            assert(section_fine(data, count - 1));
        }
    }
}

proof fn lemma_directory_of_bytes(data: Seq<u8>, index: int)
    ensures
        model::directory_fault(data, index) is None <==> directory_fine(data, index),
        model::directory_fault(data, index) matches Some(e) ==> directory_fault_shows(
            data,
            index,
            e,
        ),
{
    lemma_same_numbers(data);
    let start = directory_address(data, index);
    let size = directory_length(data, index);
    assert forall|i: int| #[trigger] holds_bytes(data, i, start, size) == model::section(
        data,
        i,
    ).backs(start, start + size) by {}
    if model::backed(data, start, start + size) {
        let i = choose|i: int|
            0 <= i < model::section_count(data) && (#[trigger] model::section(data, i)).backs(
                start,
                start + size,
            );
        assert(holds_bytes(data, i, start, size));
    }
    if exists|i: int| 0 <= i < section_number(data) && #[trigger] holds_bytes(data, i, start, size) {
        let i = choose|i: int|
            0 <= i < section_number(data) && #[trigger] holds_bytes(data, i, start, size);
        assert(model::section(data, i).backs(start, start + size));
    }
}

proof fn lemma_all_directories_fine(data: Seq<u8>, count: nat)
    ensures
        model::directories_fault(data, count) is None <==> forall|k: int|
            0 <= k < count ==> #[trigger] directory_fine(data, k),
    decreases count,
{
    if count > 0 {
        lemma_all_directories_fine(data, (count - 1) as nat);
        lemma_directory_of_bytes(data, count - 1);
        if forall|k: int| 0 <= k < count ==> #[trigger] directory_fine(data, k) {
            assert(directory_fine(data, count - 1));
        }
    }
}

/// The first directory with a fault.
proof fn lemma_first_bad_directory(data: Seq<u8>, count: nat) -> (index: int)
    requires
        model::directories_fault(data, count) is Some,
    ensures
        0 <= index < count,
        directory_fault_shows(data, index, model::directories_fault(data, count)->0),
        forall|k: int| 0 <= k < index ==> #[trigger] directory_fine(data, k),
    decreases count,
{
    let before = (count - 1) as nat;
    if model::directories_fault(data, before) is Some {
        lemma_first_bad_directory(data, before)
    } else {
        lemma_all_directories_fine(data, before);
        lemma_directory_of_bytes(data, count - 1);
        count - 1
    }
}

/// The file has an entry point that can run.
pub open spec fn entry_runs(data: Seq<u8>) -> bool {
    exists|i: int| 0 <= i < section_number(data) && #[trigger] holds_entry(data, i)
}

proof fn lemma_entry_of_bytes(data: Seq<u8>)
    ensures
        model::entry_ok(data) == entry_runs(data),
{
    let entry = model::entry_point(data);
    assert forall|i: int| #[trigger] holds_entry(data, i) == model::section(data, i).runs(
        entry,
    ) by {
        lemma_executable_bit(data, entry_offset(data, i) + 36);
    }
    if model::entry_ok(data) {
        let i = choose|i: int|
            0 <= i < model::section_count(data) && (#[trigger] model::section(data, i)).runs(entry);
        assert(holds_entry(data, i));
    }
    if entry_runs(data) {
        let i = choose|i: int| 0 <= i < section_number(data) && #[trigger] holds_entry(data, i);
        assert(model::section(data, i).runs(entry));
    }
}

proof fn lemma_headers_of_bytes(data: Seq<u8>)
    ensures
        model::headers_fault(data) is None ==> has_headers(data),
        model::headers_fault(data) matches Some(e) ==> header_fault_shows(data, e),
{
    lemma_second_bit(data, le32(data, 0x3c) + 22);
}

/// The section has the first fault.
pub open spec fn bad_section(data: Seq<u8>, fault: ImageError, index: int) -> bool {
    &&& 0 <= index < section_number(data)
    &&& forall|k: int| 0 <= k < index ==> #[trigger] section_fine(data, k)
    &&& section_fault_shows(data, index, fault)
}

/// The directory has the first fault.
pub open spec fn bad_directory(data: Seq<u8>, fault: ImageError, index: int) -> bool {
    &&& 0 <= index < directory_number(data)
    &&& forall|k: int| 0 <= k < index ==> #[trigger] directory_fine(data, k)
    &&& directory_fault_shows(data, index, fault)
}

/// All sections are as they must be.
pub open spec fn has_sections(data: Seq<u8>) -> bool {
    forall|k: int| 0 <= k < section_number(data) ==> #[trigger] section_fine(data, k)
}

/// A file is turned down only for a fault that its bytes show, and for the first
/// of them: in the headers, in a section, in the entry point or in a directory.
pub proof fn rejection_names_the_first_fault(data: &[u8], fault: ImageError)
    requires
        call_ensures(super::validate_x64_application, (data,), Err::<(), ImageError>(fault)),
    ensures
        ({
            let bytes = data@;
            ||| header_fault_shows(bytes, fault)
            ||| has_headers(bytes) && exists|i: int| #[trigger] bad_section(bytes, fault, i)
            ||| {
                &&& has_headers(bytes) && has_sections(bytes) && !entry_runs(bytes)
                &&& fault == ImageError::EntryNotExecutable
            }
            ||| has_headers(bytes) && has_sections(bytes) && entry_runs(bytes) && exists|i: int|
                #[trigger] bad_directory(bytes, fault, i)
        }),
{
    let bytes = data@;
    let sections = model::section_count(bytes) as nat;
    let directories = model::directory_count(bytes) as nat;
    lemma_headers_of_bytes(bytes);
    lemma_same_numbers(bytes);
    if model::headers_fault(bytes) is None {
        lemma_all_sections_fine(bytes, sections);
        lemma_entry_of_bytes(bytes);
        if model::sections_fault(bytes, sections) is Some {
            let index = lemma_first_bad_section(bytes, sections);
            assert(bad_section(bytes, fault, index));
        } else if model::entry_ok(bytes) {
            let index = lemma_first_bad_directory(bytes, directories);
            assert(bad_directory(bytes, fault, index));
        }
    }
}

/// A file whose bytes show no fault is accepted.
pub proof fn faultless_file_is_accepted(data: &[u8], result: Result<(), ImageError>)
    requires
        call_ensures(super::validate_x64_application, (data,), result),
        has_headers(data@),
        has_sections(data@),
        entry_runs(data@),
        forall|k: int| 0 <= k < directory_number(data@) ==> #[trigger] directory_fine(data@, k),
        data@.len() <= usize::MAX,
    ensures
        result is Ok,
{
    let bytes = data@;
    lemma_second_bit(bytes, le32(bytes, 0x3c) + 22);
    lemma_same_numbers(bytes);
    assert(model::headers_ok(bytes));
    laws::fault_free_is_well_formed(bytes);
    assert(model::headers_fault(bytes) is None);
    lemma_all_sections_fine(bytes, model::section_count(bytes) as nat);
    lemma_entry_of_bytes(bytes);
    lemma_all_directories_fine(bytes, model::directory_count(bytes) as nat);
}

/// The sentence for each fault.
pub proof fn faults_have_these_sentences(fault: ImageError, sentence: &'static str)
    requires
        call_ensures(ImageError::message, (&fault,), sentence),
    ensures
        match fault {
            ImageError::OffsetOverflow => sentence@ == "PE offset overflow"@,
            ImageError::Truncated => sentence@ == "truncated PE image"@,
            ImageError::MissingDosSignature => sentence@ == "missing MZ signature"@,
            ImageError::HeaderOverlapsDosHeader => sentence@ == "PE header overlaps DOS header"@,
            ImageError::MissingPeSignature => sentence@ == "missing PE signature"@,
            ImageError::WrongMachine => sentence@ == "EFI image must target x86_64 (AMD64)"@,
            ImageError::NoSections => sentence@ == "PE image contains no sections"@,
            ImageError::NotExecutable => sentence@ == "PE image is not executable"@,
            ImageError::TruncatedOptionalHeader => sentence@ == "truncated PE32+ optional header"@,
            ImageError::NotPe32Plus => sentence@ == "EFI image must use PE32+"@,
            ImageError::WrongSubsystem => sentence@ == "PE subsystem must be EFI application (10)"@,
            ImageError::TruncatedDirectories => sentence@ == "truncated PE data directories"@,
            ImageError::AlignmentNotPowerOfTwo => sentence@ == "invalid PE alignment"@,
            ImageError::SectionAlignmentTooSmall => sentence@
                == "section alignment is smaller than file alignment"@,
            ImageError::FileAlignment => sentence@ == "invalid PE file alignment"@,
            ImageError::ImageSize => sentence@ == "invalid PE SizeOfImage"@,
            ImageError::HeaderSize => sentence@ == "invalid PE SizeOfHeaders"@,
            ImageError::EntryOutsideImage => sentence@ == "entry point is outside image sections"@,
            ImageError::SectionVirtualRange => sentence@
                == "section virtual range is outside the image or misaligned"@,
            ImageError::OverlappingVirtualSections => sentence@ == "overlapping PE virtual sections"@,
            ImageError::SectionRawAlignment => sentence@ == "invalid section raw alignment"@,
            ImageError::TruncatedSectionData => sentence@ == "truncated PE section data"@,
            ImageError::OverlappingRawSections => sentence@ == "overlapping PE raw sections"@,
            ImageError::EntryNotExecutable => sentence@
                == "entry point is not backed by executable section data"@,
            ImageError::NullDirectory => sentence@ == "nonempty PE directory has a null address"@,
            ImageError::CertificateTableRange => sentence@ == "invalid PE certificate table range"@,
            ImageError::DirectoryOutsideSections => sentence@
                == "PE directory is outside section data"@,
        },
{
}

} // verus!
