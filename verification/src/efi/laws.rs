//! What acceptance of an image means, and what it does not depend on.
use super::model;
use vstd::prelude::*;

verus! {

proof fn lemma_sections_fault(data: Seq<u8>, count: nat)
    ensures
        model::sections_fault(data, count) is None <==> forall|i: int|
            0 <= i < count ==> #[trigger] model::section_fault(data, i) is None,
    decreases count,
{
    if count > 0 {
        lemma_sections_fault(data, (count - 1) as nat);
    }
}

proof fn lemma_directories_fault(data: Seq<u8>, count: nat)
    ensures
        model::directories_fault(data, count) is None <==> forall|i: int|
            0 <= i < count ==> #[trigger] model::directory_fault(data, i) is None,
    decreases count,
{
    if count > 0 {
        lemma_directories_fault(data, (count - 1) as nat);
    }
}

/// A fault of the first sections is the fault of all.
pub(super) proof fn lemma_first_section_fault(data: Seq<u8>, some: nat, all: nat)
    requires
        some <= all,
        model::sections_fault(data, some) is Some,
    ensures
        model::sections_fault(data, all) == model::sections_fault(data, some),
    decreases all,
{
    if some < all {
        lemma_first_section_fault(data, some, (all - 1) as nat);
    }
}

/// A fault of the first directories is the fault of all.
pub(super) proof fn lemma_first_directory_fault(data: Seq<u8>, some: nat, all: nat)
    requires
        some <= all,
        model::directories_fault(data, some) is Some,
    ensures
        model::directories_fault(data, all) == model::directories_fault(data, some),
    decreases all,
{
    if some < all {
        lemma_first_directory_fault(data, some, (all - 1) as nat);
    }
}

/// An image has no fault exactly if it is well formed.
pub proof fn fault_free_is_well_formed(data: Seq<u8>)
    ensures
        model::image_fault(data) is None <==> model::well_formed(data),
{
    let count = model::section_count(data);
    lemma_sections_fault(data, count as nat);
    lemma_directories_fault(data, model::directory_count(data) as nat);
    assert(model::headers_fault(data) is None <==> model::headers_ok(data));
    if model::sections_ok(data) {
        assert forall|i: int| 0 <= i < count implies #[trigger] model::section_fault(
            data,
            i,
        ) is None by {
            assert(model::section_ok(data, i));
        }
    }
    if forall|i: int| 0 <= i < count ==> #[trigger] model::section_fault(data, i) is None {
        assert forall|i: int| 0 <= i < count implies #[trigger] model::section_ok(data, i) by {
            assert(model::section_fault(data, i) is None);
        }
        assert forall|i: int, j: int|
            #![trigger model::section(data, i), model::section(data, j)]
            0 <= j < i < count implies {
            &&& !model::section(data, i).meets_in_memory(model::section(data, j))
            &&& !model::section(data, i).meets_in_file(model::section(data, j))
        } by {
            assert(model::section_fault(data, i) is None);
        }
    }
    assert forall|i: int| 0 <= i < model::directory_count(data) implies (
    #[trigger] model::directory_fault(data, i) is None <==> model::directory_ok(data, i)) by {}
    if model::well_formed(data) {
        assert forall|i: int| 0 <= i < model::directory_count(data) implies
            #[trigger] model::directory_fault(data, i) is None by {
            assert(model::directory_ok(data, i));
        }
    }
    if model::directories_fault(data, model::directory_count(data) as nat) is None {
        assert forall|i: int| 0 <= i < model::directory_count(data) implies
            #[trigger] model::directory_ok(data, i) by {
            assert(model::directory_fault(data, i) is None);
        }
    }
}

/// Two files start with the same bytes.
pub open spec fn same_start(a: Seq<u8>, b: Seq<u8>, length: int) -> bool {
    &&& length <= a.len()
    &&& length <= b.len()
    &&& forall|i: int| 0 <= i < length ==> a[i] == b[i]
}

/// A file of `length` bytes that starts like the image holds its headers, the
/// file data of its sections and its certificate table.
pub open spec fn reaches(data: Seq<u8>, length: int) -> bool {
    &&& model::header_size(data) <= length
    &&& forall|i: int|
        0 <= i < model::section_count(data) && model::section(data, i).raw_size > 0 ==> (
        #[trigger] model::section(data, i)).raw_end() <= length
    &&& model::certificate_index() < model::directory_count(data) && model::directory_size(
        data,
        model::certificate_index(),
    ) > 0 ==> model::directory_end(data, model::certificate_index()) <= length
}

/// A file that starts with the header bytes of an image has the same header
/// fields, sections and directories.
proof fn lemma_same_fields(data: Seq<u8>, other: Seq<u8>)
    requires
        model::headers_ok(data),
        same_start(data, other, model::table_end(data)),
    ensures
        model::pe_offset(other) == model::pe_offset(data),
        model::section_count(other) == model::section_count(data),
        model::optional_size(other) == model::optional_size(data),
        model::entry_point(other) == model::entry_point(data),
        model::section_alignment(other) == model::section_alignment(data),
        model::file_alignment(other) == model::file_alignment(data),
        model::image_size(other) == model::image_size(data),
        model::header_size(other) == model::header_size(data),
        model::directory_count(other) == model::directory_count(data),
        forall|i: int|
            #![trigger model::section(other, i)]
            #![trigger model::section(data, i)]
            0 <= i < model::section_count(data) ==> model::section(other, i) == model::section(
                data,
                i,
            ),
        forall|i: int|
            #![trigger model::directory_start(other, i)]
            0 <= i < model::directory_count(data) ==> model::directory_start(other, i)
                == model::directory_start(data, i),
        forall|i: int|
            #![trigger model::directory_size(other, i)]
            0 <= i < model::directory_count(data) ==> model::directory_size(other, i)
                == model::directory_size(data, i),
{
    assert(model::pe_offset(other) == model::pe_offset(data));
}

/// The headers of a file that starts like an image and is long enough for the
/// headers are fine too.
proof fn lemma_same_headers(data: Seq<u8>, other: Seq<u8>)
    requires
        model::headers_ok(data),
        same_start(data, other, model::header_size(data)),
    ensures
        model::headers_ok(other),
{
    lemma_same_fields(data, other);
}

/// Acceptance depends on the bytes of the headers and on the length of the file
/// alone: a file that starts with the header bytes of an accepted image, and is
/// long enough for what the headers describe, is accepted.
pub proof fn acceptance_depends_on_headers_and_length(data: Seq<u8>, other: Seq<u8>)
    requires
        model::well_formed(data),
        same_start(data, other, model::header_size(data)),
        reaches(data, other.len() as int),
    ensures
        model::well_formed(other),
{
    lemma_same_fields(data, other);
    lemma_same_headers(data, other);
    assert forall|i: int| 0 <= i < model::section_count(other) implies #[trigger] model::section_ok(
        other,
        i,
    ) by {
        assert(model::section_ok(data, i));
        assert(model::section(other, i) == model::section(data, i));
    }
    assert(model::sections_ok(other));
    let runner = choose|i: int|
        0 <= i < model::section_count(data) && (#[trigger] model::section(data, i)).runs(
            model::entry_point(data),
        );
    assert(model::section(other, runner).runs(model::entry_point(other)));
    assert forall|i: int| 0 <= i < model::directory_count(other) implies
        #[trigger] model::directory_ok(other, i) by {
        assert(model::directory_ok(data, i));
        let start = model::directory_start(data, i);
        let end = model::directory_end(data, i);
        assert(model::directory_start(other, i) == start);
        assert(model::directory_size(other, i) == model::directory_size(data, i));
        if model::directory_size(data, i) != 0 && i != model::certificate_index() {
            let holder = choose|j: int|
                0 <= j < model::section_count(data) && (#[trigger] model::section(data, j)).backs(
                    start,
                    end,
                );
            assert(model::section(other, holder).backs(start, end));
        }
    }
}

/// What an accepted image needs of the file lies in the file.
pub proof fn accepted_image_is_complete(data: Seq<u8>)
    requires
        model::well_formed(data),
    ensures
        reaches(data, data.len() as int),
{
    assert forall|i: int|
        0 <= i < model::section_count(data) && model::section(data, i).raw_size > 0 implies (
    #[trigger] model::section(data, i)).raw_end() <= data.len() by {
        assert(model::section_ok(data, i));
    }
    if model::certificate_index() < model::directory_count(data) {
        assert(model::directory_ok(data, model::certificate_index()));
    }
}

/// Bytes behind an accepted image do not matter.
pub proof fn appended_bytes_keep_acceptance(data: Seq<u8>, tail: Seq<u8>)
    requires
        model::well_formed(data),
    ensures
        model::well_formed(data + tail),
{
    accepted_image_is_complete(data);
    acceptance_depends_on_headers_and_length(data, data + tail);
}

/// A prefix of an accepted image is accepted exactly if it still holds the
/// headers, the file data of every section and the certificate table. Every
/// prefix that cuts into one of them is rejected.
pub proof fn truncated_image_is_rejected(data: Seq<u8>, length: int)
    requires
        model::well_formed(data),
        0 <= length <= data.len(),
    ensures
        model::well_formed(data.take(length)) <==> reaches(data, length),
{
    let prefix = data.take(length);
    if reaches(data, length) {
        acceptance_depends_on_headers_and_length(data, prefix);
    }
    if model::well_formed(prefix) {
        accepted_image_is_complete(prefix);
        lemma_same_fields(prefix, data);
        assert forall|i: int|
            0 <= i < model::section_count(data) && model::section(data, i).raw_size > 0 implies (
        #[trigger] model::section(data, i)).raw_end() <= length by {
            assert(model::section(data, i) == model::section(prefix, i));
        }
        if model::certificate_index() < model::directory_count(data) {
            let i = model::certificate_index();
            assert(model::directory_size(data, i) == model::directory_size(prefix, i));
            assert(model::directory_start(data, i) == model::directory_start(prefix, i));
        }
    }
}

/// What the sections hold does not matter: an image of the same length with the
/// same headers is accepted as well.
pub proof fn section_contents_do_not_matter(data: Seq<u8>, other: Seq<u8>)
    requires
        model::well_formed(data),
        data.len() == other.len(),
        same_start(data, other, model::header_size(data)),
    ensures
        model::well_formed(other),
{
    accepted_image_is_complete(data);
    acceptance_depends_on_headers_and_length(data, other);
}

/// No two sections of an accepted image take the same address or the same byte
/// of the file, and none reaches into the headers.
pub proof fn sections_are_apart(data: Seq<u8>, i: int, j: int, address: int, offset: int)
    requires
        model::well_formed(data),
        0 <= i < model::section_count(data),
        0 <= j < model::section_count(data),
        i != j,
    ensures
        ({
            let a = model::section(data, i);
            let b = model::section(data, j);
            &&& a.virtual_start <= address < a.virtual_end() ==> {
                &&& model::header_size(data) <= address < model::image_size(data)
                &&& !(b.virtual_start <= address < b.virtual_end())
            }
            &&& a.raw_start <= offset < a.raw_end() ==> {
                &&& model::header_size(data) <= offset < data.len()
                &&& !(b.raw_start <= offset < b.raw_end())
            }
        }),
{
    assert(model::section_ok(data, i));
    assert(model::section_ok(data, j));
    let a = model::section(data, i);
    let b = model::section(data, j);
    if i < j {
        assert(!b.meets_in_memory(a) && !b.meets_in_file(a));
    } else {
        assert(!a.meets_in_memory(b) && !a.meets_in_file(b));
    }
}

/// The entry point of an accepted image lies in exactly one section, and that
/// section is executable.
pub proof fn entry_lies_in_one_section(data: Seq<u8>) -> (index: int)
    requires
        model::well_formed(data),
    ensures
        0 <= index < model::section_count(data),
        model::section(data, index).runs(model::entry_point(data)),
        forall|i: int|
            0 <= i < model::section_count(data) && (#[trigger] model::section(
                data,
                i,
            )).virtual_start <= model::entry_point(data) < model::section(data, i).virtual_end()
                ==> i == index,
{
    let entry = model::entry_point(data);
    let index = choose|i: int|
        0 <= i < model::section_count(data) && (#[trigger] model::section(data, i)).runs(entry);
    assert forall|i: int|
        0 <= i < model::section_count(data) && (#[trigger] model::section(data, i)).virtual_start
            <= entry < model::section(data, i).virtual_end() implies i == index by {
        if i != index {
            sections_are_apart(data, i, index, entry, 0);
        }
    }
    index
}

/// Addresses that a section's file data holds stand in the file, behind the
/// headers: the section says at which offset.
pub proof fn backed_addresses_are_in_the_file(data: Seq<u8>, index: int, start: int, end: int)
    requires
        model::well_formed(data),
        0 <= index < model::section_count(data),
        model::section(data, index).backs(start, end),
    ensures
        ({
            let part = model::section(data, index);
            let shift = part.raw_start - part.virtual_start;
            model::header_size(data) <= start + shift && end + shift <= data.len()
        }),
{
    assert(model::section_ok(data, index));
}

/// Every directory of an accepted image that is not empty has all its bytes in
/// the file: from its offset on, where it is the certificate table, and else
/// where a section puts its address.
pub proof fn directories_are_in_the_file(data: Seq<u8>, index: int) -> (offset: int)
    requires
        model::well_formed(data),
        0 <= index < model::directory_count(data),
        model::directory_size(data, index) > 0,
    ensures
        offset + model::directory_size(data, index) <= data.len(),
        if index == model::certificate_index() {
            offset == model::directory_start(data, index)
        } else {
            exists|i: int|
                {
                    &&& 0 <= i < model::section_count(data)
                    &&& (#[trigger] model::section(data, i)).backs(
                        model::directory_start(data, index),
                        model::directory_end(data, index),
                    )
                    &&& offset == model::directory_start(data, index) + model::section(
                        data,
                        i,
                    ).raw_start - model::section(data, i).virtual_start
                }
        },
{
    let start = model::directory_start(data, index);
    let end = model::directory_end(data, index);
    assert(model::directory_ok(data, index));
    if index == model::certificate_index() {
        start
    } else {
        let holder = choose|i: int|
            0 <= i < model::section_count(data) && (#[trigger] model::section(data, i)).backs(
                start,
                end,
            );
        backed_addresses_are_in_the_file(data, holder, start, end);
        let part = model::section(data, holder);
        start + part.raw_start - part.virtual_start
    }
}

/// Whether two ranges collide does not depend on their order.
pub proof fn collision_is_symmetric(a_start: int, a_end: int, b_start: int, b_end: int)
    ensures
        model::ranges_meet(a_start, a_end, b_start, b_end) == model::ranges_meet(
            b_start,
            b_end,
            a_start,
            a_end,
        ),
{
}

/// Two ranges that are not empty collide exactly if they share a point.
pub proof fn collision_is_a_shared_point(a_start: int, a_end: int, b_start: int, b_end: int)
    requires
        a_start < a_end,
        b_start < b_end,
    ensures
        model::ranges_meet(a_start, a_end, b_start, b_end) <==> exists|point: int|
            a_start <= point < a_end && #[trigger] holds(b_start, b_end, point),
{
    if model::ranges_meet(a_start, a_end, b_start, b_end) {
        let point = if a_start >= b_start {
            a_start
        } else {
            b_start
        };
        assert(holds(b_start, b_end, point));
    }
}

/// The range `start..end` holds the point.
pub open spec fn holds(start: int, end: int, point: int) -> bool {
    start <= point < end
}

} // verus!
