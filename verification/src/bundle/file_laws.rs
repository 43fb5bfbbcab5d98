//! What a build does to the files on the disk, whatever comes of its actions.
use super::disk;
use super::disk::Disk;
use super::laws;
use super::layout::{BundleError, Directory, Output};
use super::{Action, BundleState, Event};
use vstd::prelude::*;

verus! {

/// The disk from the start of a build to its last event: each event belongs to
/// the change from one disk to the next.
pub open spec fn history(out: Seq<Seq<char>>, events: Seq<Event>, disks: Seq<Disk>) -> bool {
    &&& disks.len() == events.len() + 1
    &&& forall|k: int|
        0 <= k < events.len() ==> disk::may_change(
            out,
            laws::after(#[trigger] events.take(k)),
            disks[k],
            events[k],
            disks[k + 1],
        )
}

/// A history up to some event is one.
proof fn lemma_history_until(
    out: Seq<Seq<char>>,
    events: Seq<Event>,
    disks: Seq<Disk>,
    length: int,
)
    requires
        history(out, events, disks),
        0 <= length <= events.len(),
    ensures
        history(out, events.take(length), disks.take(length + 1)),
        disks.take(length + 1).first() == disks.first(),
        disks.take(length + 1).last() == disks[length],
{
    let earlier = events.take(length);
    let start = disks.take(length + 1);
    assert forall|k: int| 0 <= k < earlier.len() implies disk::may_change(
        out,
        laws::after(#[trigger] earlier.take(k)),
        start[k],
        earlier[k],
        start[k + 1],
    ) by {
        assert(earlier.take(k) =~= events.take(k));
    }
}

/// A build stays at its place, or it moves on by one after a good answer, with
/// the inputs that it has read.
spec fn moved(state: BundleState, event: Event, next: BundleState) -> bool {
    &&& state.at > 2 ==> next.config == state.config && next.image == state.image
    &&& next.at == state.at || {
        &&& next.at == state.at + 1
        &&& state.fault is None
        &&& state.at == 3 || state.at == 4 ==> event is Absent
        &&& 5 <= state.at && state.at != 13 && state.at != 18 ==> event is Done
    }
}

proof fn lemma_moved(state: BundleState, event: Event)
    requires
        0 <= state.at <= super::plan_end(),
    ensures
        moved(state, event, state.next(event)),
{
}

/// The last step of a history.
proof fn lemma_last_step(out: Seq<Seq<char>>, events: Seq<Event>, disks: Seq<Disk>)
    requires
        history(out, events, disks),
        events.len() > 0,
    ensures
        history(out, events.drop_last(), disks.drop_last()),
        disks.drop_last().first() == disks.first(),
        0 <= laws::after(events.drop_last()).at <= super::plan_end(),
        moved(laws::after(events.drop_last()), events.last(), laws::after(events)),
        disk::may_change(
            out,
            laws::after(events.drop_last()),
            disks.drop_last().last(),
            events.last(),
            disks.last(),
        ),
{
    let last = events.len() - 1;
    lemma_history_until(out, events, disks, last);
    assert(events.take(last) =~= events.drop_last());
    assert(disks.take(last + 1) =~= disks.drop_last());
    laws::every_action_before_went_well(events.drop_last());
    lemma_moved(laws::after(events.drop_last()), events.last());
}

/// A build that has come to an action without a fault was at each action before
/// it in its turn.
proof fn lemma_went_through(events: Seq<Event>, length: int)
    requires
        laws::after(events).fault is None,
        !(laws::after(events).pending() is Finish),
        0 <= length <= events.len(),
    ensures
        laws::after(events.take(length)).at == length,
        laws::after(events.take(length)).fault is None,
    decreases events.len(),
{
    laws::every_action_before_went_well(events);
    if length < events.len() {
        let earlier = events.drop_last();
        laws::every_action_before_went_well(earlier);
        lemma_went_through(earlier, length);
        assert(earlier.take(length) =~= events.take(length));
    } else {
        assert(events.take(length) =~= events);
    }
}

/// Whether the action works on the open file.
pub open spec fn uses_file(action: Action, output: Output) -> bool {
    ||| action == Action::WriteAll(output)
    ||| action == Action::Flush(output)
    ||| action == Action::Rewind(output)
    ||| action == Action::ReadBack(output)
}

/// A file is written, flushed or read back only after this build has created
/// it: the creation was asked for and answered as done.
pub proof fn used_file_was_created(events: Seq<Event>, output: Output)
    requires
        uses_file(laws::after(events).pending(), output),
    ensures
        exists|k: int|
            {
                &&& 0 <= k < events.len()
                &&& laws::after(#[trigger] events.take(k)).pending() == Action::CreateNew(output)
                &&& events[k] is Done
            },
{
    laws::every_action_before_went_well(events);
    let place: int = match output {
        Output::Boot => 9,
        Output::Config => 14,
    };
    lemma_went_through(events, place);
    assert(laws::after(events.take(place)).pending() == Action::CreateNew(output));
}

/// Whether the place is that of a directory of the bundle or of one above it.
pub open spec fn on_the_way(out: Seq<Seq<char>>, disk: Disk, place: int) -> bool {
    ||| disk::on_the_way(disk, disk::directory_path(out, Directory::Boot), place)
    ||| disk::on_the_way(disk, disk::directory_path(out, Directory::Acpi), place)
    ||| disk::on_the_way(disk, disk::directory_path(out, Directory::Drivers), place)
    ||| disk::on_the_way(disk, disk::directory_path(out, Directory::Kexts), place)
}

/// Only the files of the bundle, and the directories of the bundle with those
/// above them, are new on the disk.
pub open spec fn only_bundle_is_new(out: Seq<Seq<char>>, before: Disk, after: Disk) -> bool {
    &&& forall|place: int| #[trigger]
        after.files.dom().contains(place) ==> {
            ||| before.files.dom().contains(place)
            ||| after.leads(disk::output_path(out, Output::Boot), place)
            ||| after.leads(disk::output_path(out, Output::Config), place)
        }
    &&& forall|place: int| #[trigger]
        after.directories.contains(place) ==> before.directories.contains(place) || on_the_way(
            out,
            after,
            place,
        )
}

/// Every file, directory and link is still there, each file with its bytes, no
/// link is new, and every path leads where it led.
pub open spec fn all_is_kept(before: Disk, after: Disk) -> bool {
    &&& disk::same_places(before, after)
    &&& forall|place: int| #[trigger]
        before.files.dom().contains(place) ==> after.files.dom().contains(place)
            && after.files[place] == before.files[place]
    &&& forall|place: int| #[trigger]
        before.directories.contains(place) ==> after.directories.contains(place)
    &&& after.links == before.links
}

/// The files that a build has created lie where no file was before it.
spec fn created_is_new(out: Seq<Seq<char>>, at: int, first: Disk, now: Disk) -> bool {
    let boot = disk::output_path(out, Output::Boot);
    let config = disk::output_path(out, Output::Config);
    &&& at > 9 ==> now.has_file(boot) && !first.files.dom().contains(now.places[boot])
    &&& at > 14 ==> now.has_file(config) && !first.files.dom().contains(now.places[config])
}

/// Paths that lead where they led lead over the same directories.
proof fn lemma_way_is_kept(before: Disk, after: Disk, path: Seq<Seq<char>>, place: int)
    requires
        disk::same_places(before, after),
        disk::on_the_way(before, path, place),
    ensures
        disk::on_the_way(after, path, place),
{
    let p = choose|p: Seq<Seq<char>>|
        disk::leads_to(p, path) && #[trigger] before.leads(p, place);
    assert(after.leads(p, place));
}

proof fn lemma_bundle_way_is_kept(
    out: Seq<Seq<char>>,
    before: Disk,
    after: Disk,
    place: int,
)
    requires
        disk::same_places(before, after),
        on_the_way(out, before, place),
    ensures
        on_the_way(out, after, place),
{
    let boot = disk::directory_path(out, Directory::Boot);
    let acpi = disk::directory_path(out, Directory::Acpi);
    let drivers = disk::directory_path(out, Directory::Drivers);
    let kexts = disk::directory_path(out, Directory::Kexts);
    if disk::on_the_way(before, boot, place) {
        lemma_way_is_kept(before, after, boot, place);
    } else if disk::on_the_way(before, acpi, place) {
        lemma_way_is_kept(before, after, acpi, place);
    } else if disk::on_the_way(before, drivers, place) {
        lemma_way_is_kept(before, after, drivers, place);
    } else {
        lemma_way_is_kept(before, after, kexts, place);
    }
}

/// No action changes where a path leads.
proof fn lemma_places_stay(
    out: Seq<Seq<char>>,
    state: BundleState,
    before: Disk,
    event: Event,
    after: Disk,
)
    requires
        disk::may_change(out, state, before, event, after),
    ensures
        disk::same_places(before, after),
{
}

proof fn lemma_created_by_step(
    out: Seq<Seq<char>>,
    first: Disk,
    state: BundleState,
    before: Disk,
    event: Event,
    next: BundleState,
    after: Disk,
)
    requires
        0 <= state.at <= super::plan_end(),
        moved(state, event, next),
        disk::may_change(out, state, before, event, after),
        all_is_kept(first, before),
        created_is_new(out, state.at, first, before),
    ensures
        created_is_new(out, next.at, first, after),
{
    lemma_places_stay(out, state, before, event, after);
    let boot = disk::output_path(out, Output::Boot);
    let config = disk::output_path(out, Output::Config);
    if state.at > 9 {
        assert(after.leads(boot, before.places[boot]));
    }
    if state.at > 14 {
        assert(after.leads(config, before.places[config]));
    }
}

proof fn lemma_kept_by_step(
    out: Seq<Seq<char>>,
    first: Disk,
    state: BundleState,
    before: Disk,
    event: Event,
    next: BundleState,
    after: Disk,
)
    requires
        0 <= state.at <= super::plan_end(),
        moved(state, event, next),
        disk::may_change(out, state, before, event, after),
        all_is_kept(first, before),
        only_bundle_is_new(out, first, before),
        created_is_new(out, state.at, first, before),
    ensures
        all_is_kept(first, after),
        only_bundle_is_new(out, first, after),
        created_is_new(out, next.at, first, after),
{
    lemma_places_stay(out, state, before, event, after);
    assert forall|p: Seq<Seq<char>>, place: int|
        first.leads(p, place) implies #[trigger] after.leads(p, place) by {
        assert(before.leads(p, place));
    }
    assert forall|place: int| #[trigger] after.directories.contains(place) implies {
        ||| first.directories.contains(place)
        ||| on_the_way(out, after, place)
    } by {
        if before.directories.contains(place) && !first.directories.contains(place) {
            lemma_bundle_way_is_kept(out, before, after, place);
        }
    }
    assert forall|place: int| #[trigger] after.files.dom().contains(place) implies {
        ||| first.files.dom().contains(place)
        ||| after.leads(disk::output_path(out, Output::Boot), place)
        ||| after.leads(disk::output_path(out, Output::Config), place)
    } by {
        let boot = disk::output_path(out, Output::Boot);
        let config = disk::output_path(out, Output::Config);
        assert(before.leads(boot, place) ==> after.leads(boot, place));
        assert(before.leads(config, place) ==> after.leads(config, place));
    }
    lemma_created_by_step(out, first, state, before, event, next, after);
}

proof fn lemma_kept(out: Seq<Seq<char>>, events: Seq<Event>, disks: Seq<Disk>)
    requires
        history(out, events, disks),
    ensures
        all_is_kept(disks.first(), disks.last()),
        only_bundle_is_new(out, disks.first(), disks.last()),
        created_is_new(out, laws::after(events).at, disks.first(), disks.last()),
    decreases events.len(),
{
    if events.len() > 0 {
        let earlier = events.drop_last();
        lemma_last_step(out, events, disks);
        lemma_kept(out, earlier, disks.drop_last());
        lemma_kept_by_step(
            out,
            disks.first(),
            laws::after(earlier),
            disks.drop_last().last(),
            events.last(),
            laws::after(events),
            disks.last(),
        );
    }
}

/// Whatever comes of a build, every file that existed before keeps its bytes and
/// its paths, and the inputs are among them; links on the way to the bundle make
/// no difference. Only the two files of the bundle can be new, and only its
/// directories and those above them.
pub proof fn build_keeps_every_file(out: Seq<Seq<char>>, events: Seq<Event>, disks: Seq<Disk>)
    requires
        history(out, events, disks),
    ensures
        all_is_kept(disks.first(), disks.last()),
        only_bundle_is_new(out, disks.first(), disks.last()),
        forall|p: Seq<Seq<char>>| #[trigger]
            disks.first().has_file(p) ==> disks.last().has_file(p) && disks.last().bytes(p)
                == disks.first().bytes(p),
{
    lemma_kept(out, events, disks);
    assert forall|p: Seq<Seq<char>>| #[trigger] disks.first().has_file(p) implies {
        &&& disks.last().has_file(p)
        &&& disks.last().bytes(p) == disks.first().bytes(p)
    } by {
        assert(disks.last().leads(p, disks.first().places[p]));
    }
}

/// The last place of the plan that a build can come to where something stands
/// at the place of one of its files.
spec fn stop(out: Seq<Seq<char>>, first: Disk) -> int {
    if first.holds(disk::output_path(out, Output::Boot)) {
        3
    } else {
        4
    }
}

/// Whether something stands at the place of a file of the bundle.
pub open spec fn destination_taken(out: Seq<Seq<char>>, first: Disk) -> bool {
    first.holds(disk::output_path(out, Output::Boot)) || first.holds(
        disk::output_path(out, Output::Config),
    )
}

proof fn lemma_stopped_by_step(
    out: Seq<Seq<char>>,
    first: Disk,
    state: BundleState,
    event: Event,
    next: BundleState,
    after: Disk,
)
    requires
        destination_taken(out, first),
        0 <= state.at <= stop(out, first),
        moved(state, event, next),
        disk::may_change(out, state, first, event, after),
    ensures
        after == first,
        next.at <= stop(out, first),
{
}

proof fn lemma_stopped(out: Seq<Seq<char>>, events: Seq<Event>, disks: Seq<Disk>)
    requires
        history(out, events, disks),
        destination_taken(out, disks.first()),
    ensures
        disks.last() == disks.first(),
        laws::after(events).at <= stop(out, disks.first()),
    decreases events.len(),
{
    if events.len() > 0 {
        let earlier = events.drop_last();
        lemma_last_step(out, events, disks);
        lemma_stopped(out, earlier, disks.drop_last());
        lemma_stopped_by_step(
            out,
            disks.first(),
            laws::after(earlier),
            events.last(),
            laws::after(events),
            disks.last(),
        );
    }
}

/// Where something stands at the place of a file of the bundle, a build changes
/// nothing on the disk and does not finish, whatever its inputs are.
pub proof fn taken_destination_keeps_the_disk(
    out: Seq<Seq<char>>,
    events: Seq<Event>,
    disks: Seq<Disk>,
)
    requires
        history(out, events, disks),
        destination_taken(out, disks.first()),
    ensures
        disks.last() == disks.first(),
        !(laws::after(events).pending() is Finish),
{
    lemma_stopped(out, events, disks);
    laws::every_action_before_went_well(events);
}

/// What stands on the disk of a build that has come to a place in the plan.
spec fn built_so_far(out: Seq<Seq<char>>, state: BundleState, last: Disk) -> bool {
    let boot = disk::output_path(out, Output::Boot);
    let config = disk::output_path(out, Output::Config);
    &&& state.at > 5 ==> last.has_directory(disk::directory_path(out, Directory::Boot))
    &&& state.at > 6 ==> last.has_directory(disk::directory_path(out, Directory::Acpi))
    &&& state.at > 7 ==> last.has_directory(disk::directory_path(out, Directory::Drivers))
    &&& state.at > 8 ==> last.has_directory(disk::directory_path(out, Directory::Kexts))
    &&& state.at > 9 ==> last.has_file(boot)
    &&& state.at > 10 ==> last.bytes(boot) == state.image
    &&& state.at > 14 ==> last.has_file(config) && last.places[config] != last.places[boot]
    &&& state.at > 15 ==> last.bytes(config) == state.config
}

/// A directory stays one, at its path.
proof fn lemma_directory_stays(
    out: Seq<Seq<char>>,
    state: BundleState,
    before: Disk,
    event: Event,
    after: Disk,
    path: Seq<Seq<char>>,
)
    requires
        disk::may_change(out, state, before, event, after),
        before.has_directory(path),
    ensures
        after.has_directory(path),
{
    lemma_places_stay(out, state, before, event, after);
    assert(after.leads(path, before.places[path]));
}

proof fn lemma_built_by_step(
    out: Seq<Seq<char>>,
    state: BundleState,
    before: Disk,
    event: Event,
    next: BundleState,
    after: Disk,
)
    requires
        0 <= state.at <= super::plan_end(),
        moved(state, event, next),
        disk::may_change(out, state, before, event, after),
        built_so_far(out, state, before),
    ensures
        built_so_far(out, next, after),
{
    lemma_places_stay(out, state, before, event, after);
    let boot = disk::output_path(out, Output::Boot);
    let config = disk::output_path(out, Output::Config);
    if state.at > 9 {
        assert(after.leads(boot, before.places[boot]));
    }
    if state.at > 14 {
        assert(after.leads(config, before.places[config]));
    }
    if state.at > 5 {
        let path = disk::directory_path(out, Directory::Boot);
        lemma_directory_stays(out, state, before, event, after, path);
    }
    if state.at > 6 {
        let path = disk::directory_path(out, Directory::Acpi);
        lemma_directory_stays(out, state, before, event, after, path);
    }
    if state.at > 7 {
        let path = disk::directory_path(out, Directory::Drivers);
        lemma_directory_stays(out, state, before, event, after, path);
    }
    if state.at > 8 {
        let path = disk::directory_path(out, Directory::Kexts);
        lemma_directory_stays(out, state, before, event, after, path);
    }
}

proof fn lemma_built_so_far(out: Seq<Seq<char>>, events: Seq<Event>, disks: Seq<Disk>)
    requires
        history(out, events, disks),
    ensures
        built_so_far(out, laws::after(events), disks.last()),
    decreases events.len(),
{
    if events.len() > 0 {
        let earlier = events.drop_last();
        lemma_last_step(out, events, disks);
        lemma_built_so_far(out, earlier, disks.drop_last());
        lemma_built_by_step(
            out,
            laws::after(earlier),
            disks.drop_last().last(),
            events.last(),
            laws::after(events),
            disks.last(),
        );
    }
}

/// A finished build leaves both files on the disk, each with exactly the bytes
/// of its input, and all directories of the bundle.
pub proof fn finished_bundle_stands_on_the_disk(
    out: Seq<Seq<char>>,
    events: Seq<Event>,
    disks: Seq<Disk>,
)
    requires
        history(out, events, disks),
        laws::after(events).pending() is Finish,
    ensures
        disks.last().has_file(disk::output_path(out, Output::Boot)),
        disks.last().bytes(disk::output_path(out, Output::Boot)) == laws::brought(events[2]),
        disks.last().has_file(disk::output_path(out, Output::Config)),
        disks.last().bytes(disk::output_path(out, Output::Config)) == laws::brought(events[0]),
        forall|directory: Directory|
            disks.last().has_directory(#[trigger] disk::directory_path(out, directory)),
{
    laws::every_action_before_went_well(events);
    lemma_built_so_far(out, events, disks);
    assert forall|directory: Directory|
        disks.last().has_directory(#[trigger] disk::directory_path(out, directory)) by {
        match directory {
            Directory::Boot => {},
            Directory::Acpi => {},
            Directory::Drivers => {},
            Directory::Kexts => {},
        }
    }
}

/// Whether every action that is asked for an effect is done and both copies are
/// read back, whatever their bytes.
pub open spec fn acts(events: Seq<Event>) -> bool {
    &&& forall|k: int| 5 <= k < 19 && k != 13 && k != 18 ==> #[trigger] events[k] is Done
    &&& events[13] is Bytes
    &&& events[18] is Bytes
}

/// Whether the inspections were answered.
pub open spec fn sees(events: Seq<Event>) -> bool {
    &&& events[3] is Present || events[3] is Absent
    &&& events[4] is Present || events[4] is Absent
}

/// Up to the inspections the disk is as it was.
proof fn lemma_untouched(
    out: Seq<Seq<char>>,
    events: Seq<Event>,
    disks: Seq<Disk>,
    length: int,
)
    requires
        history(out, events, disks),
        0 <= length <= events.len(),
        length <= 5,
        laws::went_well(events, length),
    ensures
        disks[length] == disks.first(),
    decreases length,
{
    if length > 0 {
        lemma_untouched(out, events, disks, length - 1);
        laws::good_answers_lead_on(events, length - 1);
        assert(laws::after(events.take(length - 1)).at == length - 1);
    }
}

/// A free destination is seen to be free.
proof fn lemma_seen_free(
    out: Seq<Seq<char>>,
    events: Seq<Event>,
    disks: Seq<Disk>,
    at: int,
)
    requires
        history(out, events, disks),
        !destination_taken(out, disks.first()),
        at == 3 || at == 4,
        at < events.len(),
        laws::went_well(events, at),
        events[at] is Present || events[at] is Absent,
    ensures
        events[at] is Absent,
{
    lemma_untouched(out, events, disks, at);
    laws::good_answers_lead_on(events, at);
    assert(disk::may_change(
        out,
        laws::after(events.take(at)),
        disks[at],
        events[at],
        disks[at + 1],
    ));
}

/// What is read back of a file is what was to be written to it.
proof fn lemma_read_back(
    out: Seq<Seq<char>>,
    events: Seq<Event>,
    disks: Seq<Disk>,
    at: int,
)
    requires
        history(out, events, disks),
        at == 13 || at == 18,
        at < events.len(),
        laws::went_well(events, at),
        events[at] is Bytes,
    ensures
        at == 13 ==> laws::brought(events[13]) == laws::brought(events[2]),
        at == 18 ==> laws::brought(events[18]) == laws::brought(events[0]),
{
    let earlier = events.take(at);
    lemma_history_until(out, events, disks, at);
    lemma_built_so_far(out, earlier, disks.take(at + 1));
    laws::good_answers_lead_on(events, at);
    laws::every_action_before_went_well(earlier);
    assert(earlier[0] == events[0] && earlier[2] == events[2]);
    assert(disk::may_change(out, laws::after(earlier), disks[at], events[at], disks[at + 1]));
}

/// Valid inputs and free destinations are all that a build needs: where the
/// disk answers the inspections, every action is done and the copies can be
/// read, it finishes.
pub proof fn working_disk_gets_the_bundle(
    out: Seq<Seq<char>>,
    events: Seq<Event>,
    disks: Seq<Disk>,
)
    requires
        history(out, events, disks),
        events.len() == 19,
        laws::went_well(events, 3),
        !destination_taken(out, disks.first()),
        sees(events),
        acts(events),
    ensures
        laws::after(events).pending() is Finish,
{
    lemma_seen_free(out, events, disks, 3);
    lemma_seen_free(out, events, disks, 4);
    lemma_read_back(out, events, disks, 13);
    lemma_read_back(out, events, disks, 18);
    laws::good_answers_build_the_bundle(events);
}

/// Whether both inputs were read and found valid, and the place of the EFI
/// application was inspected, with whatever answer.
pub open spec fn inspected(events: Seq<Event>) -> bool {
    events.len() > 3 && laws::went_well(events, 3)
}

/// How a build ends at the inspection of the place of the EFI application, where
/// something stands.
pub open spec fn refusal(event: Event) -> BundleError {
    if event is Present {
        BundleError::DestinationExists(Output::Boot)
    } else {
        BundleError::Uninspectable(Output::Boot)
    }
}

/// Anything but a free place stops a build at the first inspection.
proof fn lemma_inspection_stops(state: BundleState, event: Event)
    requires
        state.at == 3,
        state.fault is None,
        !(event is Absent),
    ensures
        state.next(event).pending() == Action::Abort(refusal(event)),
{
}

proof fn lemma_refused(out: Seq<Seq<char>>, events: Seq<Event>, disks: Seq<Disk>)
    requires
        history(out, events, disks),
        disks.first().holds(disk::output_path(out, Output::Boot)),
        inspected(events),
    ensures
        !(events[3] is Absent),
        laws::after(events).pending() == Action::Abort(refusal(events[3])),
{
    let inputs = events.take(3);
    let seen = events.take(4);
    laws::good_answers_lead_on(events, 3);
    lemma_untouched(out, events, disks, 3);
    assert(!(events[3] is Absent)) by {
        assert(disk::may_change(out, laws::after(inputs), disks[3], events[3], disks[4]));
    }
    assert(seen.drop_last() =~= inputs);
    assert(seen.last() == events[3]);
    lemma_inspection_stops(laws::after(inputs), events[3]);
    laws::ended_build_stays_as_it_is(seen, events.skip(4));
    assert(seen + events.skip(4) =~= events);
}

/// A second build into the directory of a finished bundle leaves the disk as it
/// is and does not finish, whatever its inputs are, the files of the bundle
/// among them. Where its inputs are valid, it is refused because the EFI
/// application is there already, or, where the disk does not answer, because
/// that cannot be seen.
pub proof fn second_build_is_refused(
    out: Seq<Seq<char>>,
    first: Seq<Event>,
    first_disks: Seq<Disk>,
    second: Seq<Event>,
    second_disks: Seq<Disk>,
    path: Seq<char>,
)
    requires
        history(out, first, first_disks),
        laws::after(first).pending() is Finish,
        history(out, second, second_disks),
        second_disks.first() == first_disks.last(),
    ensures
        second_disks.last() == first_disks.last(),
        !(laws::after(second).pending() is Finish),
        inspected(second) ==> {
            &&& !(second[3] is Absent)
            &&& laws::after(second).pending() == Action::Abort(refusal(second[3]))
            &&& refusal(second[3]).text(path) == Some(
                if second[3] is Present {
                    "destination already exists; refusing to overwrite "@ + path
                } else {
                    "failed to inspect "@ + path
                },
            )
        },
{
    assert(first_disks.last().holds(disk::output_path(out, Output::Boot))) by {
        finished_bundle_stands_on_the_disk(out, first, first_disks);
    }
    taken_destination_keeps_the_disk(out, second, second_disks);
    if inspected(second) {
        lemma_refused(out, second, second_disks);
    }
}

} // verus!
