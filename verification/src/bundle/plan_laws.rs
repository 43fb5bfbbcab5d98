//! A build as whoever carries it out sees it: what is asked for, in which order,
//! and what each answer leads to.
use super::laws;
use super::layout::{BundleError, Directory, Output};
use super::{Action, BundleBuild, BundleState, Event};
use crate::efi;
use crate::efi::ImageError;
use vstd::prelude::*;

verus! {

/// A build from its start on, with what came of each action.
pub open spec fn is_run(builds: Seq<BundleBuild>, events: Seq<Event>) -> bool {
    &&& builds.len() == events.len() + 1
    &&& call_ensures(BundleBuild::new, (), builds[0])
    &&& forall|k: int|
        0 <= k < events.len() ==> call_ensures(
            BundleBuild::step,
            (builds[k], #[trigger] events[k]),
            builds[k + 1],
        )
}

/// Each build of a run is where its events have led it.
pub proof fn run_follows_its_events(builds: Seq<BundleBuild>, events: Seq<Event>, k: int)
    requires
        is_run(builds, events),
        0 <= k <= events.len(),
    ensures
        builds[k]@ == laws::after(events.take(k)),
    decreases k,
{
    if k > 0 {
        run_follows_its_events(builds, events, k - 1);
        assert(events.take(k).drop_last() =~= events.take(k - 1));
        assert(events.take(k).last() == events[k - 1]);
    } else {
        assert(events.take(0) =~= Seq::<Event>::empty());
    }
}

/// What is asked for, one action after the other, as long as all goes well: both
/// inputs, whether the destinations are free, the directories, and then each
/// file, which is created, written, flushed and read back from its start.
pub proof fn build_asks_in_this_order(
    builds: Seq<BundleBuild>,
    events: Seq<Event>,
    k: int,
    action: Action,
)
    requires
        is_run(builds, events),
        0 <= k <= events.len(),
        k <= 19,
        laws::went_well(events, k),
        call_ensures(BundleBuild::pending, (&builds[k],), action),
    ensures
        k == 0 ==> action == Action::ReadConfig,
        k == 1 ==> action == Action::CheckConfig,
        k == 2 ==> action == Action::ReadImage,
        k == 3 ==> action == Action::Inspect(Output::Boot),
        k == 4 ==> action == Action::Inspect(Output::Config),
        k == 5 ==> action == Action::CreateDirectory(Directory::Boot),
        k == 6 ==> action == Action::CreateDirectory(Directory::Acpi),
        k == 7 ==> action == Action::CreateDirectory(Directory::Drivers),
        k == 8 ==> action == Action::CreateDirectory(Directory::Kexts),
        k == 9 ==> action == Action::CreateNew(Output::Boot),
        k == 10 ==> action == Action::WriteAll(Output::Boot),
        k == 11 ==> action == Action::Flush(Output::Boot),
        k == 12 ==> action == Action::Rewind(Output::Boot),
        k == 13 ==> action == Action::ReadBack(Output::Boot),
        k == 14 ==> action == Action::CreateNew(Output::Config),
        k == 15 ==> action == Action::WriteAll(Output::Config),
        k == 16 ==> action == Action::Flush(Output::Config),
        k == 17 ==> action == Action::Rewind(Output::Config),
        k == 18 ==> action == Action::ReadBack(Output::Config),
        k == 19 ==> action == Action::Finish,
{
    run_follows_its_events(builds, events, k);
    laws::good_answers_lead_on(events, k);
}

/// The bytes that are asked to be written are those of the input, from when it
/// was read.
pub proof fn contents_are_the_input(
    builds: Seq<BundleBuild>,
    events: Seq<Event>,
    k: int,
    image: &[u8],
    config: &[u8],
)
    requires
        is_run(builds, events),
        0 <= k <= events.len(),
        k <= 19,
        laws::went_well(events, k),
        call_ensures(BundleBuild::contents, (&builds[k], Output::Boot), image),
        call_ensures(BundleBuild::contents, (&builds[k], Output::Config), config),
    ensures
        k > 0 ==> (events[0] matches Event::Bytes(data) && config@ == data@),
        k > 2 ==> (events[2] matches Event::Bytes(data) && image@ == data@),
{
    run_follows_its_events(builds, events, k);
    laws::good_answers_lead_on(events, k);
    laws::every_action_before_went_well(events.take(k));
    if k > 0 {
        assert(events.take(k)[0] == events[0]);
    }
    if k > 2 {
        assert(events.take(k)[2] == events[2]);
    }
}

/// The action that follows an answer to the action at place `k`, all before it
/// having gone well.
proof fn lemma_after_answer(
    builds: Seq<BundleBuild>,
    events: Seq<Event>,
    k: int,
    action: Action,
)
    requires
        is_run(builds, events),
        0 <= k < events.len(),
        k < 19,
        laws::went_well(events, k),
        call_ensures(BundleBuild::pending, (&builds[k + 1],), action),
    ensures
        laws::after(events.take(k)).at == k,
        laws::after(events.take(k)).fault is None,
        action == laws::after(events.take(k)).next(events[k]).pending(),
{
    run_follows_its_events(builds, events, k);
    run_follows_its_events(builds, events, k + 1);
    laws::good_answers_lead_on(events, k);
    assert(events.take(k + 1).drop_last() =~= events.take(k));
    assert(events.take(k + 1).last() == events[k]);
}

proof fn lemma_bad_input(state: BundleState, event: Event)
    requires
        state.fault is None,
        0 <= state.at < 5,
    ensures
        state.at == 0 && !(event is Bytes) ==> state.next(event).pending() == Action::Abort(BundleError::ConfigUnreadable),
        state.at == 1 && event is ConfigInvalid ==> state.next(event).pending() == Action::Abort(
            BundleError::ConfigInvalid,
        ),
        state.at == 1 && !(event is ConfigInvalid) && !(event is Done) ==> state.next(event).pending()
            == Action::Abort(BundleError::ConfigUnparsable),
        state.at == 2 && !(event is Bytes) ==> state.next(event).pending() == Action::Abort(BundleError::ImageUnreadable),
        state.at == 3 && event is Present ==> state.next(event).pending() == Action::Abort(
            BundleError::DestinationExists(Output::Boot),
        ),
        state.at == 3 && !(event is Present) && !(event is Absent) ==> state.next(event).pending() == Action::Abort(
            BundleError::Uninspectable(Output::Boot),
        ),
        state.at == 4 && event is Present ==> state.next(event).pending() == Action::Abort(
            BundleError::DestinationExists(Output::Config),
        ),
        state.at == 4 && !(event is Present) && !(event is Absent) ==> state.next(event).pending() == Action::Abort(
            BundleError::Uninspectable(Output::Config),
        ),
{
}

proof fn lemma_failed_action(state: BundleState, event: Event)
    requires
        state.fault is None,
        5 <= state.at < 19,
        state.at != 13,
        state.at != 18,
        !(event is Done),
    ensures
        state.at == 5 ==> state.next(event).pending() == Action::Abort(BundleError::DirectoryNotCreated(Directory::Boot)),
        state.at == 6 ==> state.next(event).pending() == Action::Abort(BundleError::DirectoryNotCreated(Directory::Acpi)),
        state.at == 7 ==> state.next(event).pending() == Action::Abort(BundleError::DirectoryNotCreated(Directory::Drivers)),
        state.at == 8 ==> state.next(event).pending() == Action::Abort(BundleError::DirectoryNotCreated(Directory::Kexts)),
        state.at == 9 ==> state.next(event).pending() == Action::Abort(BundleError::NotCreated(Output::Boot)),
        state.at == 10 ==> state.next(event).pending() == Action::Abort(BundleError::NotWritten(Output::Boot)),
        state.at == 11 ==> state.next(event).pending() == Action::Abort(BundleError::NotFlushed(Output::Boot)),
        state.at == 12 ==> state.next(event).pending() == Action::Abort(BundleError::NotRewound(Output::Boot)),
        state.at == 14 ==> state.next(event).pending() == Action::Abort(BundleError::NotCreated(Output::Config)),
        state.at == 15 ==> state.next(event).pending() == Action::Abort(BundleError::NotWritten(Output::Config)),
        state.at == 16 ==> state.next(event).pending() == Action::Abort(BundleError::NotFlushed(Output::Config)),
        state.at == 17 ==> state.next(event).pending() == Action::Abort(BundleError::NotRewound(Output::Config)),
{
}

/// What stops a build before anything is created, and with which error.
pub proof fn bad_input_stops_the_build(
    builds: Seq<BundleBuild>,
    events: Seq<Event>,
    k: int,
    action: Action,
)
    requires
        is_run(builds, events),
        0 <= k < events.len(),
        k < 5,
        laws::went_well(events, k),
        call_ensures(BundleBuild::pending, (&builds[k + 1],), action),
    ensures
        k == 0 && !(events[0] is Bytes) ==> action == Action::Abort(BundleError::ConfigUnreadable),
        k == 1 && events[1] is ConfigInvalid ==> action == Action::Abort(
            BundleError::ConfigInvalid,
        ),
        k == 1 && !(events[1] is ConfigInvalid) && !(events[1] is Done) ==> action
            == Action::Abort(BundleError::ConfigUnparsable),
        k == 2 && !(events[2] is Bytes) ==> action == Action::Abort(BundleError::ImageUnreadable),
        k == 3 && events[3] is Present ==> action == Action::Abort(
            BundleError::DestinationExists(Output::Boot),
        ),
        k == 3 && !(events[3] is Present) && !(events[3] is Absent) ==> action == Action::Abort(
            BundleError::Uninspectable(Output::Boot),
        ),
        k == 4 && events[4] is Present ==> action == Action::Abort(
            BundleError::DestinationExists(Output::Config),
        ),
        k == 4 && !(events[4] is Present) && !(events[4] is Absent) ==> action == Action::Abort(
            BundleError::Uninspectable(Output::Config),
        ),
{
    lemma_after_answer(builds, events, k, action);
    lemma_bad_input(laws::after(events.take(k)), events[k]);
}

/// An image that is turned down stops a build with the fault of the image.
pub proof fn bad_image_stops_the_build(
    builds: Seq<BundleBuild>,
    events: Seq<Event>,
    action: Action,
    image: &[u8],
    fault: ImageError,
)
    requires
        is_run(builds, events),
        events.len() > 2,
        laws::went_well(events, 2),
        events[2] matches Event::Bytes(data) && data@ == image@,
        call_ensures(efi::validate_x64_application, (image,), Err::<(), ImageError>(fault)),
        call_ensures(BundleBuild::pending, (&builds[3],), action),
    ensures
        action == Action::Abort(BundleError::ImageInvalid(fault)),
{
    lemma_after_answer(builds, events, 2, action);
}

/// What stops a build once it creates directories and files, and with which
/// error.
pub proof fn failed_action_stops_the_build(
    builds: Seq<BundleBuild>,
    events: Seq<Event>,
    k: int,
    action: Action,
)
    requires
        is_run(builds, events),
        0 <= k < events.len(),
        5 <= k < 19,
        k != 13,
        k != 18,
        laws::went_well(events, k),
        !(events[k] is Done),
        call_ensures(BundleBuild::pending, (&builds[k + 1],), action),
    ensures
        k == 5 ==> action == Action::Abort(BundleError::DirectoryNotCreated(Directory::Boot)),
        k == 6 ==> action == Action::Abort(BundleError::DirectoryNotCreated(Directory::Acpi)),
        k == 7 ==> action == Action::Abort(BundleError::DirectoryNotCreated(Directory::Drivers)),
        k == 8 ==> action == Action::Abort(BundleError::DirectoryNotCreated(Directory::Kexts)),
        k == 9 ==> action == Action::Abort(BundleError::NotCreated(Output::Boot)),
        k == 10 ==> action == Action::Abort(BundleError::NotWritten(Output::Boot)),
        k == 11 ==> action == Action::Abort(BundleError::NotFlushed(Output::Boot)),
        k == 12 ==> action == Action::Abort(BundleError::NotRewound(Output::Boot)),
        k == 14 ==> action == Action::Abort(BundleError::NotCreated(Output::Config)),
        k == 15 ==> action == Action::Abort(BundleError::NotWritten(Output::Config)),
        k == 16 ==> action == Action::Abort(BundleError::NotFlushed(Output::Config)),
        k == 17 ==> action == Action::Abort(BundleError::NotRewound(Output::Config)),
{
    lemma_after_answer(builds, events, k, action);
    lemma_failed_action(laws::after(events.take(k)), events[k]);
}

proof fn lemma_bad_copy(state: BundleState, event: Event)
    requires
        state.fault is None,
    ensures
        state.at == 13 && !(event is Bytes) ==> state.next(event).pending() == Action::Abort(
            BundleError::NotReadBack(Output::Boot),
        ),
        state.at == 18 && !(event is Bytes) ==> state.next(event).pending() == Action::Abort(
            BundleError::NotReadBack(Output::Config),
        ),
        state.at == 13 && event is Bytes && laws::brought(event) != state.image ==> state.next(
            event,
        ).pending() == Action::Abort(BundleError::CopyDiffers(Output::Boot)),
        state.at == 18 && event is Bytes && laws::brought(event) != state.config ==> state.next(
            event,
        ).pending() == Action::Abort(BundleError::CopyDiffers(Output::Config)),
{
}

/// A copy that cannot be read back, or reads back as other bytes than those of
/// its input, stops a build.
pub proof fn bad_copy_stops_the_build(
    builds: Seq<BundleBuild>,
    events: Seq<Event>,
    k: int,
    action: Action,
)
    requires
        is_run(builds, events),
        0 <= k < events.len(),
        k == 13 || k == 18,
        laws::went_well(events, k),
        call_ensures(BundleBuild::pending, (&builds[k + 1],), action),
    ensures
        k == 13 && !(events[13] is Bytes) ==> action == Action::Abort(
            BundleError::NotReadBack(Output::Boot),
        ),
        k == 18 && !(events[18] is Bytes) ==> action == Action::Abort(
            BundleError::NotReadBack(Output::Config),
        ),
        k == 13 ==> (events[13] matches Event::Bytes(copy) ==> (events[2] matches Event::Bytes(
            data,
        ) ==> copy@ != data@ ==> action == Action::Abort(BundleError::CopyDiffers(Output::Boot)))),
        k == 18 ==> (events[18] matches Event::Bytes(copy) ==> (events[0] matches Event::Bytes(
            data,
        ) ==> copy@ != data@ ==> action == Action::Abort(
            BundleError::CopyDiffers(Output::Config),
        ))),
{
    lemma_after_answer(builds, events, k, action);
    lemma_bad_copy(laws::after(events.take(k)), events[k]);
    laws::every_action_before_went_well(events.take(k));
    assert(events.take(k)[0] == events[0]);
    assert(events.take(k)[2] == events[2]);
}

/// A build that has ended asks for nothing more, whatever is answered.
pub proof fn ended_run_stays_ended(
    build: BundleBuild,
    event: Event,
    next: BundleBuild,
    before: Action,
    after: Action,
)
    requires
        call_ensures(BundleBuild::pending, (&build,), before),
        before is Finish || before is Abort,
        call_ensures(BundleBuild::step, (build, event), next),
        call_ensures(BundleBuild::pending, (&next,), after),
    ensures
        after == before,
{
}

/// Where the files of a bundle stand.
pub proof fn files_stand_here(output: Output, path: &'static str)
    requires
        call_ensures(Output::path, (&output,), path),
    ensures
        output == Output::Boot ==> path@ == "EFI/BOOT/BOOTX64.EFI"@,
        output == Output::Config ==> path@ == "EFI/OC/config.plist"@,
{
}

/// Where the directories of a bundle stand.
pub proof fn directories_stand_here(directory: Directory, path: &'static str)
    requires
        call_ensures(Directory::path, (&directory,), path),
    ensures
        directory == Directory::Boot ==> path@ == "EFI/BOOT"@,
        directory == Directory::Acpi ==> path@ == "EFI/OC/ACPI"@,
        directory == Directory::Drivers ==> path@ == "EFI/OC/Drivers"@,
        directory == Directory::Kexts ==> path@ == "EFI/OC/Kexts"@,
{
}

/// What is said of each error, with the path that it is about.
pub proof fn errors_are_said_like_this(error: BundleError, path: &str, said: Option<String>)
    requires
        call_ensures(BundleError::message, (&error, path), said),
    ensures
        match error {
            BundleError::ConfigUnreadable => said matches Some(words) && words@
                == "failed to read config "@ + path@,
            BundleError::ConfigUnparsable => said matches Some(words) && words@
                == "failed to parse "@ + path@,
            BundleError::ConfigInvalid => said matches Some(words) && words@
                == "config.plist validation failed"@,
            BundleError::ImageUnreadable => said matches Some(words) && words@
                == "failed to read EFI image "@ + path@,
            BundleError::ImageInvalid(_) => said matches Some(words) && words@
                == "invalid EFI image "@ + path@,
            BundleError::DestinationExists(_) => said matches Some(words) && words@
                == "destination already exists; refusing to overwrite "@ + path@,
            BundleError::Uninspectable(_) => said matches Some(words) && words@
                == "failed to inspect "@ + path@,
            BundleError::DirectoryNotCreated(_) => said matches Some(words) && words@
                == "failed to create "@ + path@,
            BundleError::NotCreated(_) => said matches Some(words) && words@
                == "failed to create new output "@ + path@,
            BundleError::NotWritten(_) => said matches Some(words) && words@ == "failed to write "@
                + path@,
            BundleError::NotFlushed(_) => said matches Some(words) && words@ == "failed to flush "@
                + path@,
            BundleError::NotRewound(_) => said is None,
            BundleError::NotReadBack(_) => said is None,
            BundleError::CopyDiffers(_) => said matches Some(words) && words@
                == "copy verification failed for "@ + path@,
        },
{
}

} // verus!
