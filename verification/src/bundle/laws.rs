//! What holds of every build, whatever comes of its actions.
use super::{Action, BundleState, Event, Output};
use crate::efi;
use vstd::prelude::*;

verus! {

/// The build after a sequence of events.
pub open spec fn after(events: Seq<Event>) -> BundleState
    decreases events.len(),
{
    if events.len() == 0 {
        BundleState::start()
    } else {
        after(events.drop_last()).next(events.last())
    }
}

/// Whether the action changes what is on the disk.
pub open spec fn changes_disk(action: Action) -> bool {
    match action {
        Action::CreateDirectory(_)
        | Action::CreateNew(_)
        | Action::WriteAll(_)
        | Action::Flush(_) => true,
        _ => false,
    }
}

/// The bytes that an event brought.
pub open spec fn brought(event: Event) -> Seq<u8> {
    event->Bytes_0@
}

/// What the events say of a build that has come to a place in the plan: every
/// action before it was answered well.
pub open spec fn went_well(events: Seq<Event>, at: int) -> bool {
    &&& at > 0 ==> events[0] is Bytes
    &&& at > 1 ==> events[1] is Done
    &&& at > 2 ==> events[2] is Bytes && efi::model::well_formed(brought(events[2]))
    &&& at > 3 ==> events[3] is Absent
    &&& at > 4 ==> events[4] is Absent
    &&& forall|k: int| 5 <= k < at && k != 13 && k != 18 ==> #[trigger] events[k] is Done
    &&& at > 13 ==> events[13] is Bytes && brought(events[13]) == brought(events[2])
    &&& at > 18 ==> events[18] is Bytes && brought(events[18]) == brought(events[0])
}

/// The inputs are those that were read.
pub open spec fn holds_inputs(state: BundleState, events: Seq<Event>) -> bool {
    &&& state.at > 0 ==> state.config == brought(events[0])
    &&& state.at > 2 ==> state.image == brought(events[2])
}

/// Whether the event answers the pending action well.
spec fn answers(state: BundleState, event: Event) -> bool {
    let at = state.at;
    if at == 0 {
        event is Bytes
    } else if at == 2 {
        event is Bytes && efi::model::image_fault(brought(event)) is None
    } else if at == 3 || at == 4 {
        event is Absent
    } else if at == 13 {
        event is Bytes && brought(event) == state.image
    } else if at == 18 {
        event is Bytes && brought(event) == state.config
    } else {
        event is Done
    }
}

/// A build moves on by a good answer, and stops at any other.
proof fn lemma_step(state: BundleState, event: Event)
    requires
        0 <= state.at <= super::plan_end(),
    ensures
        if state.fault is None && state.at < super::plan_end() && answers(state, event) {
            let next = state.next(event);
            &&& next.at == state.at + 1
            &&& next.fault is None
            &&& next.config == if state.at == 0 {
                brought(event)
            } else {
                state.config
            }
            &&& next.image == if state.at == 2 {
                brought(event)
            } else {
                state.image
            }
        } else if state.fault is None && state.at == super::plan_end() {
            state.next(event) == state
        } else {
            &&& state.next(event).fault is Some
            &&& state.next(event).at == state.at
            &&& state.next(event).config == state.config
            &&& state.next(event).image == state.image
        },
{
}

/// A build gets to a place in the plan only through good answers to every
/// action before it, one event each, and it carries the very bytes that were
/// read.
#[verifier::rlimit(20)]
pub proof fn every_action_before_went_well(events: Seq<Event>)
    ensures
        0 <= after(events).at <= super::plan_end(),
        after(events).at <= events.len(),
        after(events).fault is None && !(after(events).pending() is Finish) ==> after(events).at
            == events.len(),
        went_well(events, after(events).at),
        holds_inputs(after(events), events),
    decreases events.len(),
{
    if events.len() > 0 {
        let earlier = events.drop_last();
        every_action_before_went_well(earlier);
        let state = after(earlier);
        let at = state.at;
        assert forall|k: int| 0 <= k < at implies #[trigger] events[k] == earlier[k] by {}
        if at > 0 {
            assert(events[0] == earlier[0]);
        }
        lemma_step(state, events.last());
        if state.fault is None && at < super::plan_end() && answers(state, events.last()) {
            assert(events[at] == events.last());
            if at == 2 {
                efi::laws::fault_free_is_well_formed(brought(events[2]));
            }
        }
    }
}

/// Nothing is changed on the disk before both inputs were read and found valid
/// and both destinations were found free.
pub proof fn output_needs_valid_inputs_and_free_destinations(events: Seq<Event>)
    requires
        changes_disk(after(events).pending()),
    ensures
        events.len() >= 5,
        events[0] is Bytes,
        events[1] is Done,
        events[2] is Bytes,
        efi::model::well_formed(brought(events[2])),
        events[3] is Absent,
        events[4] is Absent,
{
    every_action_before_went_well(events);
    assert(after(events).at >= 5);
}

/// From the first change on the disk to the end, the bytes for each file of the
/// bundle are exactly those of its input.
pub proof fn files_get_the_exact_input(events: Seq<Event>)
    requires
        after(events).at >= 5,
    ensures
        after(events).contents(Output::Boot) == brought(events[2]),
        after(events).contents(Output::Config) == brought(events[0]),
{
    every_action_before_went_well(events);
}

/// A build finishes only if both files, read back, hold exactly the bytes of
/// the inputs, and the image among them is a valid one.
pub proof fn finished_bundle_is_an_exact_copy(events: Seq<Event>)
    requires
        after(events).pending() is Finish,
    ensures
        events.len() >= 19,
        events[13] is Bytes && brought(events[13]) == brought(events[2]),
        events[18] is Bytes && brought(events[18]) == brought(events[0]),
        efi::model::well_formed(brought(events[2])),
        events[1] is Done,
{
    every_action_before_went_well(events);
    assert(after(events).at == 19);
}

/// A build that has ended stays as it is: after a fault no action follows, and
/// none after the end.
pub proof fn ended_build_stays_as_it_is(events: Seq<Event>, more: Seq<Event>)
    requires
        after(events).pending() is Abort || after(events).pending() is Finish,
    ensures
        after(events + more) == after(events),
    decreases more.len(),
{
    if more.len() > 0 {
        ended_build_stays_as_it_is(events, more.drop_last());
        assert((events + more).drop_last() =~= events + more.drop_last());
        assert((events + more).last() == more.last());
    } else {
        assert(events + more =~= events);
    }
}

/// Where a configuration or an image is unreadable or invalid, or where one of
/// the destinations is taken or cannot be inspected, nothing is changed on the
/// disk, at no point of the build.
pub proof fn refused_build_leaves_the_disk_alone(events: Seq<Event>, length: int)
    requires
        0 <= length <= events.len(),
        events.len() < 5 || !went_well(events, 5),
    ensures
        !changes_disk(after(events.take(length)).pending()),
{
    let some = events.take(length);
    if changes_disk(after(some).pending()) {
        output_needs_valid_inputs_and_free_destinations(some);
        assert(some[0] == events[0] && some[1] == events[1] && some[2] == events[2]);
        assert(some[3] == events[3] && some[4] == events[4]);
    }
}

/// Good answers lead a build on: after as many of them as there are actions
/// before a place in the plan, it is at that place.
pub proof fn good_answers_lead_on(events: Seq<Event>, length: int)
    requires
        0 <= length <= events.len(),
        length <= super::plan_end(),
        went_well(events, length),
    ensures
        after(events.take(length)).at == length,
        after(events.take(length)).fault is None,
    decreases length,
{
    if length > 0 {
        let earlier = events.take(length - 1);
        let event = events[length - 1];
        good_answers_lead_on(events, length - 1);
        every_action_before_went_well(earlier);
        assert(events.take(length).drop_last() =~= earlier);
        assert(events.take(length).last() == event);
        assert(answers(after(earlier), event)) by {
            if length == 3 {
                efi::laws::fault_free_is_well_formed(brought(event));
            }
            if length == 14 {
                assert(earlier[2] == events[2]);
            }
            if length == 19 {
                assert(earlier[0] == events[0]);
            }
        }
        lemma_step(after(earlier), event);
    }
}

/// Valid inputs and free destinations are all that a build needs: with every
/// action done and both copies read back unchanged, it finishes.
pub proof fn good_answers_build_the_bundle(events: Seq<Event>)
    requires
        events.len() == 19,
        went_well(events, 19),
    ensures
        after(events).pending() is Finish,
{
    good_answers_lead_on(events, 19);
    assert(events.take(19) =~= events);
}

} // verus!
