//! The rules on the options of a run, option by option.
use super::flag;
use super::flag::Flag;
use super::options;
use super::options::{Backend, Host, Rule, RunOptions, UsageError};
use super::request::RunArgs;
use vstd::prelude::*;

verus! {

/// A number was given, and it lies outside `low..=high`.
pub open spec fn outside(value: Option<u64>, low: int, high: int) -> bool {
    value matches Some(number) && (number < low || number > high)
}

/// The number given for the option lies outside its range.
pub open spec fn is_outside(given: RunOptions, flag: Flag) -> bool {
    match flag {
        Flag::Target => outside(given.target, 26, 27),
        Flag::ObservationTimeout => outside(given.observation_timeout, 1, 86400),
        Flag::Duration => outside(given.duration, 1, 86400),
        Flag::MemoryMib => outside(given.memory_mib, 128, 1048576),
        Flag::Smp => outside(given.smp, 1, 255),
        Flag::TransitionTimeout => outside(given.transition_timeout, 1, 300),
        Flag::RestoreTimeout => outside(given.restore_timeout, 1, 300),
        Flag::TotalTimeout => outside(given.total_timeout, 30, 86400),
        _ => false,
    }
}

/// An option of the emulated machine, which was given.
pub open spec fn is_emulation(given: RunOptions, flag: Flag) -> bool {
    match flag {
        Flag::Qemu => given.qemu is Some,
        Flag::QemuImg => given.qemu_img is Some,
        Flag::Firmware => given.firmware is Some,
        Flag::FirmwareKind => given.firmware_kind is Some,
        Flag::MemoryMib => given.memory_mib is Some,
        Flag::Smp => given.smp is Some,
        Flag::BuildManifest => given.build_manifest is Some,
        Flag::TssHelper => given.tss_helper is Some,
        Flag::OriginalIbss => given.original_ibss is Some,
        Flag::OriginalIbec => given.original_ibec is Some,
        Flag::RestoreRoleDir => given.restore_role_dir is Some,
        _ => false,
    }
}

/// The option is needed and was not given.
pub open spec fn is_lacking(given: RunOptions, flag: Flag) -> bool {
    let native = given.backend == Some(Backend::LocalNative);
    let raw = given.backend == Some(Backend::Tcg);
    let recovery = given.backend == Some(Backend::TcgRecovery);
    match flag {
        Flag::Backend => given.backend is None,
        Flag::Host => given.host is None,
        Flag::Python => given.python is None,
        Flag::Repository => given.repository is None,
        Flag::VmJson => given.vm_json is None,
        Flag::Output => given.output is None,
        Flag::HostReceiptDir => given.host_receipt_dir is None,
        Flag::Target => given.target is None,
        Flag::ResearchOnly => !given.research_only,
        Flag::Distribution => given.host == Some(Host::Wsl) && given.distribution is None,
        Flag::Macosvm => native && given.macosvm is None,
        Flag::Qemu => (raw || recovery) && given.qemu is None,
        Flag::QemuImg => (raw || recovery) && given.qemu_img is None,
        Flag::Firmware => (raw || recovery) && given.firmware is None,
        Flag::FirmwareKind => raw && given.firmware_kind is None,
        Flag::BuildManifest => recovery && given.build_manifest is None,
        Flag::TssHelper => recovery && given.tss_helper is None,
        Flag::OriginalIbss => recovery && given.original_ibss is None,
        Flag::OriginalIbec => recovery && given.original_ibec is None,
        Flag::RestoreRoleDir => recovery && given.restore_role_dir is None,
        Flag::TransitionTimeout => recovery && given.transition_timeout is None,
        Flag::RestoreTimeout => recovery && given.restore_timeout is None,
        Flag::TotalTimeout => recovery && given.total_timeout is None,
        Flag::ObservationTimeout => false,
        Flag::Duration => false,
        Flag::MemoryMib => false,
        Flag::Smp => false,
    }
}

/// A number breaks its range exactly if it lies outside the bounds of its
/// option.
pub proof fn ranges_have_these_bounds(given: RunOptions)
    ensures
        given.breaks(Rule::Range, Flag::Target) <==> outside(given.target, 26, 27),
        given.breaks(Rule::Range, Flag::ObservationTimeout) <==> outside(
            given.observation_timeout,
            1,
            86400,
        ),
        given.breaks(Rule::Range, Flag::Duration) <==> outside(given.duration, 1, 86400),
        given.breaks(Rule::Range, Flag::MemoryMib) <==> outside(given.memory_mib, 128, 1048576),
        given.breaks(Rule::Range, Flag::Smp) <==> outside(given.smp, 1, 255),
        given.breaks(Rule::Range, Flag::TransitionTimeout) <==> outside(
            given.transition_timeout,
            1,
            300,
        ),
        given.breaks(Rule::Range, Flag::RestoreTimeout) <==> outside(given.restore_timeout, 1, 300),
        given.breaks(Rule::Range, Flag::TotalTimeout) <==> outside(given.total_timeout, 30, 86400),
        forall|flag: Flag| #[trigger]
            given.breaks(Rule::Range, flag) ==> {
                ||| flag == Flag::Target
                ||| flag == Flag::ObservationTimeout
                ||| flag == Flag::Duration
                ||| flag == Flag::MemoryMib
                ||| flag == Flag::Smp
                ||| flag == Flag::TransitionTimeout
                ||| flag == Flag::RestoreTimeout
                ||| flag == Flag::TotalTimeout
            },
{
}

/// The rules, as they are broken by an option.
proof fn lemma_rules(given: RunOptions, flag: Flag)
    ensures
        given.breaks(Rule::Range, flag) == is_outside(given, flag),
        given.breaks(Rule::Exclusion, flag) == (given.macosvm is Some && if flag == Flag::Macosvm {
            exists|other: Flag| #[trigger] is_emulation(given, other)
        } else {
            is_emulation(given, flag)
        }),
        given.breaks(Rule::Presence, flag) == is_lacking(given, flag),
{
    if given.has_excluded() {
        assert(exists|other: Flag| #[trigger] is_emulation(given, other)) by {
            if given.qemu is Some {
                assert(is_emulation(given, Flag::Qemu));
            } else if given.qemu_img is Some {
                assert(is_emulation(given, Flag::QemuImg));
            } else if given.firmware is Some {
                assert(is_emulation(given, Flag::Firmware));
            } else if given.firmware_kind is Some {
                assert(is_emulation(given, Flag::FirmwareKind));
            } else if given.memory_mib is Some {
                assert(is_emulation(given, Flag::MemoryMib));
            } else if given.smp is Some {
                assert(is_emulation(given, Flag::Smp));
            } else if given.build_manifest is Some {
                assert(is_emulation(given, Flag::BuildManifest));
            } else if given.tss_helper is Some {
                assert(is_emulation(given, Flag::TssHelper));
            } else if given.original_ibss is Some {
                assert(is_emulation(given, Flag::OriginalIbss));
            } else if given.original_ibec is Some {
                assert(is_emulation(given, Flag::OriginalIbec));
            } else {
                assert(is_emulation(given, Flag::RestoreRoleDir));
            }
        }
    }
}

/// Some number is out of its range.
pub open spec fn has_outside(given: RunOptions) -> bool {
    exists|flag: Flag| #[trigger] is_outside(given, flag)
}

/// `--macosvm` was given together with an option of the emulated machine.
pub open spec fn has_conflict(given: RunOptions) -> bool {
    given.macosvm is Some && exists|flag: Flag| #[trigger] is_emulation(given, flag)
}

/// Some option is needed and was not given.
pub open spec fn has_lack(given: RunOptions) -> bool {
    exists|flag: Flag| #[trigger] is_lacking(given, flag)
}

proof fn lemma_breaches(given: RunOptions)
    ensures
        given.breaches(Rule::Range).len() > 0 <==> has_outside(given),
        given.breaches(Rule::Exclusion).len() > 0 <==> has_conflict(given),
        given.breaches(Rule::Presence).len() > 0 <==> has_lack(given),
        given.keeps_rules() <==> !has_outside(given) && !has_conflict(given) && !has_lack(given),
{
    assert forall|rule: Rule, flag: Flag| #[trigger] given.breaks(rule, flag) implies given.breaches(
        rule,
    ).len() > 0 by {
        options::breaches_are_what_is_broken(given, rule, flag);
    }
    assert forall|rule: Rule| #[trigger] given.breaches(rule).len() > 0 implies given.breaks(
        rule,
        given.breaches(rule)[0],
    ) by {
        options::breaches_are_what_is_broken(given, rule, given.breaches(rule)[0]);
    }
    assert forall|flag: Flag| #[trigger] is_outside(given, flag) == given.breaks(
        Rule::Range,
        flag,
    ) by {
        lemma_rules(given, flag);
    }
    assert forall|flag: Flag| #[trigger] is_lacking(given, flag) == given.breaks(
        Rule::Presence,
        flag,
    ) by {
        lemma_rules(given, flag);
    }
    assert forall|flag: Flag| #[trigger] is_emulation(given, flag) && given.macosvm is Some implies
        given.breaks(Rule::Exclusion, flag) by {
        lemma_rules(given, flag);
    }
    assert forall|flag: Flag| #[trigger] given.breaks(Rule::Exclusion, flag) implies has_conflict(
        given,
    ) by {
        lemma_rules(given, flag);
    }
    assert forall|flag: Flag| #[trigger] given.breaks(Rule::Range, flag) implies is_outside(
        given,
        flag,
    ) by {
        lemma_rules(given, flag);
    }
    assert forall|flag: Flag| #[trigger] given.breaks(Rule::Presence, flag) implies is_lacking(
        given,
        flag,
    ) by {
        lemma_rules(given, flag);
    }
    if !given.keeps_rules() {
        let (rule, flag) = choose|rule: Rule, flag: Flag| #[trigger] given.breaks(rule, flag);
        lemma_rules(given, flag);
    }
}

/// Options pass exactly if no number is out of its range, `--macosvm` goes with
/// no option of the emulated machine, and nothing that is needed is missing;
/// the first of these that fails is what they are turned down for.
pub proof fn check_turns_down_for_the_first_kind(
    given: RunOptions,
    result: Result<RunArgs, UsageError>,
)
    requires
        call_ensures(RunOptions::check, (given,), result),
    ensures
        (result matches Err(UsageError::OutOfRange(_))) <==> has_outside(given),
        (result matches Err(UsageError::Excluded(_, _))) <==> !has_outside(given) && has_conflict(
            given,
        ),
        (result matches Err(UsageError::Missing(_))) <==> !has_outside(given) && !has_conflict(given)
            && has_lack(given),
        result is Ok <==> !has_outside(given) && !has_conflict(given) && !has_lack(given),
{
    lemma_breaches(given);
}

/// What passes is what was given, option by option; a duration that was not
/// given is 60 seconds.
pub proof fn passed_options_arrive(given: RunOptions, args: RunArgs)
    requires
        call_ensures(RunOptions::check, (given,), Ok::<RunArgs, UsageError>(args)),
    ensures
        given.backend == Some(args.backend),
        given.host == Some(args.host),
        given.python == Some(args.python),
        given.distribution == args.distribution,
        given.repository == Some(args.repository),
        given.vm_json == Some(args.vm_json),
        given.output == Some(args.output),
        given.host_receipt_dir == Some(args.host_receipt_dir),
        given.target matches Some(number) && args.target == number,
        arrives(given.observation_timeout, args.observation_timeout),
        given.duration matches Some(number) ==> args.duration == number,
        given.duration is None ==> args.duration == 60,
        given.research_only,
        args.research_only,
        args.json == given.json,
        args.macosvm == given.macosvm,
        args.qemu == given.qemu,
        args.qemu_img == given.qemu_img,
        args.firmware == given.firmware,
        args.firmware_kind == given.firmware_kind,
        arrives(given.memory_mib, args.memory_mib),
        arrives(given.smp, args.smp),
        args.build_manifest == given.build_manifest,
        args.tss_helper == given.tss_helper,
        args.original_ibss == given.original_ibss,
        args.original_ibec == given.original_ibec,
        args.restore_role_dir == given.restore_role_dir,
        arrives(given.transition_timeout, args.transition_timeout),
        arrives(given.restore_timeout, args.restore_timeout),
        arrives(given.total_timeout, args.total_timeout),
        args.optional_rpc_unavailable == given.optional_rpc_unavailable,
{
    lemma_breaches(given);
    assert(!is_lacking(given, Flag::Backend) && !is_lacking(given, Flag::Host));
    assert(!is_lacking(given, Flag::Python) && !is_lacking(given, Flag::Repository));
    assert(!is_lacking(given, Flag::VmJson) && !is_lacking(given, Flag::Output));
    assert(!is_lacking(given, Flag::HostReceiptDir) && !is_lacking(given, Flag::Target));
    assert(!is_lacking(given, Flag::ResearchOnly));
    assert(!is_outside(given, Flag::Target) && !is_outside(given, Flag::Duration));
    assert(!is_outside(given, Flag::ObservationTimeout) && !is_outside(given, Flag::MemoryMib));
    assert(!is_outside(given, Flag::Smp) && !is_outside(given, Flag::TransitionTimeout));
    assert(!is_outside(given, Flag::RestoreTimeout) && !is_outside(given, Flag::TotalTimeout));
}

/// The number arrives as it was given.
pub open spec fn arrives(given: Option<u64>, arrived: Option<u32>) -> bool {
    match given {
        Some(number) => arrived matches Some(short) && short == number,
        None => arrived is None,
    }
}

/// What a filter gives first is the first that passes it.
proof fn lemma_first_passes(all: Seq<Flag>, passes: spec_fn(Flag) -> bool) -> (place: int)
    requires
        all.filter(passes).len() > 0,
    ensures
        0 <= place < all.len(),
        all[place] == all.filter(passes)[0],
        passes(all[place]),
        forall|k: int| 0 <= k < place ==> !passes(all[k]),
    decreases all.len(),
{
    reveal(Seq::filter);
    let some = all.drop_last();
    if some.filter(passes).len() > 0 {
        let place = lemma_first_passes(some, passes);
        assert(all.filter(passes)[0] == some.filter(passes)[0]);
        assert forall|k: int| 0 <= k < place implies !passes(all[k]) by {
            assert(all[k] == some[k]);
        }
        place
    } else {
        assert forall|k: int| 0 <= k < some.len() implies !passes(all[k]) by {
            assert(all[k] == some[k]);
            if passes(some[k]) {
                some.lemma_filter_contains(passes, k);
            }
        }
        all.len() - 1
    }
}

/// A filter keeps the order.
proof fn lemma_filter_keeps_order(
    all: Seq<Flag>,
    passes: spec_fn(Flag) -> bool,
    i: int,
    j: int,
) -> (places: (int, int))
    requires
        0 <= i < j < all.filter(passes).len(),
    ensures
        0 <= places.0 < places.1 < all.len(),
        all[places.0] == all.filter(passes)[i],
        all[places.1] == all.filter(passes)[j],
    decreases all.len(),
{
    reveal(Seq::filter);
    let some = all.drop_last();
    if j < some.filter(passes).len() {
        lemma_filter_keeps_order(some, passes, i, j)
    } else {
        let place = lemma_filter_keeps(some, passes, i);
        (place, all.len() - 1)
    }
}

/// What passes a filter is of the sequence.
proof fn lemma_filter_keeps(all: Seq<Flag>, passes: spec_fn(Flag) -> bool, i: int) -> (place: int)
    requires
        0 <= i < all.filter(passes).len(),
    ensures
        0 <= place < all.len(),
        all[place] == all.filter(passes)[i],
    decreases all.len(),
{
    reveal(Seq::filter);
    let some = all.drop_last();
    if i < some.filter(passes).len() {
        lemma_filter_keeps(some, passes, i)
    } else {
        all.len() - 1
    }
}

/// The options that are gone through start with those whose order is known.
proof fn lemma_order_comes_first(given: RunOptions, rule: Rule, k: int)
    requires
        rule == Rule::Range || rule == Rule::Exclusion,
        0 <= k < given.order@.len(),
    ensures
        given.searched(rule)[k] == given.order@[k],
        given.searched(rule).len() >= given.order@.len(),
{
}

/// `flag` stands in the order, not behind `place`.
pub open spec fn stands_by(order: Seq<Flag>, flag: Flag, place: int) -> bool {
    exists|j: int| 0 <= j <= place && #[trigger] order[j] == flag
}

/// Every option of the order that breaks the rule has the first one named at its
/// place or before.
proof fn lemma_named_first(given: RunOptions, rule: Rule)
    requires
        rule == Rule::Range || rule == Rule::Exclusion,
        given.breaches(rule).len() > 0,
    ensures
        given.breaks(rule, given.breaches(rule)[0]),
        forall|k: int|
            0 <= k < given.order@.len() && given.breaks(rule, #[trigger] given.order@[k])
                ==> stands_by(given.order@, given.breaches(rule)[0], k),
{
    let broken = |flag: Flag| given.breaks(rule, flag);
    let place = lemma_first_passes(given.searched(rule), broken);
    assert forall|k: int|
        0 <= k < given.order@.len() && given.breaks(rule, #[trigger] given.order@[k]) implies
        stands_by(given.order@, given.breaches(rule)[0], k) by {
        lemma_order_comes_first(given, rule, k);
        assert(broken(given.searched(rule)[k]));
        assert(place <= k);
        lemma_order_comes_first(given, rule, place);
        assert(given.order@[place] == given.breaches(rule)[0]);
    }
}

/// The number that is named is out of its range, and no number that was given
/// before it is.
pub proof fn first_number_outside_is_named(given: RunOptions, named: Flag)
    requires
        call_ensures(
            RunOptions::check,
            (given,),
            Err::<RunArgs, UsageError>(UsageError::OutOfRange(named)),
        ),
    ensures
        is_outside(given, named),
        forall|k: int|
            0 <= k < given.order@.len() && is_outside(given, #[trigger] given.order@[k])
                ==> stands_by(given.order@, named, k),
{
    lemma_named_first(given, Rule::Range);
    lemma_rules(given, named);
    assert forall|k: int|
        0 <= k < given.order@.len() && is_outside(given, #[trigger] given.order@[k]) implies stands_by(
        given.order@,
        named,
        k,
    ) by {
        lemma_rules(given, given.order@[k]);
    }
}

/// Of the options that exclude each other, the one given first is named. If it
/// is `--macosvm`, all given options of the emulated machine stand against it,
/// as they were given, and if it is one of those, `--macosvm` alone does.
pub proof fn first_excluded_option_is_named(given: RunOptions, named: Flag, rivals: Vec<Flag>)
    requires
        call_ensures(
            RunOptions::check,
            (given,),
            Err::<RunArgs, UsageError>(UsageError::Excluded(named, rivals)),
        ),
    ensures
        named == Flag::Macosvm || is_emulation(given, named),
        forall|k: int|
            0 <= k < given.order@.len() && (#[trigger] given.order@[k] == Flag::Macosvm
                || is_emulation(given, given.order@[k])) ==> stands_by(given.order@, named, k),
        named != Flag::Macosvm ==> rivals@ == seq![Flag::Macosvm],
        named == Flag::Macosvm && given.order@.no_duplicates() ==> {
            &&& rivals@.no_duplicates()
            &&& forall|flag: Flag| #[trigger] rivals@.contains(flag) <==> is_emulation(given, flag)
            &&& forall|i: int, j: int|
                0 <= i < j < rivals@.len() && given.order@.contains(rivals@[i])
                    && given.order@.contains(rivals@[j]) ==> stands_by(
                    given.order@,
                    #[trigger] rivals@[i],
                    given.order@.index_of(#[trigger] rivals@[j]),
                )
        },
{
    lemma_breaches(given);
    lemma_named_first(given, Rule::Exclusion);
    lemma_rules(given, named);
    assert forall|k: int|
        0 <= k < given.order@.len() && (#[trigger] given.order@[k] == Flag::Macosvm || is_emulation(
            given,
            given.order@[k],
        )) implies stands_by(given.order@, named, k) by {
        lemma_rules(given, given.order@[k]);
    }
    if named == Flag::Macosvm && given.order@.no_duplicates() {
        lemma_rivals(given, rivals@);
    }
}

/// No option is gone through twice.
proof fn lemma_searched_once(given: RunOptions, rule: Rule)
    requires
        given.order@.no_duplicates(),
    ensures
        given.searched(rule).no_duplicates(),
{
    let all = flag::all_flags();
    let order = given.order@;
    let unordered = |flag: Flag| !order.contains(flag);
    let rest = all.filter(unordered);
    assert forall|i: int| 0 <= i < all.len() implies (#[trigger] all[i]).place() == i by {}
    assert forall|i: int, j: int| 0 <= i < j < rest.len() implies rest[i] != rest[j] by {
        let places = lemma_filter_keeps_order(all, unordered, i, j);
        assert(all[places.0].place() != all[places.1].place());
    }
    assert forall|i: int| 0 <= i < rest.len() implies !order.contains(#[trigger] rest[i]) by {
        all.lemma_filter_pred(unordered, i);
    }
    assert(given.sequence() == order + rest);
    assert forall|i: int, j: int|
        0 <= i < given.sequence().len() && 0 <= j < given.sequence().len() && i
            != j implies given.sequence()[i] != given.sequence()[j] by {
        let n = order.len() as int;
        if i < n && j >= n {
            assert(!order.contains(rest[j - n]));
        }
        if j < n && i >= n {
            assert(!order.contains(rest[i - n]));
        }
    }
}

proof fn lemma_rivals(given: RunOptions, rivals: Seq<Flag>)
    requires
        given.order@.no_duplicates(),
        given.breaches(Rule::Exclusion).len() > 0,
        given.breaches(Rule::Exclusion)[0] == Flag::Macosvm,
        rivals == given.breaches(Rule::Exclusion).drop_first(),
    ensures
        rivals.no_duplicates(),
        forall|flag: Flag| #[trigger] rivals.contains(flag) <==> is_emulation(given, flag),
        forall|i: int, j: int|
            0 <= i < j < rivals.len() && given.order@.contains(rivals[i]) && given.order@.contains(
                rivals[j],
            ) ==> stands_by(
                given.order@,
                #[trigger] rivals[i],
                given.order@.index_of(#[trigger] rivals[j]),
            ),
{
    let rule = Rule::Exclusion;
    let all = given.searched(rule);
    let broken = |flag: Flag| given.breaks(rule, flag);
    let found = given.breaches(rule);
    lemma_searched_once(given, rule);
    assert forall|i: int, j: int| 0 <= i < j < found.len() implies found[i] != found[j] by {
        let places = lemma_filter_keeps_order(all, broken, i, j);
    }
    assert forall|flag: Flag| #[trigger] rivals.contains(flag) implies is_emulation(given, flag) by {
        let i = rivals.index_of(flag);
        assert(found[i + 1] == flag);
        assert(found[0] != found[i + 1]);
        options::breaches_are_what_is_broken(given, rule, flag);
        lemma_rules(given, flag);
    }
    assert forall|flag: Flag| is_emulation(given, flag) implies #[trigger] rivals.contains(flag) by {
        options::breaches_are_what_is_broken(given, rule, Flag::Macosvm);
        lemma_rules(given, Flag::Macosvm);
        options::breaches_are_what_is_broken(given, rule, flag);
        lemma_rules(given, flag);
        let i = found.index_of(flag);
        assert(found[i] == flag);
        assert(i > 0);
        assert(rivals[i - 1] == flag);
    }
    let order = given.order@;
    assert forall|i: int, j: int|
        0 <= i < j < rivals.len() && order.contains(rivals[i]) && order.contains(
            rivals[j],
        ) implies stands_by(order, #[trigger] rivals[i], order.index_of(#[trigger] rivals[j])) by {
        let places = lemma_filter_keeps_order(all, broken, i + 1, j + 1);
        let a = order.index_of(rivals[i]);
        let b = order.index_of(rivals[j]);
        lemma_order_comes_first(given, rule, a);
        lemma_order_comes_first(given, rule, b);
        assert(all[a] == all[places.0]);
        assert(all[b] == all[places.1]);
        assert(a < b);
        assert(order[a] == rivals[i]);
    }
}

/// Exactly the options that are needed and were not given are named, each once,
/// in the order of the list.
pub proof fn missing_options_are_named(given: RunOptions, named: Vec<Flag>)
    requires
        call_ensures(
            RunOptions::check,
            (given,),
            Err::<RunArgs, UsageError>(UsageError::Missing(named)),
        ),
    ensures
        forall|flag: Flag| #[trigger] named@.contains(flag) <==> is_lacking(given, flag),
        forall|i: int, j: int|
            0 <= i < j < named@.len() ==> rank(#[trigger] named@[i]) < rank(#[trigger] named@[j]),
{
    let broken = |flag: Flag| given.breaks(Rule::Presence, flag);
    assert forall|flag: Flag| #[trigger] named@.contains(flag) <==> is_lacking(given, flag) by {
        options::breaches_are_what_is_broken(given, Rule::Presence, flag);
        lemma_rules(given, flag);
    }
    assert forall|i: int, j: int| 0 <= i < j < named@.len() implies rank(#[trigger] named@[i])
        < rank(#[trigger] named@[j]) by {
        let places = lemma_filter_keeps_order(flag::all_flags(), broken, i, j);
        assert(flag::all_flags()[places.0].place() == places.0);
        assert(flag::all_flags()[places.1].place() == places.1);
    }
}

/// Where the option stands among all: what every run needs, then what a host or
/// a backend needs.
pub open spec fn rank(flag: Flag) -> int {
    match flag {
        Flag::Backend => 0,
        Flag::Host => 1,
        Flag::Python => 2,
        Flag::Repository => 3,
        Flag::VmJson => 4,
        Flag::Output => 5,
        Flag::HostReceiptDir => 6,
        Flag::Target => 7,
        Flag::ResearchOnly => 8,
        Flag::Distribution => 9,
        Flag::ObservationTimeout => 10,
        Flag::Duration => 11,
        Flag::Macosvm => 12,
        Flag::Qemu => 13,
        Flag::QemuImg => 14,
        Flag::Firmware => 15,
        Flag::FirmwareKind => 16,
        Flag::MemoryMib => 17,
        Flag::Smp => 18,
        Flag::BuildManifest => 19,
        Flag::TssHelper => 20,
        Flag::OriginalIbss => 21,
        Flag::OriginalIbec => 22,
        Flag::RestoreRoleDir => 23,
        Flag::TransitionTimeout => 24,
        Flag::RestoreTimeout => 25,
        Flag::TotalTimeout => 26,
    }
}

/// The list of all options holds each once, at its place.
pub proof fn list_holds_each_option_once(list: Vec<Flag>, flag: Flag)
    requires
        call_ensures(flag::flags, (), list),
    ensures
        list@.len() == 27,
        0 <= rank(flag) < 27,
        list@[rank(flag)] == flag,
{
}

/// The options found for a rule are those that the rule is about.
pub proof fn found_options_break_the_rule(
    given: RunOptions,
    rule: Rule,
    found: Vec<Flag>,
    flag: Flag,
)
    requires
        call_ensures(RunOptions::find_breaches, (&given, rule), found),
    ensures
        rule == Rule::Range ==> (found@.contains(flag) <==> is_outside(given, flag)),
        rule == Rule::Exclusion && flag != Flag::Macosvm ==> (found@.contains(flag)
            <==> given.macosvm is Some && is_emulation(given, flag)),
        rule == Rule::Exclusion && flag == Flag::Macosvm ==> (found@.contains(flag)
            <==> has_conflict(given)),
        rule == Rule::Presence ==> (found@.contains(flag) <==> is_lacking(given, flag)),
{
    options::breaches_are_what_is_broken(given, rule, flag);
    lemma_rules(given, flag);
}

/// The options found for a rule come as they were given, or, where they are
/// missing, as they are listed.
pub proof fn found_options_keep_the_order(
    given: RunOptions,
    rule: Rule,
    found: Vec<Flag>,
    i: int,
    j: int,
)
    requires
        call_ensures(RunOptions::find_breaches, (&given, rule), found),
        given.order@.no_duplicates(),
        0 <= i < j < found@.len(),
    ensures
        rule == Rule::Presence ==> rank(found@[i]) < rank(found@[j]),
        rule != Rule::Presence && given.order@.contains(found@[j]) ==> stands_by(
            given.order@,
            found@[i],
            given.order@.index_of(found@[j]) - 1,
        ),
        rule != Rule::Presence && !given.order@.contains(found@[i]) ==> rank(found@[i]) < rank(
            found@[j],
        ),
{
    let all = given.searched(rule);
    let order = given.order@;
    let broken = |flag: Flag| given.breaks(rule, flag);
    let listed = flag::all_flags();
    let unordered = |flag: Flag| !order.contains(flag);
    let rest = listed.filter(unordered);
    let places = lemma_filter_keeps_order(all, broken, i, j);
    assert forall|k: int| 0 <= k < listed.len() implies rank(#[trigger] listed[k]) == k by {}
    if rule != Rule::Presence {
        lemma_searched_once(given, rule);
        assert(all == order + rest);
        if order.contains(found@[j]) {
            let b = order.index_of(found@[j]);
            lemma_order_comes_first(given, rule, b);
            assert(all[b] == all[places.1]);
            lemma_order_comes_first(given, rule, places.0);
            assert(order[places.0] == found@[i]);
        }
        if !order.contains(found@[i]) {
            let n = order.len() as int;
            assert(places.0 >= n) by {
                if places.0 < n {
                    assert(order[places.0] == found@[i]);
                }
            }
            let among = lemma_filter_keeps_order(listed, unordered, places.0 - n, places.1 - n);
            assert(rank(listed[among.0]) < rank(listed[among.1]));
        }
    }
}

} // verus!
