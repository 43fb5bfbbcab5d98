//! What holds of a run from its command line to its exit status.
use super::flag::Flag;
use super::options::{Backend, Host, Rule, RunOptions};
use super::outcome;
use super::outcome::RunOutcome;
use super::request::{RequestError, RunArgs, RunnerBackend, RunnerHost, RunnerRequest};
use vstd::prelude::*;

verus! {

/// Options that pass the rules lack nothing that their run needs: turning them
/// into a request can fail, but never over a missing option.
pub proof fn checked_options_lack_nothing(given: RunOptions)
    requires
        given.keeps_rules(),
    ensures
        given.arguments().first_missing() is None,
        given.arguments().fault() != Some(RequestError::WslWithoutDistribution),
        given.research_only,
{
    assert(!given.breaks(Rule::Presence, Flag::Backend));
    assert(!given.breaks(Rule::Presence, Flag::Host));
    assert(!given.breaks(Rule::Presence, Flag::ResearchOnly));
    assert(!given.breaks(Rule::Presence, Flag::Distribution));
    assert(!given.breaks(Rule::Presence, Flag::Macosvm));
    assert(!given.breaks(Rule::Presence, Flag::Qemu));
    assert(!given.breaks(Rule::Presence, Flag::QemuImg));
    assert(!given.breaks(Rule::Presence, Flag::Firmware));
    assert(!given.breaks(Rule::Presence, Flag::FirmwareKind));
    assert(!given.breaks(Rule::Presence, Flag::BuildManifest));
    assert(!given.breaks(Rule::Presence, Flag::TssHelper));
    assert(!given.breaks(Rule::Presence, Flag::OriginalIbss));
    assert(!given.breaks(Rule::Presence, Flag::OriginalIbec));
    assert(!given.breaks(Rule::Presence, Flag::RestoreRoleDir));
    assert(!given.breaks(Rule::Presence, Flag::TransitionTimeout));
    assert(!given.breaks(Rule::Presence, Flag::RestoreTimeout));
    assert(!given.breaks(Rule::Presence, Flag::TotalTimeout));
}

/// The short form of a number keeps its value.
pub open spec fn same_number(short: Option<u32>, given: Option<u64>) -> bool {
    match given {
        Some(number) => short is Some && short->0 == number,
        None => short is None,
    }
}

/// Options that pass the rules keep their numbers, and these lie in their
/// ranges.
pub proof fn checked_numbers_keep_their_value(given: RunOptions)
    requires
        given.keeps_rules(),
    ensures
        ({
            let args = given.arguments();
            &&& given.target is Some && args.target == given.target->0 && 26 <= args.target <= 27
            &&& same_number(args.observation_timeout, given.observation_timeout)
            &&& same_number(args.memory_mib, given.memory_mib)
            &&& same_number(args.smp, given.smp)
            &&& same_number(args.transition_timeout, given.transition_timeout)
            &&& same_number(args.restore_timeout, given.restore_timeout)
            &&& same_number(args.total_timeout, given.total_timeout)
            &&& given.duration is Some ==> args.duration == given.duration->0
            &&& 1 <= args.duration <= 86400
            &&& 128 <= args.memory() <= 1048576
            &&& 1 <= args.processors() <= 255
            &&& 1 <= args.request().observation_timeout_secs <= 86400
        }),
{
    assert(!given.breaks(Rule::Presence, Flag::Target));
    assert(!given.breaks(Rule::Range, Flag::Target));
    assert(!given.breaks(Rule::Range, Flag::ObservationTimeout));
    assert(!given.breaks(Rule::Range, Flag::Duration));
    assert(!given.breaks(Rule::Range, Flag::MemoryMib));
    assert(!given.breaks(Rule::Range, Flag::Smp));
    assert(!given.breaks(Rule::Range, Flag::TransitionTimeout));
    assert(!given.breaks(Rule::Range, Flag::RestoreTimeout));
    assert(!given.breaks(Rule::Range, Flag::TotalTimeout));
}

/// The order in which the options were given decides neither whether they pass
/// the rules nor what run they describe.
pub proof fn order_decides_no_run(given: RunOptions, other: RunOptions)
    requires
        other == (RunOptions { order: other.order, ..given }),
    ensures
        other.keeps_rules() <==> given.keeps_rules(),
        other.arguments() == given.arguments(),
{
    assert forall|rule: Rule, flag: Flag| #[trigger] other.breaks(rule, flag) == given.breaks(
        rule,
        flag,
    ) by {}
    if given.keeps_rules() {
        assert forall|rule: Rule, flag: Flag| !(#[trigger] other.breaks(rule, flag)) by {
            assert(!given.breaks(rule, flag));
        }
    }
    if other.keeps_rules() {
        assert forall|rule: Rule, flag: Flag| !(#[trigger] given.breaks(rule, flag)) by {
            assert(!other.breaks(rule, flag));
        }
    }
}

/// A native run is local and uses no option of the emulated machine.
pub proof fn native_run_is_local_and_plain(given: RunOptions)
    requires
        given.keeps_rules(),
        given.backend == Some(Backend::LocalNative),
        given.arguments().fault() is None,
    ensures
        given.host == Some(Host::Local),
        given.distribution is None,
        given.qemu is None,
        given.qemu_img is None,
        given.firmware is None,
        given.firmware_kind is None,
        given.memory_mib is None,
        given.smp is None,
        !given.arguments().has_recovery_option(),
        given.arguments().request().backend == (RunnerBackend::Native { macosvm: given.macosvm->0 }),
{
    assert(!given.breaks(Rule::Presence, Flag::Host));
    assert(!given.breaks(Rule::Presence, Flag::Macosvm));
    assert(!given.breaks(Rule::Exclusion, Flag::Qemu));
    assert(!given.breaks(Rule::Exclusion, Flag::QemuImg));
    assert(!given.breaks(Rule::Exclusion, Flag::Firmware));
    assert(!given.breaks(Rule::Exclusion, Flag::FirmwareKind));
    assert(!given.breaks(Rule::Exclusion, Flag::MemoryMib));
    assert(!given.breaks(Rule::Exclusion, Flag::Smp));
}

/// An option of a recovery run makes a request only for a recovery run, and
/// carries over to it; the optional RPC experiment stays off unless asked for.
pub proof fn recovery_options_only_reach_recovery(args: RunArgs)
    requires
        args.fault() is None,
    ensures
        args.has_recovery_option() ==> args.request().backend is TcgRecovery,
        args.request().backend is TcgRecovery ==> args.request().backend->TcgRecovery_optional_rpc_unavailable
            == args.optional_rpc_unavailable,
{
}

/// Which host a run takes changes nothing else of the request: all paths, those
/// for the worker and that of the receipts on the current host, stay as given.
pub proof fn host_changes_only_the_host(args: RunArgs, distribution: String)
    requires
        args.host == Host::Local,
    ensures
        ({
            let moved = RunArgs { host: Host::Wsl, distribution: Some(distribution), ..args };
            moved.request() == (RunnerRequest {
                host: RunnerHost::Wsl { distribution, python: args.python },
                ..args.request()
            })
        }),
{
}

/// A run exits with zero exactly if the boot is verified, whatever else was
/// seen: neither a successful worker exit nor an acknowledged boot command
/// counts. The result word of the report says the same.
pub proof fn only_a_verified_boot_succeeds(seen: RunOutcome)
    ensures
        outcome::exit_status(seen.macos_boot_verified) == 0 <==> seen.macos_boot_verified,
        seen.result_text() == "boot-verified"@ <==> outcome::exit_status(seen.macos_boot_verified)
            == 0,
{
    reveal_strlit("boot-verified");
    reveal_strlit("runtime-unconfirmed");
    reveal_strlit("cleanup-unconfirmed");
    reveal_strlit("integrity-unconfirmed");
    reveal_strlit("completed-unverified");
    assert("runtime-unconfirmed"@.len() != "boot-verified"@.len());
    assert("cleanup-unconfirmed"@.len() != "boot-verified"@.len());
    assert("integrity-unconfirmed"@.len() != "boot-verified"@.len());
    assert("completed-unverified"@.len() != "boot-verified"@.len());
}

} // verus!
