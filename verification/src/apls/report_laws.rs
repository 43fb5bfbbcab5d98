//! The report of a run, line by line, and its exit status.
use super::outcome;
use super::outcome::{RecoveryProgress, RunOutcome};
use crate::text;
use vstd::prelude::*;

verus! {

/// The word for a switch.
pub open spec fn word(value: bool) -> Seq<char> {
    if value {
        "true"@
    } else {
        "false"@
    }
}

/// How many lines a recovery run has more.
pub open spec fn extra(seen: RunOutcome) -> int {
    if seen.recovery_progress is Some {
        2
    } else {
        0
    }
}

/// The lines that every run has: each switch is shown by its own name.
pub proof fn report_shows_what_was_seen(seen: RunOutcome, receipt: &str, report: Vec<String>)
    requires
        call_ensures(RunOutcome::report, (&seen, receipt), report),
    ensures
        ({
            let lines = report.deep_view();
            let n = 2 + extra(seen);
            &&& lines.len() == n + 4 + if seen.failure is Some {
                1int
            } else {
                0int
            }
            &&& seen.runner_exit_code matches Some(code) ==> lines[0] == "runner: engine="@
                + seen.engine@ + " completed="@ + word(seen.runner_completed) + " exit="@
                + text::signed_text(code as int)
            &&& seen.runner_exit_code is None ==> lines[0] == "runner: engine="@ + seen.engine@
                + " completed="@ + word(seen.runner_completed) + " exit="@ + "unavailable"@
            &&& lines[1] == "guest: started="@ + word(seen.guest_runtime_started) + " terminated="@
                + word(seen.guest_process_terminated)
            &&& lines[n] == "evidence: xnu="@ + word(seen.xnu_executed) + " userspace="@ + word(
                seen.macos_userspace_reached,
            ) + " target-match="@ + word(seen.guest_target_match) + " input-integrity="@ + word(
                seen.input_integrity,
            )
            &&& lines[n + 1] == "macos-boot-verified: "@ + word(seen.macos_boot_verified)
            &&& lines[n + 2] == "installation-verified: "@ + word(seen.installation_verified)
                + " graphics-acceleration-verified: "@ + word(seen.graphics_acceleration_verified)
            &&& seen.failure matches Some(failure) ==> lines[n + 3] == "failure: "@ + failure@
            &&& lines.last() == "receipt: "@ + receipt@
        }),
{
}

/// The two lines that only a recovery run has, behind the second: how far it
/// came, and the word for the result.
pub proof fn recovery_report_shows_progress(seen: RunOutcome, receipt: &str, report: Vec<String>)
    requires
        call_ensures(RunOutcome::report, (&seen, receipt), report),
        seen.recovery_progress is Some,
    ensures
        ({
            let lines = report.deep_view();
            let progress = seen.recovery_progress->0;
            &&& lines[2] == "recovery: dfu="@ + word(progress.dfu_upload_completed)
                + " ibec-endpoint="@ + word(progress.ibec_endpoint_advertised) + " stage2-banner="@
                + word(progress.stage2_banner_observed) + " stage2-prompt="@ + word(
                progress.stage2_prompt_observed,
            ) + " restore-roles="@ + text::decimal_text(progress.restore_role_step_count as nat)
                + " sequence="@ + word(progress.restore_sequence_sent) + " bootx-ack="@ + word(
                progress.bootx_acknowledged,
            ) + " firmware-panic="@ + word(progress.firmware_panic_observed)
            &&& seen.macos_boot_verified ==> lines[3] == "result: "@ + "boot-verified"@
            &&& !seen.macos_boot_verified ==> {
                &&& !seen.guest_runtime_started ==> lines[3] == "result: "@ + "runtime-unconfirmed"@
                &&& seen.guest_runtime_started && !seen.guest_process_terminated ==> lines[3]
                    == "result: "@ + "cleanup-unconfirmed"@
                &&& seen.guest_runtime_started && seen.guest_process_terminated
                    && !seen.input_integrity ==> lines[3] == "result: "@ + "integrity-unconfirmed"@
                &&& seen.guest_runtime_started && seen.guest_process_terminated
                    && seen.input_integrity ==> lines[3] == "result: "@ + "completed-unverified"@
            }
        }),
{
}

/// The word for the result says that the boot is verified exactly if it is, and
/// else names the first doubt.
pub proof fn result_names_the_first_doubt(seen: RunOutcome, result: &'static str)
    requires
        call_ensures(RunOutcome::result, (&seen,), result),
    ensures
        seen.macos_boot_verified ==> result@ == "boot-verified"@,
        !seen.macos_boot_verified && !seen.guest_runtime_started ==> result@
            == "runtime-unconfirmed"@,
        !seen.macos_boot_verified && seen.guest_runtime_started && !seen.guest_process_terminated
            ==> result@ == "cleanup-unconfirmed"@,
        !seen.macos_boot_verified && seen.guest_runtime_started && seen.guest_process_terminated
            && !seen.input_integrity ==> result@ == "integrity-unconfirmed"@,
        !seen.macos_boot_verified && seen.guest_runtime_started && seen.guest_process_terminated
            && seen.input_integrity ==> result@ == "completed-unverified"@,
{
}

/// The exit status is 0 for a verified boot and 2 for everything else.
pub proof fn exit_is_zero_for_a_verified_boot(seen: RunOutcome, status: u8)
    requires
        call_ensures(outcome::outcome_exit, (&seen,), status),
    ensures
        seen.macos_boot_verified ==> status == 0,
        !seen.macos_boot_verified ==> status == 2,
{
}

/// The first letters of the lines that every run has.
proof fn lemma_first_letters(seen: RunOutcome)
    ensures
        seen.runner_line().len() > 0 && seen.runner_line()[0] == 'r',
        seen.guest_line().len() > 0 && seen.guest_line()[0] == 'g',
        seen.evidence_line().len() > 0 && seen.evidence_line()[0] == 'e',
        seen.verification_line().len() > 0 && seen.verification_line()[0] == 'i',
{
    reveal_strlit("runner: engine=");
    reveal_strlit("guest: started=");
    reveal_strlit("evidence: xnu=");
    reveal_strlit("installation-verified: ");
}

/// The first letters of the lines that only some runs have.
proof fn lemma_other_first_letters(seen: RunOutcome, failure: Seq<char>, receipt: Seq<char>)
    ensures
        seen.result_line().len() > 0 && seen.result_line()[0] == 'r',
        ("failure: "@ + failure).len() > 0 && ("failure: "@ + failure)[0] == 'f',
        ("receipt: "@ + receipt).len() > 0 && ("receipt: "@ + receipt)[0] == 'r',
{
    reveal_strlit("result: ");
    reveal_strlit("failure: ");
    reveal_strlit("receipt: ");
}

proof fn lemma_progress_first_letter(progress: RecoveryProgress)
    ensures
        progress.line().len() > 0 && progress.line()[0] == 'r',
{
    reveal_strlit("recovery: dfu=");
}

/// A line of the report other than the one on the boot starts differently.
proof fn lemma_only_boot_line(seen: RunOutcome, receipt: Seq<char>, line: Seq<char>)
    requires
        seen.report_lines(receipt).contains(line),
        line.len() > 0,
        line[0] == 'm',
    ensures
        line == seen.boot_line(),
{
    lemma_first_letters(seen);
    if seen.recovery_progress is Some {
        lemma_progress_first_letter(seen.recovery_progress->0);
    }
    let failure = if seen.failure is Some {
        seen.failure->0@
    } else {
        Seq::empty()
    };
    lemma_other_first_letters(seen, failure, receipt);
    let i = seen.report_lines(receipt).index_of(line);
    assert(seen.report_lines(receipt)[i] == line);
}

/// The report says that the boot is verified exactly if it is, which is exactly
/// if the run exits with zero; it says that it is not exactly if it is not.
pub proof fn report_and_exit_agree(
    seen: RunOutcome,
    receipt: &str,
    report: Vec<String>,
    status: u8,
)
    requires
        call_ensures(RunOutcome::report, (&seen, receipt), report),
        call_ensures(outcome::outcome_exit, (&seen,), status),
    ensures
        report.deep_view().contains("macos-boot-verified: true"@) <==> seen.macos_boot_verified,
        report.deep_view().contains("macos-boot-verified: false"@) <==> !seen.macos_boot_verified,
        report.deep_view().contains("macos-boot-verified: true"@) <==> status == 0,
{
    reveal_strlit("macos-boot-verified: ");
    reveal_strlit("true");
    reveal_strlit("false");
    reveal_strlit("macos-boot-verified: true");
    reveal_strlit("macos-boot-verified: false");
    let lines = report.deep_view();
    let yes = "macos-boot-verified: true"@;
    let no = "macos-boot-verified: false"@;
    let n = 3 + extra(seen);
    assert("macos-boot-verified: "@ + "true"@ =~= yes);
    assert("macos-boot-verified: "@ + "false"@ =~= no);
    assert(yes.len() != no.len());
    report_shows_what_was_seen(seen, receipt, report);
    if lines.contains(yes) {
        lemma_only_boot_line(seen, receipt@, yes);
    }
    if lines.contains(no) {
        lemma_only_boot_line(seen, receipt@, no);
    }
    assert(lines[n] == yes || lines[n] == no);
}

/// The receipt of a run stands in one file of the receipt directory.
pub proof fn receipt_stands_in_adapter_json(name: &'static str)
    requires
        call_ensures(outcome::receipt_file, (), name),
    ensures
        name@ == "adapter.json"@,
{
}

} // verus!
