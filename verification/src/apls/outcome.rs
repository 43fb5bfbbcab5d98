//! What a VM observation showed, how it is reported and how the run exits.
//! The verdict itself comes with the outcome; nothing here adds to it.
use crate::text;
use vstd::prelude::*;

verus! {

/// How far a recovery run came.
#[derive(Debug, Clone, Copy, PartialEq, Eq)]
pub struct RecoveryProgress {
    pub dfu_upload_completed: bool,
    pub ibec_endpoint_advertised: bool,
    pub stage2_banner_observed: bool,
    pub stage2_prompt_observed: bool,
    pub restore_role_step_count: u64,
    pub restore_sequence_sent: bool,
    pub bootx_acknowledged: bool,
    pub firmware_panic_observed: bool,
}

/// What the report and the exit status of a run are made from.
#[derive(Debug, PartialEq, Eq)]
pub struct RunOutcome {
    pub runner_exit_code: Option<i32>,
    pub runner_completed: bool,
    pub engine: String,
    pub guest_runtime_started: bool,
    pub guest_process_terminated: bool,
    pub xnu_executed: bool,
    pub macos_userspace_reached: bool,
    pub guest_target_match: bool,
    pub input_integrity: bool,
    pub macos_boot_verified: bool,
    pub installation_verified: bool,
    pub graphics_acceleration_verified: bool,
    pub recovery_progress: Option<RecoveryProgress>,
    pub failure: Option<String>,
}

/// File in the host receipt directory that holds the receipt of a run.
pub fn receipt_file() -> (result: &'static str)
    ensures
        result@ == "adapter.json"@,
{
    "adapter.json"
}

impl RunOutcome {
    pub open spec fn exit_code_text(self) -> Seq<char> {
        match self.runner_exit_code {
            Some(code) => text::signed_text(code as int),
            None => "unavailable"@,
        }
    }

    pub open spec fn runner_line(self) -> Seq<char> {
        "runner: engine="@ + self.engine@ + " completed="@ + text::bool_text(self.runner_completed)
            + " exit="@ + self.exit_code_text()
    }

    pub open spec fn guest_line(self) -> Seq<char> {
        "guest: started="@ + text::bool_text(self.guest_runtime_started) + " terminated="@
            + text::bool_text(self.guest_process_terminated)
    }

    pub open spec fn evidence_line(self) -> Seq<char> {
        "evidence: xnu="@ + text::bool_text(self.xnu_executed) + " userspace="@ + text::bool_text(
            self.macos_userspace_reached,
        ) + " target-match="@ + text::bool_text(self.guest_target_match) + " input-integrity="@
            + text::bool_text(self.input_integrity)
    }

    pub open spec fn boot_line(self) -> Seq<char> {
        "macos-boot-verified: "@ + text::bool_text(self.macos_boot_verified)
    }

    pub open spec fn verification_line(self) -> Seq<char> {
        "installation-verified: "@ + text::bool_text(self.installation_verified)
            + " graphics-acceleration-verified: "@ + text::bool_text(
            self.graphics_acceleration_verified,
        )
    }

    /// The word for the result of a recovery run: the first doubt that stands,
    /// where the boot is not verified.
    pub open spec fn result_text(self) -> Seq<char> {
        if self.macos_boot_verified {
            "boot-verified"@
        } else if !self.guest_runtime_started {
            "runtime-unconfirmed"@
        } else if !self.guest_process_terminated {
            "cleanup-unconfirmed"@
        } else if !self.input_integrity {
            "integrity-unconfirmed"@
        } else {
            "completed-unverified"@
        }
    }

    pub open spec fn result_line(self) -> Seq<char> {
        "result: "@ + self.result_text()
    }

    /// The lines on recovery, which only a recovery run has.
    pub open spec fn recovery_lines(self) -> Seq<Seq<char>> {
        match self.recovery_progress {
            Some(progress) => seq![progress.line(), self.result_line()],
            None => seq![],
        }
    }

    /// The line on a failure, which only a run with a failure has.
    pub open spec fn failure_lines(self) -> Seq<Seq<char>> {
        match self.failure {
            Some(failure) => seq!["failure: "@ + failure@],
            None => seq![],
        }
    }

    /// The whole report.
    pub open spec fn report_lines(self, receipt: Seq<char>) -> Seq<Seq<char>> {
        seq![self.runner_line(), self.guest_line()] + self.recovery_lines() + seq![
            self.evidence_line(),
            self.boot_line(),
            self.verification_line(),
        ] + self.failure_lines() + seq!["receipt: "@ + receipt]
    }
}

impl RecoveryProgress {
    pub open spec fn line(self) -> Seq<char> {
        "recovery: dfu="@ + text::bool_text(self.dfu_upload_completed) + " ibec-endpoint="@
            + text::bool_text(self.ibec_endpoint_advertised) + " stage2-banner="@ + text::bool_text(
            self.stage2_banner_observed,
        ) + " stage2-prompt="@ + text::bool_text(self.stage2_prompt_observed) + " restore-roles="@
            + text::decimal_text(self.restore_role_step_count as nat) + " sequence="@
            + text::bool_text(self.restore_sequence_sent) + " bootx-ack="@ + text::bool_text(
            self.bootx_acknowledged,
        ) + " firmware-panic="@ + text::bool_text(self.firmware_panic_observed)
    }

    fn show(&self) -> (result: String)
        ensures
            result@ == self.line(),
    {
        let mut line = String::from_str("recovery: dfu=");
        line.append(text::show_bool(self.dfu_upload_completed));
        line.append(" ibec-endpoint=");
        line.append(text::show_bool(self.ibec_endpoint_advertised));
        line.append(" stage2-banner=");
        line.append(text::show_bool(self.stage2_banner_observed));
        line.append(" stage2-prompt=");
        line.append(text::show_bool(self.stage2_prompt_observed));
        line.append(" restore-roles=");
        line.append(text::show_decimal(self.restore_role_step_count).as_str());
        line.append(" sequence=");
        line.append(text::show_bool(self.restore_sequence_sent));
        line.append(" bootx-ack=");
        line.append(text::show_bool(self.bootx_acknowledged));
        line.append(" firmware-panic=");
        line.append(text::show_bool(self.firmware_panic_observed));
        line
    }
}

impl RunOutcome {
    fn show_runner(&self) -> (result: String)
        ensures
            result@ == self.runner_line(),
    {
        let mut line = String::from_str("runner: engine=");
        line.append(self.engine.as_str());
        line.append(" completed=");
        line.append(text::show_bool(self.runner_completed));
        line.append(" exit=");
        match self.runner_exit_code {
            Some(code) => line.append(text::show_signed(code).as_str()),
            None => line.append("unavailable"),
        }
        line
    }

    fn show_guest(&self) -> (result: String)
        ensures
            result@ == self.guest_line(),
    {
        let mut line = String::from_str("guest: started=");
        line.append(text::show_bool(self.guest_runtime_started));
        line.append(" terminated=");
        line.append(text::show_bool(self.guest_process_terminated));
        line
    }

    fn show_evidence(&self) -> (result: String)
        ensures
            result@ == self.evidence_line(),
    {
        let mut line = String::from_str("evidence: xnu=");
        line.append(text::show_bool(self.xnu_executed));
        line.append(" userspace=");
        line.append(text::show_bool(self.macos_userspace_reached));
        line.append(" target-match=");
        line.append(text::show_bool(self.guest_target_match));
        line.append(" input-integrity=");
        line.append(text::show_bool(self.input_integrity));
        line
    }

    fn show_verification(&self) -> (result: String)
        ensures
            result@ == self.verification_line(),
    {
        let mut line = String::from_str("installation-verified: ");
        line.append(text::show_bool(self.installation_verified));
        line.append(" graphics-acceleration-verified: ");
        line.append(text::show_bool(self.graphics_acceleration_verified));
        line
    }

    /// The word for the result of a recovery run.
    pub fn result(&self) -> (result: &'static str)
        ensures
            result@ == self.result_text(),
    {
        if self.macos_boot_verified {
            "boot-verified"
        } else if !self.guest_runtime_started {
            "runtime-unconfirmed"
        } else if !self.guest_process_terminated {
            "cleanup-unconfirmed"
        } else if !self.input_integrity {
            "integrity-unconfirmed"
        } else {
            "completed-unverified"
        }
    }

    /// The report of a run, line by line. `receipt` is the shown path of the
    /// receipt.
    pub fn report(&self, receipt: &str) -> (result: Vec<String>)
        ensures
            result.deep_view() == self.report_lines(receipt@),
    {
        let mut lines: Vec<String> = Vec::new();
        assert(lines.deep_view() =~= Seq::<Seq<char>>::empty());
        text::push_line(&mut lines, self.show_runner());
        text::push_line(&mut lines, self.show_guest());
        if let Some(progress) = &self.recovery_progress {
            text::push_line(&mut lines, progress.show());
            text::push_line(&mut lines, text::joined("result: ", self.result()));
        }
        text::push_line(&mut lines, self.show_evidence());
        text::push_line(
            &mut lines,
            text::joined("macos-boot-verified: ", text::show_bool(self.macos_boot_verified)),
        );
        text::push_line(&mut lines, self.show_verification());
        if let Some(failure) = &self.failure {
            text::push_line(&mut lines, text::joined("failure: ", failure.as_str()));
        }
        text::push_line(&mut lines, text::joined("receipt: ", receipt));
        assert(lines.deep_view() =~= self.report_lines(receipt@));
        lines
    }
}

/// The exit status of a run: zero for a verified macOS boot and for nothing
/// else.
pub fn outcome_exit(outcome: &RunOutcome) -> (status: u8)
    ensures
        status == exit_status(outcome.macos_boot_verified),
{
    if outcome.macos_boot_verified {
        0
    } else {
        2
    }
}

/// The exit status that goes with the verdict on the boot.
pub open spec fn exit_status(macos_boot_verified: bool) -> u8 {
    if macos_boot_verified {
        0
    } else {
        2
    }
}

} // verus!
