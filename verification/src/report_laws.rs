//! What the short commands print, line by line.
use crate::report;
use crate::text;
use vstd::prelude::*;

verus! {

/// The status of the environment takes four lines: the mode, the architecture,
/// whether there is a virtualization backend, and that boot is not authorized,
/// whatever the state.
pub proof fn status_never_authorizes_boot(
    mode: &str,
    arch: &str,
    available: bool,
    lines: Vec<String>,
)
    requires
        call_ensures(report::status_report, (mode, arch, available), lines),
    ensures
        lines.deep_view().len() == 4,
        lines.deep_view()[0] == "mode: "@ + mode@,
        lines.deep_view()[1] == "arch: "@ + arch@,
        available ==> lines.deep_view()[2] == "virtualization-backend: available"@,
        !available ==> lines.deep_view()[2] == "virtualization-backend: unavailable"@,
        lines.deep_view().last() == "fail-closed: boot not authorized"@,
{
    reveal_strlit("virtualization-backend: ");
    reveal_strlit("available");
    reveal_strlit("unavailable");
    reveal_strlit("virtualization-backend: available");
    reveal_strlit("virtualization-backend: unavailable");
    assert("virtualization-backend: "@ + "available"@ =~= "virtualization-backend: available"@);
    assert("virtualization-backend: "@ + "unavailable"@
        =~= "virtualization-backend: unavailable"@);
}

/// A policy takes two lines: what it is, and whether it authorizes boot, which is
/// said to be so exactly if it does.
pub proof fn policy_says_whether_boot_is_authorized(
    profile: Option<&str>,
    guest_mib: u64,
    sha256: &str,
    authorized: bool,
    lines: Vec<String>,
)
    requires
        call_ensures(report::policy_report, (profile, guest_mib, sha256, authorized), lines),
    ensures
        lines.deep_view().len() == 2,
        profile matches Some(name) ==> lines.deep_view()[0] == "policy ok: profile="@ + name@
            + " guest-miB="@ + text::decimal_text(guest_mib as nat) + " sha256="@ + sha256@,
        profile is None ==> lines.deep_view()[0] == "policy ok: profile="@ + "none"@
            + " guest-miB="@ + text::decimal_text(guest_mib as nat) + " sha256="@ + sha256@,
        lines.deep_view()[1] == "boot authorized: true"@ <==> authorized,
        lines.deep_view()[1] == "boot authorized: false"@ <==> !authorized,
{
    reveal_strlit("boot authorized: ");
    reveal_strlit("true");
    reveal_strlit("false");
    reveal_strlit("boot authorized: true");
    reveal_strlit("boot authorized: false");
    assert("boot authorized: "@ + "true"@ =~= "boot authorized: true"@);
    assert("boot authorized: "@ + "false"@ =~= "boot authorized: false"@);
    assert("boot authorized: true"@.len() != "boot authorized: false"@.len());
}

/// Install media take four lines: in two languages that the copy is complete and
/// macOS goes on, where the files are, and what to run there.
pub proof fn install_media_are_left_to_macos(out: &str, lines: Vec<String>)
    requires
        call_ensures(report::install_report, (out,), lines),
    ensures
        lines.deep_view().len() == 4,
        lines.deep_view()[0] == "EFI 복사 완료 — macOS에서 계속하세요."@,
        lines.deep_view()[1] == "EFI copy complete — continue on macOS."@,
        lines.deep_view()[2] == "EFI layout assembled at "@ + out@,
        lines.deep_view()[3] == "Run createinstallmedia on macOS to create the install media."@,
{
}

/// A built bundle is named with its place.
pub proof fn built_bundle_is_named(out: &str, line: String)
    requires
        call_ensures(report::build_report, (out,), line),
    ensures
        line@ == "built EFI bundle at "@ + out@,
{
}

/// A valid configuration is said to be so.
pub proof fn valid_configuration_is_confirmed(line: &'static str)
    requires
        call_ensures(report::config_report, (), line),
    ensures
        line@ == "verify: ok"@,
{
}

} // verus!
