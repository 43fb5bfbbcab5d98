//! What the short commands print.
use crate::text;
use vstd::prelude::*;

verus! {

/// What is printed for a configuration that is valid.
pub fn config_report() -> (result: &'static str)
    ensures
        result@ == "verify: ok"@,
{
    "verify: ok"
}

/// What is printed for a bundle that was built. `out` is the shown path of the
/// bundle.
pub fn build_report(out: &str) -> (result: String)
    ensures
        result@ == "built EFI bundle at "@ + out@,
{
    text::joined("built EFI bundle at ", out)
}

/// What is printed for install media that were prepared.
pub open spec fn install_lines(out: Seq<char>) -> Seq<Seq<char>> {
    seq![
        "EFI 복사 완료 — macOS에서 계속하세요."@,
        "EFI copy complete — continue on macOS."@,
        "EFI layout assembled at "@ + out,
        "Run createinstallmedia on macOS to create the install media."@,
    ]
}

/// Gives what is printed for install media that were prepared.
pub fn install_report(out: &str) -> (result: Vec<String>)
    ensures
        result.deep_view() == install_lines(out@),
{
    let mut lines: Vec<String> = Vec::new();
    assert(lines.deep_view() =~= Seq::<Seq<char>>::empty());
    text::push_line(&mut lines, String::from_str("EFI 복사 완료 — macOS에서 계속하세요."));
    text::push_line(&mut lines, String::from_str("EFI copy complete — continue on macOS."));
    text::push_line(&mut lines, text::joined("EFI layout assembled at ", out));
    text::push_line(
        &mut lines,
        String::from_str("Run createinstallmedia on macOS to create the install media."),
    );
    assert(lines.deep_view() =~= install_lines(out@));
    lines
}

/// What is printed for the state of the environment. Boot is not authorized,
/// whatever the state.
pub open spec fn status_lines(mode: Seq<char>, arch: Seq<char>, available: bool) -> Seq<Seq<char>> {
    seq![
        "mode: "@ + mode,
        "arch: "@ + arch,
        "virtualization-backend: "@ + if available {
            "available"@
        } else {
            "unavailable"@
        },
        "fail-closed: boot not authorized"@,
    ]
}

/// Gives what is printed for the state of the environment.
pub fn status_report(mode: &str, arch: &str, available: bool) -> (result: Vec<String>)
    ensures
        result.deep_view() == status_lines(mode@, arch@, available),
{
    let mut lines: Vec<String> = Vec::new();
    assert(lines.deep_view() =~= Seq::<Seq<char>>::empty());
    text::push_line(&mut lines, text::joined("mode: ", mode));
    text::push_line(&mut lines, text::joined("arch: ", arch));
    let state = if available {
        "available"
    } else {
        "unavailable"
    };
    text::push_line(&mut lines, text::joined("virtualization-backend: ", state));
    text::push_line(&mut lines, String::from_str("fail-closed: boot not authorized"));
    assert(lines.deep_view() =~= status_lines(mode@, arch@, available));
    lines
}

/// What is printed for a policy that was accepted.
pub open spec fn policy_lines(
    profile: Option<Seq<char>>,
    guest_mib: nat,
    sha256: Seq<char>,
    authorized: bool,
) -> Seq<Seq<char>> {
    seq![
        "policy ok: profile="@ + (if profile is Some {
            profile->0
        } else {
            "none"@
        }) + " guest-miB="@ + text::decimal_text(guest_mib) + " sha256="@ + sha256,
        "boot authorized: "@ + text::bool_text(authorized),
    ]
}

/// Gives what is printed for a policy that was accepted.
pub fn policy_report(
    profile: Option<&str>,
    guest_mib: u64,
    sha256: &str,
    authorized: bool,
) -> (result: Vec<String>)
    ensures
        result.deep_view() == policy_lines(
            (match profile {
                Some(name) => Some(name@),
                None => None,
            }),
            guest_mib as nat,
            sha256@,
            authorized,
        ),
{
    let mut line = String::from_str("policy ok: profile=");
    match profile {
        Some(name) => line.append(name),
        None => line.append("none"),
    }
    line.append(" guest-miB=");
    line.append(text::show_decimal(guest_mib).as_str());
    line.append(" sha256=");
    line.append(sha256);
    let mut lines: Vec<String> = Vec::new();
    assert(lines.deep_view() =~= Seq::<Seq<char>>::empty());
    text::push_line(&mut lines, line);
    text::push_line(&mut lines, text::joined("boot authorized: ", text::show_bool(authorized)));
    let ghost name = match profile {
        Some(name) => Some(name@),
        None => None,
    };
    assert(lines.deep_view() =~= policy_lines(name, guest_mib as nat, sha256@, authorized));
    lines
}

} // verus!
