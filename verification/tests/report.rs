use nextcore_tool::report::{
    build_report, config_report, install_report, policy_report, status_report,
};
use nextcore_tool::text::{joined, show_bool, show_decimal, show_signed};

#[test]
fn numbers_are_shown_in_decimal() {
    for number in [0, 7, 9, 10, 99, 100, 4096, 1234567890, u64::MAX] {
        assert_eq!(show_decimal(number), number.to_string());
    }
    for number in [0, 5, -1, -10, i32::MAX, i32::MIN] {
        assert_eq!(show_signed(number), number.to_string());
    }
    assert_eq!(show_bool(true), "true");
    assert_eq!(show_bool(false), "false");
    assert_eq!(joined("a", "b"), "ab");
}

#[test]
fn short_commands_print_their_lines() {
    assert_eq!(config_report(), "verify: ok");
    assert_eq!(build_report("/out"), "built EFI bundle at /out");
    assert_eq!(
        install_report("/out"),
        [
            "EFI 복사 완료 — macOS에서 계속하세요.",
            "EFI copy complete — continue on macOS.",
            "EFI layout assembled at /out",
            "Run createinstallmedia on macOS to create the install media.",
        ]
    );
    assert_eq!(
        status_report("host", "x86_64", false),
        [
            "mode: host",
            "arch: x86_64",
            "virtualization-backend: unavailable",
            "fail-closed: boot not authorized",
        ]
    );
    assert_eq!(status_report("host", "x86_64", true)[2], "virtualization-backend: available");
    assert_eq!(
        policy_report(None, 8192, "00ff", false),
        [
            "policy ok: profile=none guest-miB=8192 sha256=00ff",
            "boot authorized: false",
        ]
    );
    assert_eq!(
        policy_report(Some("minimal"), 0, "", true)[0],
        "policy ok: profile=minimal guest-miB=0 sha256="
    );
}
