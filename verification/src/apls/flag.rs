//! The options of a run that its rules speak of.
use vstd::prelude::*;

verus! {

/// An option of a run.
#[derive(Debug, Clone, Copy, PartialEq, Eq, Structural)]
pub enum Flag {
    Backend,
    Host,
    Python,
    Repository,
    VmJson,
    Output,
    HostReceiptDir,
    Target,
    ResearchOnly,
    Distribution,
    ObservationTimeout,
    Duration,
    Macosvm,
    Qemu,
    QemuImg,
    Firmware,
    FirmwareKind,
    MemoryMib,
    Smp,
    BuildManifest,
    TssHelper,
    OriginalIbss,
    OriginalIbec,
    RestoreRoleDir,
    TransitionTimeout,
    RestoreTimeout,
    TotalTimeout,
}

impl Flag {
    /// The option as it is written on the command line.
    pub open spec fn text(self) -> Seq<char> {
        match self {
            Flag::Backend => "--backend"@,
            Flag::Host => "--host"@,
            Flag::Python => "--python"@,
            Flag::Repository => "--repository"@,
            Flag::VmJson => "--vm-json"@,
            Flag::Output => "--output"@,
            Flag::HostReceiptDir => "--host-receipt-dir"@,
            Flag::Target => "--target"@,
            Flag::ResearchOnly => "--research-only"@,
            Flag::Distribution => "--distribution"@,
            Flag::ObservationTimeout => "--observation-timeout"@,
            Flag::Duration => "--duration"@,
            Flag::Macosvm => "--macosvm"@,
            Flag::Qemu => "--qemu"@,
            Flag::QemuImg => "--qemu-img"@,
            Flag::Firmware => "--firmware"@,
            Flag::FirmwareKind => "--firmware-kind"@,
            Flag::MemoryMib => "--memory-mib"@,
            Flag::Smp => "--smp"@,
            Flag::BuildManifest => "--build-manifest"@,
            Flag::TssHelper => "--tss-helper"@,
            Flag::OriginalIbss => "--original-ibss"@,
            Flag::OriginalIbec => "--original-ibec"@,
            Flag::RestoreRoleDir => "--restore-role-dir"@,
            Flag::TransitionTimeout => "--transition-timeout"@,
            Flag::RestoreTimeout => "--restore-timeout"@,
            Flag::TotalTimeout => "--total-timeout"@,
        }
    }

    /// Gives the option as it is written on the command line.
    pub fn name(&self) -> (result: &'static str)
        ensures
            result@ == self.text(),
    {
        match self {
            Flag::Backend => "--backend",
            Flag::Host => "--host",
            Flag::Python => "--python",
            Flag::Repository => "--repository",
            Flag::VmJson => "--vm-json",
            Flag::Output => "--output",
            Flag::HostReceiptDir => "--host-receipt-dir",
            Flag::Target => "--target",
            Flag::ResearchOnly => "--research-only",
            Flag::Distribution => "--distribution",
            Flag::ObservationTimeout => "--observation-timeout",
            Flag::Duration => "--duration",
            Flag::Macosvm => "--macosvm",
            Flag::Qemu => "--qemu",
            Flag::QemuImg => "--qemu-img",
            Flag::Firmware => "--firmware",
            Flag::FirmwareKind => "--firmware-kind",
            Flag::MemoryMib => "--memory-mib",
            Flag::Smp => "--smp",
            Flag::BuildManifest => "--build-manifest",
            Flag::TssHelper => "--tss-helper",
            Flag::OriginalIbss => "--original-ibss",
            Flag::OriginalIbec => "--original-ibec",
            Flag::RestoreRoleDir => "--restore-role-dir",
            Flag::TransitionTimeout => "--transition-timeout",
            Flag::RestoreTimeout => "--restore-timeout",
            Flag::TotalTimeout => "--total-timeout",
        }
    }

    /// Place of the option in the list of all.
    pub open spec fn place(self) -> int {
        match self {
            Flag::Backend => 0,
            Flag::Host => 1,
            Flag::Python => 2,
            Flag::Repository => 3,
            Flag::VmJson => 4,
            Flag::Output => 5,
            Flag::HostReceiptDir => 6,
            Flag::Target => 7,
            Flag::ResearchOnly => 8,
            Flag::Distribution => 9,
            Flag::ObservationTimeout => 10,
            Flag::Duration => 11,
            Flag::Macosvm => 12,
            Flag::Qemu => 13,
            Flag::QemuImg => 14,
            Flag::Firmware => 15,
            Flag::FirmwareKind => 16,
            Flag::MemoryMib => 17,
            Flag::Smp => 18,
            Flag::BuildManifest => 19,
            Flag::TssHelper => 20,
            Flag::OriginalIbss => 21,
            Flag::OriginalIbec => 22,
            Flag::RestoreRoleDir => 23,
            Flag::TransitionTimeout => 24,
            Flag::RestoreTimeout => 25,
            Flag::TotalTimeout => 26,
        }
    }
}

/// All options, in the order in which faults are named.
pub open spec fn all_flags() -> Seq<Flag> {
    seq![
        Flag::Backend,
        Flag::Host,
        Flag::Python,
        Flag::Repository,
        Flag::VmJson,
        Flag::Output,
        Flag::HostReceiptDir,
        Flag::Target,
        Flag::ResearchOnly,
        Flag::Distribution,
        Flag::ObservationTimeout,
        Flag::Duration,
        Flag::Macosvm,
        Flag::Qemu,
        Flag::QemuImg,
        Flag::Firmware,
        Flag::FirmwareKind,
        Flag::MemoryMib,
        Flag::Smp,
        Flag::BuildManifest,
        Flag::TssHelper,
        Flag::OriginalIbss,
        Flag::OriginalIbec,
        Flag::RestoreRoleDir,
        Flag::TransitionTimeout,
        Flag::RestoreTimeout,
        Flag::TotalTimeout,
    ]
}

/// Gives all options, in the order in which faults are named.
pub fn flags() -> (result: Vec<Flag>)
    ensures
        result@ == all_flags(),
{
    let result = vec![
        Flag::Backend,
        Flag::Host,
        Flag::Python,
        Flag::Repository,
        Flag::VmJson,
        Flag::Output,
        Flag::HostReceiptDir,
        Flag::Target,
        Flag::ResearchOnly,
        Flag::Distribution,
        Flag::ObservationTimeout,
        Flag::Duration,
        Flag::Macosvm,
        Flag::Qemu,
        Flag::QemuImg,
        Flag::Firmware,
        Flag::FirmwareKind,
        Flag::MemoryMib,
        Flag::Smp,
        Flag::BuildManifest,
        Flag::TssHelper,
        Flag::OriginalIbss,
        Flag::OriginalIbec,
        Flag::RestoreRoleDir,
        Flag::TransitionTimeout,
        Flag::RestoreTimeout,
        Flag::TotalTimeout,
    ];
    assert(result@ =~= all_flags());
    result
}

/// Every option is in the list.
pub proof fn every_flag_is_listed(flag: Flag)
    ensures
        0 <= flag.place() < all_flags().len(),
        all_flags()[flag.place()] == flag,
        all_flags().contains(flag),
{
    assert(all_flags()[flag.place()] == flag);
}

} // verus!
