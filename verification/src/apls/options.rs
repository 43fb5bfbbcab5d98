//! The command line of a run: what was given, and whether it may be.
use super::flag;
use super::flag::Flag;
use super::request::RunArgs;
use std::path::PathBuf;
use vstd::prelude::*;

verus! {

/// `std::path::PathBuf`, as a closed value: paths are carried from the options
/// to the request as they were given, and nothing is claimed of what is in one.
#[verifier::external_type_specification]
#[verifier::external_body]
pub struct ExPathBuf(std::path::PathBuf);

/// What runs the guest.
#[derive(Debug, Clone, Copy, PartialEq, Eq, Structural)]
pub enum Backend {
    LocalNative,
    Tcg,
    TcgRecovery,
}

/// Where the runner is started.
#[derive(Debug, Clone, Copy, PartialEq, Eq, Structural)]
pub enum Host {
    Local,
    Wsl,
}

/// What the guest firmware image is.
#[derive(Debug, Clone, Copy, PartialEq, Eq, Structural)]
pub enum Firmware {
    Avpbooter,
    IbootStage2,
}

/// The options of a run as they were given, before any rule was applied.
#[derive(Debug, PartialEq, Eq)]
pub struct RunOptions {
    pub backend: Option<Backend>,
    pub host: Option<Host>,
    pub python: Option<PathBuf>,
    pub distribution: Option<String>,
    pub repository: Option<PathBuf>,
    pub vm_json: Option<PathBuf>,
    pub output: Option<PathBuf>,
    pub host_receipt_dir: Option<PathBuf>,
    pub target: Option<u64>,
    pub observation_timeout: Option<u64>,
    pub duration: Option<u64>,
    pub research_only: bool,
    pub json: bool,
    pub macosvm: Option<PathBuf>,
    pub qemu: Option<PathBuf>,
    pub qemu_img: Option<PathBuf>,
    pub firmware: Option<PathBuf>,
    pub firmware_kind: Option<Firmware>,
    pub memory_mib: Option<u64>,
    pub smp: Option<u64>,
    pub build_manifest: Option<PathBuf>,
    pub tss_helper: Option<PathBuf>,
    pub original_ibss: Option<PathBuf>,
    pub original_ibec: Option<PathBuf>,
    pub restore_role_dir: Option<PathBuf>,
    pub transition_timeout: Option<u64>,
    pub restore_timeout: Option<u64>,
    pub total_timeout: Option<u64>,
    pub optional_rpc_unavailable: bool,
    /// The options in the order in which they were given.
    pub order: Vec<Flag>,
}

/// A rule on the options.
#[derive(Debug, Clone, Copy, PartialEq, Eq, Structural)]
pub enum Rule {
    /// A number lies in the range of its option.
    Range,
    /// The native VM tool goes with no option of the emulated machine.
    Exclusion,
    /// An option that is needed is given.
    Presence,
}

/// Why the options are turned down.
#[derive(Debug, PartialEq, Eq)]
pub enum UsageError {
    /// The first number given that is out of its range.
    OutOfRange(Flag),
    /// The first option given that cannot be used together with another one,
    /// and all those that it cannot be used with, as they were given.
    Excluded(Flag, Vec<Flag>),
    /// All options that are needed and were not given.
    Missing(Vec<Flag>),
}

/// The least number that the option takes.
pub open spec fn least(flag: Flag) -> int {
    match flag {
        Flag::Target => 26,
        Flag::MemoryMib => 128,
        Flag::TotalTimeout => 30,
        _ => 1,
    }
}

/// The greatest number that the option takes.
pub open spec fn greatest(flag: Flag) -> int {
    match flag {
        Flag::Target => 27,
        Flag::MemoryMib => 1048576,
        Flag::Smp => 255,
        Flag::TransitionTimeout => 300,
        Flag::RestoreTimeout => 300,
        _ => 86400,
    }
}

/// Whether `--macosvm` rules the option out.
pub open spec fn is_excluded(flag: Flag) -> bool {
    match flag {
        Flag::Qemu
        | Flag::QemuImg
        | Flag::Firmware
        | Flag::FirmwareKind
        | Flag::MemoryMib
        | Flag::Smp
        | Flag::BuildManifest
        | Flag::TssHelper
        | Flag::OriginalIbss
        | Flag::OriginalIbec
        | Flag::RestoreRoleDir => true,
        _ => false,
    }
}

/// A number as it was given, cut to 32 bits.
pub open spec fn short(value: Option<u64>) -> Option<u32> {
    match value {
        Some(number) => Some(number as u32),
        None => None,
    }
}

impl RunOptions {
    /// The number that was given for the option.
    pub open spec fn number(self, flag: Flag) -> Option<u64> {
        match flag {
            Flag::Target => self.target,
            Flag::ObservationTimeout => self.observation_timeout,
            Flag::Duration => self.duration,
            Flag::MemoryMib => self.memory_mib,
            Flag::Smp => self.smp,
            Flag::TransitionTimeout => self.transition_timeout,
            Flag::RestoreTimeout => self.restore_timeout,
            Flag::TotalTimeout => self.total_timeout,
            _ => None,
        }
    }

    /// Whether the option was given.
    pub open spec fn has(self, flag: Flag) -> bool {
        match flag {
            Flag::Backend => self.backend is Some,
            Flag::Host => self.host is Some,
            Flag::Python => self.python is Some,
            Flag::Repository => self.repository is Some,
            Flag::VmJson => self.vm_json is Some,
            Flag::Output => self.output is Some,
            Flag::HostReceiptDir => self.host_receipt_dir is Some,
            Flag::Target => self.target is Some,
            Flag::ResearchOnly => self.research_only,
            Flag::Distribution => self.distribution is Some,
            Flag::ObservationTimeout => self.observation_timeout is Some,
            Flag::Duration => self.duration is Some,
            Flag::Macosvm => self.macosvm is Some,
            Flag::Qemu => self.qemu is Some,
            Flag::QemuImg => self.qemu_img is Some,
            Flag::Firmware => self.firmware is Some,
            Flag::FirmwareKind => self.firmware_kind is Some,
            Flag::MemoryMib => self.memory_mib is Some,
            Flag::Smp => self.smp is Some,
            Flag::BuildManifest => self.build_manifest is Some,
            Flag::TssHelper => self.tss_helper is Some,
            Flag::OriginalIbss => self.original_ibss is Some,
            Flag::OriginalIbec => self.original_ibec is Some,
            Flag::RestoreRoleDir => self.restore_role_dir is Some,
            Flag::TransitionTimeout => self.transition_timeout is Some,
            Flag::RestoreTimeout => self.restore_timeout is Some,
            Flag::TotalTimeout => self.total_timeout is Some,
        }
    }

    /// Whether the option must be given.
    pub open spec fn needs(self, flag: Flag) -> bool {
        match flag {
            Flag::Backend
            | Flag::Host
            | Flag::Python
            | Flag::Repository
            | Flag::VmJson
            | Flag::Output
            | Flag::HostReceiptDir
            | Flag::Target
            | Flag::ResearchOnly => true,
            Flag::Distribution => self.host == Some(Host::Wsl),
            Flag::Macosvm => self.backend == Some(Backend::LocalNative),
            Flag::Qemu | Flag::QemuImg | Flag::Firmware => self.backend == Some(Backend::Tcg)
                || self.backend == Some(Backend::TcgRecovery),
            Flag::FirmwareKind => self.backend == Some(Backend::Tcg),
            Flag::BuildManifest
            | Flag::TssHelper
            | Flag::OriginalIbss
            | Flag::OriginalIbec
            | Flag::RestoreRoleDir
            | Flag::TransitionTimeout
            | Flag::RestoreTimeout
            | Flag::TotalTimeout => self.backend == Some(Backend::TcgRecovery),
            _ => false,
        }
    }

    /// Whether an option of the emulated machine was given.
    pub open spec fn has_excluded(self) -> bool {
        ||| self.qemu is Some
        ||| self.qemu_img is Some
        ||| self.firmware is Some
        ||| self.firmware_kind is Some
        ||| self.memory_mib is Some
        ||| self.smp is Some
        ||| self.build_manifest is Some
        ||| self.tss_helper is Some
        ||| self.original_ibss is Some
        ||| self.original_ibec is Some
        ||| self.restore_role_dir is Some
    }

    /// Whether the option breaks the rule. Two options that exclude each other
    /// both do.
    pub open spec fn breaks(self, rule: Rule, flag: Flag) -> bool {
        match rule {
            Rule::Range => self.number(flag) matches Some(number) && !(least(flag) <= number
                <= greatest(flag)),
            Rule::Exclusion => self.macosvm is Some && if flag == Flag::Macosvm {
                self.has_excluded()
            } else {
                is_excluded(flag) && self.has(flag)
            },
            Rule::Presence => self.needs(flag) && !self.has(flag),
        }
    }

    /// Whether no option breaks any rule.
    pub open spec fn keeps_rules(self) -> bool {
        forall|rule: Rule, flag: Flag| !(#[trigger] self.breaks(rule, flag))
    }

    /// All options, those first whose order is known, in that order.
    pub open spec fn sequence(self) -> Seq<Flag> {
        self.order@ + flag::all_flags().filter(|flag: Flag| !self.order@.contains(flag))
    }

    /// All options in the order in which the rule goes through them: what was
    /// given as it was given, what is missing as it is listed.
    pub open spec fn searched(self, rule: Rule) -> Seq<Flag> {
        match rule {
            Rule::Presence => flag::all_flags(),
            _ => self.sequence(),
        }
    }

    /// All options that break the rule, in order.
    pub open spec fn breaches(self, rule: Rule) -> Seq<Flag> {
        self.searched(rule).filter(|flag: Flag| self.breaks(rule, flag))
    }

    /// The options that the first of those that exclude each other cannot be
    /// used with: every other one for `--macosvm`, and `--macosvm` for every
    /// other one.
    pub open spec fn rivals(self) -> Seq<Flag> {
        if self.breaches(Rule::Exclusion)[0] == Flag::Macosvm {
            self.breaches(Rule::Exclusion).drop_first()
        } else {
            seq![Flag::Macosvm]
        }
    }

    /// The arguments of the run that the options describe.
    pub open spec fn arguments(self) -> RunArgs {
        RunArgs {
            backend: self.backend->0,
            host: self.host->0,
            python: self.python->0,
            distribution: self.distribution,
            repository: self.repository->0,
            vm_json: self.vm_json->0,
            output: self.output->0,
            host_receipt_dir: self.host_receipt_dir->0,
            target: self.target->0 as u16,
            observation_timeout: short(self.observation_timeout),
            duration: if self.duration is Some {
                self.duration->0 as u32
            } else {
                60
            },
            research_only: self.research_only,
            json: self.json,
            macosvm: self.macosvm,
            qemu: self.qemu,
            qemu_img: self.qemu_img,
            firmware: self.firmware,
            firmware_kind: self.firmware_kind,
            memory_mib: short(self.memory_mib),
            smp: short(self.smp),
            build_manifest: self.build_manifest,
            tss_helper: self.tss_helper,
            original_ibss: self.original_ibss,
            original_ibec: self.original_ibec,
            restore_role_dir: self.restore_role_dir,
            transition_timeout: short(self.transition_timeout),
            restore_timeout: short(self.restore_timeout),
            total_timeout: short(self.total_timeout),
            optional_rpc_unavailable: self.optional_rpc_unavailable,
        }
    }

    fn in_range(&self, flag: Flag) -> (result: bool)
        ensures
            result == !self.breaks(Rule::Range, flag),
    {
        match flag {
            Flag::Target => within(self.target, 26, 27),
            Flag::ObservationTimeout => within(self.observation_timeout, 1, 86400),
            Flag::Duration => within(self.duration, 1, 86400),
            Flag::MemoryMib => within(self.memory_mib, 128, 1048576),
            Flag::Smp => within(self.smp, 1, 255),
            Flag::TransitionTimeout => within(self.transition_timeout, 1, 300),
            Flag::RestoreTimeout => within(self.restore_timeout, 1, 300),
            Flag::TotalTimeout => within(self.total_timeout, 30, 86400),
            _ => true,
        }
    }

    fn is_given(&self, flag: Flag) -> (result: bool)
        ensures
            result == self.has(flag),
    {
        match flag {
            Flag::Backend => self.backend.is_some(),
            Flag::Host => self.host.is_some(),
            Flag::Python => self.python.is_some(),
            Flag::Repository => self.repository.is_some(),
            Flag::VmJson => self.vm_json.is_some(),
            Flag::Output => self.output.is_some(),
            Flag::HostReceiptDir => self.host_receipt_dir.is_some(),
            Flag::Target => self.target.is_some(),
            Flag::ResearchOnly => self.research_only,
            Flag::Distribution => self.distribution.is_some(),
            Flag::ObservationTimeout => self.observation_timeout.is_some(),
            Flag::Duration => self.duration.is_some(),
            Flag::Macosvm => self.macosvm.is_some(),
            Flag::Qemu => self.qemu.is_some(),
            Flag::QemuImg => self.qemu_img.is_some(),
            Flag::Firmware => self.firmware.is_some(),
            Flag::FirmwareKind => self.firmware_kind.is_some(),
            Flag::MemoryMib => self.memory_mib.is_some(),
            Flag::Smp => self.smp.is_some(),
            Flag::BuildManifest => self.build_manifest.is_some(),
            Flag::TssHelper => self.tss_helper.is_some(),
            Flag::OriginalIbss => self.original_ibss.is_some(),
            Flag::OriginalIbec => self.original_ibec.is_some(),
            Flag::RestoreRoleDir => self.restore_role_dir.is_some(),
            Flag::TransitionTimeout => self.transition_timeout.is_some(),
            Flag::RestoreTimeout => self.restore_timeout.is_some(),
            Flag::TotalTimeout => self.total_timeout.is_some(),
        }
    }

    fn is_needed(&self, flag: Flag) -> (result: bool)
        ensures
            result == self.needs(flag),
    {
        let wsl = matches!(self.host, Some(Host::Wsl));
        let native = matches!(self.backend, Some(Backend::LocalNative));
        let tcg = matches!(self.backend, Some(Backend::Tcg));
        let recovery = matches!(self.backend, Some(Backend::TcgRecovery));
        match flag {
            Flag::Backend
            | Flag::Host
            | Flag::Python
            | Flag::Repository
            | Flag::VmJson
            | Flag::Output
            | Flag::HostReceiptDir
            | Flag::Target
            | Flag::ResearchOnly => true,
            Flag::Distribution => wsl,
            Flag::Macosvm => native,
            Flag::Qemu | Flag::QemuImg | Flag::Firmware => tcg || recovery,
            Flag::FirmwareKind => tcg,
            Flag::BuildManifest
            | Flag::TssHelper
            | Flag::OriginalIbss
            | Flag::OriginalIbec
            | Flag::RestoreRoleDir
            | Flag::TransitionTimeout
            | Flag::RestoreTimeout
            | Flag::TotalTimeout => recovery,
            _ => false,
        }
    }

    fn is_emulated(&self) -> (result: bool)
        ensures
            result == self.has_excluded(),
    {
        self.qemu.is_some() || self.qemu_img.is_some() || self.firmware.is_some()
            || self.firmware_kind.is_some() || self.memory_mib.is_some() || self.smp.is_some()
            || self.build_manifest.is_some() || self.tss_helper.is_some()
            || self.original_ibss.is_some() || self.original_ibec.is_some()
            || self.restore_role_dir.is_some()
    }

    fn is_broken(&self, rule: Rule, flag: Flag) -> (result: bool)
        ensures
            result == self.breaks(rule, flag),
    {
        match rule {
            Rule::Range => !self.in_range(flag),
            Rule::Exclusion => self.macosvm.is_some() && if matches!(flag, Flag::Macosvm) {
                self.is_emulated()
            } else {
                excluded(flag) && self.is_given(flag)
            },
            Rule::Presence => self.is_needed(flag) && !self.is_given(flag),
        }
    }

    fn is_ordered(&self, flag: Flag) -> (result: bool)
        ensures
            result == self.order@.contains(flag),
    {
        for i in 0..self.order.len()
            invariant
                forall|j: int| 0 <= j < i ==> self.order@[j] != flag,
        {
            if self.order[i] == flag {
                return true;
            }
        }
        false
    }

    fn find_sequence(&self) -> (result: Vec<Flag>)
        ensures
            result@ == self.sequence(),
    {
        let all = flag::flags();
        let ghost unordered = |flag: Flag| !self.order@.contains(flag);
        let mut result: Vec<Flag> = Vec::new();
        for i in 0..self.order.len()
            invariant
                result@ == self.order@.take(i as int),
        {
            result.push(self.order[i]);
            assert(self.order@.take(i + 1).drop_last() =~= self.order@.take(i as int));
            assert(result@ =~= self.order@.take(i + 1));
        }
        assert(self.order@.take(self.order@.len() as int) =~= self.order@);
        assert(all@.take(0).filter(unordered) =~= Seq::<Flag>::empty()) by {
            reveal(Seq::filter);
        }
        for i in 0..all.len()
            invariant
                all@ == flag::all_flags(),
                unordered == (|flag: Flag| !self.order@.contains(flag)),
                result@ == self.order@ + all@.take(i as int).filter(unordered),
        {
            reveal(Seq::filter);
            assert(all@.take(i + 1).drop_last() =~= all@.take(i as int));
            if !self.is_ordered(all[i]) {
                result.push(all[i]);
            }
        }
        assert(all@.take(all@.len() as int) =~= all@);
        result
    }

    /// All options that break the rule, in order.
    pub fn find_breaches(&self, rule: Rule) -> (result: Vec<Flag>)
        ensures
            result@ == self.breaches(rule),
    {
        let all = match rule {
            Rule::Presence => flag::flags(),
            _ => self.find_sequence(),
        };
        let ghost broken = |flag: Flag| self.breaks(rule, flag);
        let mut result: Vec<Flag> = Vec::new();
        assert(all@.take(0).filter(broken) =~= Seq::<Flag>::empty()) by {
            reveal(Seq::filter);
        }
        for i in 0..all.len()
            invariant
                all@ == self.searched(rule),
                broken == (|flag: Flag| self.breaks(rule, flag)),
                result@ == all@.take(i as int).filter(broken),
        {
            reveal(Seq::filter);
            assert(all@.take(i + 1).drop_last() =~= all@.take(i as int));
            if self.is_broken(rule, all[i]) {
                result.push(all[i]);
            }
        }
        assert(all@.take(all@.len() as int) =~= all@);
        result
    }

    /// Applies the rules: numbers first, what excludes each other next, what is
    /// missing last.
    pub fn check(self) -> (result: Result<RunArgs, UsageError>)
        ensures
            result is Ok <==> self.keeps_rules(),
            match result {
                Err(UsageError::OutOfRange(flag)) => self.breaches(Rule::Range).len() > 0 && flag
                    == self.breaches(Rule::Range)[0],
                Err(UsageError::Excluded(flag, rivals)) => {
                    &&& self.breaches(Rule::Range).len() == 0
                    &&& self.breaches(Rule::Exclusion).len() > 0
                    &&& flag == self.breaches(Rule::Exclusion)[0]
                    &&& rivals@ == self.rivals()
                },
                Err(UsageError::Missing(flags)) => {
                    &&& self.breaches(Rule::Range).len() == 0
                    &&& self.breaches(Rule::Exclusion).len() == 0
                    &&& self.breaches(Rule::Presence).len() > 0
                    &&& flags@ == self.breaches(Rule::Presence)
                },
                Ok(args) => args == self.arguments(),
            },
    {
        proof {
            assert forall|rule: Rule| self.keeps_rules() implies #[trigger] self.breaches(
                rule,
            ).len() == 0 by {
                if self.breaches(rule).len() > 0 {
                    breaches_are_what_is_broken(self, rule, self.breaches(rule)[0]);
                }
            }
        }
        let ranges = self.find_breaches(Rule::Range);
        if ranges.len() > 0 {
            return Err(UsageError::OutOfRange(ranges[0]));
        }
        let exclusions = self.find_breaches(Rule::Exclusion);
        if exclusions.len() > 0 {
            let first = exclusions[0];
            let rivals = if matches!(first, Flag::Macosvm) {
                without_first(exclusions)
            } else {
                vec![Flag::Macosvm]
            };
            return Err(UsageError::Excluded(first, rivals));
        }
        let missing = self.find_breaches(Rule::Presence);
        if missing.len() > 0 {
            return Err(UsageError::Missing(missing));
        }
        proof {
            assert forall|rule: Rule, flag: Flag| !(#[trigger] self.breaks(rule, flag)) by {
                breaches_are_what_is_broken(self, rule, flag);
                match rule {
                    Rule::Range => {},
                    Rule::Exclusion => {},
                    Rule::Presence => {},
                }
            }
            assert(!self.breaks(Rule::Presence, Flag::Backend));
            assert(!self.breaks(Rule::Presence, Flag::Host));
            assert(!self.breaks(Rule::Presence, Flag::Python));
            assert(!self.breaks(Rule::Presence, Flag::Repository));
            assert(!self.breaks(Rule::Presence, Flag::VmJson));
            assert(!self.breaks(Rule::Presence, Flag::Output));
            assert(!self.breaks(Rule::Presence, Flag::HostReceiptDir));
            assert(!self.breaks(Rule::Presence, Flag::Target));
        }
        Ok(
            RunArgs {
                backend: self.backend.unwrap(),
                host: self.host.unwrap(),
                python: self.python.unwrap(),
                distribution: self.distribution,
                repository: self.repository.unwrap(),
                vm_json: self.vm_json.unwrap(),
                output: self.output.unwrap(),
                host_receipt_dir: self.host_receipt_dir.unwrap(),
                target: self.target.unwrap() as u16,
                observation_timeout: shortened(self.observation_timeout),
                duration: match self.duration {
                    Some(number) => number as u32,
                    None => 60,
                },
                research_only: self.research_only,
                json: self.json,
                macosvm: self.macosvm,
                qemu: self.qemu,
                qemu_img: self.qemu_img,
                firmware: self.firmware,
                firmware_kind: self.firmware_kind,
                memory_mib: shortened(self.memory_mib),
                smp: shortened(self.smp),
                build_manifest: self.build_manifest,
                tss_helper: self.tss_helper,
                original_ibss: self.original_ibss,
                original_ibec: self.original_ibec,
                restore_role_dir: self.restore_role_dir,
                transition_timeout: shortened(self.transition_timeout),
                restore_timeout: shortened(self.restore_timeout),
                total_timeout: shortened(self.total_timeout),
                optional_rpc_unavailable: self.optional_rpc_unavailable,
            },
        )
    }
}

fn within(value: Option<u64>, low: u64, high: u64) -> (result: bool)
    ensures
        result == !(value matches Some(number) && !(low <= number <= high)),
{
    match value {
        Some(number) => low <= number && number <= high,
        None => true,
    }
}

fn shortened(value: Option<u64>) -> (result: Option<u32>)
    ensures
        result == short(value),
{
    match value {
        Some(number) => Some(number as u32),
        None => None,
    }
}

fn without_first(flags: Vec<Flag>) -> (result: Vec<Flag>)
    requires
        flags@.len() > 0,
    ensures
        result@ == flags@.drop_first(),
{
    let mut flags = flags;
    flags.remove(0);
    flags
}

fn excluded(flag: Flag) -> (result: bool)
    ensures
        result == is_excluded(flag),
{
    matches!(
        flag,
        Flag::Qemu | Flag::QemuImg | Flag::Firmware | Flag::FirmwareKind | Flag::MemoryMib
            | Flag::Smp | Flag::BuildManifest | Flag::TssHelper | Flag::OriginalIbss
            | Flag::OriginalIbec | Flag::RestoreRoleDir
    )
}

/// Whatever the order, every option is gone through.
proof fn lemma_all_are_searched(options: RunOptions, rule: Rule, flag: Flag)
    ensures
        options.searched(rule).contains(flag),
{
    let all = flag::all_flags();
    let ordered = options.order@;
    let unordered = |flag: Flag| !ordered.contains(flag);
    let rest = all.filter(unordered);
    flag::every_flag_is_listed(flag);
    if ordered.contains(flag) {
        assert(options.sequence()[ordered.index_of(flag)] == flag);
    } else {
        all.lemma_filter_contains(unordered, flag.place());
        assert(options.sequence()[ordered.len() as int + rest.index_of(flag)] == flag);
    }
}

/// The options named for a rule are exactly those that break it, in whatever
/// order they were given.
pub proof fn breaches_are_what_is_broken(options: RunOptions, rule: Rule, flag: Flag)
    ensures
        options.breaches(rule).contains(flag) <==> options.breaks(rule, flag),
        options.breaks(rule, flag) ==> options.breaches(rule).len() > 0,
{
    let all = options.searched(rule);
    let broken = |flag: Flag| options.breaks(rule, flag);
    lemma_all_are_searched(options, rule, flag);
    if broken(flag) {
        all.lemma_filter_contains(broken, all.index_of(flag));
    }
    if options.breaches(rule).contains(flag) {
        let place = options.breaches(rule).index_of(flag);
        all.lemma_filter_pred(broken, place);
    }
}

} // verus!
