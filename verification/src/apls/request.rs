//! What the runner is asked to do.
use super::flag::Flag;
use super::options::{Backend, Firmware, Host};
use crate::text;
use std::path::PathBuf;
use vstd::prelude::*;

verus! {

/// The arguments of a run.
#[derive(Debug, PartialEq, Eq)]
pub struct RunArgs {
    pub backend: Backend,
    pub host: Host,
    pub python: PathBuf,
    pub distribution: Option<String>,
    pub repository: PathBuf,
    pub vm_json: PathBuf,
    pub output: PathBuf,
    pub host_receipt_dir: PathBuf,
    pub target: u16,
    pub observation_timeout: Option<u32>,
    pub duration: u32,
    pub research_only: bool,
    pub json: bool,
    pub macosvm: Option<PathBuf>,
    pub qemu: Option<PathBuf>,
    pub qemu_img: Option<PathBuf>,
    pub firmware: Option<PathBuf>,
    pub firmware_kind: Option<Firmware>,
    pub memory_mib: Option<u32>,
    pub smp: Option<u32>,
    pub build_manifest: Option<PathBuf>,
    pub tss_helper: Option<PathBuf>,
    pub original_ibss: Option<PathBuf>,
    pub original_ibec: Option<PathBuf>,
    pub restore_role_dir: Option<PathBuf>,
    pub transition_timeout: Option<u32>,
    pub restore_timeout: Option<u32>,
    pub total_timeout: Option<u32>,
    pub optional_rpc_unavailable: bool,
}

/// Where the runner is started, and with which Python.
#[derive(Debug, PartialEq, Eq)]
pub enum RunnerHost {
    Local { python: PathBuf },
    Wsl { distribution: String, python: PathBuf },
}

/// What runs the guest, and on what.
#[derive(Debug, PartialEq, Eq)]
pub enum RunnerBackend {
    Native { macosvm: PathBuf },
    Tcg {
        qemu: PathBuf,
        qemu_img: PathBuf,
        firmware: PathBuf,
        firmware_kind: Firmware,
        memory_mib: u32,
        smp: u32,
    },
    TcgRecovery {
        qemu: PathBuf,
        qemu_img: PathBuf,
        firmware: PathBuf,
        memory_mib: u32,
        smp: u32,
        build_manifest: PathBuf,
        tss_helper: PathBuf,
        original_ibss: PathBuf,
        original_ibec: PathBuf,
        restore_role_dir: PathBuf,
        transition_timeout_secs: u32,
        restore_timeout_secs: u32,
        total_timeout_secs: u32,
        optional_rpc_unavailable: bool,
    },
}

/// A complete request to the runner.
#[derive(Debug, PartialEq, Eq)]
pub struct RunnerRequest {
    pub host: RunnerHost,
    pub backend: RunnerBackend,
    pub repository: PathBuf,
    pub vm_json: PathBuf,
    pub output: PathBuf,
    pub host_receipt_dir: PathBuf,
    pub target_major: u16,
    pub observation_timeout_secs: u32,
    pub duration_secs: u32,
    pub research_only: bool,
}

/// Why arguments make no request.
#[derive(Debug, Clone, Copy, PartialEq, Eq, Structural)]
pub enum RequestError {
    RecoveryOptions,
    RecoveryTimeouts,
    DistributionWithoutWsl,
    WslWithoutDistribution,
    NativeNotLocal,
    TcgMemory,
    /// The backend needs the option.
    Missing(Backend, Flag),
}

/// How the error on a missing option starts.
pub open spec fn missing_prefix(backend: Backend) -> Seq<char> {
    match backend {
        Backend::LocalNative => "--backend local-native requires "@,
        Backend::Tcg => "--backend tcg requires "@,
        Backend::TcgRecovery => "tcg-recovery requires "@,
    }
}

impl RequestError {
    /// The sentence shown for the error.
    pub open spec fn text(self) -> Seq<char> {
        match self {
            RequestError::RecoveryOptions => "recovery options require --backend tcg-recovery"@,
            RequestError::RecoveryTimeouts =>
                "tcg-recovery uses AVPBooter and phase/total timeouts; omit --firmware-kind and --observation-timeout"@,
            RequestError::DistributionWithoutWsl => "--distribution requires --host wsl"@,
            RequestError::WslWithoutDistribution => "--host wsl requires --distribution"@,
            RequestError::NativeNotLocal => "--backend local-native requires --host local"@,
            RequestError::TcgMemory => "raw TCG memory must be 128..262144 MiB"@,
            RequestError::Missing(backend, flag) => missing_prefix(backend) + flag.text(),
        }
    }

    /// Gives the sentence shown for the error.
    pub fn message(&self) -> (result: String)
        ensures
            result@ == self.text(),
    {
        match self {
            RequestError::RecoveryOptions => String::from_str(
                "recovery options require --backend tcg-recovery",
            ),
            RequestError::RecoveryTimeouts => String::from_str(
                "tcg-recovery uses AVPBooter and phase/total timeouts; omit --firmware-kind and --observation-timeout",
            ),
            RequestError::DistributionWithoutWsl => String::from_str(
                "--distribution requires --host wsl",
            ),
            RequestError::WslWithoutDistribution => String::from_str(
                "--host wsl requires --distribution",
            ),
            RequestError::NativeNotLocal => String::from_str(
                "--backend local-native requires --host local",
            ),
            RequestError::TcgMemory => String::from_str("raw TCG memory must be 128..262144 MiB"),
            RequestError::Missing(backend, flag) => text::joined(
                match backend {
                    Backend::LocalNative => "--backend local-native requires ",
                    Backend::Tcg => "--backend tcg requires ",
                    Backend::TcgRecovery => "tcg-recovery requires ",
                },
                flag.name(),
            ),
        }
    }
}

/// A number, or its default.
pub open spec fn number_or(value: Option<u32>, default: u32) -> u32 {
    if value is Some {
        value->0
    } else {
        default
    }
}

impl RunArgs {
    /// Whether an option was given that only a recovery run has.
    pub open spec fn has_recovery_option(self) -> bool {
        ||| self.build_manifest is Some
        ||| self.tss_helper is Some
        ||| self.original_ibss is Some
        ||| self.original_ibec is Some
        ||| self.restore_role_dir is Some
        ||| self.transition_timeout is Some
        ||| self.restore_timeout is Some
        ||| self.total_timeout is Some
        ||| self.optional_rpc_unavailable
    }

    pub open spec fn memory(self) -> u32 {
        number_or(self.memory_mib, 4096)
    }

    pub open spec fn processors(self) -> u32 {
        number_or(self.smp, 2)
    }

    /// The first option that the backend needs and that was not given.
    pub open spec fn first_missing(self) -> Option<Flag> {
        match self.backend {
            Backend::LocalNative => if self.macosvm is None {
                Some(Flag::Macosvm)
            } else {
                None
            },
            Backend::Tcg => if self.qemu is None {
                Some(Flag::Qemu)
            } else if self.qemu_img is None {
                Some(Flag::QemuImg)
            } else if self.firmware is None {
                Some(Flag::Firmware)
            } else if self.firmware_kind is None {
                Some(Flag::FirmwareKind)
            } else {
                None
            },
            Backend::TcgRecovery => if self.qemu is None {
                Some(Flag::Qemu)
            } else if self.qemu_img is None {
                Some(Flag::QemuImg)
            } else if self.firmware is None {
                Some(Flag::Firmware)
            } else if self.build_manifest is None {
                Some(Flag::BuildManifest)
            } else if self.tss_helper is None {
                Some(Flag::TssHelper)
            } else if self.original_ibss is None {
                Some(Flag::OriginalIbss)
            } else if self.original_ibec is None {
                Some(Flag::OriginalIbec)
            } else if self.restore_role_dir is None {
                Some(Flag::RestoreRoleDir)
            } else if self.transition_timeout is None {
                Some(Flag::TransitionTimeout)
            } else if self.restore_timeout is None {
                Some(Flag::RestoreTimeout)
            } else if self.total_timeout is None {
                Some(Flag::TotalTimeout)
            } else {
                None
            },
        }
    }

    /// The first reason for which the arguments make no request.
    pub open spec fn fault(self) -> Option<RequestError> {
        if self.backend != Backend::TcgRecovery && self.has_recovery_option() {
            Some(RequestError::RecoveryOptions)
        } else if self.backend == Backend::TcgRecovery && (self.firmware_kind is Some
            || self.observation_timeout is Some) {
            Some(RequestError::RecoveryTimeouts)
        } else if self.host == Host::Local && self.distribution is Some {
            Some(RequestError::DistributionWithoutWsl)
        } else if self.host == Host::Wsl && self.distribution is None {
            Some(RequestError::WslWithoutDistribution)
        } else if self.backend == Backend::LocalNative && self.host != Host::Local {
            Some(RequestError::NativeNotLocal)
        } else if self.backend == Backend::Tcg && !(128 <= self.memory() <= 262144) {
            Some(RequestError::TcgMemory)
        } else {
            match self.first_missing() {
                Some(flag) => Some(RequestError::Missing(self.backend, flag)),
                None => None,
            }
        }
    }

    pub open spec fn runner_host(self) -> RunnerHost {
        match self.host {
            Host::Local => RunnerHost::Local { python: self.python },
            Host::Wsl => RunnerHost::Wsl {
                distribution: self.distribution->0,
                python: self.python,
            },
        }
    }

    pub open spec fn runner_backend(self) -> RunnerBackend {
        match self.backend {
            Backend::LocalNative => RunnerBackend::Native { macosvm: self.macosvm->0 },
            Backend::Tcg => RunnerBackend::Tcg {
                qemu: self.qemu->0,
                qemu_img: self.qemu_img->0,
                firmware: self.firmware->0,
                firmware_kind: self.firmware_kind->0,
                memory_mib: self.memory(),
                smp: self.processors(),
            },
            Backend::TcgRecovery => RunnerBackend::TcgRecovery {
                qemu: self.qemu->0,
                qemu_img: self.qemu_img->0,
                firmware: self.firmware->0,
                memory_mib: self.memory(),
                smp: self.processors(),
                build_manifest: self.build_manifest->0,
                tss_helper: self.tss_helper->0,
                original_ibss: self.original_ibss->0,
                original_ibec: self.original_ibec->0,
                restore_role_dir: self.restore_role_dir->0,
                transition_timeout_secs: self.transition_timeout->0,
                restore_timeout_secs: self.restore_timeout->0,
                total_timeout_secs: self.total_timeout->0,
                optional_rpc_unavailable: self.optional_rpc_unavailable,
            },
        }
    }

    /// The request that the arguments make.
    pub open spec fn request(self) -> RunnerRequest {
        RunnerRequest {
            host: self.runner_host(),
            backend: self.runner_backend(),
            repository: self.repository,
            vm_json: self.vm_json,
            output: self.output,
            host_receipt_dir: self.host_receipt_dir,
            target_major: self.target,
            observation_timeout_secs: number_or(self.observation_timeout, 60),
            duration_secs: self.duration,
            research_only: self.research_only,
        }
    }

    /// Turns the arguments into a request to the runner. Every path arrives as
    /// it was given.
    pub fn into_request(self) -> (result: Result<RunnerRequest, RequestError>)
        ensures
            match result {
                Ok(request) => self.fault() is None && request == self.request(),
                Err(e) => self.fault() == Some(e),
            },
    {
        if !matches!(self.backend, Backend::TcgRecovery) {
            if self.build_manifest.is_some() || self.tss_helper.is_some()
                || self.original_ibss.is_some() || self.original_ibec.is_some()
                || self.restore_role_dir.is_some() || self.transition_timeout.is_some()
                || self.restore_timeout.is_some() || self.total_timeout.is_some()
                || self.optional_rpc_unavailable {
                return Err(RequestError::RecoveryOptions);
            }
        } else if self.firmware_kind.is_some() || self.observation_timeout.is_some() {
            return Err(RequestError::RecoveryTimeouts);
        }
        let host = match self.host {
            Host::Local => {
                if self.distribution.is_some() {
                    return Err(RequestError::DistributionWithoutWsl);
                }
                RunnerHost::Local { python: self.python }
            },
            Host::Wsl => match self.distribution {
                Some(distribution) => RunnerHost::Wsl { distribution, python: self.python },
                None => return Err(RequestError::WslWithoutDistribution),
            },
        };
        let memory_mib: u32 = self.memory_mib.unwrap_or(4096);
        let smp: u32 = self.smp.unwrap_or(2);
        let backend = match self.backend {
            Backend::LocalNative => {
                if !matches!(host, RunnerHost::Local { .. }) {
                    return Err(RequestError::NativeNotLocal);
                }
                RunnerBackend::Native {
                    macosvm: need(self.macosvm, self.backend, Flag::Macosvm)?,
                }
            },
            Backend::Tcg => {
                if !(128 <= memory_mib && memory_mib <= 262144) {
                    return Err(RequestError::TcgMemory);
                }
                RunnerBackend::Tcg {
                    qemu: need(self.qemu, self.backend, Flag::Qemu)?,
                    qemu_img: need(self.qemu_img, self.backend, Flag::QemuImg)?,
                    firmware: need(self.firmware, self.backend, Flag::Firmware)?,
                    firmware_kind: need(self.firmware_kind, self.backend, Flag::FirmwareKind)?,
                    memory_mib,
                    smp,
                }
            },
            Backend::TcgRecovery => RunnerBackend::TcgRecovery {
                qemu: need(self.qemu, self.backend, Flag::Qemu)?,
                qemu_img: need(self.qemu_img, self.backend, Flag::QemuImg)?,
                firmware: need(self.firmware, self.backend, Flag::Firmware)?,
                memory_mib,
                smp,
                build_manifest: need(self.build_manifest, self.backend, Flag::BuildManifest)?,
                tss_helper: need(self.tss_helper, self.backend, Flag::TssHelper)?,
                original_ibss: need(self.original_ibss, self.backend, Flag::OriginalIbss)?,
                original_ibec: need(self.original_ibec, self.backend, Flag::OriginalIbec)?,
                restore_role_dir: need(self.restore_role_dir, self.backend, Flag::RestoreRoleDir)?,
                transition_timeout_secs: need(
                    self.transition_timeout,
                    self.backend,
                    Flag::TransitionTimeout,
                )?,
                restore_timeout_secs: need(
                    self.restore_timeout,
                    self.backend,
                    Flag::RestoreTimeout,
                )?,
                total_timeout_secs: need(self.total_timeout, self.backend, Flag::TotalTimeout)?,
                optional_rpc_unavailable: self.optional_rpc_unavailable,
            },
        };
        Ok(
            RunnerRequest {
                host,
                backend,
                repository: self.repository,
                vm_json: self.vm_json,
                output: self.output,
                host_receipt_dir: self.host_receipt_dir,
                target_major: self.target,
                observation_timeout_secs: self.observation_timeout.unwrap_or(60),
                duration_secs: self.duration,
                research_only: self.research_only,
            },
        )
    }
}

/// The value of an option that the backend needs.
fn need<T>(value: Option<T>, backend: Backend, flag: Flag) -> (result: Result<T, RequestError>)
    ensures
        result == (match value {
            Some(given) => Ok(given),
            None => Err(RequestError::Missing(backend, flag)),
        }),
{
    match value {
        Some(given) => Ok(given),
        None => Err(RequestError::Missing(backend, flag)),
    }
}

} // verus!
