//! The request that arguments make, field by field, and the sentences for those
//! that make none.
use super::flag::Flag;
use super::options::{Backend, Host};
use super::request::{RequestError, RunArgs, RunnerBackend, RunnerHost, RunnerRequest};
use vstd::prelude::*;

verus! {

/// What every request carries is what was given. An observation timeout that was
/// not given is 60 seconds.
pub proof fn request_carries_the_arguments(args: RunArgs, request: RunnerRequest)
    requires
        call_ensures(RunArgs::into_request, (args,), Ok::<RunnerRequest, RequestError>(request)),
    ensures
        request.repository == args.repository,
        request.vm_json == args.vm_json,
        request.output == args.output,
        request.host_receipt_dir == args.host_receipt_dir,
        request.target_major == args.target,
        args.observation_timeout matches Some(number) ==> request.observation_timeout_secs == number,
        args.observation_timeout is None ==> request.observation_timeout_secs == 60,
        request.duration_secs == args.duration,
        request.research_only == args.research_only,
{
}

/// The request goes to the host that was given, with its Python and, for WSL, its
/// distribution.
pub proof fn request_goes_to_the_host(args: RunArgs, request: RunnerRequest)
    requires
        call_ensures(RunArgs::into_request, (args,), Ok::<RunnerRequest, RequestError>(request)),
    ensures
        request.host is Local <==> args.host == Host::Local,
        request.host is Wsl <==> args.host == Host::Wsl,
        request.host matches RunnerHost::Local { python } ==> {
            &&& python == args.python
            &&& args.distribution is None
        },
        request.host matches RunnerHost::Wsl { distribution, python } ==> {
            &&& python == args.python
            &&& args.distribution == Some(distribution)
        },
{
}

/// Memory and processors of an emulated machine are those that were given, or
/// 4096 MiB and two.
pub open spec fn machine_of(args: RunArgs, memory_mib: u32, smp: u32) -> bool {
    &&& args.memory_mib matches Some(number) ==> memory_mib == number
    &&& args.memory_mib is None ==> memory_mib == 4096
    &&& args.smp matches Some(number) ==> smp == number
    &&& args.smp is None ==> smp == 2
}

/// The request is for the backend that was given, and every field of the backend
/// is the option of its name.
pub proof fn backend_fields_are_the_options(args: RunArgs, request: RunnerRequest)
    requires
        call_ensures(RunArgs::into_request, (args,), Ok::<RunnerRequest, RequestError>(request)),
    ensures
        request.backend is Native <==> args.backend == Backend::LocalNative,
        request.backend is Tcg <==> args.backend == Backend::Tcg,
        request.backend is TcgRecovery <==> args.backend == Backend::TcgRecovery,
        match request.backend {
            RunnerBackend::Native { macosvm } => args.macosvm == Some(macosvm),
            RunnerBackend::Tcg { qemu, qemu_img, firmware, firmware_kind, memory_mib, smp } => {
                &&& args.qemu == Some(qemu)
                &&& args.qemu_img == Some(qemu_img)
                &&& args.firmware == Some(firmware)
                &&& args.firmware_kind == Some(firmware_kind)
                &&& machine_of(args, memory_mib, smp)
            },
            RunnerBackend::TcgRecovery {
                qemu,
                qemu_img,
                firmware,
                memory_mib,
                smp,
                build_manifest,
                tss_helper,
                original_ibss,
                original_ibec,
                restore_role_dir,
                transition_timeout_secs,
                restore_timeout_secs,
                total_timeout_secs,
                optional_rpc_unavailable,
            } => {
                &&& args.qemu == Some(qemu)
                &&& args.qemu_img == Some(qemu_img)
                &&& args.firmware == Some(firmware)
                &&& machine_of(args, memory_mib, smp)
                &&& args.build_manifest == Some(build_manifest)
                &&& args.tss_helper == Some(tss_helper)
                &&& args.original_ibss == Some(original_ibss)
                &&& args.original_ibec == Some(original_ibec)
                &&& args.restore_role_dir == Some(restore_role_dir)
                &&& args.transition_timeout == Some(transition_timeout_secs)
                &&& args.restore_timeout == Some(restore_timeout_secs)
                &&& args.total_timeout == Some(total_timeout_secs)
                &&& args.optional_rpc_unavailable == optional_rpc_unavailable
            },
        },
{
}

/// No option that only a recovery run has was given.
pub open spec fn is_free_of_recovery(args: RunArgs) -> bool {
    &&& args.build_manifest is None
    &&& args.tss_helper is None
    &&& args.original_ibss is None
    &&& args.original_ibec is None
    &&& args.restore_role_dir is None
    &&& args.transition_timeout is None
    &&& args.restore_timeout is None
    &&& args.total_timeout is None
    &&& !args.optional_rpc_unavailable
}

/// The options go with the kind of run.
pub open spec fn options_fit(args: RunArgs) -> bool {
    if args.backend == Backend::TcgRecovery {
        args.firmware_kind is None && args.observation_timeout is None
    } else {
        is_free_of_recovery(args)
    }
}

/// The distribution goes with the host.
pub open spec fn host_fits(args: RunArgs) -> bool {
    args.host == Host::Wsl <==> args.distribution is Some
}

/// The backend can run on the host, with this memory.
pub open spec fn backend_fits(args: RunArgs) -> bool {
    &&& args.backend == Backend::LocalNative ==> args.host == Host::Local
    &&& args.backend == Backend::Tcg ==> (args.memory_mib matches Some(number) ==> 128 <= number
        <= 262144)
}

/// Whether the options before this one, in the order in which a backend asks for
/// them, were given.
pub open spec fn given_before(args: RunArgs, flag: Flag) -> bool {
    let machine = args.qemu is Some && args.qemu_img is Some && args.firmware is Some;
    match flag {
        Flag::Macosvm => true,
        Flag::Qemu => true,
        Flag::QemuImg => args.qemu is Some,
        Flag::Firmware => args.qemu is Some && args.qemu_img is Some,
        Flag::FirmwareKind => machine,
        Flag::BuildManifest => machine,
        Flag::TssHelper => machine && args.build_manifest is Some,
        Flag::OriginalIbss => machine && args.build_manifest is Some && args.tss_helper is Some,
        Flag::OriginalIbec => machine && args.build_manifest is Some && args.tss_helper is Some
            && args.original_ibss is Some,
        Flag::RestoreRoleDir => machine && args.build_manifest is Some && args.tss_helper is Some
            && args.original_ibss is Some && args.original_ibec is Some,
        Flag::TransitionTimeout => machine && args.build_manifest is Some && args.tss_helper is Some
            && args.original_ibss is Some && args.original_ibec is Some
            && args.restore_role_dir is Some,
        Flag::RestoreTimeout => machine && args.build_manifest is Some && args.tss_helper is Some
            && args.original_ibss is Some && args.original_ibec is Some
            && args.restore_role_dir is Some && args.transition_timeout is Some,
        Flag::TotalTimeout => machine && args.build_manifest is Some && args.tss_helper is Some
            && args.original_ibss is Some && args.original_ibec is Some
            && args.restore_role_dir is Some && args.transition_timeout is Some
            && args.restore_timeout is Some,
        _ => false,
    }
}

/// The backend needs the option, which was not given.
pub open spec fn lacks(args: RunArgs, flag: Flag) -> bool {
    let native = args.backend == Backend::LocalNative;
    let raw = args.backend == Backend::Tcg;
    let recovery = args.backend == Backend::TcgRecovery;
    match flag {
        Flag::Macosvm => native && args.macosvm is None,
        Flag::Qemu => (raw || recovery) && args.qemu is None,
        Flag::QemuImg => (raw || recovery) && args.qemu_img is None,
        Flag::Firmware => (raw || recovery) && args.firmware is None,
        Flag::FirmwareKind => raw && args.firmware_kind is None,
        Flag::BuildManifest => recovery && args.build_manifest is None,
        Flag::TssHelper => recovery && args.tss_helper is None,
        Flag::OriginalIbss => recovery && args.original_ibss is None,
        Flag::OriginalIbec => recovery && args.original_ibec is None,
        Flag::RestoreRoleDir => recovery && args.restore_role_dir is None,
        Flag::TransitionTimeout => recovery && args.transition_timeout is None,
        Flag::RestoreTimeout => recovery && args.restore_timeout is None,
        Flag::TotalTimeout => recovery && args.total_timeout is None,
        _ => false,
    }
}

/// Arguments make a request exactly if their options fit the run, the host and
/// the backend, and the backend lacks nothing.
pub proof fn fitting_arguments_make_a_request(
    args: RunArgs,
    result: Result<RunnerRequest, RequestError>,
)
    requires
        call_ensures(RunArgs::into_request, (args,), result),
    ensures
        result is Ok <==> options_fit(args) && host_fits(args) && backend_fits(args) && forall|
            flag: Flag,
        |
            !#[trigger] lacks(args, flag),
{
    match result {
        Err(RequestError::Missing(_, flag)) => {
            assert(lacks(args, flag));
        },
        _ => {},
    }
}

/// Each reason for which arguments make no request is one that they show, and
/// the first: options, host, backend, then what the backend lacks.
pub proof fn refused_arguments_show_the_reason(args: RunArgs, reason: RequestError)
    requires
        call_ensures(RunArgs::into_request, (args,), Err::<RunnerRequest, RequestError>(reason)),
    ensures
        match reason {
            RequestError::RecoveryOptions => args.backend != Backend::TcgRecovery
                && !is_free_of_recovery(args),
            RequestError::RecoveryTimeouts => args.backend == Backend::TcgRecovery && (
            args.firmware_kind is Some || args.observation_timeout is Some),
            RequestError::DistributionWithoutWsl => options_fit(args) && args.host == Host::Local
                && args.distribution is Some,
            RequestError::WslWithoutDistribution => options_fit(args) && args.host == Host::Wsl
                && args.distribution is None,
            RequestError::NativeNotLocal => options_fit(args) && host_fits(args) && args.backend
                == Backend::LocalNative && args.host != Host::Local,
            RequestError::TcgMemory => options_fit(args) && host_fits(args) && args.backend
                == Backend::Tcg && (args.memory_mib matches Some(number) && (number < 128 || number
                > 262144)),
            RequestError::Missing(backend, flag) => {
                &&& options_fit(args) && host_fits(args) && backend_fits(args)
                &&& backend == args.backend
                &&& lacks(args, flag)
                &&& given_before(args, flag)
            },
        },
{
}

/// The sentence for each reason.
pub proof fn reasons_have_these_sentences(reason: RequestError, sentence: String)
    requires
        call_ensures(RequestError::message, (&reason,), sentence),
    ensures
        match reason {
            RequestError::RecoveryOptions => sentence@
                == "recovery options require --backend tcg-recovery"@,
            RequestError::RecoveryTimeouts => sentence@
                == "tcg-recovery uses AVPBooter and phase/total timeouts; omit --firmware-kind and --observation-timeout"@,
            RequestError::DistributionWithoutWsl => sentence@
                == "--distribution requires --host wsl"@,
            RequestError::WslWithoutDistribution => sentence@
                == "--host wsl requires --distribution"@,
            RequestError::NativeNotLocal => sentence@
                == "--backend local-native requires --host local"@,
            RequestError::TcgMemory => sentence@ == "raw TCG memory must be 128..262144 MiB"@,
            RequestError::Missing(Backend::LocalNative, flag) => sentence@
                == "--backend local-native requires "@ + written(flag),
            RequestError::Missing(Backend::Tcg, flag) => sentence@ == "--backend tcg requires "@
                + written(flag),
            RequestError::Missing(Backend::TcgRecovery, flag) => sentence@
                == "tcg-recovery requires "@ + written(flag),
        },
{
}

/// The option as it stands on the command line.
pub open spec fn written(flag: Flag) -> Seq<char> {
    match flag {
        Flag::Backend => "--backend"@,
        Flag::Host => "--host"@,
        Flag::Python => "--python"@,
        Flag::Repository => "--repository"@,
        Flag::VmJson => "--vm-json"@,
        Flag::Output => "--output"@,
        Flag::HostReceiptDir => "--host-receipt-dir"@,
        Flag::Target => "--target"@,
        Flag::ResearchOnly => "--research-only"@,
        Flag::Distribution => "--distribution"@,
        Flag::ObservationTimeout => "--observation-timeout"@,
        Flag::Duration => "--duration"@,
        Flag::Macosvm => "--macosvm"@,
        Flag::Qemu => "--qemu"@,
        Flag::QemuImg => "--qemu-img"@,
        Flag::Firmware => "--firmware"@,
        Flag::FirmwareKind => "--firmware-kind"@,
        Flag::MemoryMib => "--memory-mib"@,
        Flag::Smp => "--smp"@,
        Flag::BuildManifest => "--build-manifest"@,
        Flag::TssHelper => "--tss-helper"@,
        Flag::OriginalIbss => "--original-ibss"@,
        Flag::OriginalIbec => "--original-ibec"@,
        Flag::RestoreRoleDir => "--restore-role-dir"@,
        Flag::TransitionTimeout => "--transition-timeout"@,
        Flag::RestoreTimeout => "--restore-timeout"@,
        Flag::TotalTimeout => "--total-timeout"@,
    }
}

/// An option is named as it stands on the command line.
pub proof fn options_are_named_as_written(flag: Flag, name: &'static str)
    requires
        call_ensures(Flag::name, (&flag,), name),
    ensures
        name@ == written(flag),
{
}

} // verus!
