use std::path::PathBuf;

use nextcore_tool::apls::flag::flags;
use nextcore_tool::apls::{
    outcome_exit, receipt_file, Backend, Firmware, Flag, Host, RecoveryProgress, RequestError,
    Rule, RunArgs, RunOptions, RunOutcome, RunnerBackend, RunnerHost, UsageError,
};

fn arguments() -> Vec<String> {
    [
        "nextcore-tool",
        "apls",
        "run",
        "--backend",
        "tcg",
        "--host",
        "local",
        "--python",
        "python3",
        "--repository",
        "/workspace with spaces/repository",
        "--vm-json",
        "/input with spaces/vm.json",
        "--output",
        "/output/run",
        "--host-receipt-dir",
        "/host/receipts",
        "--target",
        "27",
        "--qemu",
        "/qemu custom/qemu-system-aarch64",
        "--qemu-img",
        "/qemu/qemu-img",
        "--firmware",
        "/input/firmware.bin",
        "--firmware-kind",
        "iboot-stage2",
        "--observation-timeout",
        "5",
        "--duration",
        "7",
        "--memory-mib",
        "8192",
        "--smp",
        "4",
        "--research-only",
    ]
    .into_iter()
    .map(String::from)
    .collect()
}

fn no_options() -> RunOptions {
    RunOptions {
        backend: None,
        host: None,
        python: None,
        distribution: None,
        repository: None,
        vm_json: None,
        output: None,
        host_receipt_dir: None,
        target: None,
        observation_timeout: None,
        duration: None,
        research_only: false,
        json: false,
        macosvm: None,
        qemu: None,
        qemu_img: None,
        firmware: None,
        firmware_kind: None,
        memory_mib: None,
        smp: None,
        build_manifest: None,
        tss_helper: None,
        original_ibss: None,
        original_ibec: None,
        restore_role_dir: None,
        transition_timeout: None,
        restore_timeout: None,
        total_timeout: None,
        optional_rpc_unavailable: false,
        order: Vec::new(),
    }
}

/// The options that the words stand for: pairs of option and value, and
/// switches.
fn options(args: &[String]) -> RunOptions {
    let mut result = no_options();
    let mut words = args[3..].iter();
    while let Some(flag) = words.next() {
        result.order.extend(flags().into_iter().filter(|known| known.name() == flag));
        match flag.as_str() {
            "--research-only" => {
                result.research_only = true;
                continue;
            }
            "--json" => {
                result.json = true;
                continue;
            }
            "--optional-rpc-unavailable" => {
                result.optional_rpc_unavailable = true;
                continue;
            }
            _ => {}
        }
        let value = words.next().unwrap();
        let path = Some(PathBuf::from(value));
        let number = || Some(value.parse::<u64>().unwrap());
        match flag.as_str() {
            "--backend" => {
                result.backend = Some(match value.as_str() {
                    "local-native" => Backend::LocalNative,
                    "tcg" => Backend::Tcg,
                    "tcg-recovery" => Backend::TcgRecovery,
                    other => panic!("backend {other}"),
                })
            }
            "--host" => {
                result.host = Some(match value.as_str() {
                    "local" => Host::Local,
                    "wsl" => Host::Wsl,
                    other => panic!("host {other}"),
                })
            }
            "--firmware-kind" => {
                result.firmware_kind = Some(match value.as_str() {
                    "avpbooter" => Firmware::Avpbooter,
                    "iboot-stage2" => Firmware::IbootStage2,
                    other => panic!("firmware {other}"),
                })
            }
            "--distribution" => result.distribution = Some(value.clone()),
            "--python" => result.python = path,
            "--repository" => result.repository = path,
            "--vm-json" => result.vm_json = path,
            "--output" => result.output = path,
            "--host-receipt-dir" => result.host_receipt_dir = path,
            "--macosvm" => result.macosvm = path,
            "--qemu" => result.qemu = path,
            "--qemu-img" => result.qemu_img = path,
            "--firmware" => result.firmware = path,
            "--build-manifest" => result.build_manifest = path,
            "--tss-helper" => result.tss_helper = path,
            "--original-ibss" => result.original_ibss = path,
            "--original-ibec" => result.original_ibec = path,
            "--restore-role-dir" => result.restore_role_dir = path,
            "--target" => result.target = number(),
            "--observation-timeout" => result.observation_timeout = number(),
            "--duration" => result.duration = number(),
            "--memory-mib" => result.memory_mib = number(),
            "--smp" => result.smp = number(),
            "--transition-timeout" => result.transition_timeout = number(),
            "--restore-timeout" => result.restore_timeout = number(),
            "--total-timeout" => result.total_timeout = number(),
            other => panic!("option {other}"),
        }
    }
    result
}

fn parsed(args: &[String]) -> Result<RunArgs, UsageError> {
    options(args).check()
}

fn replace(args: &mut [String], flag: &str, value: &str) {
    let position = args.iter().position(|s| s == flag).unwrap();
    args[position + 1] = value.into();
}

fn remove(args: &mut Vec<String>, flag: &str, has_value: bool) {
    let position = args.iter().position(|s| s == flag).unwrap();
    args.drain(position..position + if has_value { 2 } else { 1 });
}

#[test]
fn local_tcg_options_reach_shared_runner_without_path_splitting() {
    let request = parsed(&arguments()).unwrap().into_request().unwrap();
    assert_eq!(request.target_major, 27);
    assert_eq!(request.observation_timeout_secs, 5);
    assert_eq!(request.duration_secs, 7);
    assert_eq!(request.host_receipt_dir, PathBuf::from("/host/receipts"));
    assert!(request.research_only);
    assert_eq!(
        request.host,
        RunnerHost::Local {
            python: PathBuf::from("python3")
        }
    );
    assert_eq!(
        request.repository,
        PathBuf::from("/workspace with spaces/repository")
    );
    assert_eq!(request.vm_json, PathBuf::from("/input with spaces/vm.json"));
    assert_eq!(request.output, PathBuf::from("/output/run"));
    assert_eq!(
        request.backend,
        RunnerBackend::Tcg {
            qemu: PathBuf::from("/qemu custom/qemu-system-aarch64"),
            qemu_img: PathBuf::from("/qemu/qemu-img"),
            firmware: PathBuf::from("/input/firmware.bin"),
            firmware_kind: Firmware::IbootStage2,
            memory_mib: 8192,
            smp: 4,
        }
    );
}

#[test]
fn incomplete_or_invalid_requests_are_rejected_without_launching() {
    for flag in [
        "--python",
        "--qemu",
        "--qemu-img",
        "--firmware",
        "--firmware-kind",
        "--target",
        "--host-receipt-dir",
        "--research-only",
    ] {
        let mut args = arguments();
        remove(&mut args, flag, flag != "--research-only");
        assert!(parsed(&args).is_err(), "accepted missing {flag}");
    }
    for (flag, value) in [
        ("--target", "25"),
        ("--target", "28"),
        ("--duration", "0"),
        ("--observation-timeout", "86401"),
        ("--memory-mib", "127"),
        ("--smp", "0"),
    ] {
        let mut args = arguments();
        replace(&mut args, flag, value);
        assert!(parsed(&args).is_err(), "accepted {flag}={value}");
    }
    let mut args = arguments();
    args.extend(["--distribution".into(), "Ubuntu".into()]);
    assert!(parsed(&args).unwrap().into_request().is_err());
}

#[test]
fn wsl_requires_distribution_and_preserves_linux_paths() {
    let mut args = arguments();
    replace(&mut args, "--host", "wsl");
    assert!(parsed(&args).is_err());
    args.extend(["--distribution".into(), "Ubuntu-24.04".into()]);
    let request = parsed(&args).unwrap().into_request().unwrap();
    assert!(
        matches!(&request.host, RunnerHost::Wsl { distribution, python } if distribution == "Ubuntu-24.04" && python == PathBuf::from("python3").as_path())
    );
    assert_eq!(
        request.repository,
        PathBuf::from("/workspace with spaces/repository")
    );
}

#[test]
fn native_selection_is_explicit_and_cannot_use_tcg_or_wsl_options() {
    let mut args = arguments();
    replace(&mut args, "--backend", "local-native");
    assert!(parsed(&args).is_err());
    for flag in [
        "--qemu",
        "--qemu-img",
        "--firmware",
        "--firmware-kind",
        "--memory-mib",
        "--smp",
    ] {
        remove(&mut args, flag, true);
    }
    args.extend(["--macosvm".into(), "/bin/macosvm".into()]);
    let request = parsed(&args).unwrap().into_request().unwrap();
    assert!(matches!(request.backend, RunnerBackend::Native { .. }));
    replace(&mut args, "--host", "wsl");
    args.extend(["--distribution".into(), "Ubuntu".into()]);
    assert!(parsed(&args).unwrap().into_request().is_err());
}

fn outcome() -> RunOutcome {
    RunOutcome {
        runner_exit_code: Some(0),
        runner_completed: true,
        engine: "qemu-vmapple-tcg".into(),
        guest_runtime_started: true,
        guest_process_terminated: true,
        xnu_executed: false,
        macos_userspace_reached: false,
        guest_target_match: false,
        input_integrity: true,
        macos_boot_verified: false,
        installation_verified: false,
        graphics_acceleration_verified: false,
        recovery_progress: None,
        failure: Some("boot evidence is incomplete".into()),
    }
}

#[test]
fn successful_worker_exit_is_not_a_successful_boot_exit() {
    let mut outcome = outcome();
    assert_eq!(outcome_exit(&outcome), 2);
    // The runner owns this verdict. This only tests the exit mapping.
    outcome.macos_boot_verified = true;
    assert_eq!(outcome_exit(&outcome), 0);
}

fn recovery_arguments() -> Vec<String> {
    let mut args = arguments();
    replace(&mut args, "--backend", "tcg-recovery");
    remove(&mut args, "--firmware-kind", true);
    remove(&mut args, "--observation-timeout", true);
    for (flag, value) in [
        ("--build-manifest", "/original inputs/BuildManifest.plist"),
        ("--tss-helper", "/local helpers/request encoder"),
        ("--original-ibss", "/original inputs/iBSS.im4p"),
        ("--original-ibec", "/original inputs/iBEC.im4p"),
        ("--restore-role-dir", "/original inputs/restore roles"),
        ("--transition-timeout", "20"),
        ("--restore-timeout", "30"),
        ("--total-timeout", "75"),
    ] {
        args.extend([flag.into(), value.into()]);
    }
    args
}

#[test]
fn explicit_recovery_options_map_to_supervisor_and_default_rpc_off() {
    let mut args = recovery_arguments();
    let request = parsed(&args).unwrap().into_request().unwrap();
    assert_eq!(request.duration_secs, 7);
    assert!(matches!(
        &request.backend,
        RunnerBackend::TcgRecovery {
            transition_timeout_secs: 20,
            restore_timeout_secs: 30,
            total_timeout_secs: 75,
            optional_rpc_unavailable: false,
            memory_mib: 8192,
            smp: 4,
            ..
        }
    ));
    let RunnerBackend::TcgRecovery {
        build_manifest,
        tss_helper,
        original_ibss,
        original_ibec,
        restore_role_dir,
        ..
    } = &request.backend
    else {
        panic!("expected a recovery run");
    };
    for (given, path) in [
        (build_manifest, "/original inputs/BuildManifest.plist"),
        (tss_helper, "/local helpers/request encoder"),
        (original_ibss, "/original inputs/iBSS.im4p"),
        (original_ibec, "/original inputs/iBEC.im4p"),
        (restore_role_dir, "/original inputs/restore roles"),
    ] {
        assert_eq!(given, &PathBuf::from(path));
    }
    args.push("--optional-rpc-unavailable".into());
    let request = parsed(&args).unwrap().into_request().unwrap();
    assert!(matches!(
        &request.backend,
        RunnerBackend::TcgRecovery {
            optional_rpc_unavailable: true,
            ..
        }
    ));
}

#[test]
fn recovery_requires_all_inputs_and_rejects_raw_backend_options() {
    for flag in [
        "--qemu",
        "--qemu-img",
        "--firmware",
        "--build-manifest",
        "--tss-helper",
        "--original-ibss",
        "--original-ibec",
        "--restore-role-dir",
        "--transition-timeout",
        "--restore-timeout",
        "--total-timeout",
    ] {
        let mut args = recovery_arguments();
        remove(&mut args, flag, true);
        assert!(parsed(&args).is_err(), "accepted missing {flag}");
    }
    for (flag, value) in [
        ("--firmware-kind", "avpbooter"),
        ("--observation-timeout", "10"),
    ] {
        let mut args = recovery_arguments();
        args.extend([flag.into(), value.into()]);
        assert!(parsed(&args).unwrap().into_request().is_err());
    }
    let mut raw = arguments();
    replace(&mut raw, "--firmware-kind", "avpbooter");
    assert!(matches!(
        parsed(&raw).unwrap().into_request().unwrap().backend,
        RunnerBackend::Tcg { .. }
    ));
    raw.push("--optional-rpc-unavailable".into());
    assert!(parsed(&raw).unwrap().into_request().is_err());
}

#[test]
fn recovery_validation_keeps_post_and_total_budgets_distinct() {
    for (flag, value, expected) in [
        ("--transition-timeout", "301", Flag::TransitionTimeout),
        ("--restore-timeout", "0", Flag::RestoreTimeout),
        ("--total-timeout", "29", Flag::TotalTimeout),
    ] {
        let mut args = recovery_arguments();
        replace(&mut args, flag, value);
        assert_eq!(parsed(&args), Err(UsageError::OutOfRange(expected)), "accepted {flag}={value}");
    }
    let mut args = recovery_arguments();
    replace(&mut args, "--duration", "69");
    let request = parsed(&args).unwrap().into_request().unwrap();
    assert_eq!(request.duration_secs, 69);
    assert!(matches!(
        request.backend,
        RunnerBackend::TcgRecovery {
            total_timeout_secs: 75,
            ..
        }
    ));
}

#[test]
fn recovery_wsl_keeps_linux_paths_and_host_receipts_separate() {
    let mut args = recovery_arguments();
    replace(&mut args, "--host", "wsl");
    assert!(parsed(&args).is_err());
    args.extend(["--distribution".into(), "Ubuntu-24.04".into()]);
    replace(&mut args, "--host-receipt-dir", "C:/receipts/new-run");
    let request = parsed(&args).unwrap().into_request().unwrap();
    assert_eq!(
        request.host_receipt_dir,
        PathBuf::from("C:/receipts/new-run")
    );
    assert_eq!(
        request.repository,
        PathBuf::from("/workspace with spaces/repository")
    );
    assert_eq!(
        request.host,
        RunnerHost::Wsl {
            distribution: "Ubuntu-24.04".into(),
            python: PathBuf::from("python3"),
        }
    );
}

#[test]
fn missing_options_are_all_named() {
    assert_eq!(
        no_options().check(),
        Err(UsageError::Missing(vec![
            Flag::Backend,
            Flag::Host,
            Flag::Python,
            Flag::Repository,
            Flag::VmJson,
            Flag::Output,
            Flag::HostReceiptDir,
            Flag::Target,
            Flag::ResearchOnly,
        ]))
    );
    let mut args = recovery_arguments();
    remove(&mut args, "--total-timeout", true);
    remove(&mut args, "--qemu", true);
    remove(&mut args, "--research-only", false);
    replace(&mut args, "--host", "wsl");
    let missing = vec![
        Flag::ResearchOnly,
        Flag::Distribution,
        Flag::Qemu,
        Flag::TotalTimeout,
    ];
    assert_eq!(options(&args).find_breaches(Rule::Presence), missing);
    assert_eq!(parsed(&args), Err(UsageError::Missing(missing)));
    assert_eq!(Flag::OriginalIbss.name(), "--original-ibss");
}

#[test]
fn excluded_options_are_named_as_they_were_given() {
    // An option of the emulated machine that comes first excludes --macosvm only.
    let mut args = arguments();
    args.extend(["--macosvm".into(), "/bin/macosvm".into()]);
    assert_eq!(
        parsed(&args),
        Err(UsageError::Excluded(Flag::Qemu, vec![Flag::Macosvm]))
    );
    // --macosvm that comes first excludes all of them.
    let mut args = arguments();
    args.splice(3..3, ["--macosvm".into(), "/bin/macosvm".into()]);
    remove(&mut args, "--smp", true);
    args.splice(5..5, ["--smp".into(), "4".into()]);
    assert_eq!(
        parsed(&args),
        Err(UsageError::Excluded(
            Flag::Macosvm,
            vec![
                Flag::Smp,
                Flag::Qemu,
                Flag::QemuImg,
                Flag::Firmware,
                Flag::FirmwareKind,
                Flag::MemoryMib,
            ]
        ))
    );
    // A number out of its range comes before either.
    replace(&mut args, "--memory-mib", "127");
    assert_eq!(parsed(&args), Err(UsageError::OutOfRange(Flag::MemoryMib)));
    // An order that is not known counts as the listed one.
    let mut given = options(&args);
    given.memory_mib = Some(128);
    given.order = Vec::new();
    assert!(matches!(
        given.check(),
        Err(UsageError::Excluded(Flag::Macosvm, rivals)) if rivals[0] == Flag::Qemu
    ));
}

#[test]
fn the_first_number_out_of_range_is_named() {
    let mut args = arguments();
    replace(&mut args, "--smp", "0");
    replace(&mut args, "--target", "25");
    assert_eq!(parsed(&args), Err(UsageError::OutOfRange(Flag::Target)));
    remove(&mut args, "--target", true);
    args.extend(["--target".into(), "25".into()]);
    assert_eq!(parsed(&args), Err(UsageError::OutOfRange(Flag::Smp)));
    assert_eq!(
        options(&args).find_breaches(Rule::Range),
        vec![Flag::Smp, Flag::Target]
    );
}

#[test]
fn the_order_of_the_options_makes_no_other_run() {
    let mut given = options(&arguments());
    given.order.reverse();
    assert_eq!(given.check(), parsed(&arguments()));
}

#[test]
fn numbers_are_taken_up_to_the_ends_of_their_ranges() {
    for (flag, low, high) in [
        ("--target", 26, 27),
        ("--observation-timeout", 1, 86400),
        ("--duration", 1, 86400),
        ("--memory-mib", 128, 1048576),
        ("--smp", 1, 255),
    ] {
        for (value, accepted) in [(low - 1, false), (low, true), (high, true), (high + 1, false)] {
            let mut args = arguments();
            replace(&mut args, flag, &value.to_string());
            assert_eq!(parsed(&args).is_ok(), accepted, "{flag}={value}");
        }
    }
}

#[test]
fn defaults_fill_in_what_was_not_given() {
    let mut args = arguments();
    for flag in ["--observation-timeout", "--duration", "--memory-mib", "--smp"] {
        remove(&mut args, flag, true);
    }
    let request = parsed(&args).unwrap().into_request().unwrap();
    assert_eq!(request.observation_timeout_secs, 60);
    assert_eq!(request.duration_secs, 60);
    assert!(matches!(
        request.backend,
        RunnerBackend::Tcg {
            memory_mib: 4096,
            smp: 2,
            ..
        }
    ));
}

#[test]
fn each_request_error_has_its_input_and_words() {
    let fault = |change: fn(&mut RunArgs)| {
        let mut args = parsed(&arguments()).unwrap();
        change(&mut args);
        args.into_request().unwrap_err()
    };
    let error = fault(|args| args.optional_rpc_unavailable = true);
    assert_eq!(error, RequestError::RecoveryOptions);
    assert_eq!(error.message(), "recovery options require --backend tcg-recovery");
    let error = fault(|args| args.backend = Backend::TcgRecovery);
    assert_eq!(error, RequestError::RecoveryTimeouts);
    let error = fault(|args| args.distribution = Some("Ubuntu".into()));
    assert_eq!(error, RequestError::DistributionWithoutWsl);
    assert_eq!(error.message(), "--distribution requires --host wsl");
    let error = fault(|args| args.host = Host::Wsl);
    assert_eq!(error, RequestError::WslWithoutDistribution);
    let error = fault(|args| {
        args.backend = Backend::LocalNative;
        args.host = Host::Wsl;
        args.distribution = Some("Ubuntu".into());
    });
    assert_eq!(error, RequestError::NativeNotLocal);
    let error = fault(|args| args.memory_mib = Some(262145));
    assert_eq!(error, RequestError::TcgMemory);
    assert_eq!(error.message(), "raw TCG memory must be 128..262144 MiB");
    let error = fault(|args| args.qemu_img = None);
    assert_eq!(error, RequestError::Missing(Backend::Tcg, Flag::QemuImg));
    assert_eq!(error.message(), "--backend tcg requires --qemu-img");
    let error = fault(|args| args.backend = Backend::LocalNative);
    assert_eq!(error, RequestError::Missing(Backend::LocalNative, Flag::Macosvm));
    let mut args = parsed(&recovery_arguments()).unwrap();
    args.tss_helper = None;
    let error = args.into_request().unwrap_err();
    assert_eq!(error.message(), "tcg-recovery requires --tss-helper");
}

#[test]
fn reports_show_every_line() {
    let mut seen = outcome();
    assert_eq!(
        seen.report("/host/receipts/adapter.json"),
        [
            "runner: engine=qemu-vmapple-tcg completed=true exit=0",
            "guest: started=true terminated=true",
            "evidence: xnu=false userspace=false target-match=false input-integrity=true",
            "macos-boot-verified: false",
            "installation-verified: false graphics-acceleration-verified: false",
            "failure: boot evidence is incomplete",
            "receipt: /host/receipts/adapter.json",
        ]
    );
    seen.failure = None;
    seen.runner_exit_code = Some(-2147483648);
    seen.recovery_progress = Some(RecoveryProgress {
        dfu_upload_completed: true,
        ibec_endpoint_advertised: false,
        stage2_banner_observed: true,
        stage2_prompt_observed: false,
        restore_role_step_count: 1204,
        restore_sequence_sent: true,
        bootx_acknowledged: true,
        firmware_panic_observed: false,
    });
    let lines = seen.report("r");
    assert_eq!(
        lines[0],
        "runner: engine=qemu-vmapple-tcg completed=true exit=-2147483648"
    );
    assert_eq!(
        lines[2],
        "recovery: dfu=true ibec-endpoint=false stage2-banner=true stage2-prompt=false restore-roles=1204 sequence=true bootx-ack=true firmware-panic=false"
    );
    assert_eq!(lines[3], "result: completed-unverified");
    assert_eq!(lines.len(), 8);
    seen.runner_exit_code = None;
    assert!(seen.report("r")[0].ends_with("exit=unavailable"));
    assert_eq!(receipt_file(), "adapter.json");
}

#[test]
fn the_first_doubt_names_the_result() {
    let mut seen = outcome();
    assert_eq!(seen.result(), "completed-unverified");
    seen.input_integrity = false;
    assert_eq!(seen.result(), "integrity-unconfirmed");
    seen.guest_process_terminated = false;
    assert_eq!(seen.result(), "cleanup-unconfirmed");
    seen.guest_runtime_started = false;
    assert_eq!(seen.result(), "runtime-unconfirmed");
    seen.macos_boot_verified = true;
    assert_eq!(seen.result(), "boot-verified");
    assert_eq!(outcome_exit(&seen), 0);
}
