use nextcore_apls::guest::GuestState;
use nextcore_apls::json::Json;
use nextcore_apls::report::evaluate_report;
use nextcore_apls::runner::{
    FirmwareKind, HostPlatform, RecoveryProgress, RunOutcome, RunnerBackend, RunnerError,
    RunnerHost, RunnerPath, RunnerRequest,
};
use serde_json::Value;

const LINUX: HostPlatform = HostPlatform { windows: false, apple_silicon_macos: false };
const WINDOWS: HostPlatform = HostPlatform { windows: true, apple_silicon_macos: false };
const APPLE: HostPlatform = HostPlatform { windows: false, apple_silicon_macos: true };

fn path(text: &str) -> RunnerPath {
    RunnerPath::new(text)
}

fn value(text: &str) -> Value {
    serde_json::from_str(text).unwrap()
}

fn json(value: &Value) -> Json {
    Json::from_slice(&serde_json::to_vec(value).unwrap()).unwrap()
}

fn evaluate(request: &RunnerRequest, exit: Option<i32>, report: &Value) -> RunOutcome {
    evaluate_report(request, exit, Ok(json(report)))
}

fn with(base: &Value, pointer: &str, replacement: &str) -> Value {
    let mut changed = base.clone();
    *changed.pointer_mut(pointer).unwrap() = value(replacement);
    changed
}

fn request() -> RunnerRequest {
    RunnerRequest {
        host: RunnerHost::Local { python: path("python3") },
        backend: RunnerBackend::Tcg {
            qemu: path("/opt/qemu custom"),
            qemu_img: path("/usr/bin/qemu-img"),
            firmware: path("/input/original firmware.bin"),
            firmware_kind: FirmwareKind::Avpbooter,
            memory_mib: 4096,
            smp: 2,
        },
        repository: path("/source"),
        vm_json: path("/input/my bundle/macosvm.json"),
        output: path("/output/new-run"),
        host_receipt_dir: path("/receipts/new-run"),
        target_major: 27,
        observation_timeout_secs: 5,
        duration_secs: 5,
        research_only: true,
    }
}

#[test]
fn command_keeps_paths_as_single_arguments_and_requires_acknowledgement() {
    let mut r = request();
    let command = r.invocation(LINUX).unwrap();
    assert!(command.arguments.contains(&"/input/my bundle/macosvm.json".into()));
    assert!(command.arguments.contains(&"/opt/qemu custom".into()));
    assert!(!command.arguments.contains(&"--gui".into()));
    r.research_only = false;
    assert!(r.invocation(LINUX).is_err());
}

#[test]
fn booleans_and_successful_process_do_not_prove_boot() {
    let out = evaluate(
        &request(),
        Some(0),
        &value(
            r#"{
            "schema": "26x86.vmapple-tcg/1", "engine": "qemu-vmapple-tcg", "target_major": 27,
            "tcg_runtime_started": true, "native_runtime_started": true,
            "macos_boot_verified": true, "xnu_executed": true, "macos_userspace_reached": true,
            "guest_target_match": true, "guest_kernel_major": 27, "input_integrity": true,
            "returncode": 0, "termination": "guest_exit"
        }"#,
        ),
    );
    assert!(out.guest_runtime_started);
    assert!(out.guest_process_terminated);
    assert!(!out.macos_boot_verified);
    assert!(!out.xnu_executed);
    assert!(matches!(out.guest_state(), GuestState::Faulted(_)));
}

#[test]
fn preflight_failure_and_missing_report_remain_failures() {
    let out = evaluate(
        &request(),
        Some(2),
        &value(r#"{"error":"qemu unavailable","macos_boot_verified":false}"#),
    );
    assert!(!out.guest_runtime_started);
    assert_eq!(out.failure.as_deref(), Some("qemu unavailable"));
    let out = evaluate_report(&request(), Some(0), Err("truncated output".into()));
    assert!(!out.macos_boot_verified);
    assert_eq!(out.failure.as_deref(), Some("truncated output"));
}

fn tcg_report(kernel_major: u32, kernel_offset: u32, user_offset: u32) -> Value {
    let mut report = value(
        r#"{
        "schema":"26x86.vmapple-tcg/1", "engine":"qemu-vmapple-tcg", "target_major":27,
        "tcg_runtime_started":true, "returncode":0, "termination":"guest_exit",
        "xnu_executed":true, "macos_userspace_reached":true, "guest_target_match":true,
        "guest_kernel_major":27, "input_integrity":true, "macos_boot_verified":true,
        "observed_markers":{
            "xnu":[{"marker":"Darwin Kernel Version","byte_offset":0,"kernel_major":27}],
            "userspace":[{"marker":"launchd:","byte_offset":0}]
        }
    }"#,
    );
    report["guest_kernel_major"] = kernel_major.into();
    report["observed_markers"]["xnu"][0]["byte_offset"] = kernel_offset.into();
    report["observed_markers"]["userspace"][0]["byte_offset"] = user_offset.into();
    report
}

#[test]
fn wrong_target_and_input_mutation_deny_even_populated_evidence() {
    let base = tcg_report(26, 0, 100);
    assert!(!evaluate(&request(), Some(0), &base).macos_boot_verified);
    let mut mutated = base;
    mutated["guest_kernel_major"] = 27.into();
    mutated["input_integrity"] = false.into();
    assert!(!evaluate(&request(), Some(0), &mutated).macos_boot_verified);
}

#[test]
fn evidence_verdict_requires_order_exit_and_backend_specific_runtime() {
    // Synthetic report validation only: this test never starts a guest.
    let base = tcg_report(27, 100, 200);
    assert!(evaluate(&request(), Some(0), &base).macos_boot_verified);
    assert!(!evaluate(&request(), Some(2), &base).macos_boot_verified);
    let mut reversed = base.clone();
    reversed["observed_markers"]["userspace"][0]["byte_offset"] = 0.into();
    assert!(!evaluate(&request(), Some(0), &reversed).macos_boot_verified);
    let mut wrong_runtime = base;
    wrong_runtime["tcg_runtime_started"] = false.into();
    wrong_runtime["native_runtime_started"] = true.into();
    let out = evaluate(&request(), Some(0), &wrong_runtime);
    assert!(!out.guest_runtime_started);
    assert!(!out.macos_boot_verified);
}

#[test]
fn wsl_is_explicit_exec_transport_without_a_shell() {
    let mut r = request();
    r.host = RunnerHost::Wsl {
        distribution: "Ubuntu-24.04".into(),
        python: path("/usr/bin/python3"),
    };
    let invocation = r.invocation(WINDOWS).unwrap();
    assert_eq!(invocation.executable, "wsl.exe");
    assert_eq!(
        &invocation.arguments[..7],
        [
            "--distribution",
            "Ubuntu-24.04",
            "--cd",
            "/source",
            "--exec",
            "/usr/bin/python3",
            "-m"
        ]
    );
    assert!(invocation.current_dir.is_none());
    r.backend = RunnerBackend::Native { macosvm: path("/usr/bin/macosvm") };
    assert!(matches!(r.invocation(WINDOWS), Err(RunnerError::UnsupportedHost)));
}

#[test]
fn invalid_request_creates_no_receipts() {
    let mut r = request();
    r.duration_secs = 0;
    assert!(r.begin(LINUX).is_err());
}

fn recovery_request() -> RunnerRequest {
    let mut request = request();
    request.duration_secs = 10;
    request.backend = RunnerBackend::TcgRecovery {
        qemu: path("/qemu tools/qemu-system-aarch64"),
        qemu_img: path("/qemu tools/qemu-img"),
        firmware: path("/inputs/AVPBooter.bin"),
        memory_mib: 4096,
        smp: 2,
        build_manifest: path("/inputs/BuildManifest.plist"),
        tss_helper: path("/helper tools/request-encoder"),
        original_ibss: path("/inputs/original iBSS.im4p"),
        original_ibec: path("/inputs/original iBEC.im4p"),
        restore_role_dir: path("/inputs/restore roles"),
        transition_timeout_secs: 20,
        restore_timeout_secs: 30,
        total_timeout_secs: 75,
        optional_rpc_unavailable: false,
    };
    request
}

// Authored JSON only. This fixture is not a guest-execution receipt.
fn recovery_receipt() -> Value {
    value(
        r#"{
        "schema":"nextcore.recovery-supervisor/1", "target_major":27,
        "requested_output":"/output/new-run", "output":"/output/new-run", "supervisor_pid":11,
        "worker":{
            "pid":12,"returncode":0,"completed":true,"process_inventory_complete":true,
            "observed_processes":[
                {"pid":12,"starttime":100,"session":12},
                {"pid":13,"starttime":110,"session":12}
            ]
        },
        "cleanup":{"leader_reaped":true,"remaining_pids":[],"complete":true},
        "input_integrity":{"unchanged":true,"records":[]},
        "deadline":{"total_timeout_seconds":75,"cleanup_grace_seconds":5,"exceeded":false},
        "cancel":{"requested":false,"reason":null,"signal":null},
        "launch_report":{
            "path":"/output/new-run/launch.json", "complete":true,
            "raw_schema":"26x86.vmapple-gui/1", "identity_valid":true,"runtime_pid_observed":true,
            "raw":{
                "schema":"26x86.vmapple-gui/1", "target_major":27,
                "output":"/output/new-run", "machine_type":"iBoot(AArch64)",
                "personality":"iBoot", "guest_os":"macOS", "boot_mode":"recovery",
                "runtime_started":true,"pid":13,"returncode":0,"termination":"time_budget",
                "dfu_upload":{"transfer_complete":true},
                "transition":{"state":"ibec-ready"},
                "stage2":{"stage2_serial_started":true,"stage2_serial_start_byte_offset":5,
                    "observed":true,"byte_offset":20},
                "restore_chain":{"sequence_sent":true,"input_integrity":true,"bootx_acknowledged":true,
                    "steps":[
                        {"role":"RestoreTrustCache","upload":{"transfer_complete":true}},
                        {"role":"RestoreRamDisk","upload":{"transfer_complete":true}},
                        {"role":"RestoreDeviceTree","upload":{"transfer_complete":true}},
                        {"role":"RestoreKernelCache","upload":{"transfer_complete":true}}
                    ]},
                "guest_panic":{"observed":false},"input_integrity":true,
                "xnu_executed":false,"guest_kernel_major":null,"guest_target_match":false,
                "macos_boot_verified":false,"error":null
            }
        },
        "boot":{"xnu_executed":false,"guest_kernel_major":null,"target_match":false,
            "userspace":false,"macos_boot_verified":false}
    }"#,
    )
}

fn strict_recovery_receipt() -> Value {
    let mut report = recovery_receipt();
    let raw = &mut report["launch_report"]["raw"];
    raw["xnu_executed"] = true.into();
    raw["macos_userspace_reached"] = true.into();
    raw["guest_kernel_major"] = 27.into();
    raw["guest_target_match"] = true.into();
    raw["macos_boot_verified"] = true.into();
    raw["observed_markers"] = value(
        r#"{
        "xnu":[{"marker":"Darwin Kernel Version","kernel_major":27,"byte_offset":100}],
        "userspace":[{"marker":"launchd:","byte_offset":200}]
    }"#,
    );
    raw["iboot_xnu_handoff"] = value(
        r#"{
        "schema":"26x86.iboot-xnu-handoff/1","valid":true,"target_major":27,"mode":"recovery",
        "claims":{"xnu_executed":true,"macos_userspace_reached":true,"macos_boot_verified":true}
    }"#,
    );
    report["boot"] = value(
        r#"{
        "xnu_executed":true,"guest_kernel_major":27,"target_match":true,
        "userspace":true,"macos_boot_verified":true
    }"#,
    );
    report
}

#[test]
fn recovery_invocation_uses_only_supervisor_flags_and_preserves_path_arguments() {
    let mut request = recovery_request();
    // An unused legacy observation timeout must not affect this variant.
    request.observation_timeout_secs = 0;
    let invocation = request.invocation(LINUX).unwrap();
    assert_eq!(invocation.executable, "python3");
    assert_eq!(invocation.current_dir.as_deref(), Some("/source"));
    assert_eq!(
        invocation.arguments,
        [
            "-m",
            "x86.recovery_supervisor",
            "--qemu",
            "/qemu tools/qemu-system-aarch64",
            "--qemu-img",
            "/qemu tools/qemu-img",
            "--firmware",
            "/inputs/AVPBooter.bin",
            "--build-manifest",
            "/inputs/BuildManifest.plist",
            "--tss-helper",
            "/helper tools/request-encoder",
            "--original-ibss",
            "/inputs/original iBSS.im4p",
            "--original-ibec",
            "/inputs/original iBEC.im4p",
            "--restore-role-dir",
            "/inputs/restore roles",
            "--memory-mib",
            "4096",
            "--smp",
            "2",
            "--transition-timeout",
            "20",
            "--restore-timeout",
            "30",
            "--total-timeout",
            "75",
            "--cleanup-grace",
            "5",
            "--target",
            "27",
            "--vm-json",
            "/input/my bundle/macosvm.json",
            "--output",
            "/output/new-run",
            "--duration",
            "10",
        ]
    );
    if let RunnerBackend::TcgRecovery { optional_rpc_unavailable, .. } = &mut request.backend {
        *optional_rpc_unavailable = true;
    }
    let args = request.invocation(LINUX).unwrap().arguments;
    assert_eq!(
        args.iter().filter(|arg| *arg == "--optional-rpc-unavailable").count(),
        1
    );
    for absent in [
        "run-tcg",
        "--firmware-kind",
        "--observation-timeout",
        "--json",
        "--research-only",
    ] {
        assert!(!args.iter().any(|arg| arg == absent));
    }
}

/// The paths of a recovery request, each with its name.
fn recovery_paths(request: &mut RunnerRequest) -> Vec<(&'static str, &mut RunnerPath)> {
    let mut paths: Vec<(&'static str, &mut RunnerPath)> = vec![
        ("/repository", &mut request.repository),
        ("/vm_json", &mut request.vm_json),
        ("/output", &mut request.output),
        ("/host_receipt_dir", &mut request.host_receipt_dir),
    ];
    if let RunnerHost::Local { python } = &mut request.host {
        paths.push(("/host/python", python));
    }
    if let RunnerBackend::TcgRecovery {
        qemu,
        qemu_img,
        firmware,
        build_manifest,
        tss_helper,
        original_ibss,
        original_ibec,
        restore_role_dir,
        ..
    } = &mut request.backend
    {
        paths.push(("/backend/qemu", qemu));
        paths.push(("/backend/qemu_img", qemu_img));
        paths.push(("/backend/firmware", firmware));
        paths.push(("/backend/build_manifest", build_manifest));
        paths.push(("/backend/tss_helper", tss_helper));
        paths.push(("/backend/original_ibss", original_ibss));
        paths.push(("/backend/original_ibec", original_ibec));
        paths.push(("/backend/restore_role_dir", restore_role_dir));
    }
    paths
}

fn set_number(request: &mut RunnerRequest, pointer: &str, number: u32) {
    if pointer == "/duration_secs" {
        request.duration_secs = number;
        return;
    }
    if let RunnerBackend::TcgRecovery {
        memory_mib,
        smp,
        transition_timeout_secs,
        restore_timeout_secs,
        total_timeout_secs,
        ..
    } = &mut request.backend
    {
        match pointer {
            "/backend/memory_mib" => *memory_mib = number,
            "/backend/smp" => *smp = number,
            "/backend/transition_timeout_secs" => *transition_timeout_secs = number,
            "/backend/restore_timeout_secs" => *restore_timeout_secs = number,
            "/backend/total_timeout_secs" => *total_timeout_secs = number,
            _ => panic!("no such setting"),
        }
    }
}

#[test]
fn recovery_request_rejects_bad_paths_and_inconsistent_budgets_before_io() {
    let count = recovery_paths(&mut recovery_request()).len();
    assert_eq!(count, 13);
    for index in 0..count {
        for bad in [path(""), path("bad\0path"), RunnerPath { text: None }] {
            let mut request = recovery_request();
            let mut paths = recovery_paths(&mut request);
            let name = paths[index].0;
            *paths[index].1 = bad;
            assert_eq!(
                request.invocation(LINUX),
                Err(RunnerError::InvalidRequest("paths must be nonempty UTF-8 without NUL")),
                "accepted {name}"
            );
        }
    }
    for (pointer, number) in [
        ("/backend/memory_mib", 511),
        ("/backend/memory_mib", 1048577),
        ("/backend/smp", 0),
        ("/backend/smp", 33),
        ("/backend/transition_timeout_secs", 0),
        ("/backend/transition_timeout_secs", 301),
        ("/backend/restore_timeout_secs", 0),
        ("/backend/restore_timeout_secs", 301),
        ("/backend/total_timeout_secs", 29),
        ("/backend/total_timeout_secs", 86401),
        ("/duration_secs", 70),
        ("/duration_secs", 0),
    ] {
        let mut request = recovery_request();
        set_number(&mut request, pointer, number);
        assert!(request.invocation(LINUX).is_err(), "accepted {pointer}={number}");
    }
    let mut request = recovery_request();
    request.duration_secs = 69;
    assert!(request.invocation(LINUX).is_ok());
    request.research_only = false;
    assert!(request.invocation(LINUX).is_err());
}

#[test]
fn recovery_bootx_and_zero_worker_exit_preserve_progress_but_not_boot() {
    let report = recovery_receipt();
    let outcome = evaluate(&recovery_request(), Some(0), &report);
    assert!(
        outcome.runner_completed
            && outcome.guest_runtime_started
            && outcome.guest_process_terminated
    );
    assert!(outcome.input_integrity);
    assert!(
        !outcome.xnu_executed && !outcome.macos_userspace_reached && !outcome.macos_boot_verified
    );
    let progress = outcome.recovery_progress.unwrap();
    assert!(progress.dfu_upload_completed && progress.ibec_endpoint_advertised);
    assert!(progress.stage2_banner_observed && progress.stage2_prompt_observed);
    assert!(progress.restore_sequence_sent && progress.bootx_acknowledged);
    assert_eq!(progress.restore_role_step_count, 4);
    assert_eq!(outcome.report, Some(json(&report)));
    assert_eq!(outcome.engine, "qemu-vmapple-recovery");
}

#[test]
fn recovery_rejects_mismatched_envelope_and_raw_launch_identity() {
    let base = recovery_receipt();
    for (pointer, replacement) in [
        ("/schema", r#""26x86.vmapple-tcg/1""#),
        ("/target_major", "26"),
        ("/requested_output", r#""/different-request""#),
        ("/output", r#""/different-run""#),
        ("/launch_report/raw_schema", r#""26x86.vmapple-tcg/1""#),
        ("/launch_report/identity_valid", "false"),
        ("/launch_report/raw/schema", r#""wrong""#),
        ("/launch_report/raw/target_major", "26"),
        ("/launch_report/raw/output", r#""/different-run""#),
        ("/launch_report/raw/machine_type", r#""x86_64""#),
        ("/launch_report/raw/personality", r#""other""#),
        ("/launch_report/raw/guest_os", r#""iOS""#),
        ("/launch_report/raw/boot_mode", r#""direct-macos""#),
        ("/launch_report/raw/runtime_started", "1"),
        ("/launch_report/raw/pid", "null"),
    ] {
        let outcome = evaluate(&recovery_request(), Some(0), &with(&base, pointer, replacement));
        assert!(!outcome.guest_runtime_started, "accepted {pointer}");
        assert!(!outcome.guest_process_terminated && !outcome.macos_boot_verified);
        assert_eq!(outcome.recovery_progress, Some(RecoveryProgress::default()));
    }
}

#[test]
fn recovery_correlates_relative_request_with_canonical_linux_output() {
    let mut request = recovery_request();
    request.output = path("runs/../result");
    let mut report = recovery_receipt();
    report["requested_output"] = "runs/../result".into();
    report["output"] = "/source/result".into();
    report["launch_report"]["raw"]["output"] = "/source/result".into();
    report["launch_report"]["path"] = "/source/result/launch.json".into();
    let outcome = evaluate(&request, Some(0), &report);
    assert!(outcome.guest_runtime_started && outcome.guest_process_terminated);
    assert!(!outcome.macos_boot_verified);
    report["requested_output"] = Value::Null;
    assert!(!evaluate(&request, Some(0), &report).guest_runtime_started);
    report["requested_output"] = "runs/../result".into();
    for output in [Value::Null, Value::from("relative-only")] {
        report["output"] = output.clone();
        report["launch_report"]["raw"]["output"] = output;
        assert!(!evaluate(&request, Some(0), &report).guest_runtime_started);
    }
}

#[test]
fn recovery_requires_a_unique_observed_qemu_identity_in_the_worker_session() {
    let base = strict_recovery_receipt();
    for (pointer, replacement) in [
        ("/worker/process_inventory_complete", "false"),
        ("/launch_report/runtime_pid_observed", "false"),
        ("/worker/observed_processes", "null"),
        ("/worker/observed_processes", "[]"),
        ("/worker/observed_processes/1/starttime", "0"),
        ("/worker/observed_processes/1/session", "999"),
        ("/worker/observed_processes/1/pid", "999"),
        ("/worker/pid", "null"),
        ("/launch_report/raw/pid", "12"),
        ("/launch_report/raw/pid", "999"),
    ] {
        let outcome = evaluate(&recovery_request(), Some(0), &with(&base, pointer, replacement));
        assert!(!outcome.guest_runtime_started, "accepted {pointer}");
        assert!(
            !outcome.guest_process_terminated
                && !outcome.xnu_executed
                && !outcome.macos_boot_verified
        );
    }
    let mut reused = base;
    reused["worker"]["observed_processes"]
        .as_array_mut()
        .unwrap()
        .push(value(r#"{"pid":13,"starttime":120,"session":12}"#));
    assert!(!evaluate(&recovery_request(), Some(0), &reused).guest_runtime_started);
}

#[test]
fn recovery_transport_loss_and_missing_cleanup_never_confirm_linux_exit() {
    for parsed in [
        Err("WSL transport closed".into()),
        Ok(json(&Value::Null)),
        Ok(json(&value("[]"))),
        Ok(json(&value(r#"{"error":"supervisor unavailable"}"#))),
    ] {
        let outcome = evaluate_report(&recovery_request(), Some(0), parsed);
        assert!(!outcome.guest_process_terminated && !outcome.macos_boot_verified);
    }
    for (pointer, replacement) in [
        ("/cleanup/complete", "null"),
        ("/cleanup/complete", "false"),
        ("/cleanup/leader_reaped", "false"),
        ("/cleanup/remaining_pids", "null"),
        ("/cleanup/remaining_pids", "[42]"),
        ("/cleanup/remaining_pids", "{}"),
    ] {
        let report = with(&recovery_receipt(), pointer, replacement);
        let outcome = evaluate(&recovery_request(), Some(0), &report);
        assert!(outcome.guest_runtime_started);
        assert!(
            !outcome.guest_process_terminated && !outcome.macos_boot_verified,
            "accepted {pointer}"
        );
    }
}

#[test]
fn recovery_counts_completed_distinct_roles_and_preserves_post_bootx_panic() {
    let mut report = recovery_receipt();
    let steps = report["launch_report"]["raw"]["restore_chain"]["steps"]
        .as_array_mut()
        .unwrap();
    steps[3]["upload"]["transfer_complete"] = false.into();
    let first = steps[0].clone();
    steps.push(first);
    let outcome = evaluate(&recovery_request(), Some(0), &report);
    let progress = outcome.recovery_progress.unwrap();
    assert_eq!(progress.restore_role_step_count, 3);
    assert!(!progress.restore_sequence_sent);
    report["launch_report"]["raw"]["restore_chain"]["post_bootx_panic"] = true.into();
    let outcome = evaluate(&recovery_request(), Some(0), &report);
    assert!(outcome.recovery_progress.unwrap().firmware_panic_observed);
    assert!(!outcome.macos_boot_verified);
}

#[test]
fn recovery_strict_future_evidence_requires_causality_integrity_and_clean_completion() {
    let base = strict_recovery_receipt();
    let outcome = evaluate(&recovery_request(), Some(0), &base);
    assert!(outcome.macos_boot_verified);
    assert_eq!(outcome.failure, None);
    assert_eq!(outcome.guest_state(), GuestState::Stopped);
    for (pointer, replacement) in [
        ("/launch_report/raw/observed_markers", "null"),
        ("/boot/macos_boot_verified", "false"),
        ("/boot/target_match", "false"),
        ("/boot/guest_kernel_major", "26"),
        ("/input_integrity/unchanged", "null"),
        ("/worker/completed", "false"),
        ("/worker/returncode", "2"),
        ("/launch_report/complete", "false"),
        ("/deadline/exceeded", "true"),
        ("/cancel/requested", "true"),
        ("/launch_report/raw/guest_panic/observed", "true"),
        ("/launch_report/raw/input_integrity", "false"),
        ("/launch_report/raw/guest_kernel_major", "26"),
        ("/launch_report/raw/observed_markers/xnu/0/kernel_major", "26"),
        ("/launch_report/raw/observed_markers/userspace/0/byte_offset", "50"),
        ("/launch_report/raw/stage2/byte_offset", "150"),
        ("/launch_report/raw/iboot_xnu_handoff/claims/macos_boot_verified", "false"),
        ("/launch_report/raw/restore_chain/bootx_acknowledged", "false"),
    ] {
        assert!(
            !evaluate(&recovery_request(), Some(0), &with(&base, pointer, replacement))
                .macos_boot_verified,
            "accepted {pointer}"
        );
    }
    for exit in [None, Some(1), Some(2)] {
        assert!(!evaluate(&recovery_request(), exit, &base).macos_boot_verified);
    }
}

#[test]
fn recovery_wsl_uses_explicit_linux_supervisor_without_shell() {
    let mut request = recovery_request();
    request.host = RunnerHost::Wsl {
        distribution: "Ubuntu-24.04".into(),
        python: path("/usr/bin/python3"),
    };
    let invocation = request.invocation(WINDOWS).unwrap();
    assert_eq!(invocation.executable, "wsl.exe");
    assert!(invocation.current_dir.is_none());
    assert_eq!(
        &invocation.arguments[..8],
        [
            "--distribution",
            "Ubuntu-24.04",
            "--cd",
            "/source",
            "--exec",
            "/usr/bin/python3",
            "-m",
            "x86.recovery_supervisor"
        ]
    );
}

#[test]
fn native_and_plain_emulated_commands_are_spelled_out() {
    assert_eq!(
        request().invocation(LINUX).unwrap().arguments,
        [
            "-m", "x86", "vmapple", "run-tcg", "--qemu", "/opt/qemu custom", "--qemu-img",
            "/usr/bin/qemu-img", "--firmware", "/input/original firmware.bin", "--firmware-kind",
            "avpbooter", "--memory-mib", "4096", "--smp", "2", "--display", "none", "--target",
            "27", "--vm-json", "/input/my bundle/macosvm.json", "--output", "/output/new-run",
            "--duration", "5", "--observation-timeout", "5", "--research-only", "--json",
        ]
    );
    let mut native = request();
    native.backend = RunnerBackend::Native { macosvm: path("/usr/bin/macosvm") };
    native.target_major = 26;
    assert_eq!(
        native.invocation(APPLE).unwrap().arguments[..6],
        ["-m", "x86", "vmapple", "run-native", "--macosvm", "/usr/bin/macosvm"]
    );
    assert_eq!(native.invocation(LINUX), Err(RunnerError::UnsupportedHost));
    assert_eq!(FirmwareKind::IbootStage2.argument(), "iboot-stage2");
}

#[test]
fn each_refusal_names_its_rule() {
    let refusal = |change: fn(&mut RunnerRequest), platform: HostPlatform| {
        let mut request = request();
        change(&mut request);
        request.invocation(platform).unwrap_err()
    };
    let rule = |text: &'static str| RunnerError::InvalidRequest(text);
    assert_eq!(
        refusal(|r| r.research_only = false, LINUX),
        rule("explicit research_only acknowledgement required")
    );
    assert_eq!(refusal(|r| r.target_major = 25, LINUX), rule("target must be 26 or 27"));
    assert_eq!(
        refusal(|r| r.observation_timeout_secs = 0, LINUX),
        rule("timeouts must be 1..86400 seconds")
    );
    assert_eq!(
        refusal(|r| r.duration_secs = 86401, LINUX),
        rule("timeouts must be 1..86400 seconds")
    );
    assert_eq!(
        refusal(
            |r| {
                if let RunnerBackend::Tcg { smp, .. } = &mut r.backend {
                    *smp = 256;
                }
            },
            LINUX
        ),
        rule("TCG memory/CPU count out of range")
    );
    let wsl = |r: &mut RunnerRequest| {
        r.host = RunnerHost::Wsl { distribution: "".into(), python: path("/usr/bin/python3") };
    };
    assert_eq!(refusal(wsl, LINUX), rule("WSL transport requires Windows host"));
    assert_eq!(refusal(wsl, WINDOWS), rule("WSL distribution must be explicit"));
}

#[test]
fn worker_failures_are_named_in_order() {
    let base = tcg_report(27, 100, 200);
    let failure = |report: &Value| evaluate(&request(), Some(0), report).failure.unwrap();
    assert_eq!(
        failure(&with(&base, "/target_major", "26")),
        "worker report has no matching backend/target receipt"
    );
    assert_eq!(
        failure(&with(&base, "/tcg_runtime_started", "false")),
        "guest runtime was not started"
    );
    assert_eq!(
        failure(&with(&base, "/termination", r#""""#)),
        "guest process termination is unconfirmed"
    );
    assert_eq!(
        failure(&with(&base, "/input_integrity", "null")),
        "original input integrity is unconfirmed"
    );
    assert_eq!(
        failure(&with(&base, "/xnu_executed", "1")),
        "target-matching XNU/userspace boot evidence is incomplete"
    );
    let mut blocked = with(&base, "/target_major", "26");
    blocked["blocker"] = "no space".into();
    assert_eq!(failure(&blocked), "no space");
    blocked["error"] = "no disk".into();
    assert_eq!(failure(&blocked), "no disk");
}

#[test]
fn recovery_failures_are_named_in_order() {
    let base = strict_recovery_receipt();
    let failure = |report: &Value| evaluate(&recovery_request(), Some(0), report).failure.unwrap();
    assert_eq!(
        failure(&with(&base, "/schema", "null")),
        "recovery receipt has no matching supervisor/launch identity"
    );
    assert_eq!(
        failure(&with(&base, "/worker/pid", "0")),
        "recovery QEMU process identity was not observed in this run"
    );
    assert_eq!(
        failure(&with(&base, "/cleanup/complete", "false")),
        "Linux guest process cleanup is unconfirmed"
    );
    assert_eq!(
        failure(&with(&base, "/input_integrity/unchanged", "false")),
        "original recovery input integrity is unconfirmed"
    );
    assert_eq!(
        failure(&with(&base, "/cancel/requested", "true")),
        "recovery was cancelled or exceeded its deadline"
    );
    let mut blocked = with(&base, "/boot/userspace", "false");
    assert_eq!(
        failure(&blocked),
        "recovery completed-unverified: target-matching XNU/userspace evidence is incomplete"
    );
    blocked["launch_report"]["raw"]["golden_gate_installation"] = value(r#"{"blocker":"last"}"#);
    assert_eq!(failure(&blocked), "last");
    blocked["launch_report"]["raw"]["transition_blocker"] = "third".into();
    assert_eq!(failure(&blocked), "third");
    blocked["launch_report"]["raw"]["error"] = "second".into();
    assert_eq!(failure(&blocked), "second");
    blocked["error"] = "first".into();
    assert_eq!(failure(&blocked), "first");
}

#[test]
fn a_nested_observation_replaces_the_outer_one() {
    let mut report = strict_recovery_receipt();
    let raw = &mut report["launch_report"]["raw"];
    let nested = raw["observed_markers"].take();
    raw["observation"] = value(
        r#"{"xnu_executed":true,"macos_userspace_reached":true,
            "guest_kernel_major":27,"guest_target_match":true}"#,
    );
    raw["observation"]["observed_markers"] = nested;
    assert!(evaluate(&recovery_request(), Some(0), &report).macos_boot_verified);
    // A nested observation that shows nothing is not helped by the outer one.
    let mut empty = strict_recovery_receipt();
    empty["launch_report"]["raw"]["observation"] = value("{}");
    assert!(!evaluate(&recovery_request(), Some(0), &empty).xnu_executed);
}

#[test]
fn an_outcome_never_claims_installation_graphics_or_a_running_guest() {
    let verified = evaluate(&request(), Some(0), &tcg_report(27, 100, 200));
    assert!(verified.macos_boot_verified);
    assert!(!verified.installation_verified && !verified.graphics_acceleration_verified);
    assert_eq!(verified.guest_state(), GuestState::Stopped);
    assert_eq!(verified.schema, "nextcore.apls-host-run/1");
    assert_eq!(verified.engine, "qemu-vmapple-tcg");
    assert_eq!((verified.runner_pid, verified.runner_exit_code), (0, Some(0)));
    let failed = evaluate_report(&request(), None, Err("gone".into()));
    assert_eq!(failed.guest_state(), GuestState::Faulted("gone".into()));
    assert_eq!(failed.report, None);
}
