use friday::tools::jfr::mapping::{
    build_compare, build_proxy, effective_record_timeout, jfr_check_command, jfr_start_command,
    parse_vm_major_version, recording_check_passes, resolve_record_disk, validate_record_params,
    vm_version_command, JfrProxyKind,
};

fn json(text: &str) -> serde_json::Value {
    serde_json::from_str(text).unwrap()
}

#[test]
fn test_validate_record_params_defaults() {
    let (d, s) = validate_record_params(&json(r#"{}"#)).unwrap();
    assert_eq!(d, 60);
    assert_eq!(s, "profile");
}

#[test]
fn test_validate_record_params_bounds() {
    assert!(validate_record_params(&json(r#"{"duration_secs": 10}"#)).is_ok());
    assert!(validate_record_params(&json(r#"{"duration_secs": 600}"#)).is_ok());
    assert!(validate_record_params(&json(r#"{"duration_secs": 9}"#)).is_err());
    assert!(validate_record_params(&json(r#"{"duration_secs": 601}"#)).is_err());
    assert!(validate_record_params(&json(r#"{"settings": "default"}"#)).is_ok());
    assert!(validate_record_params(&json(r#"{"settings": "boot"}"#)).is_err());
}

#[test]
fn test_jfr_start_command_shape() {
    let cmd = jfr_start_command(
        "/tmp/jdk/bin/jcmd",
        1234,
        "friday-777",
        60,
        "profile",
        false,
        "/tmp/friday-tools/recording-1234-777.jfr",
    );
    assert_eq!(
        cmd,
        "/tmp/jdk/bin/jcmd 1234 JFR.start name=friday-777 settings=profile disk=false duration=60s filename=/tmp/friday-tools/recording-1234-777.jfr"
    );
    let cmd = jfr_start_command(
        "/tmp/jdk/bin/jcmd",
        1234,
        "friday-777",
        60,
        "profile",
        true,
        "/tmp/friday-tools/recording-1234-777.jfr",
    );
    assert!(cmd.contains("disk=true"));
}

#[test]
fn test_resolve_record_disk_defaults_by_target() {
    assert_eq!(resolve_record_disk(None, true), Ok(false));
    assert_eq!(resolve_record_disk(None, false), Ok(true));
    assert_eq!(resolve_record_disk(Some(&json(r#"true"#)), true), Ok(true));
    assert_eq!(resolve_record_disk(Some(&json(r#"false"#)), false), Ok(false));
    assert!(resolve_record_disk(Some(&json(r#""yes""#)), true).is_err());
    assert!(resolve_record_disk(Some(&json(r#"1"#)), true).is_err());
}

#[test]
fn test_jfr_check_command_shape() {
    let cmd = jfr_check_command("/tmp/jdk/bin/jcmd", 1234, "friday-777");
    assert_eq!(cmd, "/tmp/jdk/bin/jcmd 1234 JFR.check name=friday-777");
}

#[test]
fn test_vm_version_command_shape() {
    assert_eq!(vm_version_command("/tmp/jdk/bin/jcmd", 1234), "/tmp/jdk/bin/jcmd 1234 VM.version");
}

#[test]
fn test_parse_vm_major_version_formats() {
    assert_eq!(
        parse_vm_major_version("102668:\nOpenJDK 64-Bit Server VM version 21.0.10+7-LTS\nJDK 21.0.10\n"),
        Some(21)
    );
    assert_eq!(parse_vm_major_version("1234:\n11.0.21+9-LTS\n"), Some(11));
    assert_eq!(parse_vm_major_version("1234:\n17.0.10\n"), Some(17));
    assert_eq!(parse_vm_major_version("1234:\n1.8.0_392\n"), Some(8));
    assert_eq!(
        parse_vm_major_version("1234:\nJava HotSpot(TM) 64-Bit Server VM\n1.8.0_292\n"),
        Some(8)
    );
}

#[test]
fn test_parse_vm_major_version_unparseable_is_none() {
    assert_eq!(parse_vm_major_version(""), None);
    assert_eq!(parse_vm_major_version("1234:\n"), None);
    assert_eq!(parse_vm_major_version("garbage output"), None);
    assert_eq!(parse_vm_major_version("JDK 21"), None);
}

#[test]
fn test_recording_check_passes_running_states() {
    assert!(recording_check_passes(
        "Recording 1: name=friday-777 duration=300s (running)\n",
        ""
    ));
    assert!(recording_check_passes("", "Recording 1: name=x (RUNNING)\n"));
}

#[test]
fn test_recording_check_rejects_non_running() {
    assert!(!recording_check_passes("Could not find recording with name friday-777\n", ""));
    assert!(!recording_check_passes("", ""));
}

#[test]
fn test_effective_record_timeout_matrix() {
    assert_eq!(effective_record_timeout(None, 60), 600);
    assert_eq!(effective_record_timeout(None, 300), 600);
    assert_eq!(effective_record_timeout(None, 600), 720);
    assert_eq!(effective_record_timeout(Some(1000), 60), 1000);
    assert_eq!(effective_record_timeout(Some(9999), 60), 1800);
    assert_eq!(effective_record_timeout(Some(30), 600), 720);
    assert_eq!(effective_record_timeout(Some(0), 60), 600);
    assert_eq!(effective_record_timeout(Some(-5), 60), 600);
}

#[test]
fn test_build_proxy_maps_path_and_forces_sync() {
    let (name, args) = build_proxy(
        JfrProxyKind::HotMethods,
        r"C:\artifacts\a.jfr",
        Some(&json(r#"{"top_n": 5, "async": true}"#)),
    );
    assert_eq!(name, "hotMethods");
    assert_eq!(args["jfr_file_path"], r"C:\artifacts\a.jfr");
    assert_eq!(args["top_n"], 5);
    assert_eq!(args["async"], false, "async must be forced false even if caller passes true");

    let (_, args) = build_proxy(
        JfrProxyKind::HotMethods,
        r"C:\artifacts\a.jfr",
        Some(&json(r#"{"jfr_file_path": "/stale/hallucinated.jfr"}"#)),
    );
    assert_eq!(args["jfr_file_path"], r"C:\artifacts\a.jfr", "path key must not be overridable");
}

#[test]
fn test_build_proxy_without_extra_args() {
    let (name, args) = build_proxy(JfrProxyKind::QuickAnalysis, "/tmp/a.jfr", None);
    assert_eq!(name, "smartQuickAnalysis");
    assert_eq!(args["jfr_file_path"], "/tmp/a.jfr");
    assert_eq!(args["async"], false);
    assert_eq!(args.as_object().unwrap().len(), 2);
}

#[test]
fn test_build_proxy_no_top_n_injection_after_upstream_fix() {
    let (_, args) = build_proxy(JfrProxyKind::ThreadCpu, "/tmp/a.jfr", None);
    assert!(
        args.get("top_n").is_none(),
        "top_n must not be injected anymore (upstream patch handles the default)"
    );
    let (_, args) = build_proxy(JfrProxyKind::VirtualThreads, "/tmp/a.jfr", Some(&json(r#"{"top_n": null}"#)));
    assert!(
        args.get("top_n").map(|v| v.is_null()).unwrap_or(false),
        "explicit null must be passed through untouched (upstream handles it)"
    );
    let (_, args) = build_proxy(JfrProxyKind::ThreadContention, "/tmp/a.jfr", Some(&json(r#"{"top_n": 5}"#)));
    assert_eq!(args["top_n"], 5);
}

#[test]
fn test_build_compare_two_paths() {
    let (name, args) =
        build_compare("/tmp/base.jfr", "/tmp/target.jfr", Some(&json(r#"{"async": true}"#)));
    assert_eq!(name, "compareRecordings");
    assert_eq!(args["baseline_jfr_path"], "/tmp/base.jfr");
    assert_eq!(args["target_jfr_path"], "/tmp/target.jfr");
    assert_eq!(args["async"], false);

    let (_, args) = build_compare(
        "/tmp/base.jfr",
        "/tmp/target.jfr",
        Some(&json(r#"{"baseline_jfr_path": "/stale.jfr", "target_jfr_path": "/stale.jfr"}"#)),
    );
    assert_eq!(args["baseline_jfr_path"], "/tmp/base.jfr");
    assert_eq!(args["target_jfr_path"], "/tmp/target.jfr");
}

#[test]
fn test_upstream_name_table_complete() {
    let kinds = [
        JfrProxyKind::Overview,
        JfrProxyKind::Rules,
        JfrProxyKind::QuickAnalysis,
        JfrProxyKind::GcDetail,
        JfrProxyKind::MemoryLeaks,
        JfrProxyKind::PredictiveLeak,
        JfrProxyKind::AllocationHotspots,
        JfrProxyKind::HotMethods,
        JfrProxyKind::ThreadCpu,
        JfrProxyKind::CpuFlame,
        JfrProxyKind::ThreadContention,
        JfrProxyKind::DeadlockDetection,
        JfrProxyKind::IoHotspots,
        JfrProxyKind::Exceptions,
        JfrProxyKind::Errors,
        JfrProxyKind::Safepoints,
        JfrProxyKind::VirtualThreads,
        JfrProxyKind::StackTraceSearch,
        JfrProxyKind::Correlate,
        JfrProxyKind::RequestWaterfall,
    ];
    assert_eq!(kinds.len(), 20);
    let names: Vec<&str> = kinds.iter().map(|k| k.upstream_name()).collect();
    assert!(names.iter().all(|n| !n.is_empty()));
    let mut sorted = names.clone();
    sorted.sort();
    sorted.dedup();
    assert_eq!(sorted.len(), names.len(), "upstream names must be unique");
}

#[test]
fn extra_arguments_that_are_no_object_are_left_out() {
    let extra = json("[1, 2]");
    let (_, args) = build_proxy(JfrProxyKind::Rules, "/tmp/a.jfr", Some(&extra));
    assert_eq!(args.as_object().unwrap().len(), 2);
}

#[test]
fn the_header_of_jcmd_does_not_matter() {
    for said in ["1.8.0_392", "JDK 21.0.10", "nothing", "", "\n\n11.0.21+9-LTS"] {
        assert_eq!(parse_vm_major_version(&format!("1234:\n{said}")), parse_vm_major_version(said));
    }
}

#[test]
fn old_and_new_versions_name_the_same_major() {
    for (n, tail) in [(8, "0_392"), (21, ""), (0, "\r\n7.1"), (17, "x 9.9"), (11, ".:")] {
        assert_eq!(parse_vm_major_version(&format!("{n}.{tail}")), Some(n));
        assert_eq!(parse_vm_major_version(&format!("1.{n}.{tail}")), Some(n));
    }
    assert_eq!(parse_vm_major_version("1.x"), None);
}
