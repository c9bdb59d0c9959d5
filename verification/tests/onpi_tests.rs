use yoyopod::checks::{
    config_files_result, dry_run_check_result, missing_runtime_binary, nearest_existing_parent,
    path_join, required_config_files, runtime_paths_check, worker_binaries_result, DryRunRun,
    RuntimePaths,
};
use yoyopod::report::{exit_code, summary_lines, CheckResult, CheckStatus};
use yoyopod::stages::deploy;

#[test]
fn exit_code_fails_on_any_fail() {
    let results = vec![CheckResult::pass("a", "ok"), CheckResult::fail("b", "broken")];
    assert_eq!(exit_code(&results), 1);
}

#[test]
fn exit_code_passes_with_warns() {
    let results = vec![CheckResult::pass("a", "ok"), CheckResult::warn("b", "meh")];
    assert_eq!(exit_code(&results), 0);
}

#[test]
fn status_renders_four_chars() {
    assert_eq!(CheckStatus::Pass.to_string(), "PASS");
    assert_eq!(CheckStatus::Warn.to_string(), "WARN");
    assert_eq!(CheckStatus::Fail.to_string(), "FAIL");
}

#[test]
fn summary_lists_each_result_under_a_rule() {
    let results = vec![CheckResult::pass("config", "ok"), CheckResult::fail("units", "missing")];
    let lines = summary_lines("deploy", &results);
    assert_eq!(lines[0], "");
    assert_eq!(lines[1], "YoYoPod target validation summary: deploy");
    assert_eq!(lines[2], "=".repeat(48));
    assert_eq!(lines[3], "[PASS] config: ok");
    assert_eq!(lines[4], "[FAIL] units: missing");
}

#[test]
fn required_config_files_are_rooted_at_config_dir() {
    let files = required_config_files("config");
    assert_eq!(files.len(), 9);
    assert!(files.iter().all(|path| std::path::Path::new(path).starts_with("config")));
    assert!(files
        .iter()
        .any(|path| path.ends_with("communication/integrations/liblinphone_factory.conf")));
}

#[test]
fn nearest_existing_parent_walks_up() {
    let parent = nearest_existing_parent("definitely/not/a/real/path/file.log");
    assert!(std::path::Path::new(&parent).exists());
}

#[test]
fn runtime_dry_run_fails_on_missing_binary() {
    let result = missing_runtime_binary("no/such/binary");
    assert_eq!(result.status, CheckStatus::Fail);
    assert!(result.details.contains("missing Rust runtime binary"));
}

#[test]
fn paths_join_like_the_standard_library() {
    assert_eq!(path_join("config", "app/core.yaml"), "config/app/core.yaml");
    assert_eq!(path_join("config/", "x"), "config/x");
    assert_eq!(path_join("config", "/etc/x"), "/etc/x");
}

#[test]
fn config_check_lists_missing_files() {
    let files = vec!["c/a".to_string(), "c/b".to_string(), "c/c".to_string()];
    let result = config_files_result(&files, &vec![true, false, false]);
    assert_eq!(result.status, CheckStatus::Fail);
    assert_eq!(result.details, "missing required config files: c/b, c/c");
    let result = config_files_result(&files, &vec![true, true, true]);
    assert_eq!(result.status, CheckStatus::Pass);
    assert_eq!(result.details, "c/a, c/b, c/c");
}

#[test]
fn worker_binaries_check_names_the_artifact_to_deploy() {
    let paths = vec!["a".to_string(), "b".to_string()];
    let result = worker_binaries_result(&paths, &vec![false, true]);
    assert_eq!(result.name, "worker_binaries");
    assert_eq!(
        result.details,
        "missing or non-executable CI-built binaries: a. Deploy the yoyopod-rust-device-arm64-<sha> artifact for this commit; do not build Rust binaries on the Pi."
    );
    let result = worker_binaries_result(&paths, &vec![true, true]);
    assert_eq!(result.status, CheckStatus::Pass);
    assert_eq!(result.details, "a, b");
}

#[test]
fn runtime_paths_report_each_parent() {
    let parents = vec!["logs".to_string(), "logs".to_string(), "/opt".to_string(), "/tmp".to_string()];
    let result = runtime_paths_check(&parents, &vec![true, true, true, true]);
    assert_eq!(result.status, CheckStatus::Pass);
    assert_eq!(
        result.details,
        "log_parent=logs, error_log_parent=logs, pid_parent=/opt, screenshot_parent=/tmp"
    );
    let result = runtime_paths_check(&parents, &vec![true, true, false, true]);
    assert_eq!(result.status, CheckStatus::Fail);
    assert_eq!(result.details, "pid_parent_not_writable=/opt");
    let defaults = RuntimePaths::defaults();
    assert_eq!(defaults.pid_file, "/opt/yoyopod-dev/state/yoyopod.pid");
}

#[test]
fn dry_run_results_follow_the_run() {
    let timed_out = DryRunRun::Finished {
        timed_out: true,
        exit_code: None,
        stdout: String::new(),
        stderr: String::new(),
    };
    assert_eq!(dry_run_check_result("w", &timed_out, Ok(0)).details, "dry-run timed out after 10s");
    let failed = DryRunRun::Finished {
        timed_out: false,
        exit_code: Some(-3),
        stdout: "  ".to_string(),
        stderr: String::new(),
    };
    assert_eq!(dry_run_check_result("w", &failed, Ok(0)).details, "dry-run exited Some(-3)");
    let ok = DryRunRun::Finished {
        timed_out: false,
        exit_code: Some(0),
        stdout: "{}".to_string(),
        stderr: String::new(),
    };
    let result = dry_run_check_result("bin/runtime", &ok, Ok(7));
    assert_eq!(result.status, CheckStatus::Pass);
    assert_eq!(result.details, "binary=bin/runtime, dry_run=ok, worker_paths=7");
    let bad = dry_run_check_result("w", &ok, Err("EOF".to_string()));
    assert_eq!(bad.details, "dry-run did not emit JSON config: EOF");
}

#[test]
fn dry_run_counts_worker_paths_in_the_json_output() {
    let ok = DryRunRun::Finished {
        timed_out: false,
        exit_code: Some(0),
        stdout: r#"{"worker_paths": {"ui": "a", "media": "b"}}"#.to_string(),
        stderr: String::new(),
    };
    let result = yoyopod::checks::dry_run_result("w", &ok);
    assert_eq!(result.details, "binary=w, dry_run=ok, worker_paths=2");
    let not_json = DryRunRun::Finished {
        timed_out: false,
        exit_code: Some(0),
        stdout: "hello".to_string(),
        stderr: String::new(),
    };
    let result = yoyopod::checks::dry_run_result("w", &not_json);
    assert_eq!(result.status, CheckStatus::Fail);
    assert!(result.details.starts_with("dry-run did not emit JSON config: "));
}

#[test]
fn deploy_fails_when_a_check_fails() {
    let binaries = vec!["no/such/binary".to_string()];
    let parents = vec![".".to_string(), ".".to_string(), ".".to_string(), ".".to_string()];
    let (lines, code) = deploy("no-such-config-dir", &binaries, &vec![false], &parents, &vec![true; 4]);
    assert_eq!(code, 1);
    assert_eq!(lines[1], "YoYoPod target validation summary: deploy");
    assert_eq!(lines.len(), 7);
}
