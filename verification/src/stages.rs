//! Validation stages: each runs its checks and turns them into the summary an
//! operator reads and the process exit code.
use vstd::prelude::*;
use crate::checks::{
    config_files_check, config_files_outcome, outcome, required_config_spec, runtime_paths_check,
    runtime_paths_outcome, systemd_units_check, systemd_units_outcome, worker_binaries_check,
    worker_binaries_outcome,
};
use crate::text::views;
use crate::report::{any_failed, exit_code, summary_lines, summary_spec, CheckResult};

verus! {

/// The four deploy checks, each as its check function states it: the config
/// files under `config_dir` (with which are present), the worker binaries
/// (with which are there and may be executed), the systemd units (with which
/// are present), and the runtime directories (with which are writable).
pub open spec fn deploy_checks(
    results: Seq<CheckResult>,
    config_dir: Seq<char>,
    binaries: Seq<Seq<char>>,
    executable: Seq<bool>,
    parents: Seq<Seq<char>>,
    writable: Seq<bool>,
) -> bool {
    &&& results.len() == 4
    &&& results[0].name@ == "config"@
    &&& results[1].name@ == "worker_binaries"@
    &&& results[2].name@ == "systemd_units"@
    &&& results[3].name@ == "runtime_paths"@
    &&& exists|present: Seq<bool>|
        present.len() == 9 && outcome(results[0]) == config_files_outcome(required_config_spec(config_dir), present)
    &&& exists|usable: Seq<bool>|
        usable.len() == binaries.len() && (forall|i: int| 0 <= i < usable.len() && #[trigger] usable[i] ==> executable[i])
            && outcome(results[1]) == worker_binaries_outcome(binaries, usable)
    &&& exists|present: Seq<bool>| present.len() == 2 && outcome(results[2]) == systemd_units_outcome(present)
    &&& outcome(results[3]) == runtime_paths_outcome(parents, writable)
}

/// The deploy stage: config files, worker binaries (with which of `binaries`
/// may be executed), systemd units and runtime directories (with which of
/// `parents` are writable). Returns the summary lines and the exit code: 1
/// when any check failed, else 0.
pub fn deploy(
    config_dir: &str,
    binaries: &Vec<String>,
    executable: &Vec<bool>,
    parents: &Vec<String>,
    writable: &Vec<bool>,
) -> (r: (Vec<String>, i32))
    requires
        executable@.len() == binaries@.len(),
        parents@.len() == 4,
        writable@.len() == 4,
    ensures
        exists|results: Seq<CheckResult>|
            #![trigger summary_spec("deploy"@, results)]
            deploy_checks(results, config_dir@, views(binaries@), executable@, views(parents@), writable@)
                && r.0@.map_values(|l: String| l@) == summary_spec("deploy"@, results) && r.1 == (if any_failed(
                results,
            ) {
                1i32
            } else {
                0i32
            }),
{
    let results = vec![
        config_files_check(config_dir),
        worker_binaries_check(binaries, executable),
        systemd_units_check(),
        runtime_paths_check(parents, writable),
    ];
    assert(deploy_checks(results@, config_dir@, views(binaries@), executable@, views(parents@), writable@));
    let lines = summary_lines("deploy", results.as_slice());
    let code = exit_code(results.as_slice());
    (lines, code)
}

} // verus!
