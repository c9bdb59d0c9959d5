//! The deploy checks run on the device: which files and binaries must be
//! there, how their paths are found in a slot checkout, and what each check
//! reports.
use vstd::prelude::*;
use crate::json::{json_member, json_object_len, json_parse, member, object_len, parse};
use crate::report::{CheckResult, CheckStatus};
use crate::text::{chars_of, contains, contains_str, str_eq, join, join_strings, owned, push_decimal, push_str, string_of, trim, trimmed, views};

verus! {

// ---------------------------------------------------------------------------
// Paths
// ---------------------------------------------------------------------------

/// `base` joined with `rel` as `Path::join` joins them: an absolute `rel`
/// replaces `base`; otherwise a separator goes between unless `base` (when not
/// empty) already ends with one.
pub open spec fn path_join_spec(base: Seq<char>, rel: Seq<char>) -> Seq<char> {
    if rel.len() > 0 && rel[0] == '/' {
        rel
    } else if base.len() == 0 || base.last() == '/' {
        base + rel
    } else {
        base + "/"@ + rel
    }
}

pub fn path_join(base: &str, rel: &str) -> (r: String)
    ensures
        r@ == path_join_spec(base@, rel@),
{
    proof {
        reveal_strlit("/");
    }
    let b = crate::text::chars_of(base);
    let r = crate::text::chars_of(rel);
    if r.len() > 0 && r[0] == '/' {
        return owned(rel);
    }
    let mut out: Vec<char> = Vec::new();
    push_str(&mut out, base);
    if !(b.len() == 0 || b[b.len() - 1] == '/') {
        push_str(&mut out, "/");
    }
    push_str(&mut out, rel);
    string_of(&out)
}

/// `Path::exists`: whether something is at `path` now. Nothing is stated of
/// the answer, which depends on the file system.
#[verifier::external_body]
pub(crate) fn path_exists(path: &str) -> bool {
    std::path::Path::new(path).exists()
}

/// `Path::is_dir`: whether a directory is at `path` now. Nothing is stated
/// of the answer, which depends on the file system.
#[verifier::external_body]
pub(crate) fn path_is_dir(path: &str) -> bool {
    std::path::Path::new(path).is_dir()
}

/// What `Path::parent` gives for a path.
pub uninterp spec fn parent_of(path: Seq<char>) -> Option<Seq<char>>;

/// `Path::parent`: the path without its final component, if it has one.
/// Stated: the result is a proper prefix of the path.
#[verifier::external_body]
pub(crate) fn path_parent(path: &str) -> (r: Option<String>)
    ensures
        match r {
            Some(p) => parent_of(path@) == Some(p@) && p@.len() < path@.len() && path@.subrange(
                0,
                p@.len() as int,
            ) == p@,
            None => parent_of(path@) is None,
        },
{
    std::path::Path::new(path).parent().map(|p| p.to_string_lossy().into_owned())
}

/// The path of `relative` in a slot checkout, which nests the tree under
/// `app/`.
pub open spec fn slot_path(relative: Seq<char>) -> Seq<char> {
    path_join_spec("app"@, relative)
}

/// Resolves a repo-relative path, preferring the slot layout
/// (`app/<path>`) when something is there.
pub fn slot_aware_path(relative: &str) -> (r: String)
    ensures
        r@ == slot_path(relative@) || r@ == relative@,
{
    let candidate = path_join("app", relative);
    if path_exists(candidate.as_str()) {
        candidate
    } else {
        owned(relative)
    }
}

pub fn default_runtime_worker() -> (r: String)
    ensures
        r@ == slot_path("device/runtime/build/yoyopod-runtime"@) || r@
            == "device/runtime/build/yoyopod-runtime"@,
{
    slot_aware_path("device/runtime/build/yoyopod-runtime")
}

pub fn default_ui_worker() -> (r: String)
    ensures
        r@ == slot_path("device/ui/build/yoyopod-ui-host"@) || r@ == "device/ui/build/yoyopod-ui-host"@,
{
    slot_aware_path("device/ui/build/yoyopod-ui-host")
}

/// The path `n` steps up from `path` by `Path::parent`, if it goes that far.
pub open spec fn ancestor(path: Seq<char>, n: nat) -> Option<Seq<char>>
    decreases n,
{
    if n == 0 {
        Some(path)
    } else {
        match ancestor(path, (n - 1) as nat) {
            Some(p) => parent_of(p),
            None => None,
        }
    }
}

/// Whether `dir` is the path itself or one of its ancestors.
pub open spec fn on_parent_chain(path: Seq<char>, dir: Seq<char>) -> bool {
    exists|n: nat| ancestor(path, n) == Some(dir)
}

/// The directory whose writability stands for a file's: the path itself when
/// it is a directory, else the nearest ancestor that exists, else `.`.
/// Stated: the answer is `.`, or a non-empty path on the path's chain of
/// parents (and so a prefix of it). Which one depends on the file system.
pub fn nearest_existing_parent(path: &str) -> (r: String)
    ensures
        r@ == "."@ || (r@.len() > 0 && on_parent_chain(path@, r@)),
        r@ == "."@ || (r@.len() <= path@.len() && path@.subrange(0, r@.len() as int) == r@),
{
    let mut candidate = if path_is_dir(path) {
        proof {
            assert(ancestor(path@, 0) == Some(path@));
        }
        owned(path)
    } else {
        match path_parent(path) {
            Some(p) => {
                proof {
                    assert(ancestor(path@, 1) == Some(p@));
                }
                p
            },
            None => String::new(),
        }
    };
    assert(candidate@.len() <= path@.len() && path@.subrange(0, candidate@.len() as int) == candidate@);
    while crate::text::chars_of(candidate.as_str()).len() > 0 && !path_exists(candidate.as_str())
        invariant
            candidate@.len() <= path@.len(),
            path@.subrange(0, candidate@.len() as int) == candidate@,
            candidate@.len() == 0 || on_parent_chain(path@, candidate@),
        decreases candidate@.len(),
    {
        match path_parent(candidate.as_str()) {
            Some(p) => {
                assert(path@.subrange(0, p@.len() as int) =~= candidate@.subrange(0, p@.len() as int));
                proof {
                    let n = choose|n: nat| ancestor(path@, n) == Some(candidate@);
                    assert(ancestor(path@, n + 1) == Some(p@));
                }
                candidate = p;
            },
            None => {
                break;
            },
        }
    }
    if crate::text::chars_of(candidate.as_str()).len() == 0 {
        owned(".")
    } else {
        candidate
    }
}

// ---------------------------------------------------------------------------
// Checks
// ---------------------------------------------------------------------------

/// The runtime config files, relative to the config directory.
pub open spec fn config_file_suffixes() -> Seq<Seq<char>> {
    seq![
        "app/core.yaml"@,
        "audio/music.yaml"@,
        "device/hardware.yaml"@,
        "voice/assistant.yaml"@,
        "communication/calling.yaml"@,
        "communication/messaging.yaml"@,
        "communication/integrations/liblinphone_factory.conf"@,
        "people/directory.yaml"@,
        "people/contacts.seed.yaml"@,
    ]
}

pub open spec fn required_config_spec(config_dir: Seq<char>) -> Seq<Seq<char>> {
    config_file_suffixes().map_values(|s: Seq<char>| path_join_spec(config_dir, s))
}

fn config_suffixes() -> (v: Vec<&'static str>)
    ensures
        v@.map_values(|s: &'static str| s@) == config_file_suffixes(),
{
    let v = vec![
        "app/core.yaml",
        "audio/music.yaml",
        "device/hardware.yaml",
        "voice/assistant.yaml",
        "communication/calling.yaml",
        "communication/messaging.yaml",
        "communication/integrations/liblinphone_factory.conf",
        "people/directory.yaml",
        "people/contacts.seed.yaml",
    ];
    assert(v@.map_values(|s: &'static str| s@) =~= config_file_suffixes());
    v
}

/// The config files the runtime requires, under `config_dir`.
pub fn required_config_files(config_dir: &str) -> (files: Vec<String>)
    ensures
        views(files@) == required_config_spec(config_dir@),
{
    let suffixes = config_suffixes();
    let ghost target = required_config_spec(config_dir@);
    let mut files: Vec<String> = Vec::new();
    let mut i: usize = 0;
    while i < suffixes.len()
        invariant
            i <= suffixes@.len(),
            suffixes@.map_values(|s: &'static str| s@) == config_file_suffixes(),
            target == required_config_spec(config_dir@),
            views(files@) == target.subrange(0, i as int),
        decreases suffixes.len() - i,
    {
        assert(suffixes@[i as int]@ == config_file_suffixes()[i as int]);
        let f = path_join(config_dir, suffixes[i]);
        let ghost prev = files@;
        files.push(f);
        assert(views(files@) =~= views(prev).push(f@));
        assert(target.subrange(0, i + 1) =~= target.subrange(0, i as int).push(target[i as int]));
        i = i + 1;
    }
    assert(target.subrange(0, target.len() as int) =~= target);
    files
}

/// The items whose flag says they are missing.
pub open spec fn missing_of(items: Seq<Seq<char>>, present: Seq<bool>) -> Seq<Seq<char>>
    decreases items.len(),
{
    if items.len() == 0 {
        Seq::empty()
    } else if present[items.len() - 1] {
        missing_of(items.drop_last(), present)
    } else {
        missing_of(items.drop_last(), present).push(items.last())
    }
}

fn missing_items(items: &Vec<String>, present: &Vec<bool>) -> (m: Vec<String>)
    requires
        present@.len() == items@.len(),
    ensures
        views(m@) == missing_of(views(items@), present@),
{
    let mut m: Vec<String> = Vec::new();
    let mut i: usize = 0;
    while i < items.len()
        invariant
            i <= items@.len(),
            present@.len() == items@.len(),
            views(m@) == missing_of(views(items@.subrange(0, i as int)), present@),
        decreases items.len() - i,
    {
        let ghost prev = m@;
        assert(views(items@.subrange(0, i + 1)).drop_last() =~= views(items@.subrange(0, i as int)));
        if !present[i] {
            m.push(items[i].clone());
            assert(views(m@) =~= views(prev).push(items@[i as int]@));
        }
        i = i + 1;
    }
    assert(items@.subrange(0, items@.len() as int) =~= items@);
    m
}

/// The config check: failed with the missing files, or passed with all of
/// them.
pub open spec fn config_files_outcome(files: Seq<Seq<char>>, present: Seq<bool>) -> (CheckStatus, Seq<char>) {
    let missing = missing_of(files, present);
    if missing.len() > 0 {
        (CheckStatus::Fail, "missing required config files: "@ + join(missing, ", "@))
    } else {
        (CheckStatus::Pass, join(files, ", "@))
    }
}

pub open spec fn outcome(r: CheckResult) -> (CheckStatus, Seq<char>) {
    (r.status, r.details@)
}

/// The config check for these files, given which of them are present.
pub fn config_files_result(files: &Vec<String>, present: &Vec<bool>) -> (r: CheckResult)
    requires
        present@.len() == files@.len(),
    ensures
        r.name@ == "config"@,
        outcome(r) == config_files_outcome(views(files@), present@),
{
    let missing = missing_items(files, present);
    if missing.len() > 0 {
        let mut out: Vec<char> = Vec::new();
        push_str(&mut out, "missing required config files: ");
        let list = join_strings(&missing, ", ");
        push_str(&mut out, list.as_str());
        let details = string_of(&out);
        return CheckResult::fail("config", details.as_str());
    }
    let all = join_strings(files, ", ");
    CheckResult::pass("config", all.as_str())
}

fn presence(paths: &Vec<String>) -> (present: Vec<bool>)
    ensures
        present@.len() == paths@.len(),
{
    let mut present: Vec<bool> = Vec::new();
    let mut i: usize = 0;
    while i < paths.len()
        invariant
            i <= paths@.len(),
            present@.len() == i,
        decreases paths.len() - i,
    {
        present.push(path_exists(paths[i].as_str()));
        i = i + 1;
    }
    present
}

/// Checks that the tracked runtime config files are present.
pub fn config_files_check(config_dir: &str) -> (r: CheckResult)
    ensures
        r.name@ == "config"@,
        exists|present: Seq<bool>|
            present.len() == 9 && outcome(r) == config_files_outcome(
                required_config_spec(config_dir@),
                present,
            ),
{
    let files = required_config_files(config_dir);
    let present = presence(&files);
    let r = config_files_result(&files, &present);
    assert(present@.len() == 9);
    r
}

/// The worker binaries the CI builds, relative to the checkout.
pub open spec fn worker_binaries_spec() -> Seq<Seq<char>> {
    seq![
        "device/runtime/build/yoyopod-runtime"@,
        "device/ui/build/yoyopod-ui-host"@,
        "device/cloud/build/yoyopod-cloud-host"@,
        "device/media/build/yoyopod-media-host"@,
        "device/voip/build/yoyopod-voip-host"@,
        "device/network/build/yoyopod-network-host"@,
        "device/power/build/yoyopod-power-host"@,
        "device/speech/build/yoyopod-speech-host"@,
    ]
}

pub fn worker_binaries() -> (v: Vec<&'static str>)
    ensures
        v@.map_values(|s: &'static str| s@) == worker_binaries_spec(),
{
    let v = vec![
        "device/runtime/build/yoyopod-runtime",
        "device/ui/build/yoyopod-ui-host",
        "device/cloud/build/yoyopod-cloud-host",
        "device/media/build/yoyopod-media-host",
        "device/voip/build/yoyopod-voip-host",
        "device/network/build/yoyopod-network-host",
        "device/power/build/yoyopod-power-host",
        "device/speech/build/yoyopod-speech-host",
    ];
    assert(v@.map_values(|s: &'static str| s@) =~= worker_binaries_spec());
    v
}

/// The items whose flag says they are present.
pub open spec fn present_of(items: Seq<Seq<char>>, present: Seq<bool>) -> Seq<Seq<char>> {
    missing_of(items, present.map_values(|b: bool| !b))
}

pub open spec fn worker_binaries_outcome(paths: Seq<Seq<char>>, usable: Seq<bool>) -> (CheckStatus, Seq<char>) {
    let missing = missing_of(paths, usable);
    if missing.len() > 0 {
        (
            CheckStatus::Fail,
            "missing or non-executable CI-built binaries: "@ + join(missing, ", "@)
                + ". Deploy the yoyopod-rust-device-arm64-<sha> artifact for this commit; do not build Rust binaries on the Pi."@,
        )
    } else {
        (CheckStatus::Pass, join(present_of(paths, usable), ", "@))
    }
}

/// The binaries check for these paths, given which are present and
/// executable.
pub fn worker_binaries_result(paths: &Vec<String>, usable: &Vec<bool>) -> (r: CheckResult)
    requires
        usable@.len() == paths@.len(),
    ensures
        r.name@ == "worker_binaries"@,
        outcome(r) == worker_binaries_outcome(views(paths@), usable@),
{
    let missing = missing_items(paths, usable);
    if missing.len() > 0 {
        let mut out: Vec<char> = Vec::new();
        push_str(&mut out, "missing or non-executable CI-built binaries: ");
        let list = join_strings(&missing, ", ");
        push_str(&mut out, list.as_str());
        push_str(
            &mut out,
            ". Deploy the yoyopod-rust-device-arm64-<sha> artifact for this commit; do not build Rust binaries on the Pi.",
        );
        let details = string_of(&out);
        return CheckResult::fail("worker_binaries", details.as_str());
    }
    let mut negated: Vec<bool> = Vec::new();
    let mut i: usize = 0;
    while i < usable.len()
        invariant
            i <= usable@.len(),
            negated@ == usable@.subrange(0, i as int).map_values(|b: bool| !b),
        decreases usable.len() - i,
    {
        negated.push(!usable[i]);
        assert(usable@.subrange(0, i + 1).map_values(|b: bool| !b) =~= usable@.subrange(0, i as int).map_values(|b: bool| !b).push(!usable@[i as int]));
        i = i + 1;
    }
    assert(usable@.subrange(0, usable@.len() as int) =~= usable@);
    let found = missing_items(paths, &negated);
    let all = join_strings(&found, ", ");
    CheckResult::pass("worker_binaries", all.as_str())
}

/// The paths of the worker binaries in this checkout.
pub fn worker_binary_paths() -> (paths: Vec<String>)
    ensures
        paths@.len() == worker_binaries_spec().len(),
        forall|i: int|
            0 <= i < paths@.len() ==> (#[trigger] paths@[i])@ == slot_path(worker_binaries_spec()[i])
                || paths@[i]@ == worker_binaries_spec()[i],
{
    let names = worker_binaries();
    let mut paths: Vec<String> = Vec::new();
    let mut i: usize = 0;
    while i < names.len()
        invariant
            i <= names@.len(),
            names@.map_values(|s: &'static str| s@) == worker_binaries_spec(),
            paths@.len() == i,
            forall|j: int|
                0 <= j < i ==> (#[trigger] paths@[j])@ == slot_path(worker_binaries_spec()[j])
                    || paths@[j]@ == worker_binaries_spec()[j],
        decreases names.len() - i,
    {
        assert(names@[i as int]@ == worker_binaries_spec()[i as int]);
        paths.push(slot_aware_path(names[i]));
        i = i + 1;
    }
    paths
}

/// Checks that every CI-built worker binary is present; `executable` says,
/// for each of them, whether it may be run.
pub fn worker_binaries_check(paths: &Vec<String>, executable: &Vec<bool>) -> (r: CheckResult)
    requires
        executable@.len() == paths@.len(),
    ensures
        r.name@ == "worker_binaries"@,
        exists|usable: Seq<bool>|
            usable.len() == paths@.len() && (forall|i: int| 0 <= i < usable.len() && #[trigger] usable[i] ==> executable@[i])
                && outcome(r) == worker_binaries_outcome(views(paths@), usable),
{
    let mut usable: Vec<bool> = Vec::new();
    let mut i: usize = 0;
    while i < paths.len()
        invariant
            i <= paths@.len(),
            executable@.len() == paths@.len(),
            usable@.len() == i,
            forall|j: int| 0 <= j < i && #[trigger] usable@[j] ==> executable@[j],
        decreases paths.len() - i,
    {
        usable.push(path_exists(paths[i].as_str()) && executable[i]);
        i = i + 1;
    }
    worker_binaries_result(paths, &usable)
}

/// The systemd units of the two lanes.
pub open spec fn systemd_units_spec() -> Seq<Seq<char>> {
    seq!["deploy/systemd/yoyopod-dev.service"@, "deploy/systemd/yoyopod-prod.service"@]
}

pub open spec fn systemd_units_outcome(present: Seq<bool>) -> (CheckStatus, Seq<char>) {
    let missing = missing_of(systemd_units_spec(), present);
    if missing.len() > 0 {
        (CheckStatus::Fail, "missing systemd unit files: "@ + join(missing, ", "@))
    } else {
        (CheckStatus::Pass, join(systemd_units_spec(), ", "@))
    }
}

/// Checks that the systemd lane units are present in the checkout.
pub fn systemd_units_check() -> (r: CheckResult)
    ensures
        r.name@ == "systemd_units"@,
        exists|present: Seq<bool>| present.len() == 2 && outcome(r) == systemd_units_outcome(present),
{
    let units = vec![owned("deploy/systemd/yoyopod-dev.service"), owned("deploy/systemd/yoyopod-prod.service")];
    assert(views(units@) =~= systemd_units_spec());
    let mut present: Vec<bool> = Vec::new();
    let mut i: usize = 0;
    while i < units.len()
        invariant
            i <= units@.len(),
            present@.len() == i,
        decreases units.len() - i,
    {
        let p = slot_aware_path(units[i].as_str());
        present.push(path_exists(p.as_str()));
        i = i + 1;
    }
    let missing = missing_items(&units, &present);
    if missing.len() > 0 {
        let mut out: Vec<char> = Vec::new();
        push_str(&mut out, "missing systemd unit files: ");
        let list = join_strings(&missing, ", ");
        push_str(&mut out, list.as_str());
        let details = string_of(&out);
        return CheckResult::fail("systemd_units", details.as_str());
    }
    let all = join_strings(&units, ", ");
    CheckResult::pass("systemd_units", all.as_str())
}

/// A directory that can stand for a file's: `.` or a prefix of its path.
pub open spec fn stands_for(dir: Seq<char>, path: Seq<char>) -> bool {
    dir == "."@ || (dir.len() <= path.len() && path.subrange(0, dir.len() as int) == dir)
}

/// Runtime files whose directories must be reachable and writable.
#[derive(Debug)]
pub struct RuntimePaths {
    pub log_file: String,
    pub error_log_file: String,
    pub pid_file: String,
    pub screenshot_path: String,
}

impl RuntimePaths {
    /// The tracked deploy contract's paths.
    pub fn defaults() -> (p: Self)
        ensures
            p.log_file@ == "logs/yoyopod.log"@,
            p.error_log_file@ == "logs/yoyopod_errors.log"@,
            p.pid_file@ == "/opt/yoyopod-dev/state/yoyopod.pid"@,
            p.screenshot_path@ == "/tmp/yoyopod_screenshot.png"@,
    {
        RuntimePaths {
            log_file: owned("logs/yoyopod.log"),
            error_log_file: owned("logs/yoyopod_errors.log"),
            pid_file: owned("/opt/yoyopod-dev/state/yoyopod.pid"),
            screenshot_path: owned("/tmp/yoyopod_screenshot.png"),
        }
    }

    /// The directories that stand for the log, error log, pid and screenshot
    /// files, in that order.
    pub fn parents(&self) -> (v: Vec<String>)
        ensures
            v@.len() == 4,
            stands_for(v@[0]@, self.log_file@),
            stands_for(v@[1]@, self.error_log_file@),
            stands_for(v@[2]@, self.pid_file@),
            stands_for(v@[3]@, self.screenshot_path@),
    {
        vec![
            nearest_existing_parent(self.log_file.as_str()),
            nearest_existing_parent(self.error_log_file.as_str()),
            nearest_existing_parent(self.pid_file.as_str()),
            nearest_existing_parent(self.screenshot_path.as_str()),
        ]
    }
}

pub open spec fn runtime_path_names() -> Seq<Seq<char>> {
    seq!["log"@, "error_log"@, "pid"@, "screenshot"@]
}

pub open spec fn parent_details(names: Seq<Seq<char>>, parents: Seq<Seq<char>>) -> Seq<Seq<char>> {
    Seq::new(names.len(), |i: int| names[i] + "_parent="@ + parents[i])
}

pub open spec fn failure_details(names: Seq<Seq<char>>, parents: Seq<Seq<char>>) -> Seq<Seq<char>> {
    Seq::new(names.len(), |i: int| names[i] + "_parent_not_writable="@ + parents[i])
}

/// The runtime paths check: failed with each directory that cannot be
/// written, or passed with every directory.
pub open spec fn runtime_paths_outcome(parents: Seq<Seq<char>>, writable: Seq<bool>) -> (CheckStatus, Seq<char>) {
    let failures = missing_of(failure_details(runtime_path_names(), parents), writable);
    if failures.len() > 0 {
        (CheckStatus::Fail, join(failures, ", "@))
    } else {
        (CheckStatus::Pass, join(parent_details(runtime_path_names(), parents), ", "@))
    }
}

/// The runtime paths check for the directories of the log, error log, pid and
/// screenshot files, given which of them are writable.
pub fn runtime_paths_check(parents: &Vec<String>, writable: &Vec<bool>) -> (r: CheckResult)
    requires
        parents@.len() == 4,
        writable@.len() == 4,
    ensures
        r.name@ == "runtime_paths"@,
        outcome(r) == runtime_paths_outcome(views(parents@), writable@),
{
    let names = vec!["log", "error_log", "pid", "screenshot"];
    assert(names@.map_values(|s: &'static str| s@) =~= runtime_path_names());
    let mut details: Vec<String> = Vec::new();
    let mut failures: Vec<String> = Vec::new();
    let mut i: usize = 0;
    while i < 4
        invariant
            i <= 4,
            names@.len() == 4,
            names@.map_values(|s: &'static str| s@) == runtime_path_names(),
            parents@.len() == 4,
            views(details@) == parent_details(runtime_path_names(), views(parents@)).subrange(0, i as int),
            views(failures@) == failure_details(runtime_path_names(), views(parents@)).subrange(0, i as int),
        decreases 4 - i,
    {
        assert(names@[i as int]@ == runtime_path_names()[i as int]);
        let mut d: Vec<char> = Vec::new();
        push_str(&mut d, names[i]);
        push_str(&mut d, "_parent=");
        push_str(&mut d, parents[i].as_str());
        let mut f: Vec<char> = Vec::new();
        push_str(&mut f, names[i]);
        push_str(&mut f, "_parent_not_writable=");
        push_str(&mut f, parents[i].as_str());
        let ghost pd = details@;
        let ghost pf = failures@;
        details.push(string_of(&d));
        failures.push(string_of(&f));
        assert(views(details@) =~= views(pd).push(d@));
        assert(views(failures@) =~= views(pf).push(f@));
        assert(parent_details(runtime_path_names(), views(parents@)).subrange(0, i + 1) =~= parent_details(
            runtime_path_names(),
            views(parents@),
        ).subrange(0, i as int).push(d@));
        assert(failure_details(runtime_path_names(), views(parents@)).subrange(0, i + 1) =~= failure_details(
            runtime_path_names(),
            views(parents@),
        ).subrange(0, i as int).push(f@));
        i = i + 1;
    }
    assert(parent_details(runtime_path_names(), views(parents@)).subrange(0, 4) =~= parent_details(
        runtime_path_names(),
        views(parents@),
    ));
    assert(failure_details(runtime_path_names(), views(parents@)).subrange(0, 4) =~= failure_details(
        runtime_path_names(),
        views(parents@),
    ));
    let unwritable = missing_items(&failures, writable);
    if unwritable.len() > 0 {
        let text = join_strings(&unwritable, ", ");
        return CheckResult::fail("runtime_paths", text.as_str());
    }
    let text = join_strings(&details, ", ");
    CheckResult::pass("runtime_paths", text.as_str())
}

// ---------------------------------------------------------------------------
// The environment
// ---------------------------------------------------------------------------

/// The environment check for the OS and CPU architecture the validator runs
/// on: passed on ARM Linux, a warning elsewhere, with both and the
/// validator's version in its details.
pub fn environment_result(os: &str, arch: &str, version: &str) -> (r: CheckResult)
    ensures
        r.name@ == "environment"@,
        r.details@ == "os="@ + os@ + ", arch="@ + arch@ + ", validator="@ + version@,
        r.status == (if os@ == "linux"@ && (contains(arch@, "arm"@) || contains(arch@, "aarch"@)) {
            CheckStatus::Pass
        } else {
            CheckStatus::Warn
        }),
{
    let mut d: Vec<char> = Vec::new();
    push_str(&mut d, "os=");
    push_str(&mut d, os);
    push_str(&mut d, ", arch=");
    push_str(&mut d, arch);
    push_str(&mut d, ", validator=");
    push_str(&mut d, version);
    let details = string_of(&d);
    let a = chars_of(arch);
    if str_eq(os, "linux") && (contains_str(&a, "arm") || contains_str(&a, "aarch")) {
        CheckResult::pass("environment", details.as_str())
    } else {
        CheckResult::warn("environment", details.as_str())
    }
}

// ---------------------------------------------------------------------------
// The runtime's dry run
// ---------------------------------------------------------------------------

/// How long the runtime's dry run may take, in seconds.
pub const DRY_RUN_TIMEOUT_SECS: u64 = 10;

/// How a dry run of the runtime went.
#[derive(Debug)]
pub enum DryRunRun {
    /// It could not be started; the error's text.
    SpawnFailed(String),
    Finished { timed_out: bool, exit_code: Option<i32>, stdout: String, stderr: String },
}

/// What the dry run's output says: the number of entries under
/// `worker_paths` (0 when there is no such object), or the parse error's
/// text.
pub open spec fn dry_run_payload(stdout: Seq<char>) -> Result<nat, Seq<char>> {
    match json_parse(stdout) {
        Ok(payload) => Ok(
            match json_member(payload, "worker_paths"@) {
                Some(paths) => match json_object_len(paths) {
                    Some(n) => n,
                    None => 0,
                },
                None => 0,
            },
        ),
        Err(e) => Err(e),
    }
}

/// Counts the entries of the `worker_paths` object of the dry run's
/// output.
fn worker_path_count(stdout: &str) -> (r: Result<usize, String>)
    ensures
        match r {
            Ok(n) => dry_run_payload(stdout@) == Ok::<nat, Seq<char>>(n as nat),
            Err(e) => dry_run_payload(stdout@) == Err::<nat, Seq<char>>(e@),
        },
{
    match parse(stdout) {
        Ok(payload) => Ok(
            match member(&payload, "worker_paths") {
                Some(paths) => match object_len(&paths) {
                    Some(n) => n,
                    None => 0,
                },
                None => 0,
            },
        ),
        Err(e) => Err(e),
    }
}

/// A signed number as Rust prints it.
pub open spec fn int_text(n: int) -> Seq<char> {
    if n < 0 {
        "-"@ + crate::text::decimal((-n) as nat)
    } else {
        crate::text::decimal(n as nat)
    }
}

/// How `{:?}` prints an exit code.
pub open spec fn exit_code_debug(code: Option<i32>) -> Seq<char> {
    match code {
        Some(c) => "Some("@ + int_text(c as int) + ")"@,
        None => "None"@,
    }
}

fn push_exit_code_debug(out: &mut Vec<char>, code: Option<i32>)
    ensures
        final(out)@ == old(out)@ + exit_code_debug(code),
{
    match code {
        Some(c) => {
            push_str(out, "Some(");
            if c < 0 {
                push_str(out, "-");
                let m: i64 = -(c as i64);
                push_decimal(out, m as u64);
            } else {
                push_decimal(out, c as u64);
            }
            push_str(out, ")");
        },
        None => push_str(out, "None"),
    }
}

/// The dry-run check: failed when the run could not start, timed out, exited
/// with anything but 0 (with its error output, else its output, else the exit
/// code) or printed no JSON; passed with the count of configured workers.
pub open spec fn dry_run_outcome(
    worker: Seq<char>,
    run: DryRunRun,
    payload: Result<nat, Seq<char>>,
) -> (CheckStatus, Seq<char>) {
    match run {
        DryRunRun::SpawnFailed(e) => (CheckStatus::Fail, e@),
        DryRunRun::Finished { timed_out, exit_code, stdout, stderr } => if timed_out {
            (CheckStatus::Fail, "dry-run timed out after 10s"@)
        } else if exit_code != Some(0i32) {
            (
                CheckStatus::Fail,
                if trim(stderr@).len() > 0 {
                    trim(stderr@)
                } else if trim(stdout@).len() > 0 {
                    trim(stdout@)
                } else {
                    "dry-run exited "@ + exit_code_debug(exit_code)
                },
            )
        } else {
            match payload {
                Err(e) => (CheckStatus::Fail, "dry-run did not emit JSON config: "@ + e),
                Ok(n) => (
                    CheckStatus::Pass,
                    "binary="@ + worker + ", dry_run=ok, worker_paths="@ + crate::text::decimal(n),
                ),
            }
        },
    }
}

/// The dry-run check for a run of `worker`, given what its output parses to.
pub fn dry_run_check_result(worker: &str, run: &DryRunRun, payload: Result<usize, String>) -> (r: CheckResult)
    ensures
        r.name@ == "rust-runtime"@,
        outcome(r) == dry_run_outcome(
            worker@,
            *run,
            match payload {
                Ok(n) => Ok::<nat, Seq<char>>(n as nat),
                Err(e) => Err::<nat, Seq<char>>(e@),
            },
        ),
{
    match run {
        DryRunRun::SpawnFailed(e) => CheckResult::fail("rust-runtime", e.as_str()),
        DryRunRun::Finished { timed_out, exit_code, stdout, stderr } => {
            if *timed_out {
                return CheckResult::fail("rust-runtime", "dry-run timed out after 10s");
            }
            if *exit_code != Some(0i32) {
                let err = trimmed(stderr.as_str());
                if err.len() > 0 {
                    return CheckResult::fail("rust-runtime", string_of(&err).as_str());
                }
                let out = trimmed(stdout.as_str());
                if out.len() > 0 {
                    return CheckResult::fail("rust-runtime", string_of(&out).as_str());
                }
                let mut d: Vec<char> = Vec::new();
                push_str(&mut d, "dry-run exited ");
                push_exit_code_debug(&mut d, *exit_code);
                return CheckResult::fail("rust-runtime", string_of(&d).as_str());
            }
            match payload {
                Err(e) => {
                    let mut d: Vec<char> = Vec::new();
                    push_str(&mut d, "dry-run did not emit JSON config: ");
                    push_str(&mut d, e.as_str());
                    CheckResult::fail("rust-runtime", string_of(&d).as_str())
                },
                Ok(n) => {
                    let mut d: Vec<char> = Vec::new();
                    push_str(&mut d, "binary=");
                    push_str(&mut d, worker);
                    push_str(&mut d, ", dry_run=ok, worker_paths=");
                    push_decimal(&mut d, n as u64);
                    CheckResult::pass("rust-runtime", string_of(&d).as_str())
                },
            }
        },
    }
}

/// The dry-run check for a run of `worker`; its output, when the run
/// succeeded, is parsed as JSON.
pub fn dry_run_result(worker: &str, run: &DryRunRun) -> (r: CheckResult)
    ensures
        r.name@ == "rust-runtime"@,
        outcome(r) == dry_run_outcome(
            worker@,
            *run,
            match *run {
                DryRunRun::Finished { stdout, .. } => dry_run_payload(stdout@),
                DryRunRun::SpawnFailed(_) => Ok::<nat, Seq<char>>(0),
            },
        ),
{
    let payload = match run {
        DryRunRun::Finished { stdout, timed_out, exit_code, .. } => if !*timed_out && *exit_code == Some(0i32) {
            worker_path_count(stdout.as_str())
        } else {
            Ok(0)
        },
        DryRunRun::SpawnFailed(_) => Ok(0),
    };
    dry_run_check_result(worker, run, payload)
}

/// The dry-run check when the runtime binary is not there.
pub fn missing_runtime_binary(worker: &str) -> (r: CheckResult)
    ensures
        r.name@ == "rust-runtime"@,
        r.status == CheckStatus::Fail,
        r.details@ == "missing Rust runtime binary at "@ + worker@,
{
    let mut d: Vec<char> = Vec::new();
    push_str(&mut d, "missing Rust runtime binary at ");
    push_str(&mut d, worker);
    CheckResult::fail("rust-runtime", string_of(&d).as_str())
}

proof fn lemma_nothing_missing(items: Seq<Seq<char>>, present: Seq<bool>)
    requires
        present.len() >= items.len(),
    ensures
        (missing_of(items, present).len() == 0) <==> (forall|i: int| 0 <= i < items.len() ==> #[trigger] present[i]),
    decreases items.len(),
{
    if items.len() > 0 {
        lemma_nothing_missing(items.drop_last(), present);
        if !present[items.len() - 1] {
            assert(missing_of(items, present).len() > 0);
        }
    }
}

/// Each deploy check passes exactly when nothing it looks at is amiss: all
/// required config files and systemd units present, every worker binary
/// there and executable, every runtime directory writable; otherwise it
/// fails.
pub proof fn checks_pass_exactly_when_nothing_is_missing(
    files: Seq<Seq<char>>,
    present: Seq<bool>,
    paths: Seq<Seq<char>>,
    usable: Seq<bool>,
    units: Seq<bool>,
    parents: Seq<Seq<char>>,
    writable: Seq<bool>,
)
    requires
        present.len() == files.len(),
        usable.len() == paths.len(),
        units.len() == 2,
        parents.len() == 4,
        writable.len() == 4,
    ensures
        (config_files_outcome(files, present).0 == CheckStatus::Pass) <==> (forall|i: int|
            0 <= i < files.len() ==> #[trigger] present[i]),
        config_files_outcome(files, present).0 != CheckStatus::Pass ==> config_files_outcome(files, present).0
            == CheckStatus::Fail,
        (worker_binaries_outcome(paths, usable).0 == CheckStatus::Pass) <==> (forall|i: int|
            0 <= i < paths.len() ==> #[trigger] usable[i]),
        worker_binaries_outcome(paths, usable).0 != CheckStatus::Pass ==> worker_binaries_outcome(paths, usable).0
            == CheckStatus::Fail,
        (systemd_units_outcome(units).0 == CheckStatus::Pass) <==> (units[0] && units[1]),
        (runtime_paths_outcome(parents, writable).0 == CheckStatus::Pass) <==> (forall|i: int|
            0 <= i < 4 ==> #[trigger] writable[i]),
        runtime_paths_outcome(parents, writable).0 != CheckStatus::Pass ==> runtime_paths_outcome(parents, writable).0
            == CheckStatus::Fail,
{
    lemma_nothing_missing(files, present);
    lemma_nothing_missing(paths, usable);
    lemma_nothing_missing(systemd_units_spec(), units);
    assert(systemd_units_spec().len() == 2);
    if units[0] && units[1] {
        assert(forall|i: int| 0 <= i < 2 ==> #[trigger] units[i]) by {
            assert forall|i: int| 0 <= i < 2 implies #[trigger] units[i] by {
                if i == 0 {
                } else {
                    assert(i == 1);
                }
            }
        }
    }
    let fd = failure_details(runtime_path_names(), parents);
    assert(fd.len() == 4);
    lemma_nothing_missing(fd, writable);
}

} // verus!
