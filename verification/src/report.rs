//! Results of the on-device validation checks, the summary an operator reads,
//! and the exit code of a stage.
use vstd::prelude::*;
use crate::text::{owned, push_str, string_of};

verus! {

#[derive(Debug, Clone, Copy, PartialEq, Eq, Structural)]
pub enum CheckStatus {
    Pass,
    Warn,
    Fail,
}

pub open spec fn status_text(s: CheckStatus) -> Seq<char> {
    match s {
        CheckStatus::Pass => "PASS"@,
        CheckStatus::Warn => "WARN"@,
        CheckStatus::Fail => "FAIL"@,
    }
}

impl CheckStatus {
    /// The four-letter form of the status.
    pub fn as_str(&self) -> (t: &'static str)
        ensures
            t@ == status_text(*self),
    {
        match self {
            CheckStatus::Pass => "PASS",
            CheckStatus::Warn => "WARN",
            CheckStatus::Fail => "FAIL",
        }
    }

    /// The four-letter form of the status, owned.
    pub fn to_string(&self) -> (t: String)
        ensures
            t@ == status_text(*self),
    {
        owned(self.as_str())
    }
}

#[derive(Debug)]
pub struct CheckResult {
    pub name: String,
    pub status: CheckStatus,
    pub details: String,
}

impl Clone for CheckResult {
    fn clone(&self) -> (r: Self)
        ensures
            r == *self,
    {
        CheckResult { name: self.name.clone(), status: self.status, details: self.details.clone() }
    }
}

impl CheckResult {
    pub fn pass(name: &str, details: &str) -> (r: Self)
        ensures
            r.name@ == name@,
            r.status == CheckStatus::Pass,
            r.details@ == details@,
    {
        CheckResult { name: owned(name), status: CheckStatus::Pass, details: owned(details) }
    }

    pub fn warn(name: &str, details: &str) -> (r: Self)
        ensures
            r.name@ == name@,
            r.status == CheckStatus::Warn,
            r.details@ == details@,
    {
        CheckResult { name: owned(name), status: CheckStatus::Warn, details: owned(details) }
    }

    pub fn fail(name: &str, details: &str) -> (r: Self)
        ensures
            r.name@ == name@,
            r.status == CheckStatus::Fail,
            r.details@ == details@,
    {
        CheckResult { name: owned(name), status: CheckStatus::Fail, details: owned(details) }
    }
}

pub open spec fn any_failed(results: Seq<CheckResult>) -> bool {
    exists|i: int| 0 <= i < results.len() && (#[trigger] results[i]).status == CheckStatus::Fail
}

/// A stage's exit code: 1 when any check failed, 0 otherwise (warnings
/// pass).
pub fn exit_code(results: &[CheckResult]) -> (code: i32)
    ensures
        code == (if any_failed(results@) {
            1i32
        } else {
            0i32
        }),
{
    let mut i: usize = 0;
    while i < results.len()
        invariant
            i <= results@.len(),
            forall|j: int| 0 <= j < i ==> (#[trigger] results@[j]).status != CheckStatus::Fail,
        decreases results.len() - i,
    {
        if results[i].status == CheckStatus::Fail {
            return 1;
        }
        i = i + 1;
    }
    0
}

/// A failed check makes the stage fail, whatever the other checks say.
pub proof fn one_failure_fails_the_stage(results: Seq<CheckResult>, i: int)
    requires
        0 <= i < results.len(),
        results[i].status == CheckStatus::Fail,
    ensures
        any_failed(results),
{
}

/// The line a result prints as: `[STATUS] name: details`.
pub open spec fn summary_line_spec(r: CheckResult) -> Seq<char> {
    "["@ + status_text(r.status) + "] "@ + r.name@ + ": "@ + r.details@
}

pub open spec fn rule_line() -> Seq<char> {
    Seq::new(48, |i: int| '=')
}

/// The summary printed after a stage: a blank line, the title, a rule of 48
/// `=`, then one line per result.
pub open spec fn summary_spec(stage: Seq<char>, results: Seq<CheckResult>) -> Seq<Seq<char>> {
    seq![Seq::<char>::empty(), "YoYoPod target validation summary: "@ + stage, rule_line()]
        + results.map_values(|r: CheckResult| summary_line_spec(r))
}

fn summary_line(r: &CheckResult) -> (l: String)
    ensures
        l@ == summary_line_spec(*r),
{
    let mut out: Vec<char> = Vec::new();
    push_str(&mut out, "[");
    push_str(&mut out, r.status.as_str());
    push_str(&mut out, "] ");
    push_str(&mut out, r.name.as_str());
    push_str(&mut out, ": ");
    push_str(&mut out, r.details.as_str());
    string_of(&out)
}

pub fn summary_lines(stage: &str, results: &[CheckResult]) -> (lines: Vec<String>)
    ensures
        lines@.map_values(|l: String| l@) == summary_spec(stage@, results@),
{
    let mut lines: Vec<String> = Vec::new();
    lines.push(String::new());
    let mut title: Vec<char> = Vec::new();
    push_str(&mut title, "YoYoPod target validation summary: ");
    push_str(&mut title, stage);
    lines.push(string_of(&title));
    let mut rule: Vec<char> = Vec::new();
    let mut k: usize = 0;
    while k < 48
        invariant
            k <= 48,
            rule@ == Seq::new(k as nat, |i: int| '='),
        decreases 48 - k,
    {
        rule.push('=');
        assert(rule@ =~= Seq::new((k + 1) as nat, |i: int| '='));
        k = k + 1;
    }
    lines.push(string_of(&rule));
    let ghost head = lines@.map_values(|l: String| l@);
    assert(head =~= seq![Seq::<char>::empty(), "YoYoPod target validation summary: "@ + stage@, rule_line()]);
    let mut i: usize = 0;
    while i < results.len()
        invariant
            i <= results@.len(),
            lines@.map_values(|l: String| l@) == head + results@.subrange(0, i as int).map_values(
                |r: CheckResult| summary_line_spec(r),
            ),
        decreases results.len() - i,
    {
        let ghost prev = lines@;
        let l = summary_line(&results[i]);
        lines.push(l);
        assert(lines@.map_values(|l: String| l@) =~= prev.map_values(|l: String| l@).push(
            summary_line_spec(results@[i as int]),
        ));
        assert(results@.subrange(0, i + 1).map_values(|r: CheckResult| summary_line_spec(r))
            =~= results@.subrange(0, i as int).map_values(|r: CheckResult| summary_line_spec(r)).push(
            summary_line_spec(results@[i as int]),
        ));
        assert(lines@.map_values(|l: String| l@) =~= head + results@.subrange(0, i + 1).map_values(
            |r: CheckResult| summary_line_spec(r),
        ));
        i = i + 1;
    }
    assert(results@.subrange(0, results@.len() as int) =~= results@);
    lines
}

} // verus!
