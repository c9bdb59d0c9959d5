//! What the on-device checks ask of the UI host's health report: frames
//! rendered, the LVGL renderer, and an active screen.
use vstd::prelude::*;
use crate::cloud::error_with_message;
use crate::json::{as_count, as_text, display, json_count, json_display, json_member, json_text, member};
use crate::text::{push_str, str_eq, string_of};

verus! {

/// Why a health report is refused.
#[derive(Debug, Clone, Copy, PartialEq, Eq, Structural)]
pub enum UiHealthProblem {
    NoFrames,
    NotLvgl,
    NoActiveScreen,
}

impl UiHealthProblem {
    pub open spec fn lead(self) -> Seq<char> {
        match self {
            UiHealthProblem::NoFrames => "UI host rendered no frames: "@,
            UiHealthProblem::NotLvgl => "UI host did not report LVGL renderer: "@,
            UiHealthProblem::NoActiveScreen => "UI host did not report an active screen: "@,
        }
    }

    /// The problem, followed by the report it was found in.
    pub fn message(&self, report: &str) -> (r: String)
        ensures
            r@ == self.lead() + report@,
    {
        let mut out: Vec<char> = Vec::new();
        match self {
            UiHealthProblem::NoFrames => push_str(&mut out, "UI host rendered no frames: "),
            UiHealthProblem::NotLvgl => push_str(&mut out, "UI host did not report LVGL renderer: "),
            UiHealthProblem::NoActiveScreen => push_str(&mut out, "UI host did not report an active screen: "),
        }
        push_str(&mut out, report);
        string_of(&out)
    }
}

/// The frames a report counts; 0 unless `frames` is a whole number.
pub open spec fn frames_of(report: serde_json::Value) -> u64 {
    match json_member(report, "frames"@) {
        Some(v) => match json_count(v) {
            Some(n) => n,
            None => 0,
        },
        None => 0,
    }
}

/// A text member as it stands; empty unless it is a JSON string.
pub open spec fn text_or_empty(report: serde_json::Value, key: Seq<char>) -> Seq<char> {
    match json_member(report, key) {
        Some(v) => match json_text(v) {
            Some(t) => t,
            None => Seq::empty(),
        },
        None => Seq::empty(),
    }
}

/// The first thing wrong with a health report: no frame rendered, a
/// renderer other than `lvgl`, or no active screen.
pub open spec fn ui_health_problem_spec(report: serde_json::Value) -> Option<UiHealthProblem> {
    if frames_of(report) < 1 {
        Some(UiHealthProblem::NoFrames)
    } else if text_or_empty(report, "last_ui_renderer"@) != "lvgl"@ {
        Some(UiHealthProblem::NotLvgl)
    } else if text_or_empty(report, "active_screen"@).len() == 0 {
        Some(UiHealthProblem::NoActiveScreen)
    } else {
        None
    }
}

fn text_member(report: &serde_json::Value, key: &str) -> (r: String)
    ensures
        r@ == text_or_empty(*report, key@),
{
    match member(report, key) {
        Some(v) => match as_text(&v) {
            Some(t) => t,
            None => String::new(),
        },
        None => String::new(),
    }
}

pub fn ui_health_problem(report: &serde_json::Value) -> (r: Option<UiHealthProblem>)
    ensures
        r == ui_health_problem_spec(*report),
{
    let frames: u64 = match member(report, "frames") {
        Some(v) => match as_count(&v) {
            Some(n) => n,
            None => 0,
        },
        None => 0,
    };
    if frames < 1 {
        return Some(UiHealthProblem::NoFrames);
    }
    let renderer = text_member(report, "last_ui_renderer");
    if !str_eq(renderer.as_str(), "lvgl") {
        return Some(UiHealthProblem::NotLvgl);
    }
    let screen = text_member(report, "active_screen");
    if screen.unicode_len() == 0 {
        return Some(UiHealthProblem::NoActiveScreen);
    }
    None
}

/// A health report is taken when it shows frames rendered by LVGL on an
/// active screen; otherwise the error names the problem and quotes the
/// report.
pub fn require_healthy_ui(report: &serde_json::Value) -> (r: Result<(), anyhow::Error>)
    ensures
        r is Ok <==> ui_health_problem_spec(*report) is None,
{
    match ui_health_problem(report) {
        None => Ok(()),
        Some(problem) => {
            let text = display(report);
            Err(error_with_message(problem.message(text.as_str())))
        },
    }
}

/// A member as the report writes it: its JSON text, or `null`.
pub open spec fn shown(report: serde_json::Value, key: Seq<char>) -> Seq<char> {
    match json_member(report, key) {
        Some(v) => json_display(v),
        None => "null"@,
    }
}

fn push_shown(out: &mut Vec<char>, report: &serde_json::Value, key: &str)
    ensures
        final(out)@ == old(out)@ + shown(*report, key@),
{
    match member(report, key) {
        Some(v) => push_str(out, display(&v).as_str()),
        None => push_str(out, "null"),
    }
}

/// The line that describes a UI host's health: its binary and hardware,
/// and the frames, button events, active screen and renderer it reported.
pub open spec fn ui_health_line(binary: Seq<char>, hardware: Seq<char>, report: serde_json::Value) -> Seq<char> {
    "binary="@ + binary + ", hardware="@ + hardware + ", frames="@ + shown(report, "frames"@)
        + ", button_events="@ + shown(report, "button_events"@) + ", active_screen="@ + shown(
        report,
        "active_screen"@,
    ) + ", last_ui_renderer="@ + shown(report, "last_ui_renderer"@)
}

pub fn format_ui_health(binary: &str, hardware: &str, report: &serde_json::Value) -> (r: String)
    ensures
        r@ == ui_health_line(binary@, hardware@, *report),
{
    let mut out: Vec<char> = Vec::new();
    push_str(&mut out, "binary=");
    push_str(&mut out, binary);
    push_str(&mut out, ", hardware=");
    push_str(&mut out, hardware);
    push_str(&mut out, ", frames=");
    push_shown(&mut out, report, "frames");
    push_str(&mut out, ", button_events=");
    push_shown(&mut out, report, "button_events");
    push_str(&mut out, ", active_screen=");
    push_shown(&mut out, report, "active_screen");
    push_str(&mut out, ", last_ui_renderer=");
    push_shown(&mut out, report, "last_ui_renderer");
    assert(out@ =~= ui_health_line(binary@, hardware@, *report));
    string_of(&out)
}

} // verus!
