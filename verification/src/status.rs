//! The status bar and the ambient watch face: the clock texts, and the
//! preview that cycles the status bar through each state it can show.
use vstd::prelude::*;
use crate::text::{decimal2, owned, push_decimal2, push_str, string_of};

verus! {

/// How long each status bar preview stage lasts, in ms.
pub const STATUS_BAR_PREVIEW_STAGE_MS: u64 = 5000;

/// How many stages the status bar preview cycles through.
pub const STATUS_BAR_PREVIEW_STAGE_COUNT: u8 = 6;

#[derive(Debug, Clone, Copy, PartialEq, Eq, Structural)]
pub enum HudConnectivityKind {
    Unknown,
    Cellular,
    Wifi,
}

#[derive(Debug, Clone, Copy, PartialEq, Eq, Structural)]
pub struct HudConnectivity {
    pub kind: HudConnectivityKind,
    pub connected: bool,
    pub strength: u8,
}

#[derive(Debug, Clone, Copy, PartialEq, Eq, Structural)]
pub struct HudBattery {
    pub percent: u8,
    pub charging: bool,
    pub available: bool,
}

/// What the status bar shows.
#[derive(Debug, Clone)]
pub struct HudStatus {
    pub time: String,
    pub connectivity: HudConnectivity,
    pub gps_has_fix: bool,
    pub voip_registered: bool,
    pub battery: HudBattery,
}

/// The preview stage shown at `now_ms`: one every five seconds, cycling.
pub open spec fn preview_stage_spec(now_ms: u64) -> u8 {
    ((now_ms / STATUS_BAR_PREVIEW_STAGE_MS) % (STATUS_BAR_PREVIEW_STAGE_COUNT as u64)) as u8
}

pub fn status_bar_preview_stage(now_ms: u64) -> (s: u8)
    ensures
        s == preview_stage_spec(now_ms),
        s < STATUS_BAR_PREVIEW_STAGE_COUNT,
{
    ((now_ms / STATUS_BAR_PREVIEW_STAGE_MS) % (STATUS_BAR_PREVIEW_STAGE_COUNT as u64)) as u8
}

/// Each preview stage: the link kind, whether it is up, its strength, the
/// GPS fix, the SIP registration, the battery level and charging, and the
/// label shown in place of the time.
pub open spec fn preview_row(stage: u8) -> (HudConnectivityKind, bool, u8, bool, bool, u8, bool, Seq<char>) {
    if stage == 0 {
        (HudConnectivityKind::Unknown, false, 0, false, false, 0, false, "S0 OFF"@)
    } else if stage == 1 {
        (HudConnectivityKind::Cellular, true, 1, false, false, 25, false, "S1 25"@)
    } else if stage == 2 {
        (HudConnectivityKind::Cellular, true, 2, true, false, 50, false, "S2 50"@)
    } else if stage == 3 {
        (HudConnectivityKind::Cellular, true, 3, true, true, 75, false, "S3 75"@)
    } else if stage == 4 {
        (HudConnectivityKind::Cellular, true, 4, true, true, 100, false, "S4 100"@)
    } else {
        (HudConnectivityKind::Wifi, true, 4, true, true, 100, true, "S5 CHG"@)
    }
}

pub open spec fn status_view(s: HudStatus) -> (HudConnectivityKind, bool, u8, bool, bool, u8, bool, Seq<char>) {
    (
        s.connectivity.kind,
        s.connectivity.connected,
        s.connectivity.strength,
        s.gps_has_fix,
        s.voip_registered,
        s.battery.percent,
        s.battery.charging,
        s.time@,
    )
}

/// The status bar the preview shows at `now_ms`, the battery always
/// available.
pub fn status_bar_preview_status(now_ms: u64) -> (s: HudStatus)
    ensures
        status_view(s) == preview_row(preview_stage_spec(now_ms)),
        s.battery.available,
{
    let stage = status_bar_preview_stage(now_ms);
    let (kind, connected, strength, gps_has_fix, voip_registered, percent, charging, label) = if stage == 0 {
        (HudConnectivityKind::Unknown, false, 0u8, false, false, 0u8, false, "S0 OFF")
    } else if stage == 1 {
        (HudConnectivityKind::Cellular, true, 1u8, false, false, 25u8, false, "S1 25")
    } else if stage == 2 {
        (HudConnectivityKind::Cellular, true, 2u8, true, false, 50u8, false, "S2 50")
    } else if stage == 3 {
        (HudConnectivityKind::Cellular, true, 3u8, true, true, 75u8, false, "S3 75")
    } else if stage == 4 {
        (HudConnectivityKind::Cellular, true, 4u8, true, true, 100u8, false, "S4 100")
    } else {
        (HudConnectivityKind::Wifi, true, 4u8, true, true, 100u8, true, "S5 CHG")
    };
    HudStatus {
        time: owned(label),
        connectivity: HudConnectivity { kind, connected, strength },
        gps_has_fix,
        voip_registered,
        battery: HudBattery { percent, charging, available: true },
    }
}

/// The preview shows every stage once per cycle, in order.
pub proof fn preview_cycles_through_every_stage(now_ms: u64)
    requires
        now_ms <= u64::MAX - STATUS_BAR_PREVIEW_STAGE_MS,
    ensures
        preview_stage_spec((now_ms + STATUS_BAR_PREVIEW_STAGE_MS) as u64) == (preview_stage_spec(now_ms) + 1)
            % (STATUS_BAR_PREVIEW_STAGE_COUNT as int),
{
    let n = now_ms as int;
    let q = n / 5000;
    assert((n + 5000) / 5000 == q + 1) by (nonlinear_arith)
        requires
            q == n / 5000,
            n >= 0,
    ;
    assert((q + 1) % 6 == ((q % 6) + 1) % 6) by (nonlinear_arith)
        requires
            q >= 0,
    ;
}

pub open spec fn weekday_abbrev(weekday: u8) -> Seq<char> {
    if weekday == 0 {
        "MON"@
    } else if weekday == 1 {
        "TUE"@
    } else if weekday == 2 {
        "WED"@
    } else if weekday == 3 {
        "THU"@
    } else if weekday == 4 {
        "FRI"@
    } else if weekday == 5 {
        "SAT"@
    } else {
        "SUN"@
    }
}

pub open spec fn month_abbrev(month: u8) -> Seq<char> {
    if month == 1 {
        "JAN"@
    } else if month == 2 {
        "FEB"@
    } else if month == 3 {
        "MAR"@
    } else if month == 4 {
        "APR"@
    } else if month == 5 {
        "MAY"@
    } else if month == 6 {
        "JUN"@
    } else if month == 7 {
        "JUL"@
    } else if month == 8 {
        "AUG"@
    } else if month == 9 {
        "SEP"@
    } else if month == 10 {
        "OCT"@
    } else if month == 11 {
        "NOV"@
    } else {
        "DEC"@
    }
}

fn weekday_text(weekday: u8) -> (t: &'static str)
    ensures
        t@ == weekday_abbrev(weekday),
{
    if weekday == 0 {
        "MON"
    } else if weekday == 1 {
        "TUE"
    } else if weekday == 2 {
        "WED"
    } else if weekday == 3 {
        "THU"
    } else if weekday == 4 {
        "FRI"
    } else if weekday == 5 {
        "SAT"
    } else {
        "SUN"
    }
}

fn month_text(month: u8) -> (t: &'static str)
    ensures
        t@ == month_abbrev(month),
{
    let names = ["JAN", "FEB", "MAR", "APR", "MAY", "JUN", "JUL", "AUG", "SEP", "OCT", "NOV", "DEC"];
    let i: usize = if month >= 1 && month <= 12 {
        (month - 1) as usize
    } else {
        11
    };
    proof {
        reveal_strlit("JAN");
    }
    assert(names@ == seq!["JAN", "FEB", "MAR", "APR", "MAY", "JUN", "JUL", "AUG", "SEP", "OCT", "NOV", "DEC"]);
    names[i]
}

/// The clock text: two-digit hour and minute, 24-hour.
pub open spec fn clock_text(hour: u8, minute: u8) -> Seq<char> {
    decimal2(hour as nat) + ":"@ + decimal2(minute as nat)
}

pub fn status_clock_text(hour: u8, minute: u8) -> (t: String)
    ensures
        t@ == clock_text(hour, minute),
{
    let mut out: Vec<char> = Vec::new();
    push_decimal2(&mut out, hour as u64);
    push_str(&mut out, ":");
    push_decimal2(&mut out, minute as u64);
    string_of(&out)
}

/// The watch face's date and time: weekday (0 for Monday), two-digit day
/// and month, in capitals; and the 24-hour clock.
pub fn watch_face_text(weekday: u8, day: u8, month: u8, hour: u8, minute: u8) -> (r: (String, String))
    ensures
        r.0@ == weekday_abbrev(weekday) + " "@ + decimal2(day as nat) + " "@ + month_abbrev(month),
        r.1@ == clock_text(hour, minute),
{
    let mut out: Vec<char> = Vec::new();
    push_str(&mut out, weekday_text(weekday));
    push_str(&mut out, " ");
    push_decimal2(&mut out, day as u64);
    push_str(&mut out, " ");
    push_str(&mut out, month_text(month));
    (string_of(&out), status_clock_text(hour, minute))
}

} // verus!
