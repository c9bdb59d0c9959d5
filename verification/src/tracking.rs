//! Background location tracking: the intervals the cloud may set, when the
//! GNSS receiver is sampled, when the device counts as stationary, and when a
//! fix is published.
use vstd::prelude::*;
use crate::cloud::{count_in, count_member, nested, nested_member};
use crate::json::{as_flag, json_flag, json_member, member};

verus! {

/// How often the receiver is sampled, in ms.
pub const GNSS_SAMPLE_INTERVAL_MS: u64 = 30_000;
pub const DEFAULT_MOVING_INTERVAL_SECONDS: u64 = 60;
pub const DEFAULT_STATIONARY_INTERVAL_SECONDS: u64 = 300;

#[derive(Debug, Clone, Copy, PartialEq, Eq, Structural)]
pub struct LocationSettings {
    pub background_tracking_enabled: bool,
    pub moving_interval_seconds: u64,
    pub stationary_interval_seconds: u64,
}

/// Why settings are refused, or `None` when they are taken: moving reports
/// every 30 s to 15 min, stationary ones every 2 min to 1 h, and never more
/// often when stationary than when moving.
pub open spec fn settings_error(s: LocationSettings) -> Option<Seq<char>> {
    if !(30 <= s.moving_interval_seconds <= 900) {
        Some("moving_interval_out_of_range"@)
    } else if !(120 <= s.stationary_interval_seconds <= 3600) {
        Some("stationary_interval_out_of_range"@)
    } else if s.stationary_interval_seconds < s.moving_interval_seconds {
        Some("stationary_interval_before_moving"@)
    } else {
        None
    }
}

impl LocationSettings {
    /// Tracking on, moving fixes every minute, stationary ones every five.
    pub fn defaults() -> (s: Self)
        ensures
            s == (LocationSettings {
                background_tracking_enabled: true,
                moving_interval_seconds: 60,
                stationary_interval_seconds: 300,
            }),
    {
        LocationSettings {
            background_tracking_enabled: true,
            moving_interval_seconds: DEFAULT_MOVING_INTERVAL_SECONDS,
            stationary_interval_seconds: DEFAULT_STATIONARY_INTERVAL_SECONDS,
        }
    }

    pub fn validate(self) -> (r: Result<Self, &'static str>)
        ensures
            match r {
                Ok(s) => s == self && settings_error(self) is None,
                Err(e) => settings_error(self) == Some(e@),
            },
    {
        if !(30 <= self.moving_interval_seconds && self.moving_interval_seconds <= 900) {
            return Err("moving_interval_out_of_range");
        }
        if !(120 <= self.stationary_interval_seconds && self.stationary_interval_seconds <= 3_600) {
            return Err("stationary_interval_out_of_range");
        }
        if self.stationary_interval_seconds < self.moving_interval_seconds {
            return Err("stationary_interval_before_moving");
        }
        Ok(self)
    }

    /// Settings from a cloud configuration: the settings object itself when
    /// it is one, else the older fields (tracking on unless switched off,
    /// default intervals, and the single report interval standing for the
    /// stationary one).
    pub fn from_cloud_fields(
        direct: Option<LocationSettings>,
        location_tracking: Option<bool>,
        moving_interval_seconds: Option<u64>,
        stationary_interval_seconds: Option<u64>,
        report_interval_seconds: Option<u64>,
    ) -> (r: Result<Self, &'static str>)
        ensures
            ({
                let s = cloud_settings(
                    direct,
                    location_tracking,
                    moving_interval_seconds,
                    stationary_interval_seconds,
                    report_interval_seconds,
                );
                match r {
                    Ok(v) => v == s && settings_error(s) is None,
                    Err(e) => settings_error(s) == Some(e@),
                }
            }),
    {
        if let Some(d) = direct {
            return d.validate();
        }
        let settings = LocationSettings {
            background_tracking_enabled: match location_tracking {
                Some(b) => b,
                None => true,
            },
            moving_interval_seconds: match moving_interval_seconds {
                Some(m) => m,
                None => DEFAULT_MOVING_INTERVAL_SECONDS,
            },
            stationary_interval_seconds: match stationary_interval_seconds {
                Some(v) => v,
                None => match report_interval_seconds {
                    Some(v) => v,
                    None => DEFAULT_STATIONARY_INTERVAL_SECONDS,
                },
            },
        };
        settings.validate()
    }

    /// Settings from a cloud configuration document: a settings object
    /// (all three fields present with their types) is taken as it stands;
    /// otherwise `features.location_tracking` and the `connectivity`
    /// intervals are read as `from_cloud_fields` reads them.
    pub fn from_cloud_config(value: &serde_json::Value) -> (r: Result<Self, &'static str>)
        ensures
            ({
                let f = cloud_location_fields(*value);
                let s = cloud_settings(
                    direct_settings(f),
                    f.location_tracking,
                    f.moving_interval,
                    f.stationary_interval,
                    f.report_interval,
                );
                match r {
                    Ok(v) => v == s && settings_error(s) is None,
                    Err(e) => settings_error(s) == Some(e@),
                }
            }),
    {
        let f = read_cloud_location_fields(value);
        let direct = match (f.enabled, f.moving, f.stationary) {
            (Some(b), Some(m), Some(st)) => Some(LocationSettings {
                background_tracking_enabled: b,
                moving_interval_seconds: m,
                stationary_interval_seconds: st,
            }),
            _ => None,
        };
        Self::from_cloud_fields(
            direct,
            f.location_tracking,
            f.moving_interval,
            f.stationary_interval,
            f.report_interval,
        )
    }
}

/// The settings a cloud configuration names: the settings object itself,
/// else the older fields with their defaults.
pub open spec fn cloud_settings(
    direct: Option<LocationSettings>,
    location_tracking: Option<bool>,
    moving_interval_seconds: Option<u64>,
    stationary_interval_seconds: Option<u64>,
    report_interval_seconds: Option<u64>,
) -> LocationSettings {
    match direct {
        Some(d) => d,
        None => LocationSettings {
            background_tracking_enabled: match location_tracking {
                Some(b) => b,
                None => true,
            },
            moving_interval_seconds: match moving_interval_seconds {
                Some(m) => m,
                None => 60,
            },
            stationary_interval_seconds: match stationary_interval_seconds {
                Some(v) => v,
                None => match report_interval_seconds {
                    Some(v) => v,
                    None => 300,
                },
            },
        },
    }
}

/// The fields of a cloud configuration document that location settings are
/// read from: the three fields of a settings object at the top, and the
/// older `features` / `connectivity` fields.
#[derive(Debug, Clone, Copy, PartialEq, Eq, Structural)]
pub struct CloudLocationFields {
    pub enabled: Option<bool>,
    pub moving: Option<u64>,
    pub stationary: Option<u64>,
    pub location_tracking: Option<bool>,
    pub moving_interval: Option<u64>,
    pub stationary_interval: Option<u64>,
    pub report_interval: Option<u64>,
}

/// The settings object a document holds at its top, when all three fields
/// are there.
pub open spec fn direct_settings(f: CloudLocationFields) -> Option<LocationSettings> {
    match (f.enabled, f.moving, f.stationary) {
        (Some(b), Some(m), Some(s)) => Some(
            LocationSettings {
                background_tracking_enabled: b,
                moving_interval_seconds: m,
                stationary_interval_seconds: s,
            },
        ),
        _ => None,
    }
}

pub open spec fn flag_in(v: Option<serde_json::Value>) -> Option<bool> {
    match v {
        Some(x) => json_flag(x),
        None => None,
    }
}

/// The location fields of a document: a field that is missing, or not of
/// its type (a boolean, or a whole number up to `u64::MAX`), reads as
/// `None`.
pub open spec fn cloud_location_fields(value: serde_json::Value) -> CloudLocationFields {
    CloudLocationFields {
        enabled: flag_in(json_member(value, "background_tracking_enabled"@)),
        moving: count_in(json_member(value, "moving_interval_seconds"@)),
        stationary: count_in(json_member(value, "stationary_interval_seconds"@)),
        location_tracking: flag_in(nested_member(value, "features"@, "location_tracking"@)),
        moving_interval: count_in(nested_member(value, "connectivity"@, "location_moving_interval_seconds"@)),
        stationary_interval: count_in(nested_member(value, "connectivity"@, "location_stationary_interval_seconds"@)),
        report_interval: count_in(nested_member(value, "connectivity"@, "location_report_interval_seconds"@)),
    }
}

fn flag_member(v: Option<serde_json::Value>) -> (r: Option<bool>)
    ensures
        r == flag_in(v),
{
    match v {
        Some(x) => as_flag(&x),
        None => None,
    }
}

/// Reads the location fields of a document.
pub fn read_cloud_location_fields(value: &serde_json::Value) -> (f: CloudLocationFields)
    ensures
        f == cloud_location_fields(*value),
{
    CloudLocationFields {
        enabled: flag_member(member(value, "background_tracking_enabled")),
        moving: count_member(member(value, "moving_interval_seconds")),
        stationary: count_member(member(value, "stationary_interval_seconds")),
        location_tracking: flag_member(nested(value, "features", "location_tracking")),
        moving_interval: count_member(nested(value, "connectivity", "location_moving_interval_seconds")),
        stationary_interval: count_member(nested(value, "connectivity", "location_stationary_interval_seconds")),
        report_interval: count_member(nested(value, "connectivity", "location_report_interval_seconds")),
    }
}

/// The tracking decisions: when to sample, whether the device is at rest,
/// and when a fix goes out. The motion of each fix (speed or displacement
/// over the thresholds) is judged by the caller.
#[derive(Debug, Clone, Copy, PartialEq, Eq, Structural)]
pub struct TrackingEngine {
    pub settings: LocationSettings,
    pub last_sample_at_ms: Option<u64>,
    pub last_published_at_ms: Option<u64>,
    pub consecutive_stationary_samples: u8,
    pub stationary: bool,
}

pub open spec fn sat_sub(a: u64, b: u64) -> int {
    if a < b {
        0
    } else {
        a - b
    }
}

/// The engine after a fix at `now`: a moving fix ends a rest, two resting
/// fixes in a row start one; the fix is published when the interval of the
/// current mode has passed since the last one (or none was published yet).
pub open spec fn observed(e: TrackingEngine, moving: bool, now: u64) -> (TrackingEngine, bool) {
    let samples: u8 = if moving {
        0
    } else if e.consecutive_stationary_samples == u8::MAX {
        u8::MAX
    } else {
        (e.consecutive_stationary_samples + 1) as u8
    };
    let stationary = if moving {
        false
    } else {
        e.stationary || samples >= 2
    };
    let interval = if stationary {
        e.settings.stationary_interval_seconds
    } else {
        e.settings.moving_interval_seconds
    };
    let publish = match e.last_published_at_ms {
        Some(last) => sat_sub(now, last) >= interval * 1000,
        None => true,
    };
    (
        TrackingEngine {
            last_sample_at_ms: Some(now),
            last_published_at_ms: if publish {
                Some(now)
            } else {
                e.last_published_at_ms
            },
            consecutive_stationary_samples: samples,
            stationary,
            ..e
        },
        publish,
    )
}

impl TrackingEngine {
    pub fn new(settings: LocationSettings) -> (e: Self)
        ensures
            e == (TrackingEngine {
                settings,
                last_sample_at_ms: None,
                last_published_at_ms: None,
                consecutive_stationary_samples: 0,
                stationary: false,
            }),
    {
        TrackingEngine {
            settings,
            last_sample_at_ms: None,
            last_published_at_ms: None,
            consecutive_stationary_samples: 0,
            stationary: false,
        }
    }

    pub fn settings(&self) -> (s: LocationSettings)
        ensures
            s == self.settings,
    {
        self.settings
    }

    /// New settings; switching tracking off also forgets the sampling and
    /// the rest.
    pub fn apply_settings(&mut self, settings: LocationSettings)
        ensures
            final(self).settings == settings,
            final(self).last_published_at_ms == old(self).last_published_at_ms,
            settings.background_tracking_enabled ==> {
                &&& final(self).last_sample_at_ms == old(self).last_sample_at_ms
                &&& final(self).consecutive_stationary_samples == old(self).consecutive_stationary_samples
                &&& final(self).stationary == old(self).stationary
            },
            !settings.background_tracking_enabled ==> {
                &&& final(self).last_sample_at_ms is None
                &&& final(self).consecutive_stationary_samples == 0
                &&& !final(self).stationary
            },
    {
        self.settings = settings;
        if !settings.background_tracking_enabled {
            self.last_sample_at_ms = None;
            self.consecutive_stationary_samples = 0;
            self.stationary = false;
        }
    }

    /// A sample is due when tracking is on and 30 s have passed since the
    /// last one (or there was none).
    pub fn sample_due(&self, now_ms: u64) -> (due: bool)
        ensures
            due == (self.settings.background_tracking_enabled && match self.last_sample_at_ms {
                Some(last) => sat_sub(now_ms, last) >= GNSS_SAMPLE_INTERVAL_MS,
                None => true,
            }),
    {
        self.settings.background_tracking_enabled && match self.last_sample_at_ms {
            Some(last) => now_ms.saturating_sub(last) >= GNSS_SAMPLE_INTERVAL_MS,
            None => true,
        }
    }

    /// A sample found no fix.
    pub fn record_no_fix(&mut self, now_ms: u64)
        ensures
            *final(self) == (TrackingEngine { last_sample_at_ms: Some(now_ms), ..*old(self) }),
    {
        self.last_sample_at_ms = Some(now_ms);
    }

    /// Records a fix at `now` that did or did not show motion; whether to
    /// publish it.
    pub fn observe_motion(&mut self, moving: bool, now_ms: u64) -> (publish: bool)
        requires
            old(self).settings.moving_interval_seconds <= u64::MAX / 1000,
            old(self).settings.stationary_interval_seconds <= u64::MAX / 1000,
        ensures
            (*final(self), publish) == observed(*old(self), moving, now_ms),
    {
        self.last_sample_at_ms = Some(now_ms);
        if moving {
            self.consecutive_stationary_samples = 0;
            self.stationary = false;
        } else {
            self.consecutive_stationary_samples = self.consecutive_stationary_samples.saturating_add(1);
            if self.consecutive_stationary_samples >= 2 {
                self.stationary = true;
            }
        }
        let interval = if self.stationary {
            self.settings.stationary_interval_seconds
        } else {
            self.settings.moving_interval_seconds
        };
        let publish = match self.last_published_at_ms {
            Some(last) => now_ms.saturating_sub(last) >= interval * 1000,
            None => true,
        };
        if publish {
            self.last_published_at_ms = Some(now_ms);
        }
        publish
    }
}

/// One resting fix is not enough to count as stationary; the second in a row
/// is.
pub proof fn rest_needs_two_quiet_fixes(e: TrackingEngine, now1: u64, now2: u64)
    requires
        !e.stationary,
        e.consecutive_stationary_samples == 0,
    ensures
        !observed(e, false, now1).0.stationary,
        observed(observed(e, false, now1).0, false, now2).0.stationary,
{
}

/// A moving fix always ends a rest.
pub proof fn motion_ends_rest(e: TrackingEngine, now: u64)
    ensures
        !observed(e, true, now).0.stationary,
        observed(e, true, now).0.consecutive_stationary_samples == 0,
{
}

/// Fixes are published no more often than the interval of the current mode,
/// and the first fix is always published.
pub proof fn publishing_respects_the_interval(e: TrackingEngine, moving: bool, now: u64)
    ensures
        e.last_published_at_ms is None ==> observed(e, moving, now).1,
        observed(e, moving, now).1 && e.last_published_at_ms is Some ==> sat_sub(
            now,
            e.last_published_at_ms.unwrap(),
        ) >= 1000 * (if observed(e, moving, now).0.stationary {
            e.settings.stationary_interval_seconds
        } else {
            e.settings.moving_interval_seconds
        }),
{
}

/// Valid settings never report more often at rest than in motion.
pub proof fn valid_settings_slow_down_at_rest(s: LocationSettings)
    requires
        settings_error(s) is None,
    ensures
        s.moving_interval_seconds <= s.stationary_interval_seconds,
        30 <= s.moving_interval_seconds,
        s.stationary_interval_seconds <= 3600,
{
}

} // verus!
