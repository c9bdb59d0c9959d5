//! Bluetooth audio accessories: the state reported to the runtime, the rules
//! that classify and name accessories, the scan window, and the on-device
//! registry that gives each accessory an opaque id.
use vstd::prelude::*;
use vstd::multiset::Multiset;
use crate::outbox::{kept, lemma_kept_push};
use crate::clock::epoch_seconds;
use crate::text::{
    ascii_case_eq, chars_of, contains, contains_str, drop_controls, eq_ignore_ascii_case, owned,
    str_eq, string_of, take_chars, trim, trim_chars, without_controls,
};

verus! {

pub const AUDIO_SINK_UUID: &'static str = "0000110b-0000-1000-8000-00805f9b34fb";
pub const HANDSFREE_UUID: &'static str = "0000111e-0000-1000-8000-00805f9b34fb";
pub const HEADSET_UUID: &'static str = "00001108-0000-1000-8000-00805f9b34fb";
/// How long a discovery scan runs, in seconds.
pub const SCAN_DURATION_SECS: u64 = 12;
/// How often the state is refreshed while scanning, in seconds.
pub const SCAN_REFRESH_INTERVAL_SECS: u64 = 1;

#[derive(Debug, Clone, PartialEq, Eq)]
pub struct BluetoothState {
    pub schema_version: u8,
    pub status: String,
    pub radio_enabled: bool,
    pub scanning: bool,
    pub accessories: Vec<BluetoothAccessory>,
    pub scanned_at: Option<u64>,
    pub reported_at: u64,
}

impl BluetoothState {
    /// The state reported when Bluetooth cannot be reached, stamped now.
    pub fn unavailable() -> (s: Self)
        ensures
            s.schema_version == 1,
            s.status@ == "unavailable"@,
            !s.radio_enabled,
            !s.scanning,
            s.accessories@.len() == 0,
            s.scanned_at is None,
    {
        BluetoothState {
            schema_version: 1,
            status: owned("unavailable"),
            radio_enabled: false,
            scanning: false,
            accessories: Vec::new(),
            scanned_at: None,
            reported_at: epoch_seconds(),
        }
    }
}

#[derive(Debug, Clone, PartialEq, Eq)]
pub struct BluetoothAccessory {
    pub accessory_id: String,
    pub name: String,
    pub kind: String,
    pub paired: bool,
    pub connected: bool,
    pub trusted: bool,
    pub auto_connect: bool,
    pub capabilities: BluetoothCapabilities,
    pub battery_percent: Option<u8>,
    pub signal_percent: Option<u8>,
    pub last_seen_at: u64,
}

#[derive(Debug, Clone, Copy, PartialEq, Eq)]
pub struct BluetoothCapabilities {
    pub output: bool,
    pub microphone: bool,
    pub stereo: bool,
    pub hands_free: bool,
}

#[derive(Debug, Clone, PartialEq, Eq)]
pub struct BluetoothOperationError {
    pub code: &'static str,
    pub message: String,
}

impl BluetoothOperationError {
    pub fn unavailable() -> (e: Self)
        ensures
            e.code@ == "bluetooth_unavailable"@,
            e.message@ == "Bluetooth is not available on this YoYoPod"@,
    {
        BluetoothOperationError {
            code: "bluetooth_unavailable",
            message: owned("Bluetooth is not available on this YoYoPod"),
        }
    }

    pub fn failed(message: &str) -> (e: Self)
        ensures
            e.code@ == "bluetooth_operation_failed"@,
            e.message@ == message@,
    {
        BluetoothOperationError { code: "bluetooth_operation_failed", message: owned(message) }
    }

    pub fn invalid_accessory() -> (e: Self)
        ensures
            e.code@ == "bluetooth_accessory_not_found"@,
            e.message@ == "The Bluetooth accessory is no longer available"@,
    {
        BluetoothOperationError {
            code: "bluetooth_accessory_not_found",
            message: owned("The Bluetooth accessory is no longer available"),
        }
    }
}

/// A Bluetooth backend: BlueZ on the device, or none.
pub trait BluetoothController {
    fn refresh(&mut self) -> Result<BluetoothState, BluetoothOperationError>;

    fn set_radio(&mut self, enabled: bool) -> Result<BluetoothState, BluetoothOperationError>;

    fn start_scan(&mut self) -> Result<BluetoothState, BluetoothOperationError>;

    fn stop_scan(&mut self) -> Result<BluetoothState, BluetoothOperationError>;

    fn pair(&mut self, accessory_id: &str) -> Result<BluetoothState, BluetoothOperationError>;

    fn connect(&mut self, accessory_id: &str) -> Result<BluetoothState, BluetoothOperationError>;

    fn disconnect(&mut self, accessory_id: &str) -> Result<
        BluetoothState,
        BluetoothOperationError,
    >;

    fn forget(&mut self, accessory_id: &str) -> Result<BluetoothState, BluetoothOperationError>;

    fn update_accessory(
        &mut self,
        accessory_id: &str,
        alias: Option<&str>,
        auto_connect: Option<bool>,
    ) -> Result<BluetoothState, BluetoothOperationError>;

    fn raw_address(&self, accessory_id: &str) -> Option<String>;

    fn tick(&mut self) -> Option<BluetoothState>;
}

/// The backend used when BlueZ cannot be reached.
pub struct UnavailableBluetoothController;

impl BluetoothController for UnavailableBluetoothController {
    fn refresh(&mut self) -> (r: Result<BluetoothState, BluetoothOperationError>) {
        Ok(BluetoothState::unavailable())
    }

    fn set_radio(&mut self, enabled: bool) -> (r: Result<BluetoothState, BluetoothOperationError>) {
        Err(BluetoothOperationError::unavailable())
    }

    fn start_scan(&mut self) -> (r: Result<BluetoothState, BluetoothOperationError>) {
        Err(BluetoothOperationError::unavailable())
    }

    fn stop_scan(&mut self) -> (r: Result<BluetoothState, BluetoothOperationError>) {
        Err(BluetoothOperationError::unavailable())
    }

    fn pair(&mut self, accessory_id: &str) -> (r: Result<BluetoothState, BluetoothOperationError>) {
        Err(BluetoothOperationError::unavailable())
    }

    fn connect(&mut self, accessory_id: &str) -> (r: Result<BluetoothState, BluetoothOperationError>) {
        Err(BluetoothOperationError::unavailable())
    }

    fn disconnect(&mut self, accessory_id: &str) -> (r: Result<
        BluetoothState,
        BluetoothOperationError,
    >) {
        Err(BluetoothOperationError::unavailable())
    }

    fn forget(&mut self, accessory_id: &str) -> (r: Result<BluetoothState, BluetoothOperationError>) {
        Err(BluetoothOperationError::unavailable())
    }

    fn update_accessory(
        &mut self,
        accessory_id: &str,
        alias: Option<&str>,
        auto_connect: Option<bool>,
    ) -> (r: Result<BluetoothState, BluetoothOperationError>) {
        Err(BluetoothOperationError::unavailable())
    }

    fn raw_address(&self, accessory_id: &str) -> (r: Option<String>) {
        None
    }

    fn tick(&mut self) -> (r: Option<BluetoothState>) {
        None
    }
}

// ---------------------------------------------------------------------------
// Classifying and naming accessories
// ---------------------------------------------------------------------------

pub open spec fn has_uuid(uuids: Seq<String>, uuid: Seq<char>) -> bool {
    exists|i: int| 0 <= i < uuids.len() && ascii_case_eq(#[trigger] uuids[i]@, uuid)
}

/// Audio capabilities from a device's service UUIDs: stereo from A2DP sink,
/// hands-free from HFP or HSP; output from either, microphone from hands-free.
pub open spec fn capabilities_spec(uuids: Seq<String>) -> BluetoothCapabilities {
    let stereo = has_uuid(uuids, AUDIO_SINK_UUID@);
    let hands_free = has_uuid(uuids, HANDSFREE_UUID@) || has_uuid(uuids, HEADSET_UUID@);
    BluetoothCapabilities {
        output: stereo || hands_free,
        microphone: hands_free,
        stereo,
        hands_free,
    }
}

fn any_uuid(uuids: &Vec<String>, uuid: &str) -> (r: bool)
    ensures
        r == has_uuid(uuids@, uuid@),
{
    let mut i: usize = 0;
    while i < uuids.len()
        invariant
            i <= uuids@.len(),
            forall|k: int| 0 <= k < i ==> !ascii_case_eq(#[trigger] uuids@[k]@, uuid@),
        decreases uuids.len() - i,
    {
        if eq_ignore_ascii_case(uuids[i].as_str(), uuid) {
            return true;
        }
        i = i + 1;
    }
    false
}

pub fn capabilities_for(uuids: &Vec<String>) -> (c: BluetoothCapabilities)
    ensures
        c == capabilities_spec(uuids@),
{
    let stereo = any_uuid(uuids, AUDIO_SINK_UUID);
    let hands_free = any_uuid(uuids, HANDSFREE_UUID) || any_uuid(uuids, HEADSET_UUID);
    BluetoothCapabilities { output: stereo || hands_free, microphone: hands_free, stereo, hands_free }
}

/// Names the characters `str::to_lowercase` gives for `s`.
pub uninterp spec fn lowercase(s: Seq<char>) -> Seq<char>;

/// `str::to_lowercase`, full Unicode lowercasing. Stated: the result is the
/// named lowercasing, and on ASCII text it lowers the ASCII letters only.
#[verifier::external_body]
pub(crate) fn to_lowercase(s: &str) -> (r: String)
    ensures
        r@ == lowercase(s@),
        vstd::string::is_ascii(s) ==> r@ == crate::text::to_ascii_lower(s@),
{
    s.to_lowercase()
}

/// The accessory kind shown to the user, from its lowercased name.
pub open spec fn kind_spec(lower: Seq<char>, capabilities: BluetoothCapabilities) -> Seq<char> {
    if contains(lower, "earbud"@) || contains(lower, "airpod"@) || contains(lower, "buds"@) {
        "earbuds"@
    } else if capabilities.microphone && (contains(lower, "headset"@) || contains(
        lower,
        "headphone"@,
    )) {
        "headset"@
    } else if contains(lower, "speaker"@) {
        "speaker"@
    } else if contains(lower, "headphone"@) {
        "headphones"@
    } else {
        "unknown_audio"@
    }
}

pub fn accessory_kind(name: &str, capabilities: &BluetoothCapabilities) -> (k: String)
    ensures
        k@ == kind_spec(lowercase(name@), *capabilities),
{
    let lower = to_lowercase(name);
    let n = chars_of(lower.as_str());
    if contains_str(&n, "earbud") || contains_str(&n, "airpod") || contains_str(&n, "buds") {
        owned("earbuds")
    } else if capabilities.microphone && (contains_str(&n, "headset") || contains_str(
        &n,
        "headphone",
    )) {
        owned("headset")
    } else if contains_str(&n, "speaker") {
        owned("speaker")
    } else if contains_str(&n, "headphone") {
        owned("headphones")
    } else {
        owned("unknown_audio")
    }
}

/// A display name: control characters dropped, trimmed, at most 80 characters.
pub open spec fn clean_name_spec(value: Seq<char>) -> Seq<char> {
    let t = trim(drop_controls(value));
    if t.len() <= 80 {
        t
    } else {
        t.take(80)
    }
}

pub fn clean_name(value: &str) -> (r: String)
    ensures
        r@ == clean_name_spec(value@),
{
    let v = chars_of(value);
    let kept = without_controls(&v);
    let t = trim_chars(&kept);
    let cut = take_chars(&t, 80);
    string_of(&cut)
}

/// Signal strength as a percentage: -100 dBm and below is 0, -40 and above
/// is 100, linear between.
pub open spec fn rssi_percent_spec(rssi: i16) -> u8 {
    let c: int = if rssi < -100 {
        -100
    } else if rssi > -40 {
        -40
    } else {
        rssi as int
    };
    (((c + 100) * 100) / 60) as u8
}

pub fn rssi_percent(rssi: i16) -> (p: u8)
    ensures
        p == rssi_percent_spec(rssi),
        p <= 100,
{
    let c: i16 = if rssi < -100 {
        -100
    } else if rssi > -40 {
        -40
    } else {
        rssi
    };
    assert(0 <= (c + 100) * 100 <= 6000) by (nonlinear_arith)
        requires
            -100 <= c <= -40,
    ;
    (((c + 100) * 100) / 60) as u8
}

// ---------------------------------------------------------------------------
// Scan window
// ---------------------------------------------------------------------------

/// What a tick of the scan window asks for.
#[derive(Debug, Clone, Copy, PartialEq, Eq, Structural)]
pub enum ScanTick {
    /// The scan has run its course: stop discovery.
    Stop,
    /// Refresh the reported state while discovery runs.
    Refresh,
    /// Nothing to do.
    Idle,
}

/// The deadlines of a running discovery scan, in milliseconds on a monotonic
/// clock.
#[derive(Debug, Clone, Copy, PartialEq, Eq, Default)]
pub struct ScanWindow {
    pub deadline_ms: Option<u64>,
    pub refresh_deadline_ms: Option<u64>,
}

impl ScanWindow {
    pub fn idle() -> (w: Self)
        ensures
            w.deadline_ms is None,
            w.refresh_deadline_ms is None,
    {
        ScanWindow { deadline_ms: None, refresh_deadline_ms: None }
    }

    /// Opens the window at `now_ms`.
    pub fn start(&mut self, now_ms: u64)
        requires
            now_ms + SCAN_DURATION_SECS * 1000 <= u64::MAX,
        ensures
            final(self).deadline_ms == Some((now_ms + SCAN_DURATION_SECS * 1000) as u64),
            final(self).refresh_deadline_ms == Some(
                (now_ms + SCAN_REFRESH_INTERVAL_SECS * 1000) as u64,
            ),
    {
        self.deadline_ms = Some(now_ms + SCAN_DURATION_SECS * 1000);
        self.refresh_deadline_ms = Some(now_ms + SCAN_REFRESH_INTERVAL_SECS * 1000);
    }

    /// Closes the window.
    pub fn stop(&mut self)
        ensures
            final(self).deadline_ms is None,
            final(self).refresh_deadline_ms is None,
    {
        self.deadline_ms = None;
        self.refresh_deadline_ms = None;
    }

    /// Once the deadline has passed the scan stops; before that, each passed
    /// refresh deadline asks for a refresh and moves one interval on.
    pub fn tick(&mut self, now_ms: u64) -> (t: ScanTick)
        requires
            now_ms + SCAN_REFRESH_INTERVAL_SECS * 1000 <= u64::MAX,
        ensures
            (old(self).deadline_ms matches Some(d) && now_ms >= d) ==> t == ScanTick::Stop
                && *final(self) == *old(self),
            !(old(self).deadline_ms matches Some(d) && now_ms >= d) && old(self).deadline_ms is Some
                && (old(self).refresh_deadline_ms matches Some(r) && now_ms >= r) ==> t
                == ScanTick::Refresh && final(self).deadline_ms == old(self).deadline_ms
                && final(self).refresh_deadline_ms == Some(
                (now_ms + SCAN_REFRESH_INTERVAL_SECS * 1000) as u64,
            ),
            !(old(self).deadline_ms matches Some(d) && now_ms >= d) && !(old(self).deadline_ms
                is Some && (old(self).refresh_deadline_ms matches Some(r) && now_ms >= r)) ==> t
                == ScanTick::Idle && *final(self) == *old(self),
    {
        if let Some(deadline) = self.deadline_ms {
            if now_ms >= deadline {
                return ScanTick::Stop;
            }
            if let Some(refresh) = self.refresh_deadline_ms {
                if now_ms >= refresh {
                    self.refresh_deadline_ms = Some(now_ms + SCAN_REFRESH_INTERVAL_SECS * 1000);
                    return ScanTick::Refresh;
                }
            }
        }
        ScanTick::Idle
    }
}

// ---------------------------------------------------------------------------
// Registry of known accessories
// ---------------------------------------------------------------------------

#[derive(Debug, PartialEq, Eq)]
pub struct RegistryEntry {
    pub accessory_id: String,
    pub address: String,
    pub alias: String,
    pub auto_connect: bool,
    pub last_seen_at: u64,
}

impl Clone for RegistryEntry {
    fn clone(&self) -> (r: Self)
        ensures
            r == *self,
    {
        RegistryEntry {
            accessory_id: self.accessory_id.clone(),
            address: self.address.clone(),
            alias: self.alias.clone(),
            auto_connect: self.auto_connect,
            last_seen_at: self.last_seen_at,
        }
    }
}

/// The accessories seen on this device, each with an opaque id that stands in
/// for its hardware address outside the device.
#[derive(Debug, Clone, PartialEq, Eq, Default)]
pub struct AccessoryRegistry {
    pub accessories: Vec<RegistryEntry>,
}

/// `Uuid::new_v4().to_string()`: a random version-4 UUID in its hyphenated
/// form. Stated: it is 36 characters long. Which UUID comes back is random.
#[verifier::external_body]
fn new_accessory_id() -> (id: String)
    ensures
        id@.len() == 36,
{
    uuid::Uuid::new_v4().to_string()
}

/// Entries of accessories other than `id`.
pub open spec fn other_accessory(id: Seq<char>) -> spec_fn(RegistryEntry) -> bool {
    |e: RegistryEntry| e.accessory_id@ != id
}

pub open spec fn same_address(e: RegistryEntry, address: Seq<char>) -> bool {
    ascii_case_eq(e.address@, address)
}

pub open spec fn first_with_address(es: Seq<RegistryEntry>, address: Seq<char>, i: int) -> bool {
    0 <= i < es.len() && same_address(es[i], address) && forall|k: int|
        0 <= k < i ==> !same_address(#[trigger] es[k], address)
}

pub open spec fn first_with_id(es: Seq<RegistryEntry>, id: Seq<char>, i: int) -> bool {
    0 <= i < es.len() && es[i].accessory_id@ == id && forall|k: int|
        0 <= k < i ==> (#[trigger] es[k]).accessory_id@ != id
}

impl AccessoryRegistry {
    /// Position of the first entry for `address` (compared without ASCII case).
    pub fn find_address(&self, address: &str) -> (r: Option<usize>)
        ensures
            r matches Some(i) ==> first_with_address(self.accessories@, address@, i as int),
            r is None ==> forall|k: int|
                0 <= k < self.accessories@.len() ==> !same_address(
                    #[trigger] self.accessories@[k],
                    address@,
                ),
    {
        let mut i: usize = 0;
        while i < self.accessories.len()
            invariant
                i <= self.accessories@.len(),
                forall|k: int| 0 <= k < i ==> !same_address(#[trigger] self.accessories@[k], address@),
            decreases self.accessories.len() - i,
        {
            if eq_ignore_ascii_case(self.accessories[i].address.as_str(), address) {
                return Some(i);
            }
            i = i + 1;
        }
        None
    }

    /// Position of the first entry with this id.
    pub fn find_id(&self, accessory_id: &str) -> (r: Option<usize>)
        ensures
            r matches Some(i) ==> first_with_id(self.accessories@, accessory_id@, i as int),
            r is None ==> forall|k: int|
                0 <= k < self.accessories@.len() ==> (#[trigger] self.accessories@[k]).accessory_id@
                    != accessory_id@,
    {
        let mut i: usize = 0;
        while i < self.accessories.len()
            invariant
                i <= self.accessories@.len(),
                forall|k: int|
                    0 <= k < i ==> (#[trigger] self.accessories@[k]).accessory_id@ != accessory_id@,
            decreases self.accessories.len() - i,
        {
            if str_eq(self.accessories[i].accessory_id.as_str(), accessory_id) {
                return Some(i);
            }
            i = i + 1;
        }
        None
    }

    /// The hardware address behind an id.
    pub fn address_for_id(&self, accessory_id: &str) -> (r: Option<String>)
        ensures
            r is Some <==> exists|k: int|
                0 <= k < self.accessories@.len() && (#[trigger] self.accessories@[k]).accessory_id@
                    == accessory_id@,
            r matches Some(a) ==> exists|k: int|
                first_with_id(self.accessories@, accessory_id@, k) && a@
                    == self.accessories@[k].address@,
    {
        match self.find_id(accessory_id) {
            Some(i) => Some(self.accessories[i].address.clone()),
            None => None,
        }
    }

    /// Records that a device with `address` was seen at `now`: an unknown
    /// address gets a fresh random id. Returns the entry's position and
    /// whether the registry changed.
    pub fn observe(&mut self, address: &str, now: u64) -> (r: (usize, bool))
        ensures
            r.0 < final(self).accessories@.len(),
            same_address(final(self).accessories@[r.0 as int], address@),
            final(self).accessories@[r.0 as int].last_seen_at == now,
            (exists|k: int|
                0 <= k < old(self).accessories@.len() && same_address(
                    #[trigger] old(self).accessories@[k],
                    address@,
                )) ==> {
                &&& first_with_address(old(self).accessories@, address@, r.0 as int)
                &&& final(self).accessories@ == old(self).accessories@.update(
                    r.0 as int,
                    RegistryEntry { last_seen_at: now, ..old(self).accessories@[r.0 as int] },
                )
                &&& r.1 == (old(self).accessories@[r.0 as int].last_seen_at != now)
            },
            (forall|k: int|
                0 <= k < old(self).accessories@.len() ==> !same_address(
                    #[trigger] old(self).accessories@[k],
                    address@,
                )) ==> {
                &&& r.1
                &&& r.0 == old(self).accessories@.len()
                &&& final(self).accessories@.len() == old(self).accessories@.len() + 1
                &&& final(self).accessories@.drop_last() == old(self).accessories@
                &&& final(self).accessories@[r.0 as int].address@ == address@
                &&& final(self).accessories@[r.0 as int].alias@.len() == 0
                &&& !final(self).accessories@[r.0 as int].auto_connect
                &&& final(self).accessories@[r.0 as int].accessory_id@.len() == 36
            },
    {
        match self.find_address(address) {
            Some(i) => {
                let changed = self.accessories[i].last_seen_at != now;
                let mut entry = self.accessories[i].clone();
                entry.last_seen_at = now;
                self.accessories.set(i, entry);
                (i, changed)
            },
            None => {
                let entry = RegistryEntry {
                    accessory_id: new_accessory_id(),
                    address: owned(address),
                    alias: String::new(),
                    auto_connect: false,
                    last_seen_at: now,
                };
                self.accessories.push(entry);
                assert(self.accessories@.drop_last() =~= old(self).accessories@);
                (self.accessories.len() - 1, true)
            },
        }
    }

    /// Drops every entry with this id, keeping the others in order.
    pub fn forget(&mut self, accessory_id: &str)
        ensures
            final(self).accessories@ == kept(old(self).accessories@, other_accessory(accessory_id@)),
    {
        let mut remaining: Vec<RegistryEntry> = Vec::new();
        let mut i: usize = 0;
        while i < self.accessories.len()
            invariant
                i <= self.accessories@.len(),
                self.accessories@ == old(self).accessories@,
                remaining@ == kept(self.accessories@.subrange(0, i as int), other_accessory(accessory_id@)),
            decreases self.accessories.len() - i,
        {
            proof {
                assert(self.accessories@.subrange(0, i + 1) =~= self.accessories@.subrange(0, i as int).push(
                    self.accessories@[i as int],
                ));
                lemma_kept_push(
                    self.accessories@.subrange(0, i as int),
                    self.accessories@[i as int],
                    other_accessory(accessory_id@),
                );
            }
            if !str_eq(self.accessories[i].accessory_id.as_str(), accessory_id) {
                remaining.push(self.accessories[i].clone());
            }
            i = i + 1;
        }
        assert(self.accessories@.subrange(0, self.accessories@.len() as int) =~= self.accessories@);
        self.accessories = remaining;
    }

    /// Sets the alias (cleaned) and auto-connect flag of an accessory.
    pub fn update(&mut self, accessory_id: &str, alias: Option<&str>, auto_connect: Option<bool>) -> (r:
        Result<(), BluetoothOperationError>)
        ensures
            r is Ok <==> exists|k: int|
                0 <= k < old(self).accessories@.len() && (#[trigger] old(self).accessories@[k]).accessory_id@ == accessory_id@,
            r matches Err(e) ==> e.code@ == "bluetooth_accessory_not_found"@,
            r is Err ==> *final(self) == *old(self),
            r is Ok ==> exists|i: int|
                first_with_id(old(self).accessories@, accessory_id@, i) && final(self).accessories@.len() == old(self).accessories@.len() && (forall|k: int|
                    0 <= k < old(self).accessories@.len() && k != i ==> final(self).accessories@[k]
                        == old(self).accessories@[k]) && final(self).accessories@[i].accessory_id
                    == old(self).accessories@[i].accessory_id && final(self).accessories@[i].address
                    == old(self).accessories@[i].address && final(self).accessories@[i].last_seen_at
                    == old(self).accessories@[i].last_seen_at && final(self).accessories@[i].alias@ == (match alias {
                    Some(a) => clean_name_spec(a@),
                    None => old(self).accessories@[i].alias@,
                }) && final(self).accessories@[i].auto_connect == (match auto_connect {
                    Some(b) => b,
                    None => old(self).accessories@[i].auto_connect,
                }),
    {
        let i = match self.find_id(accessory_id) {
            Some(i) => i,
            None => {
                return Err(BluetoothOperationError::invalid_accessory());
            },
        };
        let mut entry = self.accessories[i].clone();
        if let Some(alias) = alias {
            entry.alias = clean_name(alias);
        }
        if let Some(auto_connect) = auto_connect {
            entry.auto_connect = auto_connect;
        }
        self.accessories.set(i, entry);
        Ok(())
    }
}

} // verus!

verus! {

// ---------------------------------------------------------------------------
// Building the state from BlueZ's devices
// ---------------------------------------------------------------------------

/// What BlueZ reports of one device.
#[derive(Debug, Clone)]
pub struct BluezDevice {
    pub address: Option<String>,
    pub alias: Option<String>,
    pub name: Option<String>,
    pub uuids: Vec<String>,
    pub paired: bool,
    pub connected: bool,
    pub trusted: bool,
    pub rssi: Option<i16>,
    pub battery_percent: Option<u8>,
}

/// Whether `a` comes before `b` in code-point order.
pub open spec fn text_before(a: Seq<char>, b: Seq<char>) -> bool
    decreases a.len(),
{
    if a.len() == 0 {
        b.len() > 0
    } else if b.len() == 0 {
        false
    } else if a[0] != b[0] {
        (a[0] as u32) < (b[0] as u32)
    } else {
        text_before(a.drop_first(), b.drop_first())
    }
}

proof fn lemma_text_before_irreflexive(a: Seq<char>)
    ensures
        !text_before(a, a),
    decreases a.len(),
{
    if a.len() > 0 {
        lemma_text_before_irreflexive(a.drop_first());
    }
}

proof fn lemma_text_before_transitive(a: Seq<char>, b: Seq<char>, c: Seq<char>)
    requires
        text_before(a, b),
        text_before(b, c),
    ensures
        text_before(a, c),
    decreases a.len(),
{
    if a.len() > 0 && b.len() > 0 && c.len() > 0 && a[0] == b[0] && b[0] == c[0] {
        lemma_text_before_transitive(a.drop_first(), b.drop_first(), c.drop_first());
    }
}

/// The order accessories are listed in: connected first, then paired, then
/// by lowercased name.
pub open spec fn listed_before(x: BluetoothAccessory, y: BluetoothAccessory) -> bool {
    (x.connected && !y.connected) || (x.connected == y.connected && ((x.paired && !y.paired) || (x.paired
        == y.paired && text_before(lowercase(x.name@), lowercase(y.name@)))))
}

proof fn lemma_listed_before_irreflexive(x: BluetoothAccessory)
    ensures
        !listed_before(x, x),
{
    lemma_text_before_irreflexive(lowercase(x.name@));
}

proof fn lemma_listed_before_transitive(x: BluetoothAccessory, y: BluetoothAccessory, z: BluetoothAccessory)
    requires
        listed_before(x, y),
        listed_before(y, z),
    ensures
        listed_before(x, z),
{
    if x.connected == y.connected && y.connected == z.connected && x.paired == y.paired && y.paired
        == z.paired {
        lemma_text_before_transitive(lowercase(x.name@), lowercase(y.name@), lowercase(z.name@));
    }
}

pub open spec fn listed_in_order(s: Seq<BluetoothAccessory>) -> bool {
    forall|i: int, j: int| 0 <= i < j < s.len() ==> !listed_before(#[trigger] s[j], #[trigger] s[i])
}

fn comes_before(x: &BluetoothAccessory, y: &BluetoothAccessory, x_lower: &Vec<char>, y_lower: &Vec<char>) -> (r: bool)
    requires
        x_lower@ == lowercase(x.name@),
        y_lower@ == lowercase(y.name@),
    ensures
        r == listed_before(*x, *y),
{
    if x.connected != y.connected {
        return x.connected;
    }
    if x.paired != y.paired {
        return x.paired;
    }
    let mut i: usize = 0;
    assert(x_lower@.skip(0) =~= x_lower@);
    assert(y_lower@.skip(0) =~= y_lower@);
    while i < x_lower.len() && i < y_lower.len() && x_lower[i] == y_lower[i]
        invariant
            i <= x_lower@.len(),
            i <= y_lower@.len(),
            text_before(x_lower@, y_lower@) == text_before(x_lower@.skip(i as int), y_lower@.skip(i as int)),
        decreases x_lower.len() - i,
    {
        assert(x_lower@.skip(i as int).drop_first() =~= x_lower@.skip(i + 1));
        assert(y_lower@.skip(i as int).drop_first() =~= y_lower@.skip(i + 1));
        i = i + 1;
    }
    if i == x_lower.len() {
        i < y_lower.len()
    } else if i == y_lower.len() {
        false
    } else {
        (x_lower[i] as u32) < (y_lower[i] as u32)
    }
}

/// Puts the accessories in listing order, keeping the order of those that
/// tie.
pub fn sort_accessories(accessories: Vec<BluetoothAccessory>) -> (r: Vec<BluetoothAccessory>)
    ensures
        listed_in_order(r@),
        r@.to_multiset() == accessories@.to_multiset(),
{
    broadcast use vstd::seq_lib::group_to_multiset_ensures;
    broadcast use vstd::multiset::group_multiset_axioms;
    let mut sorted: Vec<BluetoothAccessory> = Vec::new();
    let mut lowered: Vec<Vec<char>> = Vec::new();
    let mut rest = accessories;
    assert(sorted@.to_multiset().add(rest@.to_multiset()) =~= accessories@.to_multiset());
    while rest.len() > 0
        invariant
            lowered@.len() == sorted@.len(),
            forall|k: int| 0 <= k < sorted@.len() ==> (#[trigger] lowered@[k])@ == lowercase(sorted@[k].name@),
            listed_in_order(sorted@),
            sorted@.to_multiset().add(rest@.to_multiset()) == accessories@.to_multiset(),
        decreases rest.len(),
    {
        let ghost old_rest = rest@;
        let x = rest.remove(0);
        let x_lower = chars_of(to_lowercase(x.name.as_str()).as_str());
        let mut p: usize = 0;
        while p < sorted.len() && !comes_before(&x, &sorted[p], &x_lower, &lowered[p])
            invariant
                p <= sorted@.len(),
                lowered@.len() == sorted@.len(),
                forall|k: int| 0 <= k < sorted@.len() ==> (#[trigger] lowered@[k])@ == lowercase(sorted@[k].name@),
                x_lower@ == lowercase(x.name@),
                forall|k: int| 0 <= k < p ==> !listed_before(x, #[trigger] sorted@[k]),
            decreases sorted.len() - p,
        {
            p = p + 1;
        }
        let ghost old_sorted = sorted@;
        proof {
            assert forall|k: int| p <= k < old_sorted.len() implies !listed_before(#[trigger] old_sorted[k], x) by {
                if listed_before(old_sorted[k], x) {
                    lemma_listed_before_transitive(old_sorted[k], x, old_sorted[p as int]);
                    if k == p {
                        lemma_listed_before_irreflexive(old_sorted[k]);
                    }
                }
            }
        }
        sorted.insert(p, x);
        lowered.insert(p, x_lower);
        proof {
            let s = sorted@;
            assert(s == old_sorted.insert(p as int, x));
            assert forall|a: int, b: int| 0 <= a < b < s.len() implies !listed_before(#[trigger] s[b], #[trigger] s[a]) by {
                if a < p && b < p {
                    assert(s[a] == old_sorted[a] && s[b] == old_sorted[b]);
                } else if a < p && b == p {
                    assert(s[a] == old_sorted[a]);
                } else if a < p {
                    assert(s[a] == old_sorted[a] && s[b] == old_sorted[b - 1]);
                } else if a == p {
                    assert(s[b] == old_sorted[b - 1]);
                } else {
                    assert(s[a] == old_sorted[a - 1] && s[b] == old_sorted[b - 1]);
                }
            }
            assert forall|k: int| 0 <= k < s.len() implies (#[trigger] lowered@[k])@ == lowercase(s[k].name@) by {
                if k > p {
                    assert(s[k] == old_sorted[k - 1]);
                }
            }
            assert(x == old_rest[0]);
            assert(old_rest.contains(old_rest[0]));
            vstd::seq_lib::to_multiset_contains(old_rest, x);
            vstd::seq_lib::to_multiset_insert(old_sorted, p as int, x);
            vstd::seq_lib::to_multiset_remove(old_rest, 0);
            assert(rest@.to_multiset() == old_rest.to_multiset().remove(x));
            assert(s.to_multiset().add(rest@.to_multiset()) =~= old_sorted.to_multiset().add(
                old_rest.to_multiset(),
            ));
        }
    }
    assert(rest@.to_multiset() =~= Multiset::empty());
    assert(sorted@.to_multiset().add(rest@.to_multiset()) =~= sorted@.to_multiset());
    sorted
}

/// The accessory a device appears as: audio devices only (an output
/// profile and an address), named by the user's alias, else BlueZ's alias or
/// name, else "Bluetooth audio".
pub open spec fn shown_name(alias: Seq<char>, d: BluezDevice) -> Seq<char> {
    if trim(alias).len() == 0 {
        match d.alias {
            Some(a) => a@,
            None => match d.name {
                Some(n) => n@,
                None => "Bluetooth audio"@,
            },
        }
    } else {
        alias
    }
}

/// The accessory a device appears as, given its registry entry: the
/// entry's id, auto-connect flag and last sighting; the shown name, cleaned;
/// the kind its lowercased name and profiles give; the device's flags and
/// battery, and its signal as a percentage.
pub open spec fn accessory_for(entry: RegistryEntry, device: BluezDevice, a: BluetoothAccessory) -> bool {
    &&& a.accessory_id@ == entry.accessory_id@
    &&& a.name@ == clean_name_spec(shown_name(entry.alias@, device))
    &&& a.kind@ == kind_spec(lowercase(shown_name(entry.alias@, device)), capabilities_spec(device.uuids@))
    &&& a.paired == device.paired
    &&& a.connected == device.connected
    &&& a.trusted == device.trusted
    &&& a.auto_connect == entry.auto_connect
    &&& a.capabilities == capabilities_spec(device.uuids@)
    &&& a.battery_percent == device.battery_percent
    &&& a.signal_percent == (match device.rssi {
        Some(r) => Some(rssi_percent_spec(r)),
        None => None,
    })
    &&& a.last_seen_at == entry.last_seen_at
}

/// The accessory for a device, given its registry entry.
pub fn accessory_from(entry: &RegistryEntry, device: &BluezDevice) -> (a: BluetoothAccessory)
    ensures
        accessory_for(*entry, *device, a),
{
    let capabilities = capabilities_for(&device.uuids);
    let name = if trim_chars(&chars_of(entry.alias.as_str())).len() == 0 {
        match &device.alias {
            Some(a) => a.clone(),
            None => match &device.name {
                Some(n) => n.clone(),
                None => owned("Bluetooth audio"),
            },
        }
    } else {
        entry.alias.clone()
    };
    BluetoothAccessory {
        accessory_id: entry.accessory_id.clone(),
        name: clean_name(name.as_str()),
        kind: accessory_kind(name.as_str(), &capabilities),
        paired: device.paired,
        connected: device.connected,
        trusted: device.trusted,
        auto_connect: entry.auto_connect,
        capabilities,
        battery_percent: device.battery_percent,
        signal_percent: match device.rssi {
            Some(r) => Some(rssi_percent(r)),
            None => None,
        },
        last_seen_at: entry.last_seen_at,
    }
}

/// A device that is listed: an audio output with an address.
pub open spec fn is_listed_device(d: BluezDevice) -> bool {
    capabilities_spec(d.uuids@).output && d.address.is_some()
}

/// The listed devices among `devices`, in their order.
pub open spec fn listed_devices(devices: Seq<BluezDevice>) -> Seq<BluezDevice>
    decreases devices.len(),
{
    if devices.len() == 0 {
        Seq::empty()
    } else if is_listed_device(devices.last()) {
        listed_devices(devices.drop_last()).push(devices.last())
    } else {
        listed_devices(devices.drop_last())
    }
}

/// The `k`-th accessory of `built` is what the `k`-th listed device makes
/// with the first registry entry for its address, an entry seen at `now`.
pub open spec fn built_at(
    built: Seq<BluetoothAccessory>,
    entries: Seq<RegistryEntry>,
    listed: Seq<BluezDevice>,
    now: u64,
    k: int,
) -> bool {
    exists|j: int|
        #[trigger] first_with_address(entries, listed[k].address.unwrap()@, j) && entries[j].last_seen_at == now
            && accessory_for(entries[j], listed[k], built[k])
}

/// One accessory for each listed device, in the devices' order, each built
/// from the device and its registry entry.
pub open spec fn built_in_order(
    built: Seq<BluetoothAccessory>,
    entries: Seq<RegistryEntry>,
    listed: Seq<BluezDevice>,
    now: u64,
) -> bool {
    &&& built.len() == listed.len()
    &&& forall|k: int| 0 <= k < built.len() ==> #[trigger] built_at(built, entries, listed, now, k)
}

/// Every entry of `before` is still in `after`, at its place, with its id,
/// address, alias and auto-connect flag.
pub open spec fn keeps_entries(before: Seq<RegistryEntry>, after: Seq<RegistryEntry>) -> bool {
    &&& after.len() >= before.len()
    &&& forall|k: int|
        0 <= k < before.len() ==> {
            &&& (#[trigger] after[k]).accessory_id == before[k].accessory_id
            &&& after[k].address == before[k].address
            &&& after[k].alias == before[k].alias
            &&& after[k].auto_connect == before[k].auto_connect
        }
}

/// `after` grew past `before`, or one of its entries was seen anew at `now`.
spec fn moved_on(before: Seq<RegistryEntry>, after: Seq<RegistryEntry>, now: u64) -> bool {
    ||| after.len() > before.len()
    ||| exists|k: int| 0 <= k < before.len() && before[k].last_seen_at != now && (#[trigger] after[k]).last_seen_at == now
}

proof fn lemma_moved_on_differs(before: Seq<RegistryEntry>, after: Seq<RegistryEntry>, now: u64)
    requires
        moved_on(before, after, now),
        after.len() >= before.len(),
    ensures
        after != before,
{
    if after.len() == before.len() {
        let k = choose|k: int| 0 <= k < before.len() && before[k].last_seen_at != now && (#[trigger] after[k]).last_seen_at == now;
        assert(after[k] != before[k]);
    }
}

/// The accessories BlueZ's devices make: each audio device with an address
/// is recorded in the registry as seen at `now`, and the list holds, in
/// listing order, one accessory for each such device, made with its
/// registry entry. Entries already in the registry keep their id, address,
/// alias and auto-connect flag. Returns the list and whether the registry
/// changed.
pub fn accessories_from_devices(registry: &mut AccessoryRegistry, devices: &Vec<BluezDevice>, now: u64) -> (r: (
    Vec<BluetoothAccessory>,
    bool,
))
    ensures
        listed_in_order(r.0@),
        exists|built: Seq<BluetoothAccessory>|
            #[trigger] built_in_order(built, final(registry).accessories@, listed_devices(devices@), now)
                && r.0@.to_multiset() == built.to_multiset(),
        keeps_entries(old(registry).accessories@, final(registry).accessories@),
        r.1 == (final(registry).accessories@ != old(registry).accessories@),
{
    let ghost orig = registry.accessories@;
    let mut list: Vec<BluetoothAccessory> = Vec::new();
    let mut changed = false;
    let mut i: usize = 0;
    proof {
        assert(devices@.subrange(0, 0) =~= Seq::<BluezDevice>::empty());
    }
    while i < devices.len()
        invariant
            i <= devices@.len(),
            orig == old(registry).accessories@,
            built_in_order(list@, registry.accessories@, listed_devices(devices@.subrange(0, i as int)), now),
            keeps_entries(orig, registry.accessories@),
            !changed ==> registry.accessories@ == orig,
            changed ==> moved_on(orig, registry.accessories@, now),
        decreases devices.len() - i,
    {
        let ghost listed_before = listed_devices(devices@.subrange(0, i as int));
        proof {
            assert(devices@.subrange(0, i + 1).drop_last() =~= devices@.subrange(0, i as int));
            assert(devices@.subrange(0, i + 1).last() == devices@[i as int]);
        }
        let d = &devices[i];
        let capabilities = capabilities_for(&d.uuids);
        if capabilities.output {
            if let Some(address) = &d.address {
                let ghost before = registry.accessories@;
                let (index, entry_changed) = registry.observe(address.as_str(), now);
                let ghost after = registry.accessories@;
                proof {
                    assert(is_listed_device(devices@[i as int]));
                    assert forall|k: int| 0 <= k < before.len() implies #[trigger] after[k].address == before[k].address
                        && after[k].accessory_id == before[k].accessory_id && after[k].alias == before[k].alias
                        && after[k].auto_connect == before[k].auto_connect && (before[k].last_seen_at == now
                        ==> after[k] == before[k]) && (k != index ==> after[k] == before[k]) by {
                        if after.len() == before.len() + 1 && index == before.len() {
                            assert(after.drop_last()[k] == before[k]);
                        }
                    }
                    assert(after.len() >= before.len());
                    assert forall|k: int| 0 <= k < list@.len() implies #[trigger] built_at(
                        list@,
                        after,
                        listed_before,
                        now,
                        k,
                    ) by {
                        assert(built_at(list@, before, listed_before, now, k));
                        let j = choose|j: int|
                            #[trigger] first_with_address(before, listed_before[k].address.unwrap()@, j)
                                && before[j].last_seen_at == now && accessory_for(
                                before[j],
                                listed_before[k],
                                list@[k],
                            );
                        assert(after[j] == before[j]);
                        assert forall|m: int| 0 <= m < j implies !same_address(
                            #[trigger] after[m],
                            listed_before[k].address.unwrap()@,
                        ) by {
                            assert(after[m].address == before[m].address);
                            assert(!same_address(before[m], listed_before[k].address.unwrap()@));
                        }
                        assert(first_with_address(after, listed_before[k].address.unwrap()@, j));
                    }
                    assert forall|m: int| 0 <= m < index implies !same_address(#[trigger] after[m], address@) by {
                        if m < before.len() {
                            assert(after[m].address == before[m].address);
                            if exists|q: int| 0 <= q < before.len() && same_address(#[trigger] before[q], address@) {
                                assert(first_with_address(before, address@, index as int));
                            }
                        }
                    }
                    assert(first_with_address(after, address@, index as int));
                    assert(keeps_entries(orig, after)) by {
                        assert forall|k: int| 0 <= k < orig.len() implies {
                            &&& (#[trigger] after[k]).accessory_id == orig[k].accessory_id
                            &&& after[k].address == orig[k].address
                            &&& after[k].alias == orig[k].alias
                            &&& after[k].auto_connect == orig[k].auto_connect
                        } by {
                            assert(before[k].accessory_id == orig[k].accessory_id);
                        }
                    }
                    if entry_changed {
                        if !changed {
                            if after.len() == before.len() {
                                assert(before[index as int].last_seen_at != now && after[index as int].last_seen_at == now);
                            }
                            assert(moved_on(orig, after, now));
                        } else {
                            if before.len() == orig.len() {
                                let k = choose|k: int|
                                    0 <= k < orig.len() && orig[k].last_seen_at != now && (#[trigger] before[k]).last_seen_at
                                        == now;
                                assert(after[k].address == before[k].address);
                                assert(after[k].last_seen_at == now);
                            }
                            assert(moved_on(orig, after, now));
                        }
                    } else {
                        assert(after.len() == before.len());
                        assert(after[index as int] == before[index as int]);
                        assert(after =~= before);
                        if changed {
                            if after.len() == orig.len() {
                                let k = choose|k: int|
                                    0 <= k < orig.len() && orig[k].last_seen_at != now && (#[trigger] before[k]).last_seen_at
                                        == now;
                                assert(after[k].last_seen_at == now);
                            }
                        }
                    }
                }
                changed = changed || entry_changed;
                let a = accessory_from(&registry.accessories[index], d);
                let ghost old_list = list@;
                list.push(a);
                proof {
                    let listed_now = listed_devices(devices@.subrange(0, i + 1));
                    assert(listed_now == listed_before.push(devices@[i as int]));
                    assert forall|k: int| 0 <= k < list@.len() implies #[trigger] built_at(
                        list@,
                        after,
                        listed_now,
                        now,
                        k,
                    ) by {
                        if k < old_list.len() {
                            assert(built_at(old_list, after, listed_before, now, k));
                            assert(list@[k] == old_list[k]);
                            assert(listed_now[k] == listed_before[k]);
                            let j = choose|j: int|
                                #[trigger] first_with_address(after, listed_before[k].address.unwrap()@, j)
                                    && after[j].last_seen_at == now && accessory_for(
                                    after[j],
                                    listed_before[k],
                                    old_list[k],
                                );
                            assert(first_with_address(after, listed_now[k].address.unwrap()@, j));
                        } else {
                            assert(list@[k] == a);
                            assert(listed_now[k] == devices@[i as int]);
                            assert(first_with_address(after, listed_now[k].address.unwrap()@, index as int));
                        }
                    }
                }
            }
        }
        proof {
            if !(capabilities.output && d.address.is_some()) {
                assert(!is_listed_device(devices@[i as int]));
                assert(listed_devices(devices@.subrange(0, i + 1)) == listed_before);
            }
        }
        i = i + 1;
    }
    proof {
        assert(devices@.subrange(0, devices@.len() as int) =~= devices@);
        if changed {
            lemma_moved_on_differs(orig, registry.accessories@, now);
        }
    }
    let ghost built = list@;
    let sorted = sort_accessories(list);
    proof {
        assert(built_in_order(built, registry.accessories@, listed_devices(devices@), now));
    }
    (sorted, changed)
}

/// Before connecting to an accessory, every other connected accessory is
/// disconnected: their ids, in listing order.
pub open spec fn others_connected(accessories: Seq<BluetoothAccessory>, accessory_id: Seq<char>) -> Seq<Seq<char>>
    decreases accessories.len(),
{
    if accessories.len() == 0 {
        Seq::empty()
    } else {
        let rest = others_connected(accessories.drop_last(), accessory_id);
        let a = accessories.last();
        if a.connected && a.accessory_id@ != accessory_id {
            rest.push(a.accessory_id@)
        } else {
            rest
        }
    }
}

pub fn accessories_to_disconnect(state: &BluetoothState, accessory_id: &str) -> (r: Vec<String>)
    ensures
        r@.map_values(|s: String| s@) == others_connected(state.accessories@, accessory_id@),
{
    let mut out: Vec<String> = Vec::new();
    let mut i: usize = 0;
    while i < state.accessories.len()
        invariant
            i <= state.accessories@.len(),
            out@.map_values(|s: String| s@) == others_connected(state.accessories@.subrange(0, i as int), accessory_id@),
        decreases state.accessories.len() - i,
    {
        let a = &state.accessories[i];
        proof {
            assert(state.accessories@.subrange(0, i + 1).drop_last() =~= state.accessories@.subrange(0, i as int));
        }
        if a.connected && !str_eq(a.accessory_id.as_str(), accessory_id) {
            let ghost before = out@;
            out.push(a.accessory_id.clone());
            assert(out@.map_values(|s: String| s@) =~= before.map_values(|s: String| s@).push(a.accessory_id@));
        }
        i = i + 1;
    }
    assert(state.accessories@.subrange(0, state.accessories@.len() as int) =~= state.accessories@);
    out
}

} // verus!
