//! The network worker's answer to each command: what it reads from the
//! command's payload, which handler runs and with what, the error that
//! refuses a command instead, and the envelopes that report each outcome.
use vstd::prelude::*;
use crate::audio::{AppliedAudio, AudioOperationError};
use crate::bluetooth::{BluetoothOperationError, BluetoothState};
use crate::cloud::count_in;
use crate::json::{as_count, as_flag, as_text, json_member, member};
use crate::provisioning::{plain_state, state_view, text_in, WifiProvisioningState};
use crate::text::{owned, push_str, string_of, trim, trimmed};
use crate::tracking::flag_in;
use crate::wifi::{WifiChangeStart, WifiOperationError, WifiState};
use crate::worker::{
    is_unavailable_state, route_command, route_spec, state_after_rollback, CommandRoute, PendingChangeOutcome,
    PendingWifiChange, WorkerCommand, WIFI_CHANGE_TIMEOUT_MS,
};

verus! {

/// What a Bluetooth accessory command asks.
#[derive(Debug, Clone, Copy, PartialEq, Eq, Structural)]
pub enum AccessoryAction {
    Pair,
    Connect,
    Disconnect,
    Forget,
}

/// What the worker does with a command.
#[derive(Debug)]
pub enum CommandPlan {
    /// Refuse it: an error envelope of `message_type` with the command's
    /// request id, `code` and `message`; then, when `refresh_wifi`, the Wi-Fi
    /// state after a refresh; and, when `clear_setup_screen`, an error state
    /// on the setup screen.
    Refuse { message_type: String, code: String, message: String, refresh_wifi: bool, clear_setup_screen: bool },
    NetworkHealth,
    QueryGps,
    ResetModem,
    WifiRefresh,
    WifiScan,
    /// Add a profile described by the payload.
    WifiAddProfile(serde_json::Value),
    /// Update a profile described by the payload.
    WifiUpdateProfile(serde_json::Value),
    WifiForgetProfile { profile_id: String },
    /// Start activating a profile; the change stays pending under the
    /// request id until the cloud confirms it.
    WifiActivateProfile { request_id: String, payload: serde_json::Value },
    /// Start changing the IPv4 settings, pending in the same way.
    WifiUpdateIpv4 { request_id: String, payload: serde_json::Value },
    /// Confirm the pending change and answer its original request.
    WifiConfirmChange,
    /// Start Wi-Fi setup and report its first state.
    ProvisioningStart,
    /// Stop Wi-Fi setup and report its last state.
    ProvisioningStop,
    /// Report the idle setup state (setup was not running).
    ProvisioningIdle,
    /// Nothing to do.
    Nothing,
    BluetoothRefresh,
    BluetoothSetRadio(bool),
    BluetoothScanStart,
    BluetoothScanStop,
    BluetoothAccessory { action: AccessoryAction, accessory_id: String },
    BluetoothUpdateAccessory { accessory_id: String, alias: Option<String>, auto_connect: Option<bool> },
    /// Set the output level, 0 to 100.
    AudioSetLevel(u8),
    /// Step the output level to its next value.
    AudioCycleLevel,
    /// Apply the settings in the payload (answered as invalid settings when
    /// they do not parse) under the revision.
    AudioApply { revision: u64, settings: serde_json::Value },
    AudioTestOutput { target: String },
    AudioTestInput { duration_seconds: u64 },
    Shutdown,
}

/// A plan as the contracts see it.
pub ghost enum PlanView {
    Refuse(Seq<char>, Seq<char>, Seq<char>, bool, bool),
    NetworkHealth,
    QueryGps,
    ResetModem,
    WifiRefresh,
    WifiScan,
    WifiAddProfile(serde_json::Value),
    WifiUpdateProfile(serde_json::Value),
    WifiForgetProfile(Seq<char>),
    WifiActivateProfile(Seq<char>, serde_json::Value),
    WifiUpdateIpv4(Seq<char>, serde_json::Value),
    WifiConfirmChange,
    ProvisioningStart,
    ProvisioningStop,
    ProvisioningIdle,
    Nothing,
    BluetoothRefresh,
    BluetoothSetRadio(bool),
    BluetoothScanStart,
    BluetoothScanStop,
    BluetoothAccessory(AccessoryAction, Seq<char>),
    BluetoothUpdateAccessory(Seq<char>, Option<Seq<char>>, Option<bool>),
    AudioSetLevel(u8),
    AudioCycleLevel,
    AudioApply(u64, serde_json::Value),
    AudioTestOutput(Seq<char>),
    AudioTestInput(u64),
    Shutdown,
}

pub open spec fn opt_text(t: Option<String>) -> Option<Seq<char>> {
    match t {
        Some(s) => Some(s@),
        None => None,
    }
}

pub open spec fn plan_view(p: CommandPlan) -> PlanView {
    match p {
        CommandPlan::Refuse { message_type, code, message, refresh_wifi, clear_setup_screen } => PlanView::Refuse(
            message_type@,
            code@,
            message@,
            refresh_wifi,
            clear_setup_screen,
        ),
        CommandPlan::NetworkHealth => PlanView::NetworkHealth,
        CommandPlan::QueryGps => PlanView::QueryGps,
        CommandPlan::ResetModem => PlanView::ResetModem,
        CommandPlan::WifiRefresh => PlanView::WifiRefresh,
        CommandPlan::WifiScan => PlanView::WifiScan,
        CommandPlan::WifiAddProfile(v) => PlanView::WifiAddProfile(v),
        CommandPlan::WifiUpdateProfile(v) => PlanView::WifiUpdateProfile(v),
        CommandPlan::WifiForgetProfile { profile_id } => PlanView::WifiForgetProfile(profile_id@),
        CommandPlan::WifiActivateProfile { request_id, payload } => PlanView::WifiActivateProfile(request_id@, payload),
        CommandPlan::WifiUpdateIpv4 { request_id, payload } => PlanView::WifiUpdateIpv4(request_id@, payload),
        CommandPlan::WifiConfirmChange => PlanView::WifiConfirmChange,
        CommandPlan::ProvisioningStart => PlanView::ProvisioningStart,
        CommandPlan::ProvisioningStop => PlanView::ProvisioningStop,
        CommandPlan::ProvisioningIdle => PlanView::ProvisioningIdle,
        CommandPlan::Nothing => PlanView::Nothing,
        CommandPlan::BluetoothRefresh => PlanView::BluetoothRefresh,
        CommandPlan::BluetoothSetRadio(b) => PlanView::BluetoothSetRadio(b),
        CommandPlan::BluetoothScanStart => PlanView::BluetoothScanStart,
        CommandPlan::BluetoothScanStop => PlanView::BluetoothScanStop,
        CommandPlan::BluetoothAccessory { action, accessory_id } => PlanView::BluetoothAccessory(action, accessory_id@),
        CommandPlan::BluetoothUpdateAccessory { accessory_id, alias, auto_connect } => PlanView::BluetoothUpdateAccessory(
            accessory_id@,
            opt_text(alias),
            auto_connect,
        ),
        CommandPlan::AudioSetLevel(l) => PlanView::AudioSetLevel(l),
        CommandPlan::AudioCycleLevel => PlanView::AudioCycleLevel,
        CommandPlan::AudioApply { revision, settings } => PlanView::AudioApply(revision, settings),
        CommandPlan::AudioTestOutput { target } => PlanView::AudioTestOutput(target@),
        CommandPlan::AudioTestInput { duration_seconds } => PlanView::AudioTestInput(duration_seconds),
        CommandPlan::Shutdown => PlanView::Shutdown,
    }
}

pub open spec fn refuse(message_type: Seq<char>, code: Seq<char>, message: Seq<char>, refresh_wifi: bool, clear: bool) -> PlanView {
    PlanView::Refuse(message_type, code, message, refresh_wifi, clear)
}

/// A text member with something besides spaces in it, as it stands.
pub open spec fn nonblank_field(payload: serde_json::Value, key: Seq<char>) -> Option<Seq<char>> {
    match text_in(json_member(payload, key)) {
        Some(t) => if trim(t).len() > 0 {
            Some(t)
        } else {
            None
        },
        None => None,
    }
}

pub open spec fn accessory_refusal() -> PlanView {
    refuse("bluetooth_error"@, "bluetooth_invalid_request"@, "Bluetooth accessory reference is invalid"@, false, false)
}

pub open spec fn accessory_plan(action: AccessoryAction, payload: serde_json::Value) -> PlanView {
    match nonblank_field(payload, "accessory_id"@) {
        Some(id) => PlanView::BluetoothAccessory(action, id),
        None => accessory_refusal(),
    }
}

/// The output level a payload asks for: a whole number up to 100.
pub open spec fn level_of(payload: serde_json::Value) -> Option<u64> {
    match count_in(json_member(payload, "level"@)) {
        Some(l) => if l <= 100 {
            Some(l)
        } else {
            None
        },
        None => None,
    }
}

/// What a command that is carried out does, reading its payload: the
/// references it needs must be there (else the request is refused as
/// invalid), setup starts and stops only once, and a confirmation must name
/// the pending change.
pub open spec fn run_spec(
    c: WorkerCommand,
    setup_running: bool,
    pending: Option<Seq<char>>,
    request_id: Option<Seq<char>>,
    payload: serde_json::Value,
) -> PlanView {
    match c {
        WorkerCommand::NetworkHealth => PlanView::NetworkHealth,
        WorkerCommand::QueryGps => PlanView::QueryGps,
        WorkerCommand::ResetModem => PlanView::ResetModem,
        WorkerCommand::WifiRefresh => PlanView::WifiRefresh,
        WorkerCommand::WifiScan => PlanView::WifiScan,
        WorkerCommand::WifiAddProfile => PlanView::WifiAddProfile(payload),
        WorkerCommand::WifiUpdateProfile => PlanView::WifiUpdateProfile(payload),
        WorkerCommand::WifiForgetProfile => match nonblank_field(payload, "profile_id"@) {
            Some(p) => PlanView::WifiForgetProfile(p),
            None => refuse(
                "wifi_error"@,
                "wifi_invalid_request"@,
                "The saved Wi-Fi network reference is invalid"@,
                true,
                false,
            ),
        },
        WorkerCommand::WifiActivateProfile => match request_id {
            Some(r) => PlanView::WifiActivateProfile(r, payload),
            None => refuse(
                "wifi_error"@,
                "wifi_invalid_request"@,
                "The Wi-Fi activation request is missing its correlation reference"@,
                true,
                false,
            ),
        },
        WorkerCommand::WifiUpdateIpv4 => match request_id {
            Some(r) => PlanView::WifiUpdateIpv4(r, payload),
            None => refuse(
                "wifi_error"@,
                "wifi_invalid_request"@,
                "The IPv4 update request is missing its correlation reference"@,
                true,
                false,
            ),
        },
        WorkerCommand::WifiConfirmChange => if text_in(json_member(payload, "activation_command_id"@)) == pending {
            if pending is Some {
                PlanView::WifiConfirmChange
            } else {
                PlanView::Nothing
            }
        } else {
            refuse(
                "wifi_error"@,
                "wifi_confirmation_mismatch"@,
                "The Wi-Fi confirmation did not match the pending change"@,
                false,
                false,
            )
        },
        WorkerCommand::WifiProvisioningStart => if setup_running {
            PlanView::Nothing
        } else {
            PlanView::ProvisioningStart
        },
        WorkerCommand::WifiProvisioningStop => if setup_running {
            PlanView::ProvisioningStop
        } else {
            PlanView::ProvisioningIdle
        },
        WorkerCommand::BluetoothRefresh => PlanView::BluetoothRefresh,
        WorkerCommand::BluetoothSetRadio => match flag_in(json_member(payload, "enabled"@)) {
            Some(b) => PlanView::BluetoothSetRadio(b),
            None => refuse(
                "bluetooth_error"@,
                "bluetooth_invalid_request"@,
                "Bluetooth power setting is invalid"@,
                false,
                false,
            ),
        },
        WorkerCommand::BluetoothScanStart => PlanView::BluetoothScanStart,
        WorkerCommand::BluetoothScanStop => PlanView::BluetoothScanStop,
        WorkerCommand::BluetoothPair => accessory_plan(AccessoryAction::Pair, payload),
        WorkerCommand::BluetoothConnect => accessory_plan(AccessoryAction::Connect, payload),
        WorkerCommand::BluetoothDisconnect => accessory_plan(AccessoryAction::Disconnect, payload),
        WorkerCommand::BluetoothForget => accessory_plan(AccessoryAction::Forget, payload),
        WorkerCommand::BluetoothUpdateAccessory => match nonblank_field(payload, "accessory_id"@) {
            Some(id) => PlanView::BluetoothUpdateAccessory(
                id,
                text_in(json_member(payload, "alias"@)),
                flag_in(json_member(payload, "auto_connect"@)),
            ),
            None => accessory_refusal(),
        },
        WorkerCommand::AudioSetOutputLevel => {
            let cycle = flag_in(json_member(payload, "cycle"@)) == Some(true);
            match level_of(payload) {
                Some(l) => PlanView::AudioSetLevel(l as u8),
                None => if cycle {
                    PlanView::AudioCycleLevel
                } else {
                    refuse(
                        "audio_error"@,
                        "audio_invalid_settings"@,
                        "Audio output level must be a 0 to 100 value or a cycle request"@,
                        false,
                        false,
                    )
                },
            }
        },
        WorkerCommand::AudioApplySettings => match (
            count_in(json_member(payload, "revision"@)),
            json_member(payload, "settings"@),
        ) {
            (Some(r), Some(s)) => PlanView::AudioApply(r, s),
            _ => refuse("audio_error"@, "audio_invalid_settings"@, "Audio settings payload is invalid"@, false, false),
        },
        WorkerCommand::AudioTestOutput => PlanView::AudioTestOutput(
            match text_in(json_member(payload, "target"@)) {
                Some(t) => t,
                None => Seq::empty(),
            },
        ),
        WorkerCommand::AudioTestInput => PlanView::AudioTestInput(
            match count_in(json_member(payload, "duration_seconds"@)) {
                Some(d) => d,
                None => 10,
            },
        ),
        WorkerCommand::Shutdown => PlanView::Shutdown,
    }
}

/// What the worker does with a command of type `mt`: Wi-Fi station commands
/// are refused while setup runs or a change waits for confirmation, a type
/// it does not know is refused as unsupported, and any other command is
/// carried out as `run_spec` reads it.
pub open spec fn command_plan_spec(
    setup_running: bool,
    pending: Option<Seq<char>>,
    mt: Seq<char>,
    request_id: Option<Seq<char>>,
    payload: serde_json::Value,
) -> PlanView {
    match route_spec(mt, setup_running, pending is Some) {
        CommandRoute::RefusedDuringSetup => refuse(
            "wifi_error"@,
            "wifi_provisioning_in_progress"@,
            "Wi-Fi setup is in progress on the device"@,
            false,
            false,
        ),
        CommandRoute::RefusedDuringChange { clear_setup_screen } => refuse(
            "wifi_error"@,
            "wifi_change_in_progress"@,
            "Another Wi-Fi connectivity change is already in progress"@,
            false,
            clear_setup_screen,
        ),
        CommandRoute::Unsupported => refuse(
            "network.error"@,
            "unsupported_command"@,
            "unsupported command "@ + mt,
            false,
            false,
        ),
        CommandRoute::Run(c) => run_spec(c, setup_running, pending, request_id, payload),
    }
}

fn refusal(message_type: &str, code: &str, message: &str, refresh_wifi: bool, clear_setup_screen: bool) -> (p: CommandPlan)
    ensures
        plan_view(p) == refuse(message_type@, code@, message@, refresh_wifi, clear_setup_screen),
{
    CommandPlan::Refuse {
        message_type: owned(message_type),
        code: owned(code),
        message: owned(message),
        refresh_wifi,
        clear_setup_screen,
    }
}

fn text_field(payload: &serde_json::Value, key: &str) -> (r: Option<String>)
    ensures
        opt_text(r) == text_in(json_member(*payload, key@)),
{
    match member(payload, key) {
        Some(v) => as_text(&v),
        None => None,
    }
}

fn flag_field(payload: &serde_json::Value, key: &str) -> (r: Option<bool>)
    ensures
        r == flag_in(json_member(*payload, key@)),
{
    match member(payload, key) {
        Some(v) => as_flag(&v),
        None => None,
    }
}

fn count_field(payload: &serde_json::Value, key: &str) -> (r: Option<u64>)
    ensures
        r == count_in(json_member(*payload, key@)),
{
    match member(payload, key) {
        Some(v) => as_count(&v),
        None => None,
    }
}

fn nonblank(payload: &serde_json::Value, key: &str) -> (r: Option<String>)
    ensures
        opt_text(r) == nonblank_field(*payload, key@),
{
    match text_field(payload, key) {
        Some(t) => if trimmed(t.as_str()).len() > 0 {
            Some(t)
        } else {
            None
        },
        None => None,
    }
}

fn accessory(action: AccessoryAction, payload: &serde_json::Value) -> (p: CommandPlan)
    ensures
        plan_view(p) == accessory_plan(action, *payload),
{
    match nonblank(payload, "accessory_id") {
        Some(id) => CommandPlan::BluetoothAccessory { action, accessory_id: id },
        None => refusal("bluetooth_error", "bluetooth_invalid_request", "Bluetooth accessory reference is invalid", false, false),
    }
}

fn same_reference(a: &Option<String>, b: Option<&str>) -> (r: bool)
    ensures
        r == (opt_text(*a) == match b {
            Some(s) => Some(s@),
            None => None,
        }),
{
    match (a, b) {
        (Some(x), Some(y)) => crate::text::str_eq(x.as_str(), y),
        (None, None) => true,
        _ => false,
    }
}

fn run_plan(
    c: WorkerCommand,
    setup_running: bool,
    pending_request_id: Option<&str>,
    request_id: Option<&str>,
    payload: &serde_json::Value,
) -> (p: CommandPlan)
    ensures
        plan_view(p) == run_spec(
            c,
            setup_running,
            match pending_request_id {
                Some(s) => Some(s@),
                None => None,
            },
            match request_id {
                Some(s) => Some(s@),
                None => None,
            },
            *payload,
        ),
{
    match c {
        WorkerCommand::NetworkHealth => CommandPlan::NetworkHealth,
        WorkerCommand::QueryGps => CommandPlan::QueryGps,
        WorkerCommand::ResetModem => CommandPlan::ResetModem,
        WorkerCommand::WifiRefresh => CommandPlan::WifiRefresh,
        WorkerCommand::WifiScan => CommandPlan::WifiScan,
        WorkerCommand::WifiAddProfile => CommandPlan::WifiAddProfile(payload.clone()),
        WorkerCommand::WifiUpdateProfile => CommandPlan::WifiUpdateProfile(payload.clone()),
        WorkerCommand::WifiForgetProfile => match nonblank(payload, "profile_id") {
            Some(p) => CommandPlan::WifiForgetProfile { profile_id: p },
            None => refusal("wifi_error", "wifi_invalid_request", "The saved Wi-Fi network reference is invalid", true, false),
        },
        WorkerCommand::WifiActivateProfile => match request_id {
            Some(r) => CommandPlan::WifiActivateProfile { request_id: owned(r), payload: payload.clone() },
            None => refusal(
                "wifi_error",
                "wifi_invalid_request",
                "The Wi-Fi activation request is missing its correlation reference",
                true,
                false,
            ),
        },
        WorkerCommand::WifiUpdateIpv4 => match request_id {
            Some(r) => CommandPlan::WifiUpdateIpv4 { request_id: owned(r), payload: payload.clone() },
            None => refusal(
                "wifi_error",
                "wifi_invalid_request",
                "The IPv4 update request is missing its correlation reference",
                true,
                false,
            ),
        },
        WorkerCommand::WifiConfirmChange => {
            let activation = text_field(payload, "activation_command_id");
            if same_reference(&activation, pending_request_id) {
                if pending_request_id.is_some() {
                    CommandPlan::WifiConfirmChange
                } else {
                    CommandPlan::Nothing
                }
            } else {
                refusal(
                    "wifi_error",
                    "wifi_confirmation_mismatch",
                    "The Wi-Fi confirmation did not match the pending change",
                    false,
                    false,
                )
            }
        },
        WorkerCommand::WifiProvisioningStart => if setup_running {
            CommandPlan::Nothing
        } else {
            CommandPlan::ProvisioningStart
        },
        WorkerCommand::WifiProvisioningStop => if setup_running {
            CommandPlan::ProvisioningStop
        } else {
            CommandPlan::ProvisioningIdle
        },
        WorkerCommand::BluetoothRefresh => CommandPlan::BluetoothRefresh,
        WorkerCommand::BluetoothSetRadio => match flag_field(payload, "enabled") {
            Some(b) => CommandPlan::BluetoothSetRadio(b),
            None => refusal("bluetooth_error", "bluetooth_invalid_request", "Bluetooth power setting is invalid", false, false),
        },
        WorkerCommand::BluetoothScanStart => CommandPlan::BluetoothScanStart,
        WorkerCommand::BluetoothScanStop => CommandPlan::BluetoothScanStop,
        WorkerCommand::BluetoothPair => accessory(AccessoryAction::Pair, payload),
        WorkerCommand::BluetoothConnect => accessory(AccessoryAction::Connect, payload),
        WorkerCommand::BluetoothDisconnect => accessory(AccessoryAction::Disconnect, payload),
        WorkerCommand::BluetoothForget => accessory(AccessoryAction::Forget, payload),
        WorkerCommand::BluetoothUpdateAccessory => match nonblank(payload, "accessory_id") {
            Some(id) => CommandPlan::BluetoothUpdateAccessory {
                accessory_id: id,
                alias: text_field(payload, "alias"),
                auto_connect: flag_field(payload, "auto_connect"),
            },
            None => refusal("bluetooth_error", "bluetooth_invalid_request", "Bluetooth accessory reference is invalid", false, false),
        },
        WorkerCommand::AudioSetOutputLevel => {
            let cycle = match flag_field(payload, "cycle") {
                Some(b) => b,
                None => false,
            };
            let level = match count_field(payload, "level") {
                Some(l) => if l <= 100 {
                    Some(l)
                } else {
                    None
                },
                None => None,
            };
            match level {
                Some(l) => CommandPlan::AudioSetLevel(l as u8),
                None => if cycle {
                    CommandPlan::AudioCycleLevel
                } else {
                    refusal(
                        "audio_error",
                        "audio_invalid_settings",
                        "Audio output level must be a 0 to 100 value or a cycle request",
                        false,
                        false,
                    )
                },
            }
        },
        WorkerCommand::AudioApplySettings => match (count_field(payload, "revision"), member(payload, "settings")) {
            (Some(r), Some(s)) => CommandPlan::AudioApply { revision: r, settings: s },
            _ => refusal("audio_error", "audio_invalid_settings", "Audio settings payload is invalid", false, false),
        },
        WorkerCommand::AudioTestOutput => CommandPlan::AudioTestOutput {
            target: match text_field(payload, "target") {
                Some(t) => t,
                None => String::new(),
            },
        },
        WorkerCommand::AudioTestInput => CommandPlan::AudioTestInput {
            duration_seconds: match count_field(payload, "duration_seconds") {
                Some(d) => d,
                None => 10,
            },
        },
        WorkerCommand::Shutdown => CommandPlan::Shutdown,
    }
}

/// What the worker does with a command: `setup_running` is whether Wi-Fi
/// setup runs, `pending_request_id` the request of the Wi-Fi change that
/// waits for confirmation, if any.
pub fn command_plan(
    setup_running: bool,
    pending_request_id: Option<&str>,
    message_type: &str,
    request_id: Option<&str>,
    payload: &serde_json::Value,
) -> (p: CommandPlan)
    ensures
        plan_view(p) == command_plan_spec(
            setup_running,
            match pending_request_id {
                Some(s) => Some(s@),
                None => None,
            },
            message_type@,
            match request_id {
                Some(s) => Some(s@),
                None => None,
            },
            *payload,
        ),
{
    match route_command(message_type, setup_running, pending_request_id.is_some()) {
        CommandRoute::RefusedDuringSetup => refusal(
            "wifi_error",
            "wifi_provisioning_in_progress",
            "Wi-Fi setup is in progress on the device",
            false,
            false,
        ),
        CommandRoute::RefusedDuringChange { clear_setup_screen } => refusal(
            "wifi_error",
            "wifi_change_in_progress",
            "Another Wi-Fi connectivity change is already in progress",
            false,
            clear_setup_screen,
        ),
        CommandRoute::Unsupported => {
            let mut text: Vec<char> = Vec::new();
            push_str(&mut text, "unsupported command ");
            push_str(&mut text, message_type);
            let message = string_of(&text);
            CommandPlan::Refuse {
                message_type: owned("network.error"),
                code: owned("unsupported_command"),
                message,
                refresh_wifi: false,
                clear_setup_screen: false,
            }
        },
        CommandRoute::Run(c) => run_plan(c, setup_running, pending_request_id, request_id, payload),
    }
}

/// An envelope the worker writes.
#[derive(Debug)]
pub enum WorkerReply {
    /// An error envelope of `message_type` answering the request.
    Error { message_type: String, request_id: Option<String>, code: String, message: String },
    /// The `wifi_state` result for the request, then the `wifi_state` event.
    WifiAnswer { request_id: Option<String>, state: WifiState },
    /// The `wifi_state` event alone.
    WifiStateEvent(WifiState),
    /// The `bluetooth_state` result for the request, then the
    /// `bluetooth_state` event.
    BluetoothAnswer { request_id: Option<String>, state: BluetoothState },
    /// The setup screen's state.
    ProvisioningState(WifiProvisioningState),
    /// The new connection offered to the cloud for confirmation.
    ChangeCandidate {
        request_id: String,
        profile_id: String,
        operation: crate::wifi::WifiChangeOperation,
        attempt: u8,
    },
    /// The `audio_state` result for the request, then the applied audio.
    AudioAnswer { request_id: Option<String>, applied: AppliedAudio },
    /// The `stopped` result for the request, the runtime's last snapshots,
    /// then the `stopped` event, all for this reason.
    Stopped { request_id: Option<String>, reason: String },
}

/// Whether `r` is the error envelope of this type and text.
pub open spec fn is_error_reply(
    r: WorkerReply,
    message_type: Seq<char>,
    request_id: Option<Seq<char>>,
    code: Seq<char>,
    message: Seq<char>,
) -> bool {
    r matches WorkerReply::Error { message_type: t, request_id: q, code: c, message: m } && t@ == message_type
        && opt_text(q) == request_id && c@ == code && m@ == message
}

/// The Wi-Fi state reported after a refresh: the refreshed state, or an
/// unavailable one when the refresh failed.
pub open spec fn reports_refresh(r: WorkerReply, refreshed: Result<WifiState, WifiOperationError>) -> bool {
    r matches WorkerReply::WifiStateEvent(s) && match refreshed {
        Ok(t) => s == t,
        Err(_) => is_unavailable_state(s),
    }
}

fn error_reply(message_type: &str, request_id: Option<String>, code: String, message: String) -> (r: WorkerReply)
    ensures
        is_error_reply(r, message_type@, opt_text(request_id), code@, message@),
{
    WorkerReply::Error { message_type: owned(message_type), request_id, code, message }
}

/// The envelopes that refuse a command: the error, then the Wi-Fi state
/// after a refresh when one was asked for (`refreshed`, given by the
/// backend), then the setup screen's error state when setup was to be
/// cleared.
pub fn refusal_replies(
    message_type: String,
    code: String,
    message: String,
    request_id: Option<String>,
    refreshed: Option<Result<WifiState, WifiOperationError>>,
    clear_setup_screen: bool,
) -> (v: Vec<WorkerReply>)
    ensures
        v@.len() == 1 + (if refreshed is Some { 1int } else { 0 }) + (if clear_setup_screen { 1int } else { 0 }),
        v@[0] matches WorkerReply::Error { message_type: t, request_id: q, code: c, message: m } && t@ == message_type@
            && opt_text(q) == opt_text(request_id) && c@ == code@ && m@ == message@,
        refreshed matches Some(res) ==> reports_refresh(v@[1], res),
        clear_setup_screen ==> (v@.last() matches WorkerReply::ProvisioningState(s) && state_view(s) == plain_state(
            false,
            "error"@,
            "Wi-Fi is busy - try again in a moment."@,
            "Wi-Fi is busy - try again in a moment."@,
        )),
{
    let mut v: Vec<WorkerReply> = Vec::new();
    v.push(WorkerReply::Error { message_type, request_id, code, message });
    if let Some(res) = refreshed {
        v.push(WorkerReply::WifiStateEvent(state_after_rollback(res)));
    }
    if clear_setup_screen {
        v.push(WorkerReply::ProvisioningState(WifiProvisioningState::error("Wi-Fi is busy - try again in a moment.")));
    }
    v
}

/// The envelopes that report a Wi-Fi operation: on success its state as the
/// answer; on failure the error (`wifi_error`), then the Wi-Fi state after a
/// refresh (`refreshed`, given by the backend, asked only after a failure).
pub fn wifi_operation_replies(
    request_id: Option<String>,
    result: Result<WifiState, WifiOperationError>,
    refreshed: Option<Result<WifiState, WifiOperationError>>,
) -> (v: Vec<WorkerReply>)
    requires
        result is Err ==> refreshed is Some,
    ensures
        match result {
            Ok(s) => v@.len() == 1 && (v@[0] matches WorkerReply::WifiAnswer { request_id: q, state } && opt_text(q)
                == opt_text(request_id) && state == s),
            Err(e) => v@.len() == 2 && is_error_reply(v@[0], "wifi_error"@, opt_text(request_id), e.code@, e.message@)
                && reports_refresh(v@[1], refreshed->0),
        },
{
    match result {
        Ok(state) => vec![WorkerReply::WifiAnswer { request_id, state }],
        Err(e) => {
            let r = refreshed.unwrap();
            vec![error_reply("wifi_error", request_id, e.code, e.message), WorkerReply::WifiStateEvent(state_after_rollback(r))]
        },
    }
}

/// The envelopes that report a Bluetooth operation: on success its state as
/// the answer; on failure the error (`bluetooth_error`).
pub fn bluetooth_operation_replies(
    request_id: Option<String>,
    result: Result<BluetoothState, BluetoothOperationError>,
) -> (v: Vec<WorkerReply>)
    ensures
        v@.len() == 1,
        match result {
            Ok(s) => v@[0] matches WorkerReply::BluetoothAnswer { request_id: q, state } && opt_text(q) == opt_text(
                request_id,
            ) && state == s,
            Err(e) => is_error_reply(v@[0], "bluetooth_error"@, opt_text(request_id), e.code@, e.message@),
        },
{
    match result {
        Ok(state) => vec![WorkerReply::BluetoothAnswer { request_id, state }],
        Err(e) => vec![error_reply("bluetooth_error", request_id, owned(e.code), e.message)],
    }
}

/// The envelopes that report what became of a pending Wi-Fi change: after
/// a rollback, the error that refuses the original request and the state
/// after the rollback; for an offer, the candidate event; else nothing.
pub fn pending_change_replies(outcome: PendingChangeOutcome) -> (v: Vec<WorkerReply>)
    ensures
        match outcome {
            PendingChangeOutcome::Quiet => v@.len() == 0,
            PendingChangeOutcome::RolledBack { request_id, code, message, state } => v@.len() == 2 && is_error_reply(
                v@[0],
                "wifi_error"@,
                Some(request_id@),
                code@,
                message@,
            ) && v@[1] == WorkerReply::WifiStateEvent(state),
            PendingChangeOutcome::Offer { request_id, profile_id, operation, attempt } => v@.len() == 1
                && (v@[0] matches WorkerReply::ChangeCandidate { request_id: q, profile_id: p, operation: o, attempt: a }
                && q@ == request_id@ && p@ == profile_id@ && o == operation && a == attempt),
        },
{
    match outcome {
        PendingChangeOutcome::Quiet => Vec::new(),
        PendingChangeOutcome::RolledBack { request_id, code, message, state } => vec![
            error_reply("wifi_error", Some(request_id), owned(code), owned(message)),
            WorkerReply::WifiStateEvent(state),
        ],
        PendingChangeOutcome::Offer { request_id, profile_id, operation, attempt } => vec![
            WorkerReply::ChangeCandidate { request_id, profile_id, operation, attempt },
        ],
    }
}

/// The envelopes that report an audio command: on success the audio state
/// as the answer, then the applied audio; on failure the error
/// (`audio_error`).
pub fn audio_operation_replies(
    request_id: Option<String>,
    result: Result<AppliedAudio, AudioOperationError>,
) -> (v: Vec<WorkerReply>)
    ensures
        v@.len() == 1,
        match result {
            Ok(a) => v@[0] matches WorkerReply::AudioAnswer { request_id: q, applied } && opt_text(q) == opt_text(
                request_id,
            ) && applied == a,
            Err(e) => is_error_reply(v@[0], "audio_error"@, opt_text(request_id), e.code@, e.message@),
        },
{
    match result {
        Ok(applied) => vec![WorkerReply::AudioAnswer { request_id, applied }],
        Err(e) => vec![error_reply("audio_error", request_id, owned(e.code), e.message)],
    }
}

/// The envelopes that answer a shutdown command: the worker stops for
/// `shutdown`.
pub fn shutdown_replies(request_id: Option<String>) -> (v: Vec<WorkerReply>)
    ensures
        v@.len() == 1,
        v@[0] matches WorkerReply::Stopped { request_id: q, reason } && opt_text(q) == opt_text(request_id)
            && reason@ == "shutdown"@,
{
    vec![WorkerReply::Stopped { request_id, reason: owned("shutdown") }]
}

/// What becomes of a Wi-Fi change the backend started at `now`: applied at
/// once, it is answered with its state; waiting for confirmation, it becomes
/// the pending change, which the caller then watches; refused, the error
/// (`wifi_error`) then the Wi-Fi state after a refresh (`refreshed`, given by
/// the backend, asked only after a refusal).
pub fn wifi_change_start_replies(
    request_id: String,
    result: Result<WifiChangeStart, WifiOperationError>,
    refreshed: Option<Result<WifiState, WifiOperationError>>,
    pending: &mut Option<PendingWifiChange>,
    now: u64,
) -> (v: Vec<WorkerReply>)
    requires
        result is Err ==> refreshed is Some,
        now + WIFI_CHANGE_TIMEOUT_MS <= u64::MAX,
    ensures
        match result {
            Ok(WifiChangeStart::Immediate(s)) => v@.len() == 1 && (v@[0] matches WorkerReply::WifiAnswer {
                request_id: q,
                state,
            } && opt_text(q) == Some(request_id@) && state == s) && *final(pending) == *old(pending),
            Ok(WifiChangeStart::Pending { profile_id, operation }) => v@.len() == 0 && *final(pending) == Some(
                PendingWifiChange {
                    request_id,
                    profile_id,
                    operation,
                    deadline_ms: (now + WIFI_CHANGE_TIMEOUT_MS) as u64,
                    next_candidate_at_ms: now,
                    candidate_attempt: 0,
                },
            ),
            Err(e) => v@.len() == 2 && is_error_reply(v@[0], "wifi_error"@, Some(request_id@), e.code@, e.message@)
                && reports_refresh(v@[1], refreshed->0) && *final(pending) == *old(pending),
        },
{
    match result {
        Ok(WifiChangeStart::Immediate(state)) => vec![WorkerReply::WifiAnswer { request_id: Some(request_id), state }],
        Ok(WifiChangeStart::Pending { profile_id, operation }) => {
            *pending = Some(PendingWifiChange::begin(request_id, profile_id, operation, now));
            Vec::new()
        },
        Err(e) => {
            let r = refreshed.unwrap();
            vec![
                error_reply("wifi_error", Some(request_id), e.code, e.message),
                WorkerReply::WifiStateEvent(state_after_rollback(r)),
            ]
        },
    }
}

} // verus!
