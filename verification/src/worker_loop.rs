//! The network worker's main loop, as decisions: what it does at start-up,
//! and, for each line read, read failure, quiet poll interval or closed
//! input, what it does next. The shell that reads, writes and calls the
//! backends performs the actions and hands back the events.
use vstd::prelude::*;
use crate::text::{owned, trim, trimmed};

verus! {

/// What happened since the last step.
#[derive(Debug)]
pub enum LoopEvent {
    /// A line was read from the input.
    Line(String),
    /// The line did not decode as an envelope; the decoder's message.
    DecodeFailed(String),
    /// The line decoded; whether it is a command.
    Decoded { is_command: bool },
    /// The command was handled; whether it asked the worker to stop.
    CommandHandled { shutdown: bool },
    /// Reading the input failed; the error's message.
    InputError(String),
    /// The poll interval passed without input.
    Quiet,
    /// The input was closed.
    InputClosed,
}

/// What the shell does next.
#[derive(Debug)]
pub enum LoopAction {
    /// Write the network runtime's pending snapshots.
    EmitPendingSnapshots,
    /// Decode the line as an envelope.
    Decode(String),
    /// Write a `network.error` envelope with no request id.
    ReportError { code: String, message: String },
    /// Handle the decoded command.
    HandleCommand,
    /// Watch the pending Wi-Fi change.
    ServicePendingChange,
    /// Forward the setup flow's new states.
    ServiceProvisioning,
    /// Take the Bluetooth backend's news and re-resolve audio.
    ServiceBluetoothAndAudio,
    /// Let the network runtime tick.
    RuntimeTick,
    /// Shut the runtime down for a reason other than a command.
    ShutdownImplicit(String),
    /// Leave the loop.
    Stop,
    /// Leave the loop with the input error.
    Fail,
}

/// An action as the contracts see it.
pub ghost enum ActionView {
    EmitPendingSnapshots,
    Decode(Seq<char>),
    ReportError(Seq<char>, Seq<char>),
    HandleCommand,
    ServicePendingChange,
    ServiceProvisioning,
    ServiceBluetoothAndAudio,
    RuntimeTick,
    ShutdownImplicit(Seq<char>),
    Stop,
    Fail,
}

pub open spec fn action_view(a: LoopAction) -> ActionView {
    match a {
        LoopAction::EmitPendingSnapshots => ActionView::EmitPendingSnapshots,
        LoopAction::Decode(l) => ActionView::Decode(l@),
        LoopAction::ReportError { code, message } => ActionView::ReportError(code@, message@),
        LoopAction::HandleCommand => ActionView::HandleCommand,
        LoopAction::ServicePendingChange => ActionView::ServicePendingChange,
        LoopAction::ServiceProvisioning => ActionView::ServiceProvisioning,
        LoopAction::ServiceBluetoothAndAudio => ActionView::ServiceBluetoothAndAudio,
        LoopAction::RuntimeTick => ActionView::RuntimeTick,
        LoopAction::ShutdownImplicit(r) => ActionView::ShutdownImplicit(r@),
        LoopAction::Stop => ActionView::Stop,
        LoopAction::Fail => ActionView::Fail,
    }
}

pub open spec fn actions_view(v: Seq<LoopAction>) -> Seq<ActionView> {
    v.map_values(|a: LoopAction| action_view(a))
}

/// Whether the loop is still running.
#[derive(Debug, Clone, Copy, PartialEq, Eq, Structural)]
pub struct LoopState {
    pub stopped: bool,
}

/// The services run after each command and each quiet interval, in order.
pub open spec fn services() -> Seq<ActionView> {
    seq![ActionView::ServicePendingChange, ActionView::ServiceProvisioning, ActionView::ServiceBluetoothAndAudio]
}

/// One step of the loop: a blank line flushes the pending snapshots; any
/// other line is decoded, and a line that does not decode is answered with
/// a protocol error; a command is handled and then the services run, unless
/// it stopped the worker; a quiet interval ticks the runtime, flushes its
/// snapshots and runs the services; a read error is reported, shuts the
/// runtime down and ends the loop with the error; closed input shuts the
/// runtime down and ends the loop. A stopped loop does nothing more.
pub open spec fn loop_step(s: LoopState, e: LoopEvent) -> (LoopState, Seq<ActionView>) {
    if s.stopped {
        (s, Seq::empty())
    } else {
        match e {
            LoopEvent::Line(l) => if trim(l@).len() == 0 {
                (s, seq![ActionView::EmitPendingSnapshots])
            } else {
                (s, seq![ActionView::Decode(l@)])
            },
            LoopEvent::DecodeFailed(m) => (s, seq![ActionView::ReportError("protocol_error"@, m@)]),
            LoopEvent::Decoded { is_command } => if is_command {
                (s, seq![ActionView::HandleCommand])
            } else {
                (s, Seq::empty())
            },
            LoopEvent::CommandHandled { shutdown } => if shutdown {
                (LoopState { stopped: true }, seq![ActionView::Stop])
            } else {
                (s, services())
            },
            LoopEvent::InputError(m) => (
                LoopState { stopped: true },
                seq![
                    ActionView::ReportError("input_read_failed"@, m@),
                    ActionView::ShutdownImplicit("input_error"@),
                    ActionView::Fail,
                ],
            ),
            LoopEvent::Quiet => (
                s,
                seq![ActionView::RuntimeTick, ActionView::EmitPendingSnapshots] + services(),
            ),
            LoopEvent::InputClosed => (
                LoopState { stopped: true },
                seq![ActionView::ShutdownImplicit("input_closed"@), ActionView::Stop],
            ),
        }
    }
}

fn service_actions(mut v: Vec<LoopAction>) -> (r: Vec<LoopAction>)
    ensures
        actions_view(r@) == actions_view(v@) + services(),
{
    let ghost before = actions_view(v@);
    v.push(LoopAction::ServicePendingChange);
    v.push(LoopAction::ServiceProvisioning);
    v.push(LoopAction::ServiceBluetoothAndAudio);
    assert(actions_view(v@) =~= before + services());
    v
}

/// Takes one event; returns the loop's state after it and what to do.
pub fn runtime_step(state: LoopState, event: LoopEvent) -> (r: (LoopState, Vec<LoopAction>))
    ensures
        (r.0, actions_view(r.1@)) == loop_step(state, event),
{
    let ghost e = event;
    if state.stopped {
        let v: Vec<LoopAction> = Vec::new();
        assert(actions_view(v@) =~= Seq::<ActionView>::empty());
        return (state, v);
    }
    let (next, v) = match event {
        LoopEvent::Line(l) => {
            if trimmed(l.as_str()).len() == 0 {
                (state, vec![LoopAction::EmitPendingSnapshots])
            } else {
                (state, vec![LoopAction::Decode(l)])
            }
        },
        LoopEvent::DecodeFailed(m) => (state, vec![LoopAction::ReportError { code: owned("protocol_error"), message: m }]),
        LoopEvent::Decoded { is_command } => if is_command {
            (state, vec![LoopAction::HandleCommand])
        } else {
            (state, Vec::new())
        },
        LoopEvent::CommandHandled { shutdown } => if shutdown {
            (LoopState { stopped: true }, vec![LoopAction::Stop])
        } else {
            (state, service_actions(Vec::new()))
        },
        LoopEvent::InputError(m) => (
            LoopState { stopped: true },
            vec![
                LoopAction::ReportError { code: owned("input_read_failed"), message: m },
                LoopAction::ShutdownImplicit(owned("input_error")),
                LoopAction::Fail,
            ],
        ),
        LoopEvent::Quiet => (
            state,
            service_actions(vec![LoopAction::RuntimeTick, LoopAction::EmitPendingSnapshots]),
        ),
        LoopEvent::InputClosed => (
            LoopState { stopped: true },
            vec![LoopAction::ShutdownImplicit(owned("input_closed")), LoopAction::Stop],
        ),
    };
    assert(actions_view(v@) =~= loop_step(state, e).1);
    (next, v)
}

/// What the worker does before its loop, in order.
#[derive(Debug, Clone, Copy, PartialEq, Eq, Structural)]
pub enum StartupAction {
    /// Write the ready event and the runtime's first snapshot.
    AnnounceReady,
    /// Refresh Wi-Fi and write its state (an unavailable state when the
    /// refresh fails).
    ReportWifi,
    /// Refresh Bluetooth (an unavailable state when the refresh fails).
    RefreshBluetooth,
    /// Reconnect the saved accessory due for it.
    AutoConnect,
    /// Write the Bluetooth state.
    ReportBluetooth,
    /// Write the resolved audio, when it resolves.
    ReportAudio,
    /// Start the network runtime.
    BootRuntime,
    /// Write the snapshots the runtime made while starting.
    StartupSnapshots,
}

/// The start-up sequence; the runtime is started only when its snapshot
/// asks for it.
pub open spec fn startup_spec(boot_runtime: bool) -> Seq<StartupAction> {
    let head = seq![
        StartupAction::AnnounceReady,
        StartupAction::ReportWifi,
        StartupAction::RefreshBluetooth,
        StartupAction::AutoConnect,
        StartupAction::ReportBluetooth,
        StartupAction::ReportAudio,
    ];
    if boot_runtime {
        head.push(StartupAction::BootRuntime).push(StartupAction::StartupSnapshots)
    } else {
        head.push(StartupAction::StartupSnapshots)
    }
}

pub fn startup_actions(boot_runtime: bool) -> (v: Vec<StartupAction>)
    ensures
        v@ == startup_spec(boot_runtime),
{
    let mut v = vec![
        StartupAction::AnnounceReady,
        StartupAction::ReportWifi,
        StartupAction::RefreshBluetooth,
        StartupAction::AutoConnect,
        StartupAction::ReportBluetooth,
        StartupAction::ReportAudio,
    ];
    if boot_runtime {
        v.push(StartupAction::BootRuntime);
    }
    v.push(StartupAction::StartupSnapshots);
    assert(v@ =~= startup_spec(boot_runtime));
    v
}

/// Once the loop has stopped it stays stopped and does nothing more.
pub proof fn stopped_loop_stays_stopped(e: LoopEvent)
    ensures
        loop_step(LoopState { stopped: true }, e) == (LoopState { stopped: true }, Seq::<ActionView>::empty()),
{
}

/// Every command that does not stop the worker is followed by the three
/// services, in the same order as every quiet interval ends.
pub proof fn services_follow_each_command_and_interval(s: LoopState)
    requires
        !s.stopped,
    ensures
        loop_step(s, LoopEvent::CommandHandled { shutdown: false }).1 == services(),
        loop_step(s, LoopEvent::Quiet).1.subrange(2, 5) == services(),
{
    assert(loop_step(s, LoopEvent::Quiet).1.subrange(2, 5) =~= services());
}

} // verus!
