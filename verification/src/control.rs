//! The control handler: from an event of the service dispatcher to a
//! signal for the worker and a status for the dispatcher.

use vstd::prelude::*;
use tokio::sync::mpsc::UnboundedSender;
use crate::channel::try_send;
use crate::profile::DesiredState;

verus! {

/// Why the session changed, as far as the service cares.
#[derive(Clone, Copy, Debug, PartialEq, Eq, Structural)]
pub enum SessionChangeReason {
    /// The session was locked.
    SessionLock,
    /// The session was unlocked.
    SessionUnlock,
    /// Any other change: logon, logoff, console or remote connects.
    Other,
}

/// What a power event reports, as far as the service cares.
#[derive(Clone, Copy, Debug, PartialEq, Eq, Structural)]
pub enum PowerEventParam {
    /// The system asks for permission to suspend.
    QuerySuspend,
    /// The system has resumed after a suspend.
    ResumeSuspend,
    /// The request to suspend was denied.
    QuerySuspendFailed,
    /// Any other power event.
    Other,
}

/// A control event as the service dispatcher delivers it.
#[derive(Clone, Copy, Debug, PartialEq, Eq, Structural)]
pub enum ControlEvent {
    /// The service is asked to stop.
    Stop,
    /// The service is asked to report its status.
    Interrogate,
    /// The session changed.
    SessionChange(SessionChangeReason),
    /// The power state changed.
    PowerEvent(PowerEventParam),
    /// Any other control.
    Other,
}

/// What the handler sends to the worker for one event.
#[derive(Clone, Copy, Debug, PartialEq, Eq, Structural)]
pub enum Signal {
    /// Nothing is sent.
    Nothing,
    /// A lighting state is put on the command channel.
    Enqueue(DesiredState),
    /// The shutdown channel is signalled.
    Shutdown,
}

/// What the handler answers to the dispatcher.
#[derive(Clone, Copy, Debug, PartialEq, Eq, Structural)]
pub enum HandlerStatus {
    /// The event was taken.
    NoError,
    /// The service does not implement this control.
    NotImplemented,
}

/// The signal that an event calls for.
///
/// A lock and a suspend query dim the lights. An unlock, a resume and a
/// denied suspend query restore them; the last undoes what the query
/// itself had asked for.
pub open spec fn signal_of(event: ControlEvent) -> Signal {
    match event {
        ControlEvent::Stop => Signal::Shutdown,
        ControlEvent::SessionChange(SessionChangeReason::SessionLock) => Signal::Enqueue(
            DesiredState::Quiescent,
        ),
        ControlEvent::SessionChange(SessionChangeReason::SessionUnlock) => Signal::Enqueue(
            DesiredState::Active,
        ),
        ControlEvent::PowerEvent(PowerEventParam::QuerySuspend) => Signal::Enqueue(
            DesiredState::Quiescent,
        ),
        ControlEvent::PowerEvent(PowerEventParam::ResumeSuspend) => Signal::Enqueue(
            DesiredState::Active,
        ),
        ControlEvent::PowerEvent(PowerEventParam::QuerySuspendFailed) => Signal::Enqueue(
            DesiredState::Active,
        ),
        _ => Signal::Nothing,
    }
}

/// The status that an event is answered with: every stop, interrogation,
/// session change and power event is taken, whatever it led to; any
/// other control is not implemented.
pub open spec fn status_of(event: ControlEvent) -> HandlerStatus {
    match event {
        ControlEvent::Other => HandlerStatus::NotImplemented,
        _ => HandlerStatus::NoError,
    }
}

/// Computes the signal that an event calls for.
pub fn control_signal(event: ControlEvent) -> (signal: Signal)
    ensures
        signal == signal_of(event),
{
    match event {
        ControlEvent::Stop => Signal::Shutdown,
        ControlEvent::SessionChange(reason) => match reason {
            SessionChangeReason::SessionLock => Signal::Enqueue(DesiredState::Quiescent),
            SessionChangeReason::SessionUnlock => Signal::Enqueue(DesiredState::Active),
            SessionChangeReason::Other => Signal::Nothing,
        },
        ControlEvent::PowerEvent(param) => match param {
            PowerEventParam::QuerySuspend => Signal::Enqueue(DesiredState::Quiescent),
            PowerEventParam::ResumeSuspend => Signal::Enqueue(DesiredState::Active),
            PowerEventParam::QuerySuspendFailed => Signal::Enqueue(DesiredState::Active),
            PowerEventParam::Other => Signal::Nothing,
        },
        ControlEvent::Interrogate => Signal::Nothing,
        ControlEvent::Other => Signal::Nothing,
    }
}

/// Computes the status that an event is answered with.
pub fn control_status(event: ControlEvent) -> (status: HandlerStatus)
    ensures
        status == status_of(event),
{
    match event {
        ControlEvent::Other => HandlerStatus::NotImplemented,
        _ => HandlerStatus::NoError,
    }
}

/// What one run of the handler did.
#[derive(Clone, Copy, Debug, PartialEq, Eq, Structural)]
pub struct Handled {
    /// The answer for the dispatcher.
    pub status: HandlerStatus,
    /// The signal that the event called for.
    pub signal: Signal,
    /// Whether the channel took the signal. `true` where nothing was to
    /// be sent.
    pub delivered: bool,
}

/// Sends a signal over the channel that it belongs to, without blocking,
/// and tells whether the channel took it. A worker that is gone makes
/// the answer `false`; nothing else goes wrong on that account.
pub fn deliver(
    signal: Signal,
    commands: &UnboundedSender<bool>,
    shutdown: &UnboundedSender<()>,
) -> (delivered: bool)
    ensures
        signal == Signal::Nothing ==> delivered,
{
    match signal {
        Signal::Nothing => true,
        Signal::Enqueue(state) => try_send(commands, state.flag()),
        Signal::Shutdown => try_send(shutdown, ()),
    }
}

/// Handles one control event: sends what the event calls for and
/// answers the dispatcher.
///
/// The status depends on the event alone. A signal that the worker can
/// no longer take is dropped, and the dispatcher still sees `NoError`.
pub fn handle_control_event(
    event: ControlEvent,
    commands: &UnboundedSender<bool>,
    shutdown: &UnboundedSender<()>,
) -> (handled: Handled)
    ensures
        handled.status == status_of(event),
        handled.signal == signal_of(event),
        handled.signal == Signal::Nothing ==> handled.delivered,
{
    let signal = control_signal(event);
    let delivered = deliver(signal, commands, shutdown);
    Handled { status: control_status(event), signal, delivered }
}

} // verus!
