//! The profile applier: the worker that owns the connection to the
//! lighting controller.
//!
//! The worker's life is a conversation. It asks for one thing at a time
//! (a connection, a listing, a wait on the two channels) and is told how
//! that went. This module holds its side of that conversation: from the
//! state it is in and the answer it got to the state it moves to and the
//! next thing it asks for.

use vstd::prelude::*;
use crate::profile::{is_listed, listing, try_load_profile, DesiredState, LoadDecision};

verus! {

/// How the worker ended.
#[derive(Clone, Copy, Debug, PartialEq, Eq, Structural)]
pub enum Outcome {
    /// A shutdown signal ended the loop.
    Success,
    /// A call to the controller failed.
    Failure,
}

/// Where the worker stands.
#[derive(Clone, Copy, Debug, PartialEq, Eq, Structural)]
pub enum ApplierState {
    /// The connection to the controller is being opened.
    Connecting,
    /// The client is telling the controller its name.
    Identifying,
    /// The worker waits for a command or a shutdown signal.
    Waiting,
    /// The controller is listing its profiles for a command.
    Listing(DesiredState),
    /// The controller is loading the profile of a command.
    Loading(DesiredState),
    /// The worker is done.
    Finished(Outcome),
}

/// What the worker asks for next.
#[derive(Clone, Copy, Debug, PartialEq, Eq, Structural)]
pub enum ApplierAction {
    /// Open the connection to the controller.
    Connect,
    /// Tell the controller the client's name.
    Identify,
    /// Wait for whichever comes first: a value on the command channel
    /// or a signal on the shutdown channel.
    Wait,
    /// Ask the controller for its profiles, to apply the given state.
    ListProfiles(DesiredState),
    /// Ask the controller to load the profile of the given state.
    LoadProfile(DesiredState),
    /// Leave the loop with the given outcome.
    Exit(Outcome),
}

/// What came back from the last thing asked for.
#[derive(Debug, PartialEq, Eq)]
pub enum ApplierEvent {
    /// The call to the controller succeeded.
    Done,
    /// The call to the controller failed.
    Failed,
    /// The controller listed these profiles.
    Profiles(Vec<String>),
    /// The command channel answered: a flag, or `None` once it is closed
    /// and empty.
    Command(Option<bool>),
    /// The shutdown channel answered.
    Shutdown,
}

/// An event as the contracts see it: a listing is the sequence of its
/// names, each the sequence of its characters.
pub enum ApplierInput {
    /// The call to the controller succeeded.
    Done,
    /// The call to the controller failed.
    Failed,
    /// The controller listed profiles of these names.
    Profiles(Seq<Seq<char>>),
    /// The command channel answered.
    Command(Option<bool>),
    /// The shutdown channel answered.
    Shutdown,
}

impl View for ApplierEvent {
    type V = ApplierInput;

    open spec fn view(&self) -> ApplierInput {
        match *self {
            ApplierEvent::Done => ApplierInput::Done,
            ApplierEvent::Failed => ApplierInput::Failed,
            ApplierEvent::Profiles(profiles) => ApplierInput::Profiles(listing(profiles@)),
            ApplierEvent::Command(flag) => ApplierInput::Command(flag),
            ApplierEvent::Shutdown => ApplierInput::Shutdown,
        }
    }
}

/// One step of the worker: the state it moves to and what it asks for
/// there.
#[derive(Clone, Copy, Debug, PartialEq, Eq, Structural)]
pub struct Transition {
    pub state: ApplierState,
    pub action: ApplierAction,
}

/// The state in which the worker starts and the first thing it asks for.
pub open spec fn applier_init() -> Transition {
    Transition { state: ApplierState::Connecting, action: ApplierAction::Connect }
}

/// Where a failed call to the controller leads: out of the loop.
pub open spec fn transport_failure() -> Transition {
    Transition {
        state: ApplierState::Finished(Outcome::Failure),
        action: ApplierAction::Exit(Outcome::Failure),
    }
}

/// Where a shutdown signal leads: out of the loop, in good order.
pub open spec fn clean_exit() -> Transition {
    Transition {
        state: ApplierState::Finished(Outcome::Success),
        action: ApplierAction::Exit(Outcome::Success),
    }
}

/// Back to waiting on the two channels.
pub open spec fn resume_waiting() -> Transition {
    Transition { state: ApplierState::Waiting, action: ApplierAction::Wait }
}

/// Whether an input answers the action that is pending in a state: the
/// controller answers a call, the channels answer a wait, a listing
/// answers the request for one, and nothing is pending once the worker
/// has finished.
pub open spec fn answers_pending(state: ApplierState, input: ApplierInput) -> bool {
    match state {
        ApplierState::Connecting | ApplierState::Identifying | ApplierState::Loading(_) => input
            is Done || input is Failed,
        ApplierState::Waiting => input is Command || input is Shutdown,
        ApplierState::Listing(_) => input is Profiles || input is Failed,
        ApplierState::Finished(_) => false,
    }
}

/// The worker's transition: the next state and action for an input that
/// answers the pending action, `None` for an input that does not.
pub open spec fn applier_next(state: ApplierState, input: ApplierInput) -> Option<Transition> {
    match (state, input) {
        (ApplierState::Connecting, ApplierInput::Done) => Some(
            Transition { state: ApplierState::Identifying, action: ApplierAction::Identify },
        ),
        (ApplierState::Connecting, ApplierInput::Failed) => Some(transport_failure()),
        (ApplierState::Identifying, ApplierInput::Done) => Some(resume_waiting()),
        (ApplierState::Identifying, ApplierInput::Failed) => Some(transport_failure()),
        (ApplierState::Waiting, ApplierInput::Command(Some(lit))) => Some(
            Transition {
                state: ApplierState::Listing(DesiredState::of_flag(lit)),
                action: ApplierAction::ListProfiles(DesiredState::of_flag(lit)),
            },
        ),
        (ApplierState::Waiting, ApplierInput::Command(None)) => Some(resume_waiting()),
        (ApplierState::Waiting, ApplierInput::Shutdown) => Some(clean_exit()),
        (ApplierState::Listing(wanted), ApplierInput::Profiles(names)) => if is_listed(
            names,
            wanted.name(),
        ) {
            Some(
                Transition {
                    state: ApplierState::Loading(wanted),
                    action: ApplierAction::LoadProfile(wanted),
                },
            )
        } else {
            Some(resume_waiting())
        },
        (ApplierState::Listing(_), ApplierInput::Failed) => Some(transport_failure()),
        (ApplierState::Loading(_), ApplierInput::Done) => Some(resume_waiting()),
        (ApplierState::Loading(_), ApplierInput::Failed) => Some(transport_failure()),
        _ => None,
    }
}

/// Starts the worker: it is `Connecting`, and asks for the connection.
pub fn applier_start() -> (start: Transition)
    ensures
        start == applier_init(),
{
    Transition { state: ApplierState::Connecting, action: ApplierAction::Connect }
}

/// Moves the worker one step: takes the answer to the pending action and
/// gives the next state and the next action.
///
/// An event that cannot answer the pending action is refused with
/// `None`, and a finished worker refuses every event.
pub fn profile_applier(state: ApplierState, event: ApplierEvent) -> (step: Option<Transition>)
    ensures
        step == applier_next(state, event@),
        step is Some <==> answers_pending(state, event@),
{
    let failure = Transition {
        state: ApplierState::Finished(Outcome::Failure),
        action: ApplierAction::Exit(Outcome::Failure),
    };
    let waiting = Transition { state: ApplierState::Waiting, action: ApplierAction::Wait };
    match state {
        ApplierState::Connecting => match event {
            ApplierEvent::Done => Some(
                Transition { state: ApplierState::Identifying, action: ApplierAction::Identify },
            ),
            ApplierEvent::Failed => Some(failure),
            _ => None,
        },
        ApplierState::Identifying => match event {
            ApplierEvent::Done => Some(waiting),
            ApplierEvent::Failed => Some(failure),
            _ => None,
        },
        ApplierState::Waiting => match event {
            ApplierEvent::Command(Some(lit)) => {
                let wanted = DesiredState::from_flag(lit);
                Some(
                    Transition {
                        state: ApplierState::Listing(wanted),
                        action: ApplierAction::ListProfiles(wanted),
                    },
                )
            },
            ApplierEvent::Command(None) => Some(waiting),
            ApplierEvent::Shutdown => Some(
                Transition {
                    state: ApplierState::Finished(Outcome::Success),
                    action: ApplierAction::Exit(Outcome::Success),
                },
            ),
            _ => None,
        },
        ApplierState::Listing(wanted) => match event {
            ApplierEvent::Profiles(profiles) => {
                match try_load_profile(&profiles, wanted.profile_name()) {
                    LoadDecision::Load => Some(
                        Transition {
                            state: ApplierState::Loading(wanted),
                            action: ApplierAction::LoadProfile(wanted),
                        },
                    ),
                    LoadDecision::Skip => Some(waiting),
                }
            },
            ApplierEvent::Failed => Some(failure),
            _ => None,
        },
        ApplierState::Loading(_) => match event {
            ApplierEvent::Done => Some(waiting),
            ApplierEvent::Failed => Some(failure),
            _ => None,
        },
        ApplierState::Finished(_) => None,
    }
}

} // verus!
