//! The service's life as the service manager sees it: the handler is
//! registered, `Running` is reported, the worker runs, `Stopped` is
//! reported with the worker's exit code.

use vstd::prelude::*;
use crate::applier::Outcome;

verus! {

/// The kinds of control that a service can declare that it accepts.
#[derive(Clone, Copy, Debug, PartialEq, Eq, Structural)]
pub enum ControlKind {
    Stop,
    SessionChange,
    PowerEvent,
}

/// The controls that a status declares as accepted.
#[derive(Clone, Copy, Debug, PartialEq, Eq, Structural)]
pub struct ControlsAccepted {
    pub stop: bool,
    pub session_change: bool,
    pub power_event: bool,
}

impl View for ControlsAccepted {
    type V = Set<ControlKind>;

    open spec fn view(&self) -> Set<ControlKind> {
        Set::new(
            |kind: ControlKind|
                match kind {
                    ControlKind::Stop => self.stop,
                    ControlKind::SessionChange => self.session_change,
                    ControlKind::PowerEvent => self.power_event,
                },
        )
    }
}

/// The state that a status reports.
#[derive(Clone, Copy, Debug, PartialEq, Eq, Structural)]
pub enum ServiceState {
    Running,
    Stopped,
}

/// A status as it is published to the service manager.
#[derive(Clone, Copy, Debug, PartialEq, Eq, Structural)]
pub struct ServiceStatus {
    pub state: ServiceState,
    pub accepted_controls: ControlsAccepted,
    pub exit_code: u32,
}

/// The exit code that stands for an outcome of the worker: 0 for
/// success, 1 for failure.
pub open spec fn exit_code_of(outcome: Outcome) -> u32 {
    match outcome {
        Outcome::Success => 0,
        Outcome::Failure => 1,
    }
}

/// The status of the running service: it accepts stop, session change
/// and power event, and its exit code is 0.
pub open spec fn running_status_of() -> ServiceStatus {
    ServiceStatus {
        state: ServiceState::Running,
        accepted_controls: ControlsAccepted { stop: true, session_change: true, power_event: true },
        exit_code: 0,
    }
}

/// The status of the stopped service: it accepts nothing, and carries
/// the exit code of the worker's outcome.
pub open spec fn stopped_status_of(outcome: Outcome) -> ServiceStatus {
    ServiceStatus {
        state: ServiceState::Stopped,
        accepted_controls: ControlsAccepted {
            stop: false,
            session_change: false,
            power_event: false,
        },
        exit_code: exit_code_of(outcome),
    }
}

/// Maps the worker's outcome to the exit code.
pub fn exit_code(outcome: Outcome) -> (code: u32)
    ensures
        code == exit_code_of(outcome),
{
    match outcome {
        Outcome::Success => 0,
        Outcome::Failure => 1,
    }
}

/// Builds the status that is published once the handler is registered.
pub fn running_status() -> (status: ServiceStatus)
    ensures
        status == running_status_of(),
        status.accepted_controls@ == set![
            ControlKind::Stop,
            ControlKind::SessionChange,
            ControlKind::PowerEvent,
        ],
{
    let status = ServiceStatus {
        state: ServiceState::Running,
        accepted_controls: ControlsAccepted { stop: true, session_change: true, power_event: true },
        exit_code: 0,
    };
    assert(status.accepted_controls@ =~= set![
        ControlKind::Stop,
        ControlKind::SessionChange,
        ControlKind::PowerEvent,
    ]);
    status
}

/// Builds the status that is published when the worker has returned.
pub fn stopped_status(outcome: Outcome) -> (status: ServiceStatus)
    ensures
        status == stopped_status_of(outcome),
        status.accepted_controls@ == Set::<ControlKind>::empty(),
{
    let status = ServiceStatus {
        state: ServiceState::Stopped,
        accepted_controls: ControlsAccepted {
            stop: false,
            session_change: false,
            power_event: false,
        },
        exit_code: exit_code(outcome),
    };
    assert(status.accepted_controls@ =~= Set::<ControlKind>::empty());
    status
}

/// Where service main stands.
#[derive(Clone, Copy, Debug, PartialEq, Eq, Structural)]
pub enum ServicePhase {
    /// The control handler is being registered.
    Registering,
    /// The `Running` status is being published.
    Announcing,
    /// The worker runs; service main is blocked on it.
    Working,
    /// The `Stopped` status for the worker's outcome is being published.
    Closing(Outcome),
    /// Service main has returned.
    Exited,
    /// The service manager refused a registration or a status, which is
    /// fatal.
    Aborted,
}

/// What service main asks for next.
#[derive(Clone, Copy, Debug, PartialEq, Eq, Structural)]
pub enum ServiceAction {
    /// Register the control handler under the service's name.
    Register,
    /// Publish this status.
    Publish(ServiceStatus),
    /// Run the worker to its end.
    RunWorker,
    /// Return from service main.
    Return,
    /// Give up at once.
    Abort,
}

/// What came back from the last thing asked for.
#[derive(Clone, Copy, Debug, PartialEq, Eq, Structural)]
pub enum ServiceEvent {
    /// The service manager took the registration or the status.
    Done,
    /// The service manager refused it.
    Failed,
    /// The worker returned with this outcome.
    WorkerFinished(Outcome),
    /// The worker panicked.
    WorkerPanicked,
}

/// One step of service main: the phase it moves to and what it asks
/// for there.
#[derive(Clone, Copy, Debug, PartialEq, Eq, Structural)]
pub struct ServiceStep {
    pub phase: ServicePhase,
    pub action: ServiceAction,
}

/// The phase in which service main starts and the first thing it asks
/// for.
pub open spec fn service_init() -> ServiceStep {
    ServiceStep { phase: ServicePhase::Registering, action: ServiceAction::Register }
}

/// Where a refusal by the service manager leads.
pub open spec fn fatal_refusal() -> ServiceStep {
    ServiceStep { phase: ServicePhase::Aborted, action: ServiceAction::Abort }
}

/// The outcome that an event reports of the worker, if it reports one.
/// A worker that panicked has failed.
pub open spec fn outcome_reported(event: ServiceEvent) -> Option<Outcome> {
    match event {
        ServiceEvent::WorkerFinished(outcome) => Some(outcome),
        ServiceEvent::WorkerPanicked => Some(Outcome::Failure),
        _ => None,
    }
}

/// Whether an event answers the action that is pending in a phase: the
/// service manager answers a registration or a status, the worker
/// answers the request to run it, and nothing is pending once service
/// main is over.
pub open spec fn answers_pending(phase: ServicePhase, event: ServiceEvent) -> bool {
    match phase {
        ServicePhase::Registering | ServicePhase::Announcing | ServicePhase::Closing(_) => event
            is Done || event is Failed,
        ServicePhase::Working => event is WorkerFinished || event is WorkerPanicked,
        ServicePhase::Exited | ServicePhase::Aborted => false,
    }
}

/// The transition of service main: the next phase and action for an
/// event that answers the pending action, `None` for one that does not.
pub open spec fn service_next(phase: ServicePhase, event: ServiceEvent) -> Option<ServiceStep> {
    match (phase, event) {
        (ServicePhase::Registering, ServiceEvent::Done) => Some(
            ServiceStep {
                phase: ServicePhase::Announcing,
                action: ServiceAction::Publish(running_status_of()),
            },
        ),
        (ServicePhase::Registering, ServiceEvent::Failed) => Some(fatal_refusal()),
        (ServicePhase::Announcing, ServiceEvent::Done) => Some(
            ServiceStep { phase: ServicePhase::Working, action: ServiceAction::RunWorker },
        ),
        (ServicePhase::Announcing, ServiceEvent::Failed) => Some(fatal_refusal()),
        (ServicePhase::Working, ServiceEvent::WorkerFinished(outcome)) => Some(
            ServiceStep {
                phase: ServicePhase::Closing(outcome),
                action: ServiceAction::Publish(stopped_status_of(outcome)),
            },
        ),
        (ServicePhase::Working, ServiceEvent::WorkerPanicked) => Some(
            ServiceStep {
                phase: ServicePhase::Closing(Outcome::Failure),
                action: ServiceAction::Publish(stopped_status_of(Outcome::Failure)),
            },
        ),
        (ServicePhase::Closing(_), ServiceEvent::Done) => Some(
            ServiceStep { phase: ServicePhase::Exited, action: ServiceAction::Return },
        ),
        (ServicePhase::Closing(_), ServiceEvent::Failed) => Some(fatal_refusal()),
        _ => None,
    }
}

/// Starts service main: it is `Registering`, and asks for the
/// registration of the control handler.
pub fn service_start() -> (start: ServiceStep)
    ensures
        start == service_init(),
{
    ServiceStep { phase: ServicePhase::Registering, action: ServiceAction::Register }
}

/// Moves service main one step: takes the answer to the pending action
/// and gives the next phase and the next action.
///
/// An event that cannot answer the pending action is refused with
/// `None`; so is every event once service main has returned or given up.
pub fn service_main(phase: ServicePhase, event: ServiceEvent) -> (step: Option<ServiceStep>)
    ensures
        step == service_next(phase, event),
        step is Some <==> answers_pending(phase, event),
{
    let refused = ServiceStep { phase: ServicePhase::Aborted, action: ServiceAction::Abort };
    match phase {
        ServicePhase::Registering => match event {
            ServiceEvent::Done => Some(
                ServiceStep {
                    phase: ServicePhase::Announcing,
                    action: ServiceAction::Publish(running_status()),
                },
            ),
            ServiceEvent::Failed => Some(refused),
            _ => None,
        },
        ServicePhase::Announcing => match event {
            ServiceEvent::Done => Some(
                ServiceStep { phase: ServicePhase::Working, action: ServiceAction::RunWorker },
            ),
            ServiceEvent::Failed => Some(refused),
            _ => None,
        },
        ServicePhase::Working => match event {
            ServiceEvent::WorkerFinished(outcome) => Some(
                ServiceStep {
                    phase: ServicePhase::Closing(outcome),
                    action: ServiceAction::Publish(stopped_status(outcome)),
                },
            ),
            ServiceEvent::WorkerPanicked => Some(
                ServiceStep {
                    phase: ServicePhase::Closing(Outcome::Failure),
                    action: ServiceAction::Publish(stopped_status(Outcome::Failure)),
                },
            ),
            _ => None,
        },
        ServicePhase::Closing(_) => match event {
            ServiceEvent::Done => Some(
                ServiceStep { phase: ServicePhase::Exited, action: ServiceAction::Return },
            ),
            ServiceEvent::Failed => Some(refused),
            _ => None,
        },
        ServicePhase::Exited => None,
        ServicePhase::Aborted => None,
    }
}

/// The life of service main so far: the phase reached and the actions
/// asked for.
pub struct ServiceRun {
    pub phase: ServicePhase,
    pub actions: Seq<ServiceAction>,
}

/// The whole life of service main when it is given `events`: the phase
/// it ends in and every action it asks for, the opening one included,
/// or `None` where some event does not answer the action pending
/// before it.
pub open spec fn service_life(events: Seq<ServiceEvent>) -> Option<ServiceRun>
    decreases events.len(),
{
    if events.len() == 0 {
        Some(ServiceRun { phase: service_init().phase, actions: seq![service_init().action] })
    } else {
        match service_life(events.drop_last()) {
            Some(earlier) => match service_next(earlier.phase, events.last()) {
                Some(step) => Some(
                    ServiceRun { phase: step.phase, actions: earlier.actions.push(step.action) },
                ),
                None => None,
            },
            None => None,
        }
    }
}

/// The statuses that the actions publish, in their order.
pub open spec fn statuses_published(actions: Seq<ServiceAction>) -> Seq<ServiceStatus>
    decreases actions.len(),
{
    if actions.len() == 0 {
        Seq::empty()
    } else {
        let earlier = statuses_published(actions.drop_last());
        match actions.last() {
            ServiceAction::Publish(status) => earlier.push(status),
            _ => earlier,
        }
    }
}

/// Whether service main is over.
pub open spec fn is_over(phase: ServicePhase) -> bool {
    phase is Exited || phase is Aborted
}

/// Whether the service manager took the `Running` status: the first two
/// answers, to the registration and to that status, were both good.
pub open spec fn running_was_reported(events: Seq<ServiceEvent>) -> bool {
    events.len() >= 2 && events[0] == ServiceEvent::Done && events[1] == ServiceEvent::Done
}

/// What holds of every life of service main, phase by phase: how many
/// answers it has had, and which statuses it has published.
pub open spec fn life_is_regular(events: Seq<ServiceEvent>, life: ServiceRun) -> bool {
    let published = statuses_published(life.actions);
    let announced = seq![running_status_of()];
    match life.phase {
        ServicePhase::Registering => events.len() == 0 && published =~= Seq::empty(),
        ServicePhase::Announcing => {
            &&& events.len() == 1
            &&& events[0] == ServiceEvent::Done
            &&& published =~= announced
        },
        ServicePhase::Working => {
            &&& events.len() == 2
            &&& running_was_reported(events)
            &&& published =~= announced
        },
        ServicePhase::Closing(outcome) => {
            &&& events.len() == 3
            &&& running_was_reported(events)
            &&& outcome_reported(events[2]) == Some(outcome)
            &&& published =~= announced.push(stopped_status_of(outcome))
        },
        ServicePhase::Exited => {
            &&& events.len() == 4
            &&& running_was_reported(events)
            &&& outcome_reported(events[2]) is Some
            &&& events[3] == ServiceEvent::Done
            &&& published =~= announced.push(
                stopped_status_of(outcome_reported(events[2])->0),
            )
        },
        ServicePhase::Aborted => {
            &&& events.len() > 0
            &&& events.last() == ServiceEvent::Failed
            &&& {
                ||| events.len() == 1 && published =~= Seq::empty()
                ||| events.len() == 2 && events[0] == ServiceEvent::Done && published
                    =~= announced
                ||| {
                    &&& events.len() == 4
                    &&& running_was_reported(events)
                    &&& outcome_reported(events[2]) is Some
                    &&& published =~= announced.push(
                        stopped_status_of(outcome_reported(events[2])->0),
                    )
                }
            }
        },
    }
}

/// Every life of service main is regular.
pub proof fn lemma_life_is_regular(events: Seq<ServiceEvent>)
    requires
        service_life(events) is Some,
    ensures
        life_is_regular(events, service_life(events)->0),
    decreases events.len(),
{
    if events.len() == 0 {
        let opening = seq![service_init().action];
        assert(opening.drop_last() =~= Seq::<ServiceAction>::empty());
        reveal_with_fuel(statuses_published, 2);
    } else {
        let shorter = events.drop_last();
        lemma_life_is_regular(shorter);
        let earlier = service_life(shorter)->0;
        let step = service_next(earlier.phase, events.last())->0;
        assert(earlier.actions.push(step.action).drop_last() =~= earlier.actions);
        assert(earlier.actions.push(step.action).last() == step.action);
        assert(forall|i: int| 0 <= i < shorter.len() ==> shorter[i] == events[i]);
    }
}

/// Status reports come in pairs. Service main publishes at most two
/// statuses; the first is `Running` and the second is `Stopped`. Once
/// the service manager has taken `Running`, service main does not end
/// without having published `Stopped` exactly once, after it, with the
/// exit code of the worker's outcome and no control accepted; that
/// holds when the worker panicked, too. It never returns in good order
/// without both.
pub proof fn lemma_status_pairing(events: Seq<ServiceEvent>)
    requires
        service_life(events) is Some,
    ensures
        ({
            let life = service_life(events)->0;
            let published = statuses_published(life.actions);
            &&& published.len() <= 2
            &&& published.len() >= 1 ==> published[0] == running_status_of()
            &&& published.len() == 2 ==> published[1].state == ServiceState::Stopped
            &&& life.phase is Exited ==> running_was_reported(events)
            &&& is_over(life.phase) && running_was_reported(events) ==> {
                &&& outcome_reported(events[2]) is Some
                &&& published == seq![
                    running_status_of(),
                    stopped_status_of(outcome_reported(events[2])->0),
                ]
            }
        }),
{
    lemma_life_is_regular(events);
    let life = service_life(events)->0;
    let published = statuses_published(life.actions);
    if is_over(life.phase) && running_was_reported(events) {
        assert(published =~= seq![
            running_status_of(),
            stopped_status_of(outcome_reported(events[2])->0),
        ]);
    }
}

/// Once service main has returned or given up, it takes no further
/// event.
pub proof fn lemma_over_is_final(phase: ServicePhase, event: ServiceEvent)
    requires
        is_over(phase),
    ensures
        service_next(phase, event) is None,
{
}

} // verus!
