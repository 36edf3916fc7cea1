use rgbxevion::applier::{
    applier_start, profile_applier, ApplierAction, ApplierEvent, ApplierState, Outcome,
};
use rgbxevion::control::{
    handle_control_event, ControlEvent, HandlerStatus, PowerEventParam, SessionChangeReason,
};
use rgbxevion::service::{
    service_main, service_start, ServiceAction, ServiceEvent, ServicePhase, ServiceState,
    ServiceStatus,
};
use rgbxevion::startup::client_identity;
use tokio::sync::mpsc::error::TryRecvError;
use tokio::sync::mpsc::{unbounded_channel, UnboundedReceiver};

/// A stand-in for the lighting controller. It records every request.
struct Controller {
    profiles: Vec<String>,
    /// The socket is closed once the client has identified itself.
    drops_after_identify: bool,
    /// Nothing listens at the endpoint.
    refuses_connection: bool,
    requests: Vec<String>,
    /// The profile names of the attempts, one for each listing asked for.
    attempts: Vec<String>,
    /// The profile that was loaded last.
    selected: Option<String>,
}

impl Controller {
    fn with_profiles(profiles: &[&str]) -> Controller {
        Controller {
            profiles: profiles.iter().map(|name| name.to_string()).collect(),
            drops_after_identify: false,
            refuses_connection: false,
            requests: Vec::new(),
            attempts: Vec::new(),
            selected: None,
        }
    }

    /// Serves one action of the worker and says what came of it.
    fn serve(&mut self, action: ApplierAction) -> ApplierEvent {
        match action {
            ApplierAction::Connect => {
                self.requests.push("connect".to_string());
                if self.refuses_connection {
                    ApplierEvent::Failed
                } else {
                    ApplierEvent::Done
                }
            }
            ApplierAction::Identify => {
                self.requests.push(format!("set_name {}", client_identity("0.1.0")));
                ApplierEvent::Done
            }
            ApplierAction::ListProfiles(wanted) => {
                self.requests.push("get_profiles".to_string());
                self.attempts.push(wanted.profile_name().to_string());
                if self.drops_after_identify {
                    ApplierEvent::Failed
                } else {
                    ApplierEvent::Profiles(self.profiles.clone())
                }
            }
            ApplierAction::LoadProfile(wanted) => {
                let name = wanted.profile_name().to_string();
                self.requests.push(format!("load_profile {}", name));
                if self.drops_after_identify {
                    ApplierEvent::Failed
                } else {
                    self.selected = Some(name);
                    ApplierEvent::Done
                }
            }
            ApplierAction::Wait | ApplierAction::Exit(_) => {
                unreachable!("the controller is not asked to wait or to exit")
            }
        }
    }
}

/// The worker together with the receiving halves of its channels.
struct Worker {
    state: ApplierState,
    pending: ApplierAction,
    commands: UnboundedReceiver<bool>,
    shutdown: UnboundedReceiver<()>,
    actions: Vec<ApplierAction>,
}

impl Worker {
    fn new(commands: UnboundedReceiver<bool>, shutdown: UnboundedReceiver<()>) -> Worker {
        let start = applier_start();
        Worker {
            state: start.state,
            pending: start.action,
            commands,
            shutdown,
            actions: vec![start.action],
        }
    }

    fn take(&mut self, event: ApplierEvent) {
        let next = profile_applier(self.state, event).unwrap();
        self.state = next.state;
        self.pending = next.action;
        self.actions.push(next.action);
    }

    /// Lets the worker go on until it has left the loop, or waits with
    /// nothing on either channel. A pending command is taken before a
    /// pending shutdown signal.
    fn pump(&mut self, controller: &mut Controller) -> Option<Outcome> {
        loop {
            match self.pending {
                ApplierAction::Exit(outcome) => return Some(outcome),
                ApplierAction::Wait => match self.commands.try_recv() {
                    Ok(flag) => self.take(ApplierEvent::Command(Some(flag))),
                    Err(TryRecvError::Disconnected) | Err(TryRecvError::Empty) => {
                        match self.shutdown.try_recv() {
                            Ok(()) => self.take(ApplierEvent::Shutdown),
                            Err(_) => return None,
                        }
                    }
                },
                action => {
                    let event = controller.serve(action);
                    self.take(event);
                }
            }
        }
    }
}

/// What a run of the whole service showed.
struct Observed {
    answers: Vec<HandlerStatus>,
    statuses: Vec<ServiceStatus>,
    phase: ServicePhase,
    actions: Vec<ApplierAction>,
    /// How many control events had been handled when the worker left.
    handled_before_exit: usize,
}

/// Runs service main with the controller, handing the control events
/// to the handler one by one and letting the worker catch up after
/// each.
fn run_service(controller: &mut Controller, controls: &[ControlEvent]) -> Observed {
    let mut statuses = Vec::new();
    let mut answers = Vec::new();

    let start = service_start();
    assert_eq!(start.action, ServiceAction::Register);
    let (command_tx, command_rx) = unbounded_channel::<bool>();
    let (shutdown_tx, shutdown_rx) = unbounded_channel::<()>();

    let announcing = service_main(start.phase, ServiceEvent::Done).unwrap();
    match announcing.action {
        ServiceAction::Publish(status) => statuses.push(status),
        other => panic!("expected a status, got {:?}", other),
    }
    let working = service_main(announcing.phase, ServiceEvent::Done).unwrap();
    assert_eq!(working.action, ServiceAction::RunWorker);

    let mut worker = Worker::new(command_rx, shutdown_rx);
    let mut outcome = worker.pump(controller);
    let mut handled_before_exit = 0;
    for control in controls {
        if outcome.is_some() {
            break;
        }
        answers.push(handle_control_event(*control, &command_tx, &shutdown_tx).status);
        handled_before_exit += 1;
        outcome = worker.pump(controller);
    }
    let mut phase = working.phase;
    if let Some(outcome) = outcome {
        let closing = service_main(phase, ServiceEvent::WorkerFinished(outcome)).unwrap();
        match closing.action {
            ServiceAction::Publish(status) => statuses.push(status),
            other => panic!("expected a status, got {:?}", other),
        }
        let exited = service_main(closing.phase, ServiceEvent::Done).unwrap();
        assert_eq!(exited.action, ServiceAction::Return);
        phase = exited.phase;
    }
    Observed { answers, statuses, phase, actions: worker.actions, handled_before_exit }
}

fn lock() -> ControlEvent {
    ControlEvent::SessionChange(SessionChangeReason::SessionLock)
}

fn unlock() -> ControlEvent {
    ControlEvent::SessionChange(SessionChangeReason::SessionUnlock)
}

fn assert_stopped_with(observed: &Observed, exit_code: u32) {
    assert_eq!(observed.phase, ServicePhase::Exited);
    assert_eq!(observed.statuses.len(), 2);
    assert_eq!(observed.statuses[0].state, ServiceState::Running);
    assert!(observed.statuses[0].accepted_controls.stop);
    assert!(observed.statuses[0].accepted_controls.session_change);
    assert!(observed.statuses[0].accepted_controls.power_event);
    assert_eq!(observed.statuses[1].state, ServiceState::Stopped);
    assert!(!observed.statuses[1].accepted_controls.stop);
    assert!(!observed.statuses[1].accepted_controls.session_change);
    assert!(!observed.statuses[1].accepted_controls.power_event);
    assert_eq!(observed.statuses[1].exit_code, exit_code);
}

fn connections(actions: &[ApplierAction]) -> usize {
    actions.iter().filter(|action| **action == ApplierAction::Connect).count()
}

#[test]
fn lock_unlock_cycle() {
    let mut controller = Controller::with_profiles(&["On", "Off"]);
    let observed = run_service(&mut controller, &[lock(), unlock(), ControlEvent::Stop]);
    assert_eq!(controller.attempts, vec!["Off", "On"]);
    assert_eq!(
        controller.requests,
        vec![
            "connect",
            "set_name RGBXevion v0.1.0",
            "get_profiles",
            "load_profile Off",
            "get_profiles",
            "load_profile On",
        ]
    );
    assert_eq!(observed.answers, vec![HandlerStatus::NoError; 3]);
    assert_stopped_with(&observed, 0);
    assert_eq!(connections(&observed.actions), 1);
}

#[test]
fn suspend_vetoed() {
    let mut controller = Controller::with_profiles(&["On", "Off"]);
    let observed = run_service(
        &mut controller,
        &[
            ControlEvent::PowerEvent(PowerEventParam::QuerySuspend),
            ControlEvent::PowerEvent(PowerEventParam::QuerySuspendFailed),
            ControlEvent::Stop,
        ],
    );
    assert_eq!(controller.attempts, vec!["Off", "On"]);
    assert_eq!(controller.selected, Some("On".to_string()));
    assert_stopped_with(&observed, 0);
}

#[test]
fn suspend_and_resume() {
    let mut controller = Controller::with_profiles(&["Off", "On"]);
    let observed = run_service(
        &mut controller,
        &[
            ControlEvent::PowerEvent(PowerEventParam::QuerySuspend),
            ControlEvent::PowerEvent(PowerEventParam::ResumeSuspend),
            ControlEvent::Stop,
        ],
    );
    assert_eq!(controller.attempts, vec!["Off", "On"]);
    assert_eq!(controller.selected, Some("On".to_string()));
    assert_stopped_with(&observed, 0);
}

#[test]
fn missing_profile() {
    let mut controller = Controller::with_profiles(&["On"]);
    let observed = run_service(&mut controller, &[lock(), ControlEvent::Stop]);
    assert_eq!(controller.attempts, vec!["Off"]);
    assert_eq!(
        controller.requests,
        vec!["connect", "set_name RGBXevion v0.1.0", "get_profiles"]
    );
    assert_eq!(controller.selected, None);
    assert_eq!(observed.handled_before_exit, 2);
    assert_stopped_with(&observed, 0);
}

#[test]
fn missing_profile_does_not_stop_later_commands() {
    let mut controller = Controller::with_profiles(&["On"]);
    let observed = run_service(&mut controller, &[lock(), unlock(), lock(), ControlEvent::Stop]);
    assert_eq!(controller.attempts, vec!["Off", "On", "Off"]);
    assert_eq!(controller.selected, Some("On".to_string()));
    assert_stopped_with(&observed, 0);
}

#[test]
fn transport_drop() {
    let mut controller = Controller::with_profiles(&["On", "Off"]);
    controller.drops_after_identify = true;
    let observed = run_service(&mut controller, &[lock()]);
    assert_eq!(controller.attempts, vec!["Off"]);
    assert_eq!(controller.selected, None);
    assert_eq!(observed.answers, vec![HandlerStatus::NoError]);
    assert_eq!(observed.actions.last(), Some(&ApplierAction::Exit(Outcome::Failure)));
    assert_stopped_with(&observed, 1);
}

#[test]
fn transport_drop_does_not_wait_for_more_events() {
    let mut controller = Controller::with_profiles(&["On", "Off"]);
    controller.drops_after_identify = true;
    let observed = run_service(&mut controller, &[lock(), unlock(), ControlEvent::Stop]);
    assert_eq!(observed.handled_before_exit, 1);
    assert_eq!(controller.attempts, vec!["Off"]);
    assert_stopped_with(&observed, 1);
}

#[test]
fn refused_connection_stops_the_service_with_exit_code_one() {
    let mut controller = Controller::with_profiles(&["On", "Off"]);
    controller.refuses_connection = true;
    let observed = run_service(&mut controller, &[lock(), ControlEvent::Stop]);
    assert_eq!(controller.requests, vec!["connect"]);
    assert_eq!(observed.handled_before_exit, 0);
    assert_stopped_with(&observed, 1);
}

#[test]
fn rapid_burst() {
    let mut controller = Controller::with_profiles(&["On", "Off"]);
    let observed = run_service(
        &mut controller,
        &[lock(), unlock(), lock(), unlock(), ControlEvent::Stop],
    );
    assert_eq!(controller.attempts, vec!["Off", "On", "Off", "On"]);
    assert_eq!(
        controller.requests[2..],
        [
            "get_profiles",
            "load_profile Off",
            "get_profiles",
            "load_profile On",
            "get_profiles",
            "load_profile Off",
            "get_profiles",
            "load_profile On",
        ]
    );
    assert_eq!(observed.actions.last(), Some(&ApplierAction::Exit(Outcome::Success)));
    assert_stopped_with(&observed, 0);
}

#[test]
fn interrogate_only() {
    let mut controller = Controller::with_profiles(&["On", "Off"]);
    let observed =
        run_service(&mut controller, &[ControlEvent::Interrogate, ControlEvent::Stop]);
    assert_eq!(controller.requests, vec!["connect", "set_name RGBXevion v0.1.0"]);
    assert_eq!(controller.attempts, Vec::<String>::new());
    assert_eq!(observed.answers, vec![HandlerStatus::NoError, HandlerStatus::NoError]);
    assert_stopped_with(&observed, 0);
}

#[test]
fn repeated_commands_are_each_applied() {
    let mut controller = Controller::with_profiles(&["On", "Off"]);
    let observed =
        run_service(&mut controller, &[lock(), lock(), lock(), unlock(), ControlEvent::Stop]);
    assert_eq!(controller.attempts, vec!["Off", "Off", "Off", "On"]);
    assert_stopped_with(&observed, 0);

    let mut once = Controller::with_profiles(&["On", "Off"]);
    run_service(&mut once, &[lock()]);
    let mut thrice = Controller::with_profiles(&["On", "Off"]);
    run_service(&mut thrice, &[lock(), lock(), lock()]);
    assert_eq!(thrice.attempts, vec!["Off", "Off", "Off"]);
    assert_eq!(thrice.selected, once.selected);
    assert_eq!(thrice.selected, Some("Off".to_string()));
}

#[test]
fn unknown_controls_reach_neither_channel() {
    let mut controller = Controller::with_profiles(&["On", "Off"]);
    let observed = run_service(
        &mut controller,
        &[
            ControlEvent::Other,
            ControlEvent::SessionChange(SessionChangeReason::Other),
            ControlEvent::PowerEvent(PowerEventParam::Other),
            ControlEvent::Stop,
        ],
    );
    assert_eq!(
        observed.answers,
        vec![
            HandlerStatus::NotImplemented,
            HandlerStatus::NoError,
            HandlerStatus::NoError,
            HandlerStatus::NoError,
        ]
    );
    assert_eq!(controller.attempts, Vec::<String>::new());
    assert_stopped_with(&observed, 0);
}

#[test]
fn nothing_is_applied_after_a_shutdown_was_observed() {
    let mut controller = Controller::with_profiles(&["On", "Off"]);
    let observed =
        run_service(&mut controller, &[lock(), ControlEvent::Stop, unlock(), lock()]);
    assert_eq!(observed.handled_before_exit, 2);
    assert_eq!(controller.attempts, vec!["Off"]);
    assert_stopped_with(&observed, 0);
}

#[test]
fn a_running_service_without_stop_has_published_running_only() {
    let mut controller = Controller::with_profiles(&["On", "Off"]);
    let observed = run_service(&mut controller, &[lock(), unlock()]);
    assert_eq!(observed.phase, ServicePhase::Working);
    assert_eq!(observed.statuses.len(), 1);
    assert_eq!(observed.statuses[0].state, ServiceState::Running);
    assert_eq!(observed.actions.last(), Some(&ApplierAction::Wait));
}

#[test]
fn closed_command_channel_alone_does_not_end_the_worker() {
    let (command_tx, command_rx) = unbounded_channel::<bool>();
    let (shutdown_tx, shutdown_rx) = unbounded_channel::<()>();
    let mut controller = Controller::with_profiles(&["On", "Off"]);
    let mut worker = Worker::new(command_rx, shutdown_rx);
    assert_eq!(worker.pump(&mut controller), None);
    drop(command_tx);
    assert_eq!(worker.commands.try_recv(), Err(TryRecvError::Disconnected));
    worker.take(ApplierEvent::Command(None));
    assert_eq!(worker.state, ApplierState::Waiting);
    assert_eq!(worker.pending, ApplierAction::Wait);
    assert_eq!(worker.pump(&mut controller), None);
    shutdown_tx.send(()).unwrap();
    assert_eq!(worker.pump(&mut controller), Some(Outcome::Success));
}
