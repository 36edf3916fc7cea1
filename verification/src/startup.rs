//! What the program is started for, and the fixed facts of the service:
//! the name it is registered under and the name it gives the controller.

use vstd::prelude::*;
use crate::profile::listing;

verus! {

/// The name, and the display name, of the service.
pub const SERVICE_NAME: &'static str = "RGBXevion";

/// The description shown by the service manager.
pub const SERVICE_DESCRIPTION: &'static str =
    "Custom service to toggle RGB lights based on lock/sleep events";

/// The argument that the service manager starts the program with.
pub const LAUNCH_ARGUMENT: &'static str = "run";

/// What the program was started for.
#[derive(Clone, Copy, Debug, PartialEq, Eq, Structural)]
pub enum Command {
    /// Register the service with the service manager, then leave.
    Install,
    /// Delete the service from the service manager, then leave.
    Uninstall,
    /// The placeholder that the service is registered with. The service
    /// manager starts the program with it and then dispatches the
    /// service's entry point; from a shell there is nothing to
    /// dispatch, and the program returns.
    Run,
    /// Hand control to the service dispatcher.
    Serve,
}

/// The command that the first argument stands for. Any other word, and
/// no word at all, start the dispatcher.
pub open spec fn command_of(argument: Option<Seq<char>>) -> Command {
    if argument == Some("install"@) {
        Command::Install
    } else if argument == Some("uninstall"@) {
        Command::Uninstall
    } else if argument == Some(LAUNCH_ARGUMENT@) {
        Command::Run
    } else {
        Command::Serve
    }
}

/// The view of an optional argument.
pub open spec fn argument_view(argument: Option<&str>) -> Option<Seq<char>> {
    match argument {
        Some(word) => Some(word@),
        None => None,
    }
}

/// Reads the program's first argument.
pub fn parse_command(argument: Option<&str>) -> (command: Command)
    ensures
        command == command_of(argument_view(argument)),
{
    match argument {
        None => Command::Serve,
        Some(word) => {
            let given: String = word.to_owned();
            if given == "install".to_owned() {
                Command::Install
            } else if given == "uninstall".to_owned() {
                Command::Uninstall
            } else if given == LAUNCH_ARGUMENT.to_owned() {
                Command::Run
            } else {
                Command::Serve
            }
        },
    }
}

/// The name under which the client presents itself to the controller:
/// the service's name, ` v`, and the version.
pub open spec fn identity_of(version: Seq<char>) -> Seq<char> {
    SERVICE_NAME@ + " v"@ + version
}

/// Builds the client's name for the given version of the program.
pub fn client_identity(version: &str) -> (identity: String)
    ensures
        identity@ == identity_of(version@),
{
    let mut identity: String = SERVICE_NAME.to_owned();
    identity.append(" v");
    identity.append(version);
    identity
}

/// How a service is hosted.
#[derive(Clone, Copy, Debug, PartialEq, Eq, Structural)]
pub enum ServiceType {
    /// The service has a process of its own.
    OwnProcess,
    /// The service shares a process with others.
    ShareProcess,
}

/// When a service is started.
#[derive(Clone, Copy, Debug, PartialEq, Eq, Structural)]
pub enum StartType {
    /// At boot, by the service manager.
    AutoStart,
    /// On request.
    OnDemand,
    /// Never.
    Disabled,
}

/// How the system reacts when a service fails to start.
#[derive(Clone, Copy, Debug, PartialEq, Eq, Structural)]
pub enum ErrorControl {
    Ignore,
    Normal,
    Severe,
    Critical,
}

/// What the service manager is told when the service is installed. The
/// path of the executable is not part of it: the installing program
/// knows where it is.
#[derive(Debug)]
pub struct ServiceRegistration {
    pub name: String,
    pub display_name: String,
    pub description: String,
    pub service_type: ServiceType,
    pub start_type: StartType,
    pub error_control: ErrorControl,
    pub launch_arguments: Vec<String>,
    /// The account that the service runs as; `None` is the system
    /// account.
    pub account_name: Option<String>,
}

/// Gives the registration of this service: its own process, started at
/// boot, under the system account, launched with `run`.
pub fn service_registration() -> (registration: ServiceRegistration)
    ensures
        registration.name@ == SERVICE_NAME@,
        registration.display_name@ == SERVICE_NAME@,
        registration.description@ == SERVICE_DESCRIPTION@,
        registration.service_type == ServiceType::OwnProcess,
        registration.start_type == StartType::AutoStart,
        registration.error_control == ErrorControl::Normal,
        listing(registration.launch_arguments@) == seq![LAUNCH_ARGUMENT@],
        registration.account_name is None,
{
    let mut launch_arguments: Vec<String> = Vec::new();
    launch_arguments.push(LAUNCH_ARGUMENT.to_owned());
    assert(listing(launch_arguments@) =~= seq![LAUNCH_ARGUMENT@]);
    ServiceRegistration {
        name: SERVICE_NAME.to_owned(),
        display_name: SERVICE_NAME.to_owned(),
        description: SERVICE_DESCRIPTION.to_owned(),
        service_type: ServiceType::OwnProcess,
        start_type: StartType::AutoStart,
        error_control: ErrorControl::Normal,
        launch_arguments,
        account_name: None,
    }
}

} // verus!
