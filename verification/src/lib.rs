//! Bridge between operating-system session and power transitions and an
//! RGB lighting controller.
//!
//! The service dims the lights when the desktop becomes unattended and
//! restores them when it returns. This crate holds the decisions of that
//! service: which control event asks for which lighting state, which
//! controller call follows which answer, and which status is published
//! when. The calls to the controller and to the service manager are made
//! by the hosting program, which tells the library how each of them went.
//!
//! - [`control`]: the handler of control events, which feeds the two
//!   channels to the worker.
//! - [`applier`]: the worker, step by step.
//! - [`trace`]: whole lives of the worker, and the theorems about them.
//! - [`service`]: service main and the statuses it publishes.
//! - [`profile`]: the two lighting states and their profiles.
//! - [`startup`]: the command line and the fixed facts of the service.
//! - [`channel`]: the sending halves of the channels.

pub mod applier;
pub mod channel;
pub mod control;
pub mod profile;
pub mod service;
pub mod startup;
pub mod trace;
