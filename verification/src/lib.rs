//! Decision logic for driving a named infrastructure stack through the
//! asynchronous lifecycle of a managed deployment service: create, update,
//! preview and destroy.
//!
//! Nothing in this crate talks to the service, to the terminal or to the
//! template renderer. A command is a machine: it asks for one
//! [`protocol::Action`] at a time, its runner performs the action and
//! hands back the [`protocol::Event`] that answers it, and the command
//! decides what comes next, until it finishes with a
//! [`protocol::Outcome`]. Every step is a total function of the command
//! and the event, and is verified against its table.
//!
//! - [`status`]: the closed status vocabularies and the progress
//!   classifiers.
//! - [`poller`]: wait until an entity is no longer in progress.
//! - [`branch`]: which operation a command takes up from a settled status.
//! - [`commands`]: the machines of `up`, `preview`, `destroy`, `describe`
//!   and `list`.
//! - [`diagnostics`]: the failures of single resources after a moment.
//! - [`naming`]: the collision-free names of change sets.
//! - [`display`] and [`color`]: what is shown, as lines of text.
//! - [`client`] and [`renderer`]: what the answers of the service and of
//!   the template renderer mean.
//! - [`model`], [`protocol`], [`interval`], [`text`]: the records, the
//!   vocabulary between command and runner, the poll interval, and
//!   string helpers.

pub mod branch;
pub mod client;
pub mod color;
pub mod commands;
pub mod diagnostics;
pub mod display;
pub mod interval;
pub mod model;
pub mod naming;
pub mod poller;
pub mod protocol;
pub mod renderer;
pub mod status;
pub mod text;
