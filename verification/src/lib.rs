//! Coordination of profile switches and of the privileged helper service.
//!
//! The crate holds the decision logic only: every function takes plain values
//! and returns plain values, and whoever embeds it performs the file reads,
//! the waiting and the inter-process calls that the returned actions ask for.
//!
//! Switching profiles:
//! - [`sequencer`] numbers the requests, so that a request can tell when it
//!   has been overtaken;
//! - [`store`] keeps a committed value and a draft;
//! - [`profiles`] is the list of profiles with the choice of the active one;
//! - [`validation`] checks a profile's document;
//! - [`coordinator`] runs a switch as a state machine, [`switch_model`] says
//!   what each of its steps does and [`switch_laws`] what holds of all runs.
//!
//! The privileged service:
//! - [`json`] and [`ipc`] read the service's answers;
//! - [`service`] keeps the books on installations and throttles them;
//! - [`lifecycle`] starts the proxy engine through the service.
//!
//! Around them: [`commands`] and [`subscription`] decide what the commands of
//! the user interface come to, [`window`] and [`lightweight`] what is done
//! with the main window, [`shutdown`] how the application leaves, and
//! [`notice`] lists the events that the user interface is told.

pub mod commands;
pub mod coordinator;
pub mod ipc;
pub mod json;
pub mod lifecycle;
pub mod lightweight;
pub mod notice;
pub mod profiles;
pub mod sequencer;
pub mod service;
pub mod shutdown;
pub mod store;
pub mod subscription;
pub mod switch_laws;
pub mod switch_model;
pub mod sys_info;
pub mod text;
pub mod validation;
pub mod window;
