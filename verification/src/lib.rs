//! Connection-state controller for a networked washing machine.
//!
//! The machine is reached either directly over the local network or through
//! a cloud device-management service.  This crate holds the verified core:
//! the error taxonomy, the telemetry data model, the two connection adapters'
//! state machines, the discovery-reply protocol, the cloud API request
//! builders and response parsers, and the controller loop's decisions.
//! Transport (HTTP, UDP, the clock, the preference store) is performed by the
//! surrounding application, which hands the results back as plain values.

pub mod controller;
pub mod discovery;
pub mod encoding;
pub mod error;
pub mod json;
pub mod jsonread;
pub mod jsonval;
pub mod numbers;
pub mod prefs;
pub mod text;
pub mod things5_api;
pub mod washing_machine;

pub use error::Error;
