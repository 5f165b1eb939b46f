//! Facilities for implementing and managing services under a service control manager.
//!
//! The library holds the service lifecycle model and the marshalling of the records exchanged
//! with the service control manager: status reports, control events, service configuration,
//! failure-action policies and the nul-delimited string lists used on the wire. Text is held as
//! wide strings (UTF-16 code units), the representation the service control manager uses.
pub mod config;
pub mod control;
pub mod double_nul_terminated;
pub mod duration;
pub mod error;
pub mod record;
pub mod requests;
pub mod service;
pub mod service_control_handler;
pub mod shell_escape;
pub mod wide;

pub use error::{Error, NulError};
