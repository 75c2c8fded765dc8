//! The probe pipeline: what a prober reports, how a report changes the status
//! cache, and how control messages change the set of probers.

pub mod error;
pub mod server;

pub use error::Error;
pub use server::{ControlMessage, ServerMessage, ServerStatus};
