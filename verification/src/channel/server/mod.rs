pub mod handler;
pub mod runner;
pub mod types;
pub mod utils;

pub use handler::{handle_arm, handle_server_response, ObservationPlan, StatusUpdate};
pub use runner::{ControlStep, Monitor, ProbeOutcome, ProberCommand};
pub use types::{ControlMessage, ServerMessage, ServerStatus};
