//! Monitoring core of an uptime service: probe classification, status
//! debouncing, the prober registry and the notifier registry.

pub mod channel;
pub mod config;
pub mod crypt;
pub mod model;
pub mod notify;
pub mod text;
pub mod web;

pub use channel::{ControlMessage, Error, ServerMessage};
pub use config::Settings;
pub use crypt::BcryptController;
pub use model::Ctx;
