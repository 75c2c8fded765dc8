//! Password hashing.

pub mod error;
pub mod password;

pub use error::{CryptError, Result};
pub use password::BcryptController;
