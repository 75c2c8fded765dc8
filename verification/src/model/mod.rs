//! The records the monitoring core works on, as plain values.

pub mod context;
pub mod error;
pub mod notifier;
pub mod server;
pub mod server_log;
pub mod user;
pub mod user_action;
pub mod utils;

pub use context::{Ctx, PaginationArguments};
pub use error::ModelError;
pub use notifier::{Notifier, NotifierCreate};
pub use server::{Server, ServerCreate};
pub use server_log::{ServerLog, ServerLogCreate, ServerLogLine};
pub use user::{User, UserClaims, UserCreate, UserRole};
pub use user_action::{UserAction, UserActionLog, UserActionLogBmc, UserActionLogCreate};
pub use utils::Page;
