//! The notifier registry: which notifiers watch which server, the message
//! template of each, and the messages a transition gives rise to.

pub mod context;
pub mod error;
pub mod formatter;
pub mod ids;
pub mod json;
pub mod manager;
pub mod options;
pub mod template;

pub use error::{Error, Result};
pub use formatter::{HJSFormatter, NotifierFormatter};
pub use options::{DiscordOptions, TelegramOptions};
pub use manager::{
    first_error, notifier_key, Dispatch, NotifierMeta, NotifierType, NotifyManager, Skipped,
};
