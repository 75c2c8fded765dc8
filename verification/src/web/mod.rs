//! What the HTTP interface answers when a request fails.

pub mod error;
pub mod query;

pub use error::WebError;
pub use query::LogsPageQuery;
