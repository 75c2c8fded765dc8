//! Failures of the persistence layer, described in text where they come from
//! a driver.

use vstd::prelude::*;
use vstd::string::StringExecFns;

verus! {

#[derive(Debug)]
pub enum ModelError {
    /// A role name that is neither `admin` nor `user`.
    InvalidUserRole { given: String },
    /// A JSON column could not be read or written.
    SerdeErr(String),
    /// The database driver reported a failure.
    SqlxErr(String),
    /// A schema migration failed.
    SqlxMigrateErr(String),
}

impl ModelError {
    /// The message shown for this error.
    pub fn to_string(&self) -> (text: String)
        ensures
            text@ == self.message(),
    {
        let (prefix, detail) = match self {
            ModelError::InvalidUserRole { given } => ("Invalid user role: ", given),
            ModelError::SerdeErr(e) => ("serde error: ", e),
            ModelError::SqlxErr(e) => ("sqlx error: ", e),
            ModelError::SqlxMigrateErr(e) => ("sqlx migration error: ", e),
        };
        let mut text = String::new();
        text.append(prefix);
        text.append(detail.as_str());
        text
    }

    pub open spec fn message(&self) -> Seq<char> {
        match self {
            ModelError::InvalidUserRole { given } => "Invalid user role: "@ + given@,
            ModelError::SerdeErr(e) => "serde error: "@ + e@,
            ModelError::SqlxErr(e) => "sqlx error: "@ + e@,
            ModelError::SqlxMigrateErr(e) => "sqlx migration error: "@ + e@,
        }
    }
}

} // verus!
