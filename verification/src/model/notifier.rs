//! A configured notification: which server it watches, through which
//! provider it speaks and what it says.

use vstd::prelude::*;
use crate::model::error::ModelError;

verus! {

#[derive(Debug, Clone)]
pub struct Notifier {
    pub id: i64,
    pub user_id: i64,
    pub server_id: i64,
    /// The provider's name, such as `telegram` or `discord`.
    pub provider: String,
    /// The provider's credentials, as JSON text.
    pub credentials: String,
    /// The source of the message template.
    pub format: String,
    pub active: bool,
    pub created_at: String,
    pub updated_at: String,
}

#[derive(Debug, Clone)]
pub struct NotifierCreate {
    pub server_id: i64,
    pub provider: String,
    /// The provider's credentials, as JSON text.
    pub credentials: String,
    pub format: String,
    pub active: Option<bool>,
}

/// Whether `serde_json` reads the text as one JSON value.
pub uninterp spec fn valid_json(text: Seq<char>) -> bool;

/// `serde_json::from_str` into a `Value`, for its verdict only: `None`
/// where the text is one JSON value, else the parser's complaint.
#[verifier::external_body]
fn json_complaint(text: &str) -> (complaint: Option<String>)
    ensures
        complaint is None == valid_json(text@),
{
    match serde_json::from_str::<serde_json::Value>(text) {
        Ok(_) => None,
        Err(e) => Some(e.to_string()),
    }
}

impl NotifierCreate {
    /// A request for a notifier. Credentials that are no JSON are refused.
    pub fn new(
        server_id: i64,
        provider: &str,
        credentials: String,
        format: String,
        active: Option<bool>,
    ) -> (request: Result<Self, ModelError>)
        ensures
            match request {
                Ok(nc) => valid_json(credentials@) && nc.server_id == server_id && nc.provider@
                    == provider@ && nc.credentials == credentials && nc.format == format
                    && nc.active == active,
                Err(e) => !valid_json(credentials@) && e is SerdeErr,
            },
    {
        match json_complaint(credentials.as_str()) {
            None => Ok(
                NotifierCreate {
                    server_id,
                    provider: provider.to_owned(),
                    credentials,
                    format,
                    active,
                },
            ),
            Some(complaint) => Err(ModelError::SerdeErr(complaint)),
        }
    }

    /// The notifier as it is stored for `user_id`, once the store has given
    /// it an id and its timestamps. A request that does not say so is stored
    /// as not active.
    pub fn into_notifier(self, user_id: i64, id: i64, created_at: String, updated_at: String) -> (
        notifier: Notifier
    )
        ensures
            notifier.id == id,
            notifier.user_id == user_id,
            notifier.server_id == self.server_id,
            notifier.provider == self.provider,
            notifier.credentials == self.credentials,
            notifier.format == self.format,
            notifier.active == match self.active {
                Some(a) => a,
                None => false,
            },
            notifier.created_at == created_at,
            notifier.updated_at == updated_at,
    {
        Notifier {
            id,
            user_id,
            server_id: self.server_id,
            provider: self.provider,
            credentials: self.credentials,
            format: self.format,
            active: match self.active {
                Some(a) => a,
                None => false,
            },
            created_at,
            updated_at,
        }
    }
}

impl Notifier {
    /// The notifier after a change: everything is taken from the request but
    /// the id, the owner and the time of creation; a request that does not
    /// say whether the notifier is active leaves that as it was.
    pub fn modified(self, change: NotifierCreate, updated_at: String) -> (notifier: Notifier)
        ensures
            notifier.id == self.id,
            notifier.user_id == self.user_id,
            notifier.server_id == change.server_id,
            notifier.provider == change.provider,
            notifier.credentials == change.credentials,
            notifier.format == change.format,
            notifier.active == match change.active {
                Some(a) => a,
                None => self.active,
            },
            notifier.created_at == self.created_at,
            notifier.updated_at == updated_at,
    {
        Notifier {
            id: self.id,
            user_id: self.user_id,
            server_id: change.server_id,
            provider: change.provider,
            credentials: change.credentials,
            format: change.format,
            active: match change.active {
                Some(a) => a,
                None => self.active,
            },
            created_at: self.created_at,
            updated_at,
        }
    }
}

} // verus!
