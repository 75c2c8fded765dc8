//! The audit trail of what users did.

use vstd::prelude::*;
use crate::text::same_text;

verus! {

pub enum UserAction {
    ServerCreate { server_id: i64 },
    ServerDelete { server_id: i64 },
    ServerModify { server_id: i64 },
    UserSignup { user_id: i64 },
    UserSignin { user_id: i64 },
    UserVerifyAuth { user_id: i64 },
}

/// Whether `action` is one of the six names an audit row may carry.
pub open spec fn is_user_action_name(action: Seq<char>) -> bool {
    ||| action == "server_create"@
    ||| action == "server_delete"@
    ||| action == "server_modify"@
    ||| action == "user_signup"@
    ||| action == "user_signin"@
    ||| action == "user_verifyauth"@
}

impl UserAction {
    /// The name the action is logged under.
    pub open spec fn name(&self) -> Seq<char> {
        match self {
            UserAction::ServerCreate { .. } => "server_create"@,
            UserAction::ServerDelete { .. } => "server_delete"@,
            UserAction::ServerModify { .. } => "server_modify"@,
            UserAction::UserSignup { .. } => "user_signup"@,
            UserAction::UserSignin { .. } => "user_signin"@,
            UserAction::UserVerifyAuth { .. } => "user_verifyauth"@,
        }
    }

    /// The server or user the action was about.
    pub open spec fn entity(&self) -> i64 {
        match self {
            UserAction::ServerCreate { server_id } => *server_id,
            UserAction::ServerDelete { server_id } => *server_id,
            UserAction::ServerModify { server_id } => *server_id,
            UserAction::UserSignup { user_id } => *user_id,
            UserAction::UserSignin { user_id } => *user_id,
            UserAction::UserVerifyAuth { user_id } => *user_id,
        }
    }

    pub fn to_string(&self) -> (text: String)
        ensures
            text@ == self.name(),
    {
        match self {
            UserAction::ServerCreate { .. } => "server_create".to_owned(),
            UserAction::ServerDelete { .. } => "server_delete".to_owned(),
            UserAction::ServerModify { .. } => "server_modify".to_owned(),
            UserAction::UserSignup { .. } => "user_signup".to_owned(),
            UserAction::UserSignin { .. } => "user_signin".to_owned(),
            UserAction::UserVerifyAuth { .. } => "user_verifyauth".to_owned(),
        }
    }

    /// Splits the action into its logged name and the entity it was about.
    pub fn disassemble(&self) -> (parts: (String, Option<i64>))
        ensures
            parts.0@ == self.name(),
            parts.1 == Some(self.entity()),
            is_user_action_name(parts.0@),
    {
        let name = self.to_string();
        match self {
            UserAction::ServerCreate { server_id } => (name, Some(*server_id)),
            UserAction::ServerDelete { server_id } => (name, Some(*server_id)),
            UserAction::ServerModify { server_id } => (name, Some(*server_id)),
            UserAction::UserSignup { user_id } => (name, Some(*user_id)),
            UserAction::UserSignin { user_id } => (name, Some(*user_id)),
            UserAction::UserVerifyAuth { user_id } => (name, Some(*user_id)),
        }
    }

    pub fn user_signup(user_id: i64) -> (action: Self)
        ensures
            action == (UserAction::UserSignup { user_id }),
    {
        UserAction::UserSignup { user_id }
    }

    pub fn user_signin(user_id: i64) -> (action: Self)
        ensures
            action == (UserAction::UserSignin { user_id }),
    {
        UserAction::UserSignin { user_id }
    }

    pub fn user_verifyauth(user_id: i64) -> (action: Self)
        ensures
            action == (UserAction::UserVerifyAuth { user_id }),
    {
        UserAction::UserVerifyAuth { user_id }
    }

    pub fn server_create(server_id: i64) -> (action: Self)
        ensures
            action == (UserAction::ServerCreate { server_id }),
    {
        UserAction::ServerCreate { server_id }
    }

    pub fn server_modify(server_id: i64) -> (action: Self)
        ensures
            action == (UserAction::ServerModify { server_id }),
    {
        UserAction::ServerModify { server_id }
    }

    pub fn server_delete(server_id: i64) -> (action: Self)
        ensures
            action == (UserAction::ServerDelete { server_id }),
    {
        UserAction::ServerDelete { server_id }
    }
}

#[derive(Debug, Clone)]
pub struct UserActionLog {
    pub id: i64,
    pub user_id: i64,
    pub action: String,
    pub action_entity: Option<i64>,
    pub created_at: String,
}

#[derive(Debug, Clone)]
pub struct UserActionLogCreate {
    pub action: String,
    pub action_entity: Option<i64>,
}

impl UserActionLogCreate {
    /// The row that records `action`.
    pub fn of(action: &UserAction) -> (ualc: Self)
        ensures
            ualc.action@ == action.name(),
            ualc.action_entity == Some(action.entity()),
            is_user_action_name(ualc.action@),
    {
        let (name, entity) = action.disassemble();
        UserActionLogCreate { action: name, action_entity: entity }
    }

    /// The row as it is stored for `user_id`, once the store has given it an
    /// id and a timestamp.
    pub fn into_log(self, user_id: i64, id: i64, created_at: String) -> (log: UserActionLog)
        ensures
            log.id == id,
            log.user_id == user_id,
            log.action == self.action,
            log.action_entity == self.action_entity,
            log.created_at == created_at,
    {
        UserActionLog {
            id,
            user_id,
            action: self.action,
            action_entity: self.action_entity,
            created_at,
        }
    }

    pub fn new(action: &str, action_entity: Option<i64>) -> (ualc: Self)
        ensures
            ualc.action@ == action@,
            ualc.action_entity == action_entity,
    {
        UserActionLogCreate { action: action.to_owned(), action_entity }
    }
}

pub struct UserActionLogBmc;

impl UserActionLogBmc {
    /// Accepts an audit row exactly when its action is one of the six known
    /// names.
    pub fn validate_log(ualc: &UserActionLogCreate) -> (valid: bool)
        ensures
            valid == is_user_action_name(ualc.action@),
    {
        let action = ualc.action.as_str();
        same_text(action, "server_create") || same_text(action, "server_delete") || same_text(
            action,
            "server_modify",
        ) || same_text(action, "user_signup") || same_text(action, "user_signin") || same_text(
            action,
            "user_verifyauth",
        )
    }
}

} // verus!
