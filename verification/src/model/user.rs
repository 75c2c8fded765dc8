//! Accounts, their roles and the claims a session token carries.

use vstd::prelude::*;
use crate::model::error::ModelError;
use crate::text::same_text;

verus! {

#[derive(Debug, Clone, PartialEq, Eq, Structural)]
pub enum UserRole {
    Admin,
    User,
}

impl Default for UserRole {
    fn default() -> (role: Self)
        ensures
            role == UserRole::User,
    {
        UserRole::User
    }
}

impl UserRole {
    /// The name a role is stored under.
    pub open spec fn name(self) -> Seq<char> {
        match self {
            UserRole::Admin => "admin"@,
            UserRole::User => "user"@,
        }
    }

    pub fn to_string(&self) -> (text: String)
        ensures
            text@ == self.name(),
    {
        match self {
            UserRole::Admin => "admin".to_owned(),
            UserRole::User => "user".to_owned(),
        }
    }

    /// Reads a role from its stored name; any other text is refused and
    /// handed back in the error.
    pub fn from_str(s: &str) -> (parsed: Result<UserRole, ModelError>)
        ensures
            match parsed {
                Ok(role) => s@ == role.name(),
                Err(ModelError::InvalidUserRole { given }) => given@ == s@ && s@ != "admin"@ && s@
                    != "user"@,
                Err(_) => false,
            },
    {
        if same_text(s, "admin") {
            Ok(UserRole::Admin)
        } else if same_text(s, "user") {
            Ok(UserRole::User)
        } else {
            Err(ModelError::InvalidUserRole { given: s.to_owned() })
        }
    }
}

/// Reading back the stored name of a role gives the role.
pub proof fn lemma_role_name_round_trip(role: UserRole)
    ensures
        role.name() == "admin"@ <==> role == UserRole::Admin,
        role.name() == "user"@ <==> role == UserRole::User,
{
    reveal_strlit("admin");
    reveal_strlit("user");
    assert("admin"@.len() == 5);
}

#[derive(Debug, Clone)]
pub struct User {
    pub id: i64,
    pub username: String,
    pub password_hash: String,
    pub role: String,
    pub created_at: String,
    pub updated_at: String,
}

/// What stands in place of the password hash in an account that is handed
/// out.
pub const OMITTED_HASH: &'static str = "OMITTED";

impl User {
    /// The account as it is handed out after it was stored: with the role's
    /// name, and without the password hash.
    pub fn created(
        username: String,
        role: UserRole,
        id: i64,
        created_at: String,
        updated_at: String,
    ) -> (user: User)
        ensures
            user.id == id,
            user.username == username,
            user.password_hash@ == OMITTED_HASH@,
            user.role@ == role.name(),
            user.created_at == created_at,
            user.updated_at == updated_at,
    {
        User {
            id,
            username,
            password_hash: OMITTED_HASH.to_owned(),
            role: role.to_string(),
            created_at,
            updated_at,
        }
    }
}

#[derive(Debug)]
pub struct UserCreate {
    pub username: String,
    pub password_raw: String,
    pub role: Option<UserRole>,
}

impl UserCreate {
    pub fn new(username: String, password_raw: String, role: Option<UserRole>) -> (uc: Self)
        ensures
            uc.username == username,
            uc.password_raw == password_raw,
            uc.role == role,
    {
        UserCreate { username, password_raw, role }
    }

    /// The role the new account gets: the one asked for, else `User`.
    pub fn role_or_default(&self) -> (role: UserRole)
        ensures
            role == match self.role {
                Some(r) => r,
                None => UserRole::User,
            },
    {
        match &self.role {
            Some(UserRole::Admin) => UserRole::Admin,
            Some(UserRole::User) => UserRole::User,
            None => UserRole::User,
        }
    }
}

/// What a session token states: whose it is and when it lapses.
#[derive(Debug)]
pub struct UserClaims {
    pub sub: String,
    pub exp: i64,
}

impl UserClaims {
    pub fn new(sub: &str, exp: i64) -> (claims: Self)
        ensures
            claims.sub@ == sub@,
            claims.exp == exp,
    {
        UserClaims { sub: sub.to_owned(), exp }
    }
}

} // verus!
