//! Who is asking, and which slice of a listing they want.

use vstd::prelude::*;
use vstd::std_specs::convert::FromSpecImpl;
use crate::model::user::UserRole;

verus! {

#[derive(Debug, Clone)]
pub struct PaginationArguments {
    pub limit: i64,
    pub offset: i64,
}

impl From<(i64, i64)> for PaginationArguments {
    fn from(value: (i64, i64)) -> (args: Self) {
        PaginationArguments { limit: value.0, offset: value.1 }
    }
}

impl FromSpecImpl<(i64, i64)> for PaginationArguments {
    open spec fn obeys_from_spec() -> bool {
        true
    }

    open spec fn from_spec(value: (i64, i64)) -> Self {
        PaginationArguments { limit: value.0, offset: value.1 }
    }
}

impl PaginationArguments {
    /// The slice asked for: ten rows from the start, unless the request says
    /// otherwise.
    pub fn or_default(limit: Option<i64>, offset: Option<i64>) -> (args: Self)
        ensures
            args.limit == match limit {
                Some(l) => l,
                None => 10,
            },
            args.offset == match offset {
                Some(o) => o,
                None => 0,
            },
    {
        PaginationArguments {
            limit: match limit {
                Some(l) => l,
                None => 10,
            },
            offset: match offset {
                Some(o) => o,
                None => 0,
            },
        }
    }
}

/// The identity a request runs under.
#[derive(Debug, Clone)]
pub struct Ctx {
    pub user_id: i64,
    pub role: UserRole,
}

impl Ctx {
    /// The built-in administrator: user `0` with the `Admin` role.
    pub fn admin_root() -> (ctx: Self)
        ensures
            ctx.user_id == 0,
            ctx.role == UserRole::Admin,
    {
        Ctx { user_id: 0, role: UserRole::Admin }
    }

    /// Whether this identity may touch what `owner_id` owns: owners may, and
    /// so may administrators.
    pub fn may_access(&self, owner_id: i64) -> (allowed: bool)
        ensures
            allowed == (self.user_id == owner_id || self.role == UserRole::Admin),
    {
        self.user_id == owner_id || matches!(self.role, UserRole::Admin)
    }

    pub fn new(user_id: i64, role: UserRole) -> (ctx: Self)
        ensures
            ctx.user_id == user_id,
            ctx.role == role,
    {
        Ctx { user_id, role }
    }
}

} // verus!
