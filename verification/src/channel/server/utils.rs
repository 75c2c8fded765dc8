//! The status cache and the rule that decides whether an observation is a
//! transition.

use std::collections::BTreeMap;
use vstd::prelude::*;

verus! {

/// The cache as mathematics: for each server the last code and reason.
pub type StatusModel = Map<i64, (i64, Seq<char>)>;

/// The mathematical content of a status cache.
pub open spec fn cache_model(statuses: Map<i64, (i64, String)>) -> StatusModel {
    Map::new(|id: i64| statuses.contains_key(id), |id: i64| (statuses[id].0, statuses[id].1@))
}

/// The text of an optional borrowed reason.
pub open spec fn borrowed_reason(reason: Option<&String>) -> Option<Seq<char>> {
    match reason {
        Some(r) => Some(r@),
        None => None,
    }
}

/// The text of an optional reason.
pub open spec fn reason_text(reason: Option<String>) -> Option<Seq<char>> {
    match reason {
        Some(r) => Some(r@),
        None => None,
    }
}

/// A status code counts as success exactly when it lies in `[200, 300)`.
pub open spec fn success_code(code: int) -> bool {
    200 <= code < 300
}

pub fn is_success(code: i64) -> (success: bool)
    ensures
        success == success_code(code as int),
{
    200 <= code && code < 300
}

/// The transition rule: an observation changes the status of a server when
/// the cache has no entry for it, when the code differs, or when it carries
/// a reason that differs from the cached one.
pub open spec fn status_changed(
    cache: StatusModel,
    server_id: i64,
    code: i64,
    reason: Option<Seq<char>>,
) -> bool {
    if cache.contains_key(server_id) {
        cache[server_id].0 != code || (reason is Some && reason->0 != cache[server_id].1)
    } else {
        true
    }
}

/// The cache after a transition was stored: the code is overwritten, the
/// reason only where the observation carries one; a server without an entry
/// gets one, with the empty reason where the observation carries none.
pub open spec fn status_stored(
    cache: StatusModel,
    server_id: i64,
    code: i64,
    reason: Option<Seq<char>>,
) -> StatusModel {
    let kept = if cache.contains_key(server_id) {
        cache[server_id].1
    } else {
        Seq::empty()
    };
    cache.insert(
        server_id,
        (
            code,
            match reason {
                Some(r) => r,
                None => kept,
            },
        ),
    )
}

pub fn is_changed(
    statuses: &BTreeMap<i64, (i64, String)>,
    server_id: i64,
    code: i64,
    reason: Option<&String>,
) -> (changed: bool)
    ensures
        changed == status_changed(cache_model(statuses@), server_id, code, borrowed_reason(reason)),
{
    broadcast use vstd::laws_cmp::group_laws_cmp;

    match statuses.get(&server_id) {
        Some(entry) => {
            if entry.0 != code {
                return true;
            }
            match reason {
                Some(r) => *r != entry.1,
                None => false,
            }
        },
        None => true,
    }
}

pub fn update_cache(
    statuses: &mut BTreeMap<i64, (i64, String)>,
    server_id: i64,
    code: i64,
    reason: Option<String>,
)
    ensures
        cache_model(final(statuses)@) == status_stored(
            cache_model(old(statuses)@),
            server_id,
            code,
            reason_text(reason),
        ),
{
    broadcast use vstd::laws_cmp::group_laws_cmp;

    let previous = statuses.remove(&server_id);
    let text = match reason {
        Some(r) => r,
        None => match previous {
            Some(entry) => entry.1,
            None => String::new(),
        },
    };
    statuses.insert(server_id, (code, text));
}

} // verus!
