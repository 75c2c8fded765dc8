//! What a request for log rows asks for.

use vstd::prelude::*;

verus! {

#[derive(Debug)]
pub struct LogsPageQuery {
    pub limit: i64,
    pub offset: i64,
    pub failed: Option<bool>,
}

impl LogsPageQuery {
    /// Whether only the rows of failed probes are wanted: only where the
    /// request says so.
    pub fn only_failed(&self) -> (only: bool)
        ensures
            only == (self.failed == Some(true)),
    {
        match self.failed {
            Some(failed) => failed,
            None => false,
        }
    }
}

} // verus!
