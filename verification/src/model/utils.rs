//! One page of a listing.

use vstd::prelude::*;

verus! {

#[derive(Debug)]
pub struct Page<T> {
    items: Vec<T>,
    total: i64,
    limit: i64,
    offset: i64,
}

impl<T> Page<T> {
    pub fn new(items: Vec<T>, total: i64, limit: i64, offset: i64) -> (page: Self)
        ensures
            page.items_view() == items@,
            page.total_view() == total,
            page.limit_view() == limit,
            page.offset_view() == offset,
    {
        Page { items, total, limit, offset }
    }

    pub closed spec fn items_view(&self) -> Seq<T> {
        self.items@
    }

    pub closed spec fn total_view(&self) -> i64 {
        self.total
    }

    pub closed spec fn limit_view(&self) -> i64 {
        self.limit
    }

    pub closed spec fn offset_view(&self) -> i64 {
        self.offset
    }

    /// The rows on this page.
    pub fn items(&self) -> (items: &Vec<T>)
        ensures
            items@ == self.items_view(),
    {
        &self.items
    }

    /// How many rows the whole listing has.
    pub fn total(&self) -> (total: i64)
        ensures
            total == self.total_view(),
    {
        self.total
    }

    pub fn limit(&self) -> (limit: i64)
        ensures
            limit == self.limit_view(),
    {
        self.limit
    }

    pub fn offset(&self) -> (offset: i64)
        ensures
            offset == self.offset_view(),
    {
        self.offset
    }

    /// Gives the rows back.
    pub fn into_items(self) -> (items: Vec<T>)
        ensures
            items@ == self.items_view(),
    {
        self.items
    }
}

} // verus!
