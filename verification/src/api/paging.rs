//! Pages of lists.

use vstd::prelude::*;

verus! {

/// A page of a list.
#[derive(Debug)]
pub struct PagedResponse<T> {
    pub total: i64,
    pub skip: i64,
    pub limit: i64,
    pub items: Vec<T>,
}

/// Which part of a list is asked for.
#[derive(Debug, Clone, Copy, PartialEq, Eq, Structural)]
pub struct PageWindow {
    pub skip: i64,
    pub limit: i64,
}

/// How many items a page has where that is not said.
pub fn default_limit() -> (r: i64)
    ensures
        r == 20,
{
    20
}

/// The part of a list that is asked for: between 1 and 100 items, from the beginning on at the
/// earliest.
pub open spec fn window_of(skip: i64, limit: i64) -> PageWindow {
    PageWindow {
        skip: if skip < 0 {
            0
        } else {
            skip
        },
        limit: if limit < 1 {
            1
        } else if limit > 100 {
            100
        } else {
            limit
        },
    }
}

/// The part of a list that is asked for.
pub fn page_window(skip: i64, limit: i64) -> (r: PageWindow)
    ensures
        r == window_of(skip, limit),
{
    PageWindow {
        skip: if skip < 0 {
            0
        } else {
            skip
        },
        limit: if limit < 1 {
            1
        } else if limit > 100 {
            100
        } else {
            limit
        },
    }
}

/// A page of a list, with the part that was asked for and the number of all items.
pub fn page_of<T>(total: i64, window: PageWindow, items: Vec<T>) -> (r: PagedResponse<T>)
    ensures
        r == (PagedResponse { total, skip: window.skip, limit: window.limit, items }),
{
    PagedResponse { total, skip: window.skip, limit: window.limit, items }
}

} // verus!
