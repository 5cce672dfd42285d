//! The pagination envelope shared by every list endpoint, together with the
//! `limit` / `offset` query-parameter rules: a limit must lie in 1..=100 and
//! defaults to 100, an offset may be any value and defaults to 0.

use vstd::prelude::*;

verus! {

/// One page of a listing: the resolved `limit` and `offset`, the total
/// number of matching rows, and the rows of this page.
pub struct Page<T> {
    pub limit: u64,
    pub offset: u64,
    pub total: u64,
    pub data: Vec<T>,
}

pub const DEFAULT_LIMIT: u64 = 100;
pub const DEFAULT_OFFSET: u64 = 0;

/// An explicit limit is accepted when it lies in 1..=100; an absent one is
/// always accepted.
pub open spec fn limit_valid(limit: Option<u64>) -> bool {
    match limit {
        Some(l) => 1 <= l && l <= 100,
        None => true,
    }
}

pub fn check_limit(limit: &Option<u64>) -> (r: bool)
    ensures
        r == limit_valid(*limit),
{
    match limit {
        Some(l) => 1 <= *l && *l <= 100,
        None => true,
    }
}

pub open spec fn spec_resolve_limit(limit: Option<u64>) -> u64 {
    match limit {
        Some(l) => l,
        None => DEFAULT_LIMIT,
    }
}

/// An absent limit defaults to 100.
pub fn resolve_limit(limit: &Option<u64>) -> (r: u64)
    ensures
        r == spec_resolve_limit(*limit),
{
    match limit {
        Some(l) => *l,
        None => DEFAULT_LIMIT,
    }
}

pub open spec fn spec_resolve_offset(offset: Option<u64>) -> u64 {
    match offset {
        Some(o) => o,
        None => DEFAULT_OFFSET,
    }
}

/// An absent offset defaults to 0.
pub fn resolve_offset(offset: &Option<u64>) -> (r: u64)
    ensures
        r == spec_resolve_offset(*offset),
{
    match offset {
        Some(o) => *o,
        None => DEFAULT_OFFSET,
    }
}

/// Index of the first row of the page: `offset`, clamped to the row count.
pub open spec fn window_start(len: int, offset: u64) -> int {
    if offset as int <= len {
        offset as int
    } else {
        len
    }
}

/// Index one past the last row of the page: `offset + limit`, clamped to the
/// row count.
pub open spec fn window_end(len: int, limit: u64, offset: u64) -> int {
    if offset as int + limit as int <= len {
        offset as int + limit as int
    } else {
        len
    }
}

/// The rows a listing with the given `limit` and `offset` returns out of
/// `rows`: the window `[offset, offset + limit)`, clamped to the row count.
pub open spec fn page_window<T>(rows: Seq<T>, limit: u64, offset: u64) -> Seq<T> {
    rows.subrange(window_start(rows.len() as int, offset), window_end(rows.len() as int, limit, offset))
}

} // verus!
