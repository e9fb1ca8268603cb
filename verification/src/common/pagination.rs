//! Page, limit and offset of list requests.

use vstd::prelude::*;

verus! {

/// Rows skipped before page `page` of pages of `limit` rows.
pub open spec fn page_offset(page: int, limit: int) -> int {
    (page - 1) * limit
}

/// A page request with its defaults applied.
pub struct PageWindow32 {
    pub page: i32,
    pub limit: i32,
    pub offset: i32,
}

/// The offset of a page fits in an `i32`, the arithmetic of a 32-bit page request.
pub open spec fn window_fits_i32(page: int, limit: int) -> bool {
    i32::MIN <= page - 1 && i32::MIN <= page_offset(page, limit) <= i32::MAX
}

/// Applies the defaults (page 1, `default_limit` rows) to `?page=&limit=`
/// and computes the offset, in 32-bit arithmetic.
pub fn page_window_i32(page: Option<i32>, limit: Option<i32>, default_limit: i32) -> (w: PageWindow32)
    requires
        window_fits_i32(
            match page { Some(p) => p as int, None => 1 },
            match limit { Some(l) => l as int, None => default_limit as int },
        ),
    ensures
        w.page == match page { Some(p) => p, None => 1 },
        w.limit == match limit { Some(l) => l, None => default_limit },
        w.offset == page_offset(w.page as int, w.limit as int),
{
    let page = match page {
        Some(p) => p,
        None => 1,
    };
    let limit = match limit {
        Some(l) => l,
        None => default_limit,
    };
    let offset = (page - 1) * limit;
    PageWindow32 { page, limit, offset }
}

/// A page request with 64-bit numbers.
pub struct PageWindow64 {
    pub page: i64,
    pub limit: i64,
    pub offset: i64,
}

/// The offset of a page fits in an `i64`.
pub open spec fn window_fits_i64(page: int, limit: int) -> bool {
    i64::MIN <= page - 1 && i64::MIN <= page_offset(page, limit) <= i64::MAX
}

/// The offset of a 64-bit page request.
pub fn page_window_i64(page: i64, limit: i64) -> (w: PageWindow64)
    requires
        window_fits_i64(page as int, limit as int),
    ensures
        w.page == page,
        w.limit == limit,
        w.offset == page_offset(page as int, limit as int),
{
    PageWindow64 { page, limit, offset: (page - 1) * limit }
}

/// `limit` when it is at most `max`, else `max`.
pub open spec fn capped(limit: i64, max: i64) -> i64 {
    if limit < max { limit } else { max }
}

/// Applies a default and an upper bound to a requested limit.
pub fn capped_limit(limit: Option<i64>, default_limit: i64, max: i64) -> (l: i64)
    ensures
        l == capped(match limit { Some(v) => v, None => default_limit }, max),
{
    let v = match limit {
        Some(v) => v,
        None => default_limit,
    };
    if v < max { v } else { max }
}

} // verus!
