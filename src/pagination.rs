use vstd::prelude::*;

verus! {

/// Rows per page when the caller gives none, or gives one that is not usable.
pub const DEFAULT_PER_PAGE: usize = 30;

/// Offsets handed to the store are signed 64-bit values.
pub const MAX_STORE_OFFSET: i64 = 9223372036854775807;

/// A window over a listing: which page, and how many rows per page.
#[derive(Clone, Copy, Debug, PartialEq, Eq, Structural)]
pub struct Pagination {
    pub page: usize,
    pub per_page: usize,
}

/// The window used when the caller asks for none or for an unusable one.
pub open spec fn default_pagination() -> Pagination {
    Pagination { page: 0, per_page: DEFAULT_PER_PAGE }
}

/// The window for raw query values: a missing value takes its default; a
/// negative page, a per-page count that is not positive, or a value that does
/// not fit, gives the whole default window.
pub open spec fn resolve_spec(page: Option<i64>, per_page: Option<i64>) -> Pagination {
    let p: int = match page {
        Some(v) => v as int,
        None => 0,
    };
    let n: int = match per_page {
        Some(v) => v as int,
        None => DEFAULT_PER_PAGE as int,
    };
    if 0 <= p <= usize::MAX && 0 < n <= usize::MAX {
        Pagination { page: p as usize, per_page: n as usize }
    } else {
        default_pagination()
    }
}

/// The row limit passed to the store.
pub open spec fn limit_spec(p: Pagination) -> i64 {
    if p.per_page <= MAX_STORE_OFFSET {
        p.per_page as i64
    } else {
        DEFAULT_PER_PAGE as i64
    }
}

/// The row offset passed to the store: `page * per_page`, clamped to the
/// largest offset the store takes.
pub open spec fn offset_spec(p: Pagination) -> i64 {
    if p.page * p.per_page <= MAX_STORE_OFFSET {
        (p.page * p.per_page) as i64
    } else {
        MAX_STORE_OFFSET
    }
}

/// The page after this one, clamped at the largest page number.
pub open spec fn next_page_spec(p: Pagination) -> usize {
    if p.page < usize::MAX {
        (p.page + 1) as usize
    } else {
        usize::MAX
    }
}

impl Pagination {
    /// The window has room for at least one row.
    pub open spec fn wf(self) -> bool {
        self.per_page > 0
    }

    /// Reads raw `page` / `perPage` query values; never fails.
    pub fn resolve(page: Option<i64>, per_page: Option<i64>) -> (r: Pagination)
        ensures
            r == resolve_spec(page, per_page),
            r.wf(),
    {
        let p: i64 = match page {
            Some(v) => v,
            None => 0,
        };
        let n: i64 = match per_page {
            Some(v) => v,
            None => 30,
        };
        if p < 0 || n <= 0 || (p as u64) > (usize::MAX as u64) || (n as u64) > (usize::MAX as u64) {
            Pagination::default()
        } else {
            Pagination { page: p as usize, per_page: n as usize }
        }
    }

    pub fn limit(&self) -> (r: i64)
        ensures
            r == limit_spec(*self),
    {
        if (self.per_page as u64) <= (MAX_STORE_OFFSET as u64) {
            self.per_page as i64
        } else {
            30
        }
    }

    pub fn offset(&self) -> (r: i64)
        ensures
            r == offset_spec(*self),
    {
        let per_page = self.per_page as u64;
        let page = self.page as u64;
        if per_page == 0 || page <= (MAX_STORE_OFFSET as u64) / per_page {
            proof {
                if per_page > 0 {
                    assert(page * per_page <= MAX_STORE_OFFSET) by (nonlinear_arith)
                        requires
                            page <= (MAX_STORE_OFFSET as u64) / per_page,
                            per_page > 0,
                    ;
                }
            }
            (page * per_page) as i64
        } else {
            proof {
                assert(page * per_page > MAX_STORE_OFFSET) by (nonlinear_arith)
                    requires
                        page > (MAX_STORE_OFFSET as u64) / per_page,
                        per_page > 0,
                ;
            }
            MAX_STORE_OFFSET
        }
    }

    pub fn next_page(&self) -> (r: usize)
        ensures
            r == next_page_spec(*self),
    {
        if self.page < usize::MAX {
            self.page + 1
        } else {
            usize::MAX
        }
    }
}

impl Default for Pagination {
    fn default() -> (r: Pagination)
        ensures
            r == default_pagination(),
    {
        Pagination { page: 0, per_page: 30 }
    }
}

/// A per-page count that is zero or negative yields the default window,
/// whatever page was asked for.
pub proof fn lemma_nonpositive_per_page_defaults(page: Option<i64>, per_page: i64)
    requires
        per_page <= 0,
    ensures
        resolve_spec(page, Some(per_page)) == default_pagination(),
{
}

/// Every resolved window has offset `page * per_page` and next page `page + 1`;
/// where those exceed what can be represented they are clamped, never wrapped.
pub proof fn lemma_resolved_window(page: Option<i64>, per_page: Option<i64>)
    ensures
        ({
            let p = resolve_spec(page, per_page);
            &&& p.wf()
            &&& 0 <= offset_spec(p)
            &&& p.page * p.per_page <= MAX_STORE_OFFSET ==> offset_spec(p) == p.page * p.per_page
            &&& p.page * p.per_page > MAX_STORE_OFFSET ==> offset_spec(p) == MAX_STORE_OFFSET
            &&& p.page < usize::MAX ==> next_page_spec(p) == p.page + 1
            &&& p.page == usize::MAX ==> next_page_spec(p) == usize::MAX
            &&& limit_spec(p) == p.per_page || p.per_page > MAX_STORE_OFFSET
        }),
{
}

} // verus!
