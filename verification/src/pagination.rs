//! Paging through a listing: which rows a request asks for.

use vstd::prelude::*;

verus! {

/// How many rows a page holds where the request does not say.
pub const DEFAULT_PER_PAGE: i64 = 50;

/// The most rows a page may hold.
pub const MAX_PER_PAGE: i64 = 100;

/// Which page of a listing a request asks for, and how long its pages are.
#[derive(Debug, Clone, Copy, PartialEq, Eq)]
pub struct Pagination {
    /// The page, counted from one.
    pub page: Option<i64>,
    /// The length of a page in rows.
    pub per_page: Option<i64>,
}

/// One page of a listing.
#[derive(Debug, Clone, PartialEq, Eq)]
pub struct PaginatedResponse<T> {
    /// The rows of the page.
    pub data: Vec<T>,
    /// How many rows the whole listing has.
    pub total: i64,
    /// The page that was asked for.
    pub page: i64,
    /// The length of a page in rows.
    pub per_page: i64,
}

impl Pagination {
    /// How many rows a page holds: what was asked for, but at least one and at
    /// most a hundred, and fifty where nothing was asked for.
    pub open spec fn limit(&self) -> int {
        let asked = match self.per_page {
            Some(rows) => rows,
            None => DEFAULT_PER_PAGE,
        };
        if asked < 1 {
            1
        } else if asked > MAX_PER_PAGE {
            MAX_PER_PAGE as int
        } else {
            asked as int
        }
    }

    /// The page to show: the one asked for, but the first one at least, and
    /// the first one where none was asked for.
    pub open spec fn page_number(&self) -> int {
        match self.page {
            Some(page) => if page < 1 {
                1
            } else {
                page as int
            },
            None => 1,
        }
    }

    /// The page as it is reported back: the one asked for as it was given, or
    /// the first.
    pub open spec fn reported_page(&self) -> int {
        match self.page {
            Some(page) => page as int,
            None => 1,
        }
    }

    /// How many rows come before the page.
    pub open spec fn offset(&self) -> int {
        (self.page_number() - 1) * self.limit()
    }

    /// Whether the offset is a number that the store can be asked for.
    pub open spec fn offset_fits(&self) -> bool {
        self.offset() <= i64::MAX
    }

    fn row_limit(&self) -> (limit: i64)
        ensures
            limit == self.limit(),
            1 <= limit <= MAX_PER_PAGE,
    {
        let asked: i64 = match self.per_page {
            Some(rows) => rows,
            None => DEFAULT_PER_PAGE,
        };
        if asked < 1 {
            1
        } else if asked > MAX_PER_PAGE {
            MAX_PER_PAGE
        } else {
            asked
        }
    }

    fn pages_before(&self) -> (pages: i64)
        ensures
            pages == self.page_number() - 1,
            0 <= pages,
    {
        match self.page {
            Some(page) => if page < 1 {
                0
            } else {
                page - 1
            },
            None => 0,
        }
    }

    /// The length of a page and the number of rows before it.
    pub fn limit_offset(&self) -> (window: (i64, i64))
        requires
            self.offset_fits(),
        ensures
            window.0 == self.limit(),
            window.1 == self.offset(),
    {
        let limit: i64 = self.row_limit();
        let pages: i64 = self.pages_before();
        assert(0 <= pages * limit) by (nonlinear_arith)
            requires
                0 <= pages,
                1 <= limit,
        ;
        (limit, pages * limit)
    }

    /// The length of a page and the number of rows before it, or nothing where
    /// the page lies so far out that the number of rows before it is no number
    /// the store can be asked for.
    pub fn checked_limit_offset(&self) -> (window: Option<(i64, i64)>)
        ensures
            match window {
                Some((limit, offset)) => self.offset_fits() && limit == self.limit() && offset
                    == self.offset(),
                None => !self.offset_fits(),
            },
    {
        let limit: i64 = self.row_limit();
        let pages: i64 = self.pages_before();
        assert(0 <= pages * limit) by (nonlinear_arith)
            requires
                0 <= pages,
                1 <= limit,
        ;
        match pages.checked_mul(limit) {
            Some(offset) => Some((limit, offset)),
            None => None,
        }
    }

    /// Makes the page of a listing from its rows and the number of rows that
    /// the whole listing has.
    pub fn respond<T>(&self, data: Vec<T>, total: i64) -> (response: PaginatedResponse<T>)
        ensures
            response.data == data,
            response.total == total,
            response.page == self.reported_page(),
            response.per_page == self.limit(),
    {
        let page: i64 = match self.page {
            Some(page) => page,
            None => 1,
        };
        PaginatedResponse { data, total, page, per_page: self.row_limit() }
    }
}

} // verus!
