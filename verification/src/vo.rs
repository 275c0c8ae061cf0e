//! Request and response value objects shared by the route handlers.

pub mod common_vo;
pub mod endpoint_vo;
pub mod user_vo;

use vstd::prelude::*;

verus! {

/// Sort direction.
#[derive(Debug, Clone, PartialEq, Eq)]
pub enum SortOrder {
    Asc,
    Desc,
}

/// A paged list request: page number, page size, optional sort and filter.
#[derive(Debug, Clone)]
pub struct PageReq<T> {
    pub page: u32,
    pub page_size: u32,
    pub sort_by: Option<String>,
    pub sort_order: Option<SortOrder>,
    pub filter: Option<T>,
}

/// The row offset of `page` (1-based) at `page_size` rows per page.
pub open spec fn spec_offset(page: u32, page_size: u32) -> int {
    if page == 0 {
        0
    } else {
        (page - 1) * page_size
    }
}

impl<T> PageReq<T> {
    /// The offset of this request's first row.
    pub fn offset(&self) -> (r: u32)
        requires
            spec_offset(self.page, self.page_size) <= u32::MAX,
        ensures
            r == spec_offset(self.page, self.page_size),
    {
        self.page.saturating_sub(1) * self.page_size
    }
}

/// A request that names one record.
#[derive(Debug, Clone, PartialEq, Eq)]
pub struct IdReq {
    pub id: u64,
}

/// A request that names a batch of records.
#[derive(Debug, Clone, PartialEq, Eq)]
pub struct IdsReq {
    pub ids: Vec<u64>,
}

} // verus!
