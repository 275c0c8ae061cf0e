//! Shared query, filter and paging value objects.

use vstd::prelude::*;

verus! {

/// A request that names one record.
#[derive(Debug, Clone, PartialEq, Eq)]
pub struct IdReq {
    pub id: i64,
}

/// A request that names a batch of records.
#[derive(Debug, Clone, PartialEq, Eq)]
pub struct IdsReq {
    pub ids: Vec<i64>,
}

/// Sort direction.
#[derive(Debug, Clone, PartialEq, Eq)]
pub enum Order {
    Asc,
    Desc,
}

/// How several filter conditions combine.
#[derive(Debug, Clone, PartialEq, Eq)]
pub enum LogicOp {
    And,
    Or,
}

/// Comparison operator of one filter condition.
#[derive(Debug, Clone, PartialEq, Eq)]
pub enum CompareOp {
    Eq,
    Ne,
    Gt,
    Ge,
    Lt,
    Le,
    In,
    Between,
    Like,
    IsNull,
    IsNotNull,
}

/// One filter condition: a field, an operator, and the compared values.
#[derive(Debug, Clone, PartialEq, Eq)]
pub struct Filter {
    pub field: String,
    pub op: CompareOp,
    pub values: Vec<String>,
}

/// One sort criterion.
#[derive(Debug, Clone, PartialEq, Eq)]
pub struct SortField {
    pub field: String,
    pub order: Order,
}

/// A general list query: filters, their combinator, paging, and sorting.
#[derive(Debug, Clone)]
pub struct QueryReq {
    pub filters: Option<Vec<Filter>>,
    pub logic: LogicOp,
    pub page: u64,
    pub size: u64,
    pub sorts: Option<Vec<SortField>>,
}

/// The filter combinator a query gets when none is given.
pub fn default_logic() -> (r: LogicOp)
    ensures
        r == LogicOp::And,
{
    LogicOp::And
}

/// The page number a query gets when none is given.
pub fn default_page() -> (r: u64)
    ensures
        r == 1,
{
    1
}

/// The page size a query gets when none is given.
pub fn default_size() -> (r: u64)
    ensures
        r == 20,
{
    20
}

/// A page of results: the total row count, the page cursor, and the rows.
#[derive(Debug)]
pub struct PageResp<T> {
    pub total: u64,
    pub page: u64,
    pub page_size: u64,
    pub data: Vec<T>,
}

impl<T> PageResp<T> {
    /// Bundles one result page.
    pub fn new(total: u64, page: u64, page_size: u64, data: Vec<T>) -> (r: Self)
        ensures
            r.total == total,
            r.page == page,
            r.page_size == page_size,
            r.data == data,
    {
        Self { total, page, page_size, data }
    }

    /// Maps every row through `f`, keeping the paging numbers.
    pub fn map<U, F: Fn(T) -> U>(self, f: F) -> (r: PageResp<U>)
        requires
            forall|i: int| 0 <= i < self.data@.len() ==> call_requires(f, (self.data@[i],)),
        ensures
            r.total == self.total,
            r.page == self.page,
            r.page_size == self.page_size,
            r.data@.len() == self.data@.len(),
            forall|i: int|
                0 <= i < self.data@.len() ==> call_ensures(f, (self.data@[i],), r.data@[i]),
    {
        let ghost orig = self.data@;
        let mut data = self.data;
        let mut out: Vec<U> = Vec::new();
        while data.len() > 0
            invariant
                out@.len() + data@.len() == orig.len(),
                data@ == orig.subrange(out@.len() as int, orig.len() as int),
                forall|i: int| 0 <= i < out@.len() ==> call_ensures(f, (orig[i],), out@[i]),
                forall|i: int| 0 <= i < orig.len() ==> call_requires(f, (orig[i],)),
            decreases data@.len(),
        {
            let x = data.remove(0);
            assert(x == orig[out@.len() as int]);
            let y = f(x);
            out.push(y);
            proof {
                assert(data@ =~= orig.subrange(out@.len() as int, orig.len() as int));
            }
        }
        PageResp { total: self.total, page: self.page, page_size: self.page_size, data: out }
    }
}

} // verus!
