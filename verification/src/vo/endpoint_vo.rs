//! Endpoint value objects.

use vstd::prelude::*;

verus! {

/// A search over endpoints; every criterion is optional.
#[derive(Debug, Clone, PartialEq, Eq)]
pub struct SearchReq {
    pub id: Option<i64>,
    pub name: Option<String>,
    pub code: Option<String>,
    pub method: Option<String>,
    pub domain_code: Option<String>,
    pub path: Option<String>,
    pub description: Option<String>,
    pub is_active: Option<u8>,
}

} // verus!
