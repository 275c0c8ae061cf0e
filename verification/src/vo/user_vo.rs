//! User-facing request and response value objects.

use vstd::prelude::*;

verus! {

/// A login request: the credentials as given.
#[derive(Debug, Clone, PartialEq, Eq)]
pub struct LoginReq {
    pub username: String,
    pub password: String,
}

/// A successful login: the issued session token and the user's identity.
#[derive(Debug, Clone, PartialEq, Eq)]
pub struct LoginResp {
    pub user_id: i64,
    pub token: String,
    pub username: String,
    pub role: i32,
}

/// The caller's permission summary.
#[derive(Debug, Clone, PartialEq, Eq)]
pub struct PermissionResp {
    pub roles: Vec<String>,
    pub name: String,
    pub avatar: String,
    pub introduction: String,
}

} // verus!
