//! The authenticated user.

use vstd::prelude::*;

verus! {

#[derive(Debug, Clone)]
pub struct User {
    pub id: String,
    pub email: Option<String>,
    pub name: Option<String>,
    pub plan: Option<String>,
}

/// The path of the authenticated user.
pub const USER_ME_PATH: &'static str = "/api/v1/user/me";

} // verus!
