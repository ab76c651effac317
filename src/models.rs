//! Plain data models of the users service.

use vstd::prelude::*;

verus! {

/// A stored user account.
#[derive(Debug, Clone, PartialEq, Eq)]
pub struct User {
    pub id: i32,
    pub email: String,
    pub password: String,
    pub is_active: bool,
}

/// Identity provider a user signed in with.
#[derive(Debug, Clone, Copy, PartialEq, Eq)]
pub enum Provider {
    Email,
    Google,
    Facebook,
}

/// Whether issuing a provider token created a new user (with its id).
#[derive(Debug, Clone, Copy, PartialEq, Eq)]
pub enum UserStatus {
    New(i32),
    Exists,
}

/// Json Web Token sent back to the gateway.
#[derive(Debug, Clone, PartialEq, Eq)]
pub struct JWT {
    pub token: String,
    pub status: UserStatus,
}

/// Provider token received from the gateway to create a JWT.
#[derive(Debug, Clone, PartialEq, Eq)]
pub struct ProviderOauth {
    pub token: String,
}

/// Claims of a Json Web Token.
#[derive(Debug, Clone, Copy, PartialEq, Eq)]
pub struct JWTPayload {
    pub user_id: i32,
    pub exp: i64,
    pub provider: Provider,
}

impl JWTPayload {
    pub fn new(id: i32, exp_arg: i64, provider_arg: Provider) -> (r: Self)
        ensures
            r.user_id == id,
            r.exp == exp_arg,
            r.provider == provider_arg,
    {
        JWTPayload { user_id: id, exp: exp_arg, provider: provider_arg }
    }
}

/// Role that a user holds.
#[derive(Debug, Clone, Copy, PartialEq, Eq)]
pub enum Role {
    Superuser,
    User,
}

/// Extent of a permission: every record, or only the user's own.
#[derive(Debug, Clone, Copy, PartialEq, Eq)]
pub enum Scope {
    All,
    Owned,
}

/// A stored role assignment.
#[derive(Debug, Clone, Copy, PartialEq, Eq)]
pub struct UserRole {
    pub id: i32,
    pub user_id: i32,
    pub role: Role,
}

/// A role assignment to be stored.
#[derive(Debug, Clone, Copy, PartialEq, Eq)]
pub struct NewUserRole {
    pub user_id: i32,
    pub role: Role,
}

/// Records whose access depends on who owns them.
pub trait WithScope {
    spec fn owner(&self) -> i32;

    /// Whether the record is visible to `user_id` under `scope`.
    fn is_in_scope(&self, scope: &Scope, user_id: i32) -> (r: bool)
        ensures
            r == (*scope == Scope::All || self.owner() == user_id),
    ;
}

impl WithScope for UserRole {
    open spec fn owner(&self) -> i32 {
        self.user_id
    }

    fn is_in_scope(&self, scope: &Scope, user_id: i32) -> (r: bool) {
        match *scope {
            Scope::All => true,
            Scope::Owned => self.user_id == user_id,
        }
    }
}

} // verus!
