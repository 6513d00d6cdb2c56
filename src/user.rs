//! User roles and the user-facing records exchanged with clients.

use crate::auth::AuthError;
use vstd::prelude::*;

verus! {

/// The role of an account; stored as its numeric code.
#[derive(Debug, Clone, Copy, PartialEq, Eq, Structural)]
pub enum UserRole {
    Admin,
    Moderator,
}

/// The numeric code under which a role is stored.
pub open spec fn role_code(r: UserRole) -> i32 {
    match r {
        UserRole::Admin => 1,
        UserRole::Moderator => 2,
    }
}

impl UserRole {
    /// The role stored under `value`: 1 is `Admin`, 2 is `Moderator`;
    /// any other code is `InvalidRole`.
    pub fn from_code(value: i32) -> (r: Result<UserRole, AuthError>)
        ensures
            r matches Ok(role) <==> (value == 1 || value == 2),
            r matches Ok(role) ==> role_code(role) == value,
            r matches Err(e) ==> e == AuthError::InvalidRole,
    {
        match value {
            1 => Ok(UserRole::Admin),
            2 => Ok(UserRole::Moderator),
            _ => Err(AuthError::InvalidRole),
        }
    }

    /// The numeric code of the role.
    pub fn code(self) -> (r: i32)
        ensures
            r == role_code(self),
    {
        match self {
            UserRole::Admin => 1,
            UserRole::Moderator => 2,
        }
    }
}

/// A request to create an account; new accounts are moderators.
pub struct New {
    pub username: String,
    pub password: String,
}

/// A request to create an account with a given role.
pub struct NewWithRole {
    pub username: String,
    pub password: String,
    pub role: UserRole,
}

/// Credentials of a login request.
pub struct Login {
    pub username: String,
    pub password: String,
}

/// The public identity of an account.
pub struct Minimum {
    pub id: i32,
    pub username: String,
}

/// The body returned after a login: the account and its access token.
pub struct AuthResponse {
    pub user: Minimum,
    pub access_token: String,
}

/// Whether an administrator account exists.
pub struct AdminStatus {
    pub has_admin: bool,
}

/// The service's health report.
pub struct HealthResponse {
    pub status: String,
    pub message: String,
    pub errors: Vec<String>,
}

} // verus!
