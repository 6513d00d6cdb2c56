//! Token claims, the signing secret, and the authorization decisions of
//! the request guards.

use crate::user::{Minimum, UserRole};
use vstd::prelude::*;

verus! {

/// Why a request was not authorized.
#[derive(Debug, Clone, Copy, PartialEq, Eq, Structural)]
pub enum AuthError {
    MissingToken,
    InvalidTokenType,
    InvalidToken,
    InvalidRefreshToken,
    InvalidRole,
    Forbidden,
}

impl AuthError {
    pub open spec fn spec_message(self) -> Seq<char> {
        match self {
            AuthError::MissingToken => "Missing authorization token"@,
            AuthError::InvalidTokenType => "Invalid token type"@,
            AuthError::InvalidToken => "Invalid or expired token"@,
            AuthError::InvalidRefreshToken => "Invalid or expired refresh token"@,
            AuthError::InvalidRole => "User role is invalid"@,
            AuthError::Forbidden => "Admin access required"@,
        }
    }

    /// The human-readable description of the error.
    pub fn message(&self) -> (r: String)
        ensures
            r@ == self.spec_message(),
    {
        broadcast use vstd::string::to_string_from_display_ensures_for_str;

        match self {
            AuthError::MissingToken => "Missing authorization token".to_string(),
            AuthError::InvalidTokenType => "Invalid token type".to_string(),
            AuthError::InvalidToken => "Invalid or expired token".to_string(),
            AuthError::InvalidRefreshToken => "Invalid or expired refresh token".to_string(),
            AuthError::InvalidRole => "User role is invalid".to_string(),
            AuthError::Forbidden => "Admin access required".to_string(),
        }
    }
}

/// The secret used when none was configured.
pub const DEV_SECRET: &'static str = "dev-secret-change-in-production";

/// The token-signing secret, passed explicitly to whoever signs or checks
/// tokens. It can be set once; later settings are ignored.
pub struct JwtSecret {
    secret: Option<String>,
}

impl View for JwtSecret {
    type V = Option<Seq<char>>;

    closed spec fn view(&self) -> Option<Seq<char>> {
        match self.secret {
            Some(s) => Some(s@),
            None => None,
        }
    }
}

impl JwtSecret {
    /// A secret that has not been set yet.
    pub fn new() -> (r: JwtSecret)
        ensures
            r@ is None,
    {
        JwtSecret { secret: None }
    }
}

/// Sets the secret, unless it was set before.
pub fn set_jwt_secret(slot: &mut JwtSecret, secret: String)
    ensures
        old(slot)@ is None ==> final(slot)@ == Some(secret@),
        old(slot)@ is Some ==> final(slot)@ == old(slot)@,
{
    if slot.secret.is_none() {
        slot.secret = Some(secret);
    }
}

/// The secret that was set, or the development secret.
pub fn get_secret(slot: &JwtSecret) -> (r: String)
    ensures
        r@ == match slot@ {
            Some(s) => s,
            None => DEV_SECRET@,
        },
{
    broadcast use vstd::string::to_string_from_display_ensures_for_str;

    match &slot.secret {
        Some(s) => s.clone(),
        None => DEV_SECRET.to_string(),
    }
}

/// Whether a token grants access or only allows a refresh.
#[derive(Debug, Clone, Copy, PartialEq, Eq, Structural)]
pub enum TokenType {
    Access,
    Refresh,
}

/// What a signed token states.
pub struct TokenClaims {
    /// The account id.
    pub sub: i32,
    pub username: String,
    pub role: UserRole,
    /// Expiry, in seconds since the Unix epoch.
    pub exp: i64,
    /// Issue time, in seconds since the Unix epoch.
    pub iat: i64,
    pub token_type: TokenType,
}

/// How long an access token stays valid, in seconds.
pub const ACCESS_TOKEN_LIFETIME: i64 = 15 * 60;

/// How long a refresh token stays valid, in seconds.
pub const REFRESH_TOKEN_LIFETIME: i64 = 7 * 24 * 60 * 60;

pub open spec fn token_lifetime(t: TokenType) -> i64 {
    match t {
        TokenType::Access => ACCESS_TOKEN_LIFETIME,
        TokenType::Refresh => REFRESH_TOKEN_LIFETIME,
    }
}

impl TokenClaims {
    /// Claims of a token of `token_type` issued at `iat`, expiring one
    /// lifetime of that type later.
    pub fn issued_at(user_id: i32, username: String, role: UserRole, token_type: TokenType, iat: i64) -> (r: Self)
        requires
            iat <= i64::MAX - token_lifetime(token_type),
        ensures
            r.sub == user_id,
            r.username == username,
            r.role == role,
            r.token_type == token_type,
            r.iat == iat,
            r.exp == iat + token_lifetime(token_type),
    {
        let lifetime = match token_type {
            TokenType::Access => ACCESS_TOKEN_LIFETIME,
            TokenType::Refresh => REFRESH_TOKEN_LIFETIME,
        };
        TokenClaims { sub: user_id, username, role, exp: iat + lifetime, iat, token_type }
    }

    /// Claims of an access token issued at `iat` (seconds since the Unix
    /// epoch), valid for 15 minutes.
    pub fn access_token(user_id: i32, username: String, role: UserRole, iat: i64) -> (r: Self)
        requires
            iat <= i64::MAX - ACCESS_TOKEN_LIFETIME,
        ensures
            r.sub == user_id,
            r.username == username,
            r.role == role,
            r.token_type == TokenType::Access,
            r.iat == iat,
            r.exp == iat + ACCESS_TOKEN_LIFETIME,
    {
        TokenClaims::issued_at(user_id, username, role, TokenType::Access, iat)
    }

    /// Claims of a refresh token issued at `iat` (seconds since the Unix
    /// epoch), valid for 7 days.
    pub fn refresh_token(user_id: i32, username: String, role: UserRole, iat: i64) -> (r: Self)
        requires
            iat <= i64::MAX - REFRESH_TOKEN_LIFETIME,
        ensures
            r.sub == user_id,
            r.username == username,
            r.role == role,
            r.token_type == TokenType::Refresh,
            r.iat == iat,
            r.exp == iat + REFRESH_TOKEN_LIFETIME,
    {
        TokenClaims::issued_at(user_id, username, role, TokenType::Refresh, iat)
    }
}

/// An access token and a refresh token issued together.
pub struct TokenPair {
    pub access_token: String,
    pub refresh_token: String,
}

/// A login result: the body carries the access token; the refresh token
/// travels in an HTTP-only cookie.
pub struct AuthResponse {
    pub access_token: String,
    pub user_id: i32,
    pub username: String,
    pub refresh_token: String,
}

impl AuthResponse {
    pub fn new(access_token: String, user_id: i32, username: String, refresh_token: String) -> (r:
        Self)
        ensures
            r.access_token == access_token,
            r.user_id == user_id,
            r.username == username,
            r.refresh_token == refresh_token,
    {
        AuthResponse { access_token, user_id, username, refresh_token }
    }
}

/// A request that carried a valid access token.
pub struct AccessTokenGuard {
    pub user_id: i32,
    pub username: String,
    pub role: UserRole,
}

/// A request that carried a valid refresh token.
pub struct RefreshTokenGuard {
    pub user_id: i32,
    pub role: UserRole,
    pub username: String,
}

/// A request by an administrator.
pub struct AdminGuard {
    pub user_id: i32,
    pub username: String,
}

/// A request by a moderator or an administrator.
pub struct ModeratorGuard {
    pub user_id: i32,
    pub username: String,
    pub role: UserRole,
}

impl AccessTokenGuard {
    /// Admits the holder of verified claims when they are those of an
    /// access token; otherwise `InvalidTokenType`.
    pub fn from_claims(claims: TokenClaims) -> (r: Result<AccessTokenGuard, AuthError>)
        ensures
            r is Ok <==> claims.token_type == TokenType::Access,
            r matches Ok(g) ==> g.user_id == claims.sub && g.username == claims.username
                && g.role == claims.role,
            r matches Err(e) ==> e == AuthError::InvalidTokenType,
    {
        match claims.token_type {
            TokenType::Access => Ok(
                AccessTokenGuard {
                    user_id: claims.sub,
                    username: claims.username,
                    role: claims.role,
                },
            ),
            TokenType::Refresh => Err(AuthError::InvalidTokenType),
        }
    }

    /// The public identity of the token's holder.
    pub fn to_minimum(self) -> (r: Minimum)
        ensures
            r.id == self.user_id,
            r.username == self.username,
    {
        Minimum { id: self.user_id, username: self.username }
    }
}

impl RefreshTokenGuard {
    /// Admits the holder of verified claims when they are those of a
    /// refresh token; otherwise `InvalidTokenType`.
    pub fn from_claims(claims: TokenClaims) -> (r: Result<RefreshTokenGuard, AuthError>)
        ensures
            r is Ok <==> claims.token_type == TokenType::Refresh,
            r matches Ok(g) ==> g.user_id == claims.sub && g.username == claims.username
                && g.role == claims.role,
            r matches Err(e) ==> e == AuthError::InvalidTokenType,
    {
        match claims.token_type {
            TokenType::Refresh => Ok(
                RefreshTokenGuard {
                    user_id: claims.sub,
                    role: claims.role,
                    username: claims.username,
                },
            ),
            TokenType::Access => Err(AuthError::InvalidTokenType),
        }
    }
}

impl AdminGuard {
    /// Admits an access-token holder whose role is `Admin`; otherwise
    /// `Forbidden`.
    pub fn from_access(guard: AccessTokenGuard) -> (r: Result<AdminGuard, AuthError>)
        ensures
            r is Ok <==> guard.role == UserRole::Admin,
            r matches Ok(g) ==> g.user_id == guard.user_id && g.username == guard.username,
            r matches Err(e) ==> e == AuthError::Forbidden,
    {
        match guard.role {
            UserRole::Admin => Ok(AdminGuard { user_id: guard.user_id, username: guard.username }),
            UserRole::Moderator => Err(AuthError::Forbidden),
        }
    }
}

impl ModeratorGuard {
    /// Admits an access-token holder whose role is `Admin` or `Moderator`.
    pub fn from_access(guard: AccessTokenGuard) -> (r: Result<ModeratorGuard, AuthError>)
        ensures
            r is Ok <==> (guard.role == UserRole::Admin || guard.role == UserRole::Moderator),
            r matches Ok(g) ==> g.user_id == guard.user_id && g.username == guard.username
                && g.role == guard.role,
            r matches Err(e) ==> e == AuthError::Forbidden,
    {
        match guard.role {
            UserRole::Admin | UserRole::Moderator => Ok(
                ModeratorGuard { user_id: guard.user_id, username: guard.username, role: guard.role },
            ),
        }
    }
}

} // verus!
