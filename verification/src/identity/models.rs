//! The records and messages of the identity provider.

use vstd::prelude::*;

verus! {

/// A user as the database keeps it.
pub struct User {
    pub id: u128,
    pub username: String,
    pub password_hash: String,
    /// Seconds since the Unix epoch.
    pub created_at: i64,
    /// Seconds since the Unix epoch.
    pub updated_at: i64,
}

/// The body of a registration or login request.
pub struct CreateUserRequest {
    pub username: String,
    pub password: String,
}

/// A user as shown to the outside: no password hash.
pub struct CreateUserResponse {
    pub id: u128,
    pub username: String,
    /// Seconds since the Unix epoch.
    pub created_at: i64,
    /// Seconds since the Unix epoch.
    pub updated_at: i64,
}

/// The answer to a successful login: the user and a fresh token.
pub struct LoginResponse {
    pub id: u128,
    pub username: String,
    pub token: String,
    /// Seconds since the Unix epoch.
    pub created_at: i64,
    /// Seconds since the Unix epoch.
    pub updated_at: i64,
}

/// The payload of a token.
pub struct Claims {
    pub sub: String,
    pub user: CreateUserResponse,
    /// Expiry, in seconds since the Unix epoch.
    pub exp: u64,
    /// Time of issue, in seconds since the Unix epoch.
    pub iat: u64,
}

/// The body of a verification request.
pub struct VerifyRequest {
    pub token: String,
}

/// An error reported as JSON.
pub struct GenericServerError {
    pub code: i32,
    pub message: String,
}

/// A device with its long-lived keys, as the database keeps it.
pub struct Device {
    pub id: i64,
    pub user_id: u128,
    pub device_name: String,
    pub identity_key_public: Vec<u8>,
    pub signed_prekey_id: i32,
    pub signed_prekey_public: Vec<u8>,
    pub signed_prekey_signature: Vec<u8>,
    /// Seconds since the Unix epoch.
    pub created_at: i64,
}

/// A one-time prekey of a device, as the database keeps it.
pub struct OneTimePreKey {
    pub id: i64,
    pub device_id: i64,
    pub key_id: i32,
    pub public_key: Vec<u8>,
    /// Seconds since the Unix epoch.
    pub created_at: i64,
}

/// What a handler answers: a status with a JSON body or with a plain text.
pub enum Response<T> {
    Json { status: u16, body: T },
    Text { status: u16, text: String },
}

/// 200 OK.
pub const STATUS_OK: u16 = 200;

/// 201 Created.
pub const STATUS_CREATED: u16 = 201;

/// 401 Unauthorized.
pub const STATUS_UNAUTHORIZED: u16 = 401;

/// 404 Not Found.
pub const STATUS_NOT_FOUND: u16 = 404;

/// 500 Internal Server Error.
pub const STATUS_INTERNAL_SERVER_ERROR: u16 = 500;

impl User {
    /// The user as shown to the outside.
    pub fn public(self) -> (shown: CreateUserResponse)
        ensures
            shown.id == self.id,
            shown.username == self.username,
            shown.created_at == self.created_at,
            shown.updated_at == self.updated_at,
    {
        CreateUserResponse {
            id: self.id,
            username: self.username,
            created_at: self.created_at,
            updated_at: self.updated_at,
        }
    }
}

} // verus!
