//! The answers to registration, login and verification.

use crate::identity::models::{
    Claims,
    CreateUserResponse,
    GenericServerError,
    LoginResponse,
    Response,
    User,
    STATUS_CREATED,
    STATUS_INTERNAL_SERVER_ERROR,
    STATUS_OK,
    STATUS_UNAUTHORIZED,
};
use vstd::prelude::*;
use vstd::string::StringExecFns;

verus! {

/// The greeting at the root of the service.
pub fn root() -> (text: &'static str)
    ensures
        text@ == "Boo!"@,
{
    "Boo!"
}

/// A plain-text answer made of a fixed prefix and a reason.
fn failure<T>(status: u16, prefix: &str, reason: &str) -> (r: Response<T>)
    ensures
        r matches Response::Text { status: s, text } && s == status && text@ == prefix@ + reason@,
{
    let mut text = String::from_str(prefix);
    text.append(reason);
    Response::Text { status, text }
}

/// The answer to a registration, given what the database made of the
/// insertion: the new user with status 201, or the database's complaint with
/// status 500.
pub fn register(inserted: Result<CreateUserResponse, String>) -> (r: Response<CreateUserResponse>)
    ensures
        match inserted {
            Ok(user) => r == (Response::Json { status: STATUS_CREATED, body: user }),
            Err(reason) => r matches Response::Text { status, text } && status
                == STATUS_INTERNAL_SERVER_ERROR && text@ == "DB Error: "@ + reason@,
        },
{
    match inserted {
        Ok(user) => Response::Json { status: STATUS_CREATED, body: user },
        Err(reason) => failure(STATUS_INTERNAL_SERVER_ERROR, "DB Error: ", reason.as_str()),
    }
}

/// How far a login got.
pub enum LoginAttempt {
    /// The user could not be fetched; `reason` is the database's complaint.
    NoSuchUser { reason: String },
    /// The password does not match the stored hash.
    WrongPassword,
    /// The token could not be signed; `reason` is the signer's complaint.
    TokenFailure { reason: String },
    /// The password matched and `token` was signed for `user`.
    Granted { user: User, token: String },
}

/// What a login makes of the fetch: the user to check the password of, or
/// the attempt as it ends if the user could not be fetched.
pub fn after_fetch(fetched: Result<User, String>) -> (r: Result<User, LoginAttempt>)
    ensures
        match fetched {
            Ok(user) => r == Ok::<User, LoginAttempt>(user),
            Err(reason) => r == Err::<User, LoginAttempt>(LoginAttempt::NoSuchUser { reason }),
        },
{
    match fetched {
        Ok(user) => Ok(user),
        Err(reason) => Err(LoginAttempt::NoSuchUser { reason }),
    }
}

/// What a login makes of the password check: the user to sign a token for,
/// or the attempt as it ends if the password did not match.  No token is
/// signed for a password that did not match.
pub fn after_password(user: User, password_ok: bool) -> (r: Result<User, LoginAttempt>)
    ensures
        password_ok ==> r == Ok::<User, LoginAttempt>(user),
        !password_ok ==> r == Err::<User, LoginAttempt>(LoginAttempt::WrongPassword),
{
    if password_ok {
        Ok(user)
    } else {
        Err(LoginAttempt::WrongPassword)
    }
}

/// What a login makes of the signing: the attempt as it ends, granted with
/// the token or failed with the signer's complaint.
pub fn after_signing(user: User, signed: Result<String, String>) -> (attempt: LoginAttempt)
    ensures
        match signed {
            Ok(token) => attempt == (LoginAttempt::Granted { user, token }),
            Err(reason) => attempt == (LoginAttempt::TokenFailure { reason }),
        },
{
    match signed {
        Ok(token) => LoginAttempt::Granted { user, token },
        Err(reason) => LoginAttempt::TokenFailure { reason },
    }
}

/// The answer to a login: the user with a fresh token and status 200, or the
/// reason of the failure with status 401 for a wrong password and 500 for
/// everything else.
pub fn login(attempt: LoginAttempt) -> (r: Response<LoginResponse>)
    ensures
        match attempt {
            LoginAttempt::NoSuchUser { reason } => r matches Response::Text { status, text }
                && status == STATUS_INTERNAL_SERVER_ERROR && text@ == "DB Error: "@ + reason@,
            LoginAttempt::WrongPassword => r matches Response::Text { status, text } && status
                == STATUS_UNAUTHORIZED && text@ == "Invalid username or password"@,
            LoginAttempt::TokenFailure { reason } => r matches Response::Text { status, text }
                && status == STATUS_INTERNAL_SERVER_ERROR && text@ == "Token Error: "@ + reason@,
            LoginAttempt::Granted { user, token } => r == (Response::Json {
                status: STATUS_OK,
                body: LoginResponse {
                    id: user.id,
                    username: user.username,
                    token,
                    created_at: user.created_at,
                    updated_at: user.updated_at,
                },
            }),
        },
{
    match attempt {
        LoginAttempt::NoSuchUser { reason } => failure(
            STATUS_INTERNAL_SERVER_ERROR,
            "DB Error: ",
            reason.as_str(),
        ),
        LoginAttempt::WrongPassword => Response::Text {
            status: STATUS_UNAUTHORIZED,
            text: String::from_str("Invalid username or password"),
        },
        LoginAttempt::TokenFailure { reason } => failure(
            STATUS_INTERNAL_SERVER_ERROR,
            "Token Error: ",
            reason.as_str(),
        ),
        LoginAttempt::Granted { user, token } => Response::Json {
            status: STATUS_OK,
            body: LoginResponse {
                id: user.id,
                username: user.username,
                token,
                created_at: user.created_at,
                updated_at: user.updated_at,
            },
        },
    }
}

/// The answer to a verification, given what decoding the token gave: the
/// user snapshot the token carries, or an error object with code 401 and the
/// decoder's complaint.
pub fn verify(decoded: Result<Claims, String>) -> (r: Result<
    CreateUserResponse,
    GenericServerError,
>)
    ensures
        match decoded {
            Ok(claims) => r == Ok::<CreateUserResponse, GenericServerError>(claims.user),
            Err(reason) => r == Err::<CreateUserResponse, GenericServerError>(
                GenericServerError { code: 401, message: reason },
            ),
        },
{
    match decoded {
        Ok(claims) => Ok(claims.user),
        Err(reason) => Err(GenericServerError { code: 401, message: reason }),
    }
}

/// The status that goes with the answer to a verification.
pub fn verify_status(answer: &Result<CreateUserResponse, GenericServerError>) -> (status: u16)
    ensures
        status == if answer is Ok {
            STATUS_OK
        } else {
            STATUS_UNAUTHORIZED
        },
{
    match answer {
        Ok(_) => STATUS_OK,
        Err(_) => STATUS_UNAUTHORIZED,
    }
}

} // verus!
