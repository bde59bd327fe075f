//! What goes into a token.

use crate::identity::models::{Claims, CreateUserResponse};
use vstd::prelude::*;
use vstd::string::StringExecFns;

verus! {

/// How long a token is valid: fifteen minutes, in seconds.
pub const TOKEN_LIFETIME_SECS: u64 = 900;

/// The claims of a token issued at `now` (seconds since the Unix epoch) for
/// the user `user`: the subject is `user_id`, the token is issued at `now`
/// and expires fifteen minutes later.
pub fn claims_at(user_id: &str, user: CreateUserResponse, now: u64) -> (claims: Claims)
    requires
        now + TOKEN_LIFETIME_SECS <= u64::MAX,
    ensures
        claims.sub@ == user_id@,
        claims.user == user,
        claims.iat == now,
        claims.exp == now + TOKEN_LIFETIME_SECS,
{
    Claims { sub: String::from_str(user_id), user, iat: now, exp: now + TOKEN_LIFETIME_SECS }
}

} // verus!
