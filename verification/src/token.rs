//! Bearer tokens.
//!
//! A token is a JSON Web Token signed by the identity provider with a shared
//! secret.  The `jsonwebtoken` crate checks the signature and the expiry and
//! hands back the payload as a JSON value; this module reads the claims out
//! of it.  The payload is an object of the form
//! `{sub, user: {id, username, created_at, updated_at}, iat, exp}`.

use crate::json::{
    json_member,
    json_text,
    json_timestamp,
    json_unsigned,
    json_uuid,
    member,
    read_text,
    read_timestamp,
    read_unsigned,
    read_uuid,
};
use crate::protocol::{Claims, ClaimsView, UserInfo, UserInfoView};
use jsonwebtoken::DecodingKey;
use serde_json::Value;
use vstd::prelude::*;

verus! {

/// `jsonwebtoken::DecodingKey`: the secret that tokens are checked against.
/// Opaque.
#[verifier::external_type_specification]
#[verifier::external_body]
pub struct ExDecodingKey(DecodingKey);

/// The payload that `jsonwebtoken::decode` reads out of `token` where it
/// accepts the token: the JSON value that the middle part of the token
/// encodes.
pub uninterp spec fn token_payload(token: Seq<char>) -> Option<Value>;

/// Checks a token with `jsonwebtoken::decode` under the default validation
/// (HS256 signature, required and unexpired `exp`) and returns its payload.
/// Trusted: whether the token passes depends on the key and on the clock,
/// and nothing is promised of it; the payload of a token that passes is what
/// the token itself encodes.
#[verifier::external_body]
pub(crate) fn verified_payload(token: &str, key: &DecodingKey) -> (payload: Option<Value>)
    ensures
        payload is Some ==> token_payload(token@) == payload,
{
    match jsonwebtoken::decode::<Value>(token, key, &jsonwebtoken::Validation::default()) {
        Ok(data) => Some(data.claims),
        Err(_) => None,
    }
}

/// The user snapshot held by the JSON object `value`, if it is one.
pub open spec fn user_info_of(value: Value) -> Option<UserInfoView> {
    match (
        json_member(value, "id"@),
        json_member(value, "username"@),
        json_member(value, "created_at"@),
        json_member(value, "updated_at"@),
    ) {
        (Some(id), Some(username), Some(created_at), Some(updated_at)) => match (
            json_uuid(id),
            json_text(username),
            json_timestamp(created_at),
            json_timestamp(updated_at),
        ) {
            (Some(id), Some(username), Some(created_at), Some(updated_at)) => Some(
                UserInfoView { id, username, created_at, updated_at },
            ),
            _ => None,
        },
        _ => None,
    }
}

/// The claims held by the JSON object `value`, if it has them all.
pub open spec fn claims_of(value: Value) -> Option<ClaimsView> {
    match (
        json_member(value, "sub"@),
        json_member(value, "user"@),
        json_member(value, "exp"@),
        json_member(value, "iat"@),
    ) {
        (Some(sub), Some(user), Some(exp), Some(iat)) => match (
            json_text(sub),
            user_info_of(user),
            json_unsigned(exp),
            json_unsigned(iat),
        ) {
            (Some(sub), Some(user), Some(exp), Some(iat)) => Some(
                ClaimsView { sub, user, exp, iat },
            ),
            _ => None,
        },
        _ => None,
    }
}

/// Reads a user snapshot out of a JSON object.
///
/// The object must have a member `id` that reads as a UUID, a member
/// `username` that reads as a string, and members `created_at` and
/// `updated_at` that read as Unix timestamps.  Other members are ignored.
pub fn user_info_from_json(value: &Value) -> (r: Option<UserInfo>)
    ensures
        match r {
            Some(user) => user_info_of(*value) == Some(user@),
            None => user_info_of(*value) is None,
        },
{
    let id = match member(value, "id") {
        Some(m) => read_uuid(m),
        None => { return None; },
    };
    let username = match member(value, "username") {
        Some(m) => read_text(m),
        None => { return None; },
    };
    let created_at = match member(value, "created_at") {
        Some(m) => read_timestamp(m),
        None => { return None; },
    };
    let updated_at = match member(value, "updated_at") {
        Some(m) => read_timestamp(m),
        None => { return None; },
    };
    match (id, username, created_at, updated_at) {
        (Some(id), Some(username), Some(created_at), Some(updated_at)) => Some(
            UserInfo { id, username, created_at, updated_at },
        ),
        _ => None,
    }
}

/// Reads the claims out of the payload of a token.
///
/// The payload must be an object with a string `sub`, a user snapshot `user`
/// and unsigned integers `exp` and `iat`.  Other members are ignored.
pub fn claims_from_json(value: &Value) -> (r: Option<Claims>)
    ensures
        match r {
            Some(claims) => claims_of(*value) == Some(claims@),
            None => claims_of(*value) is None,
        },
{
    let sub = match member(value, "sub") {
        Some(m) => read_text(m),
        None => { return None; },
    };
    let user = match member(value, "user") {
        Some(m) => user_info_from_json(m),
        None => { return None; },
    };
    let exp = match member(value, "exp") {
        Some(m) => read_unsigned(m),
        None => { return None; },
    };
    let iat = match member(value, "iat") {
        Some(m) => read_unsigned(m),
        None => { return None; },
    };
    match (sub, user, exp, iat) {
        (Some(sub), Some(user), Some(exp), Some(iat)) => Some(Claims { sub, user, exp, iat }),
        _ => None,
    }
}

/// The user that the claims of `token` name, if the token carries a payload
/// with all the claims.
pub open spec fn token_user(token: Seq<char>) -> Option<u128> {
    match token_payload(token) {
        Some(payload) => match claims_of(payload) {
            Some(claims) => Some(claims.user.id),
            None => None,
        },
        None => None,
    }
}

} // verus!
