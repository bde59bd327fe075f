//! `authenticate`: binding a connection to the user named by a token.

use crate::ids::{id_text, uuid_text};
use crate::protocol::Claims;
use crate::state::RouterState;
use crate::token::{claims_from_json, token_user, verified_payload};
use vstd::prelude::*;

verus! {

broadcast use vstd::std_specs::hash::group_hash_axioms;

/// Why a connection was not authenticated.
#[derive(Debug, Clone, Copy, PartialEq, Eq, Structural)]
pub enum AuthenticateError {
    /// The token failed the signature or expiry check, or lacks the claims.
    InvalidToken,
    /// The connection already has a session.
    AlreadyAuthenticated,
}

/// Finishes `authenticate` once the token has been checked: `claims` holds
/// what the token carried, or `None` if it failed the check.
///
/// A connection that has a session keeps it, whatever the token says.
/// Otherwise valid claims bind the connection to the user they name, whose
/// identifier is returned as text.
pub fn authenticate_with(
    router_state: &mut RouterState,
    client_id: u64,
    claims: Option<Claims>,
) -> (r: Result<String, AuthenticateError>)
    ensures
        old(router_state)@.sessions.contains_key(client_id) ==> r == Err::<
            String,
            AuthenticateError,
        >(AuthenticateError::AlreadyAuthenticated) && *final(router_state) == *old(router_state),
        !old(router_state)@.sessions.contains_key(client_id) ==> match claims {
            None => r == Err::<String, AuthenticateError>(AuthenticateError::InvalidToken)
                && *final(router_state) == *old(router_state),
            Some(claims) => r is Ok && r.unwrap()@ == uuid_text(claims@.user.id)
                && final(router_state)@ == old(router_state)@.bind(client_id, claims@.user.id),
        },
{
    if router_state.connection_to_user.contains_key(&client_id) {
        return Err(AuthenticateError::AlreadyAuthenticated);
    }
    match claims {
        None => Err(AuthenticateError::InvalidToken),
        Some(claims) => {
            router_state.connection_to_user.insert(client_id, claims.user.id);
            assert(final(router_state)@ =~= old(router_state)@.bind(client_id, claims@.user.id));
            Ok(id_text(claims.user.id))
        },
    }
}

/// Handles `authenticate` for the connection `client_id`.
///
/// A connection that already has a session is refused with
/// `AlreadyAuthenticated` and keeps its binding; the token is not looked at.
/// Otherwise the token is checked against the decoding key of the router: if
/// its signature or expiry is bad, or its payload lacks the claims, the
/// answer is `InvalidToken` and nothing changes; if it is good, the
/// connection is bound to the user named in the claims of its payload, whose
/// identifier is returned as text.  A token that names no user never
/// succeeds.
pub fn handle_authenticate_command(
    router_state: &mut RouterState,
    client_id: u64,
    token: &str,
) -> (r: Result<String, AuthenticateError>)
    ensures
        old(router_state)@.sessions.contains_key(client_id) ==> r == Err::<
            String,
            AuthenticateError,
        >(AuthenticateError::AlreadyAuthenticated) && *final(router_state) == *old(router_state),
        !old(router_state)@.sessions.contains_key(client_id) ==> match r {
            Err(e) => e == AuthenticateError::InvalidToken && *final(router_state) == *old(
                router_state
            ),
            Ok(text) => token_user(token@) is Some && text@ == uuid_text(
                token_user(token@).unwrap(),
            ) && final(router_state)@ == old(router_state)@.bind(
                client_id,
                token_user(token@).unwrap(),
            ),
        },
{
    if router_state.connection_to_user.contains_key(&client_id) {
        return Err(AuthenticateError::AlreadyAuthenticated);
    }
    let claims = match verified_payload(token, &router_state.decoding_key) {
        Some(payload) => claims_from_json(&payload),
        None => None,
    };
    authenticate_with(router_state, client_id, claims)
}

} // verus!
