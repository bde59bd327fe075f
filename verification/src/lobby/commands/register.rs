//! `register`: taking a name.

use crate::lobby::state::{LobbyView, RouterState};
use vstd::prelude::*;
use vstd::utf8::encode_utf8;

verus! {

broadcast use {vstd::std_specs::hash::group_hash_axioms, vstd::slice::group_slice_axioms};

/// Why a name was not given to a client.
#[derive(Debug, Clone, Copy, PartialEq, Eq, Structural)]
pub enum RegisterError {
    /// Another client has the name.
    UsernameTaken,
    /// The client has a name already.
    AlreadyRegistered,
    /// The name is shorter than 3 or longer than 24 bytes.
    InvalidName,
}

/// The shortest name, in bytes.
pub const MIN_NAME_LEN: usize = 3;

/// The longest name, in bytes.
pub const MAX_NAME_LEN: usize = 24;

/// A name is valid if its UTF-8 form takes 3 to 24 bytes.
pub open spec fn valid_name(name: Seq<char>) -> bool {
    MIN_NAME_LEN <= encode_utf8(name).len() <= MAX_NAME_LEN
}

/// The verdict on `register`: the first check that fails, if any.
pub open spec fn register_check(state: LobbyView, client_id: u64, name: Seq<char>) -> Result<
    (),
    RegisterError,
> {
    if !valid_name(name) {
        Err(RegisterError::InvalidName)
    } else if state.names.contains_key(client_id) {
        Err(RegisterError::AlreadyRegistered)
    } else if state.taken.contains_key(name) {
        Err(RegisterError::UsernameTaken)
    } else {
        Ok(())
    }
}

/// Whether `name` is a valid name.
pub fn name_is_valid(name: &str) -> (r: bool)
    ensures
        r == valid_name(name@),
{
    let length = name.as_bytes().len();
    MIN_NAME_LEN <= length && length <= MAX_NAME_LEN
}

/// Handles `register` for the client `client_id`.
///
/// The name must be valid, the client must not have a name yet, and nobody
/// else may have the name; the checks are made in this order.  If they
/// pass, the client is registered under the name; otherwise the state is
/// left as it was.
pub fn handle_register_command(router_state: &mut RouterState, client_id: u64, name: &String) -> (r:
    Result<(), RegisterError>)
    ensures
        r == register_check(old(router_state)@, client_id, name@),
        r is Ok ==> final(router_state)@ == old(router_state)@.name(client_id, name@),
        r is Err ==> *final(router_state) == *old(router_state),
{
    if !name_is_valid(name.as_str()) {
        return Err(RegisterError::InvalidName);
    }
    if router_state.client_names.contains_key(&client_id) {
        return Err(RegisterError::AlreadyRegistered);
    }
    if router_state.client_rev_lookup.contains_key(name.as_str()) {
        return Err(RegisterError::UsernameTaken);
    }
    router_state.client_names.insert(client_id, name.clone());
    router_state.client_rev_lookup.insert(name.clone(), client_id);
    assert(final(router_state)@ =~= old(router_state)@.name(client_id, name@));
    Ok(())
}

} // verus!
