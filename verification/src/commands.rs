//! The supervisor's rules: at most one live session at a time.
//!
//! The supervisor keeps a slot for one session. Whether the session in the
//! slot has finished is a fact about the running task, so each command takes
//! it as an argument; it is read only where the slot is occupied. All three
//! commands are meant to run under the one lock that guards the slot.

use vstd::prelude::*;

verus! {

/// The slot for the one session that the supervisor may own.
#[derive(Debug)]
pub struct ConnectionState {
    occupied: bool,
}

impl ConnectionState {
    /// Whether a session is in the slot, finished or not.
    pub closed spec fn holds_session(&self) -> bool {
        self.occupied
    }

    /// An empty slot.
    pub fn new() -> (state: ConnectionState)
        ensures
            !state.holds_session(),
    {
        ConnectionState { occupied: false }
    }

    /// Whether a session is in the slot, finished or not.
    pub fn has_session(&self) -> (b: bool)
        ensures
            b == self.holds_session(),
    {
        self.occupied
    }
}

/// Whether a session is in the slot and still running.
pub open spec fn live(state: &ConnectionState, finished: bool) -> bool {
    state.holds_session() && !finished
}

/// Asks for a new session. While a live one is in the slot the request is
/// refused and nothing changes; otherwise the slot is taken for the session
/// that the caller starts next.
pub fn comment_connect(state: &mut ConnectionState, finished: bool) -> (r: Result<String, String>)
    ensures
        final(state).holds_session(),
        match r {
            Ok(text) => !live(old(state), finished) && text@ == "Connecting..."@,
            Err(text) => live(old(state), finished) && text@ == "Already connected"@,
        },
{
    if state.occupied && !finished {
        return Err("Already connected".to_owned());
    }
    state.occupied = true;
    Ok("Connecting...".to_owned())
}

/// Gives the slot up. With a session in the slot, finished or not, the slot
/// is emptied and the caller cancels that session; with none the request is
/// refused.
pub fn comment_disconnect(state: &mut ConnectionState) -> (r: Result<String, String>)
    ensures
        !final(state).holds_session(),
        match r {
            Ok(text) => old(state).holds_session() && text@ == "Disconnected"@,
            Err(text) => !old(state).holds_session() && text@ == "Not connected"@,
        },
{
    if state.occupied {
        state.occupied = false;
        Ok("Disconnected".to_owned())
    } else {
        Err("Not connected".to_owned())
    }
}

/// Whether a session exists and has not finished. Never fails.
pub fn comment_is_connected(state: &ConnectionState, finished: bool) -> (r: Result<bool, String>)
    ensures
        r matches Ok(connected) && connected == live(state, finished),
{
    Ok(state.occupied && !finished)
}

} // verus!
