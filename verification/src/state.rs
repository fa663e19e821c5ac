//! The push-to-talk state: idle, listening, or waiting for a result.
use vstd::prelude::*;

use crate::protocol::{fresh_session_id, is_v4, SessionId};

verus! {

/// Where push-to-talk stands.
#[derive(Clone, Debug, Copy, PartialEq, Eq, Structural)]
pub enum PttState {
    Idle,
    Listening { session_id: SessionId },
    WaitingResult { session_id: SessionId },
}

impl PttState {
    /// The session that is under way.
    pub open spec fn session(self) -> Option<SessionId> {
        match self {
            PttState::Idle => None,
            PttState::Listening { session_id } => Some(session_id),
            PttState::WaitingResult { session_id } => Some(session_id),
        }
    }

    /// Nothing is under way.
    pub fn new() -> (r: PttState)
        ensures
            r == PttState::Idle,
    {
        PttState::Idle
    }

    /// Starts to listen under the given identity, if nothing is under way.
    pub fn begin_listening_as(&mut self, session_id: SessionId) -> (r: Option<SessionId>)
        ensures
            *old(self) == PttState::Idle ==> r == Some(session_id) && *final(self)
                == (PttState::Listening { session_id }),
            *old(self) != PttState::Idle ==> r is None && *final(self) == *old(self),
    {
        match *self {
            PttState::Idle => {
                *self = PttState::Listening { session_id };
                Some(session_id)
            },
            _ => None,
        }
    }

    /// Starts to listen under a new identity, if nothing is under way.
    pub fn begin_listening(&mut self) -> (r: Option<SessionId>)
        ensures
            *old(self) == PttState::Idle ==> r is Some && is_v4(r->0.bits) && *final(self)
                == (PttState::Listening { session_id: r->0 }),
            *old(self) != PttState::Idle ==> r is None && *final(self) == *old(self),
    {
        let fresh = fresh_session_id();
        self.begin_listening_as(fresh)
    }

    /// Stops listening, if that is what is under way; the result is then waited for.
    pub fn stop_listening(&mut self) -> (r: Option<SessionId>)
        ensures
            match *old(self) {
                PttState::Listening { session_id } => r == Some(session_id) && *final(self)
                    == (PttState::WaitingResult { session_id }),
                _ => r is None && *final(self) == *old(self),
            },
    {
        match *self {
            PttState::Listening { session_id } => {
                *self = PttState::WaitingResult { session_id };
                Some(session_id)
            },
            _ => None,
        }
    }

    /// Gives up whatever is under way.
    pub fn reset(&mut self)
        ensures
            *final(self) == PttState::Idle,
    {
        *self = PttState::Idle;
    }
}

/// The session that is under way.
pub fn session_id_from_state(state: &PttState) -> (r: Option<SessionId>)
    ensures
        r == state.session(),
{
    match *state {
        PttState::Idle => None,
        PttState::Listening { session_id } => Some(session_id),
        PttState::WaitingResult { session_id } => Some(session_id),
    }
}

/// The name of a state in logs.
pub open spec fn state_text(state: PttState) -> Seq<char> {
    match state {
        PttState::Idle => "idle"@,
        PttState::Listening { .. } => "listening"@,
        PttState::WaitingResult { .. } => "waiting_result"@,
    }
}

/// The name of a state in logs.
pub fn state_label(state: &PttState) -> (r: &'static str)
    ensures
        r@ == state_text(*state),
{
    match state {
        PttState::Idle => "idle",
        PttState::Listening { .. } => "listening",
        PttState::WaitingResult { .. } => "waiting_result",
    }
}

/// The session under way is the one that listens or waits for its result; an idle client has
/// none. Each state has a name of its own.
pub proof fn law_states_name_their_session(state: PttState)
    ensures
        state == PttState::Idle <==> state.session() is None,
        state matches PttState::Listening { session_id } ==> state.session() == Some(session_id),
        state matches PttState::WaitingResult { session_id } ==> state.session() == Some(session_id),
        state_text(state) == "idle"@ <==> state is Idle,
        state_text(state) == "listening"@ <==> state is Listening,
        state_text(state) == "waiting_result"@ <==> state is WaitingResult,
{
    reveal_strlit("idle");
    reveal_strlit("listening");
    reveal_strlit("waiting_result");
    assert("idle"@.len() == 4 && "listening"@.len() == 9 && "waiting_result"@.len() == 14);
}

/// Listening starts under the given identity where nothing is under way, and changes nothing
/// where something is; it stops only where it is going on, and the result of the same session is
/// then waited for; giving up leaves nothing under way.
pub proof fn law_listening_starts_stops_and_ends(id: SessionId)
    ensures
        forall|s: &mut PttState, r: Option<SessionId>| #[trigger]
            call_ensures(PttState::begin_listening_as, (s, id), r) ==> if *s == PttState::Idle {
                r == Some(id) && *final(s) == (PttState::Listening { session_id: id })
            } else {
                r is None && *final(s) == *s
            },
        forall|s: &mut PttState, r: Option<SessionId>| #[trigger]
            call_ensures(PttState::stop_listening, (s,), r) ==> {
                &&& *s == (PttState::Listening { session_id: id }) ==> r == Some(id) && *final(s)
                    == (PttState::WaitingResult { session_id: id })
                &&& !(*s is Listening) ==> r is None && *final(s) == *s
            },
        forall|s: &mut PttState, r: ()| #[trigger]
            call_ensures(PttState::reset, (s,), r) ==> *final(s) == PttState::Idle,
{
}

} // verus!
