//! The connection lifecycle: the phases a duplex connection goes through
//! from upgrade to teardown, the rule that refuses a second simultaneous
//! connection for a user who is already online, and the extraction of the
//! session token from the connection's raw query string.

use vstd::prelude::*;
use vstd::string::StrSliceExecFns;
use crate::state::{queue_without, State};

verus! {

/// What the token looks like in the raw query string: the text between the
/// first `=` and the next `=` or the end. A query without `=` carries no
/// token.
pub open spec fn token_of(q: Seq<char>) -> Option<Seq<char>> {
    match q.index_of_first('=') {
        None => None,
        Some(i) => {
            let rest = q.skip(i + 1);
            match rest.index_of_first('=') {
                None => Some(rest),
                Some(j) => Some(rest.take(j)),
            }
        },
    }
}

/// The index of the first `=` at or after `from`, if any.
fn find_eq(s: &String, from: usize) -> (r: Option<usize>)
    requires
        from <= s@.len(),
    ensures
        match r {
            Some(k) => {
                &&& from <= k < s@.len()
                &&& s@[k as int] == '='
                &&& forall|j: int| from <= j < k ==> s@[j] != '='
            },
            None => forall|j: int| from <= j < s@.len() ==> s@[j] != '=',
        },
{
    let st = s.as_str();
    let n = st.unicode_len();
    let mut i: usize = from;
    while i < n
        invariant
            from <= i <= n,
            n == s@.len(),
            st@ == s@,
            forall|j: int| from <= j < i ==> s@[j] != '=',
        decreases n - i,
    {
        if st.get_char(i) == '=' {
            return Some(i);
        }
        i += 1;
    }
    None
}

/// Pulls the session token out of the raw query string of the upgrade
/// request: the text between the first `=` and the next `=` or the end.
/// No query, or a query without `=`, carries no token.
pub fn token_from_query(query: Option<String>) -> (r: Option<String>)
    ensures
        match query {
            None => r is None,
            Some(q) => match token_of(q@) {
                None => r is None,
                Some(t) => r matches Some(s) && s@ == t,
            },
        },
{
    let q = match query {
        Some(q) => q,
        None => {
            return None;
        },
    };
    let k1 = match find_eq(&q, 0) {
        Some(k1) => k1,
        None => {
            proof {
                q@.index_of_first_ensures('=');
                if q@.contains('=') {
                    let w = choose|w: int| 0 <= w < q@.len() && q@[w] == '=';
                    assert(q@[w] != '=');
                }
            }
            return None;
        },
    };
    proof {
        q@.index_of_first_ensures('=');
        assert(q@.contains('=')) by {
            assert(q@[k1 as int] == '=');
        };
        let i = q@.index_of_first('=').unwrap();
        assert(i == k1) by {
            if i < k1 {
                assert(q@[i] != '=');
            }
            if k1 < i {
                assert(q@[k1 as int] != '=');
            }
        };
    }
    let ghost rest = q@.skip(k1 + 1);
    let st = q.as_str();
    let n = st.unicode_len();
    match find_eq(&q, k1 + 1) {
        None => {
            let token = st.substring_char(k1 + 1, n).to_owned();
            proof {
                rest.index_of_first_ensures('=');
                if rest.contains('=') {
                    let w = choose|w: int| 0 <= w < rest.len() && rest[w] == '=';
                    assert(q@[k1 + 1 + w] == '=');
                }
                assert(token@ =~= rest);
            }
            Some(token)
        },
        Some(k2) => {
            let token = st.substring_char(k1 + 1, k2).to_owned();
            proof {
                rest.index_of_first_ensures('=');
                assert(rest.contains('=')) by {
                    assert(rest[k2 - (k1 + 1)] == q@[k2 as int]);
                };
                let j = rest.index_of_first('=').unwrap();
                assert(j == k2 - (k1 + 1)) by {
                    if j < k2 - (k1 + 1) {
                        assert(q@[k1 + 1 + j] == rest[j]);
                    }
                    if k2 - (k1 + 1) < j {
                        assert(rest[k2 - (k1 + 1)] != '=');
                    }
                };
                assert(token@ =~= rest.take(j));
            }
            Some(token)
        },
    }
}

/// The phases of one duplex connection, from protocol upgrade to teardown.
#[derive(Clone, Copy, PartialEq, Eq, Debug)]
pub enum SessionPhase {
    Connecting,
    Authenticating,
    Online,
    Active,
    Offline,
    Closed,
}

/// Why a connection was refused during authentication; each carries one
/// diagnostic message to the peer before the connection closes.
#[derive(Clone, Copy, PartialEq, Eq, Debug)]
pub enum AuthError {
    /// No credential was presented, or it resolved to no user.
    TokenRequired,
    /// The user already has a live connection; simultaneous connections
    /// are refused, never silently multiplexed.
    AlreadyOnline,
}

/// One connection's lifecycle state: its phase, and the authenticated
/// user once there is one.
pub struct Session {
    phase: SessionPhase,
    user: Option<String>,
}

impl Session {
    /// The phase the connection is in.
    pub closed spec fn phase(&self) -> SessionPhase {
        self.phase
    }

    /// The authenticated user's identifier, once authentication has
    /// succeeded.
    pub closed spec fn user_id(&self) -> Option<Seq<char>> {
        match self.user {
            Some(ref u) => Some(u@),
            None => None,
        }
    }

    /// From `Online` on, the session knows whose connection it is.
    pub closed spec fn wf(&self) -> bool {
        (self.phase is Online || self.phase is Active || self.phase is Offline)
            ==> self.user_id() is Some
    }

    /// A connection that has just been accepted.
    pub fn new() -> (s: Session)
        ensures
            s.wf(),
            s.phase() is Connecting,
            s.user_id() is None,
    {
        Session { phase: SessionPhase::Connecting, user: None }
    }

    /// The protocol upgrade finished; authentication comes next. No side
    /// effects.
    pub fn upgrade_complete(&mut self)
        requires
            old(self).phase() is Connecting,
            old(self).wf(),
        ensures
            final(self).wf(),
            final(self).phase() is Authenticating,
            final(self).user_id() == old(self).user_id(),
    {
        self.phase = SessionPhase::Authenticating;
    }

    /// The credential has been resolved against the durable store;
    /// `resolved` is the user it named, if any. No user closes the
    /// connection with `TokenRequired`. A user who is already online
    /// closes it with `AlreadyOnline` — the session never becomes active
    /// and the registry keeps its single entry for that user. Otherwise
    /// the user is marked online and the session proceeds.
    pub fn authenticate(&mut self, st: &mut State, resolved: Option<String>) -> (err: Option<
        AuthError,
    >)
        requires
            old(self).phase() is Authenticating,
            old(st).wf(),
        ensures
            final(self).wf(),
            final(st).wf(),
            final(st).queue() == old(st).queue(),
            final(st).typing() == old(st).typing(),
            match resolved {
                None => {
                    &&& err == Some(AuthError::TokenRequired)
                    &&& final(self).phase() is Closed
                    &&& final(st).online_ids() == old(st).online_ids()
                },
                Some(u) => {
                    if old(st).online_ids().contains(u@) {
                        &&& err == Some(AuthError::AlreadyOnline)
                        &&& final(self).phase() is Closed
                        &&& final(st).online_ids() == old(st).online_ids()
                    } else {
                        &&& err is None
                        &&& final(self).phase() is Online
                        &&& final(self).user_id() == Some(u@)
                        &&& final(st).online_ids() == old(st).online_ids().push(u@)
                    }
                },
            },
    {
        match resolved {
            None => {
                self.phase = SessionPhase::Closed;
                Some(AuthError::TokenRequired)
            },
            Some(u) => {
                if st.user_online(u.clone()) {
                    self.user = Some(u);
                    self.phase = SessionPhase::Online;
                    None
                } else {
                    self.phase = SessionPhase::Closed;
                    Some(AuthError::AlreadyOnline)
                }
            },
        }
    }

    /// The one-time `Establish` handshake has been sent; the connection
    /// enters its active phase, with the inbound action loop and the
    /// outbound delivery loop running.
    pub fn activate(&mut self)
        requires
            old(self).phase() is Online,
            old(self).wf(),
        ensures
            final(self).wf(),
            final(self).phase() is Active,
            final(self).user_id() == old(self).user_id(),
    {
        self.phase = SessionPhase::Active;
    }

    /// The transport closed or failed: the user goes offline. The user is
    /// removed from the presence registry and from every pending event's
    /// target set, dead events are collected, and the typing-status entry
    /// is cleared.
    pub fn disconnect(&mut self, st: &mut State)
        requires
            old(self).phase() is Active,
            old(self).wf(),
            old(st).wf(),
        ensures
            final(self).wf(),
            final(self).phase() is Offline,
            final(self).user_id() == old(self).user_id(),
            final(st).wf(),
            old(self).user_id() matches Some(u) ==> {
                &&& final(st).online_ids() == old(st).online_ids().remove_value(u)
                &&& !final(st).online_ids().contains(u)
                &&& final(st).queue() == queue_without(old(st).queue(), u)
                &&& forall|i: int|
                    0 <= i < final(st).queue().len() ==> !(#[trigger] final(st).queue()[i]).targets.contains(u)
                &&& final(st).typing() == old(st).typing().remove(u)
            },
    {
        match &self.user {
            Some(u) => {
                st.user_offline(u);
            },
            None => {},
        }
        self.phase = SessionPhase::Offline;
    }

    /// The connection handles are released; nothing more is written.
    pub fn close(&mut self)
        requires
            old(self).phase() is Offline,
            old(self).wf(),
        ensures
            final(self).wf(),
            final(self).phase() is Closed,
            final(self).user_id() == old(self).user_id(),
    {
        self.phase = SessionPhase::Closed;
    }

    /// The phase, for callers outside the proof.
    pub fn current_phase(&self) -> (p: SessionPhase)
        ensures
            p == self.phase(),
    {
        self.phase
    }
}

} // verus!
