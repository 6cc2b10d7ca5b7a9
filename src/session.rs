use vstd::prelude::*;
use std::collections::HashMap;
use crate::user::{User, UserView};

verus! {

broadcast use vstd::std_specs::hash::group_hash_axioms;

/// A session as the contracts see it.
pub ghost struct SessionView {
    pub token: u128,
    pub user_id: i64,
    pub auth_hash: Seq<char>,
    pub expiry: u64,
}

/// A session: an unguessable token bound to a user id and to the user's
/// credential hash as it was when the session was made.
#[derive(Clone)]
pub struct Session {
    pub token: u128,
    pub user_id: i64,
    pub auth_hash: String,
    pub expiry: u64,
}

impl View for Session {
    type V = SessionView;

    open spec fn view(&self) -> SessionView {
        SessionView {
            token: self.token,
            user_id: self.user_id,
            auth_hash: self.auth_hash@,
            expiry: self.expiry,
        }
    }
}

impl Session {
    /// A copy of this session, field by field.
    pub fn snapshot(&self) -> (r: Session)
        ensures
            r@ == self@,
    {
        Session {
            token: self.token,
            user_id: self.user_id,
            auth_hash: self.auth_hash.clone(),
            expiry: self.expiry,
        }
    }
}

/// `now + ttl`, held at the largest timestamp.
pub open spec fn expiry_after(now: u64, ttl: u64) -> u64 {
    if now + ttl > u64::MAX {
        u64::MAX
    } else {
        (now + ttl) as u64
    }
}

/// The session that logging `user` in under `token` at `now` creates.
pub open spec fn fresh_session(token: u128, user: UserView, now: u64, ttl: u64) -> SessionView {
    SessionView { token, user_id: user.id, auth_hash: user.pw_hash, expiry: expiry_after(now, ttl) }
}

/// The session has not run out at `now`.
pub open spec fn unexpired(s: SessionView, now: u64) -> bool {
    now < s.expiry
}

/// The session still identifies `user`: it names the user's id, the user's
/// credential hash is the one snapshotted, and it has not expired.
pub open spec fn session_matches(s: SessionView, user: Option<UserView>, now: u64) -> bool {
    match user {
        Some(u) => u.id == s.user_id && u.pw_hash == s.auth_hash && unexpired(s, now),
        None => false,
    }
}

/// The session is stored under its own token.
pub open spec fn keyed_by_token(m: Map<u128, SessionView>) -> bool {
    forall|t: u128| #[trigger] m.contains_key(t) ==> m[t].token == t
}

/// A token was already in use when a session was to be stored under it.
#[derive(Debug, Clone, Copy, PartialEq, Eq)]
pub struct TokenCollision;

/// The session table, keyed by token. It is the single owner of sessions.
pub struct SessionStore {
    sessions: HashMap<u128, Session>,
    ttl: u64,
}

impl View for SessionStore {
    type V = Map<u128, SessionView>;

    closed spec fn view(&self) -> Map<u128, SessionView> {
        self.sessions@.map_values(|s: Session| s@)
    }
}

impl SessionStore {
    pub open spec fn wf(&self) -> bool {
        keyed_by_token(self@)
    }

    /// How long, from its creation, a session stays valid.
    pub closed spec fn spec_ttl(&self) -> u64 {
        self.ttl
    }

    /// An empty table whose sessions last `ttl` time units.
    pub fn new(ttl: u64) -> (r: SessionStore)
        ensures
            r.wf(),
            r@ == Map::<u128, SessionView>::empty(),
            r.spec_ttl() == ttl,
    {
        let r = SessionStore { sessions: HashMap::new(), ttl };
        assert(r@ =~= Map::<u128, SessionView>::empty());
        r
    }

    pub fn ttl(&self) -> (r: u64)
        ensures
            r == self.spec_ttl(),
    {
        self.ttl
    }

    /// Whether a session, live or not, is stored under `token`.
    pub fn contains(&self, token: u128) -> (r: bool)
        ensures
            r == self@.contains_key(token),
    {
        self.sessions.contains_key(&token)
    }

    /// Binds a new session under `token` to `user`, lasting `ttl` from `now`. A
    /// token in use is an error and leaves the table as it was.
    pub fn create(&mut self, token: u128, user: &User, now: u64) -> (r: Result<
        Session,
        TokenCollision,
    >)
        requires
            old(self).wf(),
        ensures
            final(self).wf(),
            final(self).spec_ttl() == old(self).spec_ttl(),
            old(self)@.contains_key(token) ==> r is Err && final(self)@ == old(self)@,
            !old(self)@.contains_key(token) ==> (r matches Ok(s) && s@ == fresh_session(
                token,
                user@,
                now,
                old(self).spec_ttl(),
            ) && final(self)@ == old(self)@.insert(token, s@)),
    {
        if self.sessions.contains_key(&token) {
            return Err(TokenCollision);
        }
        let expiry = if now > u64::MAX - self.ttl {
            u64::MAX
        } else {
            now + self.ttl
        };
        let s = Session {
            token,
            user_id: user.id,
            auth_hash: user.pw_hash.clone(),
            expiry,
        };
        let ghost before = self@;
        self.sessions.insert(token, s.snapshot());
        assert(self@ =~= before.insert(token, s@));
        Ok(s)
    }

    /// The session stored under `token`, unless there is none or it has expired.
    pub fn load(&self, token: u128, now: u64) -> (r: Option<Session>)
        requires
            self.wf(),
        ensures
            self@.contains_key(token) && unexpired(self@[token], now) ==> (r matches Some(s)
                && s@ == self@[token]),
            !(self@.contains_key(token) && unexpired(self@[token], now)) ==> r is None,
    {
        match self.sessions.get(&token) {
            Some(s) => {
                if now < s.expiry {
                    Some(s.snapshot())
                } else {
                    None
                }
            },
            None => None,
        }
    }

    /// Removes the session under `token`; removing an absent one does nothing.
    pub fn invalidate(&mut self, token: u128)
        requires
            old(self).wf(),
        ensures
            final(self).wf(),
            final(self).spec_ttl() == old(self).spec_ttl(),
            final(self)@ == old(self)@.remove(token),
    {
        let ghost before = self@;
        self.sessions.remove(&token);
        assert(self@ =~= before.remove(token));
    }
}

/// Whether `session` still identifies `current_user` at `now`.
pub fn validate(session: &Session, current_user: &Option<User>, now: u64) -> (r: bool)
    ensures
        r == session_matches(
            session@,
            match current_user {
                Some(u) => Some(u@),
                None => None,
            },
            now,
        ),
{
    match current_user {
        Some(u) => u.id == session.user_id && u.pw_hash == session.auth_hash && now
            < session.expiry,
        None => false,
    }
}

} // verus!
