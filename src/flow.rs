use vstd::prelude::*;
use crate::backend::{authentication_of, AuthBackend};
use crate::hasher::{bcrypt_verdict, hash_secret};
use crate::session::{fresh_session, session_matches, unexpired, validate, SessionStore, SessionView};
use crate::store::{has_user_named, new_row, UserStore};
use crate::user::{normalized, Credentials, User, UserView};

verus! {

/// Why a login or signup was turned down. Both are safe to show to the user.
#[derive(Debug, Clone, Copy, PartialEq, Eq, Structural)]
pub enum Rejection {
    /// No user with that name, or a wrong password: the two are not told apart.
    InvalidCredentials,
    UserAlreadyExists,
}

impl Rejection {
    /// The text shown to the user.
    pub fn message(&self) -> (r: &'static str)
        ensures
            *self == Rejection::InvalidCredentials ==> r@ == "Invalid login details"@,
            *self == Rejection::UserAlreadyExists ==> r@ == "User already exists"@,
    {
        match self {
            Rejection::InvalidCredentials => "Invalid login details",
            Rejection::UserAlreadyExists => "User already exists",
        }
    }
}

/// What a login or signup ends in.
pub enum AuthOutcome {
    Authenticated(User),
    Unauthenticated,
    Rejected(Rejection),
}

/// A failure that is not the user's doing.
#[derive(Debug, Clone, Copy, PartialEq, Eq, Structural)]
pub enum AuthError {
    /// The hashing library failed.
    Hashing,
    /// The token offered for a new session is already in use.
    TokenInUse,
}

/// The user, if any, that the session under `token` identifies at `now`: the
/// session exists and has not expired, its user id resolves, and that user's
/// hash is the one the session snapshotted.
pub open spec fn current_user_of(
    users: Seq<UserView>,
    sessions: Map<u128, SessionView>,
    token: Option<u128>,
    now: u64,
) -> Option<UserView> {
    match token {
        None => None,
        Some(t) => {
            if sessions.contains_key(t) && unexpired(sessions[t], now) && 1 <= sessions[t].user_id
                <= users.len() && session_matches(
                sessions[t],
                Some(users[sessions[t].user_id - 1]),
                now,
            ) {
                Some(users[sessions[t].user_id - 1])
            } else {
                None
            }
        },
    }
}

/// The view of an optional user.
pub open spec fn user_view_of(u: Option<User>) -> Option<UserView> {
    match u {
        Some(u) => Some(u@),
        None => None,
    }
}

/// The outcome is `Authenticated` with exactly this user.
pub open spec fn authenticated_as(r: Result<AuthOutcome, AuthError>, u: UserView) -> bool {
    r matches Ok(AuthOutcome::Authenticated(v)) && v@ == u
}

/// The login / signup / logout protocol over a user store and a session store.
pub struct AuthService {
    pub backend: AuthBackend,
    pub sessions: SessionStore,
}

impl AuthService {
    pub open spec fn wf(&self) -> bool {
        self.backend.wf() && self.sessions.wf()
    }

    pub open spec fn users(&self) -> Seq<UserView> {
        self.backend.users@
    }

    /// No users, no sessions; sessions will last `session_ttl`.
    pub fn new(session_ttl: u64) -> (r: AuthService)
        ensures
            r.wf(),
            r.users() == Seq::<UserView>::empty(),
            r.sessions@ == Map::<u128, SessionView>::empty(),
            r.sessions.spec_ttl() == session_ttl,
    {
        AuthService {
            backend: AuthBackend { users: UserStore::new() },
            sessions: SessionStore::new(session_ttl),
        }
    }

    /// The user identified by the session under `token`, if it is still valid.
    pub fn current_user(&self, token: Option<u128>, now: u64) -> (r: Option<User>)
        requires
            self.wf(),
        ensures
            user_view_of(r) == current_user_of(self.users(), self.sessions@, token, now),
    {
        let t = match token {
            Some(t) => t,
            None => return None,
        };
        let session = match self.sessions.load(t, now) {
            Some(s) => s,
            None => return None,
        };
        let user = self.backend.get_user(session.user_id);
        if validate(&session, &user, now) {
            user
        } else {
            None
        }
    }

    /// Logs in with `creds`, storing a new session under `new_token` on success.
    /// A caller whose session is still valid stays as it is, and no password is
    /// checked.
    pub fn login(&mut self, token: Option<u128>, creds: &Credentials, new_token: u128, now: u64) -> (r:
        Result<AuthOutcome, AuthError>)
        requires
            old(self).wf(),
        ensures
            final(self).wf(),
            final(self).users() == old(self).users(),
            final(self).sessions.spec_ttl() == old(self).sessions.spec_ttl(),
            ({
                let users = old(self).users();
                let sessions = old(self).sessions@;
                match current_user_of(users, sessions, token, now) {
                    Some(u) => authenticated_as(r, u) && final(self).sessions@ == sessions,
                    None => match authentication_of(
                        users,
                        normalized(creds.username@),
                        creds.password@,
                    ) {
                        None => r == Err::<AuthOutcome, AuthError>(AuthError::Hashing)
                            && final(self).sessions@ == sessions,
                        Some(None) => r matches Ok(
                            AuthOutcome::Rejected(Rejection::InvalidCredentials),
                        ) && final(self).sessions@ == sessions,
                        Some(Some(u)) => if sessions.contains_key(new_token) {
                            r == Err::<AuthOutcome, AuthError>(AuthError::TokenInUse)
                                && final(self).sessions@ == sessions
                        } else {
                            authenticated_as(r, u) && final(self).sessions@ == sessions.insert(
                                new_token,
                                fresh_session(new_token, u, now, old(self).sessions.spec_ttl()),
                            )
                        },
                    },
                }
            }),
    {
        if let Some(u) = self.current_user(token, now) {
            return Ok(AuthOutcome::Authenticated(u));
        }
        let user = match self.backend.authenticate(creds) {
            Ok(Some(u)) => u,
            Ok(None) => return Ok(AuthOutcome::Rejected(Rejection::InvalidCredentials)),
            Err(_) => return Err(AuthError::Hashing),
        };
        match self.sessions.create(new_token, &user, now) {
            Ok(_) => Ok(AuthOutcome::Authenticated(user)),
            Err(_) => Err(AuthError::TokenInUse),
        }
    }

    /// Registers `creds` under the normalised username and logs the new user in
    /// under `new_token`. A caller whose session is still valid stays as it is.
    pub fn signup(&mut self, token: Option<u128>, creds: &Credentials, new_token: u128, now: u64) -> (r:
        Result<AuthOutcome, AuthError>)
        requires
            old(self).wf(),
            old(self).users().len() < i64::MAX,
        ensures
            final(self).wf(),
            final(self).sessions.spec_ttl() == old(self).sessions.spec_ttl(),
            ({
                let users = old(self).users();
                let sessions = old(self).sessions@;
                let name = normalized(creds.username@);
                let unchanged = final(self).users() == users && final(self).sessions@ == sessions;
                match current_user_of(users, sessions, token, now) {
                    Some(u) => authenticated_as(r, u) && unchanged,
                    None => if has_user_named(users, name) {
                        r matches Ok(AuthOutcome::Rejected(Rejection::UserAlreadyExists))
                            && unchanged
                    } else if sessions.contains_key(new_token) {
                        r == Err::<AuthOutcome, AuthError>(AuthError::TokenInUse) && unchanged
                    } else {
                        (r == Err::<AuthOutcome, AuthError>(AuthError::Hashing) && unchanged) || (
                        r matches Ok(AuthOutcome::Authenticated(u)) && u@ == new_row(
                            users,
                            name,
                            u.pw_hash@,
                        ) && bcrypt_verdict(creds.password@, u.pw_hash@) == Some(true)
                            && final(self).users() == users.push(u@) && final(self).sessions@
                            == sessions.insert(
                            new_token,
                            fresh_session(new_token, u@, now, old(self).sessions.spec_ttl()),
                        ))
                    },
                }
            }),
    {
        if let Some(u) = self.current_user(token, now) {
            return Ok(AuthOutcome::Authenticated(u));
        }
        if self.backend.users.find_by_username(creds.username.as_str()).is_some() {
            return Ok(AuthOutcome::Rejected(Rejection::UserAlreadyExists));
        }
        if self.sessions.contains(new_token) {
            return Err(AuthError::TokenInUse);
        }
        let pw_hash = match hash_secret(creds.password.as_str()) {
            Ok(h) => h,
            Err(_) => return Err(AuthError::Hashing),
        };
        let user = match self.backend.users.insert(creds.username.as_str(), pw_hash) {
            Ok(u) => u,
            Err(_) => return Ok(AuthOutcome::Rejected(Rejection::UserAlreadyExists)),
        };
        match self.sessions.create(new_token, &user, now) {
            Ok(_) => Ok(AuthOutcome::Authenticated(user)),
            Err(_) => Err(AuthError::TokenInUse),
        }
    }

    /// Ends the session under `token`, if there is one; ending an absent session
    /// is no error.
    pub fn logout(&mut self, token: Option<u128>)
        requires
            old(self).wf(),
        ensures
            final(self).wf(),
            final(self).users() == old(self).users(),
            final(self).sessions.spec_ttl() == old(self).sessions.spec_ttl(),
            final(self).sessions@ == match token {
                Some(t) => old(self).sessions@.remove(t),
                None => old(self).sessions@,
            },
    {
        if let Some(t) = token {
            self.sessions.invalidate(t);
        }
    }
}

} // verus!
