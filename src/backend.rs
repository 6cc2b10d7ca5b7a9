use vstd::prelude::*;
use crate::hasher::{bcrypt_verdict, verify_secret, HashingError};
use crate::store::{has_user_named, valid_users, UserStore};
use crate::user::{normalized, Credentials, User, UserView};

verus! {

/// The stored user whose username is `name` (meaningful when one exists).
pub open spec fn user_named(users: Seq<UserView>, name: Seq<char>) -> UserView {
    users[choose|i: int| 0 <= i < users.len() && #[trigger] users[i].username == name]
}

/// What authenticating `password` as the user stored under `name` yields:
/// `Some(None)` for no such user or a wrong password, `Some(Some(u))` on a match,
/// `None` when the stored hash cannot be read.
pub open spec fn authentication_of(users: Seq<UserView>, name: Seq<char>, password: Seq<char>) -> Option<
    Option<UserView>,
> {
    if !has_user_named(users, name) {
        Some(None)
    } else {
        let u = user_named(users, name);
        match bcrypt_verdict(password, u.pw_hash) {
            Some(true) => Some(Some(u)),
            Some(false) => Some(None),
            None => None,
        }
    }
}

/// In a valid store, the user found under a name is the one `user_named` picks.
pub proof fn lemma_user_named_unique(users: Seq<UserView>, i: int)
    requires
        valid_users(users),
        0 <= i < users.len(),
    ensures
        user_named(users, users[i].username) == users[i],
{
    let name = users[i].username;
    let j = choose|j: int| 0 <= j < users.len() && #[trigger] users[j].username == name;
    assert(users[j].username == name);
}

/// Checks credentials against the user store, and resolves session user ids.
pub struct AuthBackend {
    pub users: UserStore,
}

impl AuthBackend {
    pub open spec fn wf(&self) -> bool {
        self.users.wf()
    }

    /// The user that `creds` identify: `Ok(None)` alike for an unknown username and
    /// for a wrong password; an error only for a stored hash that cannot be read.
    pub fn authenticate(&self, creds: &Credentials) -> (r: Result<Option<User>, HashingError>)
        requires
            self.wf(),
        ensures
            match authentication_of(
                self.users@,
                normalized(creds.username@),
                creds.password@,
            ) {
                Some(None) => r matches Ok(None),
                Some(Some(v)) => r matches Ok(Some(u)) && u@ == v,
                None => r is Err,
            },
    {
        match self.users.find_by_username(creds.username.as_str()) {
            None => Ok(None),
            Some(user) => {
                proof {
                    let i = choose|i: int|
                        0 <= i < self.users@.len() && self.users@[i] == user@;
                    lemma_user_named_unique(self.users@, i);
                }
                match verify_secret(creds.password.as_str(), user.pw_hash.as_str()) {
                    Ok(true) => Ok(Some(user)),
                    Ok(false) => Ok(None),
                    Err(e) => Err(e),
                }
            },
        }
    }

    /// The user a session's id refers to, if it still exists.
    pub fn get_user(&self, user_id: i64) -> (r: Option<User>)
        requires
            self.wf(),
        ensures
            1 <= user_id <= self.users@.len() ==> (r matches Some(u) && u@ == self.users@[user_id
                - 1]),
            !(1 <= user_id <= self.users@.len()) ==> r is None,
    {
        self.users.find_by_id(user_id)
    }
}

} // verus!
