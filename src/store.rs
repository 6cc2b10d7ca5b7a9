use vstd::prelude::*;
use crate::user::{normalize_username, normalized, User, UserView};

verus! {

/// Users with that stored username, counted.
pub open spec fn rows_named(users: Seq<UserView>, name: Seq<char>) -> nat
    decreases users.len(),
{
    if users.len() == 0 {
        0
    } else {
        rows_named(users.drop_last(), name) + if users.last().username == name {
            1nat
        } else {
            0nat
        }
    }
}

/// Some stored user has that username.
pub open spec fn has_user_named(users: Seq<UserView>, name: Seq<char>) -> bool {
    exists|i: int| 0 <= i < users.len() && #[trigger] users[i].username == name
}

/// The store's invariant: each id is the user's position counted from one, and no
/// two users share a username.
pub open spec fn valid_users(users: Seq<UserView>) -> bool {
    &&& forall|i: int| 0 <= i < users.len() ==> #[trigger] users[i].id == i + 1
    &&& forall|i: int, j: int|
        0 <= i < users.len() && 0 <= j < users.len() && i != j ==> #[trigger] users[i].username
            != #[trigger] users[j].username
}

/// The user that an insert of `name` with `pw_hash` adds to `users`.
pub open spec fn new_row(users: Seq<UserView>, name: Seq<char>, pw_hash: Seq<char>) -> UserView {
    UserView { id: (users.len() + 1) as i64, username: name, pw_hash }
}

/// The username is taken.
#[derive(Debug, Clone, Copy, PartialEq, Eq)]
pub struct UserExistsError;

/// The user table: the single owner of user records. Usernames are normalised
/// when written and when looked up, and are unique.
pub struct UserStore {
    rows: Vec<User>,
}

impl View for UserStore {
    type V = Seq<UserView>;

    closed spec fn view(&self) -> Seq<UserView> {
        self.rows@.map_values(|u: User| u@)
    }
}

impl UserStore {
    pub open spec fn wf(&self) -> bool {
        valid_users(self@)
    }

    /// An empty table.
    pub fn new() -> (r: UserStore)
        ensures
            r.wf(),
            r@ == Seq::<UserView>::empty(),
    {
        let r = UserStore { rows: Vec::new() };
        assert(r@ =~= Seq::<UserView>::empty());
        r
    }

    /// How many users are stored.
    pub fn len(&self) -> (r: usize)
        ensures
            r == self@.len(),
    {
        self.rows.len()
    }

    /// The position of the user stored under exactly `name`, if any.
    fn position_of(&self, name: &String) -> (r: Option<usize>)
        ensures
            match r {
                Some(i) => i < self@.len() && self@[i as int].username == name@,
                None => !has_user_named(self@, name@),
            },
    {
        let mut i: usize = 0;
        while i < self.rows.len()
            invariant
                i <= self.rows@.len(),
                self@ == self.rows@.map_values(|u: User| u@),
                forall|j: int| 0 <= j < i ==> self@[j].username != name@,
            decreases self.rows@.len() - i,
        {
            if self.rows[i].username == *name {
                return Some(i);
            }
            i = i + 1;
        }
        None
    }

    /// The user whose stored name is the normalised form of `name`.
    pub fn find_by_username(&self, name: &str) -> (r: Option<User>)
        requires
            self.wf(),
        ensures
            r is Some <==> has_user_named(self@, normalized(name@)),
            r matches Some(u) ==> self@.contains(u@) && u@.username == normalized(name@),
    {
        let key = normalize_username(name);
        match self.position_of(&key) {
            Some(i) => Some(self.rows[i].snapshot()),
            None => None,
        }
    }

    /// The user with that id, if it exists.
    pub fn find_by_id(&self, id: i64) -> (r: Option<User>)
        requires
            self.wf(),
        ensures
            1 <= id <= self@.len() ==> (r matches Some(u) && u@ == self@[id - 1]),
            !(1 <= id <= self@.len()) ==> r is None,
    {
        if id < 1 || id as u64 > self.rows.len() as u64 {
            return None;
        }
        let i = (id - 1) as usize;
        Some(self.rows[i].snapshot())
    }

    /// Stores a user under the normalised form of `username`, unless one is
    /// stored there already. The new user's id is one more than the number of
    /// users before.
    pub fn insert(&mut self, username: &str, pw_hash: String) -> (r: Result<User, UserExistsError>)
        requires
            old(self).wf(),
            old(self)@.len() < i64::MAX,
        ensures
            final(self).wf(),
            has_user_named(old(self)@, normalized(username@)) ==> r is Err && final(self)@ == old(
                self,
            )@,
            !has_user_named(old(self)@, normalized(username@)) ==> (r matches Ok(u) && u@
                == new_row(old(self)@, normalized(username@), pw_hash@) && final(self)@ == old(
                self,
            )@.push(u@)),
    {
        let key = normalize_username(username);
        if self.position_of(&key).is_some() {
            return Err(UserExistsError);
        }
        let n = self.rows.len() as u64;
        let id = (n + 1) as i64;
        let user = User { id, username: key, pw_hash };
        let ghost before = self@;
        self.rows.push(user.snapshot());
        assert(self@ =~= before.push(user@));
        Ok(user)
    }
}

} // verus!
