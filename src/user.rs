use vstd::prelude::*;

verus! {

/// What `str::trim` keeps of a string: the Unicode `White_Space` characters at both
/// ends are dropped.
pub uninterp spec fn trim_of(s: Seq<char>) -> Seq<char>;

/// What `str::to_lowercase` makes of a string: Unicode lower-case mapping.
pub uninterp spec fn lower_of(s: Seq<char>) -> Seq<char>;

/// Relies on `str::trim`: the result depends on the characters alone.
#[verifier::external_body]
fn trim_str(s: &str) -> (r: &str)
    ensures
        r@ == trim_of(s@),
{
    s.trim()
}

/// Relies on `str::to_lowercase`: the result depends on the characters alone.
#[verifier::external_body]
fn lowercase(s: &str) -> (r: String)
    ensures
        r@ == lower_of(s@),
{
    s.to_lowercase()
}

/// The form under which a username is stored and compared: trimmed, then lower-cased.
pub open spec fn normalized(name: Seq<char>) -> Seq<char> {
    lower_of(trim_of(name))
}

/// Trims and lower-cases a submitted username.
pub fn normalize_username(name: &str) -> (r: String)
    ensures
        r@ == normalized(name@),
{
    lowercase(trim_str(name))
}

/// A user as the contracts see it.
pub ghost struct UserView {
    pub id: i64,
    pub username: Seq<char>,
    pub pw_hash: Seq<char>,
}

/// A registered user. `pw_hash` is the bcrypt string of the password, which
/// embeds its salt and cost.
#[derive(Clone)]
pub struct User {
    pub id: i64,
    pub username: String,
    pub pw_hash: String,
}

impl View for User {
    type V = UserView;

    open spec fn view(&self) -> UserView {
        UserView { id: self.id, username: self.username@, pw_hash: self.pw_hash@ }
    }
}

impl User {
    /// The key under which sessions refer to this user.
    pub fn id(&self) -> (r: i64)
        ensures
            r == self.id,
    {
        self.id
    }

    /// The value a session snapshots to notice a change of credentials: the
    /// bytes of the stored hash.
    pub fn session_auth_hash(&self) -> (r: &[u8])
        ensures
            r@ == vstd::utf8::encode_utf8(self.pw_hash@),
    {
        self.pw_hash.as_str().as_bytes()
    }

    /// A copy of this user, field by field.
    pub fn snapshot(&self) -> (r: User)
        ensures
            r@ == self@,
    {
        User { id: self.id, username: self.username.clone(), pw_hash: self.pw_hash.clone() }
    }
}

/// A username and password as submitted; never stored.
#[derive(Clone)]
pub struct Credentials {
    pub username: String,
    pub password: String,
}

impl Credentials {
    pub fn new(username: String, password: String) -> (r: Credentials)
        ensures
            r.username@ == username@,
            r.password@ == password@,
    {
        Credentials { username, password }
    }
}

} // verus!
