use vstd::prelude::*;
use crate::flow::current_user_of;
use crate::session::{expiry_after, fresh_session, keyed_by_token, SessionView};
use crate::store::{has_user_named, new_row, rows_named, valid_users};
use crate::user::{normalized, UserView};

verus! {

/// With no user under `name`, no row carries it.
pub proof fn lemma_absent_name_has_no_rows(users: Seq<UserView>, name: Seq<char>)
    requires
        !has_user_named(users, name),
    ensures
        rows_named(users, name) == 0,
    decreases users.len(),
{
    if users.len() > 0 {
        let init = users.drop_last();
        assert forall|i: int| 0 <= i < init.len() implies #[trigger] init[i].username != name by {
            assert(init[i] == users[i]);
        }
        lemma_absent_name_has_no_rows(init, name);
        assert(users.last() == users[users.len() - 1]);
    }
}

/// A valid store never holds two rows under one username, however many
/// signups for it were attempted.
pub proof fn lemma_one_row_per_username(users: Seq<UserView>, name: Seq<char>)
    requires
        valid_users(users),
    ensures
        rows_named(users, name) <= 1,
    decreases users.len(),
{
    if users.len() > 0 {
        let n = users.len() - 1;
        let init = users.drop_last();
        assert(valid_users(init)) by {
            assert forall|i: int| 0 <= i < init.len() implies #[trigger] init[i].id == i + 1 by {
                assert(init[i] == users[i]);
            }
            assert forall|i: int, j: int|
                0 <= i < init.len() && 0 <= j < init.len() && i != j implies #[trigger] init[i].username
                != #[trigger] init[j].username by {
                assert(init[i] == users[i]);
                assert(init[j] == users[j]);
            }
        }
        lemma_one_row_per_username(init, name);
        if users[n].username == name {
            assert forall|i: int| 0 <= i < init.len() implies #[trigger] init[i].username
                != name by {
                assert(init[i] == users[i]);
                assert(users[i].username != users[n].username);
            }
            lemma_absent_name_has_no_rows(init, name);
        }
    }
}

/// After a signup adds the user for `username` and logs it in under `token`,
/// that session identifies exactly the new user, the name is held by one row,
/// and any spelling of the name that normalises alike is taken, so a second
/// signup with it is turned away.
pub proof fn lemma_signup_then_current_user(
    users: Seq<UserView>,
    sessions: Map<u128, SessionView>,
    username: Seq<char>,
    other: Seq<char>,
    pw_hash: Seq<char>,
    token: u128,
    now: u64,
    ttl: u64,
)
    requires
        valid_users(users),
        keyed_by_token(sessions),
        !has_user_named(users, normalized(username)),
        users.len() < i64::MAX,
        now < expiry_after(now, ttl),
    ensures
        ({
            let u = new_row(users, normalized(username), pw_hash);
            let users2 = users.push(u);
            let sessions2 = sessions.insert(token, fresh_session(token, u, now, ttl));
            &&& valid_users(users2)
            &&& current_user_of(users2, sessions2, Some(token), now) == Some(u)
            &&& rows_named(users2, normalized(username)) == 1
            &&& normalized(other) == normalized(username) ==> has_user_named(
                users2,
                normalized(other),
            )
        }),
{
    let name = normalized(username);
    let u = new_row(users, name, pw_hash);
    let users2 = users.push(u);
    assert(users2.drop_last() =~= users);
    assert(users2[users.len() as int] == u);
    lemma_absent_name_has_no_rows(users, name);
    assert(valid_users(users2)) by {
        assert forall|i: int| 0 <= i < users2.len() implies #[trigger] users2[i].id == i + 1 by {
            if i < users.len() {
                assert(users2[i] == users[i]);
            }
        }
        assert forall|i: int, j: int|
            0 <= i < users2.len() && 0 <= j < users2.len() && i != j implies #[trigger] users2[i].username
            != #[trigger] users2[j].username by {
            if i < users.len() {
                assert(users2[i] == users[i]);
            }
            if j < users.len() {
                assert(users2[j] == users[j]);
            }
        }
    }
    assert(users2[users.len() as int].username == name);
}

/// Once the session under `token` is removed it identifies no one, and
/// removing it again changes nothing.
pub proof fn lemma_logout_then_no_user(
    users: Seq<UserView>,
    sessions: Map<u128, SessionView>,
    token: u128,
    now: u64,
)
    ensures
        current_user_of(users, sessions.remove(token), Some(token), now) is None,
        sessions.remove(token).remove(token) == sessions.remove(token),
{
    assert(sessions.remove(token).remove(token) =~= sessions.remove(token));
}

} // verus!
