//! The directory's laws: how its operations compose across calls. Each proof
//! function states one guarantee over the specification-level transition
//! relations that the executable operations are proved against.

use crate::directory::{
    add_result, add_state, auth_outcome, db_wf, del_state, find_token, find_token_from, find_user,
    find_user_from, lemma_find_token_none, lemma_find_user_some, lemma_remove_wf,
    lemma_set_token_wf, logout_result, logout_state, set_token, token_owner, unique_names,
    unique_tokens, user_token, UserRec,
};
use vstd::prelude::*;

verus! {

/// If no record at or after `i` matches the name, the scan from `i` fails.
proof fn lemma_no_match_finds_none(s: Seq<UserRec>, name: Seq<char>, i: nat)
    requires
        i <= s.len(),
        forall|j: int| i <= j < s.len() ==> #[trigger] s[j].name != name,
    ensures
        find_user_from(s, name, i) is None,
    decreases s.len() - i,
{
    if i < s.len() {
        lemma_no_match_finds_none(s, name, i + 1);
    }
}

/// Appending a record named `name` to a directory without one makes it the
/// record that `find_user` returns.
proof fn lemma_find_user_push(s: Seq<UserRec>, r: UserRec, name: Seq<char>, i: nat)
    requires
        i <= s.len(),
        find_user_from(s, name, i) is None,
        r.name == name,
    ensures
        find_user_from(s.push(r), name, i) == Some(s.len() as int),
    decreases s.len() - i,
{
    if i < s.len() {
        assert(s.push(r)[i as int] == s[i as int]);
        lemma_find_user_push(s, r, name, i + 1);
    } else {
        assert(s.push(r)[i as int] == r);
    }
}

/// Two directories with the same usernames in the same places are scanned
/// alike by `find_user`.
proof fn lemma_find_user_same_names(s: Seq<UserRec>, s2: Seq<UserRec>, name: Seq<char>, i: nat)
    requires
        s.len() == s2.len(),
        i <= s.len(),
        forall|k: int| 0 <= k < s.len() ==> #[trigger] s[k].name == s2[k].name,
    ensures
        find_user_from(s, name, i) == find_user_from(s2, name, i),
    decreases s.len() - i,
{
    if i < s.len() {
        lemma_find_user_same_names(s, s2, name, i + 1);
    }
}

/// A token held at `j` and nowhere earlier is what the scan from `i <= j`
/// returns.
proof fn lemma_find_token_exact(s: Seq<UserRec>, t: Seq<char>, i: nat, j: int)
    requires
        i <= j < s.len(),
        s[j].tok == Some(t),
        forall|k: int| 0 <= k < j ==> #[trigger] s[k].tok != Some(t),
    ensures
        find_token_from(s, t, i) == Some(j),
    decreases j - i,
{
    if i < j {
        lemma_find_token_exact(s, t, i + 1, j);
    }
}

/// Under token uniqueness, the holder of a token is the record that
/// `find_token` returns.
proof fn lemma_find_token_unique(s: Seq<UserRec>, t: Seq<char>, i: int)
    requires
        unique_tokens(s),
        0 <= i < s.len(),
        s[i].tok == Some(t),
    ensures
        find_token(s, t) == Some(i),
{
    assert forall|k: int| 0 <= k < i implies #[trigger] s[k].tok != Some(t) by {
        assert(s[i].tok != s[k].tok || !(s[i].tok is Some) || i == k);
    }
    lemma_find_token_exact(s, t, 0, i);
}

/// A username never added authenticates to nothing, leaves the directory
/// unchanged, and holds no token.
pub proof fn lemma_never_added(
    s: Seq<UserRec>,
    name: Seq<char>,
    pass: Seq<char>,
    r: Option<Seq<char>>,
    s2: Seq<UserRec>,
)
    requires
        find_user(s, name) is None,
        auth_outcome(s, name, pass, r, s2),
    ensures
        r is None,
        s2 == s,
        user_token(s, name) is None,
{
}

/// Adding the same username a second time is a failing no-op, with the same
/// or with a different password: the first record stays untouched.
pub proof fn lemma_add_twice(s: Seq<UserRec>, name: Seq<char>, pass: Seq<char>, pass2: Seq<char>)
    ensures
        ({
            let s1 = add_state(s, name, pass);
            &&& add_state(s1, name, pass) == s1
            &&& add_state(s1, name, pass2) == s1
            &&& add_result(s1, name) is None
        }),
{
    if find_user(s, name) is None {
        let r = UserRec { name: name, pass: pass, tok: None };
        lemma_find_user_push(s, r, name, 0);
    }
}

/// Authenticating twice with the right password and no logout in between
/// returns the identical token both times, and the second call changes
/// nothing.
pub proof fn lemma_reauth_same_token(
    s: Seq<UserRec>,
    name: Seq<char>,
    pass: Seq<char>,
    t: Seq<char>,
    s2: Seq<UserRec>,
    r2: Option<Seq<char>>,
    s3: Seq<UserRec>,
)
    requires
        auth_outcome(s, name, pass, Some(t), s2),
        auth_outcome(s2, name, pass, r2, s3),
    ensures
        r2 == Some(t),
        s3 == s2,
{
    let i = find_user(s, name)->Some_0;
    lemma_find_user_some(s, name, 0, i);
    if s[i].tok is None {
        let s2b = set_token(s, i, Some(t));
        lemma_find_user_same_names(s, s2b, name, 0);
    }
}

/// The token that a successful authentication returns resolves back to the
/// authenticated username.
pub proof fn lemma_token_resolves_owner(
    s: Seq<UserRec>,
    name: Seq<char>,
    pass: Seq<char>,
    t: Seq<char>,
    s2: Seq<UserRec>,
)
    requires
        db_wf(s),
        auth_outcome(s, name, pass, Some(t), s2),
    ensures
        db_wf(s2),
        token_owner(s2, t) == Some(name),
{
    let i = find_user(s, name)->Some_0;
    lemma_find_user_some(s, name, 0, i);
    if s[i].tok is Some {
        lemma_find_token_unique(s, t, i);
    } else {
        lemma_set_token_wf(s, i, t);
        lemma_find_token_none(s, t, 0);
        let s2b = set_token(s, i, Some(t));
        assert forall|k: int| 0 <= k < i implies #[trigger] s2b[k].tok != Some(t) by {
            assert(s2b[k].tok == s[k].tok);
        }
        lemma_find_token_exact(s2b, t, 0, i);
    }
}

/// After a user is deleted, that user holds no token, and the directory is
/// still well formed.
pub proof fn lemma_delete_clears(s: Seq<UserRec>, name: Seq<char>)
    requires
        db_wf(s),
    ensures
        db_wf(del_state(s, name)),
        user_token(del_state(s, name), name) is None,
{
    match find_user(s, name) {
        None => {},
        Some(i) => {
            lemma_find_user_some(s, name, 0, i);
            lemma_remove_wf(s, i);
            let s2 = s.remove(i);
            assert forall|j: int| 0 <= j < s2.len() implies #[trigger] s2[j].name != name by {
                let orig = if j < i {
                    j
                } else {
                    j + 1
                };
                assert(s2[j] == s[orig]);
                assert(unique_names(s) && s[i].name == name && orig != i);
            }
            lemma_no_match_finds_none(s2, name, 0);
        },
    }
}

/// Logging out with an identifier that is neither a live token nor a
/// username fails without mutating the directory.
pub proof fn lemma_logout_unknown(s: Seq<UserRec>, id: Seq<char>)
    requires
        find_token(s, id) is None,
        find_user(s, id) is None,
    ensures
        logout_state(s, id) == s,
        logout_result(s, id) is None,
{
}

} // verus!
