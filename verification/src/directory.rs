//! The user directory: the authoritative in-memory table of users, passwords
//! and session tokens, with atomic operations for the connection handlers and
//! the admin console.

use rand::Rng;
use vstd::prelude::*;

verus! {

/// The mathematical view of one user record: the username, the shared-secret
/// password, and the optional live session token.
pub ghost struct UserRec {
    pub name: Seq<char>,
    pub pass: Seq<char>,
    pub tok: Option<Seq<char>>,
}

/// One stored user record.
pub struct UserEntry {
    pub username: String,
    pub password: String,
    pub token: Option<String>,
}

impl View for UserEntry {
    type V = UserRec;

    open spec fn view(&self) -> UserRec {
        UserRec {
            name: self.username@,
            pass: self.password@,
            tok: match self.token {
                Some(t) => Some(t@),
                None => None,
            },
        }
    }
}

/// The directory itself: a sequence of records whose usernames are unique and
/// whose live tokens are unique.
pub struct UserDatabase {
    pub users: Vec<UserEntry>,
}

impl View for UserDatabase {
    type V = Seq<UserRec>;

    open spec fn view(&self) -> Seq<UserRec> {
        self.users@.map_values(|e: UserEntry| e@)
    }
}

/// The index of the first record named `name`, scanning from position `i`.
pub open spec fn find_user_from(s: Seq<UserRec>, name: Seq<char>, i: nat) -> Option<int>
    decreases s.len() - i when i <= s.len()
{
    if i >= s.len() {
        None
    } else if s[i as int].name == name {
        Some(i as int)
    } else {
        find_user_from(s, name, i + 1)
    }
}

/// The index of the record named `name`, if any.
pub open spec fn find_user(s: Seq<UserRec>, name: Seq<char>) -> Option<int> {
    find_user_from(s, name, 0)
}

/// The index of the first record whose live token is `tok`, scanning from `i`.
pub open spec fn find_token_from(s: Seq<UserRec>, tok: Seq<char>, i: nat) -> Option<int>
    decreases s.len() - i when i <= s.len()
{
    if i >= s.len() {
        None
    } else if s[i as int].tok == Some(tok) {
        Some(i as int)
    } else {
        find_token_from(s, tok, i + 1)
    }
}

/// The index of the record holding token `tok`, if any.
pub open spec fn find_token(s: Seq<UserRec>, tok: Seq<char>) -> Option<int> {
    find_token_from(s, tok, 0)
}

/// The token currently held by `name`, if that user exists and is logged in.
pub open spec fn user_token(s: Seq<UserRec>, name: Seq<char>) -> Option<Seq<char>> {
    match find_user(s, name) {
        Some(i) => s[i].tok,
        None => None,
    }
}

/// The username owning token `tok`, if any.
pub open spec fn token_owner(s: Seq<UserRec>, tok: Seq<char>) -> Option<Seq<char>> {
    match find_token(s, tok) {
        Some(i) => Some(s[i].name),
        None => None,
    }
}

pub open spec fn is_alphanumeric_char(c: char) -> bool {
    ('a' <= c && c <= 'z') || ('A' <= c && c <= 'Z') || ('0' <= c && c <= '9')
}

/// A well-formed session token: exactly sixteen alphanumeric characters.
pub open spec fn valid_token(t: Seq<char>) -> bool {
    &&& t.len() == 16
    &&& forall|i: int| 0 <= i < t.len() ==> is_alphanumeric_char(#[trigger] t[i])
}

/// No two records share a username.
pub open spec fn unique_names(s: Seq<UserRec>) -> bool {
    forall|i: int, j: int|
        0 <= i < s.len() && 0 <= j < s.len() && i != j ==> #[trigger] s[i].name != #[trigger] s[j].name
}

/// No two records share a live token.
pub open spec fn unique_tokens(s: Seq<UserRec>) -> bool {
    forall|i: int, j: int|
        0 <= i < s.len() && 0 <= j < s.len() && i != j && #[trigger] s[i].tok is Some
            ==> s[i].tok != #[trigger] s[j].tok
}

/// The directory invariant.
pub open spec fn db_wf(s: Seq<UserRec>) -> bool {
    unique_names(s) && unique_tokens(s)
}

/// A failed scan from `i` means no record at or after `i` matches the name.
pub proof fn lemma_find_user_none(s: Seq<UserRec>, name: Seq<char>, i: nat)
    requires
        i <= s.len(),
        find_user_from(s, name, i) is None,
    ensures
        forall|j: int| i <= j < s.len() ==> #[trigger] s[j].name != name,
    decreases s.len() - i,
{
    if i < s.len() {
        lemma_find_user_none(s, name, i + 1);
    }
}

/// A successful scan from `i` finds the first match at or after `i`.
pub proof fn lemma_find_user_some(s: Seq<UserRec>, name: Seq<char>, i: nat, j: int)
    requires
        i <= s.len(),
        find_user_from(s, name, i) == Some(j),
    ensures
        i <= j < s.len(),
        s[j].name == name,
        forall|k: int| i <= k < j ==> #[trigger] s[k].name != name,
    decreases s.len() - i,
{
    if i < s.len() && s[i as int].name != name {
        lemma_find_user_some(s, name, i + 1, j);
    }
}

/// A failed token scan from `i` means no record at or after `i` holds the token.
pub proof fn lemma_find_token_none(s: Seq<UserRec>, tok: Seq<char>, i: nat)
    requires
        i <= s.len(),
        find_token_from(s, tok, i) is None,
    ensures
        forall|j: int| i <= j < s.len() ==> #[trigger] s[j].tok != Some(tok),
    decreases s.len() - i,
{
    if i < s.len() {
        lemma_find_token_none(s, tok, i + 1);
    }
}

impl UserDatabase {
    pub open spec fn wf(&self) -> bool {
        db_wf(self@)
    }

    /// An empty directory.
    pub fn new() -> (r: UserDatabase)
        ensures
            r@ =~= Seq::<UserRec>::empty(),
            r.wf(),
    {
        UserDatabase { users: Vec::new() }
    }

    /// The username owning `token`, or none if no record holds it.
    pub fn find_user_by_token(&self, token: &str) -> (r: Option<String>)
        ensures
            r.deep_view() == token_owner(self@, token@),
    {
        let t = token.to_owned();
        match find_token_index(self, &t) {
            Some(i) => Some(self.users[i].username.clone()),
            None => None,
        }
    }
}

/// The index of the record named `name` in the stored vector, if any.
fn find_user_index(database: &UserDatabase, name: &String) -> (r: Option<usize>)
    ensures
        match r {
            Some(i) => i < database@.len() && find_user(database@, name@) == Some(i as int),
            None => find_user(database@, name@) is None,
        },
{
    let ghost s = database@;
    let n = database.users.len();
    let mut k: usize = 0;
    while k < n
        invariant
            s == database@,
            n == database.users.len(),
            k <= n,
            find_user(s, name@) == find_user_from(s, name@, k as nat),
        decreases n - k,
    {
        let e = &database.users[k];
        if e.username == *name {
            return Some(k);
        }
        k += 1;
    }
    None
}

/// The index of the record holding token `tok` in the stored vector, if any.
fn find_token_index(database: &UserDatabase, tok: &String) -> (r: Option<usize>)
    ensures
        match r {
            Some(i) => i < database@.len() && find_token(database@, tok@) == Some(i as int),
            None => find_token(database@, tok@) is None,
        },
{
    let ghost s = database@;
    let n = database.users.len();
    let mut k: usize = 0;
    while k < n
        invariant
            s == database@,
            n == database.users.len(),
            k <= n,
            find_token(s, tok@) == find_token_from(s, tok@, k as nat),
        decreases n - k,
    {
        let e = &database.users[k];
        let matches_here = match &e.token {
            Some(t) => *t == *tok,
            None => false,
        };
        if matches_here {
            return Some(k);
        }
        k += 1;
    }
    None
}

/// The record sequence with the token of the record at `i` replaced.
pub open spec fn set_token(s: Seq<UserRec>, i: int, t: Option<Seq<char>>) -> Seq<UserRec> {
    s.update(i, UserRec { name: s[i].name, pass: s[i].pass, tok: t })
}

/// What `add` leaves in the directory: a fresh record without a token when the
/// username is unused, the directory unchanged otherwise.
pub open spec fn add_state(s: Seq<UserRec>, name: Seq<char>, pass: Seq<char>) -> Seq<UserRec> {
    if find_user(s, name) is Some {
        s
    } else {
        s.push(UserRec { name: name, pass: pass, tok: None })
    }
}

/// What `add` returns: the username on creation, none on any name conflict.
pub open spec fn add_result(s: Seq<UserRec>, name: Seq<char>) -> Option<Seq<char>> {
    if find_user(s, name) is Some {
        None
    } else {
        Some(name)
    }
}

/// The full authenticate relation: from the old directory and the supplied
/// credentials, which result and new directory are allowed. An unknown user or
/// a wrong password changes nothing and yields no token; matching credentials
/// with a live token return that same token unchanged (idempotent re-auth);
/// matching credentials without one store and return a fresh valid token that
/// no record held before. In that last case alone the result may still be
/// none with the directory unchanged: every drawn token was already in use,
/// which a 62^16 token space makes statistically impossible.
pub open spec fn auth_outcome(
    s: Seq<UserRec>,
    name: Seq<char>,
    pass: Seq<char>,
    r: Option<Seq<char>>,
    s2: Seq<UserRec>,
) -> bool {
    match find_user(s, name) {
        None => r is None && s2 == s,
        Some(i) => {
            if s[i].pass != pass {
                r is None && s2 == s
            } else {
                match s[i].tok {
                    Some(t) => r == Some(t) && s2 == s,
                    None => match r {
                        Some(t) => {
                            &&& valid_token(t)
                            &&& find_token(s, t) is None
                            &&& s2 == set_token(s, i, Some(t))
                        },
                        None => s2 == s,
                    },
                }
            }
        },
    }
}

/// The current token of `username`, or none if the user is absent or logged out.
pub fn get_token(database: &UserDatabase, username: String) -> (r: Option<String>)
    ensures
        r.deep_view() == user_token(database@, username@),
{
    match find_user_index(database, &username) {
        Some(i) => match &database.users[i].token {
            Some(t) => Some(t.clone()),
            None => None,
        },
        None => None,
    }
}

/// The record `logout` clears: the holder of the token `id`, if any record
/// holds it, else the user named `id`, if one exists.
pub open spec fn logout_target(s: Seq<UserRec>, id: Seq<char>) -> Option<int> {
    match find_token(s, id) {
        Some(i) => Some(i),
        None => find_user(s, id),
    }
}

/// What `logout` leaves in the directory: the resolved record without its
/// token, or the directory unchanged when nothing matched.
pub open spec fn logout_state(s: Seq<UserRec>, id: Seq<char>) -> Seq<UserRec> {
    match logout_target(s, id) {
        Some(i) => set_token(s, i, None),
        None => s,
    }
}

/// What `logout` returns: the resolved username, or none.
pub open spec fn logout_result(s: Seq<UserRec>, id: Seq<char>) -> Option<Seq<char>> {
    match logout_target(s, id) {
        Some(i) => Some(s[i].name),
        None => None,
    }
}

/// What `delete` leaves in the directory.
pub open spec fn del_state(s: Seq<UserRec>, name: Seq<char>) -> Seq<UserRec> {
    match find_user(s, name) {
        Some(i) => s.remove(i),
        None => s,
    }
}

/// What `delete` returns: the removed username, or none.
pub open spec fn del_result(s: Seq<UserRec>, name: Seq<char>) -> Option<Seq<char>> {
    if find_user(s, name) is Some {
        Some(name)
    } else {
        None
    }
}

/// The usernames of the directory, in storage order.
pub open spec fn usernames(s: Seq<UserRec>) -> Seq<Seq<char>> {
    s.map_values(|u: UserRec| u.name)
}

/// Adds a new user with no token. Fails without changing anything if the
/// username is already taken, whether or not the passwords agree.
pub fn add(database: &mut UserDatabase, username: String, password: String) -> (r: Option<String>)
    requires
        old(database).wf(),
    ensures
        final(database).wf(),
        final(database)@ == add_state(old(database)@, username@, password@),
        r.deep_view() == add_result(old(database)@, username@),
{
    match find_user_index(database, &username) {
        Some(_) => None,
        None => {
            proof {
                lemma_find_user_none(database@, username@, 0);
            }
            let entry = UserEntry { username: username.clone(), password: password, token: None };
            database.users.push(entry);
            proof {
                assert(database@ =~= add_state(old(database)@, username@, password@));
            }
            Some(username)
        },
    }
}

/// Relies on rand's `thread_rng` and the `Alphanumeric` distribution: every
/// sample is one uniformly random character out of `[A-Za-z0-9]`.
#[verifier::external_body]
fn random_alphanumeric_16() -> (r: String)
    ensures
        valid_token(r@),
{
    let mut rng = rand::thread_rng();
    (0..16)
        .map(|_| rng.sample(rand::distributions::Alphanumeric))
        .map(char::from)
        .collect()
}

/// Storing a token that no record holds preserves the directory invariant.
pub proof fn lemma_set_token_wf(s: Seq<UserRec>, i: int, t: Seq<char>)
    requires
        db_wf(s),
        0 <= i < s.len(),
        find_token(s, t) is None,
    ensures
        db_wf(set_token(s, i, Some(t))),
{
    lemma_find_token_none(s, t, 0);
    let s2 = set_token(s, i, Some(t));
    assert forall|a: int, b: int|
        0 <= a < s2.len() && 0 <= b < s2.len() && a != b && #[trigger] s2[a].tok is Some
            implies s2[a].tok != #[trigger] s2[b].tok by {
        if a != i && b != i {
            assert(s2[a].tok == s[a].tok && s2[b].tok == s[b].tok);
        } else if a == i {
            assert(s2[b].tok == s[b].tok && s[b].tok != Some(t));
        } else {
            assert(s2[a].tok == s[a].tok && s[a].tok != Some(t));
        }
    }
}

/// Authenticates `username` with `password` atomically: an unknown name or a
/// wrong password fails; a user already holding a token gets that same token
/// back; otherwise a fresh random token is stored and returned.
pub fn auth(database: &mut UserDatabase, username: String, password: String) -> (r: Option<String>)
    requires
        old(database).wf(),
    ensures
        final(database).wf(),
        auth_outcome(old(database)@, username@, password@, r.deep_view(), final(database)@),
{
    let idx = match find_user_index(database, &username) {
        Some(i) => i,
        None => {
            return None;
        },
    };
    if !(database.users[idx].password == password) {
        return None;
    }
    let existing: Option<String> = match &database.users[idx].token {
        Some(t) => Some(t.clone()),
        None => None,
    };
    if let Some(t) = existing {
        return Some(t);
    }
    // Draw tokens until one is unused; a collision in a space of 62^16 values
    // is statistically impossible, so the retry bound is never reached.
    let mut tries: usize = 0;
    while tries < 32
        invariant
            *database == *old(database),
            database.wf(),
            idx < database.users.len(),
            find_user(database@, username@) == Some(idx as int),
            database@[idx as int].pass == password@,
            database@[idx as int].tok is None,
        decreases 32 - tries,
    {
        let t = random_alphanumeric_16();
        match find_token_index(database, &t) {
            Some(_) => {
                tries += 1;
            },
            None => {
                proof {
                    lemma_set_token_wf(database@, idx as int, t@);
                }
                database.users[idx].token = Some(t.clone());
                proof {
                    assert(database@ =~= set_token(old(database)@, idx as int, Some(t@)));
                }
                return Some(t);
            },
        }
    }
    None
}

/// Clearing a token preserves the directory invariant.
pub proof fn lemma_clear_token_wf(s: Seq<UserRec>, i: int)
    requires
        db_wf(s),
        0 <= i < s.len(),
    ensures
        db_wf(set_token(s, i, None)),
{
    let s2 = set_token(s, i, None);
    assert forall|a: int, b: int|
        0 <= a < s2.len() && 0 <= b < s2.len() && a != b && #[trigger] s2[a].tok is Some
            implies s2[a].tok != #[trigger] s2[b].tok by {
        assert(s2[a].tok == s[a].tok);
    }
}

/// Removing a record preserves the directory invariant.
pub proof fn lemma_remove_wf(s: Seq<UserRec>, i: int)
    requires
        db_wf(s),
        0 <= i < s.len(),
    ensures
        db_wf(s.remove(i)),
{
    let s2 = s.remove(i);
    assert forall|a: int| 0 <= a < s2.len() implies #[trigger] s2[a] == s[if a < i {
        a
    } else {
        a + 1
    }] by {}
}

/// Logs out by username or by token: the first record holding `identifier`
/// as its token, else the record named `identifier`, loses its token and its
/// username is returned; with no match nothing changes and none is returned.
pub fn logout(database: &mut UserDatabase, identifier: String) -> (r: Option<String>)
    requires
        old(database).wf(),
    ensures
        final(database).wf(),
        final(database)@ == logout_state(old(database)@, identifier@),
        r.deep_view() == logout_result(old(database)@, identifier@),
{
    let target = match find_token_index(database, &identifier) {
        Some(i) => Some(i),
        None => find_user_index(database, &identifier),
    };
    match target {
        Some(i) => {
            let name = database.users[i].username.clone();
            proof {
                lemma_clear_token_wf(database@, i as int);
            }
            database.users[i].token = None;
            proof {
                assert(database@ =~= set_token(old(database)@, i as int, None));
            }
            Some(name)
        },
        None => None,
    }
}

/// Deletes the record named `username`, returning the name, or fails with
/// nothing changed if the user is absent.
pub fn del(database: &mut UserDatabase, username: String) -> (r: Option<String>)
    requires
        old(database).wf(),
    ensures
        final(database).wf(),
        final(database)@ == del_state(old(database)@, username@),
        r.deep_view() == del_result(old(database)@, username@),
{
    match find_user_index(database, &username) {
        Some(i) => {
            proof {
                lemma_remove_wf(database@, i as int);
            }
            database.users.remove(i);
            proof {
                assert(database@ =~= del_state(old(database)@, username@));
            }
            Some(username)
        },
        None => None,
    }
}

/// All usernames in storage order, or none if the directory is empty.
pub fn list(users: &UserDatabase) -> (r: Option<Vec<String>>)
    ensures
        r is Some <==> users@.len() > 0,
        r matches Some(v) ==> v.deep_view() == usernames(users@),
{
    let n = users.users.len();
    if n == 0 {
        return None;
    }
    let mut names: Vec<String> = Vec::new();
    let mut k: usize = 0;
    while k < n
        invariant
            n == users.users.len(),
            k <= n,
            names@.len() == k,
            forall|i: int| 0 <= i < k ==> names.deep_view()[i] == usernames(users@)[i],
        decreases n - k,
    {
        let ghost prev = names.deep_view();
        names.push(users.users[k].username.clone());
        proof {
            assert forall|i: int| 0 <= i < k + 1 implies names.deep_view()[i] == usernames(
                users@,
            )[i] by {
                if i < k {
                    assert(prev[i] == usernames(users@)[i]);
                    assert(names.deep_view()[i] == names@[i]@);
                    assert(prev[i] == names@[i]@);
                } else {
                    assert(names@[i] == users.users@[i].username);
                }
            }
        }
        k += 1;
    }
    proof {
        assert(names.deep_view() =~= usernames(users@));
    }
    Some(names)
}

} // verus!
