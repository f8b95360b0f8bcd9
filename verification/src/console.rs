//! The admin console dispatch: one operator command line, already split into
//! whitespace-separated words, maps one-to-one onto a directory operation.
//! Reading the line and printing the outcome stay with the caller.

use crate::directory::{
    add_result, add_state, auth, auth_outcome, del, del_result, del_state, get_token, list,
    logout, logout_result, logout_state, user_token, usernames, UserDatabase, UserRec,
};
use vstd::prelude::*;

verus! {

/// The outcome of one console command, for the caller to print.
pub enum ConsoleOutcome {
    /// `list`: the usernames on file.
    Listed(Vec<String>),
    /// `list` on an empty directory.
    NoUsers,
    /// `add`: the user was created.
    Added(String),
    /// `add`: the username was already taken.
    AddFailed,
    /// `auth`: the user's session token.
    AuthOk(String),
    /// `auth`: unknown user, wrong password, or no fresh token could be drawn.
    AuthFailed,
    /// `logout`: the named or token-resolved user was logged out.
    LoggedOut(String),
    /// `logout`: the identifier matched neither a token nor a username.
    LogoutFailed,
    /// `del`: the user was removed.
    Deleted(String),
    /// `del`: no such user.
    DeleteFailed,
    /// `gettoken`: the user's current token.
    TokenIs(String),
    /// `gettoken`: no such user, or no live token.
    NoToken,
    /// `exit`: the caller should end the console loop.
    Exit,
    /// Anything else.
    Unknown,
}

/// The full dispatch relation of `console_command`: which directory change
/// and which outcome each command line produces.
pub open spec fn console_step_outcome(
    s: Seq<UserRec>,
    p: Seq<Seq<char>>,
    r: ConsoleOutcome,
    s2: Seq<UserRec>,
) -> bool {
    if p.len() == 1 && p[0] == "list"@ {
        &&& s2 == s
        &&& if s.len() == 0 {
            r is NoUsers
        } else {
            r matches ConsoleOutcome::Listed(v) && v.deep_view() == usernames(s)
        }
    } else if p.len() == 3 && p[0] == "add"@ {
        &&& s2 == add_state(s, p[1], p[2])
        &&& match r {
            ConsoleOutcome::Added(name) => name@ == p[1] && add_result(s, p[1]) == Some(p[1]),
            ConsoleOutcome::AddFailed => add_result(s, p[1]) is None,
            _ => false,
        }
    } else if p.len() == 3 && p[0] == "auth"@ {
        match r {
            ConsoleOutcome::AuthOk(t) => auth_outcome(s, p[1], p[2], Some(t@), s2),
            ConsoleOutcome::AuthFailed => auth_outcome(s, p[1], p[2], None, s2),
            _ => false,
        }
    } else if p.len() == 2 && p[0] == "logout"@ {
        &&& s2 == logout_state(s, p[1])
        &&& match r {
            ConsoleOutcome::LoggedOut(name) => logout_result(s, p[1]) == Some(name@),
            ConsoleOutcome::LogoutFailed => logout_result(s, p[1]) is None,
            _ => false,
        }
    } else if p.len() == 2 && p[0] == "del"@ {
        &&& s2 == del_state(s, p[1])
        &&& match r {
            ConsoleOutcome::Deleted(name) => del_result(s, p[1]) == Some(name@),
            ConsoleOutcome::DeleteFailed => del_result(s, p[1]) is None,
            _ => false,
        }
    } else if p.len() == 2 && p[0] == "gettoken"@ {
        &&& s2 == s
        &&& match r {
            ConsoleOutcome::TokenIs(t) => user_token(s, p[1]) == Some(t@),
            ConsoleOutcome::NoToken => user_token(s, p[1]) is None,
            _ => false,
        }
    } else if p.len() == 1 && p[0] == "exit"@ {
        s2 == s && r is Exit
    } else {
        s2 == s && r is Unknown
    }
}

/// Dispatches one split operator command line to the directory operation it
/// names and reports the outcome; `exit` asks the caller to end the loop and
/// anything unrecognized changes nothing.
pub fn console_command(database: &mut UserDatabase, parts: &Vec<String>) -> (r: ConsoleOutcome)
    requires
        old(database).wf(),
    ensures
        final(database).wf(),
        console_step_outcome(old(database)@, parts.deep_view(), r, final(database)@),
{
    if parts.len() == 1 && parts[0] == "list".to_owned() {
        match list(database) {
            Some(v) => ConsoleOutcome::Listed(v),
            None => ConsoleOutcome::NoUsers,
        }
    } else if parts.len() == 3 && parts[0] == "add".to_owned() {
        match crate::directory::add(database, parts[1].clone(), parts[2].clone()) {
            Some(name) => ConsoleOutcome::Added(name),
            None => ConsoleOutcome::AddFailed,
        }
    } else if parts.len() == 3 && parts[0] == "auth".to_owned() {
        match auth(database, parts[1].clone(), parts[2].clone()) {
            Some(token) => ConsoleOutcome::AuthOk(token),
            None => ConsoleOutcome::AuthFailed,
        }
    } else if parts.len() == 2 && parts[0] == "logout".to_owned() {
        match logout(database, parts[1].clone()) {
            Some(name) => ConsoleOutcome::LoggedOut(name),
            None => ConsoleOutcome::LogoutFailed,
        }
    } else if parts.len() == 2 && parts[0] == "del".to_owned() {
        match del(database, parts[1].clone()) {
            Some(name) => ConsoleOutcome::Deleted(name),
            None => ConsoleOutcome::DeleteFailed,
        }
    } else if parts.len() == 2 && parts[0] == "gettoken".to_owned() {
        match get_token(database, parts[1].clone()) {
            Some(token) => ConsoleOutcome::TokenIs(token),
            None => ConsoleOutcome::NoToken,
        }
    } else if parts.len() == 1 && parts[0] == "exit".to_owned() {
        ConsoleOutcome::Exit
    } else {
        ConsoleOutcome::Unknown
    }
}

} // verus!
