//! The message envelope and the two inbound protocol operations: resolving an
//! `auth` request against the directory and wrapping a `message` request into
//! a broadcast envelope. Wire encoding and decoding of these values is the
//! caller's business; the logic here works on the structured form alone.

use crate::directory::{auth, auth_outcome, token_owner, UserDatabase, UserRec};
use vstd::prelude::*;

verus! {

/// A structured payload value: the subset of JSON shapes that the protocol
/// carries. Arbitrary client payload fields ride along unchanged.
#[derive(Debug, PartialEq, Eq)]
pub enum JsonValue {
    Null,
    Bool(bool),
    Int(i64),
    Str(String),
    Arr(Vec<JsonValue>),
    Obj(Vec<(String, JsonValue)>),
}

/// The message envelope: a command tag and an optional structured payload.
#[derive(Debug, PartialEq, Eq)]
pub struct Message {
    pub command: String,
    pub data: Option<JsonValue>,
}

/// The value of the first field named `key`, scanning from position `i`.
pub open spec fn field_from(fs: Seq<(String, JsonValue)>, key: Seq<char>, i: nat) -> Option<
    JsonValue,
>
    decreases fs.len() - i when i <= fs.len()
{
    if i >= fs.len() {
        None
    } else if fs[i as int].0@ == key {
        Some(fs[i as int].1)
    } else {
        field_from(fs, key, i + 1)
    }
}

/// The value of the field named `key`, if any.
pub open spec fn field(fs: Seq<(String, JsonValue)>, key: Seq<char>) -> Option<JsonValue> {
    field_from(fs, key, 0)
}

/// The value of the field named `key` in the fields of an object.
fn get_field<'a>(fields: &'a Vec<(String, JsonValue)>, key: &String) -> (r: Option<&'a JsonValue>)
    ensures
        match r {
            Some(v) => field(fields@, key@) == Some(*v),
            None => field(fields@, key@) is None,
        },
{
    let n = fields.len();
    let mut k: usize = 0;
    while k < n
        invariant
            n == fields.len(),
            k <= n,
            field(fields@, key@) == field_from(fields@, key@, k as nat),
        decreases n - k,
    {
        if fields[k].0 == *key {
            return Some(&fields[k].1);
        }
        k += 1;
    }
    None
}

/// A reply of the form `{ "status": <status>, "message": <text> }` under the
/// given command tag.
pub open spec fn is_status_reply(
    m: Message,
    cmd: Seq<char>,
    status: Seq<char>,
    text: Seq<char>,
) -> bool {
    &&& m.command@ == cmd
    &&& match m.data {
        Some(JsonValue::Obj(fs)) => {
            &&& fs@.len() == 2
            &&& fs@[0].0@ == "status"@
            &&& fs@[0].1 matches JsonValue::Str(s) && s@ == status
            &&& fs@[1].0@ == "message"@
            &&& fs@[1].1 matches JsonValue::Str(t) && t@ == text
        },
        _ => false,
    }
}

/// Builds a `{status, message}` reply under `cmd`.
fn status_reply(cmd: &str, status: &str, text: String) -> (r: Message)
    ensures
        is_status_reply(r, cmd@, status@, text@),
{
    let mut fs: Vec<(String, JsonValue)> = Vec::new();
    fs.push(("status".to_owned(), JsonValue::Str(status.to_owned())));
    fs.push(("message".to_owned(), JsonValue::Str(text)));
    Message { command: cmd.to_owned(), data: Some(JsonValue::Obj(fs)) }
}

/// The username and password carried by a well-shaped `auth` request payload.
pub open spec fn auth_request_creds(data: Option<JsonValue>) -> Option<(Seq<char>, Seq<char>)> {
    match data {
        Some(JsonValue::Obj(fs)) => match (field(fs@, "username"@), field(fs@, "password"@)) {
            (Some(JsonValue::Str(u)), Some(JsonValue::Str(p))) => Some((u@, p@)),
            _ => None,
        },
        _ => None,
    }
}

/// The full outcome relation of `auth_user`: which reply and directory state
/// may follow from a request payload. A malformed payload is answered with
/// the matching structured error and changes nothing; well-shaped credentials
/// go through the atomic authenticate relation, answered with the token on
/// success and with an invalid-credentials error otherwise. A successful
/// reply also carries the resolved username for the caller to register.
pub open spec fn auth_reply_outcome(
    s: Seq<UserRec>,
    data: Option<JsonValue>,
    r: Result<(Message, String), Message>,
    s2: Seq<UserRec>,
) -> bool {
    match data {
        Some(JsonValue::Obj(fs)) => match (field(fs@, "username"@), field(fs@, "password"@)) {
            (Some(JsonValue::Str(u)), Some(JsonValue::Str(p))) => match r {
                Ok((m, name)) => {
                    &&& name@ == u@
                    &&& exists|t: Seq<char>|
                        is_status_reply(m, "auth"@, "ok"@, t) && auth_outcome(s, u@, p@, Some(t), s2)
                },
                Err(e) => {
                    &&& is_status_reply(e, "auth"@, "err"@, "Invalid username or password."@)
                    &&& auth_outcome(s, u@, p@, None, s2)
                },
            },
            (Some(JsonValue::Str(u)), _) => {
                &&& r matches Err(e) && is_status_reply(
                    e,
                    "auth"@,
                    "err"@,
                    "The 'password' field is missing or has the wrong type."@,
                )
                &&& s2 == s
            },
            _ => {
                &&& r matches Err(e) && is_status_reply(
                    e,
                    "auth"@,
                    "err"@,
                    "Field 'username' is missing or has the wrong type."@,
                )
                &&& s2 == s
            },
        },
        _ => {
            &&& r matches Err(e) && is_status_reply(
                e,
                "auth"@,
                "err"@,
                "Expected JSON object in 'data' field."@,
            )
            &&& s2 == s
        },
    }
}

/// Answers an `auth` request: checks the payload shape, authenticates the
/// credentials atomically against the directory, and returns either the
/// ok-reply together with the authenticated username, or the error reply.
pub fn auth_user(database: &mut UserDatabase, msg: Message) -> (r: Result<
    (Message, String),
    Message,
>)
    requires
        old(database).wf(),
    ensures
        final(database).wf(),
        auth_reply_outcome(old(database)@, msg.data, r, final(database)@),
{
    let fs = match msg.data {
        Some(JsonValue::Obj(fs)) => fs,
        _ => {
            return Err(
                status_reply("auth", "err", "Expected JSON object in 'data' field.".to_owned()),
            );
        },
    };
    let username = match get_field(&fs, &"username".to_owned()) {
        Some(JsonValue::Str(u)) => u.clone(),
        _ => {
            return Err(
                status_reply(
                    "auth",
                    "err",
                    "Field 'username' is missing or has the wrong type.".to_owned(),
                ),
            );
        },
    };
    let password = match get_field(&fs, &"password".to_owned()) {
        Some(JsonValue::Str(p)) => p.clone(),
        _ => {
            return Err(
                status_reply(
                    "auth",
                    "err",
                    "The 'password' field is missing or has the wrong type.".to_owned(),
                ),
            );
        },
    };
    match auth(database, username.clone(), password) {
        Some(token) => {
            let ghost t = token@;
            let reply = status_reply("auth", "ok", token);
            proof {
                assert(is_status_reply(reply, "auth"@, "ok"@, t));
            }
            Ok((reply, username))
        },
        None => Err(status_reply("auth", "err", "Invalid username or password.".to_owned())),
    }
}

/// Why a `message` request was refused.
#[derive(Clone, Copy, Debug, PartialEq, Eq)]
pub enum MessageError {
    /// The request carried no payload at all.
    NoData,
    /// The payload was not an object holding a string `token` field.
    TokenMissing,
    /// No directory record holds the presented token.
    TokenInvalid,
}

/// A broadcast envelope: the original command tag over
/// `{ "sender": <username>, "msg": <original payload> }`.
pub open spec fn is_broadcast_envelope(
    m: Message,
    cmd: Seq<char>,
    sender: Seq<char>,
    payload: JsonValue,
) -> bool {
    &&& m.command@ == cmd
    &&& match m.data {
        Some(JsonValue::Obj(fs)) => {
            &&& fs@.len() == 2
            &&& fs@[0].0@ == "sender"@
            &&& fs@[0].1 matches JsonValue::Str(u) && u@ == sender
            &&& fs@[1].0@ == "msg"@
            &&& fs@[1].1 == payload
        },
        _ => false,
    }
}

/// The full outcome relation of `message_handler`: a missing payload, a
/// missing or non-string token, and a token no record holds are each refused
/// with their own error; a resolvable token yields the broadcast envelope
/// naming the token's owner as sender over the original payload.
pub open spec fn message_outcome(
    s: Seq<UserRec>,
    msg: Message,
    r: Result<Message, MessageError>,
) -> bool {
    match msg.data {
        Some(d) => match d {
            JsonValue::Obj(fs) => match field(fs@, "token"@) {
                Some(JsonValue::Str(t)) => match token_owner(s, t@) {
                    Some(owner) => r matches Ok(m) && is_broadcast_envelope(
                        m,
                        msg.command@,
                        owner,
                        d,
                    ),
                    None => r == Err::<Message, MessageError>(MessageError::TokenInvalid),
                },
                _ => r == Err::<Message, MessageError>(MessageError::TokenMissing),
            },
            _ => r == Err::<Message, MessageError>(MessageError::TokenMissing),
        },
        None => r == Err::<Message, MessageError>(MessageError::NoData),
    }
}

/// Resolves the token of a `message` request to its owner and wraps the
/// original payload into the broadcast envelope; an unresolvable token is the
/// fatal `TokenInvalid` outcome for the caller's connection.
pub fn message_handler(database: &UserDatabase, msg: Message) -> (r: Result<Message, MessageError>)
    ensures
        message_outcome(database@, msg, r),
{
    let data = match msg.data {
        Some(d) => d,
        None => {
            return Err(MessageError::NoData);
        },
    };
    let token = match &data {
        JsonValue::Obj(fs) => match get_field(fs, &"token".to_owned()) {
            Some(JsonValue::Str(t)) => t.clone(),
            _ => {
                return Err(MessageError::TokenMissing);
            },
        },
        _ => {
            return Err(MessageError::TokenMissing);
        },
    };
    let sender = match database.find_user_by_token(token.as_str()) {
        Some(u) => u,
        None => {
            return Err(MessageError::TokenInvalid);
        },
    };
    let mut fs: Vec<(String, JsonValue)> = Vec::new();
    fs.push(("sender".to_owned(), JsonValue::Str(sender)));
    fs.push(("msg".to_owned(), data));
    Ok(Message { command: msg.command, data: Some(JsonValue::Obj(fs)) })
}

} // verus!
