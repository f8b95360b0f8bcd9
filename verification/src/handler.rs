//! The per-connection protocol handler, as a pure state machine: from the
//! connection's state and one inbound event it decides the next state, the
//! directory and registry updates, and the single outbound action. The caller
//! owns the sockets, performs every read and write, and feeds the events in.

use crate::directory::UserDatabase;
use crate::message::{
    auth_reply_outcome, auth_user, message_handler, message_outcome, JsonValue, Message,
    MessageError,
};
use crate::registry::{register, register_state, unregister, unregister_state, Registry};
use vstd::prelude::*;

verus! {

/// One live connection: its opaque outbound handle and, once an `auth`
/// command has succeeded, the authenticated username.
pub struct Connection {
    pub handle: u64,
    pub username: Option<String>,
}

/// One inbound event on a connection.
pub enum ConnEvent {
    /// A complete decoded message arrived.
    Incoming(Message),
    /// The read yielded bytes that decode to no message; the connection
    /// stays open.
    BadFrame,
    /// The peer closed the connection (a zero-length read).
    PeerClosed,
    /// The read or a reply write failed.
    ReadError,
}

/// What the caller must do after a step.
pub enum ConnAction {
    /// Send this reply to this connection alone.
    Reply(Message),
    /// Send this envelope to every registered connection.
    Broadcast(Message),
    /// Nothing to send; keep reading.
    KeepGoing,
    /// Close this connection and stop its handler.
    Terminate,
}

/// The registry after removing this connection's entry, if it had one.
pub open spec fn dereg_state(
    g: Seq<crate::registry::RegRec>,
    username: Option<String>,
) -> Seq<crate::registry::RegRec> {
    match username {
        Some(u) => unregister_state(g, u@),
        None => g,
    }
}

/// The unknown-command reply: `{ "command": "error",
/// "data": { "message": "Unknown command" } }`.
pub open spec fn is_unknown_command_reply(m: Message) -> bool {
    &&& m.command@ == "error"@
    &&& match m.data {
        Some(JsonValue::Obj(fs)) => {
            &&& fs@.len() == 1
            &&& fs@[0].0@ == "message"@
            &&& fs@[0].1 matches JsonValue::Str(t) && t@ == "Unknown command"@
        },
        _ => false,
    }
}

/// The full step relation of `connection_step`: how one event moves the
/// connection, the directory and the registry, and which action follows.
pub open spec fn step_outcome(
    c: Connection,
    s: Seq<crate::directory::UserRec>,
    g: Seq<crate::registry::RegRec>,
    event: ConnEvent,
    c2: Connection,
    s2: Seq<crate::directory::UserRec>,
    g2: Seq<crate::registry::RegRec>,
    a: ConnAction,
) -> bool {
    match event {
        ConnEvent::PeerClosed | ConnEvent::ReadError => {
            &&& a is Terminate
            &&& s2 == s
            &&& g2 == dereg_state(g, c.username)
            &&& c2 == c
        },
        ConnEvent::BadFrame => {
            &&& a is KeepGoing
            &&& s2 == s
            &&& g2 == g
            &&& c2 == c
        },
        ConnEvent::Incoming(msg) => {
            if msg.command@ == "auth"@ {
                exists|r: Result<(Message, String), Message>|
                    {
                        &&& #[trigger] auth_reply_outcome(s, msg.data, r, s2)
                        &&& match r {
                            Ok((m, name)) => {
                                &&& a == ConnAction::Reply(m)
                                &&& c2.handle == c.handle
                                &&& c2.username == Some(name)
                                &&& g2 == register_state(g, name@, c.handle)
                            },
                            Err(e) => {
                                &&& a == ConnAction::Reply(e)
                                &&& c2 == c
                                &&& g2 == g
                            },
                        }
                    }
            } else if msg.command@ == "message"@ {
                exists|r: Result<Message, MessageError>|
                    {
                        &&& #[trigger] message_outcome(s, msg, r)
                        &&& s2 == s
                        &&& c2 == c
                        &&& match r {
                            Ok(envelope) => a == ConnAction::Broadcast(envelope) && g2 == g,
                            Err(_) => a is Terminate && g2 == dereg_state(g, c.username),
                        }
                    }
            } else {
                &&& a matches ConnAction::Reply(m) && is_unknown_command_reply(m)
                &&& s2 == s
                &&& g2 == g
                &&& c2 == c
            }
        },
    }
}

/// Builds the unknown-command reply.
fn unknown_command_reply() -> (r: Message)
    ensures
        is_unknown_command_reply(r),
{
    let mut fs: Vec<(String, JsonValue)> = Vec::new();
    fs.push(("message".to_owned(), JsonValue::Str("Unknown command".to_owned())));
    Message { command: "error".to_owned(), data: Some(JsonValue::Obj(fs)) }
}

/// Removes this connection's registry entry, if it has one.
fn deregister_connection(conn: &Connection, registry: &mut Registry)
    requires
        old(registry).wf(),
    ensures
        final(registry).wf(),
        final(registry)@ == dereg_state(old(registry)@, conn.username),
{
    match &conn.username {
        Some(u) => {
            unregister(registry, u);
        },
        None => {},
    }
}

/// Drives one step of the connection state machine. A successful `auth`
/// remembers the username that the directory resolved and registers this
/// connection's handle under it; a `message` whose token resolves becomes a
/// broadcast; a `message` whose token does not resolve is a protocol
/// violation that closes and deregisters the connection; an unknown command
/// is answered and the connection stays open; a peer close or read error
/// deregisters and terminates.
pub fn connection_step(
    conn: &mut Connection,
    database: &mut UserDatabase,
    registry: &mut Registry,
    event: ConnEvent,
) -> (a: ConnAction)
    requires
        old(database).wf(),
        old(registry).wf(),
    ensures
        final(database).wf(),
        final(registry).wf(),
        step_outcome(
            *old(conn),
            old(database)@,
            old(registry)@,
            event,
            *final(conn),
            final(database)@,
            final(registry)@,
            a,
        ),
{
    match event {
        ConnEvent::PeerClosed | ConnEvent::ReadError => {
            deregister_connection(conn, registry);
            ConnAction::Terminate
        },
        ConnEvent::BadFrame => ConnAction::KeepGoing,
        ConnEvent::Incoming(msg) => {
            if msg.command == "auth".to_owned() {
                let ghost data = msg.data;
                match auth_user(database, msg) {
                    Ok((reply, name)) => {
                        conn.username = Some(name.clone());
                        register(registry, name.clone(), conn.handle);
                        proof {
                            let r = Ok::<(Message, String), Message>((reply, name));
                            assert(auth_reply_outcome(old(database)@, data, r, database@));
                        }
                        ConnAction::Reply(reply)
                    },
                    Err(e) => {
                        proof {
                            let r = Err::<(Message, String), Message>(e);
                            assert(auth_reply_outcome(old(database)@, data, r, database@));
                        }
                        ConnAction::Reply(e)
                    },
                }
            } else if msg.command == "message".to_owned() {
                let ghost m0 = msg;
                match message_handler(database, msg) {
                    Ok(envelope) => {
                        proof {
                            let r = Ok::<Message, MessageError>(envelope);
                            assert(message_outcome(database@, m0, r));
                        }
                        ConnAction::Broadcast(envelope)
                    },
                    Err(err) => {
                        deregister_connection(conn, registry);
                        proof {
                            let r = Err::<Message, MessageError>(err);
                            assert(message_outcome(database@, m0, r));
                        }
                        ConnAction::Terminate
                    },
                }
            } else {
                ConnAction::Reply(unknown_command_reply())
            }
        },
    }
}

} // verus!
