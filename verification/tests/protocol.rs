use session_server::directory::{add, auth, UserDatabase};
use session_server::message::{auth_user, message_handler, JsonValue, Message, MessageError};

fn obj(fields: Vec<(&str, JsonValue)>) -> JsonValue {
    JsonValue::Obj(fields.into_iter().map(|(k, v)| (k.to_string(), v)).collect())
}

fn s(text: &str) -> JsonValue {
    JsonValue::Str(text.to_string())
}

fn field(value: &JsonValue, key: &str) -> Option<JsonValue> {
    match value {
        JsonValue::Obj(fs) => fs.iter().find(|(k, _)| k == key).map(|(_, v)| clone_value(v)),
        _ => None,
    }
}

fn clone_value(v: &JsonValue) -> JsonValue {
    match v {
        JsonValue::Null => JsonValue::Null,
        JsonValue::Bool(b) => JsonValue::Bool(*b),
        JsonValue::Int(i) => JsonValue::Int(*i),
        JsonValue::Str(t) => JsonValue::Str(t.clone()),
        JsonValue::Arr(vs) => JsonValue::Arr(vs.iter().map(clone_value).collect()),
        JsonValue::Obj(fs) => {
            JsonValue::Obj(fs.iter().map(|(k, v)| (k.clone(), clone_value(v))).collect())
        }
    }
}

fn status_of(m: &Message) -> (String, String) {
    let status = match field(m.data.as_ref().unwrap(), "status") {
        Some(JsonValue::Str(t)) => t,
        other => panic!("no status field: {:?}", other),
    };
    let text = match field(m.data.as_ref().unwrap(), "message") {
        Some(JsonValue::Str(t)) => t,
        other => panic!("no message field: {:?}", other),
    };
    (status, text)
}

#[test]
fn auth_user_without_object_payload_is_shape_error() {
    let mut db = UserDatabase::new();
    let msg = Message { command: "auth".to_string(), data: None };
    let err = auth_user(&mut db, msg).unwrap_err();
    assert_eq!(err.command, "auth");
    let (status, text) = status_of(&err);
    assert_eq!(status, "err");
    assert_eq!(text, "Expected JSON object in 'data' field.");

    let msg = Message { command: "auth".to_string(), data: Some(s("not an object")) };
    let err = auth_user(&mut db, msg).unwrap_err();
    let (status, text) = status_of(&err);
    assert_eq!(status, "err");
    assert_eq!(text, "Expected JSON object in 'data' field.");
}

#[test]
fn auth_user_missing_username_is_shape_error() {
    let mut db = UserDatabase::new();
    let msg = Message {
        command: "auth".to_string(),
        data: Some(obj(vec![("password", s("x"))])),
    };
    let err = auth_user(&mut db, msg).unwrap_err();
    let (status, text) = status_of(&err);
    assert_eq!(status, "err");
    assert_eq!(text, "Field 'username' is missing or has the wrong type.");
}

#[test]
fn auth_user_missing_password_is_shape_error() {
    let mut db = UserDatabase::new();
    let msg = Message {
        command: "auth".to_string(),
        data: Some(obj(vec![("username", s("a")), ("password", JsonValue::Int(3))])),
    };
    let err = auth_user(&mut db, msg).unwrap_err();
    let (status, text) = status_of(&err);
    assert_eq!(status, "err");
    assert_eq!(text, "The 'password' field is missing or has the wrong type.");
}

#[test]
fn auth_user_bad_credentials_is_auth_error() {
    let mut db = UserDatabase::new();
    add(&mut db, "a".to_string(), "x".to_string());
    let msg = Message {
        command: "auth".to_string(),
        data: Some(obj(vec![("username", s("a")), ("password", s("wrong"))])),
    };
    let err = auth_user(&mut db, msg).unwrap_err();
    let (status, text) = status_of(&err);
    assert_eq!(status, "err");
    assert_eq!(text, "Invalid username or password.");
}

#[test]
fn auth_user_good_credentials_returns_token_and_username() {
    let mut db = UserDatabase::new();
    add(&mut db, "a".to_string(), "x".to_string());
    let msg = Message {
        command: "auth".to_string(),
        data: Some(obj(vec![("username", s("a")), ("password", s("x"))])),
    };
    let (reply, name) = auth_user(&mut db, msg).unwrap();
    assert_eq!(name, "a");
    assert_eq!(reply.command, "auth");
    let (status, token) = status_of(&reply);
    assert_eq!(status, "ok");
    assert_eq!(token.chars().count(), 16);
    assert!(token.chars().all(|c| c.is_ascii_alphanumeric()));
    assert_eq!(db.find_user_by_token(&token), Some("a".to_string()));
}

#[test]
fn message_handler_without_data_is_no_data() {
    let db = UserDatabase::new();
    let msg = Message { command: "message".to_string(), data: None };
    assert_eq!(message_handler(&db, msg), Err(MessageError::NoData));
}

#[test]
fn message_handler_without_token_is_token_missing() {
    let db = UserDatabase::new();
    let msg = Message { command: "message".to_string(), data: Some(s("payload")) };
    assert_eq!(message_handler(&db, msg), Err(MessageError::TokenMissing));

    let msg = Message {
        command: "message".to_string(),
        data: Some(obj(vec![("text", s("hi"))])),
    };
    assert_eq!(message_handler(&db, msg), Err(MessageError::TokenMissing));

    let msg = Message {
        command: "message".to_string(),
        data: Some(obj(vec![("token", JsonValue::Int(5))])),
    };
    assert_eq!(message_handler(&db, msg), Err(MessageError::TokenMissing));
}

#[test]
fn message_handler_unknown_token_is_token_invalid() {
    let db = UserDatabase::new();
    let msg = Message {
        command: "message".to_string(),
        data: Some(obj(vec![("token", s("garbage"))])),
    };
    assert_eq!(message_handler(&db, msg), Err(MessageError::TokenInvalid));
}

#[test]
fn message_handler_wraps_payload_with_sender() {
    let mut db = UserDatabase::new();
    add(&mut db, "a".to_string(), "x".to_string());
    let token = auth(&mut db, "a".to_string(), "x".to_string()).unwrap();
    let payload = obj(vec![("token", s(&token)), ("text", s("hi"))]);
    let msg = Message { command: "message".to_string(), data: Some(clone_value(&payload)) };
    let envelope = message_handler(&db, msg).unwrap();
    assert_eq!(envelope.command, "message");
    assert_eq!(field(envelope.data.as_ref().unwrap(), "sender"), Some(s("a")));
    assert_eq!(field(envelope.data.as_ref().unwrap(), "msg"), Some(payload));
}
