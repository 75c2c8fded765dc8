//! The data a message template is rendered against.

use vstd::prelude::*;
use crate::model::server::Server;
use crate::model::server_log::{ServerLog, ServerLogLine};
use crate::notify::json::{
    json_bool, json_empty, json_members, json_null, json_number, json_object, json_put, json_text,
    Json,
};

verus! {

/// An optional number as JSON: the number, or `null`.
pub open spec fn optional_number(number: Option<i64>) -> Json {
    match number {
        Some(n) => Json::Number(n),
        None => Json::Null,
    }
}

/// An optional text as JSON: the string, or `null`.
pub open spec fn optional_text(text: Option<String>) -> Json {
    match text {
        Some(t) => Json::Text(t@),
        None => Json::Null,
    }
}

/// The members of the `server` object of a template's data: every field of
/// the server under its own name.
pub open spec fn server_members(server: Server) -> Map<Seq<char>, Json> {
    Map::<Seq<char>, Json>::empty().insert("id"@, Json::Number(server.id)).insert(
        "user_id"@,
        Json::Number(server.user_id),
    ).insert("name"@, Json::Text(server.name@)).insert("url"@, Json::Text(server.url@)).insert(
        "timeout"@,
        Json::Number(server.timeout),
    ).insert("interval"@, Json::Number(server.interval)).insert(
        "last_seen_status_code"@,
        optional_number(server.last_seen_status_code),
    ).insert("last_seen_reason"@, optional_text(server.last_seen_reason)).insert(
        "is_turned_on"@,
        Json::Bool(server.is_turned_on),
    ).insert("created_at"@, Json::Text(server.created_at@)).insert(
        "updated_at"@,
        Json::Text(server.updated_at@),
    )
}

/// The members of the `log` object of a template's data: every field of the
/// log row under its own name.
pub open spec fn log_members(log: ServerLog) -> Map<Seq<char>, Json> {
    Map::<Seq<char>, Json>::empty().insert("id"@, Json::Number(log.id)).insert(
        "server_id"@,
        Json::Number(log.server_id),
    ).insert("failed"@, Json::Bool(log.failed)).insert(
        "status_code"@,
        Json::Number(log.status_code),
    ).insert("body"@, optional_text(log.body)).insert("reason"@, optional_text(log.reason)).insert(
        "created_at"@,
        Json::Text(log.created_at@),
    )
}

/// The data a template is rendered against: an object with the two members
/// `server` and `log`.
pub open spec fn line_members(line: ServerLogLine) -> Map<Seq<char>, Json> {
    Map::<Seq<char>, Json>::empty().insert(
        "server"@,
        Json::Object(server_members(line.server)),
    ).insert("log"@, Json::Object(log_members(line.log)))
}

fn put_optional_number(
    object: &mut serde_json::Map<String, serde_json::Value>,
    key: &str,
    number: Option<i64>,
)
    ensures
        json_members(*final(object)) == json_members(*old(object)).insert(
            key@,
            optional_number(number),
        ),
{
    match number {
        Some(n) => json_put(object, key, json_number(n)),
        None => json_put(object, key, json_null()),
    }
}

fn put_optional_text(
    object: &mut serde_json::Map<String, serde_json::Value>,
    key: &str,
    text: &Option<String>,
)
    ensures
        json_members(*final(object)) == json_members(*old(object)).insert(
            key@,
            optional_text(*text),
        ),
{
    match text {
        Some(t) => json_put(object, key, json_text(t.as_str())),
        None => json_put(object, key, json_null()),
    }
}

fn server_context(server: &Server) -> (object: serde_json::Map<String, serde_json::Value>)
    ensures
        json_members(object) == server_members(*server),
{
    let mut object = json_empty();
    json_put(&mut object, "id", json_number(server.id));
    json_put(&mut object, "user_id", json_number(server.user_id));
    json_put(&mut object, "name", json_text(server.name.as_str()));
    json_put(&mut object, "url", json_text(server.url.as_str()));
    json_put(&mut object, "timeout", json_number(server.timeout));
    json_put(&mut object, "interval", json_number(server.interval));
    put_optional_number(&mut object, "last_seen_status_code", server.last_seen_status_code);
    put_optional_text(&mut object, "last_seen_reason", &server.last_seen_reason);
    json_put(&mut object, "is_turned_on", json_bool(server.is_turned_on));
    json_put(&mut object, "created_at", json_text(server.created_at.as_str()));
    json_put(&mut object, "updated_at", json_text(server.updated_at.as_str()));
    object
}

fn log_context(log: &ServerLog) -> (object: serde_json::Map<String, serde_json::Value>)
    ensures
        json_members(object) == log_members(*log),
{
    let mut object = json_empty();
    json_put(&mut object, "id", json_number(log.id));
    json_put(&mut object, "server_id", json_number(log.server_id));
    json_put(&mut object, "failed", json_bool(log.failed));
    json_put(&mut object, "status_code", json_number(log.status_code));
    put_optional_text(&mut object, "body", &log.body);
    put_optional_text(&mut object, "reason", &log.reason);
    json_put(&mut object, "created_at", json_text(log.created_at.as_str()));
    object
}

/// Builds the data a template is rendered against.
pub fn line_context(line: &ServerLogLine) -> (object: serde_json::Map<String, serde_json::Value>)
    ensures
        json_members(object) == line_members(*line),
{
    let mut object = json_empty();
    json_put(&mut object, "server", json_object(server_context(&line.server)));
    json_put(&mut object, "log", json_object(log_context(&line.log)));
    object
}

} // verus!
