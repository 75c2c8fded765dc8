use rusty_response_api::crypt::CryptError;
use rusty_response_api::model::{
    Ctx, ModelError, Notifier, NotifierCreate, PaginationArguments, Server, ServerCreate,
    ServerLogCreate, User, UserAction, UserActionLogBmc, UserActionLogCreate, UserRole,
};
use rusty_response_api::notify::Error as NotifyError;
use rusty_response_api::web::{LogsPageQuery, WebError};

fn stored_server() -> Server {
    ServerCreate::new("alpha", "http://a", None, None, None).into_server(
        7,
        3,
        "2025-01-01 00:00:00".to_string(),
        "2025-01-01 00:00:00".to_string(),
    )
}

#[test]
fn a_new_server_gets_the_defaults() {
    let server = stored_server();
    assert_eq!((server.id, server.user_id), (3, 7));
    assert_eq!(server.name, "alpha");
    assert_eq!(server.url, "http://a");
    assert_eq!(server.timeout, 10);
    assert_eq!(server.interval, 60);
    assert!(!server.is_turned_on);
    assert_eq!(server.last_seen_status_code, None);
    assert_eq!(server.last_seen_reason, None);
    assert_eq!(server.created_at, "2025-01-01 00:00:00");
    let server = ServerCreate::new("b", "http://b", Some(3), Some(5), Some(true)).into_server(
        1,
        2,
        "c".to_string(),
        "u".to_string(),
    );
    assert_eq!((server.timeout, server.interval, server.is_turned_on), (3, 5, true));
    assert_eq!((server.created_at.as_str(), server.updated_at.as_str()), ("c", "u"));
}

#[test]
fn a_zero_interval_is_not_acceptable() {
    assert!(ServerCreate::new("a", "u", None, None, None).is_acceptable());
    assert!(ServerCreate::new("a", "u", Some(1), Some(1), None).is_acceptable());
    assert!(!ServerCreate::new("a", "u", None, Some(0), None).is_acceptable());
    assert!(!ServerCreate::new("a", "u", Some(0), None, None).is_acceptable());
    assert!(!ServerCreate::new("a", "u", Some(5), Some(-1), None).is_acceptable());
}

#[test]
fn a_change_keeps_what_it_does_not_name() {
    let mut found = stored_server();
    found.last_seen_status_code = Some(500);
    found.last_seen_reason = Some("HTTP 500".to_string());
    let change = ServerCreate::new("beta", "http://b", Some(2), None, None);
    let changed = found.modified(change, "2025-02-02 00:00:00".to_string());
    assert_eq!((changed.id, changed.user_id), (3, 7));
    assert_eq!(changed.name, "beta");
    assert_eq!(changed.url, "http://b");
    assert_eq!(changed.timeout, 2);
    assert_eq!(changed.interval, 60);
    assert!(!changed.is_turned_on);
    assert_eq!(changed.last_seen_status_code, Some(500));
    assert_eq!(changed.last_seen_reason.as_deref(), Some("HTTP 500"));
    assert_eq!(changed.created_at, "2025-01-01 00:00:00");
    assert_eq!(changed.updated_at, "2025-02-02 00:00:00");
}

#[test]
fn owners_and_administrators_may_access() {
    assert!(Ctx::new(4, UserRole::User).may_access(4));
    assert!(!Ctx::new(4, UserRole::User).may_access(5));
    assert!(Ctx::new(4, UserRole::Admin).may_access(5));
    assert!(Ctx::admin_root().may_access(123));
}

#[test]
fn listings_default_to_ten_from_the_start() {
    let args = PaginationArguments::or_default(None, None);
    assert_eq!((args.limit, args.offset), (10, 0));
    let args = PaginationArguments::or_default(Some(3), Some(9));
    assert_eq!((args.limit, args.offset), (3, 9));
    assert!(!LogsPageQuery { limit: 1, offset: 0, failed: None }.only_failed());
    assert!(!LogsPageQuery { limit: 1, offset: 0, failed: Some(false) }.only_failed());
    assert!(LogsPageQuery { limit: 1, offset: 0, failed: Some(true) }.only_failed());
}

#[test]
fn notifier_requests_need_json_credentials() {
    let request = NotifierCreate::new(
        1,
        "telegram",
        "{\"chat_id\":1,\"token\":\"t\"}".to_string(),
        "{{server.name}}".to_string(),
        None,
    )
    .unwrap();
    assert_eq!(request.server_id, 1);
    assert_eq!(request.provider, "telegram");
    assert_eq!(request.credentials, "{\"chat_id\":1,\"token\":\"t\"}");
    assert_eq!(request.format, "{{server.name}}");
    assert_eq!(request.active, None);
    let refused = NotifierCreate::new(1, "telegram", "{chat_id".to_string(), String::new(), None);
    assert!(matches!(refused, Err(ModelError::SerdeErr(_))));
    let refused = NotifierCreate::new(1, "telegram", String::new(), String::new(), None);
    assert!(matches!(refused, Err(ModelError::SerdeErr(_))));
}

#[test]
fn notifiers_are_stored_inactive_unless_asked() {
    let request =
        NotifierCreate::new(2, "discord", "{}".to_string(), "f".to_string(), None).unwrap();
    let stored = request.into_notifier(5, 9, "c".to_string(), "u".to_string());
    assert_eq!((stored.id, stored.user_id, stored.server_id), (9, 5, 2));
    assert_eq!(stored.provider, "discord");
    assert!(!stored.active);
    let change =
        NotifierCreate::new(3, "telegram", "[]".to_string(), "g".to_string(), None).unwrap();
    let active = Notifier { active: true, ..stored };
    let changed = active.modified(change, "later".to_string());
    assert_eq!((changed.id, changed.user_id, changed.server_id), (9, 5, 3));
    assert_eq!(changed.provider, "telegram");
    assert_eq!(changed.credentials, "[]");
    assert_eq!(changed.format, "g");
    assert!(changed.active);
    assert_eq!(changed.created_at, "c");
    assert_eq!(changed.updated_at, "later");
    let change =
        NotifierCreate::new(3, "telegram", "[]".to_string(), "g".to_string(), Some(false)).unwrap();
    assert!(!changed.modified(change, "l".to_string()).active);
}

#[test]
fn rows_keep_what_was_written() {
    let log = ServerLogCreate::new(4, true, 503, Some("b".to_string()), Some("r".to_string()))
        .into_log(11, "now".to_string());
    assert_eq!((log.id, log.server_id, log.failed, log.status_code), (11, 4, true, 503));
    assert_eq!(log.body.as_deref(), Some("b"));
    assert_eq!(log.reason.as_deref(), Some("r"));
    assert_eq!(log.created_at, "now");
    let row = UserActionLogCreate::of(&UserAction::server_delete(8));
    assert_eq!(row.action, "server_delete");
    assert_eq!(row.action_entity, Some(8));
    assert!(UserActionLogBmc::validate_log(&row));
    let stored = row.into_log(2, 30, "now".to_string());
    assert_eq!((stored.id, stored.user_id), (30, 2));
    assert_eq!(stored.action, "server_delete");
    assert_eq!(stored.action_entity, Some(8));
    let user =
        User::created("bob".to_string(), UserRole::Admin, 1, "c".to_string(), "u".to_string());
    assert_eq!(user.username, "bob");
    assert_eq!(user.password_hash, "OMITTED");
    assert_eq!(user.role, "admin");
    assert_eq!(user.id, 1);
}

#[test]
fn failures_map_to_status_and_message() {
    let cases: Vec<(WebError, u16, &str)> = vec![
        (WebError::CookieNotFound, 401, "Missing authentication cookie"),
        (
            WebError::InvalidToken(CryptError::JwtError("expired".to_string())),
            401,
            "Invalid authentication token",
        ),
        (WebError::UserNotFound(3), 401, "User not found"),
        (WebError::InvalidCredentials, 401, "Invalid credentials"),
        (WebError::UserAlreadyExists, 409, "User already exists"),
        (WebError::ServerAlreadyExists, 409, "Server with such name already exists"),
        (WebError::ServerNotFound, 404, "Server with such ID is not found"),
        (WebError::ServerNotAllowed, 403, "You don't own that server to interact with it"),
        (
            WebError::ServerNotAcceptable,
            400,
            "Timeout and interval must be at least one second",
        ),
        (WebError::NotifierNotFound, 404, "Notifier with such ID is not found"),
        (WebError::NotifierNotAllowed, 403, "You don't own that notifier to interact with it"),
        (
            WebError::NotifierError(NotifyError::UnknownProvider("x".to_string())),
            400,
            "Notifier error occured.",
        ),
        (
            WebError::DatabaseError(ModelError::SqlxErr("locked".to_string())),
            500,
            "Database error occurred. Try again later.",
        ),
        (WebError::InternalServerError("boom".to_string()), 500, "An unexpected error occurred"),
    ];
    for (error, status, message) in cases {
        assert_eq!(error.status_code(), status);
        assert_eq!(error.response_message(), message);
    }
}

#[test]
fn probes_wait_at_least_a_second() {
    let mut server = stored_server();
    assert_eq!((server.probe_interval(), server.probe_timeout()), (60, 10));
    server.interval = 1;
    server.timeout = 0;
    assert_eq!((server.probe_interval(), server.probe_timeout()), (1, 1));
    server.interval = -5;
    server.timeout = i64::MAX;
    assert_eq!((server.probe_interval(), server.probe_timeout()), (1, 9223372036854775807));
}
