use rusty_response_api::config::{
    default_database_path, default_expire_time, default_host, default_port, Application, Database,
    JWTSettings, Network, Settings,
};
use rusty_response_api::crypt::BcryptController;
use rusty_response_api::model::{
    Ctx, ModelError, Page, PaginationArguments, ServerCreate, ServerLogCreate, UserAction,
    UserActionLogBmc, UserActionLogCreate, UserClaims, UserCreate, UserRole,
};
use rusty_response_api::text::{push_signed, push_unsigned};

static RAW: &str = "foobar";
static HASHED: &str = "$2a$12$aS6X5VGi7zebM9c86vPWE.7ZwePAsSi2AqU8fCm.ZMSoWcmXReYGq";

#[test]
fn test_encrypt() {
    let hashed = BcryptController::encrypt(RAW).unwrap();
    assert!(BcryptController::verify(RAW, &hashed).unwrap());
}

#[test]
fn test_verify() {
    assert!(BcryptController::verify(RAW, HASHED).unwrap());
}

#[test]
fn verify_tells_passwords_apart() {
    assert!(!BcryptController::verify("foobaz", HASHED).unwrap());
    assert!(BcryptController::verify(RAW, "not a hash").is_err());
    let hashed = BcryptController::encrypt(RAW).unwrap();
    assert_ne!(hashed, RAW);
    assert!(hashed.starts_with("$2b$12$"));
    assert_eq!(hashed.chars().count(), 60);
}

#[test]
fn decimal_text_of_integers() {
    let mut out = String::from(">");
    push_unsigned(&mut out, 0);
    push_unsigned(&mut out, 7);
    push_unsigned(&mut out, 1200);
    assert_eq!(out, ">071200");
    let mut out = String::new();
    push_signed(&mut out, -42);
    out.push(' ');
    push_signed(&mut out, 0);
    out.push(' ');
    push_signed(&mut out, i64::MAX);
    out.push(' ');
    push_signed(&mut out, i64::MIN);
    assert_eq!(out, "-42 0 9223372036854775807 -9223372036854775808");
    let mut out = String::new();
    push_unsigned(&mut out, u64::MAX);
    assert_eq!(out, "18446744073709551615");
}

#[test]
fn roles_parse_and_print() {
    assert_eq!(UserRole::from_str("admin").unwrap(), UserRole::Admin);
    assert_eq!(UserRole::from_str("user").unwrap(), UserRole::User);
    match UserRole::from_str("root") {
        Err(ModelError::InvalidUserRole { given }) => assert_eq!(given, "root"),
        other => panic!("unexpected {other:?}"),
    }
    assert!(UserRole::from_str("Admin").is_err());
    assert!(UserRole::from_str("admin ").is_err());
    assert!(UserRole::from_str("").is_err());
    assert_eq!(UserRole::Admin.to_string(), "admin");
    assert_eq!(UserRole::User.to_string(), "user");
    assert_eq!(UserRole::default(), UserRole::User);
    assert_eq!(
        ModelError::InvalidUserRole { given: "root".to_string() }.to_string(),
        "Invalid user role: root"
    );
    assert_eq!(ModelError::SqlxErr("locked".to_string()).to_string(), "sqlx error: locked");
    assert_eq!(ModelError::SerdeErr("eof".to_string()).to_string(), "serde error: eof");
    assert_eq!(
        ModelError::SqlxMigrateErr("v2".to_string()).to_string(),
        "sqlx migration error: v2"
    );
}

#[test]
fn user_actions_disassemble() {
    assert_eq!(
        UserAction::server_create(4).disassemble(),
        ("server_create".to_string(), Some(4))
    );
    assert_eq!(
        UserAction::server_delete(5).disassemble(),
        ("server_delete".to_string(), Some(5))
    );
    assert_eq!(
        UserAction::server_modify(6).disassemble(),
        ("server_modify".to_string(), Some(6))
    );
    assert_eq!(UserAction::user_signup(1).disassemble(), ("user_signup".to_string(), Some(1)));
    assert_eq!(UserAction::user_signin(2).disassemble(), ("user_signin".to_string(), Some(2)));
    assert_eq!(
        UserAction::user_verifyauth(3).disassemble(),
        ("user_verifyauth".to_string(), Some(3))
    );
    assert_eq!(UserAction::user_signin(2).to_string(), "user_signin");
}

#[test]
fn audit_rows_are_validated_by_name() {
    for name in [
        "server_create",
        "server_delete",
        "server_modify",
        "user_signup",
        "user_signin",
        "user_verifyauth",
    ] {
        assert!(UserActionLogBmc::validate_log(&UserActionLogCreate::new(name, None)));
    }
    assert!(!UserActionLogBmc::validate_log(&UserActionLogCreate::new("server_restart", Some(1))));
    assert!(!UserActionLogBmc::validate_log(&UserActionLogCreate::new("", None)));
    let (name, entity) = UserAction::server_modify(9).disassemble();
    let row = UserActionLogCreate::new(&name, entity);
    assert_eq!(row.action_entity, Some(9));
    assert!(UserActionLogBmc::validate_log(&row));
}

#[test]
fn builders_keep_their_arguments() {
    let sc = ServerCreate::new("alpha", "http://a", Some(3), None, Some(true));
    assert_eq!(sc.name, "alpha");
    assert_eq!(sc.url, "http://a");
    assert_eq!((sc.timeout, sc.interval, sc.is_turned_on), (Some(3), None, Some(true)));
    let slc = ServerLogCreate::new(1, true, 500, Some("b".to_string()), None);
    assert_eq!((slc.server_id, slc.failed, slc.status_code), (1, true, 500));
    assert_eq!(slc.body.as_deref(), Some("b"));
    assert_eq!(slc.reason, None);
    let uc = UserCreate::new("bob".to_string(), "pw".to_string(), None);
    assert_eq!(uc.username, "bob");
    assert_eq!(uc.password_raw, "pw");
    assert_eq!(uc.role_or_default(), UserRole::User);
    let uc = UserCreate::new("eve".to_string(), "pw".to_string(), Some(UserRole::Admin));
    assert_eq!(uc.role_or_default(), UserRole::Admin);
    let claims = UserClaims::new("TEST", 17);
    assert_eq!(claims.sub, "TEST");
    assert_eq!(claims.exp, 17);
    let ctx = Ctx::admin_root();
    assert_eq!(ctx.user_id, 0);
    assert_eq!(ctx.role, UserRole::Admin);
    let ctx = Ctx::new(5, UserRole::User);
    assert_eq!((ctx.user_id, ctx.role), (5, UserRole::User));
    let args = PaginationArguments::from((10, 20));
    assert_eq!((args.limit, args.offset), (10, 20));
    let page = Page::new(vec![1, 2, 3], 30, 3, 6);
    assert_eq!(page.items(), &vec![1, 2, 3]);
    assert_eq!((page.total(), page.limit(), page.offset()), (30, 3, 6));
    assert_eq!(page.into_items(), vec![1, 2, 3]);
}

#[test]
fn settings_default_to_local_values() {
    let settings = Settings::default();
    assert_eq!(settings.net().host(), "127.0.0.1");
    assert_eq!(settings.net().port(), 5000);
    assert_eq!(settings.app().jwt().jwt_secret(), "");
    assert_eq!(settings.app().jwt().expire_time(), 3600);
    assert_eq!(settings.database().path(), "./rusty-response-api/sqlite.db");
    assert_eq!(default_host(), "127.0.0.1");
    assert_eq!(default_port(), 5000);
    assert_eq!(default_expire_time(), 3600);
    assert_eq!(default_database_path(), "./rusty-response-api/sqlite.db");
}

#[test]
fn settings_keep_their_parts() {
    let settings = Settings::new(
        Network::new("0.0.0.0".to_string(), 8080),
        Application::new(JWTSettings::new("s3cret".to_string(), 60)),
        Database::new("/tmp/db.sqlite".to_string()),
    );
    assert_eq!(settings.net().host(), "0.0.0.0");
    assert_eq!(settings.net().port(), 8080);
    assert_eq!(settings.app().jwt().jwt_secret(), "s3cret");
    assert_eq!(settings.app().jwt().expire_time(), 60);
    assert_eq!(settings.database().path(), "/tmp/db.sqlite");
}
