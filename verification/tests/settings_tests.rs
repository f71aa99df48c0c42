use backend_core::settings::auth::{
    auth_context_from_claims, auth_context_from_decoded, extract_bearer_token, AuthContext,
    AuthError, AuthInitError, JwtAlgorithm, JwtClaims, JwtDecodeFailure, JwtValidator,
};
use backend_core::settings::config::{resolve_settings_config, ConfigError, SettingsConfigSource};
use backend_core::settings::enums::{AppKind, Role, Theme};
use backend_core::settings::errors::{ApplicationError, RepositoryError};
use backend_core::settings::http::{ensure_role_for_app_kind, HttpError};
use backend_core::settings::model::UserSettings;
use backend_core::settings::service::{
    locale_for_theme_update, settings_response, theme_for_locale_update,
    updated_settings_response, validate_account_id, validate_locale,
};
use backend_core::timestamp::Timestamp;

#[test]
fn app_kind_stored_forms_round_trip() {
    for k in [AppKind::Client, AppKind::Employee] {
        assert_eq!(AppKind::parse_db_str(k.as_db_str()), Ok(k));
        assert_eq!(k.as_db_str().parse::<AppKind>(), Ok(k));
    }
    assert_eq!(AppKind::Client.as_db_str(), "client");
    assert_eq!(AppKind::Employee.as_db_str(), "employee");
    assert_eq!(
        AppKind::parse_db_str("Client"),
        Err("Unsupported app kind: Client".to_string())
    );
}

#[test]
fn theme_stored_forms_round_trip() {
    for t in [Theme::Light, Theme::Dark, Theme::System] {
        assert_eq!(Theme::parse_db_str(t.as_db_str()), Ok(t));
        assert_eq!(t.as_db_str().parse::<Theme>(), Ok(t));
    }
    assert_eq!(Theme::Light.as_db_str(), "light");
    assert_eq!(Theme::Dark.as_db_str(), "dark");
    assert_eq!(Theme::System.as_db_str(), "system");
    assert_eq!("blue".parse::<Theme>(), Err("Unsupported theme: blue".to_string()));
}

#[test]
fn role_claims() {
    assert_eq!(Role::from_claim("CLIENT"), Ok(Role::Client));
    assert_eq!(Role::from_claim("EMPLOYEE"), Ok(Role::Employee));
    assert_eq!(Role::from_claim("client"), Err("unsupported role"));
    assert_eq!(Role::from_claim("ADMIN"), Err("unsupported role"));
}

#[test]
fn locale_checks() {
    assert!(validate_locale("en-US").is_ok());
    assert!(validate_locale("rus").is_ok());
    assert!(validate_locale("abcdefghijklmnop").is_ok());
    assert!(matches!(validate_locale("abcdefghijklmnopq"), Err(ApplicationError::InvalidLocale)));
    assert!(matches!(validate_locale(""), Err(ApplicationError::InvalidLocale)));
    assert!(matches!(validate_locale("  \t"), Err(ApplicationError::InvalidLocale)));
    // Nine two-byte scalars are 18 bytes.
    assert!(validate_locale("\u{e9}\u{e9}\u{e9}\u{e9}\u{e9}\u{e9}\u{e9}\u{e9}\u{e9}").is_err());
    assert!(validate_locale("\u{e9}\u{e9}\u{e9}\u{e9}\u{e9}\u{e9}\u{e9}\u{e9}").is_ok());
}

#[test]
fn account_id_checks() {
    assert!(validate_account_id("acc-1").is_ok());
    assert!(validate_account_id(&"a".repeat(128)).is_ok());
    assert!(matches!(
        validate_account_id(&"a".repeat(129)),
        Err(ApplicationError::InvalidAccountId)
    ));
    assert!(matches!(validate_account_id(" "), Err(ApplicationError::InvalidAccountId)));
}

fn stored(theme: Theme, locale: &str) -> UserSettings {
    let t = Timestamp::new(0, 0).unwrap();
    UserSettings {
        user_id: 7,
        app_kind: AppKind::Client,
        theme,
        locale: locale.to_string(),
        version: 0,
        created_at: t,
        updated_at: t,
    }
}

#[test]
fn settings_read_uses_defaults_when_nothing_is_stored() {
    let default_locale = "rus".to_string();
    let r = settings_response(AppKind::Employee, None, vec!["x".to_string()], &default_locale);
    assert_eq!(r.app_kind, AppKind::Employee);
    assert_eq!(r.theme, Theme::System);
    assert_eq!(r.locale, "rus");
    assert_eq!(r.hidden_account_ids, vec!["x".to_string()]);
    let r = settings_response(
        AppKind::Client,
        Some(stored(Theme::Dark, "en")),
        Vec::new(),
        &default_locale,
    );
    assert_eq!(r.theme, Theme::Dark);
    assert_eq!(r.locale, "en");
}

#[test]
fn updates_keep_the_other_setting() {
    let default_locale = "rus".to_string();
    assert_eq!(locale_for_theme_update(&None, &default_locale), "rus");
    assert_eq!(locale_for_theme_update(&Some(stored(Theme::Dark, "de")), &default_locale), "de");
    assert_eq!(theme_for_locale_update(&None), Theme::System);
    assert_eq!(theme_for_locale_update(&Some(stored(Theme::Light, "de"))), Theme::Light);
    let r = updated_settings_response(AppKind::Client, stored(Theme::Light, "fr"), Vec::new());
    assert_eq!(r.theme, Theme::Light);
    assert_eq!(r.locale, "fr");
}

#[test]
fn role_gate_per_app_kind() {
    let ctx = AuthContext { user_id: 1, roles: vec![Role::Employee] };
    assert!(ensure_role_for_app_kind(&ctx, AppKind::Employee).is_ok());
    assert!(matches!(
        ensure_role_for_app_kind(&ctx, AppKind::Client),
        Err(ApplicationError::Forbidden)
    ));
    let none = AuthContext { user_id: 1, roles: vec![] };
    assert!(ensure_role_for_app_kind(&none, AppKind::Employee).is_err());
}

#[test]
fn http_error_answers() {
    let a = HttpError::Auth(AuthError::ExpiredToken).into_answer();
    assert_eq!((a.status, a.message.as_str()), (401, "Unauthorized"));
    let a = HttpError::from(ApplicationError::Forbidden).into_answer();
    assert_eq!((a.status, a.message.as_str()), (403, "Forbidden"));
    let a = HttpError::Application(ApplicationError::InvalidLocale).into_answer();
    assert_eq!((a.status, a.message.as_str()), (400, "Invalid locale"));
    let a = HttpError::Application(ApplicationError::InvalidAccountId).into_answer();
    assert_eq!((a.status, a.message.as_str()), (400, "Invalid account id"));
    let a = HttpError::Application(ApplicationError::Persistence(RepositoryError::Database(
        "down".to_string(),
    )))
    .into_answer();
    assert_eq!((a.status, a.message.as_str()), (500, "Internal server error"));
    let a = HttpError::Internal.into_answer();
    assert_eq!((a.status, a.message.as_str()), (500, "Internal server error"));
    let a = HttpError::from(AuthError::MissingAuthorizationHeader).into_answer();
    assert_eq!(a.status, 401);
}

#[test]
fn error_messages() {
    assert_eq!(ApplicationError::Forbidden.message(), "Forbidden");
    assert_eq!(ApplicationError::InvalidLocale.message(), "Invalid locale");
    assert_eq!(AuthError::InvalidSubject.message(), "Invalid token subject");
    assert_eq!(AuthError::UnsupportedRoleClaim.message(), "Unsupported role claim");
}

#[test]
fn bearer_token_extraction() {
    assert_eq!(extract_bearer_token(None), Err(AuthError::MissingAuthorizationHeader));
    assert_eq!(extract_bearer_token(Some(b"Bearer abc.def")), Ok("abc.def".to_string()));
    assert_eq!(extract_bearer_token(Some(b"Bearer ")), Ok(String::new()));
    assert_eq!(
        extract_bearer_token(Some(b"Basic abc")),
        Err(AuthError::InvalidAuthorizationHeader)
    );
    assert_eq!(extract_bearer_token(Some(b"bearer abc")), Err(AuthError::InvalidAuthorizationHeader));
    assert_eq!(extract_bearer_token(Some(b"Bearer")), Err(AuthError::InvalidAuthorizationHeader));
    assert_eq!(
        extract_bearer_token(Some(&[66, 101, 97, 114, 101, 114, 32, 200])),
        Err(AuthError::InvalidAuthorizationHeader)
    );
    assert_eq!(extract_bearer_token(Some(b"Bearer a\tb")), Ok("a\tb".to_string()));
}

fn claims(sub: &str, roles: &[&str]) -> JwtClaims {
    JwtClaims {
        sub: sub.to_string(),
        roles: roles.iter().map(|r| r.to_string()).collect(),
        exp: 2_000_000_000,
        iat: 1_000_000_000,
    }
}

#[test]
fn claims_to_identity() {
    let ctx =
        auth_context_from_claims(&claims("67e55044-10b1-426f-9247-bb680e5fe0c8", &["CLIENT", "EMPLOYEE"]))
            .unwrap();
    assert_eq!(ctx.user_id, 0x67e5504410b1426f9247bb680e5fe0c8);
    assert_eq!(ctx.roles, vec![Role::Client, Role::Employee]);
    assert_eq!(
        auth_context_from_claims(&claims("not-a-uuid", &["CLIENT"])).unwrap_err(),
        AuthError::InvalidSubject
    );
    assert_eq!(
        auth_context_from_claims(&claims("67e55044-10b1-426f-9247-bb680e5fe0c8", &["CLIENT", "ROOT"]))
            .unwrap_err(),
        AuthError::UnsupportedRoleClaim
    );
    assert_eq!(
        auth_context_from_claims(&claims("nope", &["ROOT"])).unwrap_err(),
        AuthError::InvalidSubject
    );
}

#[test]
fn decode_failures_are_told_apart() {
    assert_eq!(
        auth_context_from_decoded(Err(JwtDecodeFailure::ExpiredSignature)).unwrap_err(),
        AuthError::ExpiredToken
    );
    assert_eq!(
        auth_context_from_decoded(Err(JwtDecodeFailure::Invalid)).unwrap_err(),
        AuthError::InvalidToken
    );
    let ok = auth_context_from_decoded(Ok(claims("67e55044-10b1-426f-9247-bb680e5fe0c8", &[])))
        .unwrap();
    assert!(ok.roles.is_empty());
}

fn config_source() -> SettingsConfigSource {
    SettingsConfigSource {
        server_port: None,
        database_url: Some("postgres://db".to_string()),
        jwt_secret: Some("c2VjcmV0".to_string()),
        default_locale: None,
        fault_injection_enabled: None,
    }
}

#[test]
fn settings_config_defaults() {
    let v = resolve_settings_config(config_source()).unwrap();
    assert_eq!(v.server_port, 8084);
    assert_eq!(v.database_url, "postgres://db");
    assert_eq!(v.jwt_secret, "c2VjcmV0");
    assert_eq!(v.default_locale, "rus");
    assert!(!v.fault_injection_enabled);
}

#[test]
fn settings_config_values_and_refusals() {
    let mut s = config_source();
    s.server_port = Some("+80".to_string());
    s.fault_injection_enabled = Some("true".to_string());
    s.default_locale = Some("en".to_string());
    let v = resolve_settings_config(s).unwrap();
    assert_eq!(v.server_port, 80);
    assert!(v.fault_injection_enabled);
    assert_eq!(v.default_locale, "en");
    let mut s = config_source();
    s.fault_injection_enabled = Some("TRUE".to_string());
    assert!(!resolve_settings_config(s).unwrap().fault_injection_enabled);
    let mut s = config_source();
    s.server_port = Some("65536".to_string());
    s.database_url = None;
    assert!(matches!(resolve_settings_config(s), Err(ConfigError::InvalidServerPort(_))));
    let mut s = config_source();
    s.server_port = Some(" 80".to_string());
    assert!(matches!(resolve_settings_config(s), Err(ConfigError::InvalidServerPort(_))));
    let mut s = config_source();
    s.database_url = None;
    s.jwt_secret = None;
    assert!(matches!(resolve_settings_config(s), Err(ConfigError::MissingDatabaseUrl)));
    let mut s = config_source();
    s.jwt_secret = None;
    assert!(matches!(resolve_settings_config(s), Err(ConfigError::MissingJwtSecret)));
}

#[test]
fn validator_accepts_base64_secret() {
    let v = JwtValidator::new("c2VjcmV0").ok().unwrap();
    assert_eq!(v.algorithm(), JwtAlgorithm::HS256);
    assert!(v.validate_exp());
    assert_eq!(v.key_bytes(), b"secret");
    let empty = JwtValidator::new("").ok().unwrap();
    assert!(empty.key_bytes().is_empty());
    let v = JwtValidator::new("AP8=").ok().unwrap();
    assert_eq!(v.key_bytes(), &[0u8, 255u8][..]);
}

#[test]
fn auth_init_error_message() {
    assert_eq!(AuthInitError::InvalidJwtSecret.message(), "Invalid JWT base64 secret");
}

#[test]
fn validator_refuses_secret_that_is_not_base64() {
    assert!(matches!(JwtValidator::new("not base64!!"), Err(AuthInitError::InvalidJwtSecret)));
    assert!(matches!(JwtValidator::new("c2VjcmV0="), Err(AuthInitError::InvalidJwtSecret)));
    assert!(matches!(JwtValidator::new("c2VjcmV"), Err(AuthInitError::InvalidJwtSecret)));
    assert!(matches!(JwtValidator::new("AP9="), Err(AuthInitError::InvalidJwtSecret)));
}
