use gamba::config::{Base, ConfigError, DatabaseConfig, DiscordConfig, DEFAULT_POOL_SIZE};
use gamba::controllers::bet::validate_bookmaker_id;
use gamba::controllers::site_metadata::site_metadata;
use gamba::controllers::user_session::require_discord_user;
use gamba::database::{parse_amount, user_from_row, user_or_not_found, BookmakerScope, UserBetsModel};
use gamba::errors::{AppError, AppErrorKind, ErrorSource};
use gamba::middleware::{common_headers, is_nginx_success_code, CommonHeader};
use gamba::oauth::get_oauth_endpoints;
use gamba::router::{fallback, FallbackResponse};
use gamba::Env;

#[test]
fn coolify_url_means_production() {
    assert_eq!(Base::from_coolify_url(Some("https://x".to_string())).env, Env::Production);
    assert_eq!(Base::from_coolify_url(None).env, Env::Development);
}

#[test]
fn database_config_defaults_pool_size() {
    let c = DatabaseConfig::from_values(Some("postgres://db".to_string()), None).unwrap();
    assert_eq!(c.url, "postgres://db");
    assert_eq!(c.pool_size, DEFAULT_POOL_SIZE);
    assert_eq!(c.pool_size, 3);
}

#[test]
fn database_config_reads_pool_size() {
    let c = DatabaseConfig::from_values(Some("u".to_string()), Some("10".to_string())).unwrap();
    assert_eq!(c.pool_size, 10);
    let c = DatabaseConfig::from_values(Some("u".to_string()), Some("+7".to_string())).unwrap();
    assert_eq!(c.pool_size, 7);
    let c = DatabaseConfig::from_values(Some("u".to_string()), Some("4294967295".to_string()))
        .unwrap();
    assert_eq!(c.pool_size, 4294967295);
    let c = DatabaseConfig::from_values(Some("u".to_string()), Some("007".to_string())).unwrap();
    assert_eq!(c.pool_size, 7);
    for bad in ["", "+", "-1", "1_000", "12a", "99999999999x", "٣"] {
        assert_eq!(
            DatabaseConfig::from_values(Some("u".to_string()), Some(bad.to_string())).err(),
            Some(ConfigError::InvalidVariable("DB_ASYNC_POOL_SIZE".to_string())),
            "{bad:?}"
        );
        assert!(bad.parse::<u32>().is_err());
    }
}

#[test]
fn database_config_errors() {
    assert_eq!(
        DatabaseConfig::from_values(Some("u".to_string()), Some("ten".to_string())).err(),
        Some(ConfigError::InvalidVariable("DB_ASYNC_POOL_SIZE".to_string()))
    );
    assert_eq!(
        DatabaseConfig::from_values(Some("u".to_string()), Some("4294967296".to_string())).err(),
        Some(ConfigError::InvalidVariable("DB_ASYNC_POOL_SIZE".to_string()))
    );
    assert_eq!(
        DatabaseConfig::from_values(None, Some("5".to_string())).err(),
        Some(ConfigError::MissingVariable("DATABASE_URL".to_string()))
    );
    assert_eq!(
        DatabaseConfig::from_values(None, Some(" 5".to_string())).err(),
        Some(ConfigError::InvalidVariable("DB_ASYNC_POOL_SIZE".to_string()))
    );
}

#[test]
fn bookmaker_id_must_have_19_chars() {
    assert!(validate_bookmaker_id("1234567890123456789").is_ok());
    assert_eq!(
        validate_bookmaker_id("123").unwrap_err(),
        "Enter a valid bookmaker ID".to_string()
    );
    assert!(validate_bookmaker_id("12345678901234567890").is_err());
}

#[test]
fn metadata_with_and_without_values() {
    let m = site_metadata(Some("abc".to_string()), Some("main".to_string()), "0.1.0");
    assert_eq!(m.name, "gamba:main");
    assert_eq!(m.version, "0.1.0");
    assert_eq!(m.deployed_sha, "abc");
    assert_eq!(m.commit, "abc");
    let m = site_metadata(None, None, "1.2.3");
    assert_eq!(m.name, "gamba:unknown");
    assert_eq!(m.deployed_sha, "unknown");
    assert_eq!(m.commit, "unknown");
}

#[test]
fn bookmaker_scope_names() {
    assert_eq!(BookmakerScope::Bookmaker.db_name(), "bookmaker");
    assert_eq!(BookmakerScope::Exchange.db_name(), "exchange");
    assert_eq!(BookmakerScope::from_db_name("exchange"), Some(BookmakerScope::Exchange));
    assert_eq!(BookmakerScope::from_db_name("bookmaker"), Some(BookmakerScope::Bookmaker));
    assert_eq!(BookmakerScope::from_db_name("Bookmaker"), None);
}

#[test]
fn user_bets_model_holds_ids() {
    let link = UserBetsModel { user_id: "u".to_string(), bet_id: "b".to_string() };
    assert_eq!(link.user_id, "u");
    assert_eq!(link.bet_id, "b");
}

#[test]
fn missing_user_is_not_found() {
    match user_or_not_found(None) {
        Err(AppError::External { source, message }) => {
            assert_eq!(source, ErrorSource::Anyhow);
            assert_eq!(message, "User not found");
        }
        _ => panic!("expected an error"),
    }
}

#[test]
fn amounts_parse_as_decimals() {
    let d = parse_amount("12.50").unwrap();
    assert_eq!(d.to_string(), "12.50");
    assert_eq!(parse_amount("-3").unwrap().to_string(), "-3");
    assert!(parse_amount("1e3").is_ok());
    match parse_amount("twelve") {
        Err(AppError::External { message, .. }) => assert_eq!(message, "Failed to parse amount"),
        _ => panic!("expected an error"),
    }
    assert!(parse_amount("NaN").is_err());
}

#[test]
fn discord_profile_errors() {
    match require_discord_user(None) {
        Err(AppError::Custom { status, detail }) => {
            assert_eq!(status, 500);
            assert_eq!(detail, "Error obtaining token");
        }
        _ => panic!("expected an error"),
    }
}

#[test]
fn common_headers_on_success() {
    let h = common_headers(200);
    assert_eq!(h.len(), 6);
    assert_eq!(h[0], (CommonHeader::AccessControlAllowOrigin, "*"));
    assert_eq!(h[1], (CommonHeader::StrictTransportSecurity, "max-age=31536000"));
    assert_eq!(h[2], (CommonHeader::XContentTypeOptions, "nosniff"));
    assert_eq!(h[3], (CommonHeader::XFrameOptions, "SAMEORIGIN"));
    assert_eq!(h[4], (CommonHeader::XXssProtection, "0"));
    assert_eq!(h[5], (CommonHeader::Vary, "Accept, Accept-Encoding, Cookie"));
}

#[test]
fn common_headers_on_error() {
    let h = common_headers(404);
    assert_eq!(h.len(), 2);
    assert_eq!(h[0].0, CommonHeader::AccessControlAllowOrigin);
    assert_eq!(h[1].0, CommonHeader::StrictTransportSecurity);
    assert_eq!(common_headers(500).len(), 2);
}

#[test]
fn nginx_codes() {
    for code in [200u16, 201, 204, 206, 301, 302, 303, 304, 307, 308] {
        assert!(is_nginx_success_code(code));
    }
    for code in [202u16, 203, 400, 404, 500] {
        assert!(!is_nginx_success_code(code));
    }
}

#[test]
fn fallback_answers() {
    assert!(matches!(fallback("HEAD"), FallbackResponse::EmptyNotFound));
    match fallback("GET") {
        FallbackResponse::NotFound(AppError::Custom { status, detail }) => {
            assert_eq!(status, 404);
            assert_eq!(detail, "Not Found");
        }
        other => panic!("unexpected {:?}", other),
    }
}

#[test]
fn oauth_endpoints_from_config() {
    let config = DiscordConfig {
        client_id: "id".to_string(),
        client_secret: "secret".to_string(),
        redirect_uri: "http://localhost:3000/callback".to_string(),
    };
    let e = get_oauth_endpoints(&config).unwrap();
    assert_eq!(e.client_id, "id");
    assert_eq!(e.client_secret, "secret");
    assert_eq!(e.redirect_url.as_str(), "http://localhost:3000/callback");
    assert_eq!(e.auth_url.as_str(), "https://discord.com/oauth2/authorize");
    assert_eq!(e.token_url.as_str(), "https://discord.com/api/oauth2/token");
}

#[test]
fn oauth_endpoints_reject_bad_redirect() {
    let config = DiscordConfig {
        client_id: "id".to_string(),
        client_secret: "secret".to_string(),
        redirect_uri: "not a url".to_string(),
    };
    match get_oauth_endpoints(&config) {
        Err(e) => assert!(e.is(AppErrorKind::External(ErrorSource::Url))),
        Ok(_) => panic!("expected an error"),
    }
}

#[test]
fn user_row_has_no_access_token() {
    let created = chrono::NaiveDateTime::default();
    let u = user_from_row("1".to_string(), "chiko".to_string(), Some("a".to_string()), created);
    assert_eq!(u.id, "1");
    assert_eq!(u.username, "chiko");
    assert_eq!(u.avatar.as_deref(), Some("a"));
    assert_eq!(u.created_at, created);
    assert_eq!(u.access_token, None);
}
