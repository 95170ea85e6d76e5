use axum_server::config::{LogConfig, LogFormat, Settings, SettingsSource};

fn source() -> SettingsSource {
    SettingsSource {
        server_host: None,
        server_port: None,
        database_url: "postgres://localhost/app".to_string(),
        database_max_connections: None,
        jwt_secret: "SECRET-REDACTED".to_string(),
        jwt_expiration_hours: None,
        app_env: None,
    }
}

#[test]
fn unset_variables_take_their_defaults() {
    let s = Settings::new(source());
    assert_eq!(s.server.host, "0.0.0.0");
    assert_eq!(s.server.port, 8080);
    assert_eq!(s.database.url, "postgres://localhost/app");
    assert_eq!(s.database.max_connections, 10);
    assert_eq!(s.jwt.secret, "SECRET-REDACTED");
    assert_eq!(s.jwt.expiration_hours, 24);
    assert_eq!(s.app.env, "development");
}

#[test]
fn set_variables_are_read() {
    let mut src = source();
    src.server_host = Some("127.0.0.1".to_string());
    src.server_port = Some("3000".to_string());
    src.database_max_connections = Some("25".to_string());
    src.jwt_expiration_hours = Some("-2".to_string());
    src.app_env = Some("production".to_string());
    let s = Settings::new(src);
    assert_eq!(s.server.host, "127.0.0.1");
    assert_eq!(s.server.port, 3000);
    assert_eq!(s.database.max_connections, 25);
    assert_eq!(s.jwt.expiration_hours, -2);
    assert_eq!(s.app.env, "production");
}

#[test]
fn numbers_that_do_not_parse_fall_back_to_defaults() {
    let mut src = source();
    src.server_port = Some("70000".to_string());
    src.database_max_connections = Some("ten".to_string());
    src.jwt_expiration_hours = Some("".to_string());
    let s = Settings::new(src);
    assert_eq!(s.server.port, 8080);
    assert_eq!(s.database.max_connections, 10);
    assert_eq!(s.jwt.expiration_hours, 24);
}

#[test]
fn server_address_joins_host_and_port() {
    let s = Settings::new(source());
    assert_eq!(s.server_address(), "0.0.0.0:8080");
    let mut src = source();
    src.server_host = Some("localhost".to_string());
    src.server_port = Some("443".to_string());
    assert_eq!(Settings::new(src).server_address(), "localhost:443");
}

#[test]
fn server_address_port_reads_back() {
    for p in [1u16, 80, 8080, 65535] {
        let mut src = source();
        src.server_port = Some(p.to_string());
        let s = Settings::new(src);
        let addr = s.server_address();
        let port_text = addr.rsplit(':').next().unwrap().to_string();
        let mut again = source();
        again.server_port = Some(port_text);
        assert_eq!(Settings::new(again).server.port, p);
    }
}

#[test]
fn production_logs_json_at_info() {
    let mut src = source();
    src.app_env = Some("production".to_string());
    let s = Settings::new(src);
    assert!(s.is_production());
    let c = LogConfig::for_settings(&s);
    assert_eq!(c.format, LogFormat::Json);
    assert_eq!(c.default_filter, "info");
}

#[test]
fn other_environments_log_pretty_at_debug() {
    for env in ["development", "staging", "Production", ""] {
        let mut src = source();
        src.app_env = Some(env.to_string());
        let s = Settings::new(src);
        assert!(!s.is_production());
        let c = LogConfig::for_settings(&s);
        assert_eq!(c.format, LogFormat::Pretty);
        assert_eq!(c.default_filter, "debug,axum_server=debug,sqlx=warn,tower_http=debug");
    }
}

#[test]
fn server_address_splits_back_into_host_and_port() {
    let mut src = source();
    src.server_host = Some("127.0.0.1".to_string());
    src.server_port = Some("3000".to_string());
    let addr = Settings::new(src).server_address();
    assert_eq!(addr.rsplit_once(':'), Some(("127.0.0.1", "3000")));
}
