use axum_server::auth::{claims_json, create_token, create_token_at, Claims};
use axum_server::config::{Settings, SettingsSource};
use axum_server::errors::AppError;
use axum_server::token::authenticate;

const ID: u128 = 0x550e8400_e29b_41d4_a716_446655440000;

fn settings(hours: Option<&str>) -> Settings {
    Settings::new(SettingsSource {
        server_host: None,
        server_port: None,
        database_url: "postgres://localhost/app".to_string(),
        database_max_connections: None,
        jwt_secret: "test-secret".to_string(),
        jwt_expiration_hours: hours.map(|h| h.to_string()),
        app_env: None,
    })
}

fn now() -> i64 {
    std::time::SystemTime::now().duration_since(std::time::UNIX_EPOCH).unwrap().as_secs() as i64
}

#[test]
fn a_signed_token_is_accepted_with_its_claims() {
    let t = now();
    let token = create_token_at(ID, t, &settings(None)).unwrap();
    let header = format!("Bearer {token}");
    let text = authenticate(Some(header.as_bytes()), "test-secret").expect("accepted");
    let issued = Claims {
        sub: "550e8400-e29b-41d4-a716-446655440000".to_string(),
        exp: (t + 24 * 3600) as usize,
        iat: t as usize,
    };
    assert_eq!(text, claims_json(&issued));
}

#[test]
fn a_token_made_now_is_accepted() {
    let token = create_token(ID, &settings(Some("1"))).unwrap().unwrap();
    let header = format!("Bearer {token}");
    let text = authenticate(Some(header.as_bytes()), "test-secret").unwrap();
    assert!(text.starts_with(r#"{"sub":"550e8400-e29b-41d4-a716-446655440000","exp":"#));
}

#[test]
fn a_token_signed_with_another_secret_is_refused() {
    let token = create_token_at(ID, now(), &settings(None)).unwrap();
    let header = format!("Bearer {token}");
    assert_eq!(authenticate(Some(header.as_bytes()), "other"), Err(AppError::InvalidToken));
}

#[test]
fn an_expired_token_is_refused() {
    let token = create_token_at(ID, 1_000_000_000, &settings(None)).unwrap();
    let header = format!("Bearer {token}");
    assert_eq!(authenticate(Some(header.as_bytes()), "test-secret"), Err(AppError::InvalidToken));
}

#[test]
fn a_tampered_token_is_refused() {
    let token = create_token_at(ID, now(), &settings(None)).unwrap();
    let mut bytes = token.into_bytes();
    let last = bytes.len() - 1;
    bytes[last] = if bytes[last] == b'A' { b'B' } else { b'A' };
    let header = format!("Bearer {}", String::from_utf8(bytes).unwrap());
    assert_eq!(authenticate(Some(header.as_bytes()), "test-secret"), Err(AppError::InvalidToken));
}

#[test]
fn header_refusals_come_first() {
    assert_eq!(authenticate(None, "test-secret"), Err(AppError::MissingToken));
    assert_eq!(authenticate(Some(b"Token abc"), "test-secret"), Err(AppError::InvalidToken));
    assert_eq!(authenticate(Some(b"Bearer not-a-jwt"), "test-secret"), Err(AppError::InvalidToken));
}
