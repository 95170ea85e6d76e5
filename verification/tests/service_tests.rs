use axum_server::config::{Settings, SettingsSource};
use axum_server::errors::AppError;
use axum_server::models::{
    LoginRequest, RegisterRequest, UpdateProfileRequest, User, UserResponse,
};
use axum_server::password::hash_password;
use axum_server::service::{
    LoginStage, ProfileStage, RegisterStage, RepoCall, RepoReply, Step, UpdateStage, UserService,
};
use std::collections::HashMap;

const ID: u128 = 0x550e8400_e29b_41d4_a716_446655440000;

fn service() -> UserService {
    UserService::new(Settings::new(SettingsSource {
        server_host: None,
        server_port: None,
        database_url: "postgres://localhost/app".to_string(),
        database_max_connections: None,
        jwt_secret: "test-secret".to_string(),
        jwt_expiration_hours: None,
        app_env: None,
    }))
}

fn user(password_hash: &str) -> User {
    User {
        id: ID,
        email: "alice@example.com".to_string(),
        username: "alice".to_string(),
        password_hash: password_hash.to_string(),
        display_name: Some("Alice".to_string()),
        bio: None,
        avatar_url: None,
        created_at: 1_700_000_000_000_000,
        updated_at: 1_700_000_000_000_000,
    }
}

fn response(u: &User) -> UserResponse {
    UserResponse {
        id: u.id,
        email: u.email.clone(),
        username: u.username.clone(),
        display_name: u.display_name.clone(),
        bio: u.bio.clone(),
        avatar_url: u.avatar_url.clone(),
        created_at: u.created_at,
        updated_at: u.updated_at,
    }
}

fn register_request() -> RegisterRequest {
    RegisterRequest {
        email: "alice@example.com".to_string(),
        username: "alice".to_string(),
        password: "supersecret123".to_string(),
        display_name: Some("Alice".to_string()),
    }
}

#[test]
fn register_looks_up_email_then_username_then_stores() {
    let svc = service();
    let (mut flow, call) = svc.register(register_request());
    assert_eq!(call, RepoCall::FindByEmail("alice@example.com".to_string()));
    let step = flow.resume(RepoReply::Lookup(Ok(None)));
    assert_eq!(step, Step::Call(RepoCall::FindByUsername("alice".to_string())));
    assert_eq!(flow.stage, RegisterStage::AwaitUsername);
    let step = flow.resume(RepoReply::Lookup(Ok(None)));
    let hash = match step {
        Step::Call(RepoCall::Create { email, username, password_hash, display_name }) => {
            assert_eq!(email, "alice@example.com");
            assert_eq!(username, "alice");
            assert_eq!(display_name, Some("Alice".to_string()));
            password_hash
        }
        other => panic!("unexpected {other:?}"),
    };
    assert_eq!(axum_server::password::verify_password("supersecret123", &hash), Ok(()));
    assert!(flow.accepts(&RepoReply::Record(Ok(user(&hash)))));
    assert!(!flow.accepts(&RepoReply::Lookup(Ok(None))));
    let stored = user(&hash);
    let step = flow.resume(RepoReply::Record(Ok(stored.clone())));
    assert_eq!(step, Step::Done(Ok(response(&stored))));
    assert_eq!(flow.stage, RegisterStage::Finished);
}

#[test]
fn register_refuses_a_taken_email() {
    let svc = service();
    let (mut flow, _) = svc.register(register_request());
    let step = flow.resume(RepoReply::Lookup(Ok(Some(user("h")))));
    assert_eq!(step, Step::Done(Err(AppError::Conflict("Email already registered".to_string()))));
    assert!(!flow.accepts(&RepoReply::Lookup(Ok(None))));
}

#[test]
fn register_refuses_a_taken_username() {
    let svc = service();
    let (mut flow, _) = svc.register(register_request());
    flow.resume(RepoReply::Lookup(Ok(None)));
    let step = flow.resume(RepoReply::Lookup(Ok(Some(user("h")))));
    assert_eq!(step, Step::Done(Err(AppError::Conflict("Username already taken".to_string()))));
}

#[test]
fn register_passes_store_errors_on() {
    let svc = service();
    let (mut flow, _) = svc.register(register_request());
    let step = flow.resume(RepoReply::Lookup(Err(AppError::DatabaseError("down".to_string()))));
    assert_eq!(step, Step::Done(Err(AppError::DatabaseError("down".to_string()))));

    let (mut flow, _) = svc.register(register_request());
    flow.resume(RepoReply::Lookup(Ok(None)));
    flow.resume(RepoReply::Lookup(Ok(None)));
    let conflict = AppError::Conflict("Email or username already exists".to_string());
    let step = flow.resume(RepoReply::Record(Err(conflict.clone())));
    assert_eq!(step, Step::Done(Err(conflict)));
}

#[test]
fn login_with_unknown_email_is_invalid_credentials() {
    let svc = service();
    let (mut flow, call) = svc.login(LoginRequest {
        email: "nobody@example.com".to_string(),
        password: "x".to_string(),
    });
    assert_eq!(call, RepoCall::FindByEmail("nobody@example.com".to_string()));
    assert_eq!(flow.resume(RepoReply::Lookup(Ok(None))), Step::Done(Err(AppError::InvalidCredentials)));
    assert_eq!(flow.stage, LoginStage::Finished);
}

#[test]
fn login_with_wrong_password_is_invalid_credentials() {
    let svc = service();
    let hash = hash_password("supersecret123").unwrap();
    let (mut flow, _) = svc.login(LoginRequest {
        email: "alice@example.com".to_string(),
        password: "wrong".to_string(),
    });
    assert_eq!(
        flow.resume(RepoReply::Lookup(Ok(Some(user(&hash))))),
        Step::Done(Err(AppError::InvalidCredentials))
    );
}

#[test]
fn login_with_a_broken_stored_hash_is_an_internal_error() {
    let svc = service();
    let (mut flow, _) = svc.login(LoginRequest {
        email: "alice@example.com".to_string(),
        password: "supersecret123".to_string(),
    });
    assert_eq!(
        flow.resume(RepoReply::Lookup(Ok(Some(user("plain-text"))))),
        Step::Done(Err(AppError::InternalServerError))
    );
}

#[test]
fn login_with_right_password_gives_a_token_for_the_user() {
    let svc = service();
    let hash = hash_password("supersecret123").unwrap();
    let stored = user(&hash);
    let (mut flow, _) = svc.login(LoginRequest {
        email: "alice@example.com".to_string(),
        password: "supersecret123".to_string(),
    });
    match flow.resume(RepoReply::Lookup(Ok(Some(stored.clone())))) {
        Step::Done(Ok(auth)) => {
            assert_eq!(auth.user, response(&stored));
            let claims = jsonwebtoken::decode::<HashMap<String, serde_json::Value>>(
                &auth.token,
                &jsonwebtoken::DecodingKey::from_secret(b"test-secret"),
                &jsonwebtoken::Validation::default(),
            )
            .expect("valid token")
            .claims;
            assert_eq!(claims["sub"], "550e8400-e29b-41d4-a716-446655440000");
        }
        other => panic!("unexpected {other:?}"),
    }
}

#[test]
fn login_passes_store_errors_on() {
    let svc = service();
    let (mut flow, _) = svc.login(LoginRequest { email: "a".to_string(), password: "b".to_string() });
    assert!(!flow.accepts(&RepoReply::Record(Ok(user("h")))));
    assert_eq!(
        flow.resume(RepoReply::Lookup(Err(AppError::DatabaseError("down".to_string())))),
        Step::Done(Err(AppError::DatabaseError("down".to_string())))
    );
}

#[test]
fn profile_read_answers_the_public_view() {
    let svc = service();
    let (mut flow, call) = svc.get_profile(ID);
    assert_eq!(call, RepoCall::FindById(ID));
    let stored = user("secret-hash");
    assert_eq!(flow.resume(RepoReply::Record(Ok(stored.clone()))), Step::Done(Ok(response(&stored))));
    assert_eq!(flow.stage, ProfileStage::Finished);

    let (mut flow, _) = svc.get_profile(ID);
    let missing = axum_server::errors::user_not_found(ID);
    assert_eq!(flow.resume(RepoReply::Record(Err(missing.clone()))), Step::Done(Err(missing)));
}

#[test]
fn profile_update_checks_the_user_then_stores() {
    let svc = service();
    let update = UpdateProfileRequest {
        display_name: Some("Alice W".to_string()),
        bio: Some("I love code!".to_string()),
        avatar_url: None,
    };
    let (mut flow, call) = svc.update_profile(ID, update.clone());
    assert_eq!(call, RepoCall::FindById(ID));
    let step = flow.resume(RepoReply::Record(Ok(user("h"))));
    assert_eq!(step, Step::Call(RepoCall::UpdateProfile { id: ID, update: update.clone() }));
    assert_eq!(flow.stage, UpdateStage::AwaitUpdate);
    let mut updated = user("h");
    updated.display_name = Some("Alice W".to_string());
    updated.bio = Some("I love code!".to_string());
    assert_eq!(flow.resume(RepoReply::Record(Ok(updated.clone()))), Step::Done(Ok(response(&updated))));
}

#[test]
fn profile_update_of_a_missing_user_stores_nothing() {
    let svc = service();
    let update = UpdateProfileRequest { display_name: None, bio: None, avatar_url: None };
    let (mut flow, _) = svc.update_profile(ID, update);
    let missing = axum_server::errors::user_not_found(ID);
    assert_eq!(flow.resume(RepoReply::Record(Err(missing.clone()))), Step::Done(Err(missing)));
    assert_eq!(flow.stage, UpdateStage::Finished);
}

#[test]
fn a_registered_user_logs_in_and_the_token_is_accepted() {
    let svc = service();
    let (mut reg, _) = svc.register(register_request());
    reg.resume(RepoReply::Lookup(Ok(None)));
    let hash = match reg.resume(RepoReply::Lookup(Ok(None))) {
        Step::Call(RepoCall::Create { password_hash, .. }) => password_hash,
        other => panic!("unexpected {other:?}"),
    };
    assert!(hash.starts_with("$argon2id$v=19$m=19456,t=2,p=1$"));
    assert_ne!(hash, "supersecret123");
    let stored = user(&hash);
    let (mut login, _) = svc.login(LoginRequest {
        email: "alice@example.com".to_string(),
        password: "supersecret123".to_string(),
    });
    match login.resume(RepoReply::Lookup(Ok(Some(stored.clone())))) {
        Step::Done(Ok(auth)) => {
            assert_eq!(auth.user.id, stored.id);
            assert_eq!(auth.user.email, stored.email);
            let header = format!("Bearer {}", auth.token);
            let text = axum_server::token::authenticate(Some(header.as_bytes()), "test-secret")
                .expect("accepted");
            assert!(text.starts_with(r#"{"sub":"550e8400-e29b-41d4-a716-446655440000","#));
        }
        other => panic!("unexpected {other:?}"),
    }
}

#[test]
fn login_at_a_time_issues_the_token_for_that_time() {
    let svc = service();
    let hash = hash_password("supersecret123").unwrap();
    let stored = user(&hash);
    let (mut flow, _) = svc.login(LoginRequest {
        email: "alice@example.com".to_string(),
        password: "supersecret123".to_string(),
    });
    match flow.resume_at(RepoReply::Lookup(Ok(Some(stored.clone()))), 1_700_000_000) {
        Step::Done(Ok(auth)) => {
            assert_eq!(auth.user, response(&stored));
            let expected =
                axum_server::auth::create_token_at(ID, 1_700_000_000, &svc.settings).unwrap();
            assert_eq!(auth.token, expected);
        }
        other => panic!("unexpected {other:?}"),
    }
    let (mut late, _) = svc.login(LoginRequest {
        email: "alice@example.com".to_string(),
        password: "supersecret123".to_string(),
    });
    assert_eq!(late.resume_at(RepoReply::Lookup(Ok(Some(stored))), 8_210_266_876_799), Step::Abort);
}
