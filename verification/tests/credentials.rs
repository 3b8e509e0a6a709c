use booking_api::credentials::{
    check_credentials, hash_outcome, hash_password, password_check_outcome,
    register_insert_outcome, token_outcome, username_taken_outcome, LoginAction, LoginEvent,
    LoginFlow,
};
use booking_api::errors::AppError;
use booking_api::models::{DbError, LoginRequest, UserRow};

fn user(id: i32, password: &str) -> UserRow {
    UserRow { id, password_hash: bcrypt::hash(password, 4).unwrap() }
}

fn message(e: AppError) -> (u16, String) {
    let status = e.clone().into_response().status;
    match e {
        AppError::Unauthorized(m) | AppError::InternalServerError(m) | AppError::Conflict(m) => {
            (status, m)
        }
        other => panic!("unexpected {:?}", other),
    }
}

#[test]
fn credentials_match() {
    assert_eq!(check_credentials(Some(user(5, "12345679Bn")), "12345679Bn").unwrap(), 5);
}

#[test]
fn credentials_wrong_password() {
    let e = check_credentials(Some(user(5, "12345679Bn")), "12345679BN").unwrap_err();
    assert_eq!(message(e), (401, "Invalid username or password".to_string()));
}

#[test]
fn credentials_unknown_user() {
    let e = check_credentials(None, "whatever").unwrap_err();
    assert_eq!(message(e), (401, "Invalid username or password".to_string()));
}

#[test]
fn credentials_malformed_hash() {
    let row = UserRow { id: 5, password_hash: "not a hash".to_string() };
    let e = check_credentials(Some(row), "12345679Bn").unwrap_err();
    assert_eq!(message(e), (500, "Invalid username or password".to_string()));
}

#[test]
fn password_check_outcomes() {
    assert_eq!(password_check_outcome(3, Some(true)).unwrap(), 3);
    assert_eq!(message(password_check_outcome(3, Some(false)).unwrap_err()).0, 401);
    assert_eq!(message(password_check_outcome(3, None).unwrap_err()).0, 500);
}

#[test]
fn hashed_password_verifies() {
    let h = hash_password("12345679Bn").unwrap();
    assert_ne!(h, "12345679Bn");
    assert!(bcrypt::verify("12345679Bn", &h).unwrap());
    assert!(!bcrypt::verify("12345679bn", &h).unwrap());
}

#[test]
fn registered_password_logs_in() {
    let h = hash_password("S3cretPass").unwrap();
    let row = UserRow { id: 12, password_hash: h };
    assert_eq!(check_credentials(Some(row), "S3cretPass").unwrap(), 12);
}

#[test]
fn hash_and_token_outcomes() {
    assert_eq!(hash_outcome(Some("h".to_string())).unwrap(), "h");
    assert_eq!(message(hash_outcome(None).unwrap_err()), (500, "Invalid".to_string()));
    assert_eq!(token_outcome(Some("t".to_string())).unwrap().token, "t");
    assert_eq!(message(token_outcome(None).unwrap_err()), (500, "Failed to encode token".to_string()));
}

#[test]
fn username_taken_outcomes() {
    assert!(username_taken_outcome(Some(false)).is_ok());
    assert!(username_taken_outcome(None).is_ok());
    assert_eq!(message(username_taken_outcome(Some(true)).unwrap_err()), (409, "This users in used".to_string()));
}

#[test]
fn register_insert_outcomes() {
    assert_eq!(register_insert_outcome(Ok(())).unwrap().message, "Register successful");
    let unique = DbError {
        description: "dup".into(),
        database_message: Some("duplicate key".into()),
        unique_violation: true,
    };
    assert_eq!(message(register_insert_outcome(Err(unique)).unwrap_err()), (409, "Username already exists!".to_string()));
    let other = DbError { description: "x".into(), database_message: Some("x".into()), unique_violation: false };
    assert_eq!(message(register_insert_outcome(Err(other)).unwrap_err()), (500, "Database logic error".to_string()));
    let down = DbError { description: "pool timed out".into(), database_message: None, unique_violation: false };
    assert_eq!(message(register_insert_outcome(Err(down)).unwrap_err()), (500, "Datebase connection failed".to_string()));
}

#[test]
fn login_flow_signs_a_day_long_token() {
    let mut flow = LoginFlow::new(LoginRequest {
        username: "Nattapong".into(),
        password: "12345679Bn".into(),
    });
    match flow.step(LoginEvent::Started) {
        LoginAction::FindUser { username } => assert_eq!(username, "Nattapong"),
        other => panic!("unexpected {:?}", other),
    }
    assert!(matches!(
        flow.step(LoginEvent::UserLoaded(Ok(Some(user(4, "12345679Bn"))))),
        LoginAction::ReadClock
    ));
    assert!(flow.is_awaiting(&LoginEvent::ClockRead(1_000)));
    match flow.step(LoginEvent::ClockRead(1_000)) {
        LoginAction::SignToken(claims) => {
            assert_eq!(claims.user_id, 4);
            assert_eq!(claims.exp, 1_000 + 86_400);
        }
        other => panic!("unexpected {:?}", other),
    }
    match flow.step(LoginEvent::TokenSigned(Some("tok".into()))) {
        LoginAction::Respond(Ok(r)) => assert_eq!(r.token, "tok"),
        other => panic!("unexpected {:?}", other),
    }
}

#[test]
fn login_flow_refuses_wrong_password() {
    let mut flow = LoginFlow::new(LoginRequest { username: "a".into(), password: "wrong".into() });
    flow.step(LoginEvent::Started);
    match flow.step(LoginEvent::UserLoaded(Ok(Some(user(4, "12345679Bn"))))) {
        LoginAction::Respond(Err(e)) => assert_eq!(message(e).0, 401),
        other => panic!("unexpected {:?}", other),
    }
}

#[test]
fn login_flow_database_failure() {
    let mut flow = LoginFlow::new(LoginRequest { username: "a".into(), password: "b".into() });
    flow.step(LoginEvent::Started);
    let e = DbError { description: "down".into(), database_message: None, unique_violation: false };
    match flow.step(LoginEvent::UserLoaded(Err(e))) {
        LoginAction::Respond(Err(AppError::DatabaseError(_))) => {}
        other => panic!("unexpected {:?}", other),
    }
}
