use booking_api::credentials::{RegisterAction, RegisterEvent, RegisterFlow};
use booking_api::errors::{AppError, ErrorBody};
use booking_api::models::RegisterRequest;

fn register(username: &str, password: &str) -> u16 {
    let mut flow = RegisterFlow::new(RegisterRequest {
        username: username.to_string(),
        password: password.to_string(),
    });
    let mut event = RegisterEvent::Started;
    loop {
        match flow.step(event) {
            RegisterAction::CheckName { username: name } => {
                assert_eq!(name, username);
                event = RegisterEvent::NameChecked(Ok(Some(false)));
            }
            RegisterAction::InsertUser { username: name, password_hash } => {
                assert_eq!(name, username);
                assert!(bcrypt::verify(password, &password_hash).unwrap());
                event = RegisterEvent::UserInserted(Ok(()));
            }
            RegisterAction::Respond(Ok(_)) => return 200,
            RegisterAction::Respond(Err(e)) => return e.into_response().status,
        }
    }
}

#[test]
fn test_register_success() {
    assert_eq!(register("Nattapong", "12345679Bn"), 200);
}

#[test]
fn test_register_falid() {
    assert_eq!(register("dd", "1234"), 422);
}

#[test]
fn register_invalid_fields_are_all_reported() {
    let mut flow = RegisterFlow::new(RegisterRequest {
        username: "dd".to_string(),
        password: "1234".to_string(),
    });
    match flow.step(RegisterEvent::Started) {
        RegisterAction::Respond(Err(AppError::ValidationError(fields))) => {
            assert_eq!(fields.len(), 2);
            assert_eq!(fields[0].field, "username");
            assert_eq!(fields[0].messages, vec!["Username is too short".to_string()]);
            assert_eq!(fields[1].field, "password");
            assert_eq!(fields[1].messages, vec!["Password must be 8-20 characters long".to_string()]);
        }
        other => panic!("unexpected {:?}", other),
    }
}

#[test]
fn register_username_length_counts_characters() {
    let run = |name: &str| {
        let mut flow = RegisterFlow::new(RegisterRequest {
            username: name.to_string(),
            password: "12345679Bn".to_string(),
        });
        flow.step(RegisterEvent::Started)
    };
    assert!(matches!(run("ddd"), RegisterAction::CheckName { .. }));
    assert!(matches!(run("ééé"), RegisterAction::CheckName { .. }));
    match run("éé") {
        RegisterAction::Respond(Err(AppError::ValidationError(fields))) => {
            assert_eq!(fields.len(), 1);
            assert_eq!(fields[0].field, "username");
        }
        other => panic!("unexpected {:?}", other),
    }
}

#[test]
fn register_taken_name_is_a_conflict() {
    let mut flow = RegisterFlow::new(RegisterRequest {
        username: "Nattapong".to_string(),
        password: "12345679Bn".to_string(),
    });
    flow.step(RegisterEvent::Started);
    match flow.step(RegisterEvent::NameChecked(Ok(Some(true)))) {
        RegisterAction::Respond(Err(e)) => {
            let r = e.into_response();
            assert_eq!(r.status, 409);
            match r.body {
                ErrorBody::Error(m) => assert_eq!(m, "This users in used"),
                ErrorBody::Errors(_) => panic!("expected a message"),
            }
        }
        other => panic!("unexpected {:?}", other),
    }
}
