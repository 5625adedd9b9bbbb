use argon2::password_hash::SaltString;
use argon2::{Argon2, PasswordHasher};

use rag::app_auth::domain::auth_domain::User;
use rag::app_auth::handler::map_usecase_error::map_usecase_auth_error;
use rag::app_auth::handler::types::{LoginRequest, RegisterRequest};
use rag::app_auth::handler::validate_request::{validate_login_request, validate_register_request};
use rag::app_auth::usecase::auth_flow::{
    login_start, login_step, register_start, register_step, LoginAction, LoginEvent, LoginStage, RegisterAction,
    RegisterEvent, RegisterStage,
};
use rag::app_auth::usecase::helper::verify_password;
use rag::app_auth::usecase::types::AuthUsecaseError;
use rag::response::error::ResponseError;

fn hash_of(password: &str) -> String {
    let salt = SaltString::from_b64("c29tZXNhbHR2YWx1ZQ").unwrap();
    Argon2::default().hash_password(password.as_bytes(), &salt).unwrap().to_string()
}

fn user_with(password: &str) -> User {
    User {
        id: 0x1234,
        name: "Ann".to_string(),
        username: "ann".to_string(),
        email: "ann@example.com".to_string(),
        encrypted_password: hash_of(password),
        phone_number: None,
        photo_profile: None,
        token_version: Some(0),
    }
}

fn bad(msg: &str) -> ResponseError {
    ResponseError::BadRequest(msg.to_string())
}

#[test]
fn login_validation_cases() {
    let ok = LoginRequest { username: "ann".into(), password: "pw".into() };
    assert_eq!(validate_login_request(&ok), Ok(()));
    let no_user = LoginRequest { username: "".into(), password: "".into() };
    assert_eq!(validate_login_request(&no_user), Err(bad("username is required")));
    let no_pw = LoginRequest { username: "ann".into(), password: "".into() };
    assert_eq!(validate_login_request(&no_pw), Err(bad("password is required")));
    let spaces = LoginRequest { username: " ".into(), password: " ".into() };
    assert_eq!(validate_login_request(&spaces), Ok(()));
}

#[test]
fn register_validation_cases() {
    let full = RegisterRequest {
        name: "Ann".into(),
        username: "ann".into(),
        email: "ann@example.com".into(),
        password: "pw".into(),
        re_password: "pw".into(),
    };
    assert_eq!(validate_register_request(&full), Ok(()));
    let mut r = full.clone();
    r.name = "".into();
    r.email = "".into();
    assert_eq!(validate_register_request(&r), Err(bad("name is required")));
    let mut r = full.clone();
    r.username = "".into();
    assert_eq!(validate_register_request(&r), Err(bad("username is required")));
    let mut r = full.clone();
    r.email = "".into();
    assert_eq!(validate_register_request(&r), Err(bad("email is required")));
    let mut r = full.clone();
    r.password = "".into();
    assert_eq!(validate_register_request(&r), Err(bad("password is required")));
    let mut r = full.clone();
    r.re_password = "".into();
    assert_eq!(validate_register_request(&r), Err(bad("re_password is required")));
    let mut r = full.clone();
    r.re_password = "pw2".into();
    assert_eq!(validate_register_request(&r), Err(bad("password and re_password are not match")));
}

#[test]
fn usecase_errors_map_to_answers() {
    assert_eq!(map_usecase_auth_error(AuthUsecaseError::WrongUsernameOrPassword), bad("wrong username or password"));
    assert_eq!(map_usecase_auth_error(AuthUsecaseError::DatabaseError), ResponseError::DatabaseError);
    assert_eq!(map_usecase_auth_error(AuthUsecaseError::InternalServerError), ResponseError::InternalServerError);
    assert_eq!(map_usecase_auth_error(AuthUsecaseError::EmailAlreadyExist), bad("email already exist"));
    assert_eq!(map_usecase_auth_error(AuthUsecaseError::UsernameAlreadyExist), bad("username already exist"));
}

#[test]
fn verify_password_against_argon2_hash() {
    let h = hash_of("secret");
    assert_eq!(verify_password("secret", &h).unwrap(), true);
    assert_eq!(verify_password("Secret", &h).unwrap(), false);
    assert!(verify_password("secret", "not a phc string").is_err());
}

#[test]
fn login_with_matching_password_issues_token() {
    let (stage, action) = login_start("ann", "secret");
    assert_eq!(action, LoginAction::FindUserByUsername("ann".into()));
    let (stage, action) = login_step(stage, LoginEvent::UserFound(Ok(Some(user_with("secret")))));
    assert!(matches!(stage, LoginStage::AwaitToken));
    assert_eq!(action, LoginAction::GenerateToken(0x1234));
    let (stage, action) = login_step(stage, LoginEvent::TokenIssued(Ok("tok".into())));
    assert!(matches!(stage, LoginStage::Finished));
    assert_eq!(action, LoginAction::Reply(Ok("tok".into())));
}

#[test]
fn login_wrong_password_is_answered_like_unknown_user() {
    let (stage, _) = login_start("ann", "guess");
    let (_, wrong) = login_step(stage, LoginEvent::UserFound(Ok(Some(user_with("secret")))));
    let (stage, _) = login_start("nobody", "guess");
    let (_, unknown) = login_step(stage, LoginEvent::UserFound(Ok(None)));
    assert_eq!(wrong, LoginAction::Reply(Err(AuthUsecaseError::WrongUsernameOrPassword)));
    assert_eq!(wrong, unknown);
}

#[test]
fn login_failures() {
    let (stage, _) = login_start("ann", "secret");
    let (_, a) = login_step(stage, LoginEvent::UserFound(Err(())));
    assert_eq!(a, LoginAction::Reply(Err(AuthUsecaseError::DatabaseError)));

    let mut broken = user_with("secret");
    broken.encrypted_password = "plain".into();
    let (stage, _) = login_start("ann", "secret");
    let (_, a) = login_step(stage, LoginEvent::UserFound(Ok(Some(broken))));
    assert_eq!(a, LoginAction::Reply(Err(AuthUsecaseError::InternalServerError)));

    let (stage, _) = login_start("ann", "secret");
    let (stage, _) = login_step(stage, LoginEvent::UserFound(Ok(Some(user_with("secret")))));
    let (_, a) = login_step(stage, LoginEvent::TokenIssued(Err(())));
    assert_eq!(a, LoginAction::Reply(Err(AuthUsecaseError::InternalServerError)));
}

const SALT: u128 = 0x0123_4567_89ab_cdef_fedc_ba98_7654_3210;

fn registered_user(password: &str) -> User {
    let (stage, _) = register_start("Ann", "ann", "ann@example.com", password);
    let (stage, _) = register_step(stage, RegisterEvent::EmailChecked(Ok(false)));
    let (stage, action) = register_step(stage, RegisterEvent::UsernameChecked(Ok(false)));
    assert_eq!(action, RegisterAction::DrawFreshValues);
    match register_step(stage, RegisterEvent::FreshValuesDrawn { salt: SALT, new_id: 77 }).1 {
        RegisterAction::StoreUser(u) => u,
        other => panic!("unexpected action {:?}", other),
    }
}

#[test]
fn register_fresh_user_is_stored() {
    let (stage, action) = register_start("Ann", "ann", "ann@example.com", "pw");
    assert_eq!(action, RegisterAction::CheckEmail("ann@example.com".into()));
    let (stage, action) = register_step(stage, RegisterEvent::EmailChecked(Ok(false)));
    assert_eq!(action, RegisterAction::CheckUsername("ann".into()));
    let (stage, action) = register_step(stage, RegisterEvent::UsernameChecked(Ok(false)));
    assert_eq!(action, RegisterAction::DrawFreshValues);
    let (stage, action) = register_step(stage, RegisterEvent::FreshValuesDrawn { salt: SALT, new_id: 77 });
    let u = match action {
        RegisterAction::StoreUser(u) => u,
        other => panic!("unexpected action {:?}", other),
    };
    let salt = SaltString::encode_b64(&SALT.to_be_bytes()).unwrap();
    let expected_hash = Argon2::default().hash_password(b"pw", &salt).unwrap().to_string();
    let expected = User {
        id: 77,
        name: "Ann".into(),
        username: "ann".into(),
        email: "ann@example.com".into(),
        encrypted_password: expected_hash,
        phone_number: None,
        photo_profile: None,
        token_version: Some(0),
    };
    assert_eq!(u, expected);
    assert_ne!(u.encrypted_password, "pw");
    assert_eq!(verify_password("pw", &u.encrypted_password).unwrap(), true);
    assert_eq!(verify_password("pw2", &u.encrypted_password).unwrap(), false);
    let (stage, action) = register_step(stage, RegisterEvent::UserStored(Ok(())));
    assert!(matches!(stage, RegisterStage::Finished));
    assert_eq!(action, RegisterAction::Reply(Ok(())));
}

#[test]
fn registered_user_logs_in_with_registered_password() {
    let u = registered_user("s3cret pass");
    let (stage, _) = login_start("ann", "s3cret pass");
    let (stage, action) = login_step(stage, LoginEvent::UserFound(Ok(Some(u.clone()))));
    assert_eq!(action, LoginAction::GenerateToken(77));
    let (_, action) = login_step(stage, LoginEvent::TokenIssued(Ok("tok".into())));
    assert_eq!(action, LoginAction::Reply(Ok("tok".into())));
    let (stage, _) = login_start("ann", "other");
    let (_, action) = login_step(stage, LoginEvent::UserFound(Ok(Some(u))));
    assert_eq!(action, LoginAction::Reply(Err(AuthUsecaseError::WrongUsernameOrPassword)));
}

#[test]
fn register_refusals_and_failures() {
    let start = || register_start("Ann", "ann", "ann@example.com", "pw").0;
    let (_, a) = register_step(start(), RegisterEvent::EmailChecked(Ok(true)));
    assert_eq!(a, RegisterAction::Reply(Err(AuthUsecaseError::EmailAlreadyExist)));
    let (_, a) = register_step(start(), RegisterEvent::EmailChecked(Err(())));
    assert_eq!(a, RegisterAction::Reply(Err(AuthUsecaseError::DatabaseError)));

    let (s, _) = register_step(start(), RegisterEvent::EmailChecked(Ok(false)));
    let (_, a) = register_step(s, RegisterEvent::UsernameChecked(Ok(true)));
    assert_eq!(a, RegisterAction::Reply(Err(AuthUsecaseError::UsernameAlreadyExist)));
    let (s, _) = register_step(start(), RegisterEvent::EmailChecked(Ok(false)));
    let (_, a) = register_step(s, RegisterEvent::UsernameChecked(Err(())));
    assert_eq!(a, RegisterAction::Reply(Err(AuthUsecaseError::DatabaseError)));

    let (s, _) = register_step(start(), RegisterEvent::EmailChecked(Ok(false)));
    let (s, _) = register_step(s, RegisterEvent::UsernameChecked(Ok(false)));
    let (s, _) = register_step(s, RegisterEvent::FreshValuesDrawn { salt: 1, new_id: 1 });
    let (_, a) = register_step(s, RegisterEvent::UserStored(Err(())));
    assert_eq!(a, RegisterAction::Reply(Err(AuthUsecaseError::InternalServerError)));
}

#[test]
fn out_of_order_events_end_with_internal_error() {
    let (stage, _) = login_start("ann", "secret");
    let (stage, action) = login_step(stage, LoginEvent::TokenIssued(Ok("tok".into())));
    assert!(matches!(stage, LoginStage::Finished));
    assert_eq!(action, LoginAction::Reply(Err(AuthUsecaseError::InternalServerError)));
    let (_, action) = login_step(stage, LoginEvent::UserFound(Ok(None)));
    assert_eq!(action, LoginAction::Reply(Err(AuthUsecaseError::InternalServerError)));

    let (stage, _) = register_start("Ann", "ann", "a@b.c", "pw");
    let (stage, action) = register_step(stage, RegisterEvent::UserStored(Ok(())));
    assert!(matches!(stage, RegisterStage::Finished));
    assert_eq!(action, RegisterAction::Reply(Err(AuthUsecaseError::InternalServerError)));
}
