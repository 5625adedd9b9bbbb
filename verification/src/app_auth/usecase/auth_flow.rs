use vstd::prelude::*;

use crate::app_auth::domain::auth_domain::User;
use crate::app_auth::usecase::helper::{
    argon2_accepts, argon2_hash_with_salt, hash_password, phc_hash_parses, verify_password,
};
use crate::app_auth::usecase::types::AuthUsecaseError;

verus! {

// ---------------------------------------------------------------------------------------
// Login: look the user up by name, check the password against the stored Argon2 hash, and
// have a token issued for the user's id. The user store and the token issuer are driven by
// the caller, which performs each action and reports its outcome as the next event.
// ---------------------------------------------------------------------------------------

/// Where a login stands.
#[derive(Debug)]
pub enum LoginStage {
    /// Waiting for the user lookup; holds the password to check.
    AwaitUser { password: String },
    /// The password matched; waiting for the token.
    AwaitToken,
    /// The answer has been given.
    Finished,
}

/// What the caller reports back.
#[derive(Debug)]
pub enum LoginEvent {
    /// The lookup by username: the user, no such user, or a store failure.
    UserFound(Result<Option<User>, ()>),
    /// The token issued for the user, or a failure to issue one.
    TokenIssued(Result<String, ()>),
}

/// What the caller is asked to do next.
#[derive(Debug, PartialEq, Eq)]
pub enum LoginAction {
    FindUserByUsername(String),
    /// Issue a token for the user with this id.
    GenerateToken(u128),
    /// Answer the login request.
    Reply(Result<String, AuthUsecaseError>),
}

/// The outcome of checking `password` against the stored hash text: `Err` when the hash
/// does not parse, else whether Argon2 accepts the password.
pub open spec fn password_check(password: Seq<char>, hash: Seq<char>) -> Result<bool, ()> {
    if phc_hash_parses(hash) {
        Ok(argon2_accepts(password, hash))
    } else {
        Err(())
    }
}

/// One step of a login.
pub open spec fn login_next(stage: LoginStage, event: LoginEvent) -> (LoginStage, LoginAction) {
    match stage {
        LoginStage::AwaitUser { password } => match event {
            LoginEvent::UserFound(Err(_)) => (
                LoginStage::Finished,
                LoginAction::Reply(Err(AuthUsecaseError::DatabaseError)),
            ),
            LoginEvent::UserFound(Ok(None)) => (
                LoginStage::Finished,
                LoginAction::Reply(Err(AuthUsecaseError::WrongUsernameOrPassword)),
            ),
            LoginEvent::UserFound(Ok(Some(user))) => match password_check(
                password@,
                user.encrypted_password@,
            ) {
                Err(_) => (
                    LoginStage::Finished,
                    LoginAction::Reply(Err(AuthUsecaseError::InternalServerError)),
                ),
                Ok(false) => (
                    LoginStage::Finished,
                    LoginAction::Reply(Err(AuthUsecaseError::WrongUsernameOrPassword)),
                ),
                Ok(true) => (LoginStage::AwaitToken, LoginAction::GenerateToken(user.id)),
            },
            _ => (LoginStage::Finished, LoginAction::Reply(Err(AuthUsecaseError::InternalServerError))),
        },
        LoginStage::AwaitToken => match event {
            LoginEvent::TokenIssued(Ok(token)) => (LoginStage::Finished, LoginAction::Reply(Ok(token))),
            LoginEvent::TokenIssued(Err(_)) => (
                LoginStage::Finished,
                LoginAction::Reply(Err(AuthUsecaseError::InternalServerError)),
            ),
            _ => (LoginStage::Finished, LoginAction::Reply(Err(AuthUsecaseError::InternalServerError))),
        },
        LoginStage::Finished => (LoginStage::Finished, LoginAction::Reply(Err(AuthUsecaseError::InternalServerError))),
    }
}

/// Starts a login: look the user up by `username`.
pub fn login_start(username: &str, password: &str) -> (r: (LoginStage, LoginAction))
    ensures
        r.0 matches LoginStage::AwaitUser { password: p } && p@ == password@,
        r.1 matches LoginAction::FindUserByUsername(u) && u@ == username@,
{
    (
        LoginStage::AwaitUser { password: String::from_str(password) },
        LoginAction::FindUserByUsername(String::from_str(username)),
    )
}

/// Takes a login one step further with the outcome of the last action. A failed lookup is
/// a database error; an unknown user and a wrong password are both "wrong username or
/// password"; a stored hash that does not parse and a failure to issue the token are
/// internal errors. An event that the stage does not wait for ends the login with an
/// internal error.
pub fn login_step(stage: LoginStage, event: LoginEvent) -> (r: (LoginStage, LoginAction))
    ensures
        r == login_next(stage, event),
{
    match stage {
        LoginStage::AwaitUser { password } => match event {
            LoginEvent::UserFound(Err(_)) => (
                LoginStage::Finished,
                LoginAction::Reply(Err(AuthUsecaseError::DatabaseError)),
            ),
            LoginEvent::UserFound(Ok(None)) => (
                LoginStage::Finished,
                LoginAction::Reply(Err(AuthUsecaseError::WrongUsernameOrPassword)),
            ),
            LoginEvent::UserFound(Ok(Some(user))) => {
                match verify_password(password.as_str(), user.encrypted_password.as_str()) {
                    Err(_) => (
                        LoginStage::Finished,
                        LoginAction::Reply(Err(AuthUsecaseError::InternalServerError)),
                    ),
                    Ok(false) => (
                        LoginStage::Finished,
                        LoginAction::Reply(Err(AuthUsecaseError::WrongUsernameOrPassword)),
                    ),
                    Ok(true) => (LoginStage::AwaitToken, LoginAction::GenerateToken(user.id)),
                }
            },
            LoginEvent::TokenIssued(_) => {
                (LoginStage::Finished, LoginAction::Reply(Err(AuthUsecaseError::InternalServerError)))
            },
        },
        LoginStage::AwaitToken => match event {
            LoginEvent::TokenIssued(Ok(token)) => (LoginStage::Finished, LoginAction::Reply(Ok(token))),
            LoginEvent::TokenIssued(Err(_)) => (
                LoginStage::Finished,
                LoginAction::Reply(Err(AuthUsecaseError::InternalServerError)),
            ),
            LoginEvent::UserFound(_) => {
                (LoginStage::Finished, LoginAction::Reply(Err(AuthUsecaseError::InternalServerError)))
            },
        },
        LoginStage::Finished => {
            (LoginStage::Finished, LoginAction::Reply(Err(AuthUsecaseError::InternalServerError)))
        },
    }
}

/// The answer of a whole login, given the password, the outcome of the lookup and the
/// outcome of issuing the token (used only when it is asked for).
pub open spec fn login_outcome(
    password: String,
    found: Result<Option<User>, ()>,
    token: Result<String, ()>,
) -> Result<String, AuthUsecaseError> {
    let first = login_next(LoginStage::AwaitUser { password }, LoginEvent::UserFound(found));
    match first.1 {
        LoginAction::Reply(r) => r,
        _ => match login_next(first.0, LoginEvent::TokenIssued(token)).1 {
            LoginAction::Reply(r) => r,
            _ => Err(AuthUsecaseError::InternalServerError),
        },
    }
}

/// Law: a login succeeds exactly when the user exists, its stored hash parses, Argon2
/// accepts the password for it and a token is issued; the answer is then that token.
pub proof fn law_login_succeeds_only_with_matching_password(
    password: String,
    found: Result<Option<User>, ()>,
    token: Result<String, ()>,
)
    ensures
        login_outcome(password, found, token) is Ok <==> (found matches Ok(Some(u))
            && phc_hash_parses(u.encrypted_password@) && argon2_accepts(
            password@,
            u.encrypted_password@,
        ) && token is Ok),
        login_outcome(password, found, token) matches Ok(t) ==> token == Ok::<String, ()>(t),
{
}

/// Law: a wrong password for an existing user is answered exactly as an unknown username,
/// so the answer does not tell which usernames exist.
pub proof fn law_login_wrong_password_answers_as_unknown_user(
    password: String,
    user: User,
    token: Result<String, ()>,
    other_token: Result<String, ()>,
)
    requires
        phc_hash_parses(user.encrypted_password@),
        !argon2_accepts(password@, user.encrypted_password@),
    ensures
        login_outcome(password, Ok(Some(user)), token) == login_outcome(password, Ok(None), other_token),
        login_outcome(password, Ok(None), other_token) == Err::<String, AuthUsecaseError>(
            AuthUsecaseError::WrongUsernameOrPassword,
        ),
{
}


// ---------------------------------------------------------------------------------------
// Registration: refuse a taken email, then a taken username; otherwise hash the password
// with Argon2 under a freshly drawn salt and store the new user. The caller performs each
// action and reports its outcome.
// ---------------------------------------------------------------------------------------

/// What a registration is about.
#[derive(Debug, Clone, PartialEq, Eq)]
pub struct RegisterInput {
    pub name: String,
    pub username: String,
    pub email: String,
    pub password: String,
}

/// Where a registration stands.
#[derive(Debug)]
pub enum RegisterStage {
    AwaitEmailCheck { input: RegisterInput },
    AwaitUsernameCheck { input: RegisterInput },
    AwaitFreshValues { input: RegisterInput },
    AwaitUserStored,
    Finished,
}

/// What the caller reports back.
#[derive(Debug)]
pub enum RegisterEvent {
    /// Whether a user with the email exists, or a store failure.
    EmailChecked(Result<bool, ()>),
    /// Whether a user with the username exists, or a store failure.
    UsernameChecked(Result<bool, ()>),
    /// A randomly drawn salt for the password's hash and a freshly drawn user id.
    FreshValuesDrawn { salt: u128, new_id: u128 },
    /// Whether storing the user succeeded.
    UserStored(Result<(), ()>),
}

/// What the caller is asked to do next.
#[derive(Debug, PartialEq, Eq)]
pub enum RegisterAction {
    CheckEmail(String),
    CheckUsername(String),
    /// Draw a random salt and a fresh user id.
    DrawFreshValues,
    StoreUser(User),
    Reply(Result<(), AuthUsecaseError>),
}

/// The user that a registration stores: the given name, username and email, the password's
/// hash, no phone number or photo, and token version 0.
pub open spec fn new_user(input: RegisterInput, id: u128, hash: String) -> User {
    User {
        id,
        name: input.name,
        username: input.username,
        email: input.email,
        encrypted_password: hash,
        phone_number: None,
        photo_profile: None,
        token_version: Some(0),
    }
}

/// `u` is the user a registration of `input` stores with the id `new_id` and the Argon2
/// hash of the password under `salt`: a hash that parses and that accepts the password.
pub open spec fn is_registered_user(u: User, input: RegisterInput, new_id: u128, salt: u128) -> bool {
    &&& u == new_user(input, new_id, u.encrypted_password)
    &&& argon2_hash_with_salt(input.password@, salt) == Some(u.encrypted_password@)
    &&& phc_hash_parses(u.encrypted_password@)
    &&& argon2_accepts(input.password@, u.encrypted_password@)
}

/// The end of a registration with an internal error.
pub open spec fn register_fails(next: RegisterStage, action: RegisterAction) -> bool {
    next is Finished && action == RegisterAction::Reply(Err(AuthUsecaseError::InternalServerError))
}

/// One step of a registration: the stage and the event determine the next stage and the
/// action as described here.
pub open spec fn register_transition(
    stage: RegisterStage,
    event: RegisterEvent,
    next: RegisterStage,
    action: RegisterAction,
) -> bool {
    match (stage, event) {
        (RegisterStage::AwaitEmailCheck { input }, RegisterEvent::EmailChecked(found)) => match found {
            Err(_) => next is Finished && action == RegisterAction::Reply(Err(AuthUsecaseError::DatabaseError)),
            Ok(true) => next is Finished && action == RegisterAction::Reply(
                Err(AuthUsecaseError::EmailAlreadyExist),
            ),
            Ok(false) => next == (RegisterStage::AwaitUsernameCheck { input })
                && action == RegisterAction::CheckUsername(input.username),
        },
        (RegisterStage::AwaitUsernameCheck { input }, RegisterEvent::UsernameChecked(found)) => match found {
            Err(_) => next is Finished && action == RegisterAction::Reply(Err(AuthUsecaseError::DatabaseError)),
            Ok(true) => next is Finished && action == RegisterAction::Reply(
                Err(AuthUsecaseError::UsernameAlreadyExist),
            ),
            Ok(false) => next == (RegisterStage::AwaitFreshValues { input })
                && action == RegisterAction::DrawFreshValues,
        },
        (RegisterStage::AwaitFreshValues { input }, RegisterEvent::FreshValuesDrawn { salt, new_id }) => {
            match argon2_hash_with_salt(input.password@, salt) {
                None => register_fails(next, action),
                Some(_) => {
                    &&& next is AwaitUserStored
                    &&& action matches RegisterAction::StoreUser(u) && is_registered_user(u, input, new_id, salt)
                },
            }
        },
        (RegisterStage::AwaitUserStored, RegisterEvent::UserStored(Ok(_))) => next is Finished && action
            == RegisterAction::Reply(Ok(())),
        _ => register_fails(next, action),
    }
}

/// Starts a registration: ask whether the email is taken.
pub fn register_start(name: &str, username: &str, email: &str, password: &str) -> (r: (
    RegisterStage,
    RegisterAction,
))
    ensures
        r.0 matches RegisterStage::AwaitEmailCheck { input } && input.name@ == name@
            && input.username@ == username@ && input.email@ == email@ && input.password@
            == password@,
        r.1 matches RegisterAction::CheckEmail(e) && e@ == email@,
{
    let input = RegisterInput {
        name: String::from_str(name),
        username: String::from_str(username),
        email: String::from_str(email),
        password: String::from_str(password),
    };
    (RegisterStage::AwaitEmailCheck { input }, RegisterAction::CheckEmail(String::from_str(email)))
}

/// Takes a registration one step further with the outcome of the last action. A failed
/// check is a database error; a taken email or username is refused; with the drawn salt the
/// password is hashed here, and a failure to hash it or to store the user is an internal
/// error, and so is an event that the stage does not wait for.
pub fn register_step(stage: RegisterStage, event: RegisterEvent) -> (r: (RegisterStage, RegisterAction))
    ensures
        register_transition(stage, event, r.0, r.1),
{
    let fail = (RegisterStage::Finished, RegisterAction::Reply(Err(AuthUsecaseError::InternalServerError)));
    match (stage, event) {
        (RegisterStage::AwaitEmailCheck { input }, RegisterEvent::EmailChecked(found)) => match found {
            Err(_) => (RegisterStage::Finished, RegisterAction::Reply(Err(AuthUsecaseError::DatabaseError))),
            Ok(true) => (RegisterStage::Finished, RegisterAction::Reply(Err(AuthUsecaseError::EmailAlreadyExist))),
            Ok(false) => {
                let username = input.username.clone();
                (RegisterStage::AwaitUsernameCheck { input }, RegisterAction::CheckUsername(username))
            },
        },
        (RegisterStage::AwaitUsernameCheck { input }, RegisterEvent::UsernameChecked(found)) => match found {
            Err(_) => (RegisterStage::Finished, RegisterAction::Reply(Err(AuthUsecaseError::DatabaseError))),
            Ok(true) => (RegisterStage::Finished, RegisterAction::Reply(Err(AuthUsecaseError::UsernameAlreadyExist))),
            Ok(false) => (RegisterStage::AwaitFreshValues { input }, RegisterAction::DrawFreshValues),
        },
        (RegisterStage::AwaitFreshValues { input }, RegisterEvent::FreshValuesDrawn { salt, new_id }) => {
            match hash_password(input.password.as_str(), salt) {
                Err(_) => fail,
                Ok(h) => {
                    let user = User {
                        id: new_id,
                        name: input.name,
                        username: input.username,
                        email: input.email,
                        encrypted_password: h,
                        phone_number: None,
                        photo_profile: None,
                        token_version: Some(0),
                    };
                    (RegisterStage::AwaitUserStored, RegisterAction::StoreUser(user))
                },
            }
        },
        (RegisterStage::AwaitUserStored, RegisterEvent::UserStored(Ok(_))) => (
            RegisterStage::Finished,
            RegisterAction::Reply(Ok(())),
        ),
        _ => fail,
    }
}

/// Law: a registration carried through its four steps (the steps after the first reply
/// answer internal errors) succeeds exactly when neither the email nor the username is
/// taken, the password could be hashed and the user was stored. A user is handed over for
/// storing only when both are free and the hash exists; it is the new user made of the input
/// and the fresh id, and its stored hash parses and accepts the registered password. A taken
/// email is refused before the username is looked at.
pub proof fn law_register_stores_only_fresh_users(
    input: RegisterInput,
    email_taken: Result<bool, ()>,
    username_taken: Result<bool, ()>,
    salt: u128,
    new_id: u128,
    stored: Result<(), ()>,
    s1: RegisterStage,
    a1: RegisterAction,
    s2: RegisterStage,
    a2: RegisterAction,
    s3: RegisterStage,
    a3: RegisterAction,
    s4: RegisterStage,
    a4: RegisterAction,
)
    requires
        register_transition(RegisterStage::AwaitEmailCheck { input }, RegisterEvent::EmailChecked(email_taken), s1, a1),
        register_transition(s1, RegisterEvent::UsernameChecked(username_taken), s2, a2),
        register_transition(s2, RegisterEvent::FreshValuesDrawn { salt, new_id }, s3, a3),
        register_transition(s3, RegisterEvent::UserStored(stored), s4, a4),
    ensures
        a4 == RegisterAction::Reply(Ok(())) <==> (email_taken == Ok::<bool, ()>(false) && username_taken
            == Ok::<bool, ()>(false) && argon2_hash_with_salt(input.password@, salt) is Some && stored is Ok),
        a3 is StoreUser <==> (email_taken == Ok::<bool, ()>(false) && username_taken == Ok::<bool, ()>(false)
            && argon2_hash_with_salt(input.password@, salt) is Some),
        a3 matches RegisterAction::StoreUser(u) ==> is_registered_user(u, input, new_id, salt),
        email_taken == Ok::<bool, ()>(true) ==> a1 == RegisterAction::Reply(
            Err::<(), AuthUsecaseError>(AuthUsecaseError::EmailAlreadyExist),
        ),
{
}

/// Law: a user that a registration stores can log in with the registered password: the
/// login finds the password accepted and asks for a token for that user, and answers with
/// the token that is issued.
pub proof fn law_registered_user_logs_in(
    input: RegisterInput,
    salt: u128,
    new_id: u128,
    next: RegisterStage,
    action: RegisterAction,
    password: String,
    token: String,
)
    requires
        register_transition(
            RegisterStage::AwaitFreshValues { input },
            RegisterEvent::FreshValuesDrawn { salt, new_id },
            next,
            action,
        ),
        action is StoreUser,
        password@ == input.password@,
    ensures
        action matches RegisterAction::StoreUser(u) && login_next(
            LoginStage::AwaitUser { password },
            LoginEvent::UserFound(Ok(Some(u))),
        ) == (LoginStage::AwaitToken, LoginAction::GenerateToken(new_id)),
        action matches RegisterAction::StoreUser(u) && login_outcome(password, Ok(Some(u)), Ok(token))
            == Ok::<String, AuthUsecaseError>(token),
{
}

} // verus!
