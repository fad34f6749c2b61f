//! The order of the steps of a WeChat mini-app login: the app's
//! settings are read, the login code is exchanged for the user's open
//! id, the user is found or registered as a stranger, and a token valid
//! for fourteen days is issued. The application makes the calls and
//! returns the errors they raise.

use crate::dtos::{MiniAppLoginRequest, RegisterInput};
use crate::endpoints::{login_claims, login_lifetime, stranger_registration};
use crate::error::Error;
use crate::token::{generate_jwt, hs256_token};
use vstd::prelude::*;
use vstd::string::StringSliceAdditionalSpecFns;

verus! {

/// Where a mini-app login stands.
pub enum LoginState {
    /// Waiting for the settings of the mini app.
    AwaitApp,
    /// Waiting for the open id of the user.
    AwaitSession,
    /// Waiting for the user with that open id.
    AwaitUser { open_id: String },
    /// Waiting for fresh ids for a new account.
    AwaitIds { open_id: String },
    /// Waiting for the new account to be registered.
    AwaitRegistration,
    /// Answered.
    Finished,
}

/// What the last outside call gave.
pub enum LoginEvent {
    /// The mini app's id and secret were read.
    AppFound { app_id: String, app_secret: String },
    /// The login code was exchanged for this open id.
    SessionOpened { open_id: String },
    /// The user with the open id was looked up: the user's name when one
    /// exists, and the time now, in seconds since the epoch.
    UserLooked { username: Option<String>, now: i64 },
    /// Three fresh ids were made.
    IdsMade { email_id: String, username: String, password: String },
    /// The new account was registered under this name; the time now.
    Registered { username: String, now: i64 },
}

/// The next outside call, or the answer.
pub enum LoginAction {
    /// Read the settings of the mini app with this id.
    FindApp(String),
    /// Exchange the login code for the user's open id.
    OpenSession { app_id: String, app_secret: String, code: String },
    /// Look the user up by open id.
    FindUser(String),
    /// Make three fresh ids.
    MakeIds,
    /// Register a new account.
    Register(RegisterInput),
    /// Answer with the token, also set as the `token` cookie.
    Respond(String),
    /// Answer with this error.
    Fail(Error),
}

/// Whether `event` can follow in `state`, with a time at which a token
/// can still expire fourteen days later.
pub open spec fn login_event_fits(state: LoginState, event: LoginEvent) -> bool {
    match (state, event) {
        (LoginState::AwaitApp, LoginEvent::AppFound { .. }) => true,
        (LoginState::AwaitSession, LoginEvent::SessionOpened { .. }) => true,
        (LoginState::AwaitUser { .. }, LoginEvent::UserLooked { now, .. }) => now + login_lifetime()
            <= i64::MAX,
        (LoginState::AwaitIds { .. }, LoginEvent::IdsMade { .. }) => true,
        (LoginState::AwaitRegistration, LoginEvent::Registered { now, .. }) => now
            + login_lifetime() <= i64::MAX,
        _ => false,
    }
}

/// The first step of a login: read the mini app's settings.
pub fn login_start(req: &MiniAppLoginRequest) -> (r: (LoginState, LoginAction))
    ensures
        r.0 is AwaitApp,
        r.1 == LoginAction::FindApp(req.app_id),
{
    (LoginState::AwaitApp, LoginAction::FindApp(req.app_id.clone()))
}

/// The token that answers a login of `username` at time `now`: it
/// expires fourteen days later and is signed with `secret`.
pub open spec fn login_token_of(username: Seq<char>, now: i64, secret: Seq<u8>) -> Seq<char> {
    hs256_token(username, (now + login_lifetime()) as i64, secret)
}

/// The answer to a login: the signed token.
fn answer_login(username: String, now: i64, secret: &str) -> (a: LoginAction)
    requires
        now + login_lifetime() <= i64::MAX,
    ensures
        a matches LoginAction::Respond(t) && t@ == login_token_of(username@, now, secret.spec_bytes()),
{
    let claims = login_claims(username, now);
    match generate_jwt(claims.username.as_str(), secret, claims.exp) {
        Ok(token) => LoginAction::Respond(token),
        Err(e) => LoginAction::Fail(e),
    }
}

/// One step of a mini-app login. With the app's settings the login code
/// is exchanged for the open id; the user with that open id is looked
/// up; a known user is answered at once; an unknown one is first
/// registered as a stranger with fresh ids (see `stranger_registration`);
/// the answer is a token signed with `secret` that names the user and
/// expires fourteen days from now.
pub fn login_step(req: &MiniAppLoginRequest, secret: &str, state: LoginState, event: LoginEvent) -> (r: (
    LoginState,
    LoginAction,
))
    requires
        login_event_fits(state, event),
    ensures
        state is AwaitApp ==> (event matches LoginEvent::AppFound { app_id, app_secret } ==> (
        r.0 is AwaitSession && r.1 == LoginAction::OpenSession { app_id, app_secret, code: req.code })),
        state is AwaitSession ==> (event matches LoginEvent::SessionOpened { open_id } ==> (r.0
            == LoginState::AwaitUser { open_id } && r.1 == LoginAction::FindUser(open_id))),
        state is AwaitUser ==> (event matches LoginEvent::UserLooked { username, now } ==> ({
            &&& username matches Some(name) ==> (r.0 is Finished && (r.1 matches LoginAction::Respond(
                t,
            ) && t@ == login_token_of(name@, now, secret.spec_bytes())))
            &&& username is None ==> (r.0 == LoginState::AwaitIds {
                open_id: state->AwaitUser_open_id,
            } && r.1 is MakeIds)
        })),
        state is AwaitIds ==> (event matches LoginEvent::IdsMade { email_id, username, password }
            ==> (r.0 is AwaitRegistration && (r.1 matches LoginAction::Register(input)
            && input.email@ == email_id@ + "@vegar.cn"@ && input.username == username
            && input.password == password && input.name@ == "陌生人"@ && input.open_id == Some(
            state->AwaitIds_open_id,
        )))),
        state is AwaitRegistration ==> (event matches LoginEvent::Registered { username, now } ==> (
        r.0 is Finished && (r.1 matches LoginAction::Respond(t) && t@ == login_token_of(
            username@,
            now,
            secret.spec_bytes(),
        )))),
{
    match (state, event) {
        (LoginState::AwaitApp, LoginEvent::AppFound { app_id, app_secret }) => {
            (
                LoginState::AwaitSession,
                LoginAction::OpenSession { app_id, app_secret, code: req.code.clone() },
            )
        },
        (LoginState::AwaitSession, LoginEvent::SessionOpened { open_id }) => {
            let key = open_id.clone();
            (LoginState::AwaitUser { open_id }, LoginAction::FindUser(key))
        },
        (LoginState::AwaitUser { open_id }, LoginEvent::UserLooked { username, now }) => {
            match username {
                Some(name) => (LoginState::Finished, answer_login(name, now, secret)),
                None => (LoginState::AwaitIds { open_id }, LoginAction::MakeIds),
            }
        },
        (LoginState::AwaitIds { open_id }, LoginEvent::IdsMade { email_id, username, password }) => {
            let input = stranger_registration(email_id, username, password, open_id);
            (LoginState::AwaitRegistration, LoginAction::Register(input))
        },
        (LoginState::AwaitRegistration, LoginEvent::Registered { username, now }) => {
            (LoginState::Finished, answer_login(username, now, secret))
        },
        (s, _) => (s, LoginAction::Fail(Error::InternalServerError)),
    }
}

} // verus!
