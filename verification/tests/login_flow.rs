use vegar::dtos::MiniAppLoginRequest;
use vegar::login_flow::{login_start, login_step, LoginAction, LoginEvent, LoginState};
use vegar::token::generate_jwt;

const SECRET: &str = "jwt-secret";

fn request() -> MiniAppLoginRequest {
    MiniAppLoginRequest { code: "c0de".to_string(), app_id: "wx-app".to_string() }
}

#[test]
fn known_user_gets_a_token() {
    let req = request();
    let (state, action) = login_start(&req);
    assert!(matches!(action, LoginAction::FindApp(ref a) if a == "wx-app"));
    let (state, action) = login_step(
        &req,
        SECRET,
        state,
        LoginEvent::AppFound { app_id: "wx-app".to_string(), app_secret: "s".to_string() },
    );
    assert!(matches!(action, LoginAction::OpenSession { ref app_id, ref app_secret, ref code }
        if app_id == "wx-app" && app_secret == "s" && code == "c0de"));
    let (state, action) =
        login_step(&req, SECRET, state, LoginEvent::SessionOpened { open_id: "o1".to_string() });
    assert!(matches!(action, LoginAction::FindUser(ref o) if o == "o1"));
    let (state, action) = login_step(
        &req,
        SECRET,
        state,
        LoginEvent::UserLooked { username: Some("alice".to_string()), now: 1_700_000_000 },
    );
    assert!(matches!(state, LoginState::Finished));
    let expected = generate_jwt("alice", SECRET, 1_700_000_000 + 1_209_600).unwrap();
    assert!(matches!(action, LoginAction::Respond(ref t) if *t == expected));
}

#[test]
fn unknown_user_is_registered_as_stranger() {
    let req = request();
    let state = LoginState::AwaitUser { open_id: "o1".to_string() };
    let (state, action) = login_step(&req, SECRET, state, LoginEvent::UserLooked { username: None, now: 0 });
    assert!(matches!(action, LoginAction::MakeIds));
    let (state, action) = login_step(
        &req,
        SECRET,
        state,
        LoginEvent::IdsMade {
            email_id: "e1".to_string(),
            username: "n1".to_string(),
            password: "p1".to_string(),
        },
    );
    match action {
        LoginAction::Register(input) => {
            assert_eq!(input.email, "e1@vegar.cn");
            assert_eq!(input.username, "n1");
            assert_eq!(input.password, "p1");
            assert_eq!(input.name, "陌生人");
            assert_eq!(input.open_id, Some("o1".to_string()));
        },
        _ => panic!("expected a registration"),
    }
    let (state, action) =
        login_step(&req, SECRET, state, LoginEvent::Registered { username: "n1".to_string(), now: 10 });
    assert!(matches!(state, LoginState::Finished));
    let expected = generate_jwt("n1", SECRET, 1_209_610).unwrap();
    assert!(matches!(action, LoginAction::Respond(ref t) if *t == expected));
}
