use vegar::error::{Error, ModelValidation};

#[test]
fn status_codes() {
    assert_eq!(Error::string("boom").status_code(), 500);
    assert_eq!(Error::TaskNotFound("t".to_string()).status_code(), 404);
    assert_eq!(Error::NotFound.status_code(), 404);
    assert_eq!(Error::EntityNotFound.status_code(), 404);
    assert_eq!(Error::Unauthorized("u".to_string()).status_code(), 401);
    assert_eq!(Error::BadRequest("b".to_string()).status_code(), 400);
    assert_eq!(Error::InternalServerError.status_code(), 500);
    assert_eq!(Error::EntityAlreadyExists.status_code(), 500);
    assert_eq!(Error::Hash("h".to_string()).status_code(), 500);
    assert_eq!(Error::CSRFTokenMismatch.status_code(), 500);
    assert_eq!(Error::MissingCsrfToken.status_code(), 500);
    assert_eq!(Error::MissingAuthorizationCode.status_code(), 500);
    assert_eq!(Error::MissingAuthorizationCodeAndCsrfToken.status_code(), 500);
    assert_eq!(Error::Reqwest("r".to_string()).status_code(), 500);
    let v = ModelValidation { code: "c".to_string(), message: None };
    assert_eq!(Error::ModelValidation { errors: v }.status_code(), 500);
    let io = std::io::Error::new(std::io::ErrorKind::Other, "x");
    assert_eq!(Error::IO(io).status_code(), 500);
    let json = serde_json::from_str::<u8>("x").unwrap_err();
    assert_eq!(Error::JSON(json).status_code(), 500);
    assert_eq!(Error::ParseError(url::ParseError::EmptyHost).status_code(), 500);
}

#[test]
fn string_error_keeps_message() {
    match Error::string("系统繁忙") {
        Error::Message(m) => assert_eq!(m, "系统繁忙"),
        _ => panic!("expected a message"),
    }
}

#[test]
fn header_and_method_errors_are_bad_requests() {
    assert_eq!(Error::InvalidHeaderValue("failed to parse header value".to_string()).status_code(), 400);
    assert_eq!(Error::InvalidHeaderName("invalid HTTP header name".to_string()).status_code(), 400);
    assert_eq!(Error::InvalidMethod("invalid HTTP method".to_string()).status_code(), 400);
    assert_eq!(Error::StatusError("x".to_string()).status_code(), 500);
    let wrapped = Error::WithBacktrace {
        inner: Box::new(Error::NotFound),
        backtrace: "at main".to_string(),
    };
    assert_eq!(wrapped.status_code(), 500);
}

#[test]
fn brief_texts() {
    assert_eq!(Error::EntityNotFound.to_string(), "Entity not found");
    assert_eq!(Error::EntityAlreadyExists.to_string(), "Entity already exists");
    assert_eq!(Error::NotFound.to_string(), "not found");
    assert_eq!(Error::InternalServerError.to_string(), "internal server error");
    assert_eq!(Error::TaskNotFound("t".to_string()).to_string(), "task not found: 't'");
    assert_eq!(Error::string("boom").to_string(), "boom");
    assert_eq!(Error::Reqwest("timeout".to_string()).to_string(), "Request Error: `timeout`");
    assert_eq!(Error::CSRFTokenMismatch.to_string(), "CsrfToken supplied does not match");
    assert_eq!(Error::MissingCsrfToken.to_string(), "CsrfToken is missing");
    assert_eq!(Error::MissingAuthorizationCode.to_string(), "Authorization Code is missing");
    assert_eq!(
        Error::MissingAuthorizationCodeAndCsrfToken.to_string(),
        "Authorization Code and CsrfToken are missing"
    );
    assert_eq!(Error::SalvoHttpParseError("bad".to_string()).to_string(), "Parse Error: bad");
    let wrapped = Error::WithBacktrace {
        inner: Box::new(Error::NotFound),
        backtrace: "at main".to_string(),
    };
    assert_eq!(wrapped.to_string(), "not found\nat main");
}

#[test]
fn outside_error_texts() {
    let e = Error::ParseError(url::ParseError::EmptyHost);
    assert_eq!(e.to_string(), "Parse Error: empty host");
    let io = std::io::Error::new(std::io::ErrorKind::Other, "disk gone");
    assert_eq!(Error::IO(io).to_string(), "disk gone");
}

#[test]
fn answer_is_status_and_brief() {
    assert_eq!(Error::EntityNotFound.answer(), (404, "Entity not found".to_string()));
    assert_eq!(Error::BadRequest("bad page".to_string()).answer(), (400, "bad page".to_string()));
    assert_eq!(Error::Unauthorized("who".to_string()).answer(), (401, "who".to_string()));
    assert_eq!(Error::EntityAlreadyExists.answer(), (500, "Entity already exists".to_string()));
}
