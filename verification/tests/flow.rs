use vegar::dtos::{AddBackgroundResult, ColourizeResult};
use vegar::error::Error;
use vegar::flow::{
    process_start, process_step, ProcessAction, ProcessEvent, ProcessState, Processing,
    ServiceRequest,
};
use vegar::records::PhotoRecord;
use vegar::settings::IdPhotoSetting;

fn settings() -> IdPhotoSetting {
    let mut s = IdPhotoSetting::default();
    s.zjz_uri = "http://127.0.0.1:8080/api/".to_string();
    s.colorize_uri = "http://colour.local".to_string();
    s.cartoon_uri = "https://toon.local".to_string();
    s.human_matting_model = "hivision_modnet".to_string();
    s
}

fn photo() -> PhotoRecord {
    PhotoRecord {
        id: "p1".to_string(),
        user_id: "u1".to_string(),
        name: "".to_string(),
        file_name: "a.png".to_string(),
        file_path: "".to_string(),
        colorize_key: "".to_string(),
        width: 0,
        height: 0,
    }
}

const PNG: [u8; 6] = [0x89, 0x50, 0x4e, 0x47, 0x0d, 0x0a];

#[test]
fn matting_run_in_order() {
    let kind = Processing::Matting { dpi: "300".to_string() };
    let s = settings();
    let (state, action) = process_start("p1".to_string());
    assert!(matches!(state, ProcessState::AwaitPhoto));
    assert!(matches!(action, ProcessAction::FindPhoto(ref id) if id == "p1"));

    let (state, action) = process_step(&kind, &s, state, ProcessEvent::PhotoFound(Some(photo())));
    assert!(matches!(action, ProcessAction::LoadImage(ref k) if k == "p1"));

    let (state, action) = process_step(&kind, &s, state, ProcessEvent::ImageLoaded(PNG.to_vec()));
    match action {
        ProcessAction::Send { url, request: ServiceRequest::Form { fields, image, file_name } } => {
            assert_eq!(url, "http://127.0.0.1:8080/human_matting");
            assert_eq!(
                fields,
                vec![
                    ("human_matting_model".to_string(), "hivision_modnet".to_string()),
                    ("width".to_string(), "300".to_string()),
                ]
            );
            assert_eq!(image, PNG.to_vec());
            assert_eq!(file_name, "a.png");
        },
        _ => panic!("expected a form request"),
    }

    let reply = AddBackgroundResult {
        status: true,
        image_base64: "data:image/png;base64,aGVsbG8=".to_string(),
    };
    let (state, action) = process_step(&kind, &s, state, ProcessEvent::FaceReplied(Some(reply)));
    match action {
        ProcessAction::Store { key, content_type, data } => {
            assert_eq!(key, "a.png");
            assert_eq!(content_type, "image/png");
            assert_eq!(data, b"hello".to_vec());
        },
        _ => panic!("expected a store"),
    }

    let (state, action) = process_step(&kind, &s, state, ProcessEvent::Stored("a.png".to_string()));
    assert!(matches!(state, ProcessState::AwaitUpdate));
    match action {
        ProcessAction::Update { photo, changes } => {
            assert_eq!(photo.id, "p1");
            assert_eq!(changes.name, Some("图片抠图".to_string()));
            assert_eq!(changes.file_path, Some("a.png".to_string()));
            assert_eq!(changes.colorize_key, None);
        },
        _ => panic!("expected an update"),
    }

    let mut updated = photo();
    updated.file_path = "a.png".to_string();
    let (state, action) = process_step(&kind, &s, state, ProcessEvent::Updated(updated));
    assert!(matches!(state, ProcessState::Finished));
    assert!(matches!(action, ProcessAction::Respond(ref p) if p == "a.png"));
}

#[test]
fn colourize_sends_json_and_judges_status() {
    let kind = Processing::Colourize;
    let s = settings();
    let state = ProcessState::AwaitImage { photo: photo() };
    let (state, action) = process_step(&kind, &s, state, ProcessEvent::ImageLoaded(PNG.to_vec()));
    match action {
        ProcessAction::Send { url, request: ServiceRequest::Json(body) } => {
            assert_eq!(url, "http://colour.local/colourizeImg");
            assert_eq!(body, r#"{"base64_image":"data:image/png;base64,iVBORw0K"}"#);
        },
        _ => panic!("expected a JSON request"),
    }
    let reply = ColourizeResult { status: 1, processed_image: "".to_string() };
    let (state, action) = process_step(&kind, &s, state, ProcessEvent::ColourizeReplied(Some(reply)));
    assert!(matches!(state, ProcessState::Finished));
    assert!(matches!(action, ProcessAction::Fail(Error::Message(ref m)) if m == "系统繁忙，请稍后再试"));
}

#[test]
fn face_replies_that_fail() {
    let kind = Processing::Cartoon;
    let s = settings();
    let (_, action) = process_step(
        &kind,
        &s,
        ProcessState::AwaitReply { photo: photo() },
        ProcessEvent::FaceReplied(None),
    );
    assert!(matches!(action, ProcessAction::Fail(Error::Message(ref m)) if m == "系统繁忙，请稍后再试"));
    let reply = AddBackgroundResult { status: false, image_base64: "".to_string() };
    let (_, action) = process_step(
        &kind,
        &s,
        ProcessState::AwaitReply { photo: photo() },
        ProcessEvent::FaceReplied(Some(reply)),
    );
    assert!(matches!(action, ProcessAction::Fail(Error::Message(ref m)) if m == "未检测到人脸或多人脸"));
}

#[test]
fn bad_service_address_fails_the_run() {
    let kind = Processing::Cartoon;
    let s = IdPhotoSetting::default();
    let (state, action) = process_step(
        &kind,
        &s,
        ProcessState::AwaitImage { photo: photo() },
        ProcessEvent::ImageLoaded(PNG.to_vec()),
    );
    assert!(matches!(state, ProcessState::Finished));
    assert!(matches!(action, ProcessAction::Fail(Error::ParseError(_))));
}

#[test]
fn missing_photo_is_not_found() {
    let (state, action) = process_step(
        &Processing::Colourize,
        &settings(),
        ProcessState::AwaitPhoto,
        ProcessEvent::PhotoFound(None),
    );
    assert!(matches!(state, ProcessState::Finished));
    assert!(matches!(action, ProcessAction::Fail(Error::NotFound)));
}
