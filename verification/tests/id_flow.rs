use vegar::dtos::{AddBackgroundResult, CreateIdPhotoRequest, CreateIdPhotoResult, UpdateIdPhotoRequest};
use vegar::error::Error;
use vegar::flow::ServiceRequest;
use vegar::id_flow::{
    background_start, background_step, download_start, download_step, id_photo_start,
    id_photo_step, upload_start, upload_step, BackgroundState, CacheAction, CacheEvent,
    DownloadState, IdPhotoState, ReceivedUpload, UploadState,
};
use vegar::records::{PhotoItem, PhotoRecord};
use vegar::settings::{IdPhotoSetting, S3};

fn settings() -> IdPhotoSetting {
    let mut s = IdPhotoSetting::default();
    s.zjz_uri = "http://127.0.0.1:8080".to_string();
    s.human_matting_model = "modnet".to_string();
    s
}

fn photo() -> PhotoRecord {
    PhotoRecord {
        id: "p1".to_string(),
        user_id: "u1".to_string(),
        name: "".to_string(),
        file_name: "me.jpg".to_string(),
        file_path: "".to_string(),
        colorize_key: "".to_string(),
        width: 0,
        height: 0,
    }
}

fn item() -> PhotoItem {
    PhotoItem { name: "一寸".to_string(), width_px: 295, height_px: 413, dpi: 300 }
}

#[test]
fn id_photo_run_caches_under_photo_id() {
    let params = CreateIdPhotoRequest { image_id: "p1".to_string(), item_id: "i1".to_string(), is_beauty_on: 0 };
    let s = settings();
    let (state, action) = id_photo_start(&params);
    assert!(matches!(action, CacheAction::LoadImage(ref k) if k == "p1"));
    let (state, action) = id_photo_step(&params, &s, state, CacheEvent::ImageLoaded(vec![1, 2, 3]));
    assert!(matches!(action, CacheAction::FindItem(ref k) if k == "i1"));
    let (state, action) = id_photo_step(&params, &s, state, CacheEvent::ItemFound(Some(item())));
    assert!(matches!(action, CacheAction::FindPhoto(ref k) if k == "p1"));
    let (state, action) = id_photo_step(&params, &s, state, CacheEvent::PhotoFound(Some(photo())));
    match action {
        CacheAction::Send { url, request: ServiceRequest::Form { fields, image, file_name } } => {
            assert_eq!(url, "http://127.0.0.1:8080/idphoto");
            assert_eq!(fields[0], ("height".to_string(), "413".to_string()));
            assert_eq!(fields[1], ("dpi".to_string(), "300".to_string()));
            assert_eq!(fields[2], ("width".to_string(), "295".to_string()));
            assert_eq!(fields.len(), 6);
            assert_eq!(image, vec![1, 2, 3]);
            assert_eq!(file_name, "me.jpg");
        },
        _ => panic!("expected a form request"),
    }
    let reply = CreateIdPhotoResult {
        status: true,
        image_base64_standard: "data:image/png;base64,aGk=".to_string(),
        image_base64_hd: None,
    };
    let (state, action) = id_photo_step(&params, &s, state, CacheEvent::IdPhotoReplied(Some(reply)));
    match action {
        CacheAction::Update { photo, changes } => {
            assert_eq!(photo.id, "p1");
            assert_eq!(changes.name, Some("一寸".to_string()));
            assert_eq!(changes.width, Some(295));
            assert_eq!(changes.height, Some(413));
        },
        _ => panic!("expected an update"),
    }
    let (state, action) = id_photo_step(&params, &s, state, CacheEvent::Updated(photo()));
    match action {
        CacheAction::Cache { key, data, seconds } => {
            assert_eq!(key, "p1");
            assert_eq!(data, b"hi".to_vec());
            assert_eq!(seconds, 600);
        },
        _ => panic!("expected a cache write"),
    }
    let (state, action) = id_photo_step(&params, &s, state, CacheEvent::Cached);
    assert!(matches!(state, IdPhotoState::Finished));
    match action {
        CacheAction::Respond(r) => {
            assert_eq!(r.image_id, "p1");
            assert_eq!(r.image_base64, "data:image/png;base64,aGk=");
        },
        _ => panic!("expected an answer"),
    }
}

#[test]
fn id_photo_reply_failures() {
    let params = CreateIdPhotoRequest { image_id: "p1".to_string(), item_id: "i1".to_string(), is_beauty_on: 1 };
    let s = settings();
    let state = IdPhotoState::AwaitReply { photo: photo(), item: item() };
    let (_, action) = id_photo_step(&params, &s, state, CacheEvent::IdPhotoReplied(None));
    assert!(matches!(action, CacheAction::Fail(Error::Message(ref m)) if m == "系统繁忙，请稍后再试"));
    let state = IdPhotoState::AwaitReply { photo: photo(), item: item() };
    let reply = CreateIdPhotoResult { status: false, image_base64_standard: "".to_string(), image_base64_hd: None };
    let (_, action) = id_photo_step(&params, &s, state, CacheEvent::IdPhotoReplied(Some(reply)));
    assert!(matches!(action, CacheAction::Fail(Error::Message(ref m)) if m == "未检测到人脸或多人脸"));
}

#[test]
fn background_run_caches_under_new_key() {
    let params = UpdateIdPhotoRequest { color: "ffffff".to_string(), image_id: "p1".to_string(), render: 0 };
    let s = settings();
    let (state, action) = background_start(&params);
    assert!(matches!(action, CacheAction::FindPhoto(ref k) if k == "p1"));
    let (state, action) = background_step(&params, &s, state, CacheEvent::PhotoFound(Some(photo())));
    assert!(matches!(action, CacheAction::LoadImage(ref k) if k == "p1"));
    let (state, action) = background_step(&params, &s, state, CacheEvent::ImageLoaded(vec![9]));
    match action {
        CacheAction::Send { url, request: ServiceRequest::Form { fields, .. } } => {
            assert_eq!(url, "http://127.0.0.1:8080/add_background");
            assert_eq!(
                fields,
                vec![("render".to_string(), "0".to_string()), ("color".to_string(), "ffffff".to_string())]
            );
        },
        _ => panic!("expected a form request"),
    }
    let reply = AddBackgroundResult { status: true, image_base64: "x,aGk=".to_string() };
    let (state, action) = background_step(&params, &s, state, CacheEvent::BackgroundReplied(reply));
    assert!(matches!(action, CacheAction::MakeKey));
    let (state, action) = background_step(&params, &s, state, CacheEvent::KeyMade("k1".to_string()));
    match action {
        CacheAction::Update { changes, .. } => assert_eq!(changes.colorize_key, Some("k1".to_string())),
        _ => panic!("expected an update"),
    }
    let mut updated = photo();
    updated.colorize_key = "k1".to_string();
    let (state, action) = background_step(&params, &s, state, CacheEvent::Updated(updated));
    match action {
        CacheAction::Cache { key, data, seconds } => {
            assert_eq!(key, "k1");
            assert_eq!(data, b"hi".to_vec());
            assert_eq!(seconds, 600);
        },
        _ => panic!("expected a cache write"),
    }
    let (state, action) = background_step(&params, &s, state, CacheEvent::Cached);
    assert!(matches!(state, BackgroundState::Finished));
    assert!(matches!(action, CacheAction::Respond(ref r) if r.image_id == "p1" && r.image_base64 == "x,aGk="));
}

#[test]
fn background_without_face_fails() {
    let params = UpdateIdPhotoRequest { color: "ffffff".to_string(), image_id: "p1".to_string(), render: 0 };
    let reply = AddBackgroundResult { status: false, image_base64: "".to_string() };
    let (_, action) = background_step(
        &params,
        &settings(),
        BackgroundState::AwaitReply { photo: photo() },
        CacheEvent::BackgroundReplied(reply),
    );
    assert!(matches!(action, CacheAction::Fail(Error::Message(ref m)) if m == "未检测到人脸或多人脸"));
}

#[test]
fn upload_caches_bytes_under_new_photo_id() {
    let file = ReceivedUpload { name: None, data: vec![7, 8] };
    let (state, action) = upload_start("u1".to_string(), Some(file));
    match action {
        CacheAction::CreatePhoto(dto) => {
            assert_eq!(dto.user_id, "u1");
            assert_eq!(dto.file_name, "img.jpg");
        },
        _ => panic!("expected a photo record"),
    }
    let (state, action) = upload_step(state, CacheEvent::Created(photo()));
    match action {
        CacheAction::Cache { key, data, seconds } => {
            assert_eq!(key, "p1");
            assert_eq!(data, vec![7, 8]);
            assert_eq!(seconds, 600);
        },
        _ => panic!("expected a cache write"),
    }
    let (state, action) = upload_step(state, CacheEvent::Cached);
    assert!(matches!(state, UploadState::Finished));
    assert!(matches!(action, CacheAction::RespondText(ref id) if id == "p1"));
}

#[test]
fn upload_without_file_answers_nothing() {
    let (state, action) = upload_start("u1".to_string(), None);
    assert!(matches!(state, UploadState::Finished));
    assert!(matches!(action, CacheAction::Done));
}

#[test]
fn download_stores_cached_picture_and_answers_its_url() {
    let mut s3 = S3::default();
    s3.bucket = "photos".to_string();
    s3.endpoint = "oss.example.com".to_string();
    let (state, action) = download_start("p1".to_string());
    assert!(matches!(action, CacheAction::FindPhoto(ref k) if k == "p1"));
    let mut p = photo();
    p.colorize_key = "k1".to_string();
    let (state, action) = download_step(&s3, state, CacheEvent::PhotoFound(Some(p)));
    assert!(matches!(action, CacheAction::LoadImage(ref k) if k == "k1"));
    let (state, action) = download_step(&s3, state, CacheEvent::ImageLoaded(vec![5]));
    match action {
        CacheAction::Store { key, content_type, data } => {
            assert_eq!(key, "me.jpg");
            assert_eq!(content_type, "image/jpeg");
            assert_eq!(data, vec![5]);
        },
        _ => panic!("expected a store"),
    }
    let (state, action) = download_step(&s3, state, CacheEvent::Stored("me.jpg".to_string()));
    match action {
        CacheAction::Update { changes, .. } => assert_eq!(changes.file_path, Some("me.jpg".to_string())),
        _ => panic!("expected an update"),
    }
    let (state, action) = download_step(&s3, state, CacheEvent::Updated(photo()));
    assert!(matches!(state, DownloadState::Finished));
    assert!(matches!(action, CacheAction::RespondText(ref u) if u == "https://photos.oss.example.com/me.jpg"));
}

#[test]
fn missing_rows_are_not_found() {
    let params = CreateIdPhotoRequest { image_id: "p1".to_string(), item_id: "i1".to_string(), is_beauty_on: 0 };
    let s = settings();
    let state = IdPhotoState::AwaitItem { image: vec![1] };
    let (state, action) = id_photo_step(&params, &s, state, CacheEvent::ItemFound(None));
    assert!(matches!(state, IdPhotoState::Finished));
    assert!(matches!(action, CacheAction::Fail(Error::NotFound)));
    let state = IdPhotoState::AwaitPhoto { image: vec![1], item: item() };
    let (state, action) = id_photo_step(&params, &s, state, CacheEvent::PhotoFound(None));
    assert!(matches!(state, IdPhotoState::Finished));
    assert!(matches!(action, CacheAction::Fail(Error::NotFound)));

    let bg = UpdateIdPhotoRequest { color: "ffffff".to_string(), image_id: "p1".to_string(), render: 0 };
    let (state, action) = background_step(&bg, &s, BackgroundState::AwaitPhoto, CacheEvent::PhotoFound(None));
    assert!(matches!(state, BackgroundState::Finished));
    assert!(matches!(action, CacheAction::Fail(Error::NotFound)));

    let (state, action) = download_step(&S3::default(), DownloadState::AwaitPhoto, CacheEvent::PhotoFound(None));
    assert!(matches!(state, DownloadState::Finished));
    assert!(matches!(action, CacheAction::Fail(Error::NotFound)));
}
