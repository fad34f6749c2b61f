use vegar::settings::S3;
use vegar::error::Error;
use vegar::storage::{
    file_url, normalize_slashes, upload_content_type, upload_destination, upload_plan, ReceivedFile,
};

#[test]
fn backslashes_become_slashes() {
    assert_eq!(normalize_slashes("a\\b\\c.jpg"), "a/b/c.jpg");
    assert_eq!(normalize_slashes("plain/path"), "plain/path");
    assert_eq!(normalize_slashes(""), "");
    assert_eq!(normalize_slashes("照片\\证件.png"), "照片/证件.png");
}

#[test]
fn upload_destination_joins_name() {
    assert_eq!(upload_destination("avatars", Some("me.png")), "avatars/me.png");
    assert_eq!(upload_destination("avatars", None), "avatars/file");
    assert_eq!(upload_destination("a/b", Some("c.jpg")), "a/b/c.jpg");
}

#[test]
fn content_type_from_extension() {
    assert_eq!(upload_content_type("photo.png"), "image/png");
    assert_eq!(upload_content_type("photo.jpg"), "image/jpeg");
    assert_eq!(upload_content_type("data.unknownext"), "application/octet-stream");
}

#[test]
fn public_file_url() {
    let s3 = S3::default();
    assert_eq!(file_url(&s3, "a/b.png"), "https://suzhaobao.http://127.0.0.1:9000/a/b.png");
    let mut s3 = S3::default();
    s3.bucket = "photos".to_string();
    s3.endpoint = "oss.example.com".to_string();
    assert_eq!(file_url(&s3, "x.jpg"), "https://photos.oss.example.com/x.jpg");
}

#[test]
fn upload_plan_of_received_file() {
    let f = ReceivedFile { name: Some("me.png".to_string()), path: "/tmp/upload-1.jpg".to_string() };
    let plan = upload_plan("avatars", Some(&f)).unwrap();
    assert_eq!(plan.key, "avatars/me.png");
    assert_eq!(plan.content_type, "image/jpeg");
    let f = ReceivedFile { name: None, path: "/tmp/upload-2".to_string() };
    let plan = upload_plan("avatars", Some(&f)).unwrap();
    assert_eq!(plan.key, "avatars/file");
    assert_eq!(plan.content_type, "application/octet-stream");
}

#[test]
fn upload_without_file_is_refused() {
    match upload_plan("avatars", None) {
        Err(Error::Message(m)) => assert_eq!(m, "no such file or directory"),
        _ => panic!("expected a message"),
    }
}
