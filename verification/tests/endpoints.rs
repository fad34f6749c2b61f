use vegar::dsl::{Operands, Operator, Value};
use vegar::dtos::{GenerateLayoutPhotoRequest, ItemListRequest, UpdateIdPhotoRequest, UpdateUserInput};
use vegar::endpoints::{
    background_form_fields, background_update, cartoon_body, check_colourize_reply, colourize_body, check_face_reply,
    colourize_update, download_update, id_photo_form_fields, id_photo_update, layout_form_fields,
    layout_update, login_claims, login_gate, matting_form_fields, matting_update, page_index,
    photo_item_filter, photo_list_filter, service_endpoint, stranger_registration, uploaded_photo,
    user_update_changes, login_user, video_unit, AuthState, ImageService, LoginGate,
};
use vegar::error::Error;
use vegar::settings::IdPhotoSetting;

fn pairs(v: &[(&str, &str)]) -> Vec<(String, String)> {
    v.iter().map(|(a, b)| (a.to_string(), b.to_string())).collect()
}

#[test]
fn id_photo_fields_without_beauty() {
    let f = id_photo_form_fields(413, 300, 295, "modnet", 0);
    assert_eq!(
        f,
        pairs(&[
            ("height", "413"),
            ("dpi", "300"),
            ("width", "295"),
            ("face_alignment", "true"),
            ("hd", "true"),
            ("human_matting_model", "modnet"),
        ])
    );
}

#[test]
fn id_photo_fields_with_beauty() {
    let f = id_photo_form_fields(0, 10, 4294967295, "", 1);
    assert_eq!(f.len(), 10);
    assert_eq!(f[0], ("height".to_string(), "0".to_string()));
    assert_eq!(f[2], ("width".to_string(), "4294967295".to_string()));
    assert_eq!(f[6], ("brightness_strength".to_string(), "1".to_string()));
    assert_eq!(f[9], ("saturation_strength".to_string(), "1".to_string()));
    assert_eq!(id_photo_form_fields(1, 1, 1, "m", 2).len(), 6);
}

#[test]
fn background_fields() {
    let req = UpdateIdPhotoRequest { color: "#ffffff".to_string(), image_id: "i".to_string(), render: 2 };
    assert_eq!(background_form_fields(&req), pairs(&[("render", "2"), ("color", "#ffffff")]));
}

#[test]
fn layout_fields_all_sent_as_width() {
    let req = GenerateLayoutPhotoRequest {
        height: "413".to_string(),
        dpi: "".to_string(),
        image_id: "i".to_string(),
        width: "295".to_string(),
        kb: "200".to_string(),
    };
    assert_eq!(
        layout_form_fields(&req),
        pairs(&[("width", "295"), ("width", "413"), ("width", "200")])
    );
    assert!(layout_form_fields(&GenerateLayoutPhotoRequest::default()).is_empty());
}

#[test]
fn matting_fields() {
    assert_eq!(matting_form_fields("m", &"300".to_string()), pairs(&[("human_matting_model", "m"), ("width", "300")]));
    assert_eq!(matting_form_fields("m", &String::new()), pairs(&[("human_matting_model", "m")]));
}

fn message(e: Error) -> String {
    match e {
        Error::Message(m) => m,
        _ => panic!("expected a message"),
    }
}

#[test]
fn face_reply_checks() {
    assert!(check_face_reply(true, true).is_ok());
    assert_eq!(message(check_face_reply(false, true).unwrap_err()), "系统繁忙，请稍后再试");
    assert_eq!(message(check_face_reply(false, false).unwrap_err()), "系统繁忙，请稍后再试");
    assert_eq!(message(check_face_reply(true, false).unwrap_err()), "未检测到人脸或多人脸");
}

#[test]
fn colourize_reply_checks() {
    assert!(check_colourize_reply(true, 2).is_ok());
    assert_eq!(message(check_colourize_reply(true, 1).unwrap_err()), "系统繁忙，请稍后再试");
    assert_eq!(message(check_colourize_reply(false, 2).unwrap_err()), "系统繁忙，请稍后再试");
}

#[test]
fn photo_updates() {
    let d = id_photo_update("一寸".to_string(), 295, 413);
    assert_eq!(d.name.as_deref(), Some("一寸"));
    assert_eq!((d.width, d.height), (Some(295), Some(413)));
    assert!(d.file_path.is_none() && d.colorize_key.is_none());

    let d = background_update("key".to_string());
    assert_eq!(d.colorize_key.as_deref(), Some("key"));
    assert!(d.name.is_none() && d.file_path.is_none() && d.width.is_none() && d.height.is_none());

    let d = download_update("p.jpg".to_string());
    assert_eq!(d.file_path.as_deref(), Some("p.jpg"));
    assert!(d.name.is_none() && d.colorize_key.is_none());

    assert_eq!(colourize_update("a".to_string()).name.as_deref(), Some("老照片上色"));
    assert_eq!(layout_update("a".to_string()).name.as_deref(), Some("六寸排版照"));
    let m = matting_update("a".to_string());
    assert_eq!(m.name.as_deref(), Some("图片抠图"));
    assert_eq!(m.file_path.as_deref(), Some("a"));
}

#[test]
fn uploaded_photo_record() {
    let p = uploaded_photo("u1".to_string(), Some("me.png"));
    assert_eq!(p.user_id, "u1");
    assert_eq!(p.file_name, "me.png");
    assert_eq!((p.name.as_str(), p.file_path.as_str(), p.processing_key.as_str()), ("", "", ""));
    assert_eq!((p.width, p.height), (0, 0));
    assert_eq!(uploaded_photo("u".to_string(), None).file_name, "img.jpg");
}

#[test]
fn user_changes_clear_missing_avatar() {
    let c = user_update_changes(UpdateUserInput {
        email: None,
        name: Some("n".to_string()),
        username: None,
        avatar: None,
    });
    assert_eq!(c.name.as_deref(), Some("n"));
    assert!(c.email.is_none() && c.username.is_none());
    assert_eq!(c.avatar, "");
    let c = user_update_changes(UpdateUserInput {
        email: Some("e@x".to_string()),
        name: None,
        username: Some("u".to_string()),
        avatar: Some("a.png".to_string()),
    });
    assert_eq!(c.avatar, "a.png");
    assert_eq!(c.email.as_deref(), Some("e@x"));
}

#[test]
fn stranger_registration_fields() {
    let r = stranger_registration("id1".to_string(), "id2".to_string(), "id3".to_string(), "oid".to_string());
    assert_eq!(r.email, "id1@vegar.cn");
    assert_eq!(r.username, "id2");
    assert_eq!(r.password, "id3");
    assert_eq!(r.name, "陌生人");
    assert_eq!(r.open_id.as_deref(), Some("oid"));
}

#[test]
fn login_claims_expire_in_fourteen_days() {
    let c = login_claims("bob".to_string(), 1_700_000_000);
    assert_eq!(c.username, "bob");
    assert_eq!(c.exp, 1_700_000_000 + 14 * 24 * 3600);
}

#[test]
fn pages_are_one_based() {
    assert_eq!(page_index(1), 0);
    assert_eq!(page_index(7), 6);
}

#[test]
fn item_filter() {
    let p = ItemListRequest { page: 1, page_size: 10, class: Some(3), name: Some("一寸".to_string()) };
    let c = photo_item_filter(&p);
    let e = c.exprs();
    assert_eq!(e.len(), 2);
    assert_eq!((e[0].column.as_str(), e[0].op), ("name", Operator::Like));
    match &e[0].operands {
        Operands::One(Value::Text(t)) => assert_eq!(t, "%一寸%"),
        _ => panic!("expected a pattern"),
    }
    assert_eq!((e[1].column.as_str(), e[1].op), ("category", Operator::Eq));
    match &e[1].operands {
        Operands::One(Value::UInt(3)) => {}
        _ => panic!("expected the category"),
    }
    let p = ItemListRequest { page: 1, page_size: 10, class: None, name: Some(String::new()) };
    assert!(photo_item_filter(&p).exprs().is_empty());
}

#[test]
fn photo_list_filter_keeps_stored_photos_of_user() {
    let c = photo_list_filter("u9");
    let e = c.exprs();
    assert_eq!(e.len(), 2);
    assert_eq!((e[0].column.as_str(), e[0].op), ("user_id", Operator::Eq));
    assert_eq!((e[1].column.as_str(), e[1].op), ("file_path", Operator::Ne));
    match (&e[0].operands, &e[1].operands) {
        (Operands::One(Value::Text(u)), Operands::One(Value::Text(p))) => {
            assert_eq!(u, "u9");
            assert_eq!(p, "");
        }
        _ => panic!("expected text values"),
    }
}

#[test]
fn login_gate_decisions() {
    assert_eq!(login_gate(AuthState::Authorized), LoginGate::LoadUser);
    assert_eq!(login_gate(AuthState::Unauthorized), LoginGate::Reject(401));
    assert_eq!(login_gate(AuthState::Forbidden), LoginGate::Reject(403));
}

#[test]
fn service_endpoints() {
    let mut s = IdPhotoSetting::default();
    s.zjz_uri = "http://127.0.0.1:8080/api/".to_string();
    s.colorize_uri = "http://colour.local".to_string();
    s.cartoon_uri = "https://toon.local/x".to_string();
    assert_eq!(service_endpoint(&s, ImageService::IdPhoto).unwrap(), "http://127.0.0.1:8080/idphoto");
    assert_eq!(service_endpoint(&s, ImageService::AddBackground).unwrap(), "http://127.0.0.1:8080/add_background");
    assert_eq!(service_endpoint(&s, ImageService::LayoutPhotos).unwrap(), "http://127.0.0.1:8080/generate_layout_photos");
    assert_eq!(service_endpoint(&s, ImageService::HumanMatting).unwrap(), "http://127.0.0.1:8080/human_matting");
    assert_eq!(service_endpoint(&s, ImageService::Colourize).unwrap(), "http://colour.local/colourizeImg");
    assert_eq!(service_endpoint(&s, ImageService::Cartoon).unwrap(), "https://toon.local/cartoon");
    let bad = IdPhotoSetting::default();
    assert!(matches!(service_endpoint(&bad, ImageService::IdPhoto), Err(Error::ParseError(_))));
}

#[test]
fn colourize_body_carries_the_data_url() {
    let data = vec![0x89u8, 0x50, 0x4e, 0x47, 0x0d, 0x0a];
    assert_eq!(
        colourize_body(data),
        r#"{"base64_image":"data:image/png;base64,iVBORw0K"}"#
    );
}

#[test]
fn cartoon_body_carries_the_data_url() {
    let data = vec![0xffu8, 0xd8, 0xff, 0xe0, 0x00];
    assert_eq!(cartoon_body(data), r#"{"image":"data:image/jpeg;base64,/9j/4AA="}"#);
}

#[test]
fn missing_logged_in_user_is_not_found() {
    assert!(matches!(login_user::<String>(None), Err(Error::NotFound)));
    assert_eq!(login_user(Some("alice".to_string())).unwrap(), "alice");
}

#[test]
fn video_unit_is_empty() {
    let r = video_unit();
    assert_eq!(r.video_unit_id, "");
    assert_eq!(r.download_hd, 0);
}
