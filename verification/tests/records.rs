use vegar::dsl::{Operands, Operator, Order, Value};
use vegar::dtos::{
    CreatePhotoDto, ItemListRequest, PhotoListRequest, RegisterInput, UpdatePhotoDto, UpdateUserInput,
};
use vegar::error::Error;
use vegar::hash::verify_password;
use vegar::records::{
    apply_photo_update, apply_user_update, delete_photo_filter, email_filter, new_photo_row,
    new_secret, new_user, open_id_filter, photo_item_query, photo_list_query, username_filter,
    PhotoRecord, UserRecord,
};

fn photo() -> PhotoRecord {
    PhotoRecord {
        id: "p1".to_string(),
        user_id: "u1".to_string(),
        name: "原图".to_string(),
        file_name: "a.jpg".to_string(),
        file_path: "".to_string(),
        colorize_key: "".to_string(),
        width: 0,
        height: 0,
    }
}

fn registration() -> RegisterInput {
    RegisterInput {
        email: "a@b.cn".to_string(),
        username: "alice".to_string(),
        password: "secret".to_string(),
        name: "Alice".to_string(),
        open_id: Some("wx-1".to_string()),
    }
}

#[test]
fn update_sets_given_fields_only() {
    let dto = UpdatePhotoDto {
        name: Some("老照片上色".to_string()),
        file_path: Some("photos/a.jpg".to_string()),
        colorize_key: None,
        width: Some(295),
        height: None,
    };
    let r = apply_photo_update(photo(), dto);
    assert_eq!(r.id, "p1");
    assert_eq!(r.user_id, "u1");
    assert_eq!(r.file_name, "a.jpg");
    assert_eq!(r.name, "老照片上色");
    assert_eq!(r.file_path, "photos/a.jpg");
    assert_eq!(r.colorize_key, "");
    assert_eq!(r.width, 295);
    assert_eq!(r.height, 0);
}

#[test]
fn empty_update_keeps_photo() {
    let r = apply_photo_update(photo(), UpdatePhotoDto::default());
    assert_eq!(r.name, "原图");
    assert_eq!(r.file_path, "");
    assert_eq!(r.width, 0);
}

#[test]
fn photo_list_is_sorted_by_id_ascending() {
    let q = photo_list_query(&PhotoListRequest { page: 3, page_size: 10 }, "u1");
    assert_eq!(q.order_column, "id");
    assert_eq!(q.order, Order::Asc);
    assert_eq!(q.page_size, 10);
    assert_eq!(q.page_index, 2);
    let e = q.filter.exprs();
    assert_eq!(e.len(), 2);
    assert_eq!(e[0].column, "user_id");
    assert_eq!(e[0].op, Operator::Eq);
    assert!(matches!(&e[0].operands, Operands::One(Value::Text(t)) if t == "u1"));
    assert_eq!(e[1].column, "file_path");
    assert_eq!(e[1].op, Operator::Ne);
    assert!(matches!(&e[1].operands, Operands::One(Value::Text(t)) if t.is_empty()));
}

#[test]
fn email_lookup_condition() {
    let c = email_filter("a@b.cn");
    let e = c.exprs();
    assert_eq!(e.len(), 1);
    assert_eq!(e[0].column, "email");
    assert_eq!(e[0].op, Operator::Eq);
}

#[test]
fn taken_email_is_refused() {
    assert!(matches!(new_user(&registration(), true), Err(Error::EntityAlreadyExists)));
    let u = new_user(&registration(), false).unwrap();
    assert_eq!(u.email, "a@b.cn");
    assert_eq!(u.username, "alice");
    assert_eq!(u.name, "Alice");
    assert_eq!(u.open_id, Some("wx-1".to_string()));
}

#[test]
fn secret_holds_a_hash_of_the_password() {
    let s = new_secret("u1".to_string(), "hunter2").unwrap();
    assert_eq!(s.user_id, "u1");
    assert_ne!(s.password, "hunter2");
    assert!(s.password.starts_with("$argon2id$"));
    assert!(verify_password("hunter2", &s.password));
}

fn user() -> UserRecord<(bool, String)> {
    UserRecord {
        id: "u1".to_string(),
        email: "a@b.cn".to_string(),
        username: "alice".to_string(),
        name: "Alice".to_string(),
        avatar: "a.png".to_string(),
        open_id: "wx-1".to_string(),
        rest: (true, "reset-token".to_string()),
    }
}

#[test]
fn user_update_keeps_other_columns() {
    let params = UpdateUserInput {
        email: None,
        name: Some("Alicia".to_string()),
        username: None,
        avatar: None,
    };
    let r = apply_user_update(user(), params);
    assert_eq!(r.id, "u1");
    assert_eq!(r.open_id, "wx-1");
    assert_eq!(r.rest, (true, "reset-token".to_string()));
    assert_eq!(r.name, "Alicia");
    assert_eq!(r.email, "a@b.cn");
    assert_eq!(r.username, "alice");
    assert_eq!(r.avatar, "");
    let params = UpdateUserInput {
        email: Some("c@d.cn".to_string()),
        name: None,
        username: Some("al".to_string()),
        avatar: Some("b.png".to_string()),
    };
    let r = apply_user_update(user(), params);
    assert_eq!(r.email, "c@d.cn");
    assert_eq!(r.username, "al");
    assert_eq!(r.avatar, "b.png");
}

#[test]
fn new_photo_row_maps_fields() {
    let dto = CreatePhotoDto {
        user_id: "u1".to_string(),
        name: "".to_string(),
        file_name: "a.jpg".to_string(),
        file_path: "".to_string(),
        processing_key: "ignored".to_string(),
        width: 1,
        height: 2,
    };
    let r = new_photo_row("p9".to_string(), &dto);
    assert_eq!(r.id, "p9");
    assert_eq!(r.user_id, "u1");
    assert_eq!(r.file_name, "a.jpg");
    assert_eq!(r.colorize_key, "");
    assert_eq!((r.width, r.height), (1, 2));
}

#[test]
fn delete_is_limited_to_owner() {
    let c = delete_photo_filter("p1", "u1");
    let e = c.exprs();
    assert_eq!(e.len(), 2);
    assert_eq!(e[0].column, "id");
    assert!(matches!(&e[0].operands, Operands::One(Value::Text(t)) if t == "p1"));
    assert_eq!(e[1].column, "user_id");
    assert!(matches!(&e[1].operands, Operands::One(Value::Text(t)) if t == "u1"));
}

#[test]
fn user_lookups() {
    assert_eq!(username_filter("alice").exprs()[0].column, "username");
    assert_eq!(open_id_filter("wx-1").exprs()[0].column, "open_id");
}

#[test]
fn photo_items_sorted_by_id() {
    let q = photo_item_query(&ItemListRequest { page: 1, page_size: 20, class: Some(2), name: None });
    assert_eq!(q.order_column, "id");
    assert_eq!(q.order, Order::Asc);
    assert_eq!(q.page_index, 0);
    assert_eq!(q.page_size, 20);
    assert_eq!(q.filter.exprs()[0].column, "category");
}
