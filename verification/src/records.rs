//! The rows of the photo and user tables, the changes made to them, and
//! the queries that read them. The application runs the queries and
//! writes the rows.

use crate::dsl::{condition, Condition, ExprView, OperandsView, Operator, Order, Value, ValueView};
use crate::dtos::{
    CreatePhotoDto, ItemListRequest, PhotoListRequest, RegisterInput, UpdatePhotoDto, UpdateUserInput,
};
use crate::endpoints::{item_filter_spec, photo_item_filter, photo_list_filter, photo_list_filter_spec};
use crate::error::Error;
use crate::hash::{argon2_verifies, hash_password};
use vstd::string::StringSliceAdditionalSpecFns;
use vstd::prelude::*;

verus! {

/// A row of the photo table.
#[derive(Clone, Debug)]
pub struct PhotoRecord {
    pub id: String,
    pub user_id: String,
    pub name: String,
    pub file_name: String,
    pub file_path: String,
    pub colorize_key: String,
    pub width: u32,
    pub height: u32,
}

/// A row of the photo specification table, as far as an id photo needs
/// it: its name, pixel size and resolution.
#[derive(Clone, Debug)]
pub struct PhotoItem {
    pub name: String,
    pub width_px: u32,
    pub height_px: u32,
    pub dpi: u32,
}

/// The photo row created for `dto`, under the fresh id `id`: the owner,
/// name, file name, stored path and size of `dto`, and no processing key.
pub fn new_photo_row(id: String, dto: &CreatePhotoDto) -> (r: PhotoRecord)
    ensures
        r.id == id,
        r.user_id == dto.user_id,
        r.name == dto.name,
        r.file_name == dto.file_name,
        r.file_path == dto.file_path,
        r.colorize_key@ == Seq::<char>::empty(),
        r.width == dto.width,
        r.height == dto.height,
{
    PhotoRecord {
        id,
        user_id: dto.user_id.clone(),
        name: dto.name.clone(),
        file_name: dto.file_name.clone(),
        file_path: dto.file_path.clone(),
        colorize_key: String::new(),
        width: dto.width,
        height: dto.height,
    }
}

/// The condition of `col = value` on a text column.
fn text_eq_filter(col: &str, value: &str) -> (c: Condition)
    ensures
        c@ == seq![
            ExprView {
                column: col@,
                op: Operator::Eq,
                operands: OperandsView::One(ValueView::Text(value@)),
            },
        ],
{
    let c = condition().eq(String::from_str(col), Value::Text(String::from_str(value))).build();
    assert(c@ =~= seq![
        ExprView {
            column: col@,
            op: Operator::Eq,
            operands: OperandsView::One(ValueView::Text(value@)),
        },
    ]);
    c
}

/// The condition of a photo that may be deleted: the photo with id `id`
/// that belongs to the user `user_id`, and no other.
pub fn delete_photo_filter(id: &str, user_id: &str) -> (c: Condition)
    ensures
        c@ == seq![
            ExprView {
                column: "id"@,
                op: Operator::Eq,
                operands: OperandsView::One(ValueView::Text(id@)),
            },
            ExprView {
                column: "user_id"@,
                op: Operator::Eq,
                operands: OperandsView::One(ValueView::Text(user_id@)),
            },
        ],
{
    let c = condition().eq(String::from_str("id"), Value::Text(String::from_str(id))).eq(
        String::from_str("user_id"),
        Value::Text(String::from_str(user_id)),
    ).build();
    assert(c@ =~= seq![
        ExprView {
            column: "id"@,
            op: Operator::Eq,
            operands: OperandsView::One(ValueView::Text(id@)),
        },
        ExprView {
            column: "user_id"@,
            op: Operator::Eq,
            operands: OperandsView::One(ValueView::Text(user_id@)),
        },
    ]);
    c
}

/// The photo `p` after the update `dto`: each field that the update
/// gives takes its new value, each field it leaves empty keeps its value;
/// the id, owner and file name never change.
pub fn apply_photo_update(p: PhotoRecord, dto: UpdatePhotoDto) -> (r: PhotoRecord)
    ensures
        r.id == p.id,
        r.user_id == p.user_id,
        r.file_name == p.file_name,
        r.name == (match dto.name {
            Some(v) => v,
            None => p.name,
        }),
        r.file_path == (match dto.file_path {
            Some(v) => v,
            None => p.file_path,
        }),
        r.colorize_key == (match dto.colorize_key {
            Some(v) => v,
            None => p.colorize_key,
        }),
        r.width == (match dto.width {
            Some(v) => v,
            None => p.width,
        }),
        r.height == (match dto.height {
            Some(v) => v,
            None => p.height,
        }),
{
    let mut r = p;
    if let Some(name) = dto.name {
        r.name = name;
    }
    if let Some(file_path) = dto.file_path {
        r.file_path = file_path;
    }
    if let Some(colorize_key) = dto.colorize_key {
        r.colorize_key = colorize_key;
    }
    if let Some(width) = dto.width {
        r.width = width;
    }
    if let Some(height) = dto.height {
        r.height = height;
    }
    r
}

/// One page of a sorted query: the rows that meet `filter`, sorted by
/// `order_column` in `order`, cut into pages of `page_size` rows, of
/// which the page numbered `page_index` (counted from 0) is read.
pub struct PageQuery {
    pub filter: Condition,
    pub order_column: String,
    pub order: Order,
    pub page_size: u64,
    pub page_index: u64,
}

/// The query of one page of a user's photo list: the user's photos with
/// a stored file, in ascending order of id, `page_size` to a page, the
/// page numbered `page` counting from 1. Page 0 is refused (it panics).
pub fn photo_list_query(params: &PhotoListRequest, user_id: &str) -> (q: PageQuery)
    requires
        params.page >= 1,
    ensures
        q.filter@ == photo_list_filter_spec(user_id@),
        q.order_column@ == "id"@,
        q.order is Asc,
        q.page_size == params.page_size,
        q.page_index == params.page - 1,
{
    PageQuery {
        filter: photo_list_filter(user_id),
        order_column: String::from_str("id"),
        order: Order::Asc,
        page_size: params.page_size,
        page_index: params.page - 1,
    }
}

/// The query of one page of the photo specifications: those that meet
/// the list filter (see `photo_item_filter`), in ascending order of id,
/// `page_size` to a page, the page numbered `page` counting from 1. Page
/// 0 is refused (it panics).
pub fn photo_item_query(params: &ItemListRequest) -> (q: PageQuery)
    requires
        params.page >= 1,
    ensures
        q.filter@ == item_filter_spec(*params),
        q.order_column@ == "id"@,
        q.order is Asc,
        q.page_size == params.page_size,
        q.page_index == params.page - 1,
{
    PageQuery {
        filter: photo_item_filter(params),
        order_column: String::from_str("id"),
        order: Order::Asc,
        page_size: params.page_size,
        page_index: params.page - 1,
    }
}

/// The condition that finds the user with e-mail `email`.
pub fn email_filter(email: &str) -> (c: Condition)
    ensures
        c@ == seq![
            ExprView {
                column: "email"@,
                op: Operator::Eq,
                operands: OperandsView::One(ValueView::Text(email@)),
            },
        ],
{
    text_eq_filter("email", email)
}

/// The condition that finds the user named `username`.
pub fn username_filter(username: &str) -> (c: Condition)
    ensures
        c@ == seq![
            ExprView {
                column: "username"@,
                op: Operator::Eq,
                operands: OperandsView::One(ValueView::Text(username@)),
            },
        ],
{
    text_eq_filter("username", username)
}

/// The condition that finds the user with WeChat open id `open_id`.
pub fn open_id_filter(open_id: &str) -> (c: Condition)
    ensures
        c@ == seq![
            ExprView {
                column: "open_id"@,
                op: Operator::Eq,
                operands: OperandsView::One(ValueView::Text(open_id@)),
            },
        ],
{
    text_eq_filter("open_id", open_id)
}

/// A row of the user table: the columns the service changes, and the
/// other columns (`rest`: the two-factor settings, the tokens and the
/// like), which it carries as they are.
#[derive(Clone, Debug)]
pub struct UserRecord<X> {
    pub id: String,
    pub email: String,
    pub username: String,
    pub name: String,
    pub avatar: String,
    pub open_id: String,
    pub rest: X,
}

/// The user `u` after the update `params`: the name, e-mail and username
/// take the given value or keep theirs; the avatar takes the given value
/// or is cleared; the id, the open id and every other column are kept.
pub fn apply_user_update<X>(u: UserRecord<X>, params: UpdateUserInput) -> (r: UserRecord<X>)
    ensures
        r.id == u.id,
        r.open_id == u.open_id,
        r.rest == u.rest,
        r.name == (match params.name {
            Some(v) => v,
            None => u.name,
        }),
        r.email == (match params.email {
            Some(v) => v,
            None => u.email,
        }),
        r.username == (match params.username {
            Some(v) => v,
            None => u.username,
        }),
        r.avatar@ == (match params.avatar {
            Some(v) => v@,
            None => Seq::<char>::empty(),
        }),
{
    let mut r = u;
    if let Some(name) = params.name {
        r.name = name;
    }
    if let Some(email) = params.email {
        r.email = email;
    }
    if let Some(username) = params.username {
        r.username = username;
    }
    r.avatar = match params.avatar {
        Some(a) => a,
        None => String::new(),
    };
    r
}

/// The fields of a new secret row: the user it belongs to and the hash
/// of the user's password.
pub struct NewSecret {
    pub user_id: String,
    pub password: String,
}

/// The secret row of a user: the user's id and the Argon2id PHC string of
/// the password, never the password itself (a password that does not
/// itself begin with `$argon2id$` differs from what is stored). Every
/// password of at most 0xFFFFFFFF bytes hashes; a failure of the hasher
/// is returned as `Error::Any` with its text.
pub fn new_secret(user_id: String, password: &str) -> (r: Result<NewSecret, Error>)
    ensures
        password.spec_bytes().len() <= 0xFFFF_FFFF ==> r is Ok,
        r is Ok ==> r->Ok_0.user_id == user_id,
        r is Ok ==> argon2_verifies(password.spec_bytes(), r->Ok_0.password@),
        r is Ok ==> r->Ok_0.password@.len() >= 10 && r->Ok_0.password@.take(10) == "$argon2id$"@,
        r is Ok && !(password@.len() >= 10 && password@.take(10) == "$argon2id$"@) ==> r->Ok_0.password@
            != password@,
        r is Err ==> r->Err_0 is Any,
{
    match hash_password(password) {
        Ok(hash) => Ok(NewSecret { user_id, password: hash }),
        Err(e) => Err(Error::Any(e.to_string())),
    }
}

/// The fields of a new user row.
#[derive(Clone, Debug)]
pub struct NewUser {
    pub email: String,
    pub username: String,
    pub name: String,
    pub open_id: Option<String>,
}

/// The user row to insert for a registration, given whether a user with
/// the same e-mail already exists: an e-mail in use is refused with
/// `EntityAlreadyExists`; otherwise the row takes the e-mail, username,
/// name and, where given, the WeChat open id of the registration.
pub fn new_user(params: &RegisterInput, email_taken: bool) -> (r: Result<NewUser, Error>)
    ensures
        r is Err <==> email_taken,
        r is Err ==> r->Err_0 is EntityAlreadyExists,
        r is Ok ==> r->Ok_0.email == params.email && r->Ok_0.username == params.username
            && r->Ok_0.name == params.name && r->Ok_0.open_id == params.open_id,
{
    if email_taken {
        return Err(Error::EntityAlreadyExists);
    }
    Ok(
        NewUser {
            email: params.email.clone(),
            username: params.username.clone(),
            name: params.name.clone(),
            open_id: params.open_id.clone(),
        },
    )
}

} // verus!
