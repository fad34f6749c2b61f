//! The decisions of the id-photo endpoints: which form fields go to the
//! image services, how their replies are judged, which photo fields are
//! updated, which rows are listed, and who may pass. The application
//! performs the requests, the storage and the database work around them.

use crate::dsl::{
    condition, lemma_row_meets_push, row_meets, Condition, ExprView, OperandsView, Operator, Value,
    ValueView,
};
use crate::dtos::{
    CreatePhotoDto, GenerateLayoutPhotoRequest, GetVideoUnitResponse, ItemListRequest, JwtClaims, RegisterInput,
    UpdateIdPhotoRequest, UpdatePhotoDto, UpdateUserInput,
};
use crate::error::Error;
use crate::media::{
    base64_text, bytes_to_base64, data_url, image_type, is_plain_char, lemma_data_url_plain,
};
use crate::text::{concat_str, decimal, decimal_string};
use vstd::prelude::*;

verus! {

// ---------------------------------------------------------------------
// Form fields sent to the image services
// ---------------------------------------------------------------------

/// A form field as text: name and value.
pub open spec fn field_view(f: (String, String)) -> (Seq<char>, Seq<char>) {
    (f.0@, f.1@)
}

/// The text of a list of form fields.
pub open spec fn fields_view(fs: Seq<(String, String)>) -> Seq<(Seq<char>, Seq<char>)> {
    fs.map_values(|f: (String, String)| field_view(f))
}

fn field(name: &str, value: String) -> (f: (String, String))
    ensures
        field_view(f) == (name@, value@),
{
    (String::from_str(name), value)
}

fn push_field(fields: &mut Vec<(String, String)>, name: &str, value: String)
    ensures
        fields_view(final(fields)@) == fields_view(old(fields)@).push((name@, value@)),
{
    let ghost prev = fields@;
    fields.push(field(name, value));
    assert(fields_view(fields@) =~= fields_view(prev).push((name@, value@)));
}

/// The fields that ask the id-photo service for a photo of the given
/// size: height, dpi, width, face alignment, high definition and the
/// matting model, then the four beauty strengths when beauty is on
/// (`is_beauty_on == 1`).
pub open spec fn id_photo_fields_spec(
    height_px: u32,
    dpi: u32,
    width_px: u32,
    human_matting_model: Seq<char>,
    is_beauty_on: u8,
) -> Seq<(Seq<char>, Seq<char>)> {
    seq![
        ("height"@, decimal(height_px as nat)),
        ("dpi"@, decimal(dpi as nat)),
        ("width"@, decimal(width_px as nat)),
        ("face_alignment"@, "true"@),
        ("hd"@, "true"@),
        ("human_matting_model"@, human_matting_model),
    ] + if is_beauty_on == 1 {
        seq![
            ("brightness_strength"@, "1"@),
            ("contrast_strength"@, "1"@),
            ("sharpen_strength"@, "1"@),
            ("saturation_strength"@, "1"@),
        ]
    } else {
        Seq::empty()
    }
}

/// The text fields of the request that makes an id photo.
/// Law of the id-photo form: the height, dpi and width of the
/// specification in decimal, face alignment and HD on, and the matting
/// model; with beauty on (1), brightness, contrast, sharpening and
/// saturation at strength 1 follow; nothing else.
pub proof fn lemma_id_photo_fields(
    height_px: u32,
    dpi: u32,
    width_px: u32,
    human_matting_model: Seq<char>,
    is_beauty_on: u8,
)
    ensures
        ({
            let f = id_photo_fields_spec(height_px, dpi, width_px, human_matting_model, is_beauty_on);
            &&& f.len() == if is_beauty_on == 1 { 10int } else { 6int }
            &&& f[0] == ("height"@, decimal(height_px as nat))
            &&& f[1] == ("dpi"@, decimal(dpi as nat))
            &&& f[2] == ("width"@, decimal(width_px as nat))
            &&& f[3] == ("face_alignment"@, "true"@)
            &&& f[4] == ("hd"@, "true"@)
            &&& f[5] == ("human_matting_model"@, human_matting_model)
            &&& is_beauty_on == 1 ==> f[6] == ("brightness_strength"@, "1"@) && f[7] == (
                "contrast_strength"@,
                "1"@,
            ) && f[8] == ("sharpen_strength"@, "1"@) && f[9] == ("saturation_strength"@, "1"@)
        }),
{
}

pub fn id_photo_form_fields(
    height_px: u32,
    dpi: u32,
    width_px: u32,
    human_matting_model: &str,
    is_beauty_on: u8,
) -> (fields: Vec<(String, String)>)
    ensures
        fields_view(fields@) == id_photo_fields_spec(
            height_px,
            dpi,
            width_px,
            human_matting_model@,
            is_beauty_on,
        ),
{
    let mut fields: Vec<(String, String)> = Vec::new();
    push_field(&mut fields, "height", decimal_string(height_px as u64));
    push_field(&mut fields, "dpi", decimal_string(dpi as u64));
    push_field(&mut fields, "width", decimal_string(width_px as u64));
    push_field(&mut fields, "face_alignment", String::from_str("true"));
    push_field(&mut fields, "hd", String::from_str("true"));
    push_field(&mut fields, "human_matting_model", String::from_str(human_matting_model));
    if is_beauty_on == 1 {
        push_field(&mut fields, "brightness_strength", String::from_str("1"));
        push_field(&mut fields, "contrast_strength", String::from_str("1"));
        push_field(&mut fields, "sharpen_strength", String::from_str("1"));
        push_field(&mut fields, "saturation_strength", String::from_str("1"));
    }
    assert(fields_view(fields@) =~= id_photo_fields_spec(
        height_px,
        dpi,
        width_px,
        human_matting_model@,
        is_beauty_on,
    ));
    fields
}

/// The fields that ask for a new background: the render mode, then the
/// color.
pub fn background_form_fields(req: &UpdateIdPhotoRequest) -> (fields: Vec<(String, String)>)
    ensures
        fields_view(fields@) == seq![
            ("render"@, decimal(req.render as nat)),
            ("color"@, req.color@),
        ],
{
    let mut fields: Vec<(String, String)> = Vec::new();
    push_field(&mut fields, "render", decimal_string(req.render as u64));
    push_field(&mut fields, "color", req.color.clone());
    assert(fields_view(fields@) =~= seq![
        ("render"@, decimal(req.render as nat)),
        ("color"@, req.color@),
    ]);
    fields
}

/// A `width` field carrying `value` when `value` is not empty.
pub open spec fn width_field_if_given(value: Seq<char>) -> Seq<(Seq<char>, Seq<char>)> {
    if value.len() == 0 {
        Seq::empty()
    } else {
        seq![("width"@, value)]
    }
}

/// The fields of a layout photo request: each of the requested width,
/// height, size in kB and dpi that is not empty, in that order; every one
/// of them is sent under the field name `width`.
pub open spec fn layout_fields_spec(req: GenerateLayoutPhotoRequest) -> Seq<(Seq<char>, Seq<char>)> {
    width_field_if_given(req.width@) + width_field_if_given(req.height@) + width_field_if_given(
        req.kb@,
    ) + width_field_if_given(req.dpi@)
}

fn push_width_if_given(fields: &mut Vec<(String, String)>, value: &String)
    ensures
        fields_view(final(fields)@) == fields_view(old(fields)@) + width_field_if_given(value@),
{
    if value.as_str().is_empty() {
        assert(fields_view(fields@) =~= fields_view(fields@) + width_field_if_given(value@));
    } else {
        let ghost prev = fields@;
        push_field(fields, "width", value.clone());
        assert(fields_view(fields@) =~= fields_view(prev) + width_field_if_given(value@));
    }
}

/// The text fields of the request that lays out a photo.
/// 1 when `v` is given (not empty), else 0.
pub open spec fn given(v: Seq<char>) -> int {
    if v.len() > 0 {
        1
    } else {
        0
    }
}

/// Law of the layout form: every field is named `width`; one field is
/// sent per given value among the width, height, size in kB and dpi,
/// and each given value is sent, in that order (after the given values
/// before it).
pub proof fn lemma_layout_fields(req: GenerateLayoutPhotoRequest)
    ensures
        ({
            let f = layout_fields_spec(req);
            let w = given(req.width@);
            let h = given(req.height@);
            let k = given(req.kb@);
            let d = given(req.dpi@);
            &&& f.len() == w + h + k + d
            &&& forall|i: int| 0 <= i < f.len() ==> (#[trigger] f[i]).0 == "width"@
            &&& w == 1 ==> f[0].1 == req.width@
            &&& h == 1 ==> f[w].1 == req.height@
            &&& k == 1 ==> f[w + h].1 == req.kb@
            &&& d == 1 ==> f[w + h + k].1 == req.dpi@
        }),
{
    let f = layout_fields_spec(req);
    let a = width_field_if_given(req.width@);
    let b = width_field_if_given(req.height@);
    let c = width_field_if_given(req.kb@);
    let e = width_field_if_given(req.dpi@);
    assert(f == a + b + c + e);
    assert forall|i: int| 0 <= i < f.len() implies (#[trigger] f[i]).0 == "width"@ by {
        if i < a.len() {
            assert(f[i] == a[i]);
        } else if i < a.len() + b.len() {
            assert(f[i] == b[i - a.len()]);
        } else if i < a.len() + b.len() + c.len() {
            assert(f[i] == c[i - a.len() - b.len()]);
        } else {
            assert(f[i] == e[i - a.len() - b.len() - c.len()]);
        }
    }
}

pub fn layout_form_fields(req: &GenerateLayoutPhotoRequest) -> (fields: Vec<(String, String)>)
    ensures
        fields_view(fields@) == layout_fields_spec(*req),
        ({
            let f = fields_view(fields@);
            let w = given(req.width@);
            let h = given(req.height@);
            let k = given(req.kb@);
            let d = given(req.dpi@);
            &&& f.len() == w + h + k + d
            &&& forall|i: int| 0 <= i < f.len() ==> (#[trigger] f[i]).0 == "width"@
            &&& w == 1 ==> f[0].1 == req.width@
            &&& h == 1 ==> f[w].1 == req.height@
            &&& k == 1 ==> f[w + h].1 == req.kb@
            &&& d == 1 ==> f[w + h + k].1 == req.dpi@
        }),
{
    proof {
        lemma_layout_fields(*req);
    }
    let mut fields: Vec<(String, String)> = Vec::new();
    assert(fields_view(fields@) =~= Seq::<(Seq<char>, Seq<char>)>::empty());
    push_width_if_given(&mut fields, &req.width);
    push_width_if_given(&mut fields, &req.height);
    push_width_if_given(&mut fields, &req.kb);
    push_width_if_given(&mut fields, &req.dpi);
    assert(fields_view(fields@) =~= layout_fields_spec(*req));
    fields
}

/// The text fields of the matting request: the matting model, then the
/// dpi (under the field name `width`) when it is not empty.
pub fn matting_form_fields(human_matting_model: &str, dpi: &String) -> (fields: Vec<
    (String, String),
>)
    ensures
        fields_view(fields@) == seq![("human_matting_model"@, human_matting_model@)]
            + width_field_if_given(dpi@),
{
    let mut fields: Vec<(String, String)> = Vec::new();
    push_field(&mut fields, "human_matting_model", String::from_str(human_matting_model));
    push_width_if_given(&mut fields, dpi);
    fields
}

// ---------------------------------------------------------------------
// Judging the replies of the image services
// ---------------------------------------------------------------------

/// The message when an image service is unavailable.
pub open spec fn busy_message() -> Seq<char> {
    "系统繁忙，请稍后再试"@
}

/// The message when the photo shows no face or several.
pub open spec fn no_face_message() -> Seq<char> {
    "未检测到人脸或多人脸"@
}

/// Judges the reply of an image service that reports success with a
/// flag: a failed HTTP reply means the service is busy; a reply whose
/// flag is false means no single face was found.
pub fn check_face_reply(http_success: bool, status: bool) -> (r: Result<(), Error>)
    ensures
        r is Ok <==> http_success && status,
        !http_success ==> r is Err && r->Err_0 is Message && r->Err_0->Message_0@ == busy_message(),
        http_success && !status ==> r is Err && r->Err_0 is Message && r->Err_0->Message_0@
            == no_face_message(),
{
    if !http_success {
        return Err(Error::string("系统繁忙，请稍后再试"));
    }
    if !status {
        return Err(Error::string("未检测到人脸或多人脸"));
    }
    Ok(())
}

/// Judges the reply of the colourizing service, whose status 2 means
/// done: anything else, or a failed HTTP reply, means it is busy.
pub fn check_colourize_reply(http_success: bool, status: u8) -> (r: Result<(), Error>)
    ensures
        r is Ok <==> http_success && status == 2,
        r is Err ==> r->Err_0 is Message && r->Err_0->Message_0@ == busy_message(),
{
    if !http_success || status != 2 {
        return Err(Error::string("系统繁忙，请稍后再试"));
    }
    Ok(())
}

// ---------------------------------------------------------------------
// JSON bodies sent to the image services
// ---------------------------------------------------------------------

/// Whether every character of `s` is plain: printable ASCII, neither a
/// double quote nor a backslash, so that JSON writes it as it is.
pub open spec fn all_plain(s: Seq<char>) -> bool {
    forall|i: int| 0 <= i < s.len() ==> is_plain_char(#[trigger] s[i])
}

/// The compact JSON text of an object with one text field, where neither
/// the name nor the value needs escaping.
pub open spec fn json_one_field(name: Seq<char>, value: Seq<char>) -> Seq<char> {
    seq!['{', '"'] + name + seq!['"', ':', '"'] + value + seq!['"', '}']
}

/// The JSON text of the object `{name: value}`.
///
/// Trusted: calls `serde_json::to_string` on a `HashMap` that holds the one
/// entry `name => value`. The serializer writes a map of text keys as
/// `{"key":"value"}` with no spaces, escapes only double quotes,
/// backslashes and control characters in strings, and does not fail on
/// such a map; the contract claims the text where nothing needs escaping.
#[verifier::external_body]
fn json_object_text(name: &str, value: &str) -> (r: Result<String, serde_json::Error>)
    ensures
        all_plain(name@) && all_plain(value@) ==> r is Ok && r->Ok_0@ == json_one_field(
            name@,
            value@,
        ),
{
    let mut map = std::collections::HashMap::new();
    map.insert(name, value);
    serde_json::to_string(&map)
}

/// The JSON object that carries the data URL of an image under `name`.
fn image_json_body(name: &str, image: Vec<u8>) -> (body: String)
    requires
        all_plain(name@),
        image@.len() <= usize::MAX / 512,
        image_type(image@) is Some,
    ensures
        body@ == json_one_field(name@, data_url(image_type(image@)->0, base64_text(image@))),
{
    let ghost data = image@;
    let url = bytes_to_base64(image);
    proof {
        lemma_data_url_plain(data);
    }
    match json_object_text(name, url.as_str()) {
        Ok(text) => text,
        Err(_) => String::new(),
    }
}

/// The JSON body posted to the colourizing service: the data URL of the
/// image under `base64_image`. Data without a jpeg, png or gif signature
/// is refused (it panics).
pub fn colourize_body(image: Vec<u8>) -> (body: String)
    requires
        image@.len() <= usize::MAX / 512,
        image_type(image@) is Some,
    ensures
        body@ == json_one_field(
            "base64_image"@,
            data_url(image_type(image@)->0, base64_text(image@)),
        ),
{
    let name = "base64_image";
    proof {
        reveal_strlit("base64_image");
    }
    image_json_body(name, image)
}

/// The JSON body posted to the cartoon service: the data URL of the image
/// under `image`. Data without a jpeg, png or gif signature is refused
/// (it panics).
pub fn cartoon_body(image: Vec<u8>) -> (body: String)
    requires
        image@.len() <= usize::MAX / 512,
        image_type(image@) is Some,
    ensures
        body@ == json_one_field("image"@, data_url(image_type(image@)->0, base64_text(image@))),
{
    let name = "image";
    proof {
        reveal_strlit("image");
    }
    image_json_body(name, image)
}

// ---------------------------------------------------------------------
// Photo records to create and fields to update
// ---------------------------------------------------------------------

/// After an id photo is made: the photo takes the name and pixel size of
/// the chosen specification.
pub fn id_photo_update(item_name: String, width_px: u32, height_px: u32) -> (dto: UpdatePhotoDto)
    ensures
        dto.name == Some(item_name),
        dto.file_path is None,
        dto.colorize_key is None,
        dto.width == Some(width_px),
        dto.height == Some(height_px),
{
    UpdatePhotoDto {
        name: Some(item_name),
        file_path: None,
        colorize_key: None,
        width: Some(width_px),
        height: Some(height_px),
    }
}

/// After a new background: only the key of the coloured image changes.
pub fn background_update(colorize_key: String) -> (dto: UpdatePhotoDto)
    ensures
        dto.name is None,
        dto.file_path is None,
        dto.colorize_key == Some(colorize_key),
        dto.width is None,
        dto.height is None,
{
    UpdatePhotoDto {
        name: None,
        file_path: None,
        colorize_key: Some(colorize_key),
        width: None,
        height: None,
    }
}

/// After a download: only the stored path changes.
pub fn download_update(file_path: String) -> (dto: UpdatePhotoDto)
    ensures
        dto.name is None,
        dto.file_path == Some(file_path),
        dto.colorize_key is None,
        dto.width is None,
        dto.height is None,
{
    UpdatePhotoDto {
        name: None,
        file_path: Some(file_path),
        colorize_key: None,
        width: None,
        height: None,
    }
}

/// After an image service made a new picture: its name and stored path.
fn processed_update(name: &str, file_path: String) -> (dto: UpdatePhotoDto)
    ensures
        dto.name is Some && dto.name->0@ == name@,
        dto.file_path == Some(file_path),
        dto.colorize_key is None,
        dto.width is None,
        dto.height is None,
{
    UpdatePhotoDto {
        name: Some(String::from_str(name)),
        file_path: Some(file_path),
        colorize_key: None,
        width: None,
        height: None,
    }
}

/// A colourized old photo, stored at `file_path`.
pub fn colourize_update(file_path: String) -> (dto: UpdatePhotoDto)
    ensures
        dto.name is Some && dto.name->0@ == "老照片上色"@,
        dto.file_path == Some(file_path),
        dto.colorize_key is None,
        dto.width is None,
        dto.height is None,
{
    processed_update("老照片上色", file_path)
}

/// A six-inch layout photo, stored at `file_path`.
pub fn layout_update(file_path: String) -> (dto: UpdatePhotoDto)
    ensures
        dto.name is Some && dto.name->0@ == "六寸排版照"@,
        dto.file_path == Some(file_path),
        dto.colorize_key is None,
        dto.width is None,
        dto.height is None,
{
    processed_update("六寸排版照", file_path)
}

/// A cut-out picture (matting or cartoon), stored at `file_path`.
pub fn matting_update(file_path: String) -> (dto: UpdatePhotoDto)
    ensures
        dto.name is Some && dto.name->0@ == "图片抠图"@,
        dto.file_path == Some(file_path),
        dto.colorize_key is None,
        dto.width is None,
        dto.height is None,
{
    processed_update("图片抠图", file_path)
}

/// The photo record of an uploaded file: it belongs to the user, keeps
/// the file's name (`img.jpg` when it has none), and has no name, path,
/// processing key or size yet.
pub fn uploaded_photo(user_id: String, file_name: Option<&str>) -> (dto: CreatePhotoDto)
    ensures
        dto.user_id == user_id,
        dto.name@ == Seq::<char>::empty(),
        dto.file_name@ == (match file_name {
            Some(n) => n@,
            None => "img.jpg"@,
        }),
        dto.file_path@ == Seq::<char>::empty(),
        dto.processing_key@ == Seq::<char>::empty(),
        dto.width == 0,
        dto.height == 0,
{
    let name = match file_name {
        Some(n) => n,
        None => "img.jpg",
    };
    CreatePhotoDto {
        user_id,
        name: String::new(),
        file_path: String::new(),
        processing_key: String::new(),
        width: 0,
        file_name: String::from_str(name),
        height: 0,
    }
}

// ---------------------------------------------------------------------
// Users
// ---------------------------------------------------------------------

/// The fields of a user that an update sets: name, email and username
/// only where given, the avatar always (cleared when not given).
#[derive(Debug)]
pub struct UserChanges {
    pub name: Option<String>,
    pub email: Option<String>,
    pub username: Option<String>,
    pub avatar: String,
}

/// What a profile update changes.
pub fn user_update_changes(params: UpdateUserInput) -> (c: UserChanges)
    ensures
        c.name == params.name,
        c.email == params.email,
        c.username == params.username,
        c.avatar@ == (match params.avatar {
            Some(a) => a@,
            None => Seq::<char>::empty(),
        }),
{
    let avatar = match params.avatar {
        Some(a) => a,
        None => String::new(),
    };
    UserChanges { name: params.name, email: params.email, username: params.username, avatar }
}

/// The registration of a mini-app user seen for the first time: made-up
/// email (`<id>@vegar.cn`), username and password from fresh ids, the name
/// 陌生人 ("stranger") and the WeChat open id.
pub fn stranger_registration(
    email_id: String,
    username: String,
    password: String,
    open_id: String,
) -> (input: RegisterInput)
    ensures
        input.email@ == email_id@ + "@vegar.cn"@,
        input.username == username,
        input.password == password,
        input.name@ == "陌生人"@,
        input.open_id == Some(open_id),
{
    RegisterInput {
        email: concat_str(email_id.as_str(), "@vegar.cn"),
        username,
        password,
        name: String::from_str("陌生人"),
        open_id: Some(open_id),
    }
}

/// How long a login token stays valid: fourteen days, in seconds.
pub open spec fn login_lifetime() -> int {
    1209600
}

/// The claims of a login token issued at `now` (Unix seconds) for
/// `username`: it expires fourteen days later.
pub fn login_claims(username: String, now: i64) -> (claims: JwtClaims)
    requires
        now + login_lifetime() <= i64::MAX,
    ensures
        claims.username == username,
        claims.exp == now + login_lifetime(),
{
    JwtClaims { username, exp: now + 1209600 }
}

// ---------------------------------------------------------------------
// Listing
// ---------------------------------------------------------------------

/// The zero-based page fetched for a one-based page number.
pub fn page_index(page: u64) -> (index: u64)
    requires
        page >= 1,
    ensures
        index == page - 1,
{
    page - 1
}

/// `%<name>%`: a pattern matching the names that contain `name`.
pub open spec fn containing_pattern(name: Seq<char>) -> Seq<char> {
    "%"@ + name + "%"@
}

/// The filter of the photo specifications listed: by name (containing
/// the given text, when it is given and not empty), then by category
/// (when given).
pub open spec fn item_filter_spec(params: ItemListRequest) -> Seq<ExprView> {
    (match params.name {
        Some(n) => if n@.len() > 0 {
            seq![
                ExprView {
                    column: "name"@,
                    op: Operator::Like,
                    operands: OperandsView::One(ValueView::Text(containing_pattern(n@))),
                },
            ]
        } else {
            Seq::empty()
        },
        None => Seq::empty(),
    }) + (match params.class {
        Some(c) => seq![
            ExprView {
                column: "category"@,
                op: Operator::Eq,
                operands: OperandsView::One(ValueView::UInt(c as u64)),
            },
        ],
        None => Seq::empty(),
    })
}

/// The condition that lists photo specifications.
/// The name condition of the photo specification list: the name is
/// like `%n%`.
pub open spec fn name_like(n: Seq<char>) -> ExprView {
    ExprView {
        column: "name"@,
        op: Operator::Like,
        operands: OperandsView::One(ValueView::Text("%"@ + n + "%"@)),
    }
}

/// Law of the photo specification list filter: a given, non-empty name
/// `n` adds exactly the condition `name LIKE '%n%'` first; a missing or
/// empty name adds no condition on the name; a given category `c` adds
/// `category = c` last; nothing else is added.
pub proof fn lemma_item_filter(params: ItemListRequest)
    ensures
        ({
            let f = item_filter_spec(params);
            let named = params.name matches Some(n) && n@.len() > 0;
            let classed = params.class is Some;
            &&& f.len() == (if named { 1int } else { 0 }) + (if classed { 1int } else { 0 })
            &&& named ==> f[0] == name_like(params.name->0@)
            &&& !named ==> forall|i: int| 0 <= i < f.len() ==> (#[trigger] f[i]).column != "name"@
                || f[i].op != Operator::Like
            &&& classed ==> f[f.len() - 1] == ExprView {
                column: "category"@,
                op: Operator::Eq,
                operands: OperandsView::One(ValueView::UInt(params.class->0 as u64)),
            }
        }),
{
    let f = item_filter_spec(params);
    let named = params.name matches Some(n) && n@.len() > 0;
    if !named {
        assert forall|i: int| 0 <= i < f.len() implies (#[trigger] f[i]).column != "name"@
            || f[i].op != Operator::Like by {
            assert(f[i].op == Operator::Eq);
        }
    }
}

pub fn photo_item_filter(params: &ItemListRequest) -> (c: Condition)
    ensures
        c@ == item_filter_spec(*params),
        ({
            let named = params.name matches Some(n) && n@.len() > 0;
            let classed = params.class is Some;
            &&& c@.len() == (if named { 1int } else { 0 }) + (if classed { 1int } else { 0 })
            &&& named ==> c@[0] == name_like(params.name->0@)
            &&& !named ==> forall|i: int| 0 <= i < c@.len() ==> (#[trigger] c@[i]).column != "name"@
                || c@[i].op != Operator::Like
            &&& classed ==> c@[c@.len() - 1] == ExprView {
                column: "category"@,
                op: Operator::Eq,
                operands: OperandsView::One(ValueView::UInt(params.class->0 as u64)),
            }
        }),
{
    proof {
        lemma_item_filter(*params);
    }
    let mut q = condition();
    match &params.name {
        Some(n) => {
            if !n.as_str().is_empty() {
                let pattern = concat_str("%", n.as_str());
                let pattern = concat_str(pattern.as_str(), "%");
                q = q.like(String::from_str("name"), pattern);
            }
        },
        None => {},
    }
    match params.class {
        Some(c) => {
            q = q.eq(String::from_str("category"), Value::UInt(c as u64));
        },
        None => {},
    }
    let c = q.build();
    assert(c@ =~= item_filter_spec(*params));
    c
}

/// The filter of a user's photo list: the user's own photos that have
/// been stored (their path is not empty).
pub open spec fn photo_list_filter_spec(user_id: Seq<char>) -> Seq<ExprView> {
    seq![
        ExprView {
            column: "user_id"@,
            op: Operator::Eq,
            operands: OperandsView::One(ValueView::Text(user_id)),
        },
        ExprView {
            column: "file_path"@,
            op: Operator::Ne,
            operands: OperandsView::One(ValueView::Text(Seq::empty())),
        },
    ]
}

/// The condition that lists a user's photos.
/// Law of the photo list filter: a photo row is listed for `user_id`
/// exactly when it belongs to that user and has a stored file (its path
/// is neither NULL nor empty), whatever the database's order.
pub proof fn lemma_photo_list_meaning(
    user_id: Seq<char>,
    row: Map<Seq<char>, ValueView>,
    above: spec_fn(ValueView, ValueView) -> bool,
)
    ensures
        row_meets(row, photo_list_filter_spec(user_id), above) <==> (row.dom().contains("user_id"@)
            && row["user_id"@] == ValueView::Text(user_id) && row.dom().contains("file_path"@)
            && row["file_path"@] != ValueView::Text(Seq::empty())),
{
    let e0 = ExprView {
        column: "user_id"@,
        op: Operator::Eq,
        operands: OperandsView::One(ValueView::Text(user_id)),
    };
    let e1 = ExprView {
        column: "file_path"@,
        op: Operator::Ne,
        operands: OperandsView::One(ValueView::Text(Seq::empty())),
    };
    let empty = Seq::<ExprView>::empty();
    assert(photo_list_filter_spec(user_id) =~= empty.push(e0).push(e1));
    assert(row_meets(row, empty, above));
    lemma_row_meets_push(row, empty, e0, above);
    lemma_row_meets_push(row, empty.push(e0), e1, above);
}

pub fn photo_list_filter(user_id: &str) -> (c: Condition)
    ensures
        c@ == photo_list_filter_spec(user_id@),
        forall|row: Map<Seq<char>, ValueView>, above: spec_fn(ValueView, ValueView) -> bool|
            #[trigger] row_meets(row, c@, above) <==> (row.dom().contains("user_id"@)
                && row["user_id"@] == ValueView::Text(user_id@) && row.dom().contains("file_path"@)
                && row["file_path"@] != ValueView::Text(Seq::empty())),
{
    proof {
        assert forall|row: Map<Seq<char>, ValueView>, above: spec_fn(ValueView, ValueView) -> bool|
            #[trigger] row_meets(row, photo_list_filter_spec(user_id@), above) <==> (row.dom().contains(
                "user_id"@,
            ) && row["user_id"@] == ValueView::Text(user_id@) && row.dom().contains("file_path"@)
                && row["file_path"@] != ValueView::Text(Seq::empty())) by {
            lemma_photo_list_meaning(user_id@, row, above);
        }
    }
    let q = condition().eq(String::from_str("user_id"), Value::Text(String::from_str(user_id))).ne(
        String::from_str("file_path"),
        Value::Text(String::new()),
    );
    let c = q.build();
    assert(c@ =~= photo_list_filter_spec(user_id@));
    c
}

// ---------------------------------------------------------------------
// Access
// ---------------------------------------------------------------------

/// The answer of the video unit endpoint: no video unit and no HD
/// downloads.
pub fn video_unit() -> (r: GetVideoUnitResponse)
    ensures
        r.video_unit_id@ == Seq::<char>::empty(),
        r.download_hd == 0,
{
    GetVideoUnitResponse { video_unit_id: String::new(), download_hd: 0 }
}

/// The user a logged-in request goes on with, given the lookup of the
/// user named in its token: a name that no user has is answered
/// `NotFound` and no user is handed on; a found user is handed on as it
/// is.
pub fn login_user<T>(found: Option<T>) -> (r: Result<T, Error>)
    ensures
        r is Err <==> found is None,
        r is Err ==> r->Err_0 is NotFound,
        found matches Some(u) ==> r == Ok::<T, Error>(u),
{
    match found {
        Some(u) => Ok(u),
        None => Err(Error::NotFound),
    }
}

/// What the token check found out about a request.
#[derive(Clone, Copy, Debug, PartialEq, Eq)]
pub enum AuthState {
    Authorized,
    Unauthorized,
    Forbidden,
}

/// What to do with a request that needs a logged-in user.
#[derive(Clone, Copy, Debug, PartialEq, Eq)]
pub enum LoginGate {
    /// Load the user named in the token and go on.
    LoadUser,
    /// Stop here and answer with this status.
    Reject(u16),
}

/// The decision for a route that needs a logged-in user: an authorized
/// request goes on with its user, an unauthorized one is answered 401, a
/// forbidden one 403.
pub fn login_gate(state: AuthState) -> (g: LoginGate)
    ensures
        state is Authorized <==> g is LoadUser,
        state is Unauthorized <==> g == LoginGate::Reject(401),
        state is Forbidden <==> g == LoginGate::Reject(403),
{
    match state {
        AuthState::Authorized => LoginGate::LoadUser,
        AuthState::Unauthorized => LoginGate::Reject(401),
        AuthState::Forbidden => LoginGate::Reject(403),
    }
}

// ---------------------------------------------------------------------
// Where the image services are reached
// ---------------------------------------------------------------------

/// The URL that `path` names relative to `base`, when `base` parses as an
/// absolute URL and the join succeeds.
pub uninterp spec fn joined_url(base: Seq<char>, path: Seq<char>) -> Option<Seq<char>>;

/// Resolves `path` against the URL `base`.
///
/// Trusted: calls `url::Url::parse(base)` and then `Url::join(path)` of the
/// `url` crate (WHATWG URL parsing and relative resolution) and writes the
/// result as text; the outcome is named `joined_url`, and either parser
/// error is returned as it is.
#[verifier::external_body]
fn url_join(base: &str, path: &str) -> (r: Result<String, url::ParseError>)
    ensures
        r is Ok <==> joined_url(base@, path@) is Some,
        r is Ok ==> r->Ok_0@ == joined_url(base@, path@)->0,
{
    match url::Url::parse(base) {
        Ok(u) => match u.join(path) {
            Ok(j) => Ok(j.to_string()),
            Err(e) => Err(e),
        },
        Err(e) => Err(e),
    }
}

/// The operations of the image services.
#[derive(Clone, Copy, Debug, PartialEq, Eq)]
pub enum ImageService {
    /// Make an id photo (`/idphoto` of the id-photo service).
    IdPhoto,
    /// Change the background (`/add_background`).
    AddBackground,
    /// Lay out a six-inch sheet (`/generate_layout_photos`).
    LayoutPhotos,
    /// Cut out a person (`/human_matting`).
    HumanMatting,
    /// Colourize an old photo (`/colourizeImg` of the colourizing service).
    Colourize,
    /// Turn a photo into a cartoon (`/cartoon` of the cartoon service).
    Cartoon,
}

/// The base URL setting and the path of each operation.
pub open spec fn service_base(settings: crate::settings::IdPhotoSetting, service: ImageService) -> Seq<char> {
    match service {
        ImageService::Colourize => settings.colorize_uri@,
        ImageService::Cartoon => settings.cartoon_uri@,
        _ => settings.zjz_uri@,
    }
}

pub open spec fn service_path(service: ImageService) -> Seq<char> {
    match service {
        ImageService::IdPhoto => "/idphoto"@,
        ImageService::AddBackground => "/add_background"@,
        ImageService::LayoutPhotos => "/generate_layout_photos"@,
        ImageService::HumanMatting => "/human_matting"@,
        ImageService::Colourize => "/colourizeImg"@,
        ImageService::Cartoon => "/cartoon"@,
    }
}

/// Whether `r` is the URL that joins `path` onto `base`, or fails
/// exactly when they do not join.
pub open spec fn joins_to(r: Result<String, Error>, base: Seq<char>, path: Seq<char>) -> bool {
    &&& (r is Ok <==> joined_url(base, path) is Some)
    &&& (r is Ok ==> r->Ok_0@ == joined_url(base, path)->0)
}

/// Law of the service addresses: the id-photo operations (`/idphoto`,
/// `/add_background`, `/generate_layout_photos`, `/human_matting`) are
/// on the id-photo service, colourizing (`/colourizeImg`) on the
/// colourizing service and cartoons (`/cartoon`) on the cartoon service.
pub proof fn lemma_service_addresses(settings: crate::settings::IdPhotoSetting)
    ensures
        service_base(settings, ImageService::IdPhoto) == settings.zjz_uri@
            && service_path(ImageService::IdPhoto) == "/idphoto"@,
        service_base(settings, ImageService::AddBackground) == settings.zjz_uri@
            && service_path(ImageService::AddBackground) == "/add_background"@,
        service_base(settings, ImageService::LayoutPhotos) == settings.zjz_uri@
            && service_path(ImageService::LayoutPhotos) == "/generate_layout_photos"@,
        service_base(settings, ImageService::HumanMatting) == settings.zjz_uri@
            && service_path(ImageService::HumanMatting) == "/human_matting"@,
        service_base(settings, ImageService::Colourize) == settings.colorize_uri@
            && service_path(ImageService::Colourize) == "/colourizeImg"@,
        service_base(settings, ImageService::Cartoon) == settings.cartoon_uri@
            && service_path(ImageService::Cartoon) == "/cartoon"@,
{
}

/// The URL of an image service operation; a base URL that does not parse
/// or join is returned as `Error::ParseError`.
pub fn service_endpoint(settings: &crate::settings::IdPhotoSetting, service: ImageService) -> (r: Result<String, Error>)
    ensures
        service is IdPhoto ==> joins_to(r, settings.zjz_uri@, "/idphoto"@),
        service is AddBackground ==> joins_to(r, settings.zjz_uri@, "/add_background"@),
        service is LayoutPhotos ==> joins_to(r, settings.zjz_uri@, "/generate_layout_photos"@),
        service is HumanMatting ==> joins_to(r, settings.zjz_uri@, "/human_matting"@),
        service is Colourize ==> joins_to(r, settings.colorize_uri@, "/colourizeImg"@),
        service is Cartoon ==> joins_to(r, settings.cartoon_uri@, "/cartoon"@),
        r is Ok <==> joined_url(service_base(*settings, service), service_path(service)) is Some,
        r is Ok ==> r->Ok_0@ == joined_url(service_base(*settings, service), service_path(service))->0,
        r is Err ==> r->Err_0 is ParseError,
{
    let base = match service {
        ImageService::Colourize => settings.colorize_uri.as_str(),
        ImageService::Cartoon => settings.cartoon_uri.as_str(),
        _ => settings.zjz_uri.as_str(),
    };
    let path = match service {
        ImageService::IdPhoto => "/idphoto",
        ImageService::AddBackground => "/add_background",
        ImageService::LayoutPhotos => "/generate_layout_photos",
        ImageService::HumanMatting => "/human_matting",
        ImageService::Colourize => "/colourizeImg",
        ImageService::Cartoon => "/cartoon",
    };
    match url_join(base, path) {
        Ok(u) => Ok(u),
        Err(e) => Err(Error::ParseError(e)),
    }
}

} // verus!
