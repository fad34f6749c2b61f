//! The order of the steps of the endpoints that send a stored photo to an
//! image service and keep the picture that comes back (colourizing,
//! cartoon, matting and six-inch layout). Each step takes what the last
//! outside call gave and says which call comes next; the application
//! makes the calls and returns the errors they raise.

use crate::dtos::{AddBackgroundResult, ColourizeResult, GenerateLayoutPhotoRequest, UpdatePhotoDto};
use crate::endpoints::{
    lemma_service_addresses,
    busy_message, cartoon_body, check_colourize_reply, check_face_reply, colourize_update,
    fields_view, joined_url, json_one_field, layout_fields_spec, layout_form_fields,
    layout_update, matting_form_fields, matting_update, no_face_message, service_base,
    service_endpoint, service_path, width_field_if_given, colourize_body, ImageService,
};
use crate::error::Error;
use crate::media::{
    base64_decoding, base64_text, data_url, decodable_data_url, from_base64, image_type,
    payload_bytes,
};
use crate::records::PhotoRecord;
use crate::settings::IdPhotoSetting;
use crate::storage::{guessed_content_type, upload_content_type};
use vstd::prelude::*;

verus! {

/// The image services whose result is kept as a new picture of a photo.
pub enum Processing {
    /// Colourize an old photo.
    Colourize,
    /// Turn the photo into a cartoon.
    Cartoon,
    /// Cut the person out, with the dpi asked for (empty when not given).
    Matting { dpi: String },
    /// Lay the photo out on a six-inch sheet.
    Layout(GenerateLayoutPhotoRequest),
}

/// The service that does a processing.
pub open spec fn processing_service(p: Processing) -> ImageService {
    match p {
        Processing::Colourize => ImageService::Colourize,
        Processing::Cartoon => ImageService::Cartoon,
        Processing::Matting { .. } => ImageService::HumanMatting,
        Processing::Layout(_) => ImageService::LayoutPhotos,
    }
}

/// Law: each processing is sent to its own service operation:
/// colourizing joins `/colourizeImg` onto the colourizing service's base
/// URL, cartoons join `/cartoon` onto the cartoon service's, matting
/// `/human_matting` and layout `/generate_layout_photos` onto the
/// id-photo service's.
pub proof fn lemma_processing_address(kind: Processing, settings: IdPhotoSetting)
    ensures
        kind is Colourize ==> service_base(settings, processing_service(kind))
            == settings.colorize_uri@ && service_path(processing_service(kind)) == "/colourizeImg"@,
        kind is Cartoon ==> service_base(settings, processing_service(kind)) == settings.cartoon_uri@
            && service_path(processing_service(kind)) == "/cartoon"@,
        kind is Matting ==> service_base(settings, processing_service(kind)) == settings.zjz_uri@
            && service_path(processing_service(kind)) == "/human_matting"@,
        kind is Layout ==> service_base(settings, processing_service(kind)) == settings.zjz_uri@
            && service_path(processing_service(kind)) == "/generate_layout_photos"@,
{
    lemma_service_addresses(settings);
}

/// Whether `action` sends the request to `address`, or fails the run
/// with a parse error where there is no address.
pub open spec fn sends_to(action: ProcessAction, address: Option<Seq<char>>) -> bool {
    &&& address is None ==> (action matches ProcessAction::Fail(e) && e is ParseError)
    &&& address is Some ==> (action matches ProcessAction::Send { url, .. } && url@ == address->0)
}

/// A request to an image service.
pub enum ServiceRequest {
    /// A JSON body.
    Json(String),
    /// A multipart form: its text fields, then the image under
    /// `input_image` with the photo's file name.
    Form { fields: Vec<(String, String)>, image: Vec<u8>, file_name: String },
}

/// Where a processing run stands.
pub enum ProcessState {
    /// Waiting for the photo record.
    AwaitPhoto,
    /// Waiting for the stored image of `photo`.
    AwaitImage { photo: PhotoRecord },
    /// Waiting for the reply of the image service.
    AwaitReply { photo: PhotoRecord },
    /// Waiting for the new picture to be stored.
    AwaitStore { photo: PhotoRecord },
    /// Waiting for the photo record to be updated.
    AwaitUpdate,
    /// Answered or failed.
    Finished,
}

/// What the last outside call gave.
pub enum ProcessEvent {
    /// The photo record was looked up: the record, or `None` when no
    /// photo has that id.
    PhotoFound(Option<PhotoRecord>),
    /// The stored image of the photo was read.
    ImageLoaded(Vec<u8>),
    /// The colourizing service replied: its result, or `None` when the
    /// HTTP reply was not a success.
    ColourizeReplied(Option<ColourizeResult>),
    /// The cartoon, matting or layout service replied: its result, or
    /// `None` when the HTTP reply was not a success.
    FaceReplied(Option<AddBackgroundResult>),
    /// The new picture was stored under this key.
    Stored(String),
    /// The photo record was updated; this is the new record.
    Updated(PhotoRecord),
}

/// The next outside call, or the answer.
pub enum ProcessAction {
    /// Read the photo record with this id.
    FindPhoto(String),
    /// Read the stored image under this key.
    LoadImage(String),
    /// Send this request to this address.
    Send { url: String, request: ServiceRequest },
    /// Store these bytes under this key, with this content type.
    Store { key: String, content_type: String, data: Vec<u8> },
    /// Update the photo record with these changes.
    Update { photo: PhotoRecord, changes: UpdatePhotoDto },
    /// Answer with this text.
    Respond(String),
    /// Answer with this error.
    Fail(Error),
}

/// The name the new picture of a processing is kept under.
pub open spec fn processed_name(p: Processing) -> Seq<char> {
    match p {
        Processing::Colourize => "老照片上色"@,
        Processing::Layout(_) => "六寸排版照"@,
        _ => "图片抠图"@,
    }
}

/// Law of the picture names: a colourized photo is named 老照片上色 ("old
/// photo colourized"), a layout sheet 六寸排版照 ("six-inch layout"),
/// a matting or cartoon cut-out 图片抠图 ("picture cut-out").
pub proof fn lemma_processed_names(dpi: String, req: GenerateLayoutPhotoRequest)
    ensures
        processed_name(Processing::Colourize) == "老照片上色"@,
        processed_name(Processing::Layout(req)) == "六寸排版照"@,
        processed_name(Processing::Matting { dpi }) == "图片抠图"@,
        processed_name(Processing::Cartoon) == "图片抠图"@,
{
}

/// Whether `event` can follow in `state` (and, where the service would
/// otherwise panic, carries data it accepts: image data with a jpeg, png
/// or gif signature for a JSON request, a decodable picture in a
/// successful reply).
pub open spec fn event_fits(kind: Processing, state: ProcessState, event: ProcessEvent) -> bool {
    match (state, event) {
        (ProcessState::AwaitPhoto, ProcessEvent::PhotoFound(_)) => true,
        (ProcessState::AwaitImage { .. }, ProcessEvent::ImageLoaded(img)) => match kind {
            Processing::Colourize | Processing::Cartoon => img@.len() <= usize::MAX / 512
                && image_type(img@) is Some,
            _ => true,
        },
        (ProcessState::AwaitReply { .. }, ProcessEvent::ColourizeReplied(r)) => kind is Colourize
            && match r {
            Some(res) => res.status == 2 ==> decodable_data_url(res.processed_image@),
            None => true,
        },
        (ProcessState::AwaitReply { .. }, ProcessEvent::FaceReplied(r)) => !(kind is Colourize)
            && match r {
            Some(res) => res.status ==> decodable_data_url(res.image_base64@),
            None => true,
        },
        (ProcessState::AwaitStore { .. }, ProcessEvent::Stored(_)) => true,
        (ProcessState::AwaitUpdate, ProcessEvent::Updated(_)) => true,
        _ => false,
    }
}

/// Whether `req` is the request a processing sends for `image`, stored
/// under `file_name`: the data URL of the image as JSON for colourizing
/// (under `base64_image`) and for cartoons (under `image`); a form with
/// the matting model and the dpi, or with the layout's sizes, and the
/// image for matting and layout.
pub open spec fn request_fits(
    kind: Processing,
    settings: IdPhotoSetting,
    image: Seq<u8>,
    file_name: String,
    req: ServiceRequest,
) -> bool {
    match kind {
        Processing::Colourize => req matches ServiceRequest::Json(body) && body@ == json_one_field(
            "base64_image"@,
            data_url(image_type(image)->0, base64_text(image)),
        ),
        Processing::Cartoon => req matches ServiceRequest::Json(body) && body@ == json_one_field(
            "image"@,
            data_url(image_type(image)->0, base64_text(image)),
        ),
        Processing::Matting { dpi } => req matches ServiceRequest::Form {
            fields,
            image: i,
            file_name: f,
        } && fields_view(fields@) == seq![("human_matting_model"@, settings.human_matting_model@)]
            + width_field_if_given(dpi@) && i@ == image && f == file_name,
        Processing::Layout(r) => req matches ServiceRequest::Form {
            fields,
            image: i,
            file_name: f,
        } && fields_view(fields@) == layout_fields_spec(r) && i@ == image && f == file_name,
    }
}

/// The first step: read the photo record.
pub fn process_start(image_id: String) -> (r: (ProcessState, ProcessAction))
    ensures
        r.0 is AwaitPhoto,
        r.1 == ProcessAction::FindPhoto(image_id),
{
    (ProcessState::AwaitPhoto, ProcessAction::FindPhoto(image_id))
}

/// The request for the image service, made once its address is known.
fn service_request(
    kind: &Processing,
    settings: &IdPhotoSetting,
    image: Vec<u8>,
    file_name: String,
) -> (req: ServiceRequest)
    requires
        (*kind is Colourize || *kind is Cartoon) ==> image@.len() <= usize::MAX / 512 && image_type(
            image@,
        ) is Some,
    ensures
        request_fits(*kind, *settings, image@, file_name, req),
{
    match kind {
        Processing::Colourize => ServiceRequest::Json(colourize_body(image)),
        Processing::Cartoon => ServiceRequest::Json(cartoon_body(image)),
        Processing::Matting { dpi } => ServiceRequest::Form {
            fields: matting_form_fields(settings.human_matting_model.as_str(), dpi),
            image,
            file_name,
        },
        Processing::Layout(req) => ServiceRequest::Form {
            fields: layout_form_fields(req),
            image,
            file_name,
        },
    }
}

/// The changes to the photo once its new picture is stored under `key`.
fn processed_changes(kind: &Processing, key: String) -> (dto: UpdatePhotoDto)
    ensures
        dto.name is Some && dto.name->0@ == processed_name(*kind),
        dto.file_path == Some(key),
        dto.colorize_key is None,
        dto.width is None,
        dto.height is None,
{
    match kind {
        Processing::Colourize => colourize_update(key),
        Processing::Layout(_) => layout_update(key),
        _ => matting_update(key),
    }
}

/// The store of a decoded picture under the photo's file name, with the
/// content type guessed from that name.
fn store_picture(photo: &PhotoRecord, payload: String) -> (a: ProcessAction)
    requires
        decodable_data_url(payload@),
    ensures
        (a matches ProcessAction::Store { key, content_type, data } && key == photo.file_name
            && content_type@ == guessed_content_type(photo.file_name@) && base64_decoding(
            payload_bytes(payload@),
        ) == Some(data@)),
{
    let data = from_base64(payload);
    ProcessAction::Store {
        key: photo.file_name.clone(),
        content_type: upload_content_type(photo.file_name.as_str()),
        data,
    }
}

/// One step of a processing run: from where it stands and what the last
/// outside call gave, where it stands next and what comes next. The
/// photo is read, then its stored image; the service's address is made
/// (a bad address fails the run); the request is sent; a failed reply
/// fails with "系统繁忙，请稍后再试", a reply without a single face with
/// "未检测到人脸或多人脸"; the decoded picture is stored under the
/// photo's file name; the photo takes the new name and stored path; the
/// answer is the photo's new path.
pub fn process_step(
    kind: &Processing,
    settings: &IdPhotoSetting,
    state: ProcessState,
    event: ProcessEvent,
) -> (r: (ProcessState, ProcessAction))
    requires
        event_fits(*kind, state, event),
    ensures
        state is AwaitImage && *kind is Colourize ==> sends_to(
            r.1,
            joined_url(settings.colorize_uri@, "/colourizeImg"@),
        ),
        state is AwaitImage && *kind is Cartoon ==> sends_to(
            r.1,
            joined_url(settings.cartoon_uri@, "/cartoon"@),
        ),
        state is AwaitImage && *kind is Matting ==> sends_to(
            r.1,
            joined_url(settings.zjz_uri@, "/human_matting"@),
        ),
        state is AwaitImage && *kind is Layout ==> sends_to(
            r.1,
            joined_url(settings.zjz_uri@, "/generate_layout_photos"@),
        ),
        state is AwaitPhoto ==> (event matches ProcessEvent::PhotoFound(Some(p)) ==> (r.0
            == ProcessState::AwaitImage { photo: p } && r.1 == ProcessAction::LoadImage(p.id))),
        state is AwaitPhoto ==> (event matches ProcessEvent::PhotoFound(None) ==> (r.0 is Finished
            && (r.1 matches ProcessAction::Fail(e) && e is NotFound))),
        state is AwaitImage ==> ({
            let url = joined_url(
                service_base(*settings, processing_service(*kind)),
                service_path(processing_service(*kind)),
            );
            &&& url is None ==> (r.0 is Finished && (r.1 matches ProcessAction::Fail(e)
                && e is ParseError))
            &&& url is Some ==> (r.0 == ProcessState::AwaitReply { photo: state->AwaitImage_photo }
                && (r.1 matches ProcessAction::Send { url: u, request } && u@ == url->0
                && (event matches ProcessEvent::ImageLoaded(img) && request_fits(
                *kind,
                *settings,
                img@,
                state->AwaitImage_photo.file_name,
                request,
            ))))
        }),
        state is AwaitReply ==> ({
            let passed = match event {
                ProcessEvent::ColourizeReplied(Some(res)) => res.status == 2,
                ProcessEvent::FaceReplied(Some(res)) => res.status,
                _ => false,
            };
            let message = match event {
                ProcessEvent::FaceReplied(Some(_)) => no_face_message(),
                _ => busy_message(),
            };
            let payload = match event {
                ProcessEvent::ColourizeReplied(Some(res)) => res.processed_image@,
                ProcessEvent::FaceReplied(Some(res)) => res.image_base64@,
                _ => Seq::empty(),
            };
            let photo = state->AwaitReply_photo;
            &&& !passed ==> (r.0 is Finished && (r.1 matches ProcessAction::Fail(e) && e is Message
                && e->Message_0@ == message))
            &&& passed ==> (r.0 == ProcessState::AwaitStore { photo }
                && (r.1 matches ProcessAction::Store { key, content_type, data } && key
                == photo.file_name && content_type@ == guessed_content_type(photo.file_name@)
                && base64_decoding(payload_bytes(payload)) == Some(data@)))
        }),
        state is AwaitStore ==> (event matches ProcessEvent::Stored(key) ==> (r.0 is AwaitUpdate
            && (r.1 matches ProcessAction::Update { photo, changes } && photo
            == state->AwaitStore_photo && changes.name is Some && changes.name->0@
            == processed_name(*kind) && changes.file_path == Some(key)
            && changes.colorize_key is None && changes.width is None && changes.height is None))),
        state is AwaitUpdate ==> (event matches ProcessEvent::Updated(p) ==> (r.0 is Finished
            && r.1 == ProcessAction::Respond(p.file_path))),
{
    match (state, event) {
        (ProcessState::AwaitPhoto, ProcessEvent::PhotoFound(None)) => {
            (ProcessState::Finished, ProcessAction::Fail(Error::NotFound))
        },
        (ProcessState::AwaitPhoto, ProcessEvent::PhotoFound(Some(p))) => {
            let id = p.id.clone();
            (ProcessState::AwaitImage { photo: p }, ProcessAction::LoadImage(id))
        },
        (ProcessState::AwaitImage { photo }, ProcessEvent::ImageLoaded(img)) => {
            proof {
                lemma_processing_address(*kind, *settings);
            }
            let service = match kind {
                Processing::Colourize => ImageService::Colourize,
                Processing::Cartoon => ImageService::Cartoon,
                Processing::Matting { .. } => ImageService::HumanMatting,
                Processing::Layout(_) => ImageService::LayoutPhotos,
            };
            match service_endpoint(settings, service) {
                Err(e) => (ProcessState::Finished, ProcessAction::Fail(e)),
                Ok(url) => {
                    let request = service_request(kind, settings, img, photo.file_name.clone());
                    (ProcessState::AwaitReply { photo }, ProcessAction::Send { url, request })
                },
            }
        },
        (ProcessState::AwaitReply { photo }, ProcessEvent::ColourizeReplied(reply)) => {
            let (ok, status, payload) = match reply {
                Some(res) => (true, res.status, res.processed_image),
                None => (false, 0u8, String::new()),
            };
            match check_colourize_reply(ok, status) {
                Err(e) => (ProcessState::Finished, ProcessAction::Fail(e)),
                Ok(()) => {
                    let action = store_picture(&photo, payload);
                    (ProcessState::AwaitStore { photo }, action)
                },
            }
        },
        (ProcessState::AwaitReply { photo }, ProcessEvent::FaceReplied(reply)) => {
            let (ok, status, payload) = match reply {
                Some(res) => (true, res.status, res.image_base64),
                None => (false, false, String::new()),
            };
            match check_face_reply(ok, status) {
                Err(e) => (ProcessState::Finished, ProcessAction::Fail(e)),
                Ok(()) => {
                    let action = store_picture(&photo, payload);
                    (ProcessState::AwaitStore { photo }, action)
                },
            }
        },
        (ProcessState::AwaitStore { photo }, ProcessEvent::Stored(key)) => {
            let changes = processed_changes(kind, key);
            (ProcessState::AwaitUpdate, ProcessAction::Update { photo, changes })
        },
        (ProcessState::AwaitUpdate, ProcessEvent::Updated(p)) => {
            (ProcessState::Finished, ProcessAction::Respond(p.file_path))
        },
        (s, _) => (s, ProcessAction::Fail(Error::InternalServerError)),
    }
}

} // verus!
