//! The order of the steps of the endpoints that keep pictures in the
//! cache for ten minutes: uploading a photo, making an id photo,
//! changing its background, and downloading the result into the object
//! store. Each step takes what the last outside call gave and says which
//! call comes next; the application makes the calls and returns the
//! errors they raise.

use crate::dtos::{
    AddBackgroundResult, CreatePhotoDto, CreateIdPhotoRequest, CreateIdPhotoResult, IdPhotoResponse,
    UpdateIdPhotoRequest, UpdatePhotoDto,
};
use crate::endpoints::{
    background_form_fields, background_update, busy_message, download_update, uploaded_photo, check_face_reply, fields_view,
    id_photo_fields_spec, id_photo_form_fields, id_photo_update, joined_url, no_face_message,
    service_base, service_endpoint, service_path, ImageService,
};
use crate::error::Error;
use crate::flow::ServiceRequest;
use crate::media::{base64_decoding, decodable_data_url, from_base64, payload_bytes};
use crate::records::{PhotoItem, PhotoRecord};
use crate::settings::{IdPhotoSetting, S3};
use crate::storage::{file_url, file_url_of, guessed_content_type, upload_content_type};
use crate::text::decimal;
use vstd::prelude::*;

verus! {

/// How long a picture stays in the cache: ten minutes, in seconds.
pub open spec fn cache_seconds() -> u64 {
    600
}

/// What the last outside call gave.
pub enum CacheEvent {
    /// The cached image was read.
    ImageLoaded(Vec<u8>),
    /// The photo specification was looked up: the row, or `None` when no
    /// specification has that id.
    ItemFound(Option<PhotoItem>),
    /// The photo record was looked up: the record, or `None` when no
    /// photo has that id.
    PhotoFound(Option<PhotoRecord>),
    /// The id-photo service replied: its result, or `None` when the HTTP
    /// reply was not a success.
    IdPhotoReplied(Option<CreateIdPhotoResult>),
    /// The background service replied.
    BackgroundReplied(AddBackgroundResult),
    /// A fresh key was made.
    KeyMade(String),
    /// The photo record was updated; this is the new record.
    Updated(PhotoRecord),
    /// The picture was put in the cache.
    Cached,
    /// The photo record was created; this is the new record.
    Created(PhotoRecord),
    /// The picture was stored under this key.
    Stored(String),
}

/// The next outside call, or the answer.
pub enum CacheAction {
    /// Read the cached image under this key.
    LoadImage(String),
    /// Read the photo specification with this id.
    FindItem(String),
    /// Read the photo record with this id.
    FindPhoto(String),
    /// Send this request to this address.
    Send { url: String, request: ServiceRequest },
    /// Make a fresh key.
    MakeKey,
    /// Update the photo record with these changes.
    Update { photo: PhotoRecord, changes: UpdatePhotoDto },
    /// Put these bytes in the cache under this key for this many seconds.
    Cache { key: String, data: Vec<u8>, seconds: u64 },
    /// Answer with this record.
    Respond(IdPhotoResponse),
    /// Create a photo record.
    CreatePhoto(CreatePhotoDto),
    /// Store these bytes under this key, with this content type.
    Store { key: String, content_type: String, data: Vec<u8> },
    /// Answer with this text.
    RespondText(String),
    /// Finish without an answer.
    Done,
    /// Answer with this error.
    Fail(Error),
}

/// The address of an image service made from the settings.
pub open spec fn service_url(settings: IdPhotoSetting, service: ImageService) -> Option<Seq<char>> {
    joined_url(service_base(settings, service), service_path(service))
}

// ---------------------------------------------------------------------
// Making an id photo
// ---------------------------------------------------------------------

/// Where the making of an id photo stands.
pub enum IdPhotoState {
    /// Waiting for the cached image of the upload.
    AwaitImage,
    /// Waiting for the photo specification.
    AwaitItem { image: Vec<u8> },
    /// Waiting for the photo record.
    AwaitPhoto { image: Vec<u8>, item: PhotoItem },
    /// Waiting for the reply of the id-photo service.
    AwaitReply { photo: PhotoRecord, item: PhotoItem },
    /// Waiting for the photo record to be updated.
    AwaitUpdate { picture: Vec<u8>, image_base64: String },
    /// Waiting for the picture to be cached.
    AwaitCache { response: IdPhotoResponse },
    /// Answered or failed.
    Finished,
}

/// Whether `event` can follow in `state` (and a successful reply carries
/// a decodable picture, without which the service would panic).
pub open spec fn id_photo_event_fits(state: IdPhotoState, event: CacheEvent) -> bool {
    match (state, event) {
        (IdPhotoState::AwaitImage, CacheEvent::ImageLoaded(_)) => true,
        (IdPhotoState::AwaitItem { .. }, CacheEvent::ItemFound(_)) => true,
        (IdPhotoState::AwaitPhoto { .. }, CacheEvent::PhotoFound(_)) => true,
        (IdPhotoState::AwaitReply { .. }, CacheEvent::IdPhotoReplied(r)) => match r {
            Some(res) => res.status ==> decodable_data_url(res.image_base64_standard@),
            None => true,
        },
        (IdPhotoState::AwaitUpdate { .. }, CacheEvent::Updated(_)) => true,
        (IdPhotoState::AwaitCache { .. }, CacheEvent::Cached) => true,
        _ => false,
    }
}

/// The first step of making an id photo: read the uploaded image from
/// the cache.
pub fn id_photo_start(params: &CreateIdPhotoRequest) -> (r: (IdPhotoState, CacheAction))
    ensures
        r.0 is AwaitImage,
        r.1 == CacheAction::LoadImage(params.image_id),
{
    (IdPhotoState::AwaitImage, CacheAction::LoadImage(params.image_id.clone()))
}

/// One step of making an id photo. The uploaded image is read from the
/// cache, then the photo specification, then the photo record; the
/// service's address is made (a bad address fails); the form with the
/// specification's size and resolution, the matting model, the beauty
/// settings and the image is sent; a failed reply fails with
/// "系统繁忙，请稍后再试", a reply without a single face with
/// "未检测到人脸或多人脸"; the photo takes the specification's name and
/// size; the decoded picture is cached under the photo's id for ten
/// minutes; the answer is the photo's id and the picture's base64 text.
pub fn id_photo_step(
    params: &CreateIdPhotoRequest,
    settings: &IdPhotoSetting,
    state: IdPhotoState,
    event: CacheEvent,
) -> (r: (IdPhotoState, CacheAction))
    requires
        id_photo_event_fits(state, event),
    ensures
        state is AwaitImage ==> (event matches CacheEvent::ImageLoaded(img) ==> (r.0
            == IdPhotoState::AwaitItem { image: img } && r.1 == CacheAction::FindItem(
            params.item_id,
        ))),
        state is AwaitItem ==> (event matches CacheEvent::ItemFound(None) ==> (r.0 is Finished
            && (r.1 matches CacheAction::Fail(e) && e is NotFound))),
        state is AwaitPhoto ==> (event matches CacheEvent::PhotoFound(None) ==> (r.0 is Finished
            && (r.1 matches CacheAction::Fail(e) && e is NotFound))),
        state is AwaitItem ==> (event matches CacheEvent::ItemFound(Some(item)) ==> (r.0
            == IdPhotoState::AwaitPhoto { image: state->AwaitItem_image, item }
            && r.1 == CacheAction::FindPhoto(params.image_id))),
        state is AwaitPhoto ==> (event matches CacheEvent::PhotoFound(Some(photo)) ==> ({
            let url = service_url(*settings, ImageService::IdPhoto);
            let item = state->AwaitPhoto_item;
            &&& url is None ==> (r.0 is Finished && (r.1 matches CacheAction::Fail(e)
                && e is ParseError))
            &&& url is Some ==> (r.0 == IdPhotoState::AwaitReply { photo, item } && (r.1 matches CacheAction::Send {
                url: u,
                request: ServiceRequest::Form { fields, image, file_name },
            } && u@ == url->0 && fields_view(fields@) == id_photo_fields_spec(
                item.height_px,
                item.dpi,
                item.width_px,
                settings.human_matting_model@,
                params.is_beauty_on,
            ) && image == state->AwaitPhoto_image && file_name == photo.file_name))
        })),
        state is AwaitReply ==> (event matches CacheEvent::IdPhotoReplied(reply) ==> ({
            let photo = state->AwaitReply_photo;
            let item = state->AwaitReply_item;
            &&& reply is None ==> (r.0 is Finished && (r.1 matches CacheAction::Fail(e)
                && e is Message && e->Message_0@ == busy_message()))
            &&& reply matches Some(res) ==> ({
                &&& !res.status ==> (r.0 is Finished && (r.1 matches CacheAction::Fail(e)
                    && e is Message && e->Message_0@ == no_face_message()))
                &&& res.status ==> ((r.0 matches IdPhotoState::AwaitUpdate {
                    picture,
                    image_base64,
                } && base64_decoding(payload_bytes(res.image_base64_standard@)) == Some(picture@)
                    && image_base64 == res.image_base64_standard) && (r.1 matches CacheAction::Update {
                    photo: p,
                    changes,
                } && p == photo && changes.name == Some(item.name) && changes.file_path is None
                    && changes.colorize_key is None && changes.width == Some(item.width_px)
                    && changes.height == Some(item.height_px)))
            })
        })),
        state is AwaitUpdate ==> (event matches CacheEvent::Updated(photo) ==> (r.0
            == IdPhotoState::AwaitCache {
            response: IdPhotoResponse {
                image_id: photo.id,
                image_base64: state->AwaitUpdate_image_base64,
            },
        } && r.1 == CacheAction::Cache {
            key: photo.id,
            data: state->AwaitUpdate_picture,
            seconds: cache_seconds(),
        })),
        state is AwaitCache ==> (event is Cached ==> (r.0 is Finished && r.1 == CacheAction::Respond(
            state->AwaitCache_response,
        ))),
{
    match (state, event) {
        (IdPhotoState::AwaitImage, CacheEvent::ImageLoaded(image)) => {
            (IdPhotoState::AwaitItem { image }, CacheAction::FindItem(params.item_id.clone()))
        },
        (IdPhotoState::AwaitItem { .. }, CacheEvent::ItemFound(None)) => {
            (IdPhotoState::Finished, CacheAction::Fail(Error::NotFound))
        },
        (IdPhotoState::AwaitPhoto { .. }, CacheEvent::PhotoFound(None)) => {
            (IdPhotoState::Finished, CacheAction::Fail(Error::NotFound))
        },
        (IdPhotoState::AwaitItem { image }, CacheEvent::ItemFound(Some(item))) => {
            (IdPhotoState::AwaitPhoto { image, item }, CacheAction::FindPhoto(params.image_id.clone()))
        },
        (IdPhotoState::AwaitPhoto { image, item }, CacheEvent::PhotoFound(Some(photo))) => {
            match service_endpoint(settings, ImageService::IdPhoto) {
                Err(e) => (IdPhotoState::Finished, CacheAction::Fail(e)),
                Ok(url) => {
                    let fields = id_photo_form_fields(
                        item.height_px,
                        item.dpi,
                        item.width_px,
                        settings.human_matting_model.as_str(),
                        params.is_beauty_on,
                    );
                    let file_name = photo.file_name.clone();
                    let request = ServiceRequest::Form { fields, image, file_name };
                    (IdPhotoState::AwaitReply { photo, item }, CacheAction::Send { url, request })
                },
            }
        },
        (IdPhotoState::AwaitReply { photo, item }, CacheEvent::IdPhotoReplied(reply)) => {
            let (ok, status, standard) = match reply {
                Some(res) => (true, res.status, res.image_base64_standard),
                None => (false, false, String::new()),
            };
            match check_face_reply(ok, status) {
                Err(e) => (IdPhotoState::Finished, CacheAction::Fail(e)),
                Ok(()) => {
                    let picture = from_base64(standard.clone());
                    let changes = id_photo_update(item.name, item.width_px, item.height_px);
                    (
                        IdPhotoState::AwaitUpdate { picture, image_base64: standard },
                        CacheAction::Update { photo, changes },
                    )
                },
            }
        },
        (IdPhotoState::AwaitUpdate { picture, image_base64 }, CacheEvent::Updated(photo)) => {
            let key = photo.id.clone();
            (
                IdPhotoState::AwaitCache {
                    response: IdPhotoResponse { image_id: photo.id, image_base64 },
                },
                CacheAction::Cache { key, data: picture, seconds: 600 },
            )
        },
        (IdPhotoState::AwaitCache { response }, CacheEvent::Cached) => {
            (IdPhotoState::Finished, CacheAction::Respond(response))
        },
        (s, _) => (s, CacheAction::Fail(Error::InternalServerError)),
    }
}

// ---------------------------------------------------------------------
// Changing the background of an id photo
// ---------------------------------------------------------------------

/// Where the change of an id photo's background stands.
pub enum BackgroundState {
    /// Waiting for the photo record.
    AwaitPhoto,
    /// Waiting for the cached image of the photo.
    AwaitImage { photo: PhotoRecord },
    /// Waiting for the reply of the background service.
    AwaitReply { photo: PhotoRecord },
    /// Waiting for a fresh key for the new picture.
    AwaitKey { photo: PhotoRecord, picture: Vec<u8>, image_base64: String },
    /// Waiting for the photo record to be updated.
    AwaitUpdate { picture: Vec<u8>, image_base64: String },
    /// Waiting for the picture to be cached.
    AwaitCache { response: IdPhotoResponse },
    /// Answered or failed.
    Finished,
}

/// Whether `event` can follow in `state` (and a successful reply carries
/// a decodable picture, without which the service would panic).
pub open spec fn background_event_fits(state: BackgroundState, event: CacheEvent) -> bool {
    match (state, event) {
        (BackgroundState::AwaitPhoto, CacheEvent::PhotoFound(_)) => true,
        (BackgroundState::AwaitImage { .. }, CacheEvent::ImageLoaded(_)) => true,
        (BackgroundState::AwaitReply { .. }, CacheEvent::BackgroundReplied(res)) => res.status
            ==> decodable_data_url(res.image_base64@),
        (BackgroundState::AwaitKey { .. }, CacheEvent::KeyMade(_)) => true,
        (BackgroundState::AwaitUpdate { .. }, CacheEvent::Updated(_)) => true,
        (BackgroundState::AwaitCache { .. }, CacheEvent::Cached) => true,
        _ => false,
    }
}

/// The first step of changing a background: read the photo record.
pub fn background_start(params: &UpdateIdPhotoRequest) -> (r: (BackgroundState, CacheAction))
    ensures
        r.0 is AwaitPhoto,
        r.1 == CacheAction::FindPhoto(params.image_id),
{
    (BackgroundState::AwaitPhoto, CacheAction::FindPhoto(params.image_id.clone()))
}

/// One step of changing the background of an id photo. The photo record
/// is read, then its cached image; the service's address is made (a bad
/// address fails); the form with the render mode, the colour and the
/// image is sent; a reply without a single face fails with
/// "未检测到人脸或多人脸"; a fresh key is made and the photo takes it as
/// its processing key; the decoded picture is cached under that key for
/// ten minutes; the answer is the photo's id and the picture's base64
/// text.
pub fn background_step(
    params: &UpdateIdPhotoRequest,
    settings: &IdPhotoSetting,
    state: BackgroundState,
    event: CacheEvent,
) -> (r: (BackgroundState, CacheAction))
    requires
        background_event_fits(state, event),
    ensures
        state is AwaitPhoto ==> (event matches CacheEvent::PhotoFound(None) ==> (r.0 is Finished
            && (r.1 matches CacheAction::Fail(e) && e is NotFound))),
        state is AwaitPhoto ==> (event matches CacheEvent::PhotoFound(Some(photo)) ==> (r.0
            == BackgroundState::AwaitImage { photo } && r.1 == CacheAction::LoadImage(photo.id))),
        state is AwaitImage ==> (event matches CacheEvent::ImageLoaded(img) ==> ({
            let url = service_url(*settings, ImageService::AddBackground);
            let photo = state->AwaitImage_photo;
            &&& url is None ==> (r.0 is Finished && (r.1 matches CacheAction::Fail(e)
                && e is ParseError))
            &&& url is Some ==> (r.0 == BackgroundState::AwaitReply { photo } && (r.1 matches CacheAction::Send {
                url: u,
                request: ServiceRequest::Form { fields, image, file_name },
            } && u@ == url->0 && fields_view(fields@) == seq![
                ("render"@, decimal(params.render as nat)),
                ("color"@, params.color@),
            ] && image == img && file_name == photo.file_name))
        })),
        state is AwaitReply ==> (event matches CacheEvent::BackgroundReplied(res) ==> ({
            let photo = state->AwaitReply_photo;
            &&& !res.status ==> (r.0 is Finished && (r.1 matches CacheAction::Fail(e) && e is Message
                && e->Message_0@ == no_face_message()))
            &&& res.status ==> ((r.0 matches BackgroundState::AwaitKey {
                photo: p,
                picture,
                image_base64,
            } && p == photo && base64_decoding(payload_bytes(res.image_base64@)) == Some(
                picture@,
            ) && image_base64 == res.image_base64) && r.1 is MakeKey)
        })),
        state is AwaitKey ==> (event matches CacheEvent::KeyMade(key) ==> (r.0
            == BackgroundState::AwaitUpdate {
            picture: state->AwaitKey_picture,
            image_base64: state->AwaitKey_image_base64,
        } && (r.1 matches CacheAction::Update { photo, changes } && photo == state->AwaitKey_photo
            && changes.colorize_key == Some(key) && changes.name is None
            && changes.file_path is None && changes.width is None && changes.height is None))),
        state is AwaitUpdate ==> (event matches CacheEvent::Updated(photo) ==> (r.0
            == BackgroundState::AwaitCache {
            response: IdPhotoResponse {
                image_id: photo.id,
                image_base64: state->AwaitUpdate_image_base64,
            },
        } && r.1 == CacheAction::Cache {
            key: photo.colorize_key,
            data: state->AwaitUpdate_picture,
            seconds: cache_seconds(),
        })),
        state is AwaitCache ==> (event is Cached ==> (r.0 is Finished && r.1
            == CacheAction::Respond(state->AwaitCache_response))),
{
    match (state, event) {
        (BackgroundState::AwaitPhoto, CacheEvent::PhotoFound(None)) => {
            (BackgroundState::Finished, CacheAction::Fail(Error::NotFound))
        },
        (BackgroundState::AwaitPhoto, CacheEvent::PhotoFound(Some(photo))) => {
            let id = photo.id.clone();
            (BackgroundState::AwaitImage { photo }, CacheAction::LoadImage(id))
        },
        (BackgroundState::AwaitImage { photo }, CacheEvent::ImageLoaded(image)) => {
            match service_endpoint(settings, ImageService::AddBackground) {
                Err(e) => (BackgroundState::Finished, CacheAction::Fail(e)),
                Ok(url) => {
                    let fields = background_form_fields(params);
                    let file_name = photo.file_name.clone();
                    let request = ServiceRequest::Form { fields, image, file_name };
                    (BackgroundState::AwaitReply { photo }, CacheAction::Send { url, request })
                },
            }
        },
        (BackgroundState::AwaitReply { photo }, CacheEvent::BackgroundReplied(res)) => {
            if !res.status {
                return (BackgroundState::Finished, CacheAction::Fail(Error::string("未检测到人脸或多人脸")));
            }
            let picture = from_base64(res.image_base64.clone());
            (
                BackgroundState::AwaitKey { photo, picture, image_base64: res.image_base64 },
                CacheAction::MakeKey,
            )
        },
        (BackgroundState::AwaitKey { photo, picture, image_base64 }, CacheEvent::KeyMade(key)) => {
            let changes = background_update(key);
            (BackgroundState::AwaitUpdate { picture, image_base64 }, CacheAction::Update { photo, changes })
        },
        (BackgroundState::AwaitUpdate { picture, image_base64 }, CacheEvent::Updated(photo)) => {
            let key = photo.colorize_key.clone();
            (
                BackgroundState::AwaitCache {
                    response: IdPhotoResponse { image_id: photo.id, image_base64 },
                },
                CacheAction::Cache { key, data: picture, seconds: 600 },
            )
        },
        (BackgroundState::AwaitCache { response }, CacheEvent::Cached) => {
            (BackgroundState::Finished, CacheAction::Respond(response))
        },
        (s, _) => (s, CacheAction::Fail(Error::InternalServerError)),
    }
}

// ---------------------------------------------------------------------
// Uploading a photo
// ---------------------------------------------------------------------

/// A file received in an upload request: the name the client gave it, if
/// any, and its bytes.
pub struct ReceivedUpload {
    pub name: Option<String>,
    pub data: Vec<u8>,
}

/// Where an upload stands.
pub enum UploadState {
    /// Waiting for the photo record to be created.
    AwaitCreate { data: Vec<u8> },
    /// Waiting for the bytes to be cached.
    AwaitCache { photo_id: String },
    /// Answered, or finished without answer.
    Finished,
}

/// The first step of an upload: a request without file finishes without
/// answer; otherwise the photo record of the file is created for the
/// user (see `uploaded_photo`).
pub fn upload_start(user_id: String, file: Option<ReceivedUpload>) -> (r: (UploadState, CacheAction))
    ensures
        file is None ==> (r.0 is Finished && r.1 is Done),
        file matches Some(f) ==> (r.0 == UploadState::AwaitCreate { data: f.data } && (r.1 matches CacheAction::CreatePhoto(
            dto,
        ) && dto.user_id == user_id && dto.file_name@ == (match f.name {
            Some(n) => n@,
            None => "img.jpg"@,
        }) && dto.name@ == Seq::<char>::empty() && dto.file_path@ == Seq::<char>::empty()
            && dto.processing_key@ == Seq::<char>::empty() && dto.width == 0 && dto.height == 0)),
{
    match file {
        None => (UploadState::Finished, CacheAction::Done),
        Some(f) => {
            let dto = match &f.name {
                Some(n) => uploaded_photo(user_id, Some(n.as_str())),
                None => uploaded_photo(user_id, None),
            };
            (UploadState::AwaitCreate { data: f.data }, CacheAction::CreatePhoto(dto))
        },
    }
}

/// Whether `event` can follow in `state`.
pub open spec fn upload_event_fits(state: UploadState, event: CacheEvent) -> bool {
    match (state, event) {
        (UploadState::AwaitCreate { .. }, CacheEvent::Created(_)) => true,
        (UploadState::AwaitCache { .. }, CacheEvent::Cached) => true,
        _ => false,
    }
}

/// One step of an upload: the file's bytes are cached under the new
/// photo's id for ten minutes; the answer is that id.
pub fn upload_step(state: UploadState, event: CacheEvent) -> (r: (UploadState, CacheAction))
    requires
        upload_event_fits(state, event),
    ensures
        state is AwaitCreate ==> (event matches CacheEvent::Created(photo) ==> (r.0
            == UploadState::AwaitCache { photo_id: photo.id } && r.1 == CacheAction::Cache {
            key: photo.id,
            data: state->AwaitCreate_data,
            seconds: cache_seconds(),
        })),
        state is AwaitCache ==> (event is Cached ==> (r.0 is Finished && r.1
            == CacheAction::RespondText(state->AwaitCache_photo_id))),
{
    match (state, event) {
        (UploadState::AwaitCreate { data }, CacheEvent::Created(photo)) => {
            let key = photo.id.clone();
            (UploadState::AwaitCache { photo_id: photo.id }, CacheAction::Cache { key, data, seconds: 600 })
        },
        (UploadState::AwaitCache { photo_id }, CacheEvent::Cached) => {
            (UploadState::Finished, CacheAction::RespondText(photo_id))
        },
        (s, _) => (s, CacheAction::Fail(Error::InternalServerError)),
    }
}

// ---------------------------------------------------------------------
// Downloading a photo with its new background
// ---------------------------------------------------------------------

/// Where a download stands.
pub enum DownloadState {
    /// Waiting for the photo record.
    AwaitPhoto,
    /// Waiting for the cached picture of the photo.
    AwaitPicture { photo: PhotoRecord },
    /// Waiting for the picture to be stored.
    AwaitStore { photo: PhotoRecord },
    /// Waiting for the photo record to be updated; the stored key.
    AwaitUpdate { key: String },
    /// Answered.
    Finished,
}

/// Whether `event` can follow in `state`.
pub open spec fn download_event_fits(state: DownloadState, event: CacheEvent) -> bool {
    match (state, event) {
        (DownloadState::AwaitPhoto, CacheEvent::PhotoFound(_)) => true,
        (DownloadState::AwaitPicture { .. }, CacheEvent::ImageLoaded(_)) => true,
        (DownloadState::AwaitStore { .. }, CacheEvent::Stored(_)) => true,
        (DownloadState::AwaitUpdate { .. }, CacheEvent::Updated(_)) => true,
        _ => false,
    }
}

/// The first step of a download: read the photo record.
pub fn download_start(image_id: String) -> (r: (DownloadState, CacheAction))
    ensures
        r.0 is AwaitPhoto,
        r.1 == CacheAction::FindPhoto(image_id),
{
    (DownloadState::AwaitPhoto, CacheAction::FindPhoto(image_id))
}

/// One step of a download: the picture cached under the photo's
/// processing key is stored under the photo's file name, with the
/// content type guessed from that name; the photo takes the stored path;
/// the answer is the public URL of the stored picture.
pub fn download_step(s3: &S3, state: DownloadState, event: CacheEvent) -> (r: (
    DownloadState,
    CacheAction,
))
    requires
        download_event_fits(state, event),
    ensures
        state is AwaitPhoto ==> (event matches CacheEvent::PhotoFound(None) ==> (r.0 is Finished
            && (r.1 matches CacheAction::Fail(e) && e is NotFound))),
        state is AwaitPhoto ==> (event matches CacheEvent::PhotoFound(Some(photo)) ==> (r.0
            == DownloadState::AwaitPicture { photo } && r.1 == CacheAction::LoadImage(
            photo.colorize_key,
        ))),
        state is AwaitPicture ==> (event matches CacheEvent::ImageLoaded(data) ==> (r.0
            == DownloadState::AwaitStore { photo: state->AwaitPicture_photo } && (r.1 matches CacheAction::Store {
            key,
            content_type,
            data: d,
        } && key == state->AwaitPicture_photo.file_name && content_type@ == guessed_content_type(
            state->AwaitPicture_photo.file_name@,
        ) && d == data))),
        state is AwaitStore ==> (event matches CacheEvent::Stored(key) ==> (r.0
            == DownloadState::AwaitUpdate { key } && (r.1 matches CacheAction::Update {
            photo,
            changes,
        } && photo == state->AwaitStore_photo && changes.file_path == Some(key)
            && changes.name is None && changes.colorize_key is None && changes.width is None
            && changes.height is None))),
        state is AwaitUpdate ==> (event is Updated ==> (r.0 is Finished && (r.1 matches CacheAction::RespondText(
            url,
        ) && url@ == file_url_of(s3.bucket@, s3.endpoint@, state->AwaitUpdate_key@)))),
{
    match (state, event) {
        (DownloadState::AwaitPhoto, CacheEvent::PhotoFound(None)) => {
            (DownloadState::Finished, CacheAction::Fail(Error::NotFound))
        },
        (DownloadState::AwaitPhoto, CacheEvent::PhotoFound(Some(photo))) => {
            let key = photo.colorize_key.clone();
            (DownloadState::AwaitPicture { photo }, CacheAction::LoadImage(key))
        },
        (DownloadState::AwaitPicture { photo }, CacheEvent::ImageLoaded(data)) => {
            let key = photo.file_name.clone();
            let content_type = upload_content_type(photo.file_name.as_str());
            (DownloadState::AwaitStore { photo }, CacheAction::Store { key, content_type, data })
        },
        (DownloadState::AwaitStore { photo }, CacheEvent::Stored(key)) => {
            let changes = download_update(key.clone());
            (DownloadState::AwaitUpdate { key }, CacheAction::Update { photo, changes })
        },
        (DownloadState::AwaitUpdate { key }, CacheEvent::Updated(_)) => {
            (DownloadState::Finished, CacheAction::RespondText(file_url(s3, key.as_str())))
        },
        (s, _) => (s, CacheAction::Fail(Error::InternalServerError)),
    }
}

} // verus!
