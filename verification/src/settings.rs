//! The settings of the service and their defaults. Reading them from
//! configuration files and the environment is done by the application.

use vstd::prelude::*;

verus! {

/// The database to connect to.
#[derive(Clone, Debug)]
pub struct Database {
    pub dsn: String,
}

/// The Redis server to connect to.
#[derive(Clone, Debug)]
pub struct Redis {
    pub dsn: String,
}

/// Authentication settings.
#[derive(Clone, Debug)]
pub struct Auth {
    pub jwt_secret: String,
}

/// General application settings.
#[derive(Clone, Debug)]
pub struct App {
    pub debug: bool,
    pub host: String,
}

/// The S3 bucket that files are uploaded to.
#[derive(Clone, Debug)]
pub struct S3 {
    pub region: String,
    pub access_key_id: String,
    pub secret_access_key: String,
    pub endpoint: String,
    pub bucket: String,
}

/// The image services and models used for id photos.
#[derive(Clone, Debug)]
pub struct IdPhotoSetting {
    pub safety_uri: String,
    pub zjz_uri: String,
    pub matting_uri: String,
    pub colorize_uri: String,
    pub cartoon_uri: String,
    pub human_matting_model: String,
    pub face_detect_model: String,
    pub matting_model: String,
}

/// All settings of the service.
#[derive(Clone, Debug)]
pub struct Settings {
    pub app: App,
    pub database: Database,
    pub redis: Redis,
    pub auth: Auth,
    pub s3: S3,
    pub id_photo_setting: IdPhotoSetting,
}

pub open spec fn is_default_database(d: Database) -> bool {
    d.dsn@ == "sqlite://data.sqlite?mode=rwc"@
}

pub open spec fn is_default_redis(r: Redis) -> bool {
    r.dsn@ == "redis://default@127.0.0.1:6379/"@
}

pub open spec fn is_default_auth(a: Auth) -> bool {
    a.jwt_secret@ == "abcdefghijklmnopqrst"@
}

pub open spec fn is_default_app(a: App) -> bool {
    !a.debug && a.host@ == "http://127.0.0.1:5800"@
}

pub open spec fn is_default_s3(s: S3) -> bool {
    &&& s.region@ == Seq::<char>::empty()
    &&& s.access_key_id@ == Seq::<char>::empty()
    &&& s.secret_access_key@ == Seq::<char>::empty()
    &&& s.endpoint@ == "http://127.0.0.1:9000"@
    &&& s.bucket@ == "suzhaobao"@
}

pub open spec fn is_default_id_photo_setting(s: IdPhotoSetting) -> bool {
    &&& s.safety_uri@ == Seq::<char>::empty()
    &&& s.zjz_uri@ == Seq::<char>::empty()
    &&& s.matting_uri@ == Seq::<char>::empty()
    &&& s.colorize_uri@ == Seq::<char>::empty()
    &&& s.cartoon_uri@ == Seq::<char>::empty()
    &&& s.human_matting_model@ == Seq::<char>::empty()
    &&& s.face_detect_model@ == Seq::<char>::empty()
    &&& s.matting_model@ == Seq::<char>::empty()
}

impl Default for Database {
    fn default() -> (d: Self)
        ensures
            is_default_database(d),
    {
        Database { dsn: String::from_str("sqlite://data.sqlite?mode=rwc") }
    }
}

impl Default for Redis {
    fn default() -> (r: Self)
        ensures
            is_default_redis(r),
    {
        Redis { dsn: String::from_str("redis://default@127.0.0.1:6379/") }
    }
}

impl Default for Auth {
    fn default() -> (a: Self)
        ensures
            is_default_auth(a),
    {
        Auth { jwt_secret: String::from_str("abcdefghijklmnopqrst") }
    }
}

impl Default for App {
    fn default() -> (a: Self)
        ensures
            is_default_app(a),
    {
        App { debug: false, host: String::from_str("http://127.0.0.1:5800") }
    }
}

impl Default for S3 {
    fn default() -> (s: Self)
        ensures
            is_default_s3(s),
    {
        S3 {
            region: String::new(),
            access_key_id: String::new(),
            secret_access_key: String::new(),
            endpoint: String::from_str("http://127.0.0.1:9000"),
            bucket: String::from_str("suzhaobao"),
        }
    }
}

impl Default for IdPhotoSetting {
    fn default() -> (s: Self)
        ensures
            is_default_id_photo_setting(s),
    {
        IdPhotoSetting {
            safety_uri: String::new(),
            zjz_uri: String::new(),
            matting_uri: String::new(),
            colorize_uri: String::new(),
            cartoon_uri: String::new(),
            human_matting_model: String::new(),
            face_detect_model: String::new(),
            matting_model: String::new(),
        }
    }
}

impl Default for Settings {
    fn default() -> (s: Self)
        ensures
            is_default_app(s.app),
            is_default_database(s.database),
            is_default_redis(s.redis),
            is_default_auth(s.auth),
            is_default_s3(s.s3),
            is_default_id_photo_setting(s.id_photo_setting),
    {
        Settings {
            app: App::default(),
            database: Database::default(),
            redis: Redis::default(),
            auth: Auth::default(),
            s3: S3::default(),
            id_photo_setting: IdPhotoSetting::default(),
        }
    }
}

} // verus!
