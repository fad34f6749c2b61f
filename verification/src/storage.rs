//! Naming uploaded files: object keys, their content type and their
//! public URL. Writing to the object store is done by the application.

use crate::error::Error;
use crate::settings::S3;
use crate::text::{concat_str, push_char};
use std::path::Path;
use vstd::prelude::*;
use vstd::string::StrSliceExecFns;

verus! {

/// `path` with every backslash turned into a slash.
pub open spec fn slashes_normalized(path: Seq<char>) -> Seq<char> {
    path.map_values(|c: char| if c == '\\' { '/' } else { c })
}

/// `https://<bucket>.<endpoint>/<path>`
pub open spec fn file_url_of(bucket: Seq<char>, endpoint: Seq<char>, path: Seq<char>) -> Seq<char> {
    "https://"@ + bucket + "."@ + endpoint + "/"@ + path
}

/// The path `name` joined onto `base` by `std::path::Path::join`, as text.
pub uninterp spec fn joined_path(base: Seq<char>, name: Seq<char>) -> Seq<char>;

/// The content type that `mime_guess` gives for a file name: the first
/// type guessed from its extension, or `application/octet-stream`.
pub uninterp spec fn guessed_content_type(file_name: Seq<char>) -> Seq<char>;

/// Joins `name` onto the directory `base`.
///
/// Trusted: calls `Path::new(base).join(name)` of std and writes the
/// result as text; joining two UTF-8 strings gives UTF-8, so `to_str`
/// succeeds. The joined path is named `joined_path`.
#[verifier::external_body]
fn join_path(base: &str, name: &str) -> (p: String)
    ensures
        p@ == joined_path(base@, name@),
{
    Path::new(base).join(name).to_str().unwrap().to_string()
}

/// The content type to store a file under.
///
/// Trusted: calls `mime_guess::from_path(file_name).first_or_octet_stream()`
/// and writes its essence; the result is named `guessed_content_type`.
#[verifier::external_body]
fn guess_content_type(file_name: &str) -> (t: String)
    ensures
        t@ == guessed_content_type(file_name@),
{
    mime_guess::from_path(file_name).first_or_octet_stream().essence_str().to_string()
}

/// `path` with every backslash replaced by a slash, so that object keys
/// use slashes on every platform.
pub fn normalize_slashes(path: &str) -> (r: String)
    ensures
        r@ == slashes_normalized(path@),
{
    let n = path.unicode_len();
    let mut r = String::new();
    let mut i: usize = 0;
    while i < n
        invariant
            n == path@.len(),
            i <= n,
            r@ == slashes_normalized(path@.take(i as int)),
        decreases n - i,
    {
        let c = path.get_char(i);
        if c == '\\' {
            push_char(&mut r, '/');
        } else {
            push_char(&mut r, c);
        }
        assert(slashes_normalized(path@.take(i + 1)) =~= slashes_normalized(path@.take(i as int)).push(
            if c == '\\' { '/' } else { c },
        ));
        i = i + 1;
    }
    assert(path@.take(n as int) =~= path@);
    r
}

/// The object key of an uploaded file: its name (`file` when it has
/// none) joined onto the directory `dest`, with slashes only.
pub fn upload_destination(dest: &str, file_name: Option<&str>) -> (key: String)
    ensures
        key@ == slashes_normalized(
            joined_path(
                dest@,
                match file_name {
                    Some(n) => n@,
                    None => "file"@,
                },
            ),
        ),
{
    let name = match file_name {
        Some(n) => n,
        None => "file",
    };
    let joined = join_path(dest, name);
    normalize_slashes(joined.as_str())
}

/// The content type that an uploaded file is stored with.
pub fn upload_content_type(file_name: &str) -> (t: String)
    ensures
        t@ == guessed_content_type(file_name@),
{
    guess_content_type(file_name)
}

/// A file received in a multipart request: the name the client gave it,
/// if any, and the path of the temporary file that holds its bytes.
pub struct ReceivedFile {
    pub name: Option<String>,
    pub path: String,
}

/// Where an uploaded file is stored and the content type it is stored
/// with.
pub struct UploadPlan {
    pub key: String,
    pub content_type: String,
}

/// The message when a request carries no file to upload.
pub open spec fn no_file_message() -> Seq<char> {
    "no such file or directory"@
}

/// How a received file is stored under the directory `dest`: under its
/// name (`file` when it has none) joined onto `dest`, with slashes only,
/// and with the content type guessed from the temporary file's path. A
/// request without file is refused with "no such file or directory".
pub fn upload_plan(dest: &str, file: Option<&ReceivedFile>) -> (r: Result<UploadPlan, Error>)
    ensures
        r is Err <==> file is None,
        r is Err ==> r->Err_0 is Message && r->Err_0->Message_0@ == no_file_message(),
        file is Some ==> r is Ok && r->Ok_0.key@ == slashes_normalized(
            joined_path(
                dest@,
                match file->0.name {
                    Some(n) => n@,
                    None => "file"@,
                },
            ),
        ) && r->Ok_0.content_type@ == guessed_content_type(file->0.path@),
{
    match file {
        Some(f) => {
            let name = match &f.name {
                Some(n) => Some(n.as_str()),
                None => None,
            };
            let key = upload_destination(dest, name);
            let content_type = upload_content_type(f.path.as_str());
            Ok(UploadPlan { key, content_type })
        },
        None => Err(Error::string("no such file or directory")),
    }
}

/// The public URL of an uploaded object: `https://<bucket>.<endpoint>/<path>`.
pub fn file_url(s3: &S3, path: &str) -> (url: String)
    ensures
        url@ == file_url_of(s3.bucket@, s3.endpoint@, path@),
{
    let url = concat_str("https://", s3.bucket.as_str());
    let url = concat_str(url.as_str(), ".");
    let url = concat_str(url.as_str(), s3.endpoint.as_str());
    let url = concat_str(url.as_str(), "/");
    let url = concat_str(url.as_str(), path);
    url
}

/// Law: a normalized path holds no backslash, so normalizing it again
/// changes nothing.
pub proof fn lemma_normalized_has_no_backslash(path: Seq<char>)
    ensures
        !slashes_normalized(path).contains('\\'),
        slashes_normalized(slashes_normalized(path)) == slashes_normalized(path),
{
    let n = slashes_normalized(path);
    assert(!n.contains('\\')) by {
        if n.contains('\\') {
            let k = choose|k: int| 0 <= k < n.len() && n[k] == '\\';
            assert(n[k] == (if path[k] == '\\' { '/' } else { path[k] }));
        }
    }
    assert(slashes_normalized(n) =~= n);
}

} // verus!
