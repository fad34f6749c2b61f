//! Login tokens: JSON web tokens signed with HMAC-SHA256 whose claims
//! name the user and the time the token expires.

use crate::error::Error;
use jsonwebtoken::errors::Error as TokenError;
use jsonwebtoken::{EncodingKey, Header};
use vstd::prelude::*;
use vstd::string::StrSliceExecFns;
use vstd::string::StringSliceAdditionalSpecFns;

verus! {

/// The token that `jsonwebtoken::encode` makes with the default header
/// (HS256) for the claims `{"username": username, "exp": exp}` and the
/// secret `secret`.
pub uninterp spec fn hs256_token(username: Seq<char>, exp: i64, secret: Seq<u8>) -> Seq<char>;

/// Signs the claims of a login token.
///
/// Trusted: calls `jsonwebtoken::encode(&Header::default(), &claims,
/// &EncodingKey::from_secret(secret))` with the claims written as a JSON
/// object whose fields are `username` then `exp`. The default header
/// names HS256, whose family matches the HMAC key, the header and claims
/// always serialize and HMAC signing does not fail, so the call succeeds;
/// its token is named `hs256_token`.
#[verifier::external_body]
fn jwt_encode(username: &str, exp: i64, secret: &[u8]) -> (r: Result<String, TokenError>)
    ensures
        r is Ok,
        r is Ok ==> r->Ok_0@ == hs256_token(username@, exp, secret@),
{
    let mut claims = serde_json::Map::new();
    claims.insert("username".to_string(), serde_json::Value::from(username));
    claims.insert("exp".to_string(), serde_json::Value::from(exp));
    jsonwebtoken::encode(&Header::default(), &claims, &EncodingKey::from_secret(secret))
}

/// The display of a token error.
///
/// Trusted: calls `ToString::to_string` on a `jsonwebtoken::errors::Error`;
/// nothing is claimed of the text.
#[verifier::external_body]
fn jwt_error_text(e: &TokenError) -> String {
    e.to_string()
}

/// A login token for `username` that expires at `expiration` (seconds
/// since the epoch), signed with `secret`.
pub fn generate_jwt(username: &str, secret: &str, expiration: i64) -> (r: Result<String, Error>)
    ensures
        r is Ok,
        r->Ok_0@ == hs256_token(username@, expiration, secret.spec_bytes()),
{
    match jwt_encode(username, expiration, secret.as_bytes()) {
        Ok(token) => Ok(token),
        Err(e) => Err(Error::JwtError(jwt_error_text(&e))),
    }
}

} // verus!
