//! Outside types that the library carries without looking inside.

use argon2::password_hash::Error as PasswordHashError;
use jsonwebtoken::errors::Error as TokenError;
use serde_json::Error as JsonError;
use vstd::prelude::*;

verus! {

/// The error of `argon2`'s password hashing, carried as it is.
#[verifier::external_type_specification]
#[verifier::external_body]
pub struct ExPasswordHashError(PasswordHashError);

/// The error of `serde_json`, carried as it is.
#[verifier::external_type_specification]
#[verifier::external_body]
pub struct ExJsonError(JsonError);

/// An input/output error of std, carried as it is.
#[verifier::external_type_specification]
#[verifier::external_body]
pub struct ExIoError(std::io::Error);

/// The error of `url`'s parser, carried as it is.
#[verifier::external_type_specification]
#[verifier::external_body]
pub struct ExUrlParseError(url::ParseError);

/// The error of `jsonwebtoken`, carried as it is.
#[verifier::external_type_specification]
#[verifier::external_body]
pub struct ExTokenError(TokenError);

} // verus!
