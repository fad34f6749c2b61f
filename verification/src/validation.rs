//! The checks a user record must pass before it is saved: a name of at
//! least two characters and a valid email address.

use validator::ValidateEmail;
use vstd::prelude::*;
use vstd::string::StrSliceExecFns;

verus! {

/// Whether `email` is a valid address by the rules of the `validator`
/// crate (the HTML5 definition, with length limits and international
/// domain names).
pub uninterp spec fn valid_email(email: Seq<char>) -> bool;

/// Checks an email address.
///
/// Trusted: calls `ValidateEmail::validate_email` of the `validator`
/// crate on the text; the answer is named `valid_email`.
#[verifier::external_body]
fn email_is_valid(email: &str) -> (ok: bool)
    ensures
        ok == valid_email(email@),
{
    email.validate_email()
}

/// The fields of a user that are validated.
#[derive(Debug)]
pub struct Validator {
    pub name: String,
    pub email: String,
}

/// A failed check: the field, the rule it broke, and the message given
/// with the rule.
#[derive(Clone, Copy, Debug, PartialEq, Eq)]
pub struct FieldError {
    pub field: &'static str,
    pub code: &'static str,
    pub message: Option<&'static str>,
}

/// The failure of the name rule.
pub open spec fn name_error_view() -> (Seq<char>, Seq<char>, Option<Seq<char>>) {
    ("name"@, "length"@, Some("Name must be at least 2 characters long."@))
}

/// The failure of the email rule.
pub open spec fn email_error_view() -> (Seq<char>, Seq<char>, Option<Seq<char>>) {
    ("email"@, "email"@, None)
}

pub open spec fn field_error_view(e: FieldError) -> (Seq<char>, Seq<char>, Option<Seq<char>>) {
    (
        e.field@,
        e.code@,
        match e.message {
            Some(m) => Some(m@),
            None => None,
        },
    )
}

/// The failures of `v`, in field order.
pub open spec fn validation_failures(v: Validator) -> Seq<(Seq<char>, Seq<char>, Option<Seq<char>>)> {
    (if v.name@.len() < 2 {
        seq![name_error_view()]
    } else {
        Seq::empty()
    }) + (if !valid_email(v.email@) {
        seq![email_error_view()]
    } else {
        Seq::empty()
    })
}

impl Validator {
    /// Checks both rules: `Ok` when the name has at least two characters
    /// and the email is valid, otherwise the failures in field order.
    pub fn validate(&self) -> (r: Result<(), Vec<FieldError>>)
        ensures
            r is Ok <==> validation_failures(*self).len() == 0,
            r is Err ==> r->Err_0@.map_values(|e: FieldError| field_error_view(e))
                == validation_failures(*self),
    {
        let mut errors: Vec<FieldError> = Vec::new();
        if self.name.as_str().unicode_len() < 2 {
            errors.push(
                FieldError {
                    field: "name",
                    code: "length",
                    message: Some("Name must be at least 2 characters long."),
                },
            );
        }
        if !email_is_valid(self.email.as_str()) {
            errors.push(FieldError { field: "email", code: "email", message: None });
        }
        assert(errors@.map_values(|e: FieldError| field_error_view(e)) =~= validation_failures(
            *self,
        ));
        if errors.len() == 0 {
            Ok(())
        } else {
            Err(errors)
        }
    }
}

} // verus!
