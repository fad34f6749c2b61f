use vegar::validation::{FieldError, Validator};

fn v(name: &str, email: &str) -> Validator {
    Validator { name: name.to_string(), email: email.to_string() }
}

#[test]
fn valid_user_passes() {
    assert!(v("Bob", "bob@example.com").validate().is_ok());
    assert!(v("陌生", "x@vegar.cn").validate().is_ok());
}

#[test]
fn short_name_fails() {
    let errors = v("B", "bob@example.com").validate().unwrap_err();
    assert_eq!(
        errors,
        vec![FieldError {
            field: "name",
            code: "length",
            message: Some("Name must be at least 2 characters long."),
        }]
    );
}

#[test]
fn bad_email_fails() {
    let errors = v("Bob", "not-an-email").validate().unwrap_err();
    assert_eq!(errors, vec![FieldError { field: "email", code: "email", message: None }]);
}

#[test]
fn both_fail_in_field_order() {
    let errors = v("", "").validate().unwrap_err();
    assert_eq!(errors.len(), 2);
    assert_eq!(errors[0].field, "name");
    assert_eq!(errors[1].field, "email");
}
