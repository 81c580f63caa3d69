use social_graph::auth::{FieldError, LoginRequest, RegisterRequest};
use validator::ValidateEmail;

fn login(email: &str, password: &str) -> LoginRequest {
    LoginRequest { email: String::from(email), password: String::from(password) }
}

fn registration(name: &str, email: &str, username: &str, password: &str) -> RegisterRequest {
    RegisterRequest {
        name: String::from(name),
        email: String::from(email),
        username: String::from(username),
        password: String::from(password),
        image_url: None,
    }
}

#[test]
fn good_login_is_valid() {
    assert_eq!(login("ann@example.com", "secret").validate(), Ok(()));
    assert_eq!(login("a.b+c@sub.example.org", "123456789").validate(), Ok(()));
}

#[test]
fn login_with_a_bad_address_is_refused() {
    for email in ["", "ann", "ann@", "@example.com", "ann example@x.org", "ann@@example.com"] {
        assert_eq!(login(email, "secret").validate(), Err(vec![FieldError::InvalidEmail]), "{email}");
    }
}

#[test]
fn login_with_a_short_password_is_refused() {
    for password in ["", "1", "12345"] {
        assert_eq!(
            login("ann@example.com", password).validate(),
            Err(vec![FieldError::PasswordTooShort])
        );
    }
    assert_eq!(login("ann@example.com", "123456").validate(), Ok(()));
}

#[test]
fn password_length_is_counted_in_characters() {
    assert_eq!(login("ann@example.com", "äöüäöü").validate(), Ok(()));
    assert_eq!(
        login("ann@example.com", "äöüäö").validate(),
        Err(vec![FieldError::PasswordTooShort])
    );
}

#[test]
fn login_errors_come_in_the_order_of_the_fields() {
    assert_eq!(
        login("nobody", "123").validate(),
        Err(vec![FieldError::InvalidEmail, FieldError::PasswordTooShort])
    );
}

#[test]
fn good_registration_is_valid() {
    assert_eq!(registration("Ann", "ann@example.com", "ann", "secret").validate(), Ok(()));
    let mut with_image = registration("A", "a@b.co", "abc", "123456");
    with_image.image_url = Some(String::from("not checked"));
    assert_eq!(with_image.validate(), Ok(()));
}

#[test]
fn registration_is_refused_field_by_field() {
    assert_eq!(
        registration("", "ann@example.com", "ann", "secret").validate(),
        Err(vec![FieldError::NameRequired])
    );
    assert_eq!(
        registration("Ann", "ann.example.com", "ann", "secret").validate(),
        Err(vec![FieldError::InvalidEmail])
    );
    assert_eq!(
        registration("Ann", "ann@example.com", "an", "secret").validate(),
        Err(vec![FieldError::UsernameTooShort])
    );
    assert_eq!(
        registration("Ann", "ann@example.com", "ann", "secre").validate(),
        Err(vec![FieldError::PasswordTooShort])
    );
}

#[test]
fn registration_errors_come_in_the_order_of_the_fields() {
    assert_eq!(
        registration("", "", "", "").validate(),
        Err(vec![
            FieldError::NameRequired,
            FieldError::InvalidEmail,
            FieldError::UsernameTooShort,
            FieldError::PasswordTooShort,
        ])
    );
    assert_eq!(
        registration("Ann", "x", "ann", "").validate(),
        Err(vec![FieldError::InvalidEmail, FieldError::PasswordTooShort])
    );
}

#[test]
fn errors_name_their_field_and_message() {
    let all = [
        (FieldError::InvalidEmail, "email", "Invalid email format"),
        (FieldError::PasswordTooShort, "password", "Password must be at least 6 characters"),
        (FieldError::NameRequired, "name", "Name is required"),
        (FieldError::UsernameTooShort, "username", "Username must be at least 3 characters"),
    ];
    for (error, field, message) in all {
        assert_eq!(error.field(), field);
        assert_eq!(error.message(), message);
    }
}

#[test]
fn addresses_are_judged_as_the_validation_library_does() {
    let addresses = [
        "ann@example.com",
        "ann@localhost",
        "ann@[127.0.0.1]",
        "ann@example",
        "a@b",
        "ann@exa mple.com",
        "ann@-example.com",
        "señor@example.com",
        "ann@bücher.example",
        "",
        "@",
        "ann",
    ];
    for address in addresses {
        let valid = login(address, "secret").validate().is_ok();
        assert_eq!(valid, address.validate_email(), "{address}");
    }
    assert!(login("ann@bücher.example", "secret").validate().is_ok());
    assert!(login("ann@-example.com", "secret").validate().is_err());
}
