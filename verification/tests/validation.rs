use rtwalk::crypto::PasswordValidator;
use rtwalk::errors::AuthError;
use rtwalk::page::{build_page, page_bounds};
use rtwalk::template::EmailVerify;

#[test]
fn weak_passwords_are_refused() {
    let validator = PasswordValidator("alice", "alice@x.com");
    assert!(validator.check(&"password".to_string()).is_err());
    assert!(validator.check(&"alice".to_string()).is_err());
    assert!(validator.check(&"sTrOnGPaSs19@!".to_string()).is_ok());
}

#[test]
fn own_identifiers_weaken_a_password() {
    // strong on its own, worthless next to the username it belongs to
    let candidate = "extraordinary_zebra_42".to_string();
    assert!(PasswordValidator("someone", "someone@x.com").check(&candidate).is_ok());
    assert!(PasswordValidator("extraordinary_zebra_42", "x@x.com").check(&candidate).is_err());
}

#[test]
fn error_tags_and_messages() {
    assert_eq!(AuthError::Unauthenticated.tag(), "UNAUTHENTICATED_REQUEST");
    assert_eq!(AuthError::Unauthorized.tag(), "UNAUTHORIZED_REQUEST");
    assert_eq!(AuthError::UsernameAlreadyExists.tag(), "USERNAME_ALREADY_EXISTS");
    assert_eq!(AuthError::VerificationCodeExpired.tag(), "VERIFICATION_CODE_EXPIRED");
    assert_eq!(AuthError::InvalidVerificationCode.tag(), "INVALID_VERIFICATION_CODE");
    assert_eq!(AuthError::InvalidCredentials.tag(), "INVALID_CREDENTIALS");
    assert_eq!(AuthError::InvalidResetToken.tag(), "INVALID_PASSWORD_RESET_TOKEN");
    assert_eq!(AuthError::BannedAccount.tag(), "BANNED_USER");
    assert_eq!(AuthError::Internal.tag(), "INTERNAL_ERROR");

    assert_eq!(AuthError::UsernameAlreadyExists.message(), "Username already exists");
    assert_eq!(AuthError::Internal.message(), "Internal server error");
}

#[test]
fn page_windows() {
    assert_eq!(page_bounds(1, 20), (0, 20));
    assert_eq!(page_bounds(3, 10), (20, 10));
    assert_eq!(page_bounds(2, 0), (0, 0));
}

#[test]
fn page_selection_rule() {
    let one = vec!["user".to_string()];
    let page = build_page(1, 20, &one).unwrap();
    assert_eq!(page.page_info.page, 1);
    assert_eq!(page.page_info.per_page, 20);
    assert!(!page.page_info.needs_page_info);

    let with_info = vec!["user".to_string(), "pageInfo".to_string()];
    let page = build_page(2, 10, &with_info).unwrap();
    assert!(page.page_info.needs_page_info);

    let two = vec!["user".to_string(), "forum".to_string()];
    assert!(build_page(1, 20, &two).is_none());
}

#[test]
fn verification_mail_template_data() {
    let mail = EmailVerify::new("alice".to_string(), 12345, "DreamH".to_string());
    assert_eq!(mail.username, "alice");
    assert_eq!(mail.code, 12345);
    assert_eq!(mail.site_name, "DreamH");
}
