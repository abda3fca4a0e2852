use argon2::password_hash::{PasswordHasher, SaltString};
use rustion::common::gen_password;
use rustion::models::user::User;
use rustion::password::{
    new_password_acceptable, validate_all, HasDigitValidator, HasLowercaseValidator,
    HasSpecialCharValidator, HasUppercaseValidator, MinLengthValidator, OldPasswordValidator,
    Validation,
};

fn argon2_hash(password: &str) -> String {
    let salt = SaltString::from_b64("c29tZXNhbHRzb21lc2FsdA").unwrap();
    argon2::Argon2::default().hash_password(password.as_bytes(), &salt).unwrap().to_string()
}

#[test]
fn ok_passwords() {
    assert!(validate_all("Abcdef1!"));
    assert!(validate_all("Str0ng&P@ssw0rd"));
}

#[test]
fn bad_passwords() {
    assert!(!validate_all("short1!")); // too short
    assert!(!validate_all("C5e5xNA0")); // no punctuation
    assert!(!validate_all("LongEnough")); // no digit, no special
    assert!(!validate_all("longenough1")); // no upper, no special
    assert!(!validate_all("LONGENOUGH1!")); // no lower
}

#[test]
fn individual_validators() {
    let min_len = MinLengthValidator(8);
    let digit = HasDigitValidator;
    let upper = HasUppercaseValidator;
    let lower = HasLowercaseValidator;
    let special = HasSpecialCharValidator;

    // Test min length validator
    assert!(min_len.accepts("12345678"));
    assert!(!min_len.accepts("1234567"));

    // Test digit validator
    assert!(matches!(digit.validate("a1b"), Validation::Valid));
    assert!(matches!(digit.validate("abc"), Validation::Invalid(_)));

    // Test uppercase validator
    assert!(matches!(upper.validate("Abc"), Validation::Valid));
    assert!(matches!(upper.validate("abc"), Validation::Invalid(_)));

    // Test lowercase validator
    assert!(matches!(lower.validate("ABC"), Validation::Invalid(_)));
    assert!(matches!(lower.validate("AbC"), Validation::Valid));

    // Test special character validator
    assert!(matches!(special.validate("abc!"), Validation::Valid));
    assert!(matches!(special.validate("abc"), Validation::Invalid(_)));
}

#[test]
fn validator_messages() {
    assert_eq!(
        HasDigitValidator.validate("abc"),
        Validation::Invalid("At least one digit (0-9) is required".to_string())
    );
    assert_eq!(
        HasSpecialCharValidator.validate("abc"),
        Validation::Invalid("At least one special character (e.g., !@#$%^&*) is required".to_string())
    );
    // Grapheme clusters count once: "e" with a combining accent is one character.
    assert!(!MinLengthValidator(8).accepts("e\u{301}e\u{301}e\u{301}e\u{301}"));
    assert!(MinLengthValidator(4).accepts("e\u{301}e\u{301}e\u{301}e\u{301}"));
}

#[test]
fn new_password_must_differ() {
    let user = User::new("admin".to_string()).with_password_hash(Some(argon2_hash("Old-Pass1")));
    let check = OldPasswordValidator(user);
    assert_eq!(
        check.validate("Old-Pass1"),
        Validation::Invalid("The new password cannot be the same as the original password".to_string())
    );
    assert_eq!(check.validate("New-Pass2"), Validation::Valid);
    assert!(!new_password_acceptable(&check.0, "Old-Pass1"));
    assert!(new_password_acceptable(&check.0, "New-Pass2"));
    assert!(!new_password_acceptable(&check.0, "weak"));
}

#[test]
fn generated_passwords_meet_the_rules() {
    for len in [4usize, 8, 12, 32] {
        let p = gen_password(len);
        assert_eq!(p.chars().count(), len);
        assert!(HasDigitValidator.validate(&p).is_valid());
        assert!(HasUppercaseValidator.validate(&p).is_valid());
        assert!(HasLowercaseValidator.validate(&p).is_valid());
        assert!(HasSpecialCharValidator.validate(&p).is_valid());
        if len >= 8 {
            assert!(validate_all(&p));
        }
        assert!(p.chars().all(|c| c.is_ascii_alphanumeric() || "!@#$%^&*-_+=<>?".contains(c)));
    }
    // Fewer than four characters are not possible: one of each class is always there.
    assert_eq!(gen_password(0).chars().count(), 4);
}
