use gravatar_api::validation::{check_size, validate_query, ValidationErrors, MAX_SIZE, MIN_SIZE};

#[test]
fn plain_addresses_pass() {
    for email in ["test@example.com", "Test@Example.com", "a@b.c", "first.last+tag@sub.example.org"] {
        assert_eq!(validate_query(email, None), Ok(()));
    }
}

#[test]
fn text_without_at_sign_fails() {
    assert_eq!(
        validate_query("not-an-email", None),
        Err(ValidationErrors { email: true, size: false })
    );
    assert_eq!(validate_query("", None), Err(ValidationErrors { email: true, size: false }));
}

#[test]
fn malformed_addresses_fail() {
    for email in ["@example.com", "user@", "user@@example.com", "us er@example.com", "user@exa mple.com", "user@-example.com"] {
        assert_eq!(
            validate_query(email, Some(10)),
            Err(ValidationErrors { email: true, size: false })
        );
    }
}

#[test]
fn white_space_around_an_address_fails_validation() {
    for email in ["Test@Example.com ", " test@example.com", "test@example.com\n"] {
        assert_eq!(
            validate_query(email, None),
            Err(ValidationErrors { email: true, size: false })
        );
    }
}

#[test]
fn sizes_at_the_bounds_pass() {
    assert_eq!(MIN_SIZE, 1);
    assert_eq!(MAX_SIZE, 2048);
    assert_eq!(validate_query("test@example.com", Some(1)), Ok(()));
    assert_eq!(validate_query("test@example.com", Some(2048)), Ok(()));
    assert_eq!(validate_query("test@example.com", Some(200)), Ok(()));
}

#[test]
fn sizes_outside_the_bounds_fail() {
    for size in [0, -1, 2049, i16::MIN, i16::MAX] {
        assert_eq!(
            validate_query("test@example.com", Some(size)),
            Err(ValidationErrors { email: false, size: true })
        );
    }
}

#[test]
fn every_size_is_checked_against_the_range() {
    for size in i16::MIN..=i16::MAX {
        let expected = (1..=2048).contains(&size);
        assert_eq!(check_size(Some(size)), expected);
        assert_eq!(validate_query("a@b.c", Some(size)).is_ok(), expected);
    }
    assert!(check_size(None));
}

#[test]
fn both_failures_are_reported() {
    assert_eq!(
        validate_query("nope", Some(4096)),
        Err(ValidationErrors { email: true, size: true })
    );
}

#[test]
fn checks_combine_into_a_result() {
    assert_eq!(ValidationErrors::from_checks(true, true), Ok(()));
    assert_eq!(
        ValidationErrors::from_checks(false, true),
        Err(ValidationErrors { email: true, size: false })
    );
    assert_eq!(
        ValidationErrors::from_checks(true, false),
        Err(ValidationErrors { email: false, size: true })
    );
    assert_eq!(
        ValidationErrors::from_checks(false, false),
        Err(ValidationErrors { email: true, size: true })
    );
}

#[test]
fn failures_are_described_by_field() {
    assert_eq!(
        ValidationErrors { email: true, size: false }.describe(),
        "email: email validate fail..."
    );
    assert_eq!(
        ValidationErrors { email: false, size: true }.describe(),
        "size: maxmum size is 2048"
    );
    assert_eq!(
        ValidationErrors { email: true, size: true }.describe(),
        "email: email validate fail...\nsize: maxmum size is 2048"
    );
    assert_eq!(ValidationErrors { email: false, size: false }.describe(), "");
}
