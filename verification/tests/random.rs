use utilkit::random::{generate_random_string, string_of_codes};

#[test]
fn random_string_has_the_length_asked_for() {
    for len in [0usize, 1, 2, 16, 255, 4096] {
        assert_eq!(generate_random_string(len).chars().count(), len);
        assert_eq!(generate_random_string(len).len(), len);
    }
}

#[test]
fn random_string_of_no_length_is_empty() {
    assert_eq!(generate_random_string(0), "");
}

#[test]
fn random_string_holds_letters_and_digits_only() {
    let s = generate_random_string(10_000);
    assert!(s.chars().all(|c| c.is_ascii_alphanumeric()));
}

#[test]
fn random_strings_differ() {
    assert_ne!(generate_random_string(32), generate_random_string(32));
}

#[test]
fn codes_become_their_characters() {
    assert_eq!(string_of_codes(b"aZ09"), "aZ09");
    assert_eq!(string_of_codes(b""), "");
    assert_eq!(string_of_codes(&[0x41, 0xe9, 0x7f]), "A\u{e9}\u{7f}");
}
