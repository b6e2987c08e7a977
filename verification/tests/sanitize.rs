use upload_server::sanitize_filename::{is_byte_valid_char, sanitize_filename};

#[test]
fn test_valid() {
    assert_eq!(sanitize_filename("test123_2.txt"), "test123_2.txt".to_string())
}

#[test]
fn test_no_good_symbols() {
    assert_eq!(sanitize_filename("🐧ы Ķ"), "_".to_string())
}

#[test]
fn test_mix_valid_and_invalid() {
    assert_eq!(sanitize_filename("hello🐧ыblah Ķ.txt"), "hello_blah_.txt".to_string())
}

#[test]
fn empty_name_stays_empty() {
    assert_eq!(sanitize_filename(""), "");
}

#[test]
fn run_of_invalid_bytes_becomes_one_underscore() {
    assert_eq!(sanitize_filename("a🐧🐧b"), "a_b");
    assert_eq!(sanitize_filename("a   b"), "a_b");
    assert_eq!(sanitize_filename("a b c"), "a_b_c");
    assert_eq!(sanitize_filename("///"), "_");
}

#[test]
fn dots_pass_through() {
    assert_eq!(sanitize_filename(".."), "..");
    assert_eq!(sanitize_filename("../../etc/passwd"), ".._.._etc_passwd");
    assert_eq!(sanitize_filename("a\\b"), "a_b");
}

#[test]
fn result_is_clean_and_no_longer() {
    let inputs = ["my report.pdf", "🐧", "-+=", "x", "_", "Ab0.z_", " lead", "trail ", "é"];
    for input in inputs {
        let out = sanitize_filename(input);
        assert!(out.len() <= input.len());
        assert!(out.bytes().all(is_byte_valid_char));
        assert_eq!(sanitize_filename(&out), out);
    }
}

#[test]
fn valid_bytes_are_letters_digits_dot_underscore() {
    for c in 0u8..=255 {
        let expected = c.is_ascii_alphanumeric() || c == b'.' || c == b'_';
        assert_eq!(is_byte_valid_char(c), expected);
    }
}
