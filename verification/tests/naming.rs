use upload_server::naming::{mangle_filename, FileType, UploadType};
use upload_server::timestamp::Timestamp;

fn moment() -> Timestamp {
    Timestamp::new(2024, 1, 2, 3, 4, 5, 678901).unwrap()
}

#[test]
fn timestamp_text_is_padded_to_the_microsecond() {
    assert_eq!(moment().to_string(), "2024-01-02--03:04:05.678901");
    let early = Timestamp::new(7, 12, 31, 23, 59, 59, 0).unwrap();
    assert_eq!(early.to_string(), "0007-12-31--23:59:59.000000");
    let late = Timestamp::new(9999, 12, 31, 0, 0, 0, 999_999).unwrap();
    assert_eq!(late.to_string(), "9999-12-31--00:00:00.999999");
    let zero = Timestamp::new(0, 1, 1, 0, 0, 0, 1).unwrap();
    assert_eq!(zero.to_string(), "0000-01-01--00:00:00.000001");
}

#[test]
fn timestamp_refuses_what_is_no_moment() {
    assert!(Timestamp::new(2023, 2, 29, 0, 0, 0, 0).is_none());
    assert!(Timestamp::new(2024, 2, 29, 0, 0, 0, 0).is_some());
    assert!(Timestamp::new(1900, 2, 29, 0, 0, 0, 0).is_none());
    assert!(Timestamp::new(2000, 2, 29, 0, 0, 0, 0).is_some());
    assert!(Timestamp::new(2024, 4, 31, 0, 0, 0, 0).is_none());
    assert!(Timestamp::new(2024, 0, 1, 0, 0, 0, 0).is_none());
    assert!(Timestamp::new(2024, 13, 1, 0, 0, 0, 0).is_none());
    assert!(Timestamp::new(2024, 1, 0, 0, 0, 0, 0).is_none());
    assert!(Timestamp::new(2024, 1, 1, 24, 0, 0, 0).is_none());
    assert!(Timestamp::new(2024, 1, 1, 0, 60, 0, 0).is_none());
    assert!(Timestamp::new(2024, 1, 1, 0, 0, 60, 0).is_none());
    assert!(Timestamp::new(2024, 1, 1, 0, 0, 0, 1_000_000).is_none());
    assert!(Timestamp::new(-1, 1, 1, 0, 0, 0, 0).is_none());
    assert!(Timestamp::new(10_000, 1, 1, 0, 0, 0, 0).is_none());
}

#[test]
fn the_clock_gives_a_text_of_fixed_shape() {
    let text = Timestamp::now().expect("the clock shows a valid time").to_string();
    assert_eq!(text.len(), 27);
    for (at, c) in text.chars().enumerate() {
        match at {
            4 | 7 | 10 | 11 => assert_eq!(c, '-'),
            14 | 17 => assert_eq!(c, ':'),
            20 => assert_eq!(c, '.'),
            _ => assert!(c.is_ascii_digit()),
        }
    }
}

#[test]
fn kinds_and_roles_have_their_tags() {
    assert_eq!(UploadType::Text.name(), "text");
    assert_eq!(UploadType::File.name(), "file");
    assert_eq!(UploadType::Text.to_string(), "text");
    assert_eq!(UploadType::Text.as_file_suffix(), "text.txt");
    assert_eq!(UploadType::File.as_file_suffix(), "file.bin");
    assert_eq!(FileType::Payload.to_string(), "payload");
    assert_eq!(FileType::Metadata.to_string(), "metadata");
}

#[test]
fn mangled_names_follow_the_scheme() {
    assert_eq!(
        mangle_filename(moment(), UploadType::Text, FileType::Payload, None),
        "2024-01-02--03:04:05.678901--text.txt--payload"
    );
    assert_eq!(
        mangle_filename(moment(), UploadType::File, FileType::Metadata, Some("upload")),
        "2024-01-02--03:04:05.678901--upload--file.bin--metadata"
    );
    assert_eq!(
        mangle_filename(moment(), UploadType::File, FileType::Payload, Some("my_report.pdf")),
        "2024-01-02--03:04:05.678901--my_report.pdf--file.bin--payload"
    );
}

#[test]
fn mangled_names_show_kind_and_role_and_tell_names_apart() {
    let kinds = [UploadType::Text, UploadType::File];
    let roles = [FileType::Payload, FileType::Metadata];
    let names = [None, Some(""), Some("a"), Some("b"), Some("a--file.bin"), Some("text.txt--payload")];
    let mut seen: Vec<String> = Vec::new();
    for kind in kinds {
        for role in roles {
            for name in names {
                let out = mangle_filename(moment(), kind, role, name);
                assert!(!out.is_empty());
                assert!(out.contains(kind.as_file_suffix()));
                assert!(out.contains(&role.to_string()));
                assert!(out.ends_with(&format!("{}--{}", kind.as_file_suffix(), role.to_string())));
                assert!(!seen.contains(&out));
                seen.push(out);
            }
        }
    }
    assert_eq!(seen.len(), 24);
}

#[test]
fn names_sort_by_time_and_never_collide() {
    let moments = [
        Timestamp::new(1999, 12, 31, 23, 59, 59, 999_999).unwrap(),
        Timestamp::new(2000, 1, 1, 0, 0, 0, 0).unwrap(),
        Timestamp::new(2000, 1, 1, 0, 0, 0, 1).unwrap(),
        Timestamp::new(2000, 1, 1, 0, 0, 1, 0).unwrap(),
        Timestamp::new(2000, 1, 1, 0, 1, 0, 0).unwrap(),
        Timestamp::new(2000, 1, 1, 1, 0, 0, 0).unwrap(),
        Timestamp::new(2000, 1, 2, 0, 0, 0, 0).unwrap(),
        Timestamp::new(2000, 2, 1, 0, 0, 0, 0).unwrap(),
        Timestamp::new(2000, 10, 1, 0, 0, 0, 0).unwrap(),
        Timestamp::new(2001, 1, 1, 0, 0, 0, 0).unwrap(),
        Timestamp::new(9999, 1, 1, 0, 0, 0, 0).unwrap(),
    ];
    for pair in moments.windows(2) {
        assert!(pair[0].to_string() < pair[1].to_string());
        let earlier = mangle_filename(pair[0], UploadType::Text, FileType::Payload, Some("zzz"));
        let later = mangle_filename(pair[1], UploadType::File, FileType::Metadata, None);
        assert!(earlier < later);
    }
}
