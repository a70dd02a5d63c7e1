use std::path::PathBuf;
use swapbytes::files::{name_from_parts, received_file_name};

fn expected(original: &str) -> String {
    let path = PathBuf::from(original);
    format!(
        "received_{}.{}",
        path.file_stem().unwrap_or_default().to_string_lossy(),
        path.extension().unwrap_or_default().to_string_lossy()
    )
}

#[test]
fn a_received_file_gets_a_new_name() {
    for (original, name) in [
        ("test.docx", "received_test.docx"),
        ("archive.tar.gz", "received_archive.tar.gz"),
        ("README", "received_README."),
        (".profile", "received_.profile."),
        (".config.toml", "received_.config.toml"),
        ("notes.", "received_notes."),
        ("..a", "received_..a"),
        ("dir/sub/test.docx", "received_test.docx"),
        ("/etc/hosts", "received_hosts."),
        ("dir/test.docx/", "received_test.docx"),
        ("dir/test.docx/.//./", "received_test.docx"),
        ("../../secret.txt", "received_secret.txt"),
        ("dir/..", "received_."),
        ("..", "received_."),
        (".", "received_."),
        ("./.", "received_."),
        ("/", "received_."),
        ("", "received_."),
        ("10:30.txt", "received_10:30.txt"),
        ("logs/10:30", "received_10:30."),
        ("a/b:c.d:e", "received_b:c.d:e"),
        (":", "received_:."),
        ("a\\b/c.txt", "received_c.txt"),
        ("a\\b/c.txt/.", "received_c.txt"),
        ("a\\b/..", "received_."),
        ("C:/c.txt", "received_c.txt"),
        ("C:dir/c.txt", "received_c.txt"),
        ("C:\\dir/c", "received_c."),
        ("\u{e9}t\u{e9}.txt", "received_\u{e9}t\u{e9}.txt"),
    ] {
        assert_eq!(received_file_name(original), name, "{:?}", original);
        assert_eq!(received_file_name(original), expected(original), "{:?}", original);
    }
}

#[test]
fn a_name_that_is_not_portable_still_has_the_prefix() {
    for original in ["a\\b.txt", "C:\\a.txt", "C:a.txt", "C:/", "//server/share/a.txt", "\\a/b"] {
        assert_eq!(received_file_name(original), expected(original));
        assert!(received_file_name(original).starts_with("received_"));
    }
}

#[test]
fn a_stored_name_has_no_slash() {
    for original in ["a/b/c.d", "/a/b.c/", "a/b.c/.", "../x", "//a/b", "C:a/b\\c"] {
        assert!(!received_file_name(original).contains('/'));
    }
}

#[test]
fn missing_parts_are_empty() {
    assert_eq!(name_from_parts(None, None), "received_.");
    assert_eq!(name_from_parts(Some("a".to_string()), None), "received_a.");
    assert_eq!(
        name_from_parts(Some("a".to_string()), Some("b".to_string())),
        "received_a.b"
    );
}
