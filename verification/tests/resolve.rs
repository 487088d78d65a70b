use mchdir::error::ToolError;
use mchdir::target::{random_temp_name, resolve_target};
use mchdir::text::{join_path, str_contains, str_ends_with};

fn is_alnum_byte(b: u8) -> bool {
    b.is_ascii_alphanumeric()
}

#[test]
fn join_inserts_separator() {
    assert_eq!(join_path("/tmp", "x"), "/tmp/x");
    assert_eq!(join_path("build", "out"), "build/out");
}

#[test]
fn join_keeps_existing_separator() {
    assert_eq!(join_path("/tmp/", "x"), "/tmp/x");
}

#[test]
fn explicit_path_is_returned_as_given() {
    let r = resolve_target(false, Some("build/out".to_string()), "/tmp");
    assert_eq!(r, Ok("build/out".to_string()));
}

#[test]
fn no_folder_name_is_a_usage_error() {
    let r = resolve_target(false, None, "/tmp");
    assert_eq!(r, Err(ToolError::Usage));
    assert_eq!(
        ToolError::Usage.message(),
        "Error: No folder name provided."
    );
}

#[test]
fn named_temp_target_sits_under_temp_dir() {
    let r = resolve_target(true, Some("scratch".to_string()), "/tmp");
    assert_eq!(r, Ok("/tmp/scratch".to_string()));
}

#[test]
fn random_temp_target_is_tagged_and_alphanumeric() {
    let r = resolve_target(true, None, "/tmp").unwrap();
    assert!(r.starts_with("/tmp/mct-"));
    assert_eq!(r.len(), "/tmp/mct-".len() + 8);
    let suffix = &r["/tmp/mct-".len()..];
    assert!(suffix.bytes().all(is_alnum_byte));
}

#[test]
fn random_names_have_the_declared_shape() {
    let n = random_temp_name();
    assert!(n.starts_with("mct-"));
    assert_eq!(n.len(), 12);
    assert!(n["mct-".len()..].bytes().all(is_alnum_byte));
}

#[test]
fn consecutive_random_names_differ() {
    let a = random_temp_name();
    let b = random_temp_name();
    assert_ne!(a, b);
}

#[test]
fn containment_and_suffix_checks_match_std() {
    assert!(str_contains("hello world", "lo w"));
    assert!(!str_contains("hello world", "low"));
    assert!(str_contains("abc", ""));
    assert!(!str_contains("ab", "abc"));
    assert!(str_ends_with("/bin/sh", "/sh"));
    assert!(!str_ends_with("/bin/bash", "/sh"));
}

#[test]
fn error_messages_carry_path_and_cause() {
    let e = ToolError::DirCreation {
        path: "build/out".to_string(),
        cause: "No such file or directory".to_string(),
    };
    assert_eq!(
        e.message(),
        "Error creating folder 'build/out': No such file or directory"
    );
    let e = ToolError::PathResolution {
        path: "gone".to_string(),
        cause: "No such file or directory".to_string(),
    };
    assert_eq!(
        e.message(),
        "Error obtaining absolute path for 'gone': No such file or directory"
    );
    let e = ToolError::ConfigIo {
        cause: "Permission denied".to_string(),
    };
    assert_eq!(e.message(), "Error during installation: Permission denied");
    assert_eq!(
        ToolError::MissingHome.message(),
        "Could not find home directory"
    );
}
