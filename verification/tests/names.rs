use tempdir::{
    candidate_name, generate_suffix, is_relative_path, join_path, resolve_root, Error, ErrorKind,
};

#[test]
fn test_generate_suffix_always_twelve_alphanumeric_chars() {
    for _ in 0..1000 {
        let s = generate_suffix(12);
        assert!(!s.is_empty());
        assert_eq!(s.chars().count(), 12);
        assert!(s.chars().all(|c| c.is_ascii_alphanumeric()));
    }
}

#[test]
fn test_generate_suffix_zero_length() {
    let s = generate_suffix(0);
    assert_eq!(s, "");
}

#[test]
fn test_candidate_name_with_prefix() {
    let name = candidate_name("myprefix", "abc123XYZ456");
    assert_eq!(name, "myprefix.abc123XYZ456");
    assert!(name.contains("myprefix"));
}

#[test]
fn test_candidate_name_empty_prefix_has_no_leading_dot() {
    let name = candidate_name("", "abc123XYZ456");
    assert_eq!(name, "abc123XYZ456");
    assert!(!name.starts_with('.'));
}

#[test]
fn test_join_path_inserts_separator() {
    assert_eq!(join_path("/tmp", "leaf"), "/tmp/leaf");
}

#[test]
fn test_join_path_keeps_existing_separator() {
    assert_eq!(join_path("/tmp/", "leaf"), "/tmp/leaf");
}

#[test]
fn test_is_relative_path_cases() {
    assert!(is_relative_path(""));
    assert!(is_relative_path("scratch"));
    assert!(is_relative_path("a/b"));
    assert!(!is_relative_path("/tmp"));
}

#[test]
fn test_resolve_root_absolute_stands() {
    let r = resolve_root(String::from("/srv/tmp"), None);
    assert_eq!(r.unwrap(), "/srv/tmp");
}

#[test]
fn test_resolve_root_relative_joined_onto_cwd() {
    let r = resolve_root(String::from("scratch"), Some(String::from("/home/me")));
    assert_eq!(r.unwrap(), "/home/me/scratch");
}

#[test]
fn test_resolve_root_relative_without_cwd_fails() {
    let r = resolve_root(String::from("scratch"), None);
    match r {
        Err(e) => {
            assert!(matches!(e, Error::EnvironmentLookupFailed));
            assert_eq!(e.kind(), ErrorKind::EnvironmentLookupFailed);
        }
        Ok(_) => panic!("a relative root needs the working directory"),
    }
}
