use tempdir::{resolve_chain, resolve_unix, resolve_windows};

#[test]
fn test_resolve_unix_empty_tmpdir_gives_default() {
    let r = resolve_unix(Some(String::new()), false);
    assert_eq!(r, "/tmp");
}

#[test]
fn test_resolve_unix_empty_tmpdir_mobile_default() {
    let r = resolve_unix(Some(String::new()), true);
    assert_eq!(r, "/data/local/tmp");
}

#[test]
fn test_resolve_unix_absent_tmpdir_gives_default() {
    let r = resolve_unix(None, false);
    assert_eq!(r, "/tmp");
}

#[test]
fn test_resolve_unix_set_tmpdir_wins() {
    let r = resolve_unix(Some(String::from("/var/tmp")), false);
    assert_eq!(r, "/var/tmp");
}

#[test]
fn test_resolve_windows_first_set_wins() {
    let r = resolve_windows(
        Some(String::from("C:\\t1")),
        Some(String::from("C:\\t2")),
        None,
        None,
    );
    assert_eq!(r, "C:\\t1");
}

#[test]
fn test_resolve_windows_empty_falls_through() {
    let r = resolve_windows(
        Some(String::new()),
        Some(String::new()),
        Some(String::from("C:\\Users\\me")),
        None,
    );
    assert_eq!(r, "C:\\Users\\me");
}

#[test]
fn test_resolve_windows_hardcoded_terminal_default() {
    let r = resolve_windows(Some(String::new()), None, None, Some(String::new()));
    assert_eq!(r, "C:\\Windows");
}

#[test]
fn test_resolve_chain_first_nonempty_wins() {
    let vars = vec![
        None,
        Some(String::new()),
        Some(String::from("first")),
        Some(String::from("second")),
    ];
    let r = resolve_chain(&vars, String::from("default"));
    assert_eq!(r, "first");
}

#[test]
fn test_resolve_chain_empty_list_gives_default() {
    let vars: Vec<Option<String>> = Vec::new();
    let r = resolve_chain(&vars, String::from("default"));
    assert_eq!(r, "default");
}
