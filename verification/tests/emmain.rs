use eaglemode::emmain::{hostname_from, server_name, trim, try_ipc_client};

#[test]
fn test_try_ipc_client_stub() {
    assert!(!try_ipc_client("test_server", None));
    assert!(!try_ipc_client("test_server", Some("/home")));
}

#[test]
fn test_calc_server_name() {
    let name = server_name("myhost.example", ":0.0");
    assert!(name.starts_with("eaglemode_on_"));
    // Should contain no colons or dots (they're replaced)
    let suffix = &name["eaglemode_on_".len()..];
    assert!(!suffix.contains(':'));
    assert!(!suffix.contains('.'));
}

#[test]
fn server_name_replaces_in_host_and_display() {
    assert_eq!(server_name("myhost.example", ":0.0"), "eaglemode_on_myhost_example__0_0");
    assert_eq!(server_name("box.lan", ":0"), "eaglemode_on_box_lan__0");
}

#[test]
fn test_get_hostname_non_empty() {
    let h = hostname_from(None);
    assert!(!h.is_empty());
    assert_eq!(h, "localhost");
    assert_eq!(hostname_from(Some("box\n")), "box");
}

#[test]
fn blank_hostname_file_gives_localhost() {
    assert_eq!(hostname_from(Some(" \n")), "localhost");
    assert_eq!(hostname_from(Some("")), "localhost");
}

#[test]
fn trim_removes_unicode_white_space() {
    assert_eq!(trim("  a b \t\n"), "a b");
    assert_eq!(trim("\u{3000}x\u{a0}"), "x");
    assert_eq!(trim(" \n "), "");
    assert_eq!(trim(""), "");
    assert_eq!(trim("é"), "é");
}

#[test]
fn server_name_keeps_other_characters() {
    assert_eq!(server_name("h", "localhost:10.2"), "eaglemode_on_h_localhost_10_2");
    assert_eq!(server_name("", ""), "eaglemode_on__");
}
