use keymaker::ids::{room_id_valid, server_of_mxid};
use keymaker::text::{contains_str, join_comma, render_u16, str_eq};

#[test]
fn render_u16_small_numbers() {
    assert_eq!(render_u16(0), "0");
    assert_eq!(render_u16(7), "7");
}

#[test]
fn render_u16_multi_digit() {
    assert_eq!(render_u16(10), "10");
    assert_eq!(render_u16(200), "200");
    assert_eq!(render_u16(404), "404");
    assert_eq!(render_u16(65535), "65535");
}

#[test]
fn join_comma_cases() {
    let none: Vec<String> = vec![];
    assert_eq!(join_comma(&none), "");
    assert_eq!(join_comma(&vec!["a".to_string()]), "a");
    assert_eq!(join_comma(&vec!["a".to_string(), "b".to_string()]), "a, b");
    assert_eq!(
        join_comma(&vec!["x".to_string(), "y".to_string(), "z".to_string()]),
        "x, y, z"
    );
}

#[test]
fn str_eq_compares_contents() {
    assert!(str_eq("abc", "abc"));
    assert!(!str_eq("abc", "abd"));
    assert!(!str_eq("abc", "ab"));
    assert!(str_eq("", ""));
}

#[test]
fn contains_str_finds_exact_matches() {
    let v = vec!["@a:x".to_string(), "@b:y".to_string()];
    assert!(contains_str(&v, "@a:x"));
    assert!(contains_str(&v, "@b:y"));
    assert!(!contains_str(&v, "@c:z"));
    assert!(!contains_str(&v, "@a"));
}

#[test]
fn server_part_of_user_id() {
    assert_eq!(
        server_of_mxid("@alice:example.org"),
        Some("example.org".to_string())
    );
    assert_eq!(server_of_mxid("@a:b:8448"), Some("b:8448".to_string()));
    assert_eq!(server_of_mxid("alice"), None);
}

#[test]
fn room_id_shapes() {
    assert!(room_id_valid("!room:example.org"));
    assert!(!room_id_valid("room:example.org"));
    assert!(!room_id_valid("!room"));
    assert!(!room_id_valid(""));
    assert!(!room_id_valid("!"));
}
