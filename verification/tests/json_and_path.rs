use oci_bundle::json::{put, string_array, text, text_array};
use oci_bundle::path::{join, to_text, SEPARATOR};
use serde_json::Value;

#[test]
fn text_holds_the_given_string() {
    assert_eq!(text("rwm"), Value::String("rwm".to_string()));
    assert_eq!(text(""), Value::String(String::new()));
    assert_eq!(text("päth"), Value::String("päth".to_string()));
}

#[test]
fn text_array_keeps_the_order() {
    let items = ["b", "a", "c", "a"];
    let expected = Value::Array(vec![
        Value::from("b"),
        Value::from("a"),
        Value::from("c"),
        Value::from("a"),
    ]);
    assert_eq!(text_array(&items), expected);
    assert_eq!(text_array(&[]), Value::Array(Vec::new()));
}

#[test]
fn string_array_keeps_the_order() {
    let items = vec!["z".to_string(), "".to_string(), "y".to_string()];
    let expected = Value::Array(vec![Value::from("z"), Value::from(""), Value::from("y")]);
    assert_eq!(string_array(&items), expected);
    assert_eq!(string_array(&Vec::new()), Value::Array(Vec::new()));
}

#[test]
fn put_sets_and_replaces_members() {
    let mut members = serde_json::Map::new();
    put(&mut members, "a", Value::from(1u64));
    put(&mut members, "b", Value::Bool(true));
    assert_eq!(members.len(), 2);
    assert_eq!(members["a"], Value::from(1u64));
    assert_eq!(members["b"], Value::Bool(true));
    put(&mut members, "a", Value::from("again"));
    assert_eq!(members.len(), 2);
    assert_eq!(members["a"], Value::from("again"));
    assert_eq!(members["b"], Value::Bool(true));
}

#[test]
fn join_adds_a_separator_where_one_is_missing() {
    assert_eq!(join(b"/a/b", b"hosts"), b"/a/b/hosts".to_vec());
    assert_eq!(join(b"/a/b/", b"hosts"), b"/a/b/hosts".to_vec());
    assert_eq!(join(b"/", b"hosts"), b"/hosts".to_vec());
    assert_eq!(join(b"", b"hosts"), b"hosts".to_vec());
    assert_eq!(join(b"a//", b"hosts"), b"a//hosts".to_vec());
    assert_eq!(join(b"a", b""), b"a/".to_vec());
    assert_eq!(join(b"", b""), Vec::<u8>::new());
    assert_eq!(SEPARATOR, b'/');
}

#[test]
fn join_lets_a_rooted_file_stand_for_itself() {
    assert_eq!(join(b"/a/b", b"/etc/hosts"), b"/etc/hosts".to_vec());
    assert_eq!(join(b"", b"/"), b"/".to_vec());
}

#[test]
fn join_keeps_bytes_that_are_no_text() {
    assert_eq!(join(b"\xff\x00", b"x"), b"\xff\x00/x".to_vec());
}

#[test]
fn join_agrees_with_the_standard_library() {
    let cases: [(&str, &str); 8] = [
        ("/a/b", "resolv.conf"),
        ("/a/b/", "hosts"),
        ("", "hosts"),
        ("/", "hosts"),
        ("rel", "x/y"),
        ("/a", "/abs"),
        ("a", ""),
        ("/ü/", "ö"),
    ];
    for (dir, file) in cases {
        let expected = std::path::Path::new(dir).join(file);
        assert_eq!(
            join(dir.as_bytes(), file.as_bytes()),
            expected.to_str().unwrap().as_bytes().to_vec(),
            "{} {}",
            dir,
            file
        );
    }
}

#[test]
fn to_text_decodes_well_formed_bytes() {
    assert_eq!(to_text(b"/run/netns/a1"), Some("/run/netns/a1".to_string()));
    assert_eq!(to_text(b""), Some(String::new()));
    assert_eq!(to_text(&[0xc3, 0xa9]), Some("é".to_string()));
    assert_eq!(to_text(&[0xe2, 0x82, 0xac, 0x2f, 0xf0, 0x9f, 0x98, 0x80]), Some("€/😀".to_string()));
    assert_eq!(to_text(&[0x00]), Some("\0".to_string()));
}

#[test]
fn to_text_refuses_malformed_bytes() {
    assert_eq!(to_text(&[0xff]), None);
    assert_eq!(to_text(&[0x80]), None);
    assert_eq!(to_text(&[0xc3]), None);
    assert_eq!(to_text(&[0xc0, 0xaf]), None);
    assert_eq!(to_text(&[0xed, 0xa0, 0x80]), None);
    assert_eq!(to_text(&[0xf4, 0x90, 0x80, 0x80]), None);
    assert_eq!(to_text(b"ok\xfe"), None);
}
