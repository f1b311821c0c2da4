//! The small operations on text, headers and JSON.

use oxen_files::json::Json;
use oxen_files::model::HttpError;
use oxen_files::revision::check_claim;
use oxen_files::text::{
    blank, characters, components, ends_with, join_components, join_path, read_header, same_text,
    split_at_each, starts_with, strip_prefix,
};

fn texts(all: &[&str]) -> Vec<String> {
    all.iter().map(|s| s.to_string()).collect()
}

#[test]
fn characters_are_not_bytes() {
    assert_eq!(characters("a\u{e9}\u{1f402}"), vec!['a', '\u{e9}', '\u{1f402}']);
    assert!(characters("").is_empty());
}

#[test]
fn the_ends_of_a_text() {
    assert!(starts_with("image/png", "image/"));
    assert!(starts_with("abc", ""));
    assert!(!starts_with("ab", "abc"));
    assert!(!starts_with("xbc", "ab"));
    assert!(ends_with("hub.oxen.ai", "oxen.ai"));
    assert!(ends_with("abc", ""));
    assert!(!ends_with("bc", "abc"));
    assert!(ends_with("caf\u{e9}", "\u{e9}"));
    assert!(same_text("a", "a"));
    assert!(!same_text("a", "ab"));
    assert!(!same_text("ab", "ac"));
    assert_eq!(strip_prefix("Bearer t", "Bearer "), Some("t".to_string()));
    assert_eq!(strip_prefix("Bearer", "Bearer "), None);
}

#[test]
fn a_text_is_split_at_each_separator() {
    assert_eq!(split_at_each("a/b", '/'), texts(&["a", "b"]));
    assert_eq!(split_at_each("", '/'), texts(&[""]));
    assert_eq!(split_at_each("/a//", '/'), texts(&["", "a", "", ""]));
}

#[test]
fn the_components_of_a_path() {
    for path in ["a/b", "/a/b", "a//b/", "./a", "a/./b", ".", "", "/", "..", "a/../b", "/./a"] {
        let expected: Vec<String> = std::path::Path::new(path)
            .components()
            .map(|c| c.as_os_str().to_string_lossy().into_owned())
            .collect();
        assert_eq!(components(path), expected, "{path}");
    }
    assert_eq!(join_components(&texts(&["a", "b", "c"]), 1), "b/c");
    assert_eq!(join_components(&texts(&["a"]), 1), "");
}

#[test]
fn a_name_is_joined_to_a_path() {
    for (base, name) in [("a", "b"), ("a/", "b"), ("", "b"), ("a", "/b"), ("a", ""), ("/", "b")] {
        let expected = std::path::Path::new(base).join(name).to_string_lossy().into_owned();
        assert_eq!(join_path(base, name), expected, "{base} {name}");
    }
}

#[test]
fn blank_is_what_trims_to_nothing() {
    for s in ["", " ", "\t\r\n", "\u{a0}\u{2003}", "\u{85}", " a ", "\u{200b}", "\u{3000}", "\u{1680}"] {
        assert_eq!(blank(s), s.trim().is_empty(), "{s:?}");
    }
    for code in 0..0x3100u32 {
        if let Some(c) = char::from_u32(code) {
            assert_eq!(blank(&c.to_string()), c.is_whitespace(), "{code:x}");
        }
    }
}

#[test]
fn a_header_is_text_where_it_is_visible_ascii() {
    assert_eq!(read_header(&Some(b"a b\t~".to_vec())), Some("a b\t~".to_string()));
    assert_eq!(read_header(&Some(vec![])), Some(String::new()));
    for byte in [0u8, 10, 31, 127, 128, 255] {
        assert_eq!(read_header(&Some(vec![b'a', byte])), None);
    }
    assert_eq!(read_header(&None), None);
    for byte in 32u8..=255 {
        let value = actix_web::http::header::HeaderValue::from_bytes(&[byte]);
        let expected = value.ok().and_then(|v| v.to_str().ok().map(|s| s.to_string()));
        assert_eq!(read_header(&Some(vec![byte])), expected, "{byte}");
    }
}

#[test]
fn a_claim_must_match_where_there_is_one() {
    assert_eq!(check_claim::<()>("c1", &None), Ok(()));
    assert_eq!(check_claim::<()>("c1", &Some("c1".to_string())), Ok(()));
    assert_eq!(
        check_claim::<()>("c1", &Some("c0".to_string())),
        Err(HttpError::BasicError(
            "File has been modified since claimed revision. Current: c1, Claimed: c0. Your changes would overwrite another change without that being from a merge"
                .to_string()
        ))
    );
}

#[test]
fn a_member_of_a_json_object_is_found_by_its_key() {
    let object = Json::Object(vec![
        ("a".to_string(), Json::Other),
        ("b".to_string(), Json::Text("x".to_string())),
    ]);
    assert_eq!(object.get("b"), Some(&Json::Text("x".to_string())));
    assert_eq!(object.get("a"), Some(&Json::Other));
    assert_eq!(object.get("c"), None);
    assert_eq!(Json::Text("b".to_string()).get("b"), None);
    assert_eq!(Json::Text("x".to_string()).as_text(), Some("x".to_string()));
    assert_eq!(Json::Other.as_text(), None);
    assert_eq!(object.as_text(), None);
}
