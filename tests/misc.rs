use curious::database::{mongo_objectid, object_id_text};
use curious::fcks::fortune_cookie;
use curious::utils::hex_pattern;

#[test]
fn object_id_text_of_known_values() {
    assert_eq!(object_id_text(0x5f5e100, &vec![0, 1, 15, 16, 255, 171, 205, 239]), "5f5e10000010f10ffabcdef");
    assert_eq!(object_id_text(-1, &vec![7; 8]), "ffffffffffffffff0707070707070707");
    assert_eq!(object_id_text(3, &vec![]), "03");
}

#[test]
fn mongo_objectid_is_hex() {
    let id = mongo_objectid();
    assert!(id.len() >= 18);
    assert!(id.chars().all(|c| c.is_ascii_digit() || ('a'..='f').contains(&c)), "{}", id);
}

#[test]
fn hex_pattern_replaces_only_carets() {
    let s = hex_pattern(Some("0x^^^-é"), Some(true));
    let chars: Vec<char> = s.chars().collect();
    assert_eq!(chars.len(), 7);
    assert_eq!(&s[..2], "0x");
    assert!(chars[2..5].iter().all(|c| c.is_ascii_digit() || ('A'..='F').contains(c)), "{}", s);
    assert!(s.ends_with("-é"));
    let d = hex_pattern(None, None);
    assert_eq!(d.len(), 4);
    assert!(d.chars().all(|c| c.is_ascii_digit() || ('a'..='f').contains(&c)), "{}", d);
    assert_eq!(hex_pattern(Some(""), None), "");
}

#[test]
fn fortune_cookie_is_not_empty() {
    assert!(!fortune_cookie().is_empty());
}
