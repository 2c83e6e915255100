use curious::operatingsystems::{hostname, localhost_name, logon_id, new_uuid, servername, OsType};

#[test]
fn logon_ids_come_in_the_batch_size() {
    assert_eq!(logon_id(None).len(), 1);
    assert_eq!(logon_id(Some(0)).len(), 0);
    let ids = logon_id(Some(5));
    assert_eq!(ids.len(), 5);
    for id in ids {
        assert_eq!(id.len(), 9);
        assert!(id.starts_with("0x"));
        assert!(id[2..].chars().all(|c| c.is_ascii_digit() || ('a'..='f').contains(&c)), "{}", id);
    }
}

#[test]
fn uuids_are_hyphenated_lower_hex() {
    let ids = new_uuid(Some(4));
    assert_eq!(ids.len(), 4);
    assert_ne!(ids[0], ids[1]);
    for id in ids {
        assert_eq!(id.len(), 36);
        for (i, c) in id.chars().enumerate() {
            if i == 8 || i == 13 || i == 18 || i == 23 {
                assert_eq!(c, '-');
            } else {
                assert!(c.is_ascii_digit() || ('a'..='f').contains(&c), "{}", id);
            }
        }
    }
    assert_eq!(new_uuid(None).len(), 1);
    assert_eq!(new_uuid(Some(0)).len(), 0);
}

#[test]
fn localhost_names_carry_the_given_name() {
    let names = localhost_name(Some(true), None, Some("BOX".to_string()), Some(true), Some(3));
    assert_eq!(names.len(), 3);
    assert_eq!(localhost_name(None, None, None, None, None).len(), 1);
    for n in names {
        assert!(n.ends_with("-BOX"), "{}", n);
    }
}

#[test]
fn localhost_names_without_local_suffix_end_with_a_hyphen() {
    for n in localhost_name(None, Some(true), None, None, Some(4)) {
        assert!(n.ends_with('-'), "{}", n);
        assert!(n[..n.len() - 1].chars().all(|c| c.is_ascii_lowercase()), "{}", n);
    }
}

#[test]
fn localhost_names_draw_an_upper_case_suffix() {
    for n in localhost_name(None, None, None, Some(true), Some(20)) {
        let (_, suffix) = n.split_once('-').unwrap();
        assert!((8..12).contains(&suffix.len()), "{}", n);
        assert!(suffix.chars().all(|c| c.is_ascii_uppercase() || c.is_ascii_digit()), "{}", n);
    }
}

#[test]
fn hostname_drops_digits_and_keeps_the_suffix() {
    for _ in 0..50 {
        let h = hostname("john42smith", Some("-HOME"), None);
        assert!(h == "johnsmith-HOME" || (h.starts_with("johnsmith0") && h.ends_with("-HOME") && h.len() == 16), "{}", h);
    }
}

#[test]
fn hostname_without_mac_suffix_avoids_apple_suffixes() {
    for _ in 0..100 {
        let h = hostname("alice", None, Some(false));
        assert!(h.ends_with("-PC") || h.ends_with("-LINUX") || h.ends_with("-CHROMEBOOK"), "{}", h);
    }
}

#[test]
fn windows_server_names() {
    for _ in 0..50 {
        let s = servername(Some(true), None);
        assert_eq!(s.len(), 14, "{}", s);
        assert!(s.starts_with('W') && s.ends_with("-SRV"), "{}", s);
        assert!(["2012", "2014", "2016", "2019"].contains(&&s[1..5]), "{}", s);
        assert_eq!(&s[5..9], "R200");
    }
}

#[test]
fn linux_and_default_server_names() {
    for _ in 0..50 {
        assert!(servername(None, Some(true)).ends_with("-SRV"));
        assert!(!servername(None, None).is_empty());
    }
}

#[test]
fn os_types_compare() {
    assert_eq!(OsType::Windows, OsType::Windows);
    assert_ne!(OsType::Linux, OsType::Others);
}
