use curious::internet::{dga_domain, dga_name};

#[test]
fn dga_name_of_a_known_seed() {
    assert_eq!(dga_name(2020, 1, 1, 10, "com"), "jpmegvjeab.com");
    assert_eq!(dga_name(1, 1, 1, 5, "net"), "aaaaa.net");
    assert_eq!(dga_name(9999, 12, 30, 25, "org"), "qgwdpbcjxutyfrhwddrrxfide.org");
}

#[test]
fn dga_name_with_empty_label() {
    assert_eq!(dga_name(2020, 1, 1, 0, "com"), ".com");
}

#[test]
fn dga_domain_is_deterministic_once_seeded() {
    let a = dga_domain(Some(2020), Some(1), Some(1), Some(10), Some("com"));
    assert_eq!(a, "jpmegvjeab.com");
}

#[test]
fn dga_domain_defaults_give_a_label_and_one_dot() {
    for _ in 0..100 {
        let d = dga_domain(None, None, None, None, None);
        let dot = d.find('.').unwrap();
        assert!((10..=25).contains(&dot), "{}", d);
        assert!(d[..dot].chars().all(|c| ('a'..='y').contains(&c)), "{}", d);
        assert!(!d[dot + 1..].contains('.'), "{}", d);
        assert!(dot + 1 < d.len());
    }
}

#[test]
fn dga_domain_keeps_requested_length_and_tld() {
    let d = dga_domain(None, Some(3), None, Some(12), Some("xyz"));
    assert_eq!(d.len(), 12 + 1 + 3);
    assert!(d.ends_with(".xyz"));
    assert!(d[..12].chars().all(|c| ('a'..='y').contains(&c)));
}
