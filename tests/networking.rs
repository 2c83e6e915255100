use curious::networking::{fqdn, ip_address, ip_from_subnet, mac_address, port_number, private_ip, public_ip, AddressError};

fn v4_value(text: &str) -> u32 {
    let parts: Vec<u32> = text.split('.').map(|p| p.parse().unwrap()).collect();
    assert_eq!(parts.len(), 4);
    (parts[0] << 24) | (parts[1] << 16) | (parts[2] << 8) | parts[3]
}

fn v6_value(text: &str) -> u128 {
    let n: ipnetwork::Ipv6Network = text.parse().unwrap();
    assert_eq!(n.prefix(), 128);
    u128::from(n.ip())
}

#[test]
fn subnet_ten_slash_eight_stays_inside() {
    for _ in 0..200 {
        let a = public_ip(Some(4), None, Some("10.0.0.0/8".to_string())).unwrap();
        let v = v4_value(&a);
        assert!(v >= 0x0A00_0000 && v <= 0x0AFF_FFFF, "{}", a);
    }
}

#[test]
fn host_bits_of_a_subnet_literal_are_cleared() {
    for _ in 0..50 {
        let a = private_ip(None, None, Some("192.168.7.200/24".to_string())).unwrap();
        let v = v4_value(&a);
        assert!(v >= 0xC0A8_0700 && v <= 0xC0A8_07FF, "{}", a);
    }
}

#[test]
fn single_address_subnet_gives_that_address() {
    assert_eq!(public_ip(Some(4), None, Some("192.168.1.7/32".to_string())).unwrap(), "192.168.1.7");
    assert_eq!(public_ip(Some(6), None, Some("2001:db8::1/128".to_string())).unwrap(), "2001:db8::1");
}

#[test]
fn ipv6_subnet_stays_inside() {
    for _ in 0..50 {
        let a = public_ip(Some(6), None, Some("2402:9400:1000:11::/64".to_string())).unwrap();
        let v = v6_value(&a);
        assert_eq!(v >> 64, 0x2402_9400_1000_0011, "{}", a);
    }
}

#[test]
fn whole_address_space_is_a_valid_subnet() {
    assert!(public_ip(Some(4), None, Some("0.0.0.0/0".to_string())).is_ok());
    assert!(public_ip(Some(6), None, Some("::/0".to_string())).is_ok());
}

#[test]
fn malformed_subnet_is_an_error() {
    assert_eq!(public_ip(Some(4), None, Some("not a subnet".to_string())), Err(AddressError::BadSubnet));
    assert_eq!(public_ip(Some(4), None, Some("10.0.0.0/33".to_string())), Err(AddressError::BadSubnet));
    assert_eq!(public_ip(Some(4), None, Some("2001:db8::/32".to_string())), Err(AddressError::BadSubnet));
    assert_eq!(public_ip(Some(6), None, Some("10.0.0.0/8".to_string())), Err(AddressError::BadSubnet));
}

#[test]
fn unknown_version_is_an_error() {
    assert_eq!(public_ip(Some(5), None, None), Err(AddressError::UnknownVersion));
    assert_eq!(private_ip(Some(0), None, Some("10.0.0.0/8".to_string())), Err(AddressError::UnknownVersion));
}

#[test]
fn empty_subnet_falls_back_to_the_tables() {
    for _ in 0..50 {
        let a = private_ip(Some(4), None, Some(String::new())).unwrap();
        let v = v4_value(&a);
        assert!(v >> 24 == 10 || v >> 20 == 0xAC1 || v >> 16 == 0xC0A8, "{}", a);
    }
}

#[test]
fn private_v4_addresses_fall_in_private_ranges_and_avoid_reserved_ones() {
    let reserved: [(u32, u32); 16] = [
        (0x0000_0000, 8), (0x6440_0000, 10), (0x7F00_0000, 8), (0xA9FE_0000, 16),
        (0xC000_0000, 24), (0xC000_0200, 24), (0xC01F_C400, 24), (0xC034_C100, 24),
        (0xC058_6300, 24), (0xC0AF_3000, 24), (0xC612_0000, 15), (0xC633_6400, 24),
        (0xCB00_7100, 24), (0xE000_0000, 4), (0xF000_0000, 4), (0xFFFF_FFFF, 32),
    ];
    for _ in 0..300 {
        let a = private_ip(Some(4), None, None).unwrap();
        let v = v4_value(&a);
        assert!(v >> 24 == 10 || v >> 20 == 0xAC1 || v >> 16 == 0xC0A8, "{}", a);
        for (base, prefix) in reserved {
            let size: u64 = 1u64 << (32 - prefix);
            assert!(!((v as u64) >= base as u64 && (v as u64) < base as u64 + size), "{}", a);
        }
    }
}

#[test]
fn private_v6_addresses_are_unique_local() {
    for _ in 0..100 {
        let a = private_ip(Some(6), None, None).unwrap();
        let v = v6_value(&a);
        assert_eq!(v >> 121, 0xfc >> 1, "{}", a);
    }
}

#[test]
fn public_v6_addresses_come_from_2001() {
    for _ in 0..100 {
        let a = public_ip(Some(6), None, None).unwrap();
        assert_eq!(v6_value(&a) >> 112, 0x2001, "{}", a);
    }
}

#[test]
fn address_class_is_kept_when_valid() {
    for _ in 0..100 {
        let b = v4_value(&public_ip(Some(4), Some('b'), None).unwrap());
        assert!(b >> 30 == 0b10);
        let c = v4_value(&public_ip(None, Some('c'), None).unwrap());
        assert!(c >> 29 == 0b110);
        let a = v4_value(&public_ip(None, Some('a'), None).unwrap());
        assert!(a >> 31 == 0);
    }
}

#[test]
fn unknown_address_class_is_drawn_from_the_three_classes() {
    let mut seen = [false; 3];
    for _ in 0..300 {
        let v = v4_value(&public_ip(None, Some('z'), None).unwrap());
        assert!(v < 0xE000_0000);
        if v >> 31 == 0 {
            seen[0] = true;
        } else if v >> 30 == 0b10 {
            seen[1] = true;
        } else {
            seen[2] = true;
        }
    }
    assert_eq!(seen, [true, true, true]);
}

#[test]
fn ip_address_defaults_to_public_v4() {
    let a = ip_address(None, None, None, None).unwrap();
    assert!(v4_value(&a) < 0xE000_0000);
}

#[test]
fn port_numbers_respect_the_scope() {
    for _ in 0..200 {
        assert!(port_number(Some(true), None, None) < 1023);
        let u = port_number(None, Some(true), None);
        assert!((1024..49151).contains(&u));
        let d = port_number(None, None, Some(true));
        assert!((49152..65535).contains(&d));
        assert!(port_number(None, None, None) < 65535);
    }
}

#[test]
fn mac_addresses_have_six_hex_pairs() {
    let lower = mac_address(None, None);
    assert_eq!(lower.len(), 17);
    for (i, c) in lower.chars().enumerate() {
        if i % 3 == 2 {
            assert_eq!(c, ':');
        } else {
            assert!(c.is_ascii_digit() || ('a'..='f').contains(&c), "{}", lower);
        }
    }
    let upper = mac_address(Some(true), Some("00:11:22".to_string()));
    assert!(upper.chars().all(|c| c == ':' || c.is_ascii_digit() || ('A'..='F').contains(&c)), "{}", upper);
}

#[test]
fn fqdn_joins_site_company_and_tld() {
    assert!(fqdn("").is_none());
    let f = fqdn("acme").unwrap();
    assert_eq!(f.domain, "acme");
    assert_eq!(f.fqdn, format!("{}.{}.{}", f.sub_domain, f.domain, f.tld));
    assert!(!f.sub_domain.is_empty() && !f.tld.is_empty());
}

#[test]
fn fqdn_with_a_dotted_company_takes_the_first_three_pieces() {
    let f = fqdn("acme.co").unwrap();
    assert_eq!(f.domain, "acme");
    assert_eq!(f.tld, "co");
    assert!(f.fqdn.starts_with(&format!("{}.acme.co.", f.sub_domain)));
}

#[test]
fn ip_from_subnet_rejects_what_it_cannot_read() {
    assert_eq!(ip_from_subnet("", 4), None);
    assert_eq!(ip_from_subnet("10.0.0.0/8", 5), None);
    assert_eq!(ip_from_subnet("10.0.0.0/8x", 4), None);
    assert_eq!(ip_from_subnet("10.9.8.7/32", 4), Some("10.9.8.7".to_string()));
    assert_eq!(ip_from_subnet("fd00::5/128", 6), Some("fd00::5".to_string()));
}
