use curious::tz::{read_from_tz, Tz};

#[test]
fn test_load_tz() {
    let tzs = read_from_tz();
    assert!(tzs.is_ok())
}

#[test]
fn test_tz_lookup_by_iso_code() {
    let tz = Tz::tz_by_iso_code("IN");
    assert!(tz.is_ok());

    let tz = tz.unwrap();
    assert!(tz.is_some());
    assert_eq!(tz.unwrap(), "Asia/Calcutta,Asia/Kolkata".to_string());

    let tz = Tz::tz_by_iso_code("InD");
    assert!(tz.is_ok());

    let tz = tz.unwrap();
    assert!(tz.is_some());
    assert_eq!(tz.unwrap(), "Asia/Calcutta,Asia/Kolkata".to_string());
}

#[test]
fn test_tz_lookup_by_iso_code_bad_code() {
    let tz = Tz::tz_by_iso_code("I");
    assert!(tz.is_ok());

    let tz = tz.unwrap();
    assert!(tz.is_none());
}

#[test]
fn test_tz_lookup_by_country_name() {
    let tz = Tz::tz_by_country("Monaco");
    assert!(tz.is_ok());

    let tz = tz.unwrap();
    assert!(tz.is_some());
    assert_eq!(tz.unwrap(), "Europe/Monaco".to_string());
}

#[test]
fn test_tz_lookup_by_country_name_bad_name() {
    let tz = Tz::tz_by_country("Monako");
    assert!(tz.is_ok());

    let tz = tz.unwrap();
    assert!(tz.is_none());
}

#[test]
fn test_get_random_tz() {
    let tz = Tz::get_random_tz();
    assert!(tz.is_ok());
}

#[test]
fn country_names_match_in_any_case() {
    assert_eq!(Tz::tz_by_country("mOnAcO").unwrap(), Some("Europe/Monaco".to_string()));
    assert_eq!(Tz::tz_by_iso_code("mc").unwrap(), Some("Europe/Monaco".to_string()));
}

#[test]
fn table_splits_zones_into_identifiers() {
    let tzs = read_from_tz().unwrap();
    let india = tzs.iter().find(|t| t.alpha_2_code == "IN").unwrap();
    assert_eq!(india.timezones, vec!["Asia/Calcutta".to_string(), "Asia/Kolkata".to_string()]);
    assert_eq!(india.alpha_3_code, "IND");
    assert_eq!(india.name, "India");
}

#[test]
fn lookup_concatenates_every_match() {
    let tzs = read_from_tz().unwrap();
    let mut two = Vec::new();
    for t in &tzs {
        if t.alpha_2_code == "MC" {
            two.push(t.duplicate());
            two.push(t.duplicate());
        }
    }
    assert_eq!(Tz::tz_lookup(&two, "MC"), Some("Europe/MonacoEurope/Monaco".to_string()));
    assert_eq!(Tz::tz_lookup(&two, "FR"), None);
    assert_eq!(Tz::tz_lookup(&Vec::new(), "MC"), None);
}

#[test]
fn random_record_comes_from_the_table() {
    let tzs = read_from_tz().unwrap();
    let t = Tz::get_random_tz().unwrap();
    assert!(tzs.contains(&t));
}

fn row(fields: &[&str]) -> Vec<String> {
    fields.iter().map(|f| f.to_string()).collect()
}

#[test]
fn rows_become_records_with_split_zones() {
    let rows = vec![row(&["XA", "XAA", "Nowhere", "Capital", "Examplia", "Zone/One,Zone/Two,"])];
    let tzs = Tz::from_rows(&rows).unwrap();
    assert_eq!(tzs.len(), 1);
    assert_eq!(tzs[0].timezones, vec!["Zone/One".to_string(), "Zone/Two".to_string(), String::new()]);
    assert_eq!(Tz::tz_lookup(&tzs, "examplia"), Some("Zone/One,Zone/Two,".to_string()));
    assert_eq!(Tz::tz_lookup(&tzs, "xaa"), Some("Zone/One,Zone/Two,".to_string()));
}

#[test]
fn short_row_is_a_table_error() {
    let rows = vec![row(&["XA", "XAA", "Nowhere", "Capital", "Examplia"])];
    assert_eq!(Tz::from_rows(&rows), Err("Error: Not a valid tz csv file.".to_string()));
}

#[test]
fn record_with_no_zones_is_not_found() {
    let rows = vec![row(&["XA", "XAA", "Nowhere", "Capital", "Examplia", ""])];
    let tzs = Tz::from_rows(&rows).unwrap();
    assert_eq!(Tz::tz_lookup(&tzs, "XA"), None);
}
