use cleanx::metadata::spotlight::{parse_date_value, parse_int_value, parse_mdls_output};

#[test]
fn test_parse_date_value() {
    let line = r#"kMDItemLastUsedDate = "2024-01-15 10:30:00 +0000""#;
    let result = parse_date_value(line);
    assert!(result.is_some());
}

#[test]
fn test_parse_int_value() {
    let line = "kMDItemUseCount = 5";
    let result = parse_int_value(line);
    assert_eq!(result, Some(5));
}

#[test]
fn test_parse_null_value() {
    let line = "kMDItemUseCount = (null)";
    let result = parse_int_value(line);
    assert_eq!(result, None);
}

#[test]
fn date_value_is_the_point_in_time() {
    let line = r#"kMDItemLastUsedDate = "2024-01-15 10:30:00 +0000""#;
    let t = parse_date_value(line).unwrap();
    assert_eq!(t.secs, 1_705_314_600);
    assert_eq!(t.nanos, 0);
}

#[test]
fn int_value_edge_cases() {
    assert_eq!(parse_int_value("kMDItemUseCount"), None);
    assert_eq!(parse_int_value("kMDItemUseCount = "), None);
    assert_eq!(parse_int_value("kMDItemUseCount = +7"), Some(7));
    assert_eq!(parse_int_value("kMDItemUseCount = -7"), None);
    assert_eq!(parse_int_value("kMDItemUseCount = 4294967295"), Some(u32::MAX));
    assert_eq!(parse_int_value("kMDItemUseCount = 4294967296"), None);
    assert_eq!(parse_int_value("a = b = 3"), None);
    assert_eq!(parse_int_value("x=\t 12 \r"), Some(12));
}

#[test]
fn mdls_output_gives_both_values() {
    let out = "kMDItemLastUsedDate = 2024-01-15 10:30:00 +0000\nkMDItemUseCount     = 12\n";
    let meta = parse_mdls_output(out).unwrap();
    assert_eq!(meta.use_count, Some(12));
    assert_eq!(meta.last_used.unwrap().secs, 1_705_314_600);
}

#[test]
fn mdls_output_without_values_is_none() {
    let out = "kMDItemLastUsedDate = (null)\r\nkMDItemUseCount = (null)\r\n";
    assert!(parse_mdls_output(out).is_none());
    assert!(parse_mdls_output("").is_none());
    assert!(parse_mdls_output("something else").is_none());
}
