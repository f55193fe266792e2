use poss_fetch::header::{extract, field_value, HeaderField, parse_dimension, plate_header_keys, HeaderError, HeaderValue};

fn value(v: &str, c: Option<&str>) -> Option<HeaderValue> {
    Some(HeaderValue { value: v.to_string(), comment: c.map(|s| s.to_string()) })
}

#[test]
fn plate_keys_in_row_order() {
    let keys = plate_header_keys();
    assert_eq!(
        keys,
        vec![
            "DATE-OBS", "REGION", "PLATEID", "PLATERA", "PLATEDEC", "PLTSCALE", "PLTSIZEX",
            "PLTSIZEY", "NAXIS1", "NAXIS2"
        ]
    );
}

#[test]
fn missing_region_fails_whole_extraction() {
    let keys = plate_header_keys();
    let mut found: Vec<Option<HeaderValue>> =
        keys.iter().map(|k| value(&format!("v{}", k), None)).collect();
    found[1] = None;
    let e = extract(&keys, &found).unwrap_err();
    assert_eq!(e, HeaderError::MissingKey("REGION".to_string()));
}

#[test]
fn first_missing_key_is_reported() {
    let keys = vec!["A".to_string(), "B".to_string(), "C".to_string()];
    let found = vec![value("1", None), None, None];
    assert_eq!(extract(&keys, &found).unwrap_err(), HeaderError::MissingKey("B".to_string()));
}

#[test]
fn fields_keep_key_order_and_comments() {
    let keys = vec!["A".to_string(), "B".to_string()];
    let found = vec![value("1", Some("first")), value("x", None)];
    let fields = extract(&keys, &found).unwrap();
    assert_eq!(fields.len(), 2);
    assert_eq!(fields[0].key, "A");
    assert_eq!(fields[0].value, "1");
    assert_eq!(fields[0].comment.as_deref(), Some("first"));
    assert_eq!(fields[1].key, "B");
    assert_eq!(fields[1].value, "x");
    assert_eq!(fields[1].comment, None);
}

#[test]
fn dimensions_parse_as_unsigned() {
    assert_eq!(parse_dimension("NAXIS1", "14000"), Ok(14000));
    assert_eq!(parse_dimension("NAXIS1", "+7"), Ok(7));
    assert_eq!(parse_dimension("NAXIS1", "007"), Ok(7));
    assert_eq!(parse_dimension("NAXIS1", "4294967295"), Ok(4294967295));
}

fn bad() -> HeaderError {
    HeaderError::InvalidDimension("NAXIS2".to_string())
}

#[test]
fn bad_dimensions_are_refused() {
    assert_eq!(parse_dimension("NAXIS2", ""), Err(bad()));
    assert_eq!(parse_dimension("NAXIS2", "+"), Err(bad()));
    assert_eq!(parse_dimension("NAXIS2", "-1"), Err(bad()));
    assert_eq!(parse_dimension("NAXIS2", "12a"), Err(bad()));
    assert_eq!(parse_dimension("NAXIS2", " 12"), Err(bad()));
    assert_eq!(parse_dimension("NAXIS2", "4294967296"), Err(bad()));
}

#[test]
fn field_value_finds_first_match() {
    let f = |k: &str, v: &str| HeaderField { key: k.to_string(), value: v.to_string(), comment: None };
    let fields = vec![f("A", "1"), f("B", "2"), f("B", "3")];
    assert_eq!(field_value(&fields, "B"), Some("2".to_string()));
    assert_eq!(field_value(&fields, "A"), Some("1".to_string()));
    assert_eq!(field_value(&fields, "C"), None);
    assert_eq!(field_value(&vec![], "A"), None);
}
