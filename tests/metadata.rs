use poss_fetch::header::HeaderField;
use poss_fetch::metadata::{image_path, metadata_csv, metadata_path, metadata_rows};

fn field(k: &str, v: &str, c: Option<&str>) -> HeaderField {
    HeaderField { key: k.to_string(), value: v.to_string(), comment: c.map(|s| s.to_string()) }
}

#[test]
fn rows_are_header_then_fields_in_order() {
    let fields = vec![field("REGION", "XE001", Some("region")), field("PLATEID", "A1", None)];
    let rows = metadata_rows(&fields);
    assert_eq!(rows.len(), 3);
    assert_eq!(rows[0], vec!["Key", "Value", "Comment"]);
    assert_eq!(rows[1], vec!["REGION", "XE001", "region"]);
    assert_eq!(rows[2], vec!["PLATEID", "A1", ""]);
}

#[test]
fn no_fields_gives_header_row_only() {
    let rows = metadata_rows(&vec![]);
    assert_eq!(rows.len(), 1);
    assert_eq!(metadata_csv(&vec![]), b"Key,Value,Comment\n".to_vec());
}

#[test]
fn csv_bytes_quote_where_needed() {
    let fields = vec![field("DATE-OBS", "1950-01-01", Some("date, UT")), field("NAXIS1", "2", None)];
    let bytes = metadata_csv(&fields);
    assert_eq!(
        String::from_utf8(bytes).unwrap(),
        "Key,Value,Comment\nDATE-OBS,1950-01-01,\"date, UT\"\nNAXIS1,2,\n"
    );
}

#[test]
fn output_paths_use_plate_and_region() {
    assert_eq!(metadata_path("poss_1/red", "XE123", "S001"), "poss_1/red/XE123_S001_header_values.csv");
    assert_eq!(image_path("poss_1/blue", "P7", "R9"), "poss_1/blue/P7_R9.png");
}
