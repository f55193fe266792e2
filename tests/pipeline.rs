use poss_fetch::header::{plate_header_keys, HeaderError, HeaderValue};
use poss_fetch::pipeline::{
    plate_image, plate_metadata, process_plate, PlateAction, PlateEvent, PlateStage, ProcessError,
};
use poss_fetch::raster::EncodeError;

fn header(width: &str, height: &str) -> Vec<Option<HeaderValue>> {
    plate_header_keys()
        .iter()
        .map(|k| {
            let v = match k.as_str() {
                "REGION" => "S123".to_string(),
                "PLATEID" => "XE001".to_string(),
                "NAXIS1" => width.to_string(),
                "NAXIS2" => height.to_string(),
                other => format!("{}-value", other),
            };
            Some(HeaderValue { value: v, comment: Some("c".to_string()) })
        })
        .collect()
}

fn metadata_lines(bytes: Vec<u8>) -> Vec<String> {
    String::from_utf8(bytes).unwrap().lines().map(|l| l.to_string()).collect()
}

#[test]
fn plate_yields_named_outputs() {
    let out = process_plate(&header("2", "2"), &vec![10, 20, 30, 40], "poss_1/red").unwrap();
    assert_eq!(out.metadata.path, "poss_1/red/XE001_S123_header_values.csv");
    let lines = metadata_lines(out.metadata.bytes);
    assert_eq!(lines.len(), 11);
    assert_eq!(lines[0], "Key,Value,Comment");
    assert_eq!(lines[1], "DATE-OBS,DATE-OBS-value,c");
    assert_eq!(lines[2], "REGION,S123,c");
    assert_eq!(lines[10], "NAXIS2,2,c");
    let image = out.image.unwrap();
    assert_eq!(image.path, "poss_1/red/XE001_S123.png");
    assert_eq!(&image.bytes[..4], &[0x89, b'P', b'N', b'G']);
}

#[test]
fn missing_region_produces_nothing_and_still_cleans_up() {
    let mut found = header("2", "2");
    found[1] = None;
    let e = process_plate(&found, &vec![10, 20, 30, 40], "out").unwrap_err();
    assert_eq!(e, HeaderError::MissingKey("REGION".to_string()));
    assert_eq!(
        plate_metadata(&found, "out").unwrap_err(),
        HeaderError::MissingKey("REGION".to_string())
    );
    let (s, a) = PlateStage::Processing.step(PlateEvent::ProcessFailed);
    assert_eq!((s, a), (PlateStage::CleaningUp, PlateAction::Remove));
    let (s, a) = s.step(PlateEvent::Removed);
    assert_eq!((s, a), (PlateStage::Finished, PlateAction::Advance));
}

#[test]
fn bad_width_still_yields_metadata() {
    let out = process_plate(&header("two", "2"), &vec![1, 2, 3, 4], "out").unwrap();
    assert_eq!(out.metadata.path, "out/XE001_S123_header_values.csv");
    let lines = metadata_lines(out.metadata.bytes);
    assert_eq!(lines.len(), 11);
    assert_eq!(lines[9], "NAXIS1,two,c");
    assert_eq!(
        out.image.unwrap_err(),
        ProcessError::Header(HeaderError::InvalidDimension("NAXIS1".to_string()))
    );
}

#[test]
fn grid_must_match_header_dimensions() {
    let out = process_plate(&header("3", "2"), &vec![1, 2, 3, 4], "out").unwrap();
    assert_eq!(metadata_lines(out.metadata.bytes).len(), 11);
    assert_eq!(
        out.image.unwrap_err(),
        ProcessError::Encode(EncodeError::DimensionMismatch { width: 3, height: 2, samples: 4 })
    );
}

#[test]
fn image_step_alone() {
    let found = header("1", "1");
    let img = plate_image(&found, &vec![-7], "d").unwrap();
    assert_eq!(img.path, "d/XE001_S123.png");
    let empty = plate_image(&header("0", "0"), &vec![], "d").unwrap_err();
    assert!(matches!(empty, ProcessError::Encode(EncodeError::Container(_))));
}

#[test]
fn not_found_plate_skips_processing() {
    let (s, a) = PlateStage::Pending.step(PlateEvent::Begin);
    assert_eq!((s, a), (PlateStage::Fetching, PlateAction::Fetch));
    let (s, a) = s.step(PlateEvent::FetchNotFound);
    assert_eq!((s, a), (PlateStage::Finished, PlateAction::Advance));
    let (_, a) = s.step(PlateEvent::FetchSucceeded);
    assert_eq!(a, PlateAction::Ignore);
}

#[test]
fn fetched_plate_is_processed_then_removed() {
    let (s, _) = PlateStage::Pending.step(PlateEvent::Begin);
    let (s, a) = s.step(PlateEvent::FetchSucceeded);
    assert_eq!((s, a), (PlateStage::Processing, PlateAction::Process));
    let (s, a) = s.step(PlateEvent::ProcessSucceeded);
    assert_eq!((s, a), (PlateStage::CleaningUp, PlateAction::Remove));
    let (s, a) = s.step(PlateEvent::RemoveFailed);
    assert_eq!((s, a), (PlateStage::Finished, PlateAction::Advance));
}
