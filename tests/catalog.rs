use poss_fetch::catalog::{plate_identifiers, series_output_dir, PlateIdentifier, Series, STAGING_DIR};

#[test]
fn codes_are_zero_padded() {
    assert_eq!(PlateIdentifier::new(Series::Red, 1).unwrap().code(), "XE001");
    assert_eq!(PlateIdentifier::new(Series::Blue, 42).unwrap().code(), "XO042");
    assert_eq!(PlateIdentifier::new(Series::Red, 871).unwrap().code(), "XE871");
}

#[test]
fn sequence_out_of_range_is_refused() {
    assert!(PlateIdentifier::new(Series::Red, 0).is_none());
    assert!(PlateIdentifier::new(Series::Blue, 872).is_none());
}

#[test]
fn urls_and_staging_paths() {
    let red = PlateIdentifier::new(Series::Red, 5).unwrap();
    assert_eq!(
        red.remote_url(),
        "https://irsa.ipac.caltech.edu/data/DSS/images/dss1red/dss1red_XE005.fits"
    );
    assert_eq!(red.staging_path(STAGING_DIR), "/dev/shm/dss1red_XE005.fits");
    let blue = PlateIdentifier::new(Series::Blue, 310).unwrap();
    assert_eq!(
        blue.remote_url(),
        "https://irsa.ipac.caltech.edu/data/DSS/images/dss1blue/dss1blue_XO310.fits"
    );
    assert_eq!(blue.staging_path("/tmp"), "/tmp/dss1blue_XO310.fits");
}

#[test]
fn series_enumerates_in_ascending_order() {
    let ids = plate_identifiers(Series::Blue);
    assert_eq!(ids.len(), 871);
    assert_eq!(ids[0].sequence, 1);
    assert_eq!(ids[870].sequence, 871);
    assert!(ids.iter().all(|p| p.series == Series::Blue));
    assert!(ids.windows(2).all(|w| w[0].sequence + 1 == w[1].sequence));
}

#[test]
fn output_dirs_per_series() {
    assert_eq!(series_output_dir("poss_1", Series::Red), "poss_1/red");
    assert_eq!(series_output_dir("poss_1", Series::Blue), "poss_1/blue");
}
