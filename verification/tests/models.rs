use artie::models::{
    check_not_blank, get_config_path, CopyOperation, CopyParameters, MediaType, ValidationError,
};
use artie::text::signed_decimal;

fn params() -> CopyParameters {
    CopyParameters {
        media_type: MediaType::Movie,
        title: String::from("The Matrix"),
        release_year: 1999,
        season_number: 0,
        disc_number: 1,
        location: String::from("Shelf A"),
        memo: String::new(),
    }
}

#[test]
fn valid_parameters() {
    assert!(params().valid_in_year(2025));
    assert!(params().valid());
    let mut p = params();
    p.release_year = 1970;
    assert!(p.valid());
    p.title = String::new();
    assert!(!p.valid());
}

#[test]
fn copy_operation_default_loads_nothing() {
    let op = CopyOperation::default();
    assert!(op.titles.is_none());
    assert!(op.videos.is_none());
}

#[test]
fn blank_title_or_location_is_invalid() {
    let mut p = params();
    p.title = String::from(" \t\u{3000}");
    assert!(!p.valid_in_year(2025));
    let mut p = params();
    p.location = String::new();
    assert!(!p.valid_in_year(2025));
}

#[test]
fn release_year_range() {
    let mut p = params();
    p.release_year = 1908;
    assert!(!p.valid_in_year(2025));
    p.release_year = 1909;
    assert!(p.valid_in_year(2025));
    p.release_year = 2026;
    assert!(!p.valid_in_year(2025));
    assert!(p.valid_in_year(2026));
    assert!(p.valid_in_year(100_000));
    assert!(!params().valid_in_year(-1));
    assert!(!params().valid_in_year(1998));
}

#[test]
fn disc_and_season_numbers() {
    let mut p = params();
    p.disc_number = 0;
    assert!(!p.valid_in_year(2025));
    let mut p = params();
    p.media_type = MediaType::Show;
    assert!(!p.valid_in_year(2025));
    p.season_number = 1;
    assert!(p.valid_in_year(2025));
}

#[test]
fn copy_operation_from_params() {
    let op = CopyOperation::from_params(&params());
    assert_eq!(op.title, "The Matrix");
    assert_eq!(op.year, 1999);
    assert_eq!(op.disc, 1);
    assert_eq!(op.location, "Shelf A");
    assert_eq!(op.id, 0);
    assert_eq!(op.media_type, MediaType::Movie);
}

#[test]
fn media_type_text_and_default() {
    assert_eq!(MediaType::Movie.as_str(), "Movie");
    assert_eq!(MediaType::Show.as_str(), "Show");
    assert_eq!(MediaType::default(), MediaType::Movie);
}

#[test]
fn blank_arguments_are_rejected() {
    assert_eq!(check_not_blank("  "), Err(ValidationError::EmptyString));
    assert_eq!(check_not_blank(""), Err(ValidationError::EmptyString));
    assert_eq!(check_not_blank(" host "), Ok(()));
    assert_eq!(get_config_path(), "artie.toml");
}

#[test]
fn decimal_text_parses_back() {
    for n in [0, 7, -7, 42, i32::MAX, i32::MIN] {
        let text = signed_decimal(n);
        assert_eq!(text, n.to_string());
        assert_eq!(text.parse::<i32>().unwrap(), n);
    }
}
