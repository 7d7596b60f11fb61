use git_helpe_rs::error::HelperError;
use git_helpe_rs::template::{
    interpolate, interpolate_on_custom_val, split_on_marker, validate_interpolation_places_count,
    validate_interpolation_places_on_custom_pattern,
};

#[test]
fn test_interpolate_no_placeholders() {
    let format = String::from("Hello, world!");
    let values = vec![];
    let result = interpolate(&format, values);
    assert!(result.is_ok());
    assert_eq!(result.unwrap(), "Hello, world!");
}

#[test]
fn test_interpolate_single_placeholder() {
    let format = String::from("Hello, {}!");
    let values = vec![String::from("world")];
    let result = interpolate(&format, values);
    assert!(result.is_ok());
    assert_eq!(result.unwrap(), "Hello, world!");
}

#[test]
fn test_interpolate_multiple_placeholders() {
    let format = String::from("Hello, {}, you are {} years old.");
    let values = vec![String::from("John"), String::from("30")];
    let result = interpolate(&format, values);
    assert!(result.is_ok());
    assert_eq!(result.unwrap(), "Hello, John, you are 30 years old.");
}

#[test]
fn test_interpolate_not_enough_values() {
    let format = String::from("Hello, {}!");
    let values: Vec<String> = vec![];
    let result = validate_interpolation_places_count(&format, values.len());
    assert!(result.is_err());
}

#[test]
fn test_interpolate_too_many_values() {
    let format = String::from("Hello, {}!");
    let values = vec![String::from("world"), String::from("extra")];
    let result = validate_interpolation_places_count(&format, values.len());
    assert!(result.is_err());
}

#[test]
fn count_mismatch_reports_expected_and_received() {
    let format = String::from("Hello, {}!");
    assert_eq!(
        validate_interpolation_places_count(&format, 0),
        Err(HelperError::CountMismatch { expected: 1, received: 0 })
    );
    assert_eq!(
        validate_interpolation_places_count(&format, 2),
        Err(HelperError::CountMismatch { expected: 1, received: 2 })
    );
    assert_eq!(validate_interpolation_places_count(&format, 1), Ok(()));
}

#[test]
fn template_without_marker_against_values_does_not_underflow() {
    let format = String::from("plain");
    assert_eq!(
        validate_interpolation_places_count(&format, 3),
        Err(HelperError::CountMismatch { expected: 0, received: 3 })
    );
    assert_eq!(validate_interpolation_places_count(&format, 0), Ok(()));
}

#[test]
fn split_gives_one_more_segment_than_markers() {
    let segments = split_on_marker("a{}b{}{}c", "{}");
    assert_eq!(segments, vec!["a", "b", "", "c"]);
    assert_eq!(split_on_marker("", "{}"), vec![""]);
    assert_eq!(split_on_marker("{}", "{}"), vec!["", ""]);
}

#[test]
fn split_finds_non_overlapping_markers_from_the_left() {
    assert_eq!(split_on_marker("{{}}", "{}"), vec!["{", "}"]);
    assert_eq!(split_on_marker("aaa", "aa"), vec!["", "a"]);
}

#[test]
fn interpolation_is_segment_by_segment_concatenation() {
    let format = String::from("{}-{}/{}");
    let values = vec![String::from("1"), String::from("22"), String::from("333")];
    assert_eq!(validate_interpolation_places_count(&format, values.len()), Ok(()));
    assert_eq!(interpolate(&format, values).unwrap(), "1-22/333");
}

#[test]
fn interpolation_with_adjacent_markers() {
    let format = String::from("{}{}");
    let values = vec![String::from("ab"), String::from("cd")];
    assert_eq!(interpolate(&format, values).unwrap(), "abcd");
}

#[test]
fn interpolation_with_fewer_values_leaves_later_markers_empty() {
    let format = String::from("a{}b{}c");
    assert_eq!(interpolate(&format, vec![String::from("X")]).unwrap(), "aXbc");
}

#[test]
fn interpolation_with_more_values_ignores_the_extra_ones() {
    let format = String::from("a{}b");
    let values = vec![String::from("X"), String::from("Y")];
    assert_eq!(interpolate(&format, values).unwrap(), "aXb");
}

#[test]
fn interpolation_keeps_non_ascii_text() {
    let format = String::from("zażółć {} gęślą");
    assert_eq!(interpolate(&format, vec![String::from("jaźń")]).unwrap(), "zażółć jaźń gęślą");
}

#[test]
fn derived_placeholder_is_filled_by_custom_pattern() {
    let text = String::from("[{b}] fix");
    assert_eq!(validate_interpolation_places_on_custom_pattern(&text, 1, "{b}"), Ok(()));
    assert_eq!(
        interpolate_on_custom_val(&text, vec![String::from("42")], "{b}").unwrap(),
        "[42] fix"
    );
    assert_eq!(
        validate_interpolation_places_on_custom_pattern(&String::from("fix"), 1, "{b}"),
        Err(HelperError::CountMismatch { expected: 0, received: 1 })
    );
}
