use imgdiff::compare::{compare_decoded, missing_file_outcome, DecodedImage, EPS};
use imgdiff::outcome::ComparisonOutcome;

fn image(width: u32, height: u32, color: u32, bytes: Vec<u8>) -> DecodedImage {
    DecodedImage { width, height, color, bytes }
}

#[test]
fn identical_images_succeed() {
    let a = image(2, 2, 3, vec![0, 50, 100, 200, 255, 7, 8, 9]);
    let b = image(2, 2, 3, vec![0, 50, 100, 200, 255, 7, 8, 9]);
    assert_eq!(compare_decoded(&a, &b, "out.png"), ComparisonOutcome::Success);
}

#[test]
fn difference_of_exactly_eps_passes() {
    let a = image(2, 1, 0, vec![10, 250]);
    let b = image(2, 1, 0, vec![10 + EPS, 250 - EPS]);
    assert_eq!(compare_decoded(&a, &b, "out.png"), ComparisonOutcome::Success);
}

#[test]
fn difference_of_eps_plus_one_fails() {
    let a = image(2, 1, 0, vec![10, 20]);
    let b = image(2, 1, 0, vec![10, 20 + EPS + 1]);
    let r = compare_decoded(&a, &b, "out.png");
    assert_eq!(
        r,
        ComparisonOutcome::ToleranceExceeded(String::from("out.png"), EPS + 1, 100 / 2, 100 % 2)
    );
}

#[test]
fn first_violating_position_is_reported() {
    // Positions 1 and 3 both violate; the difference at position 1 is reported.
    let a = image(4, 1, 0, vec![0, 100, 0, 200]);
    let b = image(4, 1, 0, vec![1, 110, 2, 100]);
    let r = compare_decoded(&a, &b, "x.png");
    assert_eq!(
        r,
        ComparisonOutcome::ToleranceExceeded(String::from("x.png"), 10, 100 / 4, 100 % 4)
    );
}

#[test]
fn reported_coordinates_use_the_width_placeholder() {
    let a = image(7, 1, 0, vec![0; 7]);
    let b = image(7, 1, 0, vec![255; 7]);
    let r = compare_decoded(&a, &b, "wide.png");
    assert_eq!(
        r,
        ComparisonOutcome::ToleranceExceeded(String::from("wide.png"), 255, 100 / 7, 100 % 7)
    );
}

#[test]
fn size_mismatch_carries_both_dimension_pairs() {
    let a = image(1920, 1080, 0, vec![0; 4]);
    let b = image(1280, 720, 0, vec![0; 4]);
    assert_eq!(
        compare_decoded(&a, &b, "out.png"),
        ComparisonOutcome::SizeMismatch((1920, 1080), (1280, 720))
    );
}

#[test]
fn size_is_checked_before_format() {
    let a = image(2, 2, 0, vec![0; 4]);
    let b = image(2, 3, 9, vec![0; 6]);
    assert_eq!(
        compare_decoded(&a, &b, "out.png"),
        ComparisonOutcome::SizeMismatch((2, 2), (2, 3))
    );
}

#[test]
fn format_mismatch_when_only_color_tags_differ() {
    let a = image(2, 2, 2, vec![0; 12]);
    let b = image(2, 2, 3, vec![0; 16]);
    assert_eq!(compare_decoded(&a, &b, "out.png"), ComparisonOutcome::FormatMismatch);
}

#[test]
fn only_shared_positions_are_compared() {
    let a = image(2, 2, 0, vec![10, 10]);
    let b = image(2, 2, 0, vec![11, 9, 200]);
    assert_eq!(compare_decoded(&a, &b, "out.png"), ComparisonOutcome::Success);
}

#[test]
fn empty_images_succeed() {
    let a = image(0, 0, 0, vec![]);
    let b = image(0, 0, 0, vec![]);
    assert_eq!(compare_decoded(&a, &b, "out.png"), ComparisonOutcome::Success);
}

#[test]
fn missing_reference_wins_whatever_the_output() {
    let r = missing_file_outcome(false, true, "a.png", "b.png");
    assert_eq!(r, Some(ComparisonOutcome::ReferenceMissing(String::from("a.png"))));
    let r = missing_file_outcome(false, false, "a.png", "b.png");
    assert_eq!(r, Some(ComparisonOutcome::ReferenceMissing(String::from("a.png"))));
}

#[test]
fn missing_output_reported_when_reference_exists() {
    let r = missing_file_outcome(true, false, "a.png", "b.png");
    assert_eq!(r, Some(ComparisonOutcome::OutputMissing(String::from("b.png"))));
}

#[test]
fn both_files_present_defers_to_decoding() {
    assert_eq!(missing_file_outcome(true, true, "a.png", "b.png"), None);
}
