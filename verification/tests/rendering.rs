use imgdiff::outcome::ComparisonOutcome;
use imgdiff::render::render_outcome;

#[test]
fn success_renders_as_an_empty_line() {
    assert_eq!(render_outcome(&ComparisonOutcome::Success), "");
}

#[test]
fn size_mismatch_renders_both_dimension_pairs() {
    let oc = ComparisonOutcome::SizeMismatch((1920, 1080), (1280, 720));
    assert_eq!(render_outcome(&oc), "Mismatched sizes: (1920, 1080) vs (1280, 720)");
}

#[test]
fn zero_dimensions_render_with_a_zero_digit() {
    let oc = ComparisonOutcome::SizeMismatch((0, 10), (100, 0));
    assert_eq!(render_outcome(&oc), "Mismatched sizes: (0, 10) vs (100, 0)");
}

#[test]
fn missing_output_renders_its_path() {
    let oc = ComparisonOutcome::OutputMissing(String::from("b.png"));
    assert_eq!(render_outcome(&oc), "b.png was not found");
}

#[test]
fn missing_reference_renders_its_path() {
    let oc = ComparisonOutcome::ReferenceMissing(String::from("a.png"));
    assert_eq!(render_outcome(&oc), "a.png ref is missing");
}

#[test]
fn tolerance_failure_renders_difference_and_coordinates() {
    let oc = ComparisonOutcome::ToleranceExceeded(String::from("o.png"), 42, 50, 0);
    assert_eq!(
        render_outcome(&oc),
        "File o.png has a differnce more than 5 (42) at 50, 0"
    );
}

#[test]
fn format_mismatch_renders_its_fixed_line() {
    assert_eq!(
        render_outcome(&ComparisonOutcome::FormatMismatch),
        "The images are not the same type"
    );
}
