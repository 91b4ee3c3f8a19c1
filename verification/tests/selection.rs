use imgdiff::orchestrate::first_failure;
use imgdiff::outcome::ComparisonOutcome;
use imgdiff::render::render_outcome;

#[test]
fn zero_entries_report_success_and_an_empty_line() {
    let r = first_failure(Vec::new());
    assert_eq!(r, ComparisonOutcome::Success);
    assert_eq!(render_outcome(&r), "");
}

#[test]
fn all_successes_report_success() {
    let r = first_failure(vec![
        ComparisonOutcome::Success,
        ComparisonOutcome::Success,
        ComparisonOutcome::Success,
    ]);
    assert_eq!(r, ComparisonOutcome::Success);
}

#[test]
fn single_failure_among_three_is_reported() {
    // Entries 0 and 1 succeed; only entry 2 fails on tolerance, and its
    // outcome is the one reported.
    let failing = ComparisonOutcome::ToleranceExceeded(String::from("c.png"), 9, 25, 0);
    let r = first_failure(vec![
        ComparisonOutcome::Success,
        ComparisonOutcome::Success,
        ComparisonOutcome::ToleranceExceeded(String::from("c.png"), 9, 25, 0),
    ]);
    assert_eq!(r, failing);
}

#[test]
fn earliest_launched_failure_wins() {
    let r = first_failure(vec![
        ComparisonOutcome::Success,
        ComparisonOutcome::FormatMismatch,
        ComparisonOutcome::ReferenceMissing(String::from("a.png")),
    ]);
    assert_eq!(r, ComparisonOutcome::FormatMismatch);
}
