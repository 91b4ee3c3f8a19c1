use vstd::prelude::*;

use crate::compare::EPS;
use crate::outcome::ComparisonOutcome;

verus! {

/// The decimal digit character for `n`, defined for `0 <= n < 10`.
pub open spec fn dec_digit(n: int) -> char {
    ((48 + n) as u8) as char
}

/// The decimal text of `n`: its digits, most significant first, with no sign
/// and no leading zeros (`0` itself is the single digit `0`).
pub open spec fn dec_seq(n: nat) -> Seq<char>
    decreases n,
{
    if n < 10 {
        seq![dec_digit(n as int)]
    } else {
        dec_seq(n / 10).push(dec_digit((n % 10) as int))
    }
}

/// The debug-style text of a (width, height) pair: `(w, h)`.
pub open spec fn dims_text(d: (u32, u32)) -> Seq<char> {
    "("@ + dec_seq(d.0 as nat) + ", "@ + dec_seq(d.1 as nat) + ")"@
}

/// The one line reported for an outcome; empty for a success. The
/// misspelling in the tolerance line is part of the fixed output format.
pub open spec fn outcome_line(oc: ComparisonOutcome) -> Seq<char> {
    match oc {
        ComparisonOutcome::Success => Seq::empty(),
        ComparisonOutcome::ReferenceMissing(name) => name@ + " ref is missing"@,
        ComparisonOutcome::OutputMissing(name) => name@ + " was not found"@,
        ComparisonOutcome::SizeMismatch(a, b) => "Mismatched sizes: "@ + dims_text(a) + " vs "@
            + dims_text(b),
        ComparisonOutcome::FormatMismatch => "The images are not the same type"@,
        ComparisonOutcome::ToleranceExceeded(name, d, x, y) => "File "@ + name@
            + " has a differnce more than "@ + dec_seq(EPS as nat) + " ("@ + dec_seq(d as nat)
            + ") at "@ + dec_seq(x as nat) + ", "@ + dec_seq(y as nat),
    }
}

/// Relies on String::push: appends the one character at the end of the string.
#[verifier::external_body]
fn push_char(s: &mut String, c: char)
    ensures
        final (s)@ == old(s)@.push(c),
{
    s.push(c);
}

/// Relies on String::push_str: appends the string slice at the end of the string.
#[verifier::external_body]
fn push_text(s: &mut String, t: &str)
    ensures
        final (s)@ == old(s)@ + t@,
{
    s.push_str(t);
}

/// Appends the decimal text of `n`, most significant digit first.
fn push_dec(s: &mut String, n: u32)
    ensures
        final (s)@ == old(s)@ + dec_seq(n as nat),
    decreases n,
{
    if n >= 10 {
        proof {
            assert(n as nat / 10 < n as nat) by (nonlinear_arith)
                requires
                    n >= 10,
            ;
        }
        push_dec(s, n / 10);
    }
    let d: u8 = (n % 10) as u8 + 48;
    push_char(s, d as char);
    proof {
        assert(final (s)@ =~= old(s)@ + dec_seq(n as nat));
    }
}

/// Appends the debug-style text of a (width, height) pair.
fn push_dims(s: &mut String, d: (u32, u32))
    ensures
        final (s)@ == old(s)@ + dims_text(d),
{
    push_text(s, "(");
    push_dec(s, d.0);
    push_text(s, ", ");
    push_dec(s, d.1);
    push_text(s, ")");
    proof {
        assert(final (s)@ =~= old(s)@ + dims_text(d));
    }
}

/// Builds the one human-readable line for an outcome, exactly as it is
/// printed: an empty line stands for a success.
pub fn render_outcome(oc: &ComparisonOutcome) -> (line: String)
    ensures
        line@ == outcome_line(*oc),
{
    let mut s = String::new();
    match oc {
        ComparisonOutcome::Success => {},
        ComparisonOutcome::ReferenceMissing(name) => {
            push_text(&mut s, name.as_str());
            push_text(&mut s, " ref is missing");
        },
        ComparisonOutcome::OutputMissing(name) => {
            push_text(&mut s, name.as_str());
            push_text(&mut s, " was not found");
        },
        ComparisonOutcome::SizeMismatch(a, b) => {
            push_text(&mut s, "Mismatched sizes: ");
            push_dims(&mut s, *a);
            push_text(&mut s, " vs ");
            push_dims(&mut s, *b);
        },
        ComparisonOutcome::FormatMismatch => {
            push_text(&mut s, "The images are not the same type");
        },
        ComparisonOutcome::ToleranceExceeded(name, d, x, y) => {
            push_text(&mut s, "File ");
            push_text(&mut s, name.as_str());
            push_text(&mut s, " has a differnce more than ");
            push_dec(&mut s, EPS as u32);
            push_text(&mut s, " (");
            push_dec(&mut s, *d as u32);
            push_text(&mut s, ") at ");
            push_dec(&mut s, *x);
            push_text(&mut s, ", ");
            push_dec(&mut s, *y);
        },
    }
    proof {
        assert(s@ =~= outcome_line(*oc));
    }
    s
}

} // verus!
