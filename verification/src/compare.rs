use vstd::prelude::*;

use crate::outcome::ComparisonOutcome;

verus! {

/// Maximum allowed absolute per-channel byte difference: a shared sample
/// position whose two bytes differ by more than this fails the comparison.
pub const EPS: u8 = 5;

/// One decoded image: its geometry, a tag standing for its color format, and
/// the raw pixel samples in the fixed channel layout of that format.
#[derive(Debug, PartialEq, Eq)]
pub struct DecodedImage {
    pub width: u32,
    pub height: u32,
    /// An opaque code for the decoder's color format; two images share a
    /// format exactly when their codes are equal.
    pub color: u32,
    pub bytes: Vec<u8>,
}

impl DecodedImage {
    /// A decoder never hands back pixel bytes for an image with no pixels.
    pub open spec fn wf(self) -> bool {
        self.width == 0 || self.height == 0 ==> self.bytes@.len() == 0
    }

    pub open spec fn dims(self) -> (u32, u32) {
        (self.width, self.height)
    }
}

/// Absolute difference of two sample bytes.
pub open spec fn byte_diff(a: u8, b: u8) -> int {
    if a >= b {
        a - b
    } else {
        b - a
    }
}

/// Number of sample positions the two buffers share.
pub open spec fn common_len(a: Seq<u8>, b: Seq<u8>) -> int {
    if a.len() <= b.len() {
        a.len() as int
    } else {
        b.len() as int
    }
}

/// Every shared sample position differs by at most `EPS`.
pub open spec fn within_tolerance(a: Seq<u8>, b: Seq<u8>) -> bool {
    forall|i: int| 0 <= i < common_len(a, b) ==> byte_diff(a[i], b[i]) <= EPS
}

/// `i` is the first shared position whose samples differ by more than `EPS`.
pub open spec fn is_first_excess(a: Seq<u8>, b: Seq<u8>, i: int) -> bool {
    &&& 0 <= i < common_len(a, b)
    &&& byte_diff(a[i], b[i]) > EPS
    &&& forall|j: int| 0 <= j < i ==> byte_diff(a[j], b[j]) <= EPS
}

/// Classifies a pair before decoding: a missing reference file wins over a
/// missing output file, and a pair with both files present is not decided here.
pub fn missing_file_outcome(
    ref_exists: bool,
    out_exists: bool,
    path_ref: &str,
    path_out: &str,
) -> (r: Option<ComparisonOutcome>)
    ensures
        !ref_exists ==> (r matches Some(oc) && oc matches ComparisonOutcome::ReferenceMissing(p)
            && p@ == path_ref@),
        ref_exists && !out_exists ==> (r matches Some(oc)
            && oc matches ComparisonOutcome::OutputMissing(p) && p@ == path_out@),
        ref_exists && out_exists ==> r is None,
{
    if !ref_exists {
        Some(ComparisonOutcome::ReferenceMissing(path_ref.to_owned()))
    } else if !out_exists {
        Some(ComparisonOutcome::OutputMissing(path_out.to_owned()))
    } else {
        None
    }
}

/// Compares two decoded images: first geometry, then color format, then the
/// raw sample bytes position by position, stopping at the first position
/// whose bytes differ by more than `EPS`. The reported coordinates are the
/// fixed placeholder pair `(100 / width, 100 % width)`, a known reporting
/// defect that consumers of the output depend on: they do not locate the
/// failing sample.
pub fn compare_decoded(img_ref: &DecodedImage, img_out: &DecodedImage, path_out: &str) -> (r:
    ComparisonOutcome)
    requires
        img_ref.wf(),
        img_out.wf(),
    ensures
        r is Success <==> (img_ref.dims() == img_out.dims() && img_ref.color == img_out.color
            && within_tolerance(img_ref.bytes@, img_out.bytes@)),
        r is SizeMismatch <==> img_ref.dims() != img_out.dims(),
        r matches ComparisonOutcome::SizeMismatch(a, b) ==> a == img_ref.dims() && b
            == img_out.dims(),
        r is FormatMismatch <==> (img_ref.dims() == img_out.dims() && img_ref.color
            != img_out.color),
        r is ToleranceExceeded <==> (img_ref.dims() == img_out.dims() && img_ref.color
            == img_out.color && !within_tolerance(img_ref.bytes@, img_out.bytes@)),
        r matches ComparisonOutcome::ToleranceExceeded(p, d, x, y) ==> p@ == path_out@ && (
        exists|i: int|
            is_first_excess(img_ref.bytes@, img_out.bytes@, i) && d == byte_diff(
                img_ref.bytes@[i],
                img_out.bytes@[i],
            )) && img_ref.width > 0 && x == 100 as int / img_ref.width as int && y == 100 as int
            % img_ref.width as int,
{
    if img_ref.width != img_out.width || img_ref.height != img_out.height {
        return ComparisonOutcome::SizeMismatch(
            (img_ref.width, img_ref.height),
            (img_out.width, img_out.height),
        );
    }
    if img_ref.color != img_out.color {
        return ComparisonOutcome::FormatMismatch;
    }
    let n: usize = if img_ref.bytes.len() <= img_out.bytes.len() {
        img_ref.bytes.len()
    } else {
        img_out.bytes.len()
    };
    let mut i: usize = 0;
    while i < n
        invariant
            img_ref.width == img_out.width,
            img_ref.height == img_out.height,
            img_ref.color == img_out.color,
            n == common_len(img_ref.bytes@, img_out.bytes@),
            i <= n,
            n <= img_ref.bytes@.len(),
            n <= img_out.bytes@.len(),
            img_ref.wf(),
            forall|j: int| 0 <= j < i ==> byte_diff(img_ref.bytes@[j], img_out.bytes@[j]) <= EPS,
        decreases n - i,
    {
        let a: u8 = img_ref.bytes[i];
        let b: u8 = img_out.bytes[i];
        let d: u8 = if a >= b {
            a - b
        } else {
            b - a
        };
        if d > EPS {
            proof {
                assert(is_first_excess(img_ref.bytes@, img_out.bytes@, i as int));
            }
            return ComparisonOutcome::ToleranceExceeded(
                path_out.to_owned(),
                d,
                100 / img_ref.width,
                100 % img_ref.width,
            );
        }
        i += 1;
    }
    ComparisonOutcome::Success
}

/// Two byte-identical images (same dimensions, same format, same pixel
/// bytes) satisfy exactly the success condition of `compare_decoded`: their
/// comparison is a success.
pub proof fn lemma_identical_images_succeed(a: DecodedImage, b: DecodedImage)
    requires
        a.width == b.width,
        a.height == b.height,
        a.color == b.color,
        a.bytes@ == b.bytes@,
    ensures
        a.dims() == b.dims(),
        within_tolerance(a.bytes@, b.bytes@),
{
}

/// For a pair of the same geometry and format with a shared byte that
/// differs by more than `EPS`, the pair is out of tolerance: by the contract
/// of `compare_decoded` its outcome is a tolerance failure and never a
/// success.
pub proof fn lemma_excess_never_succeeds(a: DecodedImage, b: DecodedImage, i: int)
    requires
        a.dims() == b.dims(),
        a.color == b.color,
        0 <= i < common_len(a.bytes@, b.bytes@),
        byte_diff(a.bytes@[i], b.bytes@[i]) > EPS,
    ensures
        !within_tolerance(a.bytes@, b.bytes@),
{
}

/// A pair of the same geometry and format whose shared bytes all differ by
/// at most `EPS` (a difference of exactly `EPS` included) satisfies the
/// success condition of `compare_decoded`: its comparison is a success.
pub proof fn lemma_small_differences_succeed(a: DecodedImage, b: DecodedImage)
    requires
        a.dims() == b.dims(),
        a.color == b.color,
        forall|i: int|
            0 <= i < common_len(a.bytes@, b.bytes@) ==> byte_diff(a.bytes@[i], b.bytes@[i]) <= EPS,
    ensures
        within_tolerance(a.bytes@, b.bytes@),
{
}

} // verus!
