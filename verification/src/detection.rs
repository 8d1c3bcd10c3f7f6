//! Pixel classification and cue location on raw RGBA frames.
//!
//! A frame is a row-major byte buffer with four bytes per pixel (red, green,
//! blue, alpha). A cue is located by collecting the coordinates of every pixel
//! whose colour satisfies the cue's rule and reducing them to a centroid and a
//! confidence. Each call is stateless and looks at one frame only.

use crate::types::Confidence;
use rayon::iter::{IntoParallelIterator, ParallelIterator};
use vstd::prelude::*;

verus! {

/// The two colour-coded cues that the overlay draws.
#[derive(Debug, Clone, Copy, PartialEq, Eq, Structural)]
pub enum CueKind {
    /// The bright yellow arrow.
    Arrow,
    /// The cyan highlight.
    Highlight,
}

impl CueKind {
    /// The colour rule of the cue.
    pub open spec fn accepts(self, r: u8, g: u8, b: u8) -> bool {
        match self {
            CueKind::Arrow => r > 200 && g > 200 && b < 80,
            CueKind::Highlight => r < 80 && g > 180 && b > 180,
        }
    }

    /// The fewest matching pixels for which the cue counts as found.
    pub open spec fn min_support(self) -> nat {
        match self {
            CueKind::Arrow => 10,
            CueKind::Highlight => 20,
        }
    }

    /// The pixel count at which the confidence reaches one.
    pub open spec fn normalizer(self) -> u32 {
        match self {
            CueKind::Arrow => 500,
            CueKind::Highlight => 1000,
        }
    }

    /// Tests one colour against the cue's rule.
    pub fn matches_color(self, r: u8, g: u8, b: u8) -> (hit: bool)
        ensures
            hit == self.accepts(r, g, b),
    {
        match self {
            CueKind::Arrow => r > 200 && g > 200 && b < 80,
            CueKind::Highlight => r < 80 && g > 180 && b > 180,
        }
    }

    /// The minimum-support threshold of the cue.
    pub fn support_threshold(self) -> (n: usize)
        ensures
            n == self.min_support(),
    {
        match self {
            CueKind::Arrow => 10,
            CueKind::Highlight => 20,
        }
    }

    /// The confidence normalizer of the cue.
    pub fn confidence_normalizer(self) -> (n: u32)
        ensures
            n == self.normalizer(),
            n > 0,
    {
        match self {
            CueKind::Arrow => 500,
            CueKind::Highlight => 1000,
        }
    }
}

/// Whether pixel number `i` of the frame satisfies the cue's colour rule.
pub open spec fn pixel_matches(img: Seq<u8>, i: int, cue: CueKind) -> bool {
    cue.accepts(img[4 * i], img[4 * i + 1], img[4 * i + 2])
}

/// The column and row of pixel number `i` in a frame `width` pixels wide.
pub open spec fn pixel_coord(i: int, width: nat) -> (usize, usize) {
    ((i % width as int) as usize, (i / width as int) as usize)
}

/// The coordinates of the matching pixels among the first `n` pixels of the
/// frame, in scan order.
pub open spec fn matches_upto(img: Seq<u8>, width: nat, cue: CueKind, n: nat) -> Seq<
    (usize, usize),
>
    decreases n,
{
    if n == 0 {
        Seq::empty()
    } else {
        let before = matches_upto(img, width, cue, (n - 1) as nat);
        if pixel_matches(img, n - 1, cue) {
            before.push(pixel_coord(n - 1, width))
        } else {
            before
        }
    }
}

/// The sum of the columns of a sequence of coordinates.
pub open spec fn sum_x(pts: Seq<(usize, usize)>) -> nat
    decreases pts.len(),
{
    if pts.len() == 0 {
        0
    } else {
        sum_x(pts.drop_last()) + pts.last().0 as nat
    }
}

/// The sum of the rows of a sequence of coordinates.
pub open spec fn sum_y(pts: Seq<(usize, usize)>) -> nat
    decreases pts.len(),
{
    if pts.len() == 0 {
        0
    } else {
        sum_y(pts.drop_last()) + pts.last().1 as nat
    }
}

/// The centroid and confidence of a set of matched coordinates, or nothing
/// when there are fewer of them than the cue's minimum support.
///
/// Each coordinate of the centroid is the mean over the matches, rounded
/// down, as a 32-bit signed integer: the mean itself wherever it fits, which
/// it does in every frame whose sides such an integer can index, and its low
/// 32 bits in two's complement otherwise.
pub open spec fn reduce(pts: Seq<(usize, usize)>, cue: CueKind) -> Option<(i32, i32, Confidence)> {
    if pts.len() < cue.min_support() {
        None
    } else {
        Some(
            (
                (sum_x(pts) / pts.len()) as i32,
                (sum_y(pts) / pts.len()) as i32,
                Confidence::saturating(pts.len(), cue.normalizer()),
            ),
        )
    }
}

/// What locating a cue in a `width` by `height` frame yields.
///
/// A buffer shorter than `width * height * 4` bytes yields nothing.
pub open spec fn locate(img: Seq<u8>, width: u32, height: u32, cue: CueKind) -> Option<
    (i32, i32, Confidence),
> {
    let total = width as nat * height as nat;
    if img.len() < total * 4 {
        None
    } else {
        reduce(matches_upto(img, width as nat, cue, total), cue)
    }
}

/// Classifies one pixel: its coordinates if its colour satisfies the cue's
/// rule, nothing otherwise.
pub fn classify_pixel(img_data: &[u8], i: usize, pixels_per_row: usize, cue: CueKind) -> (hit:
    Option<(usize, usize)>)
    requires
        4 * i + 2 < img_data@.len(),
        pixels_per_row > 0,
    ensures
        hit == if pixel_matches(img_data@, i as int, cue) {
            Some(pixel_coord(i as int, pixels_per_row as nat))
        } else {
            None
        },
{
    let len = img_data.len();
    assert(4 * i + 2 < len);
    let offset = i * 4;
    let r = img_data[offset];
    let g = img_data[offset + 1];
    let b = img_data[offset + 2];
    if cue.matches_color(r, g, b) {
        Some((i % pixels_per_row, i / pixels_per_row))
    } else {
        None
    }
}

/// Runs `classify_pixel` over the first `total_pixels` pixels on rayon's
/// thread pool (`into_par_iter`, `filter_map`, `collect`).
///
/// Trusted: the collected vector holds the hits in the order of the pixel
/// numbers, as a sequential `filter_map` over the same range would.
#[verifier::external_body]
fn scan_matches(img_data: &[u8], total_pixels: usize, pixels_per_row: usize, cue: CueKind) -> (pts:
    Vec<(usize, usize)>)
    requires
        total_pixels * 4 <= img_data@.len(),
        total_pixels > 0 ==> pixels_per_row > 0,
    ensures
        pts@ == matches_upto(img_data@, pixels_per_row as nat, cue, total_pixels as nat),
{
    (0..total_pixels).into_par_iter().filter_map(
        |i| classify_pixel(img_data, i, pixels_per_row, cue),
    ).collect()
}

/// Every prefix sum of the columns is bounded by the number of points times
/// the largest index.
proof fn lemma_sums_bounded(pts: Seq<(usize, usize)>)
    ensures
        sum_x(pts) <= pts.len() * usize::MAX,
        sum_y(pts) <= pts.len() * usize::MAX,
    decreases pts.len(),
{
    if pts.len() > 0 {
        lemma_sums_bounded(pts.drop_last());
        assert(pts.len() * usize::MAX == pts.drop_last().len() * usize::MAX + usize::MAX)
            by (nonlinear_arith)
            requires
                pts.len() == pts.drop_last().len() + 1,
        ;
    }
}

/// Reduces matched coordinates to a centroid and a confidence.
pub fn reduce_matches(pts: &Vec<(usize, usize)>, cue: CueKind) -> (found: Option<
    (i32, i32, Confidence),
>)
    ensures
        found == reduce(pts@, cue),
{
    let count = pts.len();
    if count < cue.support_threshold() {
        return None;
    }
    let mut total_x: u128 = 0;
    let mut total_y: u128 = 0;
    let mut k: usize = 0;
    while k < count
        invariant
            k <= count,
            count == pts@.len(),
            total_x == sum_x(pts@.take(k as int)),
            total_y == sum_y(pts@.take(k as int)),
        decreases count - k,
    {
        proof {
            let next = pts@.take(k + 1);
            assert(next.drop_last() =~= pts@.take(k as int));
            lemma_sums_bounded(next);
            assert(next.len() * usize::MAX <= usize::MAX * usize::MAX) by (nonlinear_arith)
                requires
                    next.len() <= usize::MAX,
            ;
            assert(usize::MAX * usize::MAX < u128::MAX) by (nonlinear_arith);
        }
        let p = pts[k];
        total_x = total_x + p.0 as u128;
        total_y = total_y + p.1 as u128;
        k = k + 1;
    }
    proof {
        assert(pts@.take(count as int) =~= pts@);
    }
    let center_x = #[verifier::truncate] ((total_x / count as u128) as i32);
    let center_y = #[verifier::truncate] ((total_y / count as u128) as i32);
    Some((center_x, center_y, Confidence::from_count(count, cue.confidence_normalizer())))
}

/// Locates one cue in a frame.
pub fn locate_cue(img_data: &[u8], width: u32, height: u32, cue: CueKind) -> (found: Option<
    (i32, i32, Confidence),
>)
    ensures
        found == locate(img_data@, width, height, cue),
{
    assert(width as nat * height as nat <= 0xFFFF_FFFE_0000_0001) by (nonlinear_arith)
        requires
            width <= 0xFFFF_FFFF,
            height <= 0xFFFF_FFFF,
    ;
    let total: u64 = width as u64 * height as u64;
    if (img_data.len() as u128) < total as u128 * 4 {
        return None;
    }
    assert(width == 0 ==> width as nat * height as nat == 0) by (nonlinear_arith);
    let total_pixels = total as usize;
    let pts = scan_matches(img_data, total_pixels, width as usize, cue);
    reduce_matches(&pts, cue)
}

/// Finds the yellow arrow: red above 200, green above 200, blue below 80, at
/// least 10 such pixels, confidence `min(count / 500, 1)`.
pub fn find_yellow_arrow(img_data: &[u8], width: u32, height: u32) -> (found: Option<
    (i32, i32, Confidence),
>)
    ensures
        found == locate(img_data@, width, height, CueKind::Arrow),
{
    locate_cue(img_data, width, height, CueKind::Arrow)
}

/// Finds the cyan highlight: red below 80, green above 180, blue above 180,
/// at least 20 such pixels, confidence `min(count / 1000, 1)`.
pub fn find_cyan_highlight(img_data: &[u8], width: u32, height: u32) -> (found: Option<
    (i32, i32, Confidence),
>)
    ensures
        found == locate(img_data@, width, height, CueKind::Highlight),
{
    locate_cue(img_data, width, height, CueKind::Highlight)
}

/// How many of the first `n` pixels of the frame satisfy the cue's rule.
pub open spec fn matching_count(img: Seq<u8>, cue: CueKind, n: nat) -> nat
    decreases n,
{
    if n == 0 {
        0
    } else {
        matching_count(img, cue, (n - 1) as nat) + if pixel_matches(img, n - 1, cue) {
            1nat
        } else {
            0nat
        }
    }
}

/// The matched coordinates are as many as the matching pixels, whatever the
/// width of the frame.
pub proof fn lemma_matches_len(img: Seq<u8>, width: nat, cue: CueKind, n: nat)
    ensures
        matches_upto(img, width, cue, n).len() == matching_count(img, cue, n),
    decreases n,
{
    if n > 0 {
        lemma_matches_len(img, width, cue, (n - 1) as nat);
    }
}

/// Every matched coordinate is the position of a matching pixel of the frame:
/// its column is below the width and its row below the height.
pub proof fn lemma_matches_in_frame(img: Seq<u8>, width: nat, height: nat, cue: CueKind, n: nat)
    requires
        n <= width * height,
        width <= usize::MAX,
        height <= usize::MAX,
    ensures
        forall|j: int|
            0 <= j < matches_upto(img, width, cue, n).len() ==> {
                let p = #[trigger] matches_upto(img, width, cue, n)[j];
                p.0 < width && p.1 < height
            },
    decreases n,
{
    if n > 0 {
        lemma_matches_in_frame(img, width, height, cue, (n - 1) as nat);
        let i = (n - 1) as int;
        assert(width > 0) by (nonlinear_arith)
            requires
                0 < n <= width * height,
        ;
        let w = width as int;
        assert(0 <= i / w && i / w < height) by (nonlinear_arith)
            requires
                0 <= i < w * height,
                w > 0,
        ;
        assert(0 <= i % w && i % w < w);
        let before = matches_upto(img, width, cue, (n - 1) as nat);
        let all = matches_upto(img, width, cue, n);
        assert forall|j: int| 0 <= j < all.len() implies {
            let p = #[trigger] all[j];
            p.0 < width && p.1 < height
        } by {
            if j < before.len() {
                assert(all[j] == before[j]);
            } else {
                assert(all[j] == pixel_coord(i, width));
            }
        }
    }
}

/// The sums of coordinates that all lie in `[lo, hi]` lie between `lo` and
/// `hi` times their number.
proof fn lemma_sum_x_between(pts: Seq<(usize, usize)>, lo: nat, hi: nat)
    requires
        forall|j: int| 0 <= j < pts.len() ==> lo <= (#[trigger] pts[j]).0 <= hi,
    ensures
        lo * pts.len() <= sum_x(pts) <= hi * pts.len(),
    decreases pts.len(),
{
    if pts.len() > 0 {
        let rest = pts.drop_last();
        assert forall|j: int| 0 <= j < rest.len() implies lo <= (#[trigger] rest[j]).0 <= hi by {
            assert(rest[j] == pts[j]);
        }
        lemma_sum_x_between(rest, lo, hi);
        assert(lo * pts.len() == lo * rest.len() + lo && hi * pts.len() == hi * rest.len() + hi)
            by (nonlinear_arith)
            requires
                pts.len() == rest.len() + 1,
        ;
    }
}

proof fn lemma_sum_y_between(pts: Seq<(usize, usize)>, lo: nat, hi: nat)
    requires
        forall|j: int| 0 <= j < pts.len() ==> lo <= (#[trigger] pts[j]).1 <= hi,
    ensures
        lo * pts.len() <= sum_y(pts) <= hi * pts.len(),
    decreases pts.len(),
{
    if pts.len() > 0 {
        let rest = pts.drop_last();
        assert forall|j: int| 0 <= j < rest.len() implies lo <= (#[trigger] rest[j]).1 <= hi by {
            assert(rest[j] == pts[j]);
        }
        lemma_sum_y_between(rest, lo, hi);
        assert(lo * pts.len() == lo * rest.len() + lo && hi * pts.len() == hi * rest.len() + hi)
            by (nonlinear_arith)
            requires
                pts.len() == rest.len() + 1,
        ;
    }
}

/// A mean lies between the bounds of what it averages.
proof fn lemma_mean_between(sum: nat, len: nat, lo: nat, hi: nat)
    by (nonlinear_arith)
    requires
        len > 0,
        lo * len <= sum <= hi * len,
    ensures
        lo <= sum / len <= hi,
{
}

/// The centroid lies in the bounding box of the matches: where every matched
/// column lies in `[x_lo, x_hi]` and every matched row in `[y_lo, y_hi]`, with
/// bounds that a 32-bit signed integer holds, so do the centroid's column and
/// row.
pub proof fn lemma_centroid_in_bounding_box(
    pts: Seq<(usize, usize)>,
    cue: CueKind,
    x_lo: nat,
    x_hi: nat,
    y_lo: nat,
    y_hi: nat,
)
    requires
        x_hi <= i32::MAX,
        y_hi <= i32::MAX,
        forall|j: int| 0 <= j < pts.len() ==> x_lo <= (#[trigger] pts[j]).0 <= x_hi,
        forall|j: int| 0 <= j < pts.len() ==> y_lo <= (#[trigger] pts[j]).1 <= y_hi,
    ensures
        reduce(pts, cue) matches Some(found) ==> {
            &&& x_lo <= found.0 <= x_hi
            &&& y_lo <= found.1 <= y_hi
            &&& found.0 == sum_x(pts) / pts.len()
            &&& found.1 == sum_y(pts) / pts.len()
        },
{
    if pts.len() >= cue.min_support() {
        lemma_sum_x_between(pts, x_lo, x_hi);
        lemma_sum_y_between(pts, y_lo, y_hi);
        lemma_mean_between(sum_x(pts), pts.len(), x_lo, x_hi);
        lemma_mean_between(sum_y(pts), pts.len(), y_lo, y_hi);
    }
}

/// A cue is found exactly when the buffer covers the frame and at least the
/// cue's minimum support of its pixels match: a frame with fewer matching
/// pixels yields nothing, whatever else it holds.
pub proof fn lemma_found_iff_supported(img: Seq<u8>, width: u32, height: u32, cue: CueKind)
    ensures
        locate(img, width, height, cue) is Some <==> {
            &&& img.len() >= width as nat * height as nat * 4
            &&& matching_count(img, cue, width as nat * height as nat) >= cue.min_support()
        },
{
    lemma_matches_len(img, width as nat, cue, width as nat * height as nat);
}

/// The confidence of a found cue is `min(count / normalizer, 1)` over the
/// matching pixels of the frame: a fraction in `[0, 1]` that reaches one
/// exactly when the count reaches the normalizer.
pub proof fn lemma_found_confidence(img: Seq<u8>, width: u32, height: u32, cue: CueKind)
    ensures
        locate(img, width, height, cue) matches Some(found) ==> {
            let count = matching_count(img, cue, width as nat * height as nat);
            &&& found.2 == Confidence::saturating(count, cue.normalizer())
            &&& found.2.wf()
            &&& found.2.is_full() <==> count >= cue.normalizer()
        },
{
    lemma_matches_len(img, width as nat, cue, width as nat * height as nat);
}

/// In a frame whose sides a 32-bit signed integer can index, the centroid of
/// a found cue is a position of the frame, and each of its coordinates is the
/// mean over the matches, rounded down.
pub proof fn lemma_found_in_frame(img: Seq<u8>, width: u32, height: u32, cue: CueKind)
    requires
        width <= 0x8000_0000,
        height <= 0x8000_0000,
    ensures
        locate(img, width, height, cue) matches Some(found) ==> {
            let pts = matches_upto(img, width as nat, cue, width as nat * height as nat);
            &&& 0 <= found.0 < width
            &&& 0 <= found.1 < height
            &&& found.0 == sum_x(pts) / pts.len()
            &&& found.1 == sum_y(pts) / pts.len()
        },
{
    let total = width as nat * height as nat;
    let pts = matches_upto(img, width as nat, cue, total);
    if locate(img, width, height, cue) is Some {
        assert(pts.len() > 0);
        lemma_matches_in_frame(img, width as nat, height as nat, cue, total);
        assert(width > 0 && height > 0) by {
            let p = pts[0];
            assert(p.0 < width && p.1 < height);
        }
        lemma_centroid_in_bounding_box(
            pts,
            cue,
            0,
            (width - 1) as nat,
            0,
            (height - 1) as nat,
        );
    }
}

/// Taking one point out of a sequence takes its column and its row out of
/// the sums.
proof fn lemma_sums_remove(pts: Seq<(usize, usize)>, i: int)
    requires
        0 <= i < pts.len(),
    ensures
        sum_x(pts) == sum_x(pts.remove(i)) + pts[i].0,
        sum_y(pts) == sum_y(pts.remove(i)) + pts[i].1,
    decreases pts.len(),
{
    if i == pts.len() - 1 {
        assert(pts.remove(i) =~= pts.drop_last());
    } else {
        lemma_sums_remove(pts.drop_last(), i);
        assert(pts.remove(i).drop_last() =~= pts.drop_last().remove(i));
        assert(pts.remove(i).last() == pts.last());
    }
}

/// The sums and the number of the points are those of any rearrangement.
proof fn lemma_sums_rearranged(a: Seq<(usize, usize)>, b: Seq<(usize, usize)>)
    requires
        a.to_multiset() == b.to_multiset(),
    ensures
        a.len() == b.len(),
        sum_x(a) == sum_x(b),
        sum_y(a) == sum_y(b),
    decreases a.len(),
{
    a.to_multiset_ensures();
    b.to_multiset_ensures();
    if a.len() > 0 {
        let p = a.last();
        assert(a.contains(p));
        assert(a.to_multiset().count(p) > 0);
        assert(b.to_multiset().count(p) > 0);
        assert(b.contains(p));
        let i = b.index_of(p);
        assert(a.remove(a.len() - 1) =~= a.drop_last());
        assert(a.drop_last().to_multiset() =~= b.remove(i).to_multiset());
        lemma_sums_rearranged(a.drop_last(), b.remove(i));
        lemma_sums_remove(b, i);
    }
}

/// The reduction is a sum over the matches and their number, so it does not
/// depend on the order in which the matches were collected.
pub proof fn lemma_reduce_any_order(a: Seq<(usize, usize)>, b: Seq<(usize, usize)>, cue: CueKind)
    requires
        a.to_multiset() == b.to_multiset(),
    ensures
        reduce(a, cue) == reduce(b, cue),
{
    lemma_sums_rearranged(a, b);
}

} // verus!
