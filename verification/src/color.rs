//! Colour analysis of captured RGBA pixels.
use vstd::prelude::*;
use crate::config::{Config, RATIO_ONE};

verus! {

/// Colour detection.
pub struct ColorDetector;

/// Channel totals of the whole RGBA pixels of a capture.
///
/// The average of a channel is its total divided by `pixel_count` (zero when
/// there is no pixel); the blue share of the average colour is
/// `total_blue / (total_red + total_green + total_blue)` (zero when that sum is
/// zero).
#[derive(Clone, Copy, Debug, PartialEq, Eq, Structural)]
pub struct ColorAnalysis {
    pub total_red: u64,
    pub total_green: u64,
    pub total_blue: u64,
    pub pixel_count: u64,
}

/// Number of whole 4-byte pixels in `pixels`; a trailing partial pixel is ignored.
pub open spec fn whole_pixels(pixels: Seq<u8>) -> nat {
    pixels.len() / 4
}

/// Sum of channel `c` (0 red, 1 green, 2 blue) over the first `n` pixels.
pub open spec fn channel_total(pixels: Seq<u8>, n: nat, c: int) -> int
    decreases n,
{
    if n == 0 {
        0
    } else {
        channel_total(pixels, (n - 1) as nat, c) + pixels[4 * (n - 1) + c]
    }
}

/// Sum of channel `c` over all whole pixels.
pub open spec fn pixels_total(pixels: Seq<u8>, c: int) -> int {
    channel_total(pixels, whole_pixels(pixels), c)
}

/// The channel sums of `pixels` fit the 64-bit totals.
pub open spec fn totals_fit(pixels: Seq<u8>) -> bool {
    &&& pixels_total(pixels, 0) <= u64::MAX
    &&& pixels_total(pixels, 1) <= u64::MAX
    &&& pixels_total(pixels, 2) <= u64::MAX
}

/// The analysis that `ColorDetector::analyze_colors` gives for `pixels`.
pub open spec fn spec_analysis(pixels: Seq<u8>) -> ColorAnalysis {
    ColorAnalysis {
        total_red: pixels_total(pixels, 0) as u64,
        total_green: pixels_total(pixels, 1) as u64,
        total_blue: pixels_total(pixels, 2) as u64,
        pixel_count: whole_pixels(pixels) as u64,
    }
}

/// Whether a blue share of `blue / total` (zero when `total` is zero) reaches
/// the threshold `bp / RATIO_ONE`.
pub open spec fn share_reaches(blue: int, total: int, bp: int) -> bool {
    if total > 0 {
        blue * RATIO_ONE >= bp * total
    } else {
        0 >= bp
    }
}

impl ColorAnalysis {
    /// Sum of the three channel totals.
    pub open spec fn rgb_total(self) -> int {
        self.total_red + self.total_green + self.total_blue
    }

    /// Whether the blue share of the average colour reaches `bp` basis points.
    pub open spec fn blue_share_reaches(self, bp: int) -> bool {
        share_reaches(self.total_blue as int, self.rgb_total(), bp)
    }

    /// The analysis of no pixel at all.
    pub fn empty() -> (a: ColorAnalysis)
        ensures
            a == (ColorAnalysis { total_red: 0, total_green: 0, total_blue: 0, pixel_count: 0 }),
    {
        ColorAnalysis { total_red: 0, total_green: 0, total_blue: 0, pixel_count: 0 }
    }
}

/// A channel total grows with the number of pixels counted.
proof fn lemma_channel_total_monotone(pixels: Seq<u8>, i: nat, n: nat, c: int)
    requires
        i <= n,
    ensures
        channel_total(pixels, i, c) <= channel_total(pixels, n, c),
    decreases n,
{
    if i < n {
        lemma_channel_total_monotone(pixels, i, (n - 1) as nat, c);
    }
}

proof fn lemma_channel_total_bound(pixels: Seq<u8>, n: nat, c: int)
    requires
        4 * n <= pixels.len(),
        0 <= c < 4,
    ensures
        0 <= channel_total(pixels, n, c) <= 255 * n,
    decreases n,
{
    if n > 0 {
        lemma_channel_total_bound(pixels, (n - 1) as nat, c);
    }
}

/// A capture of at most `u64::MAX / 255` whole pixels can always be
/// analysed.
pub proof fn short_captures_fit(pixels: Seq<u8>)
    requires
        whole_pixels(pixels) <= u64::MAX / 255,
    ensures
        totals_fit(pixels),
{
    lemma_channel_total_bound(pixels, whole_pixels(pixels), 0);
    lemma_channel_total_bound(pixels, whole_pixels(pixels), 1);
    lemma_channel_total_bound(pixels, whole_pixels(pixels), 2);
}

/// Whether `pixels` holds at most `u64::MAX / 255` whole pixels, which is
/// enough for its channel sums to fit the 64-bit totals.
pub fn fits_totals(pixels: &[u8]) -> (b: bool)
    ensures
        b == (whole_pixels(pixels@) <= u64::MAX / 255),
        b ==> totals_fit(pixels@),
{
    let n: usize = pixels.len() / 4;
    let b = n as u128 <= (u64::MAX / 255) as u128;
    proof {
        if b {
            short_captures_fit(pixels@);
        }
    }
    b
}

impl ColorDetector {
    /// Sums the red, green and blue channels of the whole RGBA pixels in
    /// `pixels` and counts those pixels.
    pub fn analyze_colors(pixels: &[u8], _config: &Config) -> (a: ColorAnalysis)
        requires
            totals_fit(pixels@),
        ensures
            a == spec_analysis(pixels@),
    {
        let len: usize = pixels.len();
        let n: usize = len / 4;
        let mut total_red: u64 = 0;
        let mut total_green: u64 = 0;
        let mut total_blue: u64 = 0;
        let mut i: usize = 0;
        while i < n
            invariant
                len == pixels@.len(),
                n == whole_pixels(pixels@),
                i <= n,
                totals_fit(pixels@),
                total_red == channel_total(pixels@, i as nat, 0),
                total_green == channel_total(pixels@, i as nat, 1),
                total_blue == channel_total(pixels@, i as nat, 2),
            decreases n - i,
        {
            proof {
                lemma_channel_total_monotone(pixels@, (i + 1) as nat, n as nat, 0);
                lemma_channel_total_monotone(pixels@, (i + 1) as nat, n as nat, 1);
                lemma_channel_total_monotone(pixels@, (i + 1) as nat, n as nat, 2);
            }
            assert(4 * i + 3 < pixels@.len());
            let base: usize = 4 * i;
            total_red = total_red + pixels[base] as u64;
            total_green = total_green + pixels[base + 1] as u64;
            total_blue = total_blue + pixels[base + 2] as u64;
            i = i + 1;
        }
        ColorAnalysis { total_red, total_green, total_blue, pixel_count: n as u64 }
    }

    /// Whether the blue share of the analysed colour reaches the configured
    /// threshold.
    pub fn should_click(analysis: &ColorAnalysis, config: &Config) -> (b: bool)
        ensures
            b == analysis.blue_share_reaches(config.color_ratio_bp as int),
            ({
                let t = analysis.total_red + analysis.total_green + analysis.total_blue;
                b == if t > 0 {
                    analysis.total_blue * 10000 >= config.color_ratio_bp * t
                } else {
                    config.color_ratio_bp == 0
                }
            }),
    {
        let total: u128 = analysis.total_red as u128 + analysis.total_green as u128
            + analysis.total_blue as u128;
        let bp: u128 = config.color_ratio_bp as u128;
        if total > 0 {
            assert(bp * total <= 0xffff_ffff * 0x3_ffff_ffff_ffff_ffff) by (nonlinear_arith)
                requires
                    bp <= 0xffff_ffff,
                    total <= 0x3_ffff_ffff_ffff_ffff,
            ;
            let blue: u128 = analysis.total_blue as u128;
            blue * 10000 >= bp * total
        } else {
            bp == 0
        }
    }
}

proof fn lemma_channel_total_prefix(s1: Seq<u8>, s2: Seq<u8>, n: nat, c: int)
    requires
        0 <= c < 4,
        4 * n <= s1.len(),
        4 * n <= s2.len(),
        forall|i: int| 0 <= i < 4 * n ==> s1[i] == s2[i],
    ensures
        channel_total(s1, n, c) == channel_total(s2, n, c),
    decreases n,
{
    if n > 0 {
        lemma_channel_total_prefix(s1, s2, (n - 1) as nat, c);
        assert(s1[4 * (n - 1) + c] == s2[4 * (n - 1) + c]);
    }
}

proof fn lemma_channel_total_concat(p1: Seq<u8>, p2: Seq<u8>, k: nat, c: int)
    requires
        0 <= c < 4,
        p1.len() % 4 == 0,
        4 * k <= p2.len(),
    ensures
        channel_total(p1 + p2, p1.len() / 4 + k, c) == channel_total(p1, p1.len() / 4, c) + channel_total(p2, k, c),
    decreases k,
{
    let n1: nat = p1.len() / 4;
    if k == 0 {
        lemma_channel_total_prefix(p1 + p2, p1, n1, c);
    } else {
        lemma_channel_total_concat(p1, p2, (k - 1) as nat, c);
        assert((p1 + p2)[4 * (n1 + k - 1) + c] == p2[4 * (k - 1) + c]);
    }
}

/// Analysis adds up over captures of whole pixels: the channel totals and
/// the pixel count of two captures put one after the other are the sums of
/// those of each, when the first holds whole pixels only.
pub proof fn analysis_is_additive(p1: Seq<u8>, p2: Seq<u8>)
    requires
        p1.len() % 4 == 0,
    ensures
        whole_pixels(p1 + p2) == whole_pixels(p1) + whole_pixels(p2),
        pixels_total(p1 + p2, 0) == pixels_total(p1, 0) + pixels_total(p2, 0),
        pixels_total(p1 + p2, 1) == pixels_total(p1, 1) + pixels_total(p2, 1),
        pixels_total(p1 + p2, 2) == pixels_total(p1, 2) + pixels_total(p2, 2),
{
    assert(whole_pixels(p1 + p2) == whole_pixels(p1) + whole_pixels(p2));
    lemma_channel_total_concat(p1, p2, whole_pixels(p2), 0);
    lemma_channel_total_concat(p1, p2, whole_pixels(p2), 1);
    lemma_channel_total_concat(p1, p2, whole_pixels(p2), 2);
}

/// The blue share lies between 0 and 1: a threshold of 0 is always reached
/// and a threshold above one never is.
pub proof fn blue_share_is_a_fraction(a: ColorAnalysis, bp: int)
    ensures
        a.blue_share_reaches(0),
        bp > RATIO_ONE ==> !a.blue_share_reaches(bp),
{
    if bp > RATIO_ONE && a.rgb_total() > 0 {
        let t = a.rgb_total();
        let b = a.total_blue as int;
        assert(b * 10000 < bp * t) by (nonlinear_arith)
            requires 0 <= b <= t, t > 0, bp > 10000;
    }
}

/// Lowering the threshold never loses a match: a share that reaches `bp`
/// reaches every smaller threshold.
pub proof fn lower_threshold_keeps_match(a: ColorAnalysis, bp: int, lower: int)
    requires
        lower <= bp,
        a.blue_share_reaches(bp),
    ensures
        a.blue_share_reaches(lower),
{
    if a.rgb_total() > 0 {
        let t = a.rgb_total();
        assert(lower * t <= bp * t) by (nonlinear_arith)
            requires lower <= bp, t > 0;
    }
}

/// The whole pixels of `pixels`, each as its four bytes (red, green, blue,
/// alpha).
pub open spec fn pixels_of(pixels: Seq<u8>) -> Seq<(u8, u8, u8, u8)> {
    Seq::new(
        whole_pixels(pixels),
        |i: int| (pixels[4 * i], pixels[4 * i + 1], pixels[4 * i + 2], pixels[4 * i + 3]),
    )
}

/// Channel `c` (0 red, 1 green, 2 blue) of a pixel.
pub open spec fn channel_of(px: (u8, u8, u8, u8), c: int) -> int {
    if c == 0 {
        px.0 as int
    } else if c == 1 {
        px.1 as int
    } else {
        px.2 as int
    }
}

/// Adds channel `c` of a pixel to a running total.
pub open spec fn add_channel(c: int) -> spec_fn(int, (u8, u8, u8, u8)) -> int {
    |acc: int, px: (u8, u8, u8, u8)| acc + channel_of(px, c)
}

proof fn lemma_channel_total_is_fold(pixels: Seq<u8>, n: nat, c: int)
    requires
        0 <= c < 3,
        n <= whole_pixels(pixels),
    ensures
        channel_total(pixels, n, c) == pixels_of(pixels).take(n as int).fold_left(0, add_channel(c)),
    decreases n,
{
    let ps = pixels_of(pixels).take(n as int);
    if n > 0 {
        lemma_channel_total_is_fold(pixels, (n - 1) as nat, c);
        assert(ps.drop_last() =~= pixels_of(pixels).take(n - 1));
        assert(ps.last() == pixels_of(pixels)[n - 1]);
    } else {
        assert(ps =~= Seq::<(u8, u8, u8, u8)>::empty());
    }
}

/// Pixel order does not matter: two captures holding the same whole pixels,
/// in any order, have the same analysis.
pub proof fn reordered_pixels_same_analysis(p1: Seq<u8>, p2: Seq<u8>)
    requires
        pixels_of(p1).to_multiset() == pixels_of(p2).to_multiset(),
    ensures
        spec_analysis(p1) == spec_analysis(p2),
{
    broadcast use vstd::seq_lib::group_to_multiset_ensures;
    assert(whole_pixels(p1) == whole_pixels(p2)) by {
        vstd::seq_lib::to_multiset_len(pixels_of(p1));
        vstd::seq_lib::to_multiset_len(pixels_of(p2));
    }
    assert forall|c: int| 0 <= c < 3 implies pixels_total(p1, c) == pixels_total(p2, c) by {
        let f = add_channel(c);
        assert(vstd::seq_lib::commutative_foldl(f));
        lemma_channel_total_is_fold(p1, whole_pixels(p1), c);
        lemma_channel_total_is_fold(p2, whole_pixels(p2), c);
        assert(pixels_of(p1).take(whole_pixels(p1) as int) =~= pixels_of(p1));
        assert(pixels_of(p2).take(whole_pixels(p2) as int) =~= pixels_of(p2));
        vstd::seq_lib::lemma_fold_left_permutation(pixels_of(p1), pixels_of(p2), f, 0);
    }
    assert(pixels_total(p1, 0) == pixels_total(p2, 0));
    assert(pixels_total(p1, 1) == pixels_total(p2, 1));
    assert(pixels_total(p1, 2) == pixels_total(p2, 2));
}

/// Repeating a capture of whole pixels doubles its totals and its pixel
/// count, so the averages and the blue share stay as they were: every
/// threshold is reached by both or by neither.
pub proof fn repeated_capture_same_share(p: Seq<u8>, bp: int)
    requires
        p.len() % 4 == 0,
    ensures
        whole_pixels(p + p) == 2 * whole_pixels(p),
        pixels_total(p + p, 0) == 2 * pixels_total(p, 0),
        pixels_total(p + p, 1) == 2 * pixels_total(p, 1),
        pixels_total(p + p, 2) == 2 * pixels_total(p, 2),
        share_reaches(pixels_total(p + p, 2), pixels_total(p + p, 0) + pixels_total(p + p, 1) + pixels_total(p + p, 2), bp)
            == share_reaches(pixels_total(p, 2), pixels_total(p, 0) + pixels_total(p, 1) + pixels_total(p, 2), bp),
{
    analysis_is_additive(p, p);
    let b = pixels_total(p, 2);
    let t = pixels_total(p, 0) + pixels_total(p, 1) + pixels_total(p, 2);
    assert((2 * b) * 10000 >= bp * (2 * t) <==> b * 10000 >= bp * t) by (nonlinear_arith);
}

/// The blue share reaches a threshold exactly when blue, taken ten
/// thousand times, is at least the threshold (in basis points) times the sum
/// of the three channels; with no colour at all (a zero sum) the share is 0,
/// which reaches only a threshold of 0. Nothing else, such as which channel
/// is strongest, enters.
pub proof fn share_reached_by_fields(a: ColorAnalysis, bp: u32)
    ensures
        a.total_red + a.total_green + a.total_blue > 0 ==> (a.blue_share_reaches(bp as int)
            <==> a.total_blue * 10000 >= bp * (a.total_red + a.total_green + a.total_blue)),
        a.total_red + a.total_green + a.total_blue == 0 ==> (a.blue_share_reaches(bp as int) <==> bp == 0),
{
}

/// Scaling all three channel totals by the same factor changes no decision:
/// only the share of blue counts.
pub proof fn share_is_scale_free(a: ColorAnalysis, b: ColorAnalysis, k: int, bp: int)
    requires
        k > 0,
        b.total_red == k * a.total_red,
        b.total_green == k * a.total_green,
        b.total_blue == k * a.total_blue,
    ensures
        a.blue_share_reaches(bp) == b.blue_share_reaches(bp),
{
    let t = a.total_red + a.total_green + a.total_blue;
    let bl = a.total_blue as int;
    assert(b.rgb_total() == k * t) by (nonlinear_arith)
        requires
            b.total_red == k * a.total_red,
            b.total_green == k * a.total_green,
            b.total_blue == k * a.total_blue,
            t == a.total_red + a.total_green + a.total_blue;
    assert(k * t > 0 <==> t > 0) by (nonlinear_arith)
        requires k > 0, t >= 0;
    assert((k * bl) * 10000 >= bp * (k * t) <==> bl * 10000 >= bp * t) by (nonlinear_arith)
        requires k > 0;
}

} // verus!
