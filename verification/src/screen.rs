//! Cutting the detection region out of a captured screen image.
use vstd::prelude::*;

verus! {

/// Screen capture.
pub struct ScreenCapture;

/// A captured screen image: `height` rows of `width` RGBA pixels, top row first.
pub struct ScreenImage {
    pub width: u32,
    pub height: u32,
    pub rgba: Vec<u8>,
}

impl ScreenImage {
    /// The buffer holds exactly `width * height` RGBA pixels.
    pub open spec fn well_formed(&self) -> bool {
        self.rgba@.len() == 4 * (self.width * self.height)
    }
}

/// `v` reinterpreted as a 32-bit signed integer (two's complement).
pub open spec fn as_signed(v: u32) -> int {
    if v <= i32::MAX { v as int } else { v - 0x1_0000_0000 }
}

/// The requested region, clipped to the image, as
/// `(start_x, start_y, end_x, end_y)`; the ends are exclusive, and a region
/// that ends left of or above the image gets a negative end.
pub open spec fn clipped(x: int, y: int, width: u32, height: u32, screen_w: u32, screen_h: u32)
    -> (int, int, int, int) {
    let sx = if x > 0 { x } else { 0 };
    let sy = if y > 0 { y } else { 0 };
    let ex = x + as_signed(width);
    let ey = y + as_signed(height);
    let ex = if ex < screen_w { ex } else { screen_w as int };
    let ey = if ey < screen_h { ey } else { screen_h as int };
    (sx, sy, ex, ey)
}

/// The clipped region holds no pixel.
pub open spec fn region_is_empty(x: int, y: int, width: u32, height: u32, screen_w: u32, screen_h: u32) -> bool {
    let (sx, sy, ex, ey) = clipped(x, y, width, height, screen_w, screen_h);
    sx >= ex || sy >= ey
}

/// The inputs for which cutting the region is well defined: the region ends
/// fit in `i32`, and the byte count of a non-empty clipped region fits in
/// `u32`.
pub open spec fn region_request_ok(x: int, y: int, width: u32, height: u32, screen_w: u32, screen_h: u32) -> bool {
    let (sx, sy, ex, ey) = clipped(x, y, width, height, screen_w, screen_h);
    &&& i32::MIN <= x + as_signed(width) <= i32::MAX
    &&& i32::MIN <= y + as_signed(height) <= i32::MAX
    &&& !region_is_empty(x, y, width, height, screen_w, screen_h) ==> 4 * ((ex - sx) * (ey - sy)) <= u32::MAX
}

/// The bytes of pixel row `row`, columns `sx` to `sx + w - 1`, of an image
/// `screen_w` pixels wide.
pub open spec fn row_bytes(rgba: Seq<u8>, screen_w: int, sx: int, row: int, w: int) -> Seq<u8> {
    rgba.subrange(4 * (row * screen_w + sx), 4 * (row * screen_w + sx + w))
}

/// The first `n` rows, from row `sy` down, of the `w` pixels wide region
/// starting at column `sx`.
pub open spec fn region_rows(rgba: Seq<u8>, screen_w: int, sx: int, sy: int, w: int, n: nat) -> Seq<u8>
    decreases n,
{
    if n == 0 {
        Seq::empty()
    } else {
        region_rows(rgba, screen_w, sx, sy, w, (n - 1) as nat) + row_bytes(rgba, screen_w, sx, sy + n - 1, w)
    }
}

/// The RGBA bytes that `ScreenCapture::capture_region` cuts out.
pub open spec fn spec_region(image: ScreenImage, x: int, y: int, width: u32, height: u32) -> Seq<u8> {
    let (sx, sy, ex, ey) = clipped(x, y, width, height, image.width, image.height);
    region_rows(image.rgba@, image.width as int, sx, sy, ex - sx, (ey - sy) as nat)
}

proof fn lemma_region_rows_len(rgba: Seq<u8>, screen_w: int, sx: int, sy: int, w: int, n: nat, screen_h: int)
    requires
        0 <= sx,
        0 <= w,
        sx + w <= screen_w,
        0 <= sy,
        sy + n <= screen_h,
        rgba.len() == 4 * (screen_w * screen_h),
    ensures
        region_rows(rgba, screen_w, sx, sy, w, n).len() == 4 * (w * n),
    decreases n,
{
    if n > 0 {
        lemma_region_rows_len(rgba, screen_w, sx, sy, w, (n - 1) as nat, screen_h);
        lemma_row_in_bounds(screen_w, sx, sy + n - 1, w, screen_h);
        assert(row_bytes(rgba, screen_w, sx, sy + n - 1, w).len() == 4 * w);
        assert(w * n == w * (n - 1) + w) by (nonlinear_arith);
    } else {
        assert(w * n == 0) by (nonlinear_arith)
            requires n == 0;
    }
}

proof fn lemma_row_in_bounds(screen_w: int, sx: int, row: int, w: int, screen_h: int)
    requires
        0 <= sx,
        0 <= w,
        sx + w <= screen_w,
        0 <= row < screen_h,
    ensures
        0 <= row * screen_w + sx,
        row * screen_w + sx + w <= screen_w * screen_h,
{
    assert(0 <= row * screen_w) by (nonlinear_arith)
        requires 0 <= row, 0 <= screen_w;
    assert(row * screen_w + screen_w <= screen_w * screen_h) by (nonlinear_arith)
        requires row + 1 <= screen_h, 0 <= screen_w;
}

proof fn lemma_region_rows_index(
    rgba: Seq<u8>,
    screen_w: int,
    sx: int,
    sy: int,
    w: int,
    n: nat,
    screen_h: int,
    r: int,
    c: int,
    k: int,
)
    requires
        0 <= sx,
        0 <= w,
        sx + w <= screen_w,
        0 <= sy,
        sy + n <= screen_h,
        rgba.len() == 4 * (screen_w * screen_h),
        0 <= r < n,
        0 <= c < w,
        0 <= k < 4,
    ensures
        0 <= 4 * (r * w + c) + k < 4 * (w * n),
        region_rows(rgba, screen_w, sx, sy, w, n)[4 * (r * w + c) + k]
            == rgba[4 * ((sy + r) * screen_w + sx + c) + k],
    decreases n,
{
    lemma_region_rows_len(rgba, screen_w, sx, sy, w, (n - 1) as nat, screen_h);
    assert(0 <= r * w) by (nonlinear_arith)
        requires 0 <= r, 0 <= w;
    assert(r * w + c < w * n) by (nonlinear_arith)
        requires 0 <= r, r + 1 <= n, 0 <= c < w;
    if r < n - 1 {
        lemma_region_rows_index(rgba, screen_w, sx, sy, w, (n - 1) as nat, screen_h, r, c, k);
    } else {
        assert(r * w == w * (n - 1)) by (nonlinear_arith)
            requires r == n - 1;
        lemma_row_in_bounds(screen_w, sx, sy + r, w, screen_h);
    }
}

/// Each byte of a cut region is the byte of the image pixel that it stands
/// for: byte `k` of the pixel in row `r`, column `c` of the region is byte
/// `k` of the image pixel in row `start_y + r`, column `start_x + c`.
pub proof fn region_pixel_is_image_pixel(image: ScreenImage, x: int, y: int, width: u32, height: u32, r: int, c: int, k: int)
    requires
        image.well_formed(),
        region_request_ok(x, y, width, height, image.width, image.height),
        !region_is_empty(x, y, width, height, image.width, image.height),
        ({
            let (sx, sy, ex, ey) = clipped(x, y, width, height, image.width, image.height);
            0 <= r < ey - sy && 0 <= c < ex - sx
        }),
        0 <= k < 4,
    ensures
        ({
            let (sx, sy, ex, ey) = clipped(x, y, width, height, image.width, image.height);
            &&& spec_region(image, x, y, width, height).len() == 4 * ((ex - sx) * (ey - sy))
            &&& spec_region(image, x, y, width, height)[4 * (r * (ex - sx) + c) + k]
                == image.rgba@[4 * ((sy + r) * image.width + sx + c) + k]
        }),
{
    let (sx, sy, ex, ey) = clipped(x, y, width, height, image.width, image.height);
    lemma_region_rows_len(image.rgba@, image.width as int, sx, sy, ex - sx, (ey - sy) as nat, image.height as int);
    lemma_region_rows_index(image.rgba@, image.width as int, sx, sy, ex - sx, (ey - sy) as nat, image.height as int, r, c, k);
    assert((ex - sx) * (ey - sy) == (ey - sy) * (ex - sx)) by (nonlinear_arith);
}

proof fn lemma_full_rows(rgba: Seq<u8>, screen_w: int, n: nat, screen_h: int)
    requires
        0 <= screen_w,
        n <= screen_h,
        rgba.len() == 4 * (screen_w * screen_h),
    ensures
        4 * (screen_w * n) <= rgba.len(),
        region_rows(rgba, screen_w, 0, 0, screen_w, n) == rgba.subrange(0, 4 * (screen_w * n)),
    decreases n,
{
    assert(screen_w * n <= screen_w * screen_h) by (nonlinear_arith)
        requires 0 <= screen_w, n <= screen_h;
    if n > 0 {
        lemma_full_rows(rgba, screen_w, (n - 1) as nat, screen_h);
        assert((n - 1) * screen_w == screen_w * (n - 1)) by (nonlinear_arith);
        assert(screen_w * n == screen_w * (n - 1) + screen_w) by (nonlinear_arith);
        assert(rgba.subrange(0, 4 * (screen_w * n)) =~= rgba.subrange(0, 4 * (screen_w * (n - 1)))
            + rgba.subrange(4 * (screen_w * (n - 1)), 4 * (screen_w * n)));
    } else {
        assert(screen_w * n == 0) by (nonlinear_arith)
            requires n == 0;
    }
}

/// Cutting the region that covers the whole image from its top left corner
/// gives the whole image back.
pub proof fn whole_region_is_whole_image(image: ScreenImage)
    requires
        image.well_formed(),
        0 < image.width <= i32::MAX,
        0 < image.height <= i32::MAX,
    ensures
        !region_is_empty(0, 0, image.width, image.height, image.width, image.height),
        spec_region(image, 0, 0, image.width, image.height) == image.rgba@,
{
    lemma_full_rows(image.rgba@, image.width as int, image.height as nat, image.height as int);
    assert(image.rgba@.subrange(0, 4 * (image.width * image.height)) =~= image.rgba@);
}

/// Whether cutting the region is well defined for an image of
/// `screen_w` by `screen_h` pixels (see `region_request_ok`).
pub fn region_request_is_ok(x: i32, y: i32, width: u32, height: u32, screen_w: u32, screen_h: u32) -> (b: bool)
    ensures
        b == region_request_ok(x as int, y as int, width, height, screen_w, screen_h),
{
    let wi: i64 = if width <= 0x7fff_ffff { width as i64 } else { width as i64 - 0x1_0000_0000 };
    let hi: i64 = if height <= 0x7fff_ffff { height as i64 } else { height as i64 - 0x1_0000_0000 };
    let ex0: i64 = x as i64 + wi;
    let ey0: i64 = y as i64 + hi;
    if ex0 < -0x8000_0000 || ex0 > 0x7fff_ffff || ey0 < -0x8000_0000 || ey0 > 0x7fff_ffff {
        return false;
    }
    let sx: i64 = if x > 0 { x as i64 } else { 0 };
    let sy: i64 = if y > 0 { y as i64 } else { 0 };
    let ex: i64 = if ex0 < screen_w as i64 { ex0 } else { screen_w as i64 };
    let ey: i64 = if ey0 < screen_h as i64 { ey0 } else { screen_h as i64 };
    if sx >= ex || sy >= ey {
        return true;
    }
    let aw: i128 = (ex - sx) as i128;
    let ah: i128 = (ey - sy) as i128;
    assert(aw * ah <= 0xffff_ffff * 0xffff_ffff) by (nonlinear_arith)
        requires 0 < aw <= 0xffff_ffff, 0 < ah <= 0xffff_ffff;
    4 * (aw * ah) <= 0xffff_ffff
}

/// The clipped region runs from the larger of the request's start and the
/// image's first column (row) up to the smaller of the request's end and the
/// image's width (height); it holds no pixel exactly when one of these
/// spans is empty.
pub proof fn region_is_clipped_to_image(x: int, y: int, width: u32, height: u32, screen_w: u32, screen_h: u32)
    requires
        width <= i32::MAX,
        height <= i32::MAX,
    ensures
        ({
            let sx = if x > 0 { x } else { 0 };
            let sy = if y > 0 { y } else { 0 };
            let ex = if x + width < screen_w { x + width } else { screen_w as int };
            let ey = if y + height < screen_h { y + height } else { screen_h as int };
            &&& clipped(x, y, width, height, screen_w, screen_h) == (sx, sy, ex, ey)
            &&& region_is_empty(x, y, width, height, screen_w, screen_h) <==> (sx >= ex || sy >= ey)
        }),
{
}

/// A request lying inside the image is cut as it is: the result holds
/// exactly `4 * width * height` bytes, and byte `k` of its pixel in row `r`,
/// column `c` is byte `k` of the image pixel in row `y + r`, column `x + c`.
pub proof fn inner_region_is_cut_exactly(image: ScreenImage, x: int, y: int, width: u32, height: u32, r: int, c: int, k: int)
    requires
        image.well_formed(),
        0 <= x,
        0 <= y,
        0 < width <= i32::MAX,
        0 < height <= i32::MAX,
        x + width <= image.width,
        y + height <= image.height,
        x + width <= i32::MAX,
        y + height <= i32::MAX,
        4 * (width * height) <= u32::MAX,
        0 <= r < height,
        0 <= c < width,
        0 <= k < 4,
    ensures
        region_request_ok(x, y, width, height, image.width, image.height),
        !region_is_empty(x, y, width, height, image.width, image.height),
        spec_region(image, x, y, width, height).len() == 4 * (width * height),
        spec_region(image, x, y, width, height)[4 * (r * width + c) + k]
            == image.rgba@[4 * ((y + r) * image.width + x + c) + k],
{
    assert(clipped(x, y, width, height, image.width, image.height) == (x, y, x + width, y + height));
    assert((x + width - x) * (y + height - y) == width * height);
    region_pixel_is_image_pixel(image, x, y, width, height, r, c, k);
    assert(width * height == height * width) by (nonlinear_arith);
}

impl ScreenCapture {
    /// Cuts the region of `width` by `height` pixels whose top left corner is
    /// `(x, y)` out of `image`, clipped to the image.
    ///
    /// Returns `None` when the clipped region is empty; otherwise the RGBA
    /// bytes of the region, row after row.
    pub fn capture_region(image: &ScreenImage, x: i32, y: i32, width: u32, height: u32) -> (r: Option<Vec<u8>>)
        requires
            image.well_formed(),
            region_request_ok(x as int, y as int, width, height, image.width, image.height),
        ensures
            r is None <==> region_is_empty(x as int, y as int, width, height, image.width, image.height),
            r matches Some(px) ==> px@ == spec_region(*image, x as int, y as int, width, height),
            r matches Some(px) ==> ({
                let (sx, sy, ex, ey) = clipped(x as int, y as int, width, height, image.width, image.height);
                px@.len() == 4 * ((ex - sx) * (ey - sy))
            }),
            width <= i32::MAX && height <= i32::MAX ==> ({
                let sx = if x > 0 { x as int } else { 0 };
                let sy = if y > 0 { y as int } else { 0 };
                let ex = if x + width < image.width { x + width } else { image.width as int };
                let ey = if y + height < image.height { y + height } else { image.height as int };
                &&& r is None <==> (sx >= ex || sy >= ey)
                &&& r matches Some(px) ==> px@.len() == 4 * ((ex - sx) * (ey - sy))
            }),
    {
        let ghost g = clipped(x as int, y as int, width, height, image.width, image.height);
        let sw: i64 = image.width as i64;
        let sh: i64 = image.height as i64;
        let wi: i64 = if width <= 0x7fff_ffff { width as i64 } else { width as i64 - 0x1_0000_0000 };
        let hi: i64 = if height <= 0x7fff_ffff { height as i64 } else { height as i64 - 0x1_0000_0000 };
        let sx: i64 = if x > 0 { x as i64 } else { 0 };
        let sy: i64 = if y > 0 { y as i64 } else { 0 };
        let mut ex: i64 = x as i64 + wi;
        let mut ey: i64 = y as i64 + hi;
        if ex >= sw {
            ex = sw;
        }
        if ey >= sh {
            ey = sh;
        }
        assert(g == (sx as int, sy as int, ex as int, ey as int));
        if sx >= ex || sy >= ey {
            return None;
        }
        let sx: usize = sx as usize;
        let sy: usize = sy as usize;
        let aw: usize = (ex as usize) - sx;
        let ah: usize = (ey as usize) - sy;
        let screen_w: usize = image.width as usize;
        let ghost rgba = image.rgba@;
        let total: usize = image.rgba.len();
        let mut out: Vec<u8> = Vec::new();
        let mut row: usize = 0;
        while row < ah
            invariant
                image.well_formed(),
                rgba == image.rgba@,
                total == rgba.len(),
                screen_w == image.width,
                sx + aw <= image.width,
                sy + ah <= image.height,
                row <= ah,
                out@ == region_rows(rgba, screen_w as int, sx as int, sy as int, aw as int, row as nat),
            decreases ah - row,
        {
            proof {
                lemma_row_in_bounds(screen_w as int, sx as int, (sy + row) as int, aw as int, image.height as int);
            }
            let start: usize = 4 * ((sy + row) * screen_w + sx);
            let len: usize = 4 * aw;
            let ghost before = out@;
            let mut j: usize = 0;
            while j < len
                invariant
                    rgba == image.rgba@,
                    total == rgba.len(),
                    image.well_formed(),
                    start + len <= rgba.len(),
                    j <= len,
                    out@ == before + rgba.subrange(start as int, start + j),
                decreases len - j,
            {
                out.push(image.rgba[start + j]);
                proof {
                    assert(rgba.subrange(start as int, start + j + 1)
                        =~= rgba.subrange(start as int, start + j).push(rgba[start + j]));
                }
                j = j + 1;
            }
            assert(out@ == region_rows(rgba, screen_w as int, sx as int, sy as int, aw as int, (row + 1) as nat));
            row = row + 1;
        }
        proof {
            lemma_region_rows_len(rgba, screen_w as int, sx as int, sy as int, aw as int, ah as nat, image.height as int);
            assert((aw as int) * (ah as int) == (ah as int) * (aw as int)) by (nonlinear_arith);
        }
        Some(out)
    }
}

} // verus!
