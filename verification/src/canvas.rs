//! The pixel model: a region of interest, an owned RGB pixel grid, the region
//! sampler (mean color over a region) and the canvas operations the composite
//! renderer uses (flood, copy, rectangle fill).
//!
//! Pixels are stored row-major, three bytes per pixel (red, green, blue), so
//! channel `ch` of the pixel at `(x, y)` in a grid of width `w` sits at index
//! `3 * (y * w + x) + ch`.

use vstd::arithmetic::div_mod::lemma_div_is_ordered;
use vstd::arithmetic::div_mod::lemma_div_multiples_vanish;
use vstd::arithmetic::div_mod::lemma_div_pos_is_pos;
use vstd::arithmetic::div_mod::lemma_fundamental_div_mod_converse;
use vstd::arithmetic::div_mod::lemma_mod_bound;
use vstd::arithmetic::div_mod::lemma_multiply_divide_lt;
use vstd::arithmetic::mul::lemma_mul_inequality;
use vstd::prelude::*;

use crate::color::Color;
use crate::error::Error;

verus! {

/// A rectangular region of interest: integer origin and size, in pixels.
#[derive(Clone, Copy, Debug, PartialEq, Eq, Structural)]
pub struct Roi {
    pub x: u32,
    pub y: u32,
    pub width: u32,
    pub height: u32,
}

impl Roi {
    /// The region covers at least one pixel.
    pub open spec fn nonempty(&self) -> bool {
        self.width > 0 && self.height > 0
    }

    /// The region lies inside a grid of the given dimensions.
    pub open spec fn within(&self, w: int, h: int) -> bool {
        self.x + self.width <= w && self.y + self.height <= h
    }
}

/// Channel `ch` of pixel number `p` in row-major pixel data.
pub open spec fn pchan(data: Seq<u8>, p: int, ch: int) -> u8 {
    data[3 * p + ch]
}

/// Channel `ch` of the pixel at `(x, y)` in row-major pixel data of width `w`.
pub open spec fn px(data: Seq<u8>, w: int, x: int, y: int, ch: int) -> u8 {
    pchan(data, y * w + x, ch)
}

/// Every one of the first `n` pixels of `data` shows color `c`.
pub open spec fn uniform(data: Seq<u8>, n: int, c: Color) -> bool {
    forall|p: int, ch: int|
        0 <= p < n && 0 <= ch < 3 ==> #[trigger] pchan(data, p, ch) == c.channel(ch)
}

/// The sum of channel `ch` over the first `n` pixels of `data`.
pub open spec fn csum(data: Seq<u8>, n: int, ch: int) -> int
    decreases n,
{
    if n <= 0 {
        0
    } else {
        csum(data, n - 1, ch) + pchan(data, n - 1, ch)
    }
}

/// The mean of channel `ch` over the first `n` pixels: the channel sum,
/// floor-divided by the pixel count.
pub open spec fn mean_channel(data: Seq<u8>, n: int, ch: int) -> int {
    csum(data, n, ch) / n
}

/// The pixel data of the sub-grid that a region of interest cuts out of a
/// grid of width `w`.
pub open spec fn region_data(data: Seq<u8>, w: int, roi: Roi) -> Seq<u8> {
    Seq::new(
        (3 * (roi.width * roi.height)) as nat,
        |k: int|
            px(
                data,
                w,
                roi.x + (k / 3) % (roi.width as int),
                roi.y + (k / 3) / (roi.width as int),
                k % 3,
            ),
    )
}

/// The mean color over a region of interest of a grid of width `w`: each
/// channel averaged independently, fractions discarded.
pub open spec fn region_mean(data: Seq<u8>, w: int, roi: Roi) -> Color {
    let rd = region_data(data, w, roi);
    let n = roi.width * roi.height;
    Color {
        red: mean_channel(rd, n as int, 0) as u8,
        green: mean_channel(rd, n as int, 1) as u8,
        blue: mean_channel(rd, n as int, 2) as u8,
    }
}

/// Three bytes per pixel: the byte count of a grid, written either way.
proof fn lemma_three_times(w: int, h: int)
    requires
        w >= 0,
        h >= 0,
    ensures
        3 * (w * h) == 3 * w * h,
        w * h >= 0,
{
    assert(3 * (w * h) == 3 * w * h && w * h >= 0) by (nonlinear_arith)
        requires
            w >= 0 && h >= 0,
    ;
}

/// A pixel's channel index stays inside data of `w * h` pixels.
proof fn lemma_pixel_index_bound(w: int, h: int, x: int, y: int)
    requires
        0 <= x < w,
        0 <= y < h,
    ensures
        0 <= y * w + x,
        3 * (y * w + x) + 2 < 3 * (w * h),
{
    lemma_mul_inequality(y + 1, h, w);
    assert((y + 1) * w == y * w + w) by (nonlinear_arith);
    assert(h * w == w * h) by (nonlinear_arith);
    assert(y * w >= 0) by (nonlinear_arith)
        requires
            y >= 0 && w >= 0,
    ;
}

/// Distinct pixel coordinates or channels occupy distinct data indices.
proof fn lemma_px_injective(w: int, a: int, b: int, c: int, a2: int, b2: int, c2: int)
    requires
        0 <= a < w,
        0 <= a2 < w,
        0 <= b,
        0 <= b2,
        0 <= c < 3,
        0 <= c2 < 3,
        3 * (b * w + a) + c == 3 * (b2 * w + a2) + c2,
    ensures
        a == a2,
        b == b2,
        c == c2,
{
    let k = 3 * (b * w + a) + c;
    assert(k == (b * w + a) * 3 + c) by (nonlinear_arith)
        requires
            k == 3 * (b * w + a) + c,
    ;
    assert(k == (b2 * w + a2) * 3 + c2) by (nonlinear_arith)
        requires
            k == 3 * (b2 * w + a2) + c2,
    ;
    lemma_fundamental_div_mod_converse(k, 3, b * w + a, c);
    lemma_fundamental_div_mod_converse(k, 3, b2 * w + a2, c2);
    let q = k / 3;
    assert(q == b * w + a == b2 * w + a2);
    assert(q == b * w + a) by (nonlinear_arith)
        requires
            q == b * w + a,
    ;
    lemma_fundamental_div_mod_converse(q, w, b, a);
    lemma_fundamental_div_mod_converse(q, w, b2, a2);
}

/// Inside a region's data, index arithmetic resolves to the source pixel.
proof fn lemma_region_data_index(data: Seq<u8>, w: int, roi: Roi, p: int, ch: int)
    requires
        0 <= p < roi.width * roi.height,
        0 <= ch < 3,
    ensures
        pchan(region_data(data, w, roi), p, ch) == px(
            data,
            w,
            roi.x + p % (roi.width as int),
            roi.y + p / (roi.width as int),
            ch,
        ),
{
    let k = 3 * p + ch;
    assert(k == p * 3 + ch) by (nonlinear_arith)
        requires
            k == 3 * p + ch,
    ;
    lemma_fundamental_div_mod_converse(k, 3, p, ch);
    assert(0 <= k < 3 * (roi.width * roi.height)) by (nonlinear_arith)
        requires
            k == 3 * p + ch && 0 <= p < roi.width * roi.height && 0 <= ch < 3,
    ;
}

/// An owned pixel grid: width, height and row-major 8-bit channel data.
#[derive(Debug)]
pub struct Image {
    pub(crate) width: u32,
    pub(crate) height: u32,
    pub(crate) data: Vec<u8>,
}

impl View for Image {
    type V = Seq<u8>;

    /// The raw channel data of the grid.
    closed spec fn view(&self) -> Seq<u8> {
        self.data@
    }
}

impl Image {
    /// The width of the grid, in pixels.
    pub closed spec fn spec_width(&self) -> int {
        self.width as int
    }

    /// The height of the grid, in pixels.
    pub closed spec fn spec_height(&self) -> int {
        self.height as int
    }

    /// The data holds exactly three bytes for each of the grid's pixels.
    pub open spec fn wf(&self) -> bool {
        self@.len() == 3 * (self.spec_width() * self.spec_height())
    }

    /// Builds a grid of the given dimensions with every pixel set to `fill`.
    pub fn new(width: u32, height: u32, fill: Color) -> (r: Image)
        requires
            3 * (width * height) <= usize::MAX,
        ensures
            r.wf(),
            r.spec_width() == width,
            r.spec_height() == height,
            uniform(r@, width * height, fill),
    {
        proof {
            lemma_three_times(width as int, height as int);
        }
        let n: usize = (width as usize) * (height as usize);
        let mut data: Vec<u8> = Vec::new();
        let mut p: usize = 0;
        while p < n
            invariant
                p <= n,
                n == width * height,
                3 * n <= usize::MAX,
                data@.len() == 3 * p,
                uniform(data@, p as int, fill),
            decreases n - p,
        {
            let ghost data0 = data@;
            data.push(fill.red);
            data.push(fill.green);
            data.push(fill.blue);
            proof {
                assert forall|q: int, ch: int| 0 <= q < p + 1 && 0 <= ch < 3 implies #[trigger] pchan(
                    data@,
                    q,
                    ch,
                ) == fill.channel(ch) by {
                    if q < p {
                        assert(pchan(data0, q, ch) == fill.channel(ch));
                        assert(3 * q + ch < 3 * p);
                    }
                }
            }
            p = p + 1;
        }
        Image { width, height, data }
    }

    /// Wraps decoded raw pixel data into a grid, when the buffer length
    /// matches the dimensions exactly; otherwise reports an `InputError`.
    pub fn from_raw(width: u32, height: u32, data: Vec<u8>) -> (r: Result<Image, Error>)
        ensures
            r is Ok <==> data@.len() == 3 * (width * height),
            r matches Ok(img) ==> img.wf() && img.spec_width() == width && img.spec_height()
                == height && img@ == data@,
            r matches Err(e) ==> e is InputError,
    {
        proof {
            lemma_three_times(width as int, height as int);
            assert(3 * ((width as int) * (height as int)) <= 3 * (0xffff_ffff * 0xffff_ffff))
                by (nonlinear_arith)
                requires
                    0 <= width as int <= 0xffff_ffff && 0 <= height as int <= 0xffff_ffff,
            ;
        }
        let expected: u128 = 3u128 * (width as u128) * (height as u128);
        assert(expected == 3 * ((width as int) * (height as int)));
        if (data.len() as u128) != expected {
            return Err(
                Error::InputError(
                    String::from_str("pixel buffer length does not match the image dimensions"),
                ),
            );
        }
        Ok(Image { width, height, data })
    }

    /// The width of the grid.
    pub fn width(&self) -> (r: u32)
        ensures
            r == self.spec_width(),
    {
        self.width
    }

    /// The height of the grid.
    pub fn height(&self) -> (r: u32)
        ensures
            r == self.spec_height(),
    {
        self.height
    }

    /// The color of the pixel at `(x, y)`.
    pub fn get_pixel(&self, x: u32, y: u32) -> (r: Color)
        requires
            self.wf(),
            x < self.spec_width(),
            y < self.spec_height(),
        ensures
            r.red == px(self@, self.spec_width(), x as int, y as int, 0),
            r.green == px(self@, self.spec_width(), x as int, y as int, 1),
            r.blue == px(self@, self.spec_width(), x as int, y as int, 2),
    {
        let n = self.data.len();
        proof {
            lemma_pixel_index_bound(
                self.spec_width(),
                self.spec_height(),
                x as int,
                y as int,
            );
        }
        let idx: usize = 3 * ((y as usize) * (self.width as usize) + (x as usize));
        Color { red: self.data[idx], green: self.data[idx + 1], blue: self.data[idx + 2] }
    }

    /// Hands the raw channel data back, for encoding.
    pub fn into_data(self) -> (r: Vec<u8>)
        ensures
            r@ == self@,
    {
        self.data
    }
}

/// Cuts the sub-grid a region of interest covers out of an image. The region
/// must lie within the image's bounds; the source image is not changed.
#[verifier::loop_isolation(false)]
pub fn crop_image(image: &Image, rect: &Roi) -> (r: Image)
    requires
        image.wf(),
        rect.within(image.spec_width(), image.spec_height()),
    ensures
        r.wf(),
        r.spec_width() == rect.width,
        r.spec_height() == rect.height,
        r@ == region_data(image@, image.spec_width(), *rect),
{
    let ghost w = image.spec_width();
    let ghost h = image.spec_height();
    let ghost target = region_data(image@, w, *rect);
    let rw = rect.width;
    let rh = rect.height;
    proof {
        lemma_three_times(rw as int, rh as int);
    }
    // Reading the length binds the channel data's size to the machine's limits.
    let data_len = image.data.len();
    let mut data: Vec<u8> = Vec::new();
    let mut y: u32 = 0;
    while y < rh
        invariant
            y <= rh,
            data@.len() == 3 * ((y as int) * (rw as int)),
            forall|k: int| 0 <= k < data@.len() ==> data@[k] == target[k],
        decreases rh - y,
    {
        let mut x: u32 = 0;
        proof {
            assert((y as int) * (rw as int) >= 0) by (nonlinear_arith)
                requires
                    y >= 0 && rw >= 0,
            ;
        }
        while x < rw
            invariant
                x <= rw,
                data@.len() == 3 * ((y as int) * (rw as int) + x as int),
                forall|k: int| 0 <= k < data@.len() ==> data@[k] == target[k],
            decreases rw - x,
        {
            let ghost p = (y as int) * (rw as int) + x as int;
            let ax = rect.x + x;
            let ay = rect.y + y;
            proof {
                lemma_pixel_index_bound(w, h, ax as int, ay as int);
                lemma_pixel_index_bound(rw as int, rh as int, x as int, y as int);
                lemma_fundamental_div_mod_converse(p, rw as int, y as int, x as int);
                lemma_region_data_index(image@, w, *rect, p, 0);
                lemma_region_data_index(image@, w, *rect, p, 1);
                lemma_region_data_index(image@, w, *rect, p, 2);
            }
            let sidx: usize = 3 * ((ay as usize) * (image.width as usize) + (ax as usize));
            data.push(image.data[sidx]);
            data.push(image.data[sidx + 1]);
            data.push(image.data[sidx + 2]);
            x = x + 1;
        }
        proof {
            assert(((y + 1) as int) * (rw as int) == (y as int) * (rw as int) + rw as int)
                by (nonlinear_arith);
        }
        y = y + 1;
    }
    proof {
        assert((rh as int) * (rw as int) == (rw as int) * (rh as int)) by (nonlinear_arith);
    }
    let r = Image { width: rw, height: rh, data };
    proof {
        assert(r@ =~= target);
    }
    r
}

/// Computes the mean color of an image: each channel summed over every pixel
/// as a wide unsigned integer, then floor-divided by the pixel count. The
/// image must hold at least one pixel.
#[verifier::loop_isolation(false)]
pub fn mean_color(image: &Image) -> (r: Color)
    requires
        image.wf(),
        image.spec_width() * image.spec_height() > 0,
    ensures
        r.red as int == mean_channel(image@, image.spec_width() * image.spec_height(), 0),
        r.green as int == mean_channel(image@, image.spec_width() * image.spec_height(), 1),
        r.blue as int == mean_channel(image@, image.spec_width() * image.spec_height(), 2),
{
    proof {
        lemma_three_times(image.spec_width(), image.spec_height());
    }
    // Reading the length binds the channel data's size to the machine's limits.
    let data_len = image.data.len();
    let n: usize = (image.width as usize) * (image.height as usize);
    let mut sr: u128 = 0;
    let mut sg: u128 = 0;
    let mut sb: u128 = 0;
    let mut p: usize = 0;
    while p < n
        invariant
            p <= n,
            sr == csum(image@, p as int, 0),
            sg == csum(image@, p as int, 1),
            sb == csum(image@, p as int, 2),
            sr <= 255 * p,
            sg <= 255 * p,
            sb <= 255 * p,
        decreases n - p,
    {
        let base: usize = 3 * p;
        sr = sr + image.data[base] as u128;
        sg = sg + image.data[base + 1] as u128;
        sb = sb + image.data[base + 2] as u128;
        p = p + 1;
    }
    let m = n as u128;
    proof {
        lemma_div_is_ordered(sr as int, 255 * (n as int), n as int);
        lemma_div_is_ordered(sg as int, 255 * (n as int), n as int);
        lemma_div_is_ordered(sb as int, 255 * (n as int), n as int);
        lemma_div_multiples_vanish(255, n as int);
        assert(255 * (n as int) == (n as int) * 255);
        lemma_div_pos_is_pos(sr as int, n as int);
        lemma_div_pos_is_pos(sg as int, n as int);
        lemma_div_pos_is_pos(sb as int, n as int);
    }
    Color { red: (sr / m) as u8, green: (sg / m) as u8, blue: (sb / m) as u8 }
}

/// The channel a composite canvas shows at `(x, y)`: the fill color on the
/// left half, the source image on the right.
pub open spec fn composite_chan(src: Seq<u8>, w: int, fill: Color, x: int, y: int, ch: int) -> u8 {
    if x < w {
        fill.channel(ch)
    } else {
        px(src, w, x - w, y, ch)
    }
}

/// Builds the output canvas: twice the source's width, the left half flooded
/// with `fill` and the right half an exact copy of the source image.
#[verifier::loop_isolation(false)]
pub fn compose_canvas(source: &Image, fill: Color) -> (r: Image)
    requires
        source.wf(),
        2 * source.spec_width() <= u32::MAX,
        3 * ((2 * source.spec_width()) * source.spec_height()) <= usize::MAX,
    ensures
        r.wf(),
        r.spec_width() == 2 * source.spec_width(),
        r.spec_height() == source.spec_height(),
        forall|x: int, y: int, ch: int|
            0 <= x < 2 * source.spec_width() && 0 <= y < source.spec_height() && 0 <= ch < 3
                ==> #[trigger] px(r@, 2 * source.spec_width(), x, y, ch) == composite_chan(
                source@,
                source.spec_width(),
                fill,
                x,
                y,
                ch,
            ),
{
    let ghost w = source.spec_width();
    let ghost h = source.spec_height();
    // Reading the length binds the channel data's size to the machine's limits.
    let data_len = source.data.len();
    let cw: u32 = 2 * source.width;
    let mut data: Vec<u8> = Vec::new();
    let mut y: u32 = 0;
    while y < source.height
        invariant
            y <= h,
            data@.len() == 3 * ((y as int) * (cw as int)),
            forall|a: int, b: int, ch: int|
                0 <= a < cw && 0 <= b && (b * (cw as int) + a) < (y as int) * (cw as int) && 0 <= ch
                    < 3 ==> #[trigger] px(data@, cw as int, a, b, ch) == composite_chan(
                    source@,
                    w,
                    fill,
                    a,
                    b,
                    ch,
                ),
        decreases h - y,
    {
        let mut x: u32 = 0;
        proof {
            assert((y as int) * (cw as int) >= 0) by (nonlinear_arith)
                requires
                    y >= 0 && cw >= 0,
            ;
        }
        while x < cw
            invariant
                x <= cw,
                data@.len() == 3 * ((y as int) * (cw as int) + x as int),
                forall|a: int, b: int, ch: int|
                    0 <= a < cw && 0 <= b && (b * (cw as int) + a) < (y as int) * (cw as int)
                        + x as int && 0 <= ch < 3 ==> #[trigger] px(data@, cw as int, a, b, ch)
                        == composite_chan(source@, w, fill, a, b, ch),
            decreases cw - x,
        {
            let ghost done = (y as int) * (cw as int) + x as int;
            let ghost data0 = data@;
            if x < source.width {
                data.push(fill.red);
                data.push(fill.green);
                data.push(fill.blue);
            } else {
                let sx = x - source.width;
                proof {
                    lemma_pixel_index_bound(w, h, sx as int, y as int);
                }
                let sidx: usize = 3 * ((y as usize) * (source.width as usize) + (sx as usize));
                data.push(image_byte(source, sidx));
                data.push(image_byte(source, sidx + 1));
                data.push(image_byte(source, sidx + 2));
            }
            proof {
                assert forall|a: int, b: int, ch: int|
                    0 <= a < cw && 0 <= b && (b * (cw as int) + a) < done + 1 && 0 <= ch
                        < 3 implies #[trigger] px(data@, cw as int, a, b, ch) == composite_chan(
                    source@,
                    w,
                    fill,
                    a,
                    b,
                    ch,
                ) by {
                    let q = b * (cw as int) + a;
                    if q < done {
                        assert(3 * q + ch < 3 * done);
                        assert(px(data0, cw as int, a, b, ch) == composite_chan(
                            source@,
                            w,
                            fill,
                            a,
                            b,
                            ch,
                        ));
                    } else {
                        lemma_fundamental_div_mod_converse(done, cw as int, b, a);
                        lemma_fundamental_div_mod_converse(done, cw as int, y as int, x as int);
                    }
                }
            }
            x = x + 1;
        }
        proof {
            assert(((y + 1) as int) * (cw as int) == (y as int) * (cw as int) + cw as int)
                by (nonlinear_arith);
        }
        y = y + 1;
    }
    let r = Image { width: cw, height: source.height, data };
    proof {
        assert((h as int) * (cw as int) == (cw as int) * h) by (nonlinear_arith);
        assert forall|x: int, y: int, ch: int|
            0 <= x < 2 * w && 0 <= y < h && 0 <= ch < 3 implies #[trigger] px(
            r@,
            2 * w,
            x,
            y,
            ch,
        ) == composite_chan(source@, w, fill, x, y, ch) by {
            lemma_pixel_index_bound(cw as int, h, x, y);
        }
    }
    r
}

/// Reads one raw channel byte; a helper for building canvases.
fn image_byte(image: &Image, idx: usize) -> (r: u8)
    requires
        idx < image@.len(),
    ensures
        r == image@[idx as int],
{
    image.data[idx]
}

/// Overwrites with `color` every pixel inside the rectangle of size
/// `rw` by `rh` whose top-left corner is `(x, y)`, clipped to the image's
/// bounds; every other pixel keeps its value.
#[verifier::loop_isolation(false)]
pub fn fill_rect(image: &mut Image, x: u32, y: u32, rw: u32, rh: u32, color: Color)
    requires
        old(image).wf(),
    ensures
        final(image).wf(),
        final(image).spec_width() == old(image).spec_width(),
        final(image).spec_height() == old(image).spec_height(),
        forall|a: int, b: int, ch: int|
            0 <= a < old(image).spec_width() && 0 <= b < old(image).spec_height() && 0 <= ch < 3
                ==> #[trigger] px(final(image)@, old(image).spec_width(), a, b, ch) == (if x <= a
                < x + rw && y <= b < y + rh {
                color.channel(ch)
            } else {
                px(old(image)@, old(image).spec_width(), a, b, ch)
            }),
{
    let ghost w = old(image).spec_width();
    let ghost h = old(image).spec_height();
    let wid = image.width;
    let hgt = image.height;
    // Reading the length binds the channel data's size to the machine's limits.
    let data_len = image.data.len();
    let x0: u32 = if x < wid {
        x
    } else {
        wid
    };
    let xe: u32 = if x < wid {
        if rw > wid - x {
            wid
        } else {
            x + rw
        }
    } else {
        wid
    };
    let y0: u32 = if y < hgt {
        y
    } else {
        hgt
    };
    let ye: u32 = if y < hgt {
        if rh > hgt - y {
            hgt
        } else {
            y + rh
        }
    } else {
        hgt
    };
    let mut b: u32 = y0;
    while b < ye
        invariant
            y0 <= b <= ye,
            image.width == old(image).width,
            image.height == old(image).height,
            image@.len() == old(image)@.len(),
            forall|aa: int, bb: int, ch: int|
                0 <= aa < w && 0 <= bb < h && 0 <= ch < 3 ==> #[trigger] px(image@, w, aa, bb, ch)
                    == (if x0 <= aa < xe && y0 <= bb < b {
                    color.channel(ch)
                } else {
                    px(old(image)@, w, aa, bb, ch)
                }),
        decreases ye - b,
    {
        let mut a: u32 = x0;
        while a < xe
            invariant
                x0 <= a <= xe,
                b < ye,
                image.width == old(image).width,
                image.height == old(image).height,
                image@.len() == old(image)@.len(),
                forall|aa: int, bb: int, ch: int|
                    0 <= aa < w && 0 <= bb < h && 0 <= ch < 3 ==> #[trigger] px(
                        image@,
                        w,
                        aa,
                        bb,
                        ch,
                    ) == (if (x0 <= aa < xe && y0 <= bb < b) || (bb == b && x0 <= aa < a) {
                        color.channel(ch)
                    } else {
                        px(old(image)@, w, aa, bb, ch)
                    }),
            decreases xe - a,
        {
            let ghost before = image@;
            proof {
                lemma_pixel_index_bound(w, h, a as int, b as int);
            }
            let idx: usize = 3 * ((b as usize) * (wid as usize) + (a as usize));
            image.data[idx] = color.red;
            image.data[idx + 1] = color.green;
            image.data[idx + 2] = color.blue;
            proof {
                let i0 = 3 * ((b as int) * w + a as int);
                assert forall|aa: int, bb: int, ch: int|
                    0 <= aa < w && 0 <= bb < h && 0 <= ch < 3 implies #[trigger] px(
                    image@,
                    w,
                    aa,
                    bb,
                    ch,
                ) == (if (x0 <= aa < xe && y0 <= bb < b) || (bb == b && x0 <= aa < a + 1) {
                    color.channel(ch)
                } else {
                    px(old(image)@, w, aa, bb, ch)
                }) by {
                    let kk = 3 * (bb * w + aa) + ch;
                    if aa == a && bb == b {
                    } else {
                        lemma_pixel_index_bound(w, h, aa, bb);
                        if kk == i0 {
                            lemma_px_injective(w, aa, bb, ch, a as int, b as int, 0);
                        }
                        if kk == i0 + 1 {
                            lemma_px_injective(w, aa, bb, ch, a as int, b as int, 1);
                        }
                        if kk == i0 + 2 {
                            lemma_px_injective(w, aa, bb, ch, a as int, b as int, 2);
                        }
                        assert(px(image@, w, aa, bb, ch) == px(before, w, aa, bb, ch));
                    }
                }
            }
            a = a + 1;
        }
        b = b + 1;
    }
    proof {
        assert forall|aa: int, bb: int, ch: int|
            0 <= aa < w && 0 <= bb < h && 0 <= ch < 3 implies #[trigger] px(image@, w, aa, bb, ch)
            == (if x <= aa < x + rw && y <= bb < y + rh {
            color.channel(ch)
        } else {
            px(old(image)@, w, aa, bb, ch)
        }) by {
            assert(px(image@, w, aa, bb, ch) == (if x0 <= aa < xe && y0 <= bb < ye {
                color.channel(ch)
            } else {
                px(old(image)@, w, aa, bb, ch)
            }));
        }
    }
}

/// The channel sum over `n` pixels lies between `0` and `255 * n`.
proof fn lemma_csum_bounds(data: Seq<u8>, n: int, ch: int)
    requires
        n >= 0,
    ensures
        0 <= csum(data, n, ch) <= 255 * n,
    decreases n,
{
    if n > 0 {
        lemma_csum_bounds(data, n - 1, ch);
    }
}

/// A channel mean over at least one pixel is itself a channel value.
pub(crate) proof fn lemma_mean_channel_bounds(data: Seq<u8>, n: int, ch: int)
    requires
        n > 0,
    ensures
        0 <= mean_channel(data, n, ch) <= 255,
{
    lemma_csum_bounds(data, n, ch);
    lemma_div_pos_is_pos(csum(data, n, ch), n);
    lemma_div_is_ordered(csum(data, n, ch), 255 * n, n);
    lemma_div_multiples_vanish(255, n);
    assert(255 * n == n * 255);
}

/// Over a uniformly colored prefix, the channel sum is the pixel count times
/// the channel value.
pub proof fn lemma_csum_uniform(data: Seq<u8>, n: int, c: Color, ch: int)
    requires
        n >= 0,
        uniform(data, n, c),
        0 <= ch < 3,
    ensures
        csum(data, n, ch) == n * (c.channel(ch) as int),
    decreases n,
{
    if n > 0 {
        lemma_csum_uniform(data, n - 1, c, ch);
        assert(pchan(data, n - 1, ch) == c.channel(ch));
        assert(n * (c.channel(ch) as int) == (n - 1) * (c.channel(ch) as int) + c.channel(ch))
            by (nonlinear_arith);
    } else {
        assert(n * (c.channel(ch) as int) == 0) by (nonlinear_arith)
            requires
                n == 0,
        ;
    }
}

/// Over pixel data of a single color, the mean of every channel is exactly
/// that color's channel: floor division loses nothing when all values agree.
pub proof fn lemma_uniform_mean(data: Seq<u8>, n: int, c: Color)
    requires
        n > 0,
        uniform(data, n, c),
    ensures
        mean_channel(data, n, 0) == c.red,
        mean_channel(data, n, 1) == c.green,
        mean_channel(data, n, 2) == c.blue,
{
    lemma_csum_uniform(data, n, c, 0);
    lemma_csum_uniform(data, n, c, 1);
    lemma_csum_uniform(data, n, c, 2);
    lemma_div_multiples_vanish(c.red as int, n);
    lemma_div_multiples_vanish(c.green as int, n);
    lemma_div_multiples_vanish(c.blue as int, n);
    assert(n * (c.red as int) == (c.red as int) * n) by (nonlinear_arith);
    assert(n * (c.green as int) == (c.green as int) * n) by (nonlinear_arith);
    assert(n * (c.blue as int) == (c.blue as int) * n) by (nonlinear_arith);
}

/// A region cut out of a uniformly colored image is itself uniformly colored.
pub proof fn lemma_region_uniform(data: Seq<u8>, w: int, h: int, roi: Roi, c: Color)
    requires
        data.len() == 3 * (w * h),
        uniform(data, w * h, c),
        roi.within(w, h),
    ensures
        uniform(region_data(data, w, roi), roi.width * roi.height, c),
{
    let rd = region_data(data, w, roi);
    let rw = roi.width as int;
    let rh = roi.height as int;
    assert forall|p: int, ch: int|
        0 <= p < roi.width * roi.height && 0 <= ch < 3 implies #[trigger] pchan(rd, p, ch)
        == c.channel(ch) by {
        assert(rw > 0) by (nonlinear_arith)
            requires
                rw * rh > p >= 0 && rw >= 0 && rh >= 0,
        ;
        lemma_region_data_index(data, w, roi, p, ch);
        lemma_mod_bound(p, rw);
        lemma_multiply_divide_lt(p, rw, rh);
        lemma_div_pos_is_pos(p, rw);
        let xx = roi.x + p % rw;
        let yy = roi.y + p / rw;
        lemma_pixel_index_bound(w, h, xx, yy);
        assert(pchan(data, yy * w + xx, ch) == c.channel(ch));
    }
}

/// The region sampler returns exactly the color an entirely single-colored
/// image is filled with, over any region that lies within the image: the
/// mean of a constant is that constant.
pub proof fn lemma_region_sampler_uniform(data: Seq<u8>, w: int, h: int, roi: Roi, c: Color)
    requires
        data.len() == 3 * (w * h),
        uniform(data, w * h, c),
        roi.within(w, h),
        roi.nonempty(),
    ensures
        region_mean(data, w, roi) == c,
{
    lemma_region_uniform(data, w, h, roi, c);
    assert(roi.width * roi.height > 0) by (nonlinear_arith)
        requires
            roi.width > 0 && roi.height > 0,
    ;
    lemma_uniform_mean(region_data(data, w, roi), roi.width * roi.height, c);
}

} // verus!
