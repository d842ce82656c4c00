use crate::image::{black, index_in_bounds, Rgb, RgbImage};
use vstd::arithmetic::div_mod::{
    lemma_div_is_ordered, lemma_div_pos_is_pos, lemma_fundamental_div_mod,
    lemma_fundamental_div_mod_converse, lemma_mod_bound,
};
use vstd::prelude::*;

verus! {

/// A scaled palette position: the exact rational `num / den` in `[0, 1]`.
#[derive(Clone, Copy, PartialEq, Eq, Structural, Debug)]
pub struct Scaled {
    pub num: u32,
    pub den: u32,
}

impl Scaled {
    /// The position is a proper fraction, and its denominator is at most
    /// `200 * 65535`, the largest a 16-bit dynamic range produces.
    pub open spec fn wf(&self) -> bool {
        0 < self.den && self.num <= self.den && self.den <= 200 * 65535
    }
}

/// Where a sample sits in the palette. The sample is first normalized
/// over the raster's dynamic range `[min, max]`, then compressed onto a
/// centered sub-range whose width is `color_range` percent of the palette:
///
///     num / den  ==  (1 - cr) / 2  +  (v - min) / (max - min) * cr,
///
/// with `cr = color_range / 100`. A raster whose samples are all equal
/// has no dynamic range; the whole frame is mapped to mid-scale (1/2).
pub open spec fn spec_scaled_value(input: u16, min: u16, max: u16, color_range: u8) -> Scaled {
    if min == max {
        Scaled { num: 1, den: 2 }
    } else {
        Scaled {
            num: ((100 - color_range) * (max - min) + 2 * (input - min) * color_range) as u32,
            den: (200 * (max - min)) as u32,
        }
    }
}

/// Map one raw sample to its palette position.
pub fn map_to_scaled_value(input: u16, min: u16, max: u16, color_range: u8) -> (s: Scaled)
    requires
        min <= input <= max,
        color_range <= 100,
    ensures
        s == spec_scaled_value(input, min, max, color_range),
        s.wf(),
{
    if min == max {
        Scaled { num: 1, den: 2 }
    } else {
        let cr: u32 = color_range as u32;
        let span: u32 = (max - min) as u32;
        let dv: u32 = (input - min) as u32;
        proof {
            assert((100 - cr) * span + 2 * dv * cr <= 200 * span <= 200 * 65535)
                by (nonlinear_arith)
                requires
                    cr <= 100,
                    0 < span <= 65535,
                    dv <= span,
            ;
        }
        let num: u32 = (100 - cr) * span + 2 * dv * cr;
        let den: u32 = 200 * span;
        Scaled { num, den }
    }
}

/// At the minimum sample of a raster with some dynamic range, the scaled
/// value is exactly `(1 - cr) / 2`, for every color range: cross-multiplied,
/// `num / den == (100 - color_range) / 200`.
pub proof fn lemma_scaled_value_at_min(min: u16, max: u16, color_range: u8)
    requires
        min < max,
        color_range <= 100,
    ensures
        200 * spec_scaled_value(min, min, max, color_range).num == (100 - color_range)
            * spec_scaled_value(min, min, max, color_range).den,
{
    let s = spec_scaled_value(min, min, max, color_range);
    let span = max - min;
    let num_val = (100 - color_range) * span + 2 * (min - min) * color_range;
    let den_val = 200 * span;
    assert(0 <= num_val <= 200 * 65535 && 0 < den_val <= 200 * 65535) by (nonlinear_arith)
        requires
            color_range <= 100,
            0 < span <= 65535,
            num_val == (100 - color_range) * span + 2 * (min - min) * color_range,
            den_val == 200 * span,
    ;
    assert(s.num == num_val && s.den == den_val);
    assert(200 * num_val == (100 - color_range) * den_val) by (nonlinear_arith)
        requires
            num_val == (100 - color_range) * span + 2 * (min - min) * color_range,
            den_val == 200 * span,
    ;
}

/// At the maximum sample of a raster with some dynamic range, the scaled
/// value is exactly `(1 - cr) / 2 + cr`, for every color range:
/// cross-multiplied, `num / den == (100 + color_range) / 200`.
pub proof fn lemma_scaled_value_at_max(min: u16, max: u16, color_range: u8)
    requires
        min < max,
        color_range <= 100,
    ensures
        200 * spec_scaled_value(max, min, max, color_range).num == (100 + color_range)
            * spec_scaled_value(max, min, max, color_range).den,
{
    let s = spec_scaled_value(max, min, max, color_range);
    let span = max - min;
    let num_val = (100 - color_range) * span + 2 * span * color_range;
    let den_val = 200 * span;
    assert(0 <= num_val <= 400 * 65535 && 0 < den_val <= 200 * 65535) by (nonlinear_arith)
        requires
            color_range <= 100,
            0 < span <= 65535,
            num_val == (100 - color_range) * span + 2 * span * color_range,
            den_val == 200 * span,
    ;
    assert(s.num == num_val && s.den == den_val);
    assert(200 * num_val == (100 + color_range) * den_val) by (nonlinear_arith)
        requires
            num_val == (100 - color_range) * span + 2 * span * color_range,
            den_val == 200 * span,
    ;
}

/// `num / den` rounded to the nearest integer, halves rounded up.
pub open spec fn spec_round_div(num: int, den: int) -> int {
    (2 * num + den) / (2 * den)
}

/// The rounded quotient of a value at most `bound * den` is at most `bound`.
pub proof fn lemma_round_div_le(num: int, den: int, bound: int)
    requires
        0 < den,
        0 <= num,
        num <= bound * den,
        0 <= bound,
    ensures
        0 <= spec_round_div(num, den) <= bound,
{
    let d2 = 2 * den;
    assert(2 * num + den <= bound * d2 + den) by (nonlinear_arith)
        requires
            num <= bound * den,
            d2 == 2 * den,
    ;
    lemma_fundamental_div_mod_converse(bound * d2 + den, d2, bound, den);
    lemma_div_is_ordered(2 * num + den, bound * d2 + den, d2);
    lemma_div_pos_is_pos(2 * num + den, d2);
}

/// Division rounded to nearest, halves rounded up.
pub fn round_div(num: u64, den: u64) -> (q: u64)
    requires
        0 < den,
        num <= u32::MAX,
        den <= u32::MAX,
    ensures
        q == spec_round_div(num as int, den as int),
{
    (2 * num + den) / (2 * den)
}

/// Mirror axes of the geometry stage.
#[derive(Clone, Copy, PartialEq, Eq, Structural, Debug)]
pub enum Flip {
    Horizontal,
    Vertical,
}

/// The row-major index of the pixel that lands at index `i` after the flip.
/// A horizontal flip reflects the column across the vertical center line;
/// a vertical flip reflects the row across the horizontal center line.
pub open spec fn flip_src(i: int, width: int, height: int, flip: Flip) -> int {
    match flip {
        Flip::Horizontal => (i / width) * width + (width - 1 - (i % width)),
        Flip::Vertical => (height - 1 - (i / width)) * width + (i % width),
    }
}

/// The pixels of a `width` by `height` image after mirroring.
pub open spec fn spec_flip(pixels: Seq<Rgb>, width: int, height: int, flip: Flip) -> Seq<Rgb> {
    Seq::new(pixels.len(), |i: int| pixels[flip_src(i, width, height, flip)])
}

/// A flipped index stays in range, and flipping it again leads back:
/// each flip is its own inverse on indices.
pub proof fn lemma_flip_src_involution(i: int, width: int, height: int, flip: Flip)
    requires
        0 < width,
        0 < height,
        0 <= i < width * height,
    ensures
        0 <= flip_src(i, width, height, flip) < width * height,
        flip_src(flip_src(i, width, height, flip), width, height, flip) == i,
{
    let x = i % width;
    let y = i / width;
    lemma_fundamental_div_mod(i, width);
    lemma_mod_bound(i, width);
    assert(0 <= y) by (nonlinear_arith)
        requires
            0 <= i,
            0 < width,
            i == width * y + x,
            0 <= x < width,
    ;
    assert(y < height) by (nonlinear_arith)
        requires
            i < width * height,
            i == width * y + x,
            0 <= x,
            0 < width,
    ;
    match flip {
        Flip::Horizontal => {
            let j = y * width + (width - 1 - x);
            index_in_bounds(width - 1 - x, y, width, height);
            lemma_fundamental_div_mod_converse(j, width, y, width - 1 - x);
        },
        Flip::Vertical => {
            let j = (height - 1 - y) * width + x;
            index_in_bounds(x, height - 1 - y, width, height);
            lemma_fundamental_div_mod_converse(j, width, height - 1 - y, x);
        },
    }
}

/// Each flip is an involution: mirroring an image twice along the same
/// axis restores the original image, pixel for pixel.
pub proof fn lemma_flip_involution(pixels: Seq<Rgb>, width: int, height: int, flip: Flip)
    requires
        0 <= width,
        0 <= height,
        pixels.len() == width * height,
    ensures
        spec_flip(spec_flip(pixels, width, height, flip), width, height, flip) == pixels,
{
    let once = spec_flip(pixels, width, height, flip);
    let twice = spec_flip(once, width, height, flip);
    if width == 0 || height == 0 {
        assert(pixels.len() == 0) by (nonlinear_arith)
            requires
                pixels.len() == width * height,
                width == 0 || height == 0,
        ;
        assert(twice =~= pixels);
    } else {
        assert forall|i: int| 0 <= i < twice.len() implies twice[i] == pixels[i] by {
            lemma_flip_src_involution(i, width, height, flip);
            lemma_flip_src_involution(flip_src(i, width, height, flip), width, height, flip);
        }
        assert(twice =~= pixels);
    }
}

/// Mirror a finished image along one axis.
pub fn flip_image(img: &RgbImage, flip: Flip) -> (out: RgbImage)
    requires
        img.wf(),
    ensures
        out.wf(),
        out.width == img.width,
        out.height == img.height,
        out.data@ == spec_flip(img.data@, img.width as int, img.height as int, flip),
{
    let target = Ghost(spec_flip(img.data@, img.width as int, img.height as int, flip));
    let n = img.data.len();
    let mut data: Vec<Rgb> = Vec::new();
    let mut i: usize = 0;
    while i < n
        invariant
            i <= n,
            n == img.data@.len(),
            img.wf(),
            n == img.width * img.height,
            target@ == spec_flip(img.data@, img.width as int, img.height as int, flip),
            data@.len() == i,
            forall|k: int| 0 <= k < i ==> data@[k] == target@[k],
        decreases n - i,
    {
        proof {
            assert(0 < img.width && 0 < img.height) by (nonlinear_arith)
                requires
                    i < n,
                    n == img.width * img.height,
            ;
            lemma_flip_src_involution(i as int, img.width as int, img.height as int, flip);
        }
        let x = i % img.width;
        let y = i / img.width;
        proof {
            lemma_fundamental_div_mod(i as int, img.width as int);
            lemma_mod_bound(i as int, img.width as int);
            assert(y < img.height) by (nonlinear_arith)
                requires
                    i < n,
                    n == img.width * img.height,
                    i as int == img.width * (y as int) + (x as int),
                    0 <= x as int,
                    0 < img.width,
            ;
        }
        let p = match flip {
            Flip::Horizontal => img.pix(img.width - 1 - x, y),
            Flip::Vertical => img.pix(x, img.height - 1 - y),
        };
        proof {
            assert(p == target@[i as int]);
        }
        data.push(p);
        i = i + 1;
    }
    proof {
        assert(data@ =~= target@);
    }
    RgbImage { width: img.width, height: img.height, data }
}

/// A new all-black image, used by the display layer while disconnected.
pub fn generate_black_image(width: usize, height: usize) -> (img: RgbImage)
    requires
        width * height <= usize::MAX,
    ensures
        img.wf(),
        img.width == width,
        img.height == height,
        img.data@ == Seq::new((width * height) as nat, |i: int| black()),
{
    RgbImage::new(width, height)
}

} // verus!
