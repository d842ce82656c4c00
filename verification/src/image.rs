use vstd::prelude::*;

verus! {

/// One 8-bit RGB pixel of a rendered frame.
#[derive(Clone, Copy, PartialEq, Eq, Structural, Debug)]
pub struct Rgb {
    pub r: u8,
    pub g: u8,
    pub b: u8,
}

pub open spec fn black() -> Rgb {
    Rgb { r: 0, g: 0, b: 0 }
}

/// A grid of 8-bit RGB pixels, stored row-major.
#[derive(Clone, PartialEq, Eq, Debug)]
pub struct RgbImage {
    pub width: usize,
    pub height: usize,
    pub data: Vec<Rgb>,
}

impl RgbImage {
    pub open spec fn wf(&self) -> bool {
        self.data@.len() == self.width * self.height
    }

    /// The pixel in column `x` of row `y`.
    pub open spec fn spec_pix(&self, x: int, y: int) -> Rgb {
        self.data@[y * self.width + x]
    }

    /// A new image with every pixel black.
    pub fn new(width: usize, height: usize) -> (img: RgbImage)
        requires
            width * height <= usize::MAX,
        ensures
            img.wf(),
            img.width == width,
            img.height == height,
            img.data@ == Seq::new((width * height) as nat, |i: int| black()),
    {
        let n: usize = width * height;
        let mut data: Vec<Rgb> = Vec::new();
        let mut i: usize = 0;
        while i < n
            invariant
                i <= n,
                data@ =~= Seq::new(i as nat, |j: int| black()),
            decreases n - i,
        {
            data.push(Rgb { r: 0, g: 0, b: 0 });
            i = i + 1;
        }
        proof {
            assert(data@ =~= Seq::new(n as nat, |j: int| black()));
        }
        RgbImage { width, height, data }
    }

    /// The pixel in column `x` of row `y`.
    pub fn pix(&self, x: usize, y: usize) -> (p: Rgb)
        requires
            self.wf(),
            x < self.width,
            y < self.height,
        ensures
            p == self.spec_pix(x as int, y as int),
    {
        let n = self.data.len();
        proof {
            index_in_bounds(x as int, y as int, self.width as int, self.height as int);
            assert(y * self.width + x < n);
        }
        self.data[y * self.width + x]
    }
}

/// A grid of raw 16-bit sensor samples (tenths of a degree), stored row-major.
#[derive(Clone, PartialEq, Eq, Debug)]
pub struct GrayImage {
    pub width: usize,
    pub height: usize,
    pub data: Vec<u16>,
}

impl GrayImage {
    pub open spec fn wf(&self) -> bool {
        self.data@.len() == self.width * self.height
    }

    /// The sample in column `x` of row `y`.
    pub open spec fn spec_sample(&self, x: int, y: int) -> u16 {
        self.data@[y * self.width + x]
    }

    /// The sample in column `x` of row `y`.
    pub fn sample(&self, x: usize, y: usize) -> (v: u16)
        requires
            self.wf(),
            x < self.width,
            y < self.height,
        ensures
            v == self.spec_sample(x as int, y as int),
    {
        let n = self.data.len();
        proof {
            index_in_bounds(x as int, y as int, self.width as int, self.height as int);
            assert(y * self.width + x < n);
        }
        self.data[y * self.width + x]
    }
}

/// Row-major indexing stays within a `width * height` grid.
pub proof fn index_in_bounds(x: int, y: int, width: int, height: int)
    requires
        0 <= x < width,
        0 <= y < height,
    ensures
        0 <= y * width + x < width * height,
{
    assert(y * width + x < width * height) by (nonlinear_arith)
        requires
            0 <= x < width,
            0 <= y < height,
    ;
    assert(y * width + x >= 0) by (nonlinear_arith)
        requires
            0 <= x,
            0 <= y,
            0 < width,
    ;
}

/// The smallest sample of a non-empty raster (0 for an empty one).
pub open spec fn spec_min(s: Seq<u16>) -> u16
    decreases s.len(),
{
    if s.len() == 0 {
        0
    } else if s.len() == 1 {
        s[0]
    } else {
        let m = spec_min(s.drop_last());
        if s.last() < m {
            s.last()
        } else {
            m
        }
    }
}

/// The largest sample of a non-empty raster (0 for an empty one).
pub open spec fn spec_max(s: Seq<u16>) -> u16
    decreases s.len(),
{
    if s.len() == 0 {
        0
    } else if s.len() == 1 {
        s[0]
    } else {
        let m = spec_max(s.drop_last());
        if s.last() > m {
            s.last()
        } else {
            m
        }
    }
}

/// The minimum and maximum bound every sample, and both are attained.
pub proof fn lemma_min_max_bounds(s: Seq<u16>)
    requires
        s.len() > 0,
    ensures
        forall|i: int| 0 <= i < s.len() ==> spec_min(s) <= #[trigger] s[i] <= spec_max(s),
        exists|i: int| 0 <= i < s.len() && s[i] == spec_min(s),
        exists|i: int| 0 <= i < s.len() && s[i] == spec_max(s),
    decreases s.len(),
{
    if s.len() == 1 {
        assert(s[0] == spec_min(s));
        assert(s[0] == spec_max(s));
    } else {
        lemma_min_max_bounds(s.drop_last());
        let d = s.drop_last();
        assert forall|i: int| 0 <= i < s.len() implies spec_min(s) <= #[trigger] s[i] <= spec_max(
            s,
        ) by {
            if i < s.len() - 1 {
                assert(s[i] == d[i]);
            }
        }
        if spec_min(s) != s.last() {
            let i = choose|i: int| 0 <= i < d.len() && d[i] == spec_min(d);
            assert(s[i] == spec_min(s));
        }
        if spec_max(s) != s.last() {
            let i = choose|i: int| 0 <= i < d.len() && d[i] == spec_max(d);
            assert(s[i] == spec_max(s));
        }
    }
}

/// A raster whose samples are all equal has that value as both its
/// minimum and its maximum: it has no dynamic range.
pub proof fn lemma_uniform_min_max(s: Seq<u16>, v: u16)
    requires
        s.len() > 0,
        forall|i: int| 0 <= i < s.len() ==> s[i] == v,
    ensures
        spec_min(s) == v,
        spec_max(s) == v,
    decreases s.len(),
{
    if s.len() == 1 {
        assert(s[0] == v);
    } else {
        let d = s.drop_last();
        assert forall|i: int| 0 <= i < d.len() implies d[i] == v by {
            assert(d[i] == s[i]);
        }
        lemma_uniform_min_max(d, v);
        assert(s.last() == v);
    }
}

/// The dynamic range of a raster: its smallest and largest sample.
pub fn min_max(g: &GrayImage) -> (r: (u16, u16))
    requires
        g.wf(),
        g.data@.len() > 0,
    ensures
        r.0 == spec_min(g.data@),
        r.1 == spec_max(g.data@),
{
    let n = g.data.len();
    let mut lo: u16 = g.data[0];
    let mut hi: u16 = g.data[0];
    let mut i: usize = 1;
    while i < n
        invariant
            1 <= i <= n,
            n == g.data@.len(),
            lo == spec_min(g.data@.take(i as int)),
            hi == spec_max(g.data@.take(i as int)),
        decreases n - i,
    {
        let v = g.data[i];
        proof {
            assert(g.data@.take(i + 1).drop_last() =~= g.data@.take(i as int));
            assert(g.data@.take(i + 1).last() == g.data@[i as int]);
        }
        if v < lo {
            lo = v;
        }
        if v > hi {
            hi = v;
        }
        i = i + 1;
    }
    proof {
        assert(g.data@.take(n as int) =~= g.data@);
    }
    (lo, hi)
}

/// The 16-bit little-endian value encoded by a pair of bytes.
pub open spec fn le_u16(lo: u8, hi: u8) -> u16 {
    (lo + 256 * hi) as u16
}

/// Decode a raster of `width * height` 16-bit little-endian samples from
/// a byte stream snapshot, in row-major order from the start of `bytes`.
pub fn decode_raster(bytes: &Vec<u8>, width: usize, height: usize) -> (img: GrayImage)
    requires
        width * height * 2 == bytes@.len(),
    ensures
        img.wf(),
        img.width == width,
        img.height == height,
        forall|i: int|
            0 <= i < width * height ==> img.data@[i] == le_u16(bytes@[2 * i], bytes@[2 * i + 1]),
{
    let len: usize = bytes.len();
    let n: usize = len / 2;
    proof {
        assert(n == width * height);
    }
    let mut data: Vec<u16> = Vec::new();
    let mut i: usize = 0;
    while i < n
        invariant
            i <= n,
            2 * n == bytes@.len(),
            2 * n <= usize::MAX,
            data@.len() == i,
            forall|j: int| 0 <= j < i ==> data@[j] == le_u16(bytes@[2 * j], bytes@[2 * j + 1]),
        decreases n - i,
    {
        let lo = bytes[2 * i];
        let hi = bytes[2 * i + 1];
        let v: u16 = lo as u16 + 256 * (hi as u16);
        data.push(v);
        i = i + 1;
    }
    GrayImage { width, height, data }
}

} // verus!
