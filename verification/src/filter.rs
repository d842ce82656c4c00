use crate::image::{index_in_bounds, GrayImage};
use crate::image_utils::{lemma_round_div_le, round_div, spec_round_div};
use crate::settings::{
    lemma_weight_sum_mono, lemma_weight_sum_nonneg, weight_sum, EdgeStrategy, Kernel,
};
use vstd::arithmetic::div_mod::{lemma_fundamental_div_mod, lemma_mod_bound};
use vstd::prelude::*;

verus! {

/// The in-range coordinate that a coordinate up to one grid outside the
/// border resolves to. `Extend` clamps to the border, `Wrap` goes around
/// the torus, `Mirror` reflects across the border; `Constant` does not
/// resolve coordinates (it pads with a constant value) and leaves the
/// coordinate as it is.
pub open spec fn resolve_coord(c: int, n: int, e: EdgeStrategy) -> int {
    match e {
        EdgeStrategy::Constant => c,
        EdgeStrategy::Extend => if c < 0 {
            0
        } else if c >= n {
            n - 1
        } else {
            c
        },
        EdgeStrategy::Wrap => if c < 0 {
            c + n
        } else if c >= n {
            c - n
        } else {
            c
        },
        EdgeStrategy::Mirror => if c < 0 {
            -c - 1
        } else if c >= n {
            2 * n - 1 - c
        } else {
            c
        },
    }
}

/// The neighbor value the convolution reads at raster coordinates
/// `(x, y)`, which may lie just outside the grid: `Constant` pads the
/// outside with zero, every other strategy reads the resolved in-range
/// coordinates.
pub open spec fn spec_neighbor(g: GrayImage, x: int, y: int, e: EdgeStrategy) -> u16 {
    if 0 <= x < g.width && 0 <= y < g.height {
        g.spec_sample(x, y)
    } else if e is Constant {
        0
    } else {
        g.spec_sample(resolve_coord(x, g.width as int, e), resolve_coord(y, g.height as int, e))
    }
}

/// Resolve one coordinate. The result is in range for every strategy but
/// `Constant`, whose out-of-range neighbors are never read.
fn resolve_coord_exec(c: i64, n: i64, e: EdgeStrategy) -> (r: i64)
    requires
        1 <= n <= 65536,
        -n <= c < 2 * n,
    ensures
        r == resolve_coord(c as int, n as int, e),
        !(e is Constant) ==> 0 <= r < n,
{
    match e {
        EdgeStrategy::Constant => c,
        EdgeStrategy::Extend => if c < 0 {
            0
        } else if c >= n {
            n - 1
        } else {
            c
        },
        EdgeStrategy::Wrap => if c < 0 {
            c + n
        } else if c >= n {
            c - n
        } else {
            c
        },
        EdgeStrategy::Mirror => if c < 0 {
            -c - 1
        } else if c >= n {
            2 * n - 1 - c
        } else {
            c
        },
    }
}

/// Read the neighbor at offset `(dx - 1, dy - 1)` from `(x, y)`.
fn neighbor(g: &GrayImage, x: usize, y: usize, dx: usize, dy: usize, e: EdgeStrategy) -> (v: u16)
    requires
        g.wf(),
        1 <= g.width <= 65536,
        1 <= g.height <= 65536,
        x < g.width,
        y < g.height,
        dx < 3,
        dy < 3,
    ensures
        v == spec_neighbor(*g, x + dx - 1, y + dy - 1, e),
{
    let xi: i64 = x as i64 + dx as i64 - 1;
    let yi: i64 = y as i64 + dy as i64 - 1;
    let w: i64 = g.width as i64;
    let h: i64 = g.height as i64;
    if 0 <= xi && xi < w && 0 <= yi && yi < h {
        g.sample(xi as usize, yi as usize)
    } else if matches!(e, EdgeStrategy::Constant) {
        0
    } else {
        let rx = resolve_coord_exec(xi, w, e);
        let ry = resolve_coord_exec(yi, h, e);
        g.sample(rx as usize, ry as usize)
    }
}

/// The weighted neighborhood sum of the first `k` kernel positions at
/// `(x, y)`: position `j` has offset `(j % 3 - 1, j / 3 - 1)`.
pub open spec fn spec_conv_num(
    g: GrayImage,
    x: int,
    y: int,
    w: Seq<u32>,
    e: EdgeStrategy,
    k: int,
) -> int
    decreases k,
{
    if k <= 0 {
        0
    } else {
        spec_conv_num(g, x, y, w, e, k - 1) + w[k - 1] * spec_neighbor(
            g,
            x + (k - 1) % 3 - 1,
            y + (k - 1) / 3 - 1,
            e,
        )
    }
}

/// The weighted sum is bounded by the weight sum times the largest sample.
pub proof fn lemma_conv_num_bound(
    g: GrayImage,
    x: int,
    y: int,
    w: Seq<u32>,
    e: EdgeStrategy,
    k: int,
)
    requires
        0 <= k <= w.len(),
    ensures
        0 <= spec_conv_num(g, x, y, w, e, k) <= weight_sum(w, k) * 65535,
    decreases k,
{
    if k > 0 {
        lemma_conv_num_bound(g, x, y, w, e, k - 1);
        lemma_weight_sum_nonneg(w, k - 1);
        let wk = w[k - 1] as int;
        let v = spec_neighbor(g, x + (k - 1) % 3 - 1, y + (k - 1) / 3 - 1, e) as int;
        assert(wk * v <= wk * 65535 && 0 <= wk * v) by (nonlinear_arith)
            requires
                0 <= v <= 65535,
                0 <= wk,
        ;
        assert((weight_sum(w, k - 1) + wk) * 65535 == weight_sum(w, k - 1) * 65535 + wk * 65535)
            by (nonlinear_arith);
    }
}

/// The filtered sample at `(x, y)`: the weighted sum of the 3x3
/// neighborhood, divided by the kernel divisor and rounded to nearest.
pub open spec fn spec_filtered_sample(g: GrayImage, x: int, y: int, kernel: Kernel) -> int {
    spec_round_div(
        spec_conv_num(g, x, y, kernel.weights@, kernel.edge_strategy, 9),
        kernel.divisor as int,
    )
}

/// The samples of a raster after convolution with a kernel.
pub open spec fn spec_filter(g: GrayImage, kernel: Kernel) -> Seq<u16> {
    Seq::new(
        g.data@.len(),
        |i: int|
            spec_filtered_sample(
                g,
                i % g.width as int,
                i / g.width as int,
                kernel,
            ) as u16,
    )
}

/// Each single weight is at most the whole weight sum.
proof fn lemma_weight_le_sum(w: Seq<u32>, k: int)
    requires
        0 <= k < w.len(),
    ensures
        w[k] <= weight_sum(w, w.len() as int),
{
    lemma_weight_sum_nonneg(w, k);
    lemma_weight_sum_mono(w, k + 1, w.len() as int);
}

/// Convolve a raster with a 3x3 kernel. The output raster has the same
/// dimensions; each sample is the rounded, divisor-normalized weighted
/// sum of its neighborhood under the kernel's edge strategy.
pub fn apply_kernel(g: &GrayImage, kernel: &Kernel) -> (out: GrayImage)
    requires
        g.wf(),
        kernel.wf(),
        1 <= g.width <= 65536,
        1 <= g.height <= 65536,
    ensures
        out.wf(),
        out.width == g.width,
        out.height == g.height,
        out.data@ == spec_filter(*g, *kernel),
{
    let target = Ghost(spec_filter(*g, *kernel));
    let n = g.data.len();
    let mut data: Vec<u16> = Vec::new();
    let mut i: usize = 0;
    while i < n
        invariant
            i <= n,
            n == g.data@.len(),
            g.wf(),
            kernel.wf(),
            kernel.divisor <= 65536,
            1 <= g.width <= 65536,
            1 <= g.height <= 65536,
            n == g.width * g.height,
            target@ == spec_filter(*g, *kernel),
            data@.len() == i,
            forall|j: int| 0 <= j < i ==> data@[j] == target@[j],
        decreases n - i,
    {
        let x = i % g.width;
        let y = i / g.width;
        proof {
            lemma_fundamental_div_mod(i as int, g.width as int);
            lemma_mod_bound(i as int, g.width as int);
            assert(y < g.height) by (nonlinear_arith)
                requires
                    i < n,
                    n == g.width * g.height,
                    i as int == g.width * (y as int) + (x as int),
                    0 <= x as int,
                    0 < g.width,
            ;
        }
        let ghost w_seq = kernel.weights@;
        let ghost e = kernel.edge_strategy;
        let mut acc: u64 = 0;
        let mut k: usize = 0;
        while k < 9
            invariant
                k <= 9,
                g.wf(),
                kernel.wf(),
                kernel.divisor <= 65536,
                1 <= g.width <= 65536,
                1 <= g.height <= 65536,
                x < g.width,
                y < g.height,
                w_seq == kernel.weights@,
                e == kernel.edge_strategy,
                acc == spec_conv_num(*g, x as int, y as int, w_seq, e, k as int),
            decreases 9 - k,
        {
            let dx = k % 3;
            let dy = k / 3;
            let v = neighbor(g, x, y, dx, dy, kernel.edge_strategy);
            let wgt = kernel.weights[k];
            proof {
                lemma_weight_le_sum(w_seq, k as int);
                lemma_conv_num_bound(*g, x as int, y as int, w_seq, e, k as int);
                lemma_weight_sum_mono(w_seq, k as int + 1, 9);
                assert(wgt * v <= wgt * 65535 && wgt * v <= 65536 * 65535 && 0 <= wgt * v)
                    by (nonlinear_arith)
                    requires
                        0 <= wgt <= 65536,
                        0 <= v <= 65535,
                ;
                assert(acc + wgt * v <= (weight_sum(w_seq, k as int) + wgt) * 65535)
                    by (nonlinear_arith)
                    requires
                        acc <= weight_sum(w_seq, k as int) * 65535,
                        wgt * v <= wgt * 65535,
                ;
                assert(weight_sum(w_seq, k + 1) == weight_sum(w_seq, k as int) + wgt);
                assert(weight_sum(w_seq, k + 1) * 65535 <= weight_sum(w_seq, 9) * 65535)
                    by (nonlinear_arith)
                    requires
                        weight_sum(w_seq, k + 1) <= weight_sum(w_seq, 9),
                ;
            }
            acc = acc + (wgt as u64) * (v as u64);
            k = k + 1;
        }
        proof {
            lemma_conv_num_bound(*g, x as int, y as int, w_seq, e, 9);
            assert(weight_sum(w_seq, 9) * 65535 == 65535 * kernel.divisor) by (nonlinear_arith)
                requires
                    weight_sum(w_seq, 9) == kernel.divisor,
            ;
            lemma_round_div_le(acc as int, kernel.divisor as int, 65535);
        }
        let q = round_div(acc, kernel.divisor as u64);
        data.push(q as u16);
        i = i + 1;
    }
    proof {
        assert(data@ =~= target@);
    }
    GrayImage { width: g.width, height: g.height, data }
}

/// The filter stage: the raster unchanged when no kernel is selected,
/// the convolution of the raster with the kernel otherwise.
pub open spec fn spec_filter_stage(g: GrayImage, kernel: Option<Kernel>) -> Seq<u16> {
    match kernel {
        Option::None => g.data@,
        Option::Some(k) => spec_filter(g, k),
    }
}

/// Run the filter stage over a raster.
pub fn filter_image(g: &GrayImage, kernel: &Option<Kernel>) -> (out: GrayImage)
    requires
        g.wf(),
        kernel matches Some(k) ==> k.wf(),
        1 <= g.width <= 65536,
        1 <= g.height <= 65536,
    ensures
        out.wf(),
        out.width == g.width,
        out.height == g.height,
        out.data@ == spec_filter_stage(*g, *kernel),
{
    match kernel {
        Option::Some(k) => apply_kernel(g, k),
        Option::None => {
            let n = g.data.len();
            let mut data: Vec<u16> = Vec::new();
            let mut i: usize = 0;
            while i < n
                invariant
                    i <= n,
                    n == g.data@.len(),
                    data@ == g.data@.take(i as int),
                decreases n - i,
            {
                data.push(g.data[i]);
                proof {
                    assert(data@ =~= g.data@.take(i + 1));
                }
                i = i + 1;
            }
            proof {
                assert(data@ =~= g.data@);
            }
            GrayImage { width: g.width, height: g.height, data }
        },
    }
}

} // verus!
