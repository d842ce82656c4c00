use vstd::prelude::*;

verus! {

/// Smoothing applied to a raster before colorization.
#[derive(Clone, Copy, PartialEq, Eq, Structural, Debug)]
pub enum FilteringMethod {
    Identity,
    Box3x3,
    Gaussian3x3,
}

/// How out-of-bounds neighbors are synthesized during convolution.
#[derive(Clone, Copy, PartialEq, Eq, Structural, Debug)]
pub enum EdgeStrategy {
    Constant,
    Extend,
    Wrap,
    Mirror,
}

/// The palette that turns normalized samples into colors.
#[derive(Clone, Copy, PartialEq, Eq, Structural, Debug)]
pub enum ColorMap {
    Turbo,
    Magma,
    Bluered,
    Breeze,
    Mist,
    LinearBlueRed,
    LinearBlackWhite,
}

/// A snapshot of the live configuration. Replaced wholesale on update.
#[derive(Clone, Copy, PartialEq, Eq, Structural, Debug)]
pub struct Settings {
    pub flip_horizontally: bool,
    pub flip_vertically: bool,
    pub filtering_method: FilteringMethod,
    pub edge_strategy: EdgeStrategy,
    pub colormap: ColorMap,
    pub emissivity: u8,
    pub color_range: u8,
}

impl Settings {
    /// Emissivity and color range are percentages; the settings producer
    /// clamps both to 0..=100 before sending a snapshot.
    pub open spec fn valid(&self) -> bool {
        self.emissivity <= 100 && self.color_range <= 100
    }
}

pub open spec fn spec_default_settings() -> Settings {
    Settings {
        flip_horizontally: false,
        flip_vertically: false,
        filtering_method: FilteringMethod::Box3x3,
        edge_strategy: EdgeStrategy::Extend,
        colormap: ColorMap::Turbo,
        emissivity: 95,
        color_range: 100,
    }
}

impl Default for Settings {
    fn default() -> (s: Settings)
        ensures
            s == spec_default_settings(),
            s.valid(),
    {
        Settings {
            flip_horizontally: false,
            flip_vertically: false,
            filtering_method: FilteringMethod::Box3x3,
            edge_strategy: EdgeStrategy::Extend,
            colormap: ColorMap::Turbo,
            emissivity: 95,
            color_range: 100,
        }
    }
}

/// The all-ones kernel of the box filter: the arithmetic mean of the
/// 3x3 neighborhood.
pub open spec fn box_weights() -> Seq<u32> {
    seq![1u32, 1, 1, 1, 1, 1, 1, 1, 1]
}

/// The conventional 3x3 Gaussian low-pass kernel, with fixed binomial
/// weights over a divisor of 16.
pub open spec fn gaussian_weights() -> Seq<u32> {
    seq![1u32, 2, 1, 2, 4, 2, 1, 2, 1]
}

/// A 3x3 convolution kernel: nine non-negative weights in row-major
/// order, a divisor the weighted sum is divided by, and the edge policy.
pub struct Kernel {
    pub weights: Vec<u32>,
    pub divisor: u32,
    pub edge_strategy: EdgeStrategy,
}

/// The sum of the first `k` kernel weights.
pub open spec fn weight_sum(w: Seq<u32>, k: int) -> int
    decreases k,
{
    if k <= 0 {
        0
    } else {
        weight_sum(w, k - 1) + w[k - 1]
    }
}

impl Kernel {
    /// The kernels in use are normalized: the weights sum to the divisor,
    /// so filtering cannot brighten a uniform raster. The divisor of such
    /// a small kernel is modest, which keeps the weighted sums in range.
    pub open spec fn wf(&self) -> bool {
        &&& self.weights@.len() == 9
        &&& 0 < self.divisor <= 65536
        &&& weight_sum(self.weights@, 9) == self.divisor
    }
}

/// A prefix of the weight sum never exceeds the whole sum.
pub proof fn lemma_weight_sum_mono(w: Seq<u32>, k1: int, k2: int)
    requires
        0 <= k1 <= k2 <= w.len(),
    ensures
        weight_sum(w, k1) <= weight_sum(w, k2),
    decreases k2 - k1,
{
    if k1 < k2 {
        lemma_weight_sum_mono(w, k1, k2 - 1);
    }
}

/// The weight sum is never negative.
pub proof fn lemma_weight_sum_nonneg(w: Seq<u32>, k: int)
    requires
        k <= w.len(),
    ensures
        0 <= weight_sum(w, k),
    decreases k,
{
    if k > 0 {
        lemma_weight_sum_nonneg(w, k - 1);
    }
}

impl FilteringMethod {
    /// The kernel selected by this filtering method, with the given edge
    /// policy; identity filtering selects none.
    pub fn get_kernel(&self, edge_strategy: EdgeStrategy) -> (k: Option<Kernel>)
        ensures
            kernel_matches(k, *self, edge_strategy),
            k matches Some(kernel) ==> kernel.wf(),
    {
        match self {
            FilteringMethod::Identity => Option::None,
            FilteringMethod::Box3x3 => {
                let mut weights: Vec<u32> = Vec::new();
                let mut i: usize = 0;
                while i < 9
                    invariant
                        i <= 9,
                        weights@ =~= box_weights().take(i as int),
                    decreases 9 - i,
                {
                    weights.push(1);
                    i = i + 1;
                }
                proof {
                    assert(weights@ =~= box_weights());
                    reveal_with_fuel(weight_sum, 10);
                    assert(weight_sum(box_weights(), 9) == 9);
                }
                Option::Some(Kernel { weights, divisor: 9, edge_strategy })
            },
            FilteringMethod::Gaussian3x3 => {
                let mut weights: Vec<u32> = Vec::new();
                weights.push(1);
                weights.push(2);
                weights.push(1);
                weights.push(2);
                weights.push(4);
                weights.push(2);
                weights.push(1);
                weights.push(2);
                weights.push(1);
                proof {
                    assert(weights@ =~= gaussian_weights());
                    reveal_with_fuel(weight_sum, 10);
                    assert(weight_sum(gaussian_weights(), 9) == 16);
                }
                Option::Some(Kernel { weights, divisor: 16, edge_strategy })
            },
        }
    }
}

/// The kernel a filtering method and edge policy call for.
pub open spec fn kernel_matches(
    k: Option<Kernel>,
    method: FilteringMethod,
    edge_strategy: EdgeStrategy,
) -> bool {
    match method {
        FilteringMethod::Identity => k is None,
        FilteringMethod::Box3x3 => k matches Some(kernel) && kernel.weights@ == box_weights()
            && kernel.divisor == 9 && kernel.edge_strategy == edge_strategy,
        FilteringMethod::Gaussian3x3 => k matches Some(kernel) && kernel.weights@
            == gaussian_weights() && kernel.divisor == 16 && kernel.edge_strategy == edge_strategy,
    }
}

impl Settings {
    /// The kernel of the filter stage under these settings.
    pub fn get_kernel(&self) -> (k: Option<Kernel>)
        ensures
            kernel_matches(k, self.filtering_method, self.edge_strategy),
            k matches Some(kernel) ==> kernel.wf(),
    {
        self.filtering_method.get_kernel(self.edge_strategy)
    }
}

impl FilteringMethod {
    /// Every filtering method, in the order a picker offers them.
    pub fn all_variants() -> (v: Vec<FilteringMethod>)
        ensures
            v@ == seq![
                FilteringMethod::Identity,
                FilteringMethod::Box3x3,
                FilteringMethod::Gaussian3x3,
            ],
    {
        let mut v: Vec<FilteringMethod> = Vec::new();
        v.push(FilteringMethod::Identity);
        v.push(FilteringMethod::Box3x3);
        v.push(FilteringMethod::Gaussian3x3);
        proof {
            assert(v@ =~= seq![
                FilteringMethod::Identity,
                FilteringMethod::Box3x3,
                FilteringMethod::Gaussian3x3,
            ]);
        }
        v
    }

    /// The name a picker displays for this filtering method.
    pub fn display_name(&self) -> (s: &'static str)
        ensures
            s@ == spec_filtering_method_name(*self),
    {
        match self {
            FilteringMethod::Identity => "None",
            FilteringMethod::Box3x3 => "Box 3x3",
            FilteringMethod::Gaussian3x3 => "Gaussian 3x3",
        }
    }
}

pub open spec fn spec_filtering_method_name(m: FilteringMethod) -> Seq<char> {
    match m {
        FilteringMethod::Identity => "None"@,
        FilteringMethod::Box3x3 => "Box 3x3"@,
        FilteringMethod::Gaussian3x3 => "Gaussian 3x3"@,
    }
}

impl EdgeStrategy {
    /// Every edge strategy, in the order a picker offers them.
    pub fn all_variants() -> (v: Vec<EdgeStrategy>)
        ensures
            v@ == seq![
                EdgeStrategy::Constant,
                EdgeStrategy::Extend,
                EdgeStrategy::Wrap,
                EdgeStrategy::Mirror,
            ],
    {
        let mut v: Vec<EdgeStrategy> = Vec::new();
        v.push(EdgeStrategy::Constant);
        v.push(EdgeStrategy::Extend);
        v.push(EdgeStrategy::Wrap);
        v.push(EdgeStrategy::Mirror);
        proof {
            assert(v@ =~= seq![
                EdgeStrategy::Constant,
                EdgeStrategy::Extend,
                EdgeStrategy::Wrap,
                EdgeStrategy::Mirror,
            ]);
        }
        v
    }

    /// The name a picker displays for this edge strategy.
    pub fn display_name(&self) -> (s: &'static str)
        ensures
            s@ == spec_edge_strategy_name(*self),
    {
        match self {
            EdgeStrategy::Constant => "Constant",
            EdgeStrategy::Extend => "Extend",
            EdgeStrategy::Wrap => "Wrap",
            EdgeStrategy::Mirror => "Mirror",
        }
    }
}

pub open spec fn spec_edge_strategy_name(e: EdgeStrategy) -> Seq<char> {
    match e {
        EdgeStrategy::Constant => "Constant"@,
        EdgeStrategy::Extend => "Extend"@,
        EdgeStrategy::Wrap => "Wrap"@,
        EdgeStrategy::Mirror => "Mirror"@,
    }
}

impl ColorMap {
    /// Every palette, in the order a picker offers them.
    pub fn all_variants() -> (v: Vec<ColorMap>)
        ensures
            v@ == seq![
                ColorMap::Turbo,
                ColorMap::Magma,
                ColorMap::Bluered,
                ColorMap::Breeze,
                ColorMap::Mist,
                ColorMap::LinearBlueRed,
                ColorMap::LinearBlackWhite,
            ],
    {
        let mut v: Vec<ColorMap> = Vec::new();
        v.push(ColorMap::Turbo);
        v.push(ColorMap::Magma);
        v.push(ColorMap::Bluered);
        v.push(ColorMap::Breeze);
        v.push(ColorMap::Mist);
        v.push(ColorMap::LinearBlueRed);
        v.push(ColorMap::LinearBlackWhite);
        proof {
            assert(v@ =~= seq![
                ColorMap::Turbo,
                ColorMap::Magma,
                ColorMap::Bluered,
                ColorMap::Breeze,
                ColorMap::Mist,
                ColorMap::LinearBlueRed,
                ColorMap::LinearBlackWhite,
            ]);
        }
        v
    }

    /// The name a picker displays for this palette.
    pub fn display_name(&self) -> (s: &'static str)
        ensures
            s@ == spec_colormap_name(*self),
    {
        match self {
            ColorMap::Turbo => "Turbo",
            ColorMap::Magma => "Magma",
            ColorMap::Bluered => "Blue Red",
            ColorMap::Breeze => "Breeze",
            ColorMap::Mist => "Mist",
            ColorMap::LinearBlueRed => "Blue Red (linear)",
            ColorMap::LinearBlackWhite => "Black White (linear)",
        }
    }
}

pub open spec fn spec_colormap_name(c: ColorMap) -> Seq<char> {
    match c {
        ColorMap::Turbo => "Turbo"@,
        ColorMap::Magma => "Magma"@,
        ColorMap::Bluered => "Blue Red"@,
        ColorMap::Breeze => "Breeze"@,
        ColorMap::Mist => "Mist"@,
        ColorMap::LinearBlueRed => "Blue Red (linear)"@,
        ColorMap::LinearBlackWhite => "Black White (linear)"@,
    }
}

} // verus!
