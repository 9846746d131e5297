//! Index schedule of the recursive-Gaussian blur.
//!
//! The blur approximates a Gaussian with a three-pole IIR filter and runs
//! separably: a horizontal pass over every row, then a vertical pass over
//! every column.  Each pass scans one line with a sliding window: at scan
//! step `t` it reads the two taps [`spec_left_tap`] and [`spec_right_tap`],
//! updates the pole state, and, once the [`RADIUS`]`-1` priming steps are
//! over, emits output sample [`spec_emit_index`].  The vertical pass
//! processes columns in SIMD groups; [`column_chunks`] is the greedy plan
//! that partitions the columns into those groups.

use vstd::prelude::*;

verus! {

/// One-sided boundary support of the blur window.
pub const RADIUS: usize = 5;

/// Selectable blur backend.
#[derive(Debug, Clone, Copy, PartialEq, Eq, Structural, Default)]
pub enum BlurImpl {
    /// Scalar reference backend, most accurate.
    Scalar,
    /// Portable SIMD backend.
    #[default]
    Simd,
    /// Transpose-based backend with better cache locality.
    SimdTranspose,
}

impl BlurImpl {
    /// Returns the name of this implementation.
    pub fn name(&self) -> (r: &'static str)
        ensures
            r@ == self.spec_name(),
    {
        match self {
            BlurImpl::Scalar => "scalar",
            BlurImpl::Simd => "simd (wide crate)",
            BlurImpl::SimdTranspose => "simd-transpose (cache-optimized)",
        }
    }

    /// The name `name` returns for each backend.
    pub open spec fn spec_name(self) -> Seq<char> {
        match self {
            BlurImpl::Scalar => "scalar"@,
            BlurImpl::Simd => "simd (wide crate)"@,
            BlurImpl::SimdTranspose => "simd-transpose (cache-optimized)"@,
        }
    }
}

/// Bookkeeping for a blur backend that delegates the filtering itself to an
/// external Gaussian: it only tracks the plane dimensions it was sized for.
pub struct LibblurBackend {
    width: usize,
    height: usize,
}

impl LibblurBackend {
    /// The plane width this backend is currently sized for.
    pub closed spec fn spec_width(&self) -> int {
        self.width as int
    }

    /// The plane height this backend is currently sized for.
    pub closed spec fn spec_height(&self) -> int {
        self.height as int
    }

    /// Creates a backend sized for `width` x `height` planes.
    pub fn new(width: usize, height: usize) -> (r: LibblurBackend)
        ensures
            r.spec_width() == width,
            r.spec_height() == height,
    {
        LibblurBackend { width, height }
    }

    /// Resizes the backend for the next, smaller scale.
    pub fn shrink_to(&mut self, width: usize, height: usize)
        ensures
            final(self).spec_width() == width,
            final(self).spec_height() == height,
    {
        self.width = width;
        self.height = height;
    }

    /// Returns the plane width this backend is sized for.
    pub fn width(&self) -> (r: usize)
        ensures
            r == self.spec_width(),
    {
        self.width
    }

    /// Returns the plane height this backend is sized for.
    pub fn height(&self) -> (r: usize)
        ensures
            r == self.spec_height(),
    {
        self.height
    }
}

/// The line position updated at scan step `t`, negative while priming.
pub open spec fn spec_scan_pos(t: int) -> int {
    t - (RADIUS - 1)
}

/// The trailing tap read at scan step `t`.
pub open spec fn spec_left_tap(t: int) -> int {
    spec_scan_pos(t) - RADIUS - 1
}

/// The leading tap read at scan step `t`.
pub open spec fn spec_right_tap(t: int) -> int {
    spec_scan_pos(t) + RADIUS - 1
}

/// The output sample written at scan step `t`, once past priming.
pub open spec fn spec_emit_index(t: int) -> int {
    spec_scan_pos(t)
}

/// Number of scan steps for a line of `len` samples: the scan starts
/// [`RADIUS`]`-1` steps before the line so that the IIR state is primed when
/// the first sample is emitted.
pub fn scan_steps(len: usize) -> (r: usize)
    requires
        len + RADIUS - 1 <= usize::MAX,
    ensures
        r == len + RADIUS - 1,
{
    len + (RADIUS - 1)
}

/// The trailing tap at scan step `t` of a line of `len` samples, if it falls
/// inside the line.  The window spans `2 *`[`RADIUS`] samples, so the
/// trailing tap lags the step index by exactly that much.
pub fn left_tap(t: usize, len: usize) -> (r: Option<usize>)
    ensures
        r is Some <==> 0 <= spec_left_tap(t as int) < len,
        r matches Some(i) ==> i == spec_left_tap(t as int),
{
    if t >= 2 * RADIUS && t - 2 * RADIUS < len {
        Some(t - 2 * RADIUS)
    } else {
        None
    }
}

/// The leading tap at scan step `t` of a line of `len` samples, if it falls
/// inside the line.  The leading tap is the step index itself.
pub fn right_tap(t: usize, len: usize) -> (r: Option<usize>)
    ensures
        r is Some <==> 0 <= spec_right_tap(t as int) < len,
        r matches Some(i) ==> i == spec_right_tap(t as int),
{
    if t < len {
        Some(t)
    } else {
        None
    }
}

/// The output sample written at scan step `t` of a line of `len` samples,
/// or `None` during the priming steps.
pub fn emit_index(t: usize, len: usize) -> (r: Option<usize>)
    ensures
        r is Some <==> 0 <= spec_emit_index(t as int) < len,
        r matches Some(i) ==> i == spec_emit_index(t as int),
{
    if t >= RADIUS - 1 && t - (RADIUS - 1) < len {
        Some(t - (RADIUS - 1))
    } else {
        None
    }
}

/// Where a line scan stands at a given step.
#[derive(Clone, Copy, Debug, PartialEq, Eq, Structural)]
pub enum ScanPhase {
    /// Before the line: the pole state is updated, nothing is emitted.
    Priming,
    /// Inside the line: the pole state is updated and a sample is emitted.
    Emitting,
    /// Past the line: the scan is over.
    Done,
}

/// Classifies scan step `t` of a line of `len` samples.
pub fn scan_phase(t: usize, len: usize) -> (r: ScanPhase)
    ensures
        r is Priming <==> spec_scan_pos(t as int) < 0,
        r is Emitting <==> 0 <= spec_scan_pos(t as int) < len,
        r is Done <==> spec_scan_pos(t as int) >= len,
{
    if t < RADIUS - 1 {
        ScanPhase::Priming
    } else if t - (RADIUS - 1) < len {
        ScanPhase::Emitting
    } else {
        ScanPhase::Done
    }
}

/// Over a full scan of a line of `len` samples, every sample is emitted at
/// exactly one step, and nothing outside the line is ever emitted.
pub proof fn lemma_scan_emits_each_sample_once(len: int, m: int)
    requires
        0 <= m < len,
    ensures
        spec_emit_index(m + RADIUS - 1) == m,
        0 <= m + RADIUS - 1 < len + RADIUS - 1,
        forall|t: int| spec_emit_index(t) == m ==> t == m + RADIUS - 1,
{
}

/// The SIMD group width the vertical pass uses when `rem` columns remain:
/// the largest of the supported group widths that still fits.
pub open spec fn spec_chunk_size(rem: int) -> int {
    if rem >= 128 {
        128
    } else if rem >= 32 {
        32
    } else if rem >= 4 {
        4
    } else {
        1
    }
}

/// Plans the vertical pass over `width` columns: a list of `(start, size)`
/// column groups, consecutive from column 0, together covering every column
/// exactly once, each group as wide as [`spec_chunk_size`] allows.
pub fn column_chunks(width: usize) -> (plan: Vec<(usize, usize)>)
    ensures
        plan.len() == 0 <==> width == 0,
        plan.len() > 0 ==> plan[0].0 == 0,
        plan.len() > 0 ==> plan[plan.len() - 1].0 + plan[plan.len() - 1].1 == width,
        forall|i: int|
            0 <= i < plan.len() ==> plan[i].1 == spec_chunk_size(width - plan[i].0),
        forall|i: int|
            0 <= i < plan.len() - 1 ==> #[trigger] plan[i + 1].0 == plan[i].0 + plan[i].1,
{
    let mut plan: Vec<(usize, usize)> = Vec::new();
    let mut x: usize = 0;
    while x < width
        invariant
            x <= width,
            plan.len() == 0 <==> x == 0,
            plan.len() > 0 ==> plan[0].0 == 0,
            plan.len() > 0 ==> plan[plan.len() - 1].0 + plan[plan.len() - 1].1 == x,
            forall|i: int|
                0 <= i < plan.len() ==> plan[i].1 == spec_chunk_size(width - plan[i].0),
            forall|i: int|
                0 <= i < plan.len() - 1 ==> #[trigger] plan[i + 1].0 == plan[i].0 + plan[i].1,
        decreases width - x,
    {
        let rem: usize = width - x;
        let size: usize = if rem >= 128 {
            128
        } else if rem >= 32 {
            32
        } else if rem >= 4 {
            4
        } else {
            1
        };
        plan.push((x, size));
        x = x + size;
    }
    plan
}

} // verus!
