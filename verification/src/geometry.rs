//! Geometry of the multiscale pyramid.
//!
//! The metric walks up to [`NUM_SCALES`] scales of a 2x pyramid.  Scale 0 is
//! the input image, which must be at least 8x8; each later scale is the
//! previous one box-downscaled to ceil-halved dimensions.  A scale is
//! downscaled further only while both of its dimensions still exceed 8, so
//! the child of a scale at the 8-pixel limit is never produced, but a child
//! that itself lands below the limit is still scored.

use vstd::prelude::*;

verus! {

/// Upper bound on the number of pyramid scales.
pub const NUM_SCALES: usize = 6;

/// A dimension after one 2x downscale: the ceiling of `d / 2`.
pub open spec fn spec_downscaled(d: int) -> int {
    (d + 1) / 2
}

/// Computes the ceil-halved dimension of a single axis.
pub fn downscaled_dim(d: usize) -> (r: usize)
    ensures
        r == spec_downscaled(d as int),
{
    d / 2 + d % 2
}

/// Every position of the downscaled axis has its doubled position inside
/// the source axis.
pub proof fn lemma_downscaled_covers(dim: int, o: int)
    requires
        0 <= o < spec_downscaled(dim),
    ensures
        2 * o < dim,
{
}

/// The one or two source positions along an axis whose samples feed
/// downscaled position `o`: always `2 * o`, and `2 * o + 1` when that still
/// falls inside the axis.  A clipped block has no further sources; the
/// missing samples contribute zero and the divisor stays four.  Every
/// position of the downscaled axis meets the precondition, by
/// [`lemma_downscaled_covers`].
pub fn downscale_block_axis(o: usize, dim: usize) -> (r: (usize, Option<usize>))
    requires
        2 * o < dim,
    ensures
        r.0 == 2 * o,
        r.1 is Some <==> 2 * o + 1 < dim,
        r.1 matches Some(second) ==> second == 2 * o + 1,
{
    if 2 * o + 1 < dim {
        (2 * o, Some(2 * o + 1))
    } else {
        (2 * o, None)
    }
}

/// How many scales the pyramid emits below a current `w` x `h` scale, with
/// `budget` scales still allowed: none once a dimension is at or below 8,
/// else the ceil-halved child and whatever follows it.
pub open spec fn spec_extra_scales(w: int, h: int, budget: int) -> int
    decreases budget,
{
    if budget <= 0 || w <= 8 || h <= 8 {
        0
    } else {
        1 + spec_extra_scales(spec_downscaled(w), spec_downscaled(h), budget - 1)
    }
}

/// How many scales the pyramid emits for a `w` x `h` image: none for an
/// image below the 8x8 minimum, else scale 0 plus one scale per downscale.
pub open spec fn spec_scale_count(w: int, h: int) -> int {
    if w < 8 || h < 8 {
        0
    } else {
        1 + spec_extra_scales(w, h, NUM_SCALES - 1)
    }
}

/// The number of downscales never exceeds its budget.
proof fn lemma_extra_scales_le_budget(w: int, h: int, budget: int)
    requires
        budget >= 0,
    ensures
        0 <= spec_extra_scales(w, h, budget) <= budget,
    decreases budget,
{
    if budget > 0 && w > 8 && h > 8 {
        lemma_extra_scales_le_budget(spec_downscaled(w), spec_downscaled(h), budget - 1);
    }
}

/// An image of at least 8x8 is scored on one to [`NUM_SCALES`] scales.
pub proof fn lemma_scale_count_bounds(w: int, h: int)
    requires
        w >= 8,
        h >= 8,
    ensures
        1 <= spec_scale_count(w, h) <= NUM_SCALES,
{
    lemma_extra_scales_le_budget(w, h, NUM_SCALES as int - 1);
}

/// Counts the scales the pyramid will emit for a `width` x `height` image.
pub fn num_scales(width: usize, height: usize) -> (n: usize)
    ensures
        n == spec_scale_count(width as int, height as int),
        n <= NUM_SCALES,
{
    if width < 8 || height < 8 {
        return 0;
    }
    let mut w: usize = width;
    let mut h: usize = height;
    let mut n: usize = 1;
    while n < NUM_SCALES && w > 8 && h > 8
        invariant
            1 <= n <= NUM_SCALES,
            spec_scale_count(width as int, height as int) == n + spec_extra_scales(
                w as int,
                h as int,
                NUM_SCALES - n,
            ),
        decreases NUM_SCALES - n,
    {
        w = downscaled_dim(w);
        h = downscaled_dim(h);
        n = n + 1;
    }
    n
}

/// The dimensions of scale `i`: the input dimensions ceil-halved `i` times.
pub open spec fn spec_scale_dims(w: int, h: int, i: int) -> (int, int)
    decreases i,
{
    if i <= 0 {
        (w, h)
    } else {
        let prev = spec_scale_dims(w, h, i - 1);
        (spec_downscaled(prev.0), spec_downscaled(prev.1))
    }
}

/// Dropping the first scale of the pyramid ceil-halves the starting
/// dimensions.
proof fn lemma_scale_dims_shift(w: int, h: int, i: int)
    requires
        i >= 1,
    ensures
        spec_scale_dims(w, h, i) == spec_scale_dims(spec_downscaled(w), spec_downscaled(h), i - 1),
    decreases i,
{
    let half_w = spec_downscaled(w);
    let half_h = spec_downscaled(h);
    if i == 1 {
        assert(spec_scale_dims(w, h, 0) == (w, h));
        assert(spec_scale_dims(half_w, half_h, 0) == (half_w, half_h));
    } else {
        lemma_scale_dims_shift(w, h, i - 1);
        assert(spec_scale_dims(w, h, i) == (
            spec_downscaled(spec_scale_dims(w, h, i - 1).0),
            spec_downscaled(spec_scale_dims(w, h, i - 1).1),
        ));
        assert(spec_scale_dims(half_w, half_h, i - 1) == (
            spec_downscaled(spec_scale_dims(half_w, half_h, i - 2).0),
            spec_downscaled(spec_scale_dims(half_w, half_h, i - 2).1),
        ));
    }
}

/// The descent rule, over any remaining budget of downscales: exactly the
/// first `spec_extra_scales` levels are downscaled, and a stop short of the
/// budget happens only at a level at or below the 8-pixel limit.
proof fn lemma_pyramid_scales_from(w: int, h: int, budget: int)
    requires
        budget >= 0,
    ensures
        forall|i: int|
            0 <= i < spec_extra_scales(w, h, budget) ==> (#[trigger] spec_scale_dims(w, h, i)).0
                > 8 && spec_scale_dims(w, h, i).1 > 8,
        spec_extra_scales(w, h, budget) < budget ==> spec_scale_dims(
            w,
            h,
            spec_extra_scales(w, h, budget),
        ).0 <= 8 || spec_scale_dims(w, h, spec_extra_scales(w, h, budget)).1 <= 8,
    decreases budget,
{
    if budget > 0 && w > 8 && h > 8 {
        let half_w = spec_downscaled(w);
        let half_h = spec_downscaled(h);
        lemma_pyramid_scales_from(half_w, half_h, budget - 1);
        assert forall|i: int| 0 <= i < spec_extra_scales(w, h, budget) implies (
        #[trigger] spec_scale_dims(w, h, i)).0 > 8 && spec_scale_dims(w, h, i).1 > 8 by {
            if i >= 1 {
                lemma_scale_dims_shift(w, h, i);
            }
        }
        if spec_extra_scales(w, h, budget) < budget {
            lemma_scale_dims_shift(w, h, spec_extra_scales(w, h, budget));
        }
    }
}

/// The pyramid descends exactly while the size limit allows: every emitted
/// scale but the last exceeds 8x8 in both axes, and when fewer than
/// [`NUM_SCALES`] scales are emitted, the last one is at or below 8 in some
/// axis — so no scale at the limit is ever downscaled, and no scale above
/// it is left unscaled.
pub proof fn lemma_pyramid_stops_exactly(w: int, h: int)
    ensures
        forall|i: int|
            0 <= i < spec_scale_count(w, h) - 1 ==> (#[trigger] spec_scale_dims(w, h, i)).0 > 8
                && spec_scale_dims(w, h, i).1 > 8,
        0 < spec_scale_count(w, h) < NUM_SCALES ==> spec_scale_dims(
            w,
            h,
            spec_scale_count(w, h) - 1,
        ).0 <= 8 || spec_scale_dims(w, h, spec_scale_count(w, h) - 1).1 <= 8,
{
    if w >= 8 && h >= 8 {
        lemma_pyramid_scales_from(w, h, NUM_SCALES as int - 1);
    }
}

/// Computes the per-scale dimensions the pipeline iterates over: entry `i`
/// holds the dimensions of scale `i`.  Scale 0 is at least 8x8 and every
/// scale before the last exceeds 8x8 in both axes; the last scale may fall
/// below the limit.
pub fn scale_dims(width: usize, height: usize) -> (dims: Vec<(usize, usize)>)
    ensures
        dims.len() == spec_scale_count(width as int, height as int),
        forall|i: int|
            0 <= i < dims.len() ==> dims[i].0 == spec_scale_dims(
                width as int,
                height as int,
                i,
            ).0 && dims[i].1 == spec_scale_dims(width as int, height as int, i).1,
        forall|i: int| 0 <= i < dims.len() - 1 ==> dims[i].0 > 8 && dims[i].1 > 8,
        dims.len() > 0 ==> dims[0].0 >= 8 && dims[0].1 >= 8,
{
    let mut dims: Vec<(usize, usize)> = Vec::new();
    if width < 8 || height < 8 {
        return dims;
    }
    let mut w: usize = width;
    let mut h: usize = height;
    let mut n: usize = 1;
    dims.push((width, height));
    while n < NUM_SCALES && w > 8 && h > 8
        invariant
            1 <= n <= NUM_SCALES,
            dims.len() == n,
            w == spec_scale_dims(width as int, height as int, n - 1).0,
            h == spec_scale_dims(width as int, height as int, n - 1).1,
            spec_scale_count(width as int, height as int) == n + spec_extra_scales(
                w as int,
                h as int,
                NUM_SCALES - n,
            ),
            forall|i: int|
                0 <= i < n ==> dims[i].0 == spec_scale_dims(
                    width as int,
                    height as int,
                    i,
                ).0 && dims[i].1 == spec_scale_dims(width as int, height as int, i).1,
            forall|i: int| 0 <= i < n - 1 ==> dims[i].0 > 8 && dims[i].1 > 8,
            dims[0].0 >= 8 && dims[0].1 >= 8,
        decreases NUM_SCALES - n,
    {
        w = downscaled_dim(w);
        h = downscaled_dim(h);
        dims.push((w, h));
        n = n + 1;
    }
    dims
}

} // verus!
