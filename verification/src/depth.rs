//! Depth of the scene from the disparities of stereo matching.
//!
//! Disparities are fixed point numbers, in pixels times [`DISPARITY_SCALE`]. The
//! depth of a point is the focal length times the baseline divided by its
//! disparity in pixels; this module decides which disparities have a depth and
//! sizes the disparity search range of the matcher.

use vstd::prelude::*;

verus! {

/// Size of the disparity map. Matching at this size takes a few milliseconds, and
/// measured depth is within a few percent up to about 2.5 m.
pub const DEPTH_SIZE: usize = 320;

/// Fixed point scale of the disparities computed by the stereo matcher.
pub const DISPARITY_SCALE: i32 = 16;

/// The factory calibration can be off by a fraction of a pixel, which makes very far
/// points have slightly negative disparities.
pub const MIN_DISPARITY: i32 = -2;

/// Smallest scaled disparity that is a match: the matcher marks pixels without a
/// match with a disparity below the search range.
pub open spec fn min_scaled_disparity() -> int {
    MIN_DISPARITY * DISPARITY_SCALE
}

/// What a scaled disparity says of the depth of its point.
#[derive(Debug, Clone, Copy, PartialEq, Eq, Structural)]
pub enum Depth {
    /// The point is at or beyond infinity: its disparity is not positive.
    Infinite,
    /// The point is at a finite depth, inversely proportional to this positive
    /// scaled disparity.
    Finite(i16),
}

/// Depth of a point of the disparity map, along the axis of the rectified camera.
/// Points without a match have no depth (`None`), points at or beyond infinity have
/// an infinite depth, the others the depth of their positive scaled disparity.
pub fn depth(disparity: i16) -> (r: Option<Depth>)
    ensures
        disparity < min_scaled_disparity() <==> r is None,
        r == Some(Depth::Infinite) <==> min_scaled_disparity() <= disparity <= 0,
        r == Some(Depth::Finite(disparity)) <==> disparity > 0,
        disparity < -32 <==> r is None,
        -32 <= disparity <= 0 <==> r == Some(Depth::Infinite),
{
    if (disparity as i32) < MIN_DISPARITY * DISPARITY_SCALE {
        return None;
    }
    if disparity > 0 {
        Some(Depth::Finite(disparity))
    } else {
        Some(Depth::Infinite)
    }
}

/// Number of disparities searched by the matcher, for a largest expected disparity
/// of `max_disparity` pixels: the search range from [`MIN_DISPARITY`] up to it,
/// rounded to a multiple of 16 as the matcher requires (with the truncating
/// division of the matcher's sizing, below zero it is rounded towards zero).
pub fn num_disparities(max_disparity: i32) -> (n: i32)
    requires
        max_disparity <= i32::MAX - 17,
    ensures
        n % 16 == 0,
        max_disparity - MIN_DISPARITY + 15 >= 0 ==> max_disparity - MIN_DISPARITY <= n
            <= max_disparity - MIN_DISPARITY + 15,
        max_disparity - MIN_DISPARITY + 15 < 0 ==> max_disparity - MIN_DISPARITY + 15 <= n
            <= max_disparity - MIN_DISPARITY + 30,
{
    let range = max_disparity - MIN_DISPARITY;
    let n = (range + 15) / 16 * 16;
    n
}

} // verus!
