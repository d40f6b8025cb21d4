//! The bucket grid: square cells of a fixed size that group boids by
//! position, and the coarse test that decides which pairs of cells are close
//! enough for their boids to be compared at all.

use vstd::prelude::*;

verus! {

/// Side length of one bucket, in world units.
pub const BUCKET_SIZE: usize = 50;

/// The row or column of buckets that a coordinate falls into, the
/// coordinate given in whole world units.
pub open spec fn axis_bucket(coordinate: usize) -> usize {
    (coordinate as int / BUCKET_SIZE as int) as usize
}

/// The bucket that contains the point `(x, y)`, both coordinates given in
/// whole world units.
pub open spec fn bucket_at(x: usize, y: usize) -> (usize, usize) {
    (axis_bucket(x), axis_bucket(y))
}

/// Distance between two coordinates on one axis, in whatever unit both
/// are given: buckets or whole world units.
pub open spec fn axis_gap(a: usize, b: usize) -> int {
    if a >= b {
        a - b
    } else {
        b - a
    }
}

/// Number of buckets, per axis, under which two boids are compared, for a
/// largest squared radius whose whole part is `max_radius_squared`.
pub open spec fn bucket_reach(max_radius_squared: usize) -> int {
    1 + max_radius_squared as int / BUCKET_SIZE as int
}

/// Whether two buckets pass the coarse test: on at least one axis they lie
/// fewer than `reach` buckets apart.
///
/// One axis is enough. The test therefore admits more pairs than a bounding
/// box would; the exact distance comparison that follows it sorts them out.
pub open spec fn admissible(this: (usize, usize), other: (usize, usize), reach: int) -> bool {
    axis_gap(this.0, other.0) < reach || axis_gap(this.1, other.1) < reach
}

/// Computes the bucket of a point from its coordinates in whole world units.
pub fn bucket_of(x: usize, y: usize) -> (id: (usize, usize))
    ensures
        id == bucket_at(x, y),
{
    (x / BUCKET_SIZE, y / BUCKET_SIZE)
}

/// Computes how far apart two buckets are on each axis.
pub fn bucket_diff(this: &(usize, usize), other: &(usize, usize)) -> (diff: (usize, usize))
    ensures
        diff.0 == axis_gap(this.0, other.0),
        diff.1 == axis_gap(this.1, other.1),
{
    let x: usize = if this.0 >= other.0 {
        this.0 - other.0
    } else {
        other.0 - this.0
    };
    let y: usize = if this.1 >= other.1 {
        this.1 - other.1
    } else {
        other.1 - this.1
    };
    (x, y)
}

/// Computes the reach of the coarse test from the whole part of the largest
/// squared radius.
pub fn max_bucket_dist(max_radius_squared: usize) -> (dist: usize)
    ensures
        dist == bucket_reach(max_radius_squared),
{
    1 + max_radius_squared / BUCKET_SIZE
}

/// Runs the coarse test on two buckets.
pub fn is_admissible(this: &(usize, usize), other: &(usize, usize), max_bucket_dist: usize) -> (yes: bool)
    ensures
        yes == admissible(*this, *other, max_bucket_dist as int),
{
    let diff = bucket_diff(this, other);
    diff.0 < max_bucket_dist || diff.1 < max_bucket_dist
}

/// The distance between two buckets does not depend on which one is named
/// first.
pub proof fn lemma_axis_gap_symmetric(a: usize, b: usize)
    ensures
        axis_gap(a, b) == axis_gap(b, a),
        axis_gap(a, b) >= 0,
        axis_gap(a, b) == 0 <==> a == b,
{
}

/// The coarse test is symmetric: it admits `(this, other)` exactly when it
/// admits `(other, this)`.
pub proof fn lemma_admissible_symmetric(this: (usize, usize), other: (usize, usize), reach: int)
    ensures
        admissible(this, other, reach) == admissible(other, this, reach),
{
}

/// Two boids in the same row or in the same column of buckets always pass
/// the coarse test, whatever the radius: the reach is at least one bucket.
pub proof fn lemma_shared_axis_admissible(
    this: (usize, usize),
    other: (usize, usize),
    max_radius_squared: usize,
)
    requires
        this.0 == other.0 || this.1 == other.1,
    ensures
        admissible(this, other, bucket_reach(max_radius_squared)),
{
}

/// The coarse test does not hide close boids, as long as the largest radius
/// spans at least one bucket.
///
/// `this` and `other` are the whole parts of two positions, and `span` is a
/// distance in whole units whose square stays within the largest squared
/// radius. Two positions less than `span + 1` apart lie, in whole parts, at
/// most `span + 1` apart on each axis. If that holds on one axis at least,
/// the buckets of the two positions pass the coarse test.
///
/// Under one bucket size the claim fails: with a squared radius of 25 the
/// positions (49, 49) and (50, 50) fall into buckets one apart on both axes,
/// which a reach of one bucket turns away.
pub proof fn lemma_close_positions_admissible(
    this: (usize, usize),
    other: (usize, usize),
    span: nat,
    max_radius_squared: usize,
)
    requires
        max_radius_squared >= BUCKET_SIZE,
        span * span <= max_radius_squared,
        axis_gap(this.0, other.0) <= span + 1 || axis_gap(this.1, other.1) <= span + 1,
    ensures
        admissible(
            bucket_at(this.0, this.1),
            bucket_at(other.0, other.1),
            bucket_reach(max_radius_squared),
        ),
{
    assert((span as int + 1) / (BUCKET_SIZE as int) + 1 <= max_radius_squared as int / (BUCKET_SIZE as int)) by {
        if span >= 49 {
            assert(span * span >= 49 * span) by (nonlinear_arith)
                requires
                    span >= 49,
            ;
        }
    }
    if axis_gap(this.0, other.0) <= span + 1 {
        lemma_bucket_gap_bound(this.0, other.0);
    } else {
        lemma_bucket_gap_bound(this.1, other.1);
    }
}

/// On one axis, the buckets of two coordinates are no further apart than the
/// coordinates themselves, counted in bucket sizes, and one more for where
/// the bucket borders fall.
pub proof fn lemma_bucket_gap_bound(a: usize, b: usize)
    ensures
        axis_gap(axis_bucket(a), axis_bucket(b)) <= axis_gap(a, b) / (BUCKET_SIZE as int) + 1,
{
}

} // verus!
