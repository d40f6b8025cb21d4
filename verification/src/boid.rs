//! One boid: its position and velocity, which the library carries but never
//! reads, and the bucket of the grid it was placed in.

use vstd::prelude::*;
use crate::grid::{bucket_at, bucket_of};

verus! {

/// A single boid.
///
/// `V` is whatever the caller uses for a vector of the plane. The bucket id
/// is fixed when the boid is built from its position, so a boid that moves
/// is built anew.
pub struct Boid<V> {
    /// Where the boid is.
    pub pos: V,
    /// How fast it moves, and in which direction.
    pub vel: V,
    /// Bucket of the grid this boid is contained in.
    pub id: (usize, usize),
}

impl<V> Boid<V> {
    /// Builds a boid from its position and velocity. `x` and `y` are the
    /// whole parts of the coordinates of `pos`; they decide the bucket.
    pub fn new(pos: V, vel: V, x: usize, y: usize) -> (boid: Self)
        ensures
            boid.pos == pos,
            boid.vel == vel,
            boid.id == bucket_at(x, y),
    {
        Boid { pos, vel, id: bucket_of(x, y) }
    }
}

} // verus!
