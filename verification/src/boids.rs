//! The flock: every boid of the simulation together with the parameters that
//! steer them, and the search for the boids that matter to a given one.

use vstd::prelude::*;
use crate::boid::Boid;
use crate::grid::{admissible, bucket_reach, is_admissible, max_bucket_dist};

verus! {

/// Number of boids in a newly built flock.
pub const DEFAULT_NR_OF_BOIDS: usize = 100;

/// The population and its parameters.
///
/// `V` is a vector of the plane and `P` the block of parameters; both
/// belong to the caller, and the library only keeps and returns them.
pub struct Boids<V, P> {
    /// The boids, in no meaningful order.
    pub boids: Vec<Boid<V>>,
    /// Radii, factors, limits and whatever else steers the flock.
    pub params: P,
}

/// Whether `index` is the first component of some entry of `others`.
pub open spec fn listed<W>(others: Seq<(usize, W)>, index: int) -> bool {
    exists|k: int| 0 <= k < others.len() && (#[trigger] others[k]).0 == index
}

impl<V, P> Boids<V, P> {
    /// Whether the boid at `other` is a candidate neighbour of the one at
    /// `curr`: it is another boid of the flock, and its bucket passes the
    /// coarse test against the bucket of `curr`.
    pub open spec fn relevant(&self, curr: int, other: int, max_radius_squared: usize) -> bool {
        &&& 0 <= curr < self.boids@.len()
        &&& 0 <= other < self.boids@.len()
        &&& other != curr
        &&& admissible(
            self.boids@[curr].id,
            self.boids@[other].id,
            bucket_reach(max_radius_squared),
        )
    }

    /// Whether `others` is what a search around the boid at `curr` finds when
    /// it weighs with `weigh`:
    ///
    /// - every entry names a candidate of `curr`, together with a weight
    ///   that `weigh` gave it;
    /// - the entries stand by rising index, so no boid is listed twice;
    /// - every candidate that is not listed was refused by `weigh`.
    pub open spec fn weighed<W, F: Fn(&V, &V) -> Option<W>>(
        &self,
        curr: int,
        max_radius_squared: usize,
        weigh: F,
        others: Seq<(usize, W)>,
    ) -> bool {
        &&& forall|k: int|
            0 <= k < others.len() ==> {
                &&& self.relevant(curr, (#[trigger] others[k]).0 as int, max_radius_squared)
                &&& call_ensures(
                    weigh,
                    (&self.boids@[curr].pos, &self.boids@[others[k].0 as int].pos),
                    Some(others[k].1),
                )
            }
        &&& forall|k: int, l: int|
            0 <= k < l < others.len() ==> (#[trigger] others[k]).0 < (#[trigger] others[l]).0
        &&& forall|j: int|
            self.relevant(curr, j, max_radius_squared) && !listed(others, j) ==> call_ensures(
                weigh,
                (&self.boids@[curr].pos, &(#[trigger] self.boids@[j]).pos),
                None::<W>,
            )
    }

    /// Whether the boids at `curr` and `other` are neighbours: candidates by
    /// the grid, and close by the exact test `near` on their positions.
    pub open spec fn neighbours(
        &self,
        curr: int,
        other: int,
        max_radius_squared: usize,
        near: spec_fn(V, V) -> bool,
    ) -> bool {
        self.relevant(curr, other, max_radius_squared) && near(
            self.boids@[curr].pos,
            self.boids@[other].pos,
        )
    }

    /// Builds a flock of `DEFAULT_NR_OF_BOIDS` boids, each one made by a call
    /// of `spawn`.
    pub fn new<F: Fn() -> Boid<V>>(params: P, spawn: F) -> (flock: Self)
        requires
            call_requires(spawn, ()),
        ensures
            flock.params == params,
            flock.boids@.len() == DEFAULT_NR_OF_BOIDS,
            forall|i: int|
                0 <= i < flock.boids@.len() ==> call_ensures(spawn, (), #[trigger] flock.boids@[i]),
    {
        let mut boids: Vec<Boid<V>> = Vec::new();
        while boids.len() < DEFAULT_NR_OF_BOIDS
            invariant
                call_requires(spawn, ()),
                boids@.len() <= DEFAULT_NR_OF_BOIDS,
                forall|i: int| 0 <= i < boids@.len() ==> call_ensures(spawn, (), #[trigger] boids@[i]),
            decreases DEFAULT_NR_OF_BOIDS - boids@.len(),
        {
            boids.push(spawn());
        }
        Boids { boids, params }
    }

    /// Replaces every boid by a freshly spawned one. The size of the flock
    /// and its parameters stay as they are.
    pub fn scatter<F: Fn() -> Boid<V>>(&mut self, spawn: F)
        requires
            call_requires(spawn, ()),
        ensures
            final(self).params == old(self).params,
            final(self).boids@.len() == old(self).boids@.len(),
            forall|i: int|
                0 <= i < final(self).boids@.len() ==> call_ensures(
                    spawn,
                    (),
                    #[trigger] final(self).boids@[i],
                ),
    {
        let count: usize = self.boids.len();
        let mut idx: usize = 0;
        while idx < count
            invariant
                call_requires(spawn, ()),
                idx <= count,
                self.boids@.len() == count,
                self.params == old(self).params,
                forall|i: int| 0 <= i < idx ==> call_ensures(spawn, (), #[trigger] self.boids@[i]),
            decreases count - idx,
        {
            self.boids[idx] = spawn();
            idx = idx + 1;
        }
    }

    /// Finds the boids that matter to the one at `curr_idx`, and what each
    /// of them weighs.
    ///
    /// `max_radius_squared` is the whole part of the largest squared radius
    /// that any steering rule looks at. `weigh` is given the position of the
    /// current boid and that of another; it answers with the weight of the
    /// other boid (its squared distance, say) if it lies within that radius,
    /// and with `None` if it does not.
    ///
    /// The result lists, by rising index, each other boid whose bucket
    /// passes the coarse test and which `weigh` accepted, with the weight it
    /// got. Boids that fail the coarse test are never weighed.
    pub fn get_weighted_others<W, F: Fn(&V, &V) -> Option<W>>(
        &self,
        curr_idx: usize,
        max_radius_squared: usize,
        weigh: F,
    ) -> (others: Vec<(usize, W)>)
        requires
            curr_idx < self.boids@.len(),
            forall|j: int|
                0 <= j < self.boids@.len() ==> call_requires(
                    weigh,
                    (&self.boids@[curr_idx as int].pos, &(#[trigger] self.boids@[j]).pos),
                ),
        ensures
            self.weighed(curr_idx as int, max_radius_squared, weigh, others@),
    {
        let reach: usize = max_bucket_dist(max_radius_squared);
        let count: usize = self.boids.len();
        let mut others: Vec<(usize, W)> = Vec::new();
        let mut idx: usize = 0;
        while idx < count
            invariant
                idx <= count,
                count == self.boids@.len(),
                curr_idx < count,
                reach == bucket_reach(max_radius_squared),
                forall|j: int|
                    0 <= j < self.boids@.len() ==> call_requires(
                        weigh,
                        (&self.boids@[curr_idx as int].pos, &(#[trigger] self.boids@[j]).pos),
                    ),
                forall|k: int|
                    0 <= k < others@.len() ==> {
                        &&& (#[trigger] others@[k]).0 < idx
                        &&& self.relevant(curr_idx as int, others@[k].0 as int, max_radius_squared)
                        &&& call_ensures(
                            weigh,
                            (
                                &self.boids@[curr_idx as int].pos,
                                &self.boids@[others@[k].0 as int].pos,
                            ),
                            Some(others@[k].1),
                        )
                    },
                forall|k: int, l: int|
                    0 <= k < l < others@.len() ==> (#[trigger] others@[k]).0 < (#[trigger] others@[l]).0,
                forall|j: int|
                    0 <= j < idx && self.relevant(curr_idx as int, j, max_radius_squared) && !listed(
                        others@,
                        j,
                    ) ==> call_ensures(
                        weigh,
                        (&self.boids@[curr_idx as int].pos, &(#[trigger] self.boids@[j]).pos),
                        None::<W>,
                    ),
            decreases count - idx,
        {
            let ghost before = others@;
            if idx != curr_idx && is_admissible(&self.boids[curr_idx].id, &self.boids[idx].id, reach) {
                match weigh(&self.boids[curr_idx].pos, &self.boids[idx].pos) {
                    Some(weight) => {
                        others.push((idx, weight));
                        assert(others@[before.len() as int].0 == idx);
                    },
                    None => {},
                }
            }
            proof {
                assert forall|j: int|
                    0 <= j < idx && !listed(others@, j) implies !listed(before, j) by {
                    if listed(before, j) {
                        let k = choose|k: int| 0 <= k < before.len() && (#[trigger] before[k]).0 == j;
                        assert(others@[k] == before[k]);
                    }
                }
            }
            idx = idx + 1;
        }
        others
    }
}

/// The search for neighbours is symmetric as far as the grid decides it:
/// whenever the boid at `b` is a candidate for the one at `a`, the boid at
/// `a` is a candidate for the one at `b`.
pub proof fn lemma_relevant_symmetric<V, P>(flock: Boids<V, P>, a: int, b: int, max_radius_squared: usize)
    ensures
        flock.relevant(a, b, max_radius_squared) == flock.relevant(b, a, max_radius_squared),
{
}

/// Whether `weigh` decides by `near`: it gives a weight to exactly those
/// pairs of positions that `near` holds of.
pub open spec fn decides_by<V, W, F: Fn(&V, &V) -> Option<W>>(
    weigh: F,
    near: spec_fn(V, V) -> bool,
) -> bool {
    forall|this: V, other: V, weight: Option<W>| #[trigger]
        call_ensures(weigh, (&this, &other), weight) ==> (weight.is_some() <==> near(this, other))
}

/// When the weighing decides by an exact test, the search finds exactly the
/// neighbours: a boid is listed if and only if it is a candidate by the grid
/// and the test holds of it.
pub proof fn lemma_weighed_lists_neighbours<V, P, W, F: Fn(&V, &V) -> Option<W>>(
    flock: Boids<V, P>,
    curr: int,
    max_radius_squared: usize,
    weigh: F,
    others: Seq<(usize, W)>,
    near: spec_fn(V, V) -> bool,
    other: int,
)
    requires
        flock.weighed(curr, max_radius_squared, weigh, others),
        decides_by(weigh, near),
    ensures
        listed(others, other) <==> flock.neighbours(curr, other, max_radius_squared, near),
{
    if listed(others, other) {
        let k = choose|k: int| 0 <= k < others.len() && (#[trigger] others[k]).0 == other;
        assert(call_ensures(
            weigh,
            (&flock.boids@[curr].pos, &flock.boids@[others[k].0 as int].pos),
            Some(others[k].1),
        ));
    } else if flock.relevant(curr, other, max_radius_squared) {
        assert(call_ensures(
            weigh,
            (&flock.boids@[curr].pos, &flock.boids@[other].pos),
            None::<W>,
        ));
    }
}

/// Neighbourhood is symmetric. When the exact test does not depend on which
/// boid is named first, the boid at `b` is found around the one at `a` if
/// and only if the boid at `a` is found around the one at `b`, although the
/// grid admits more pairs than it needs to.
pub proof fn lemma_neighbour_symmetry<V, P, W, F: Fn(&V, &V) -> Option<W>>(
    flock: Boids<V, P>,
    a: int,
    b: int,
    max_radius_squared: usize,
    weigh: F,
    around_a: Seq<(usize, W)>,
    around_b: Seq<(usize, W)>,
    near: spec_fn(V, V) -> bool,
)
    requires
        flock.weighed(a, max_radius_squared, weigh, around_a),
        flock.weighed(b, max_radius_squared, weigh, around_b),
        decides_by(weigh, near),
        forall|this: V, other: V| #[trigger] near(this, other) == near(other, this),
    ensures
        listed(around_a, b) <==> listed(around_b, a),
{
    lemma_weighed_lists_neighbours(flock, a, max_radius_squared, weigh, around_a, near, b);
    lemma_weighed_lists_neighbours(flock, b, max_radius_squared, weigh, around_b, near, a);
    lemma_relevant_symmetric(flock, a, b, max_radius_squared);
}

/// A boid without candidates has no neighbours, however it is weighed: a
/// flock of one, in particular, gives every search an empty result.
pub proof fn lemma_no_candidates_no_others<V, P, W, F: Fn(&V, &V) -> Option<W>>(
    flock: Boids<V, P>,
    curr: int,
    max_radius_squared: usize,
    weigh: F,
    others: Seq<(usize, W)>,
)
    requires
        flock.weighed(curr, max_radius_squared, weigh, others),
        flock.boids@.len() == 1 || forall|j: int| !flock.relevant(curr, j, max_radius_squared),
    ensures
        others.len() == 0,
{
    if others.len() > 0 {
        assert(flock.relevant(curr, others[0].0 as int, max_radius_squared));
    }
}

} // verus!
