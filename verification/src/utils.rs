//! Operations on a whole flock: one tick of the simulation, and changing
//! the number of boids.

use vstd::prelude::*;
use crate::boid::Boid;
use crate::boids::Boids;

verus! {

/// What a change of size leaves of a population: `after` has `number`
/// boids, and as many of the boids of `before` as fit are still there, each
/// in its place.
pub open spec fn resized<V>(before: Seq<Boid<V>>, after: Seq<Boid<V>>, number: usize) -> bool {
    &&& after.len() == number
    &&& forall|i: int| 0 <= i < before.len() && i < number ==> #[trigger] after[i] == before[i]
}

/// What one tick makes of a flock: `after` has the parameters and the size
/// of `before`, and each of its boids is an answer of `step` to `before` and
/// the boid's index.
pub open spec fn ticked<V, P, F: Fn(&Boids<V, P>, usize) -> Boid<V>>(
    before: Boids<V, P>,
    after: Boids<V, P>,
    step: F,
) -> bool {
    &&& after.params == before.params
    &&& after.boids@.len() == before.boids@.len()
    &&& forall|i: int|
        0 <= i < after.boids@.len() ==> call_ensures(
            step,
            (&before, i as usize),
            #[trigger] after.boids@[i],
        )
}

/// Advances the flock by one tick.
///
/// `step` is given the flock and an index, and answers with the boid that
/// stands at that index after the tick. Every call of `step` sees the flock
/// as it was before the tick: no boid is replaced until all of them have
/// been computed, so the outcome does not depend on the order of the boids.
pub fn update<V, P, F: Fn(&Boids<V, P>, usize) -> Boid<V>>(boids: &mut Boids<V, P>, step: F)
    requires
        forall|i: usize| i < old(boids).boids@.len() ==> call_requires(step, (&*old(boids), i)),
    ensures
        ticked(*old(boids), *final(boids), step),
{
    let count: usize = boids.boids.len();
    let mut next: Vec<Boid<V>> = Vec::new();
    let mut idx: usize = 0;
    while idx < count
        invariant
            idx <= count,
            count == boids.boids@.len(),
            *boids == *old(boids),
            next@.len() == idx,
            forall|i: usize| i < boids.boids@.len() ==> call_requires(step, (&*boids, i)),
            forall|i: int| 0 <= i < idx ==> call_ensures(step, (&*boids, i as usize), #[trigger] next@[i]),
        decreases count - idx,
    {
        let moved = step(&*boids, idx);
        next.push(moved);
        idx = idx + 1;
    }
    boids.boids = next;
}

/// Brings the flock to `number` boids: spawns new ones at the end while
/// there are too few, and drops boids from the end while there are too many.
pub fn change_number_of_boids<V, P, F: Fn() -> Boid<V>>(
    boids: &mut Boids<V, P>,
    number: usize,
    spawn: F,
)
    requires
        call_requires(spawn, ()),
    ensures
        final(boids).params == old(boids).params,
        resized(old(boids).boids@, final(boids).boids@, number),
        forall|i: int|
            old(boids).boids@.len() <= i < number ==> call_ensures(
                spawn,
                (),
                #[trigger] final(boids).boids@[i],
            ),
{
    while number > boids.boids.len()
        invariant
            call_requires(spawn, ()),
            boids.params == old(boids).params,
            old(boids).boids@.len() <= boids.boids@.len(),
            forall|i: int|
                0 <= i < old(boids).boids@.len() ==> #[trigger] boids.boids@[i] == old(boids).boids@[i],
            forall|i: int|
                old(boids).boids@.len() <= i < boids.boids@.len() ==> call_ensures(
                    spawn,
                    (),
                    #[trigger] boids.boids@[i],
                ),
        decreases number - boids.boids@.len(),
    {
        let fresh = spawn();
        boids.boids.push(fresh);
    }
    while number < boids.boids.len()
        invariant
            boids.params == old(boids).params,
            number <= boids.boids@.len(),
            forall|i: int|
                0 <= i < old(boids).boids@.len() && i < boids.boids@.len() ==> #[trigger] boids.boids@[i]
                    == old(boids).boids@[i],
            forall|i: int|
                old(boids).boids@.len() <= i < boids.boids@.len() ==> call_ensures(
                    spawn,
                    (),
                    #[trigger] boids.boids@[i],
                ),
        decreases boids.boids@.len(),
    {
        boids.boids.pop();
    }
}

/// Whatever `step` promises of every boid it answers with holds of every
/// boid after a tick: a step that caps the speed, for one, leaves no boid
/// above the cap.
pub proof fn lemma_tick_keeps_promise<V, P, F: Fn(&Boids<V, P>, usize) -> Boid<V>>(
    before: Boids<V, P>,
    after: Boids<V, P>,
    step: F,
    promise: spec_fn(Boid<V>) -> bool,
    i: int,
)
    requires
        ticked(before, after, step),
        forall|flock: Boids<V, P>, idx: usize, moved: Boid<V>| #[trigger]
            call_ensures(step, (&flock, idx), moved) ==> promise(moved),
        0 <= i < after.boids@.len(),
    ensures
        promise(after.boids@[i]),
{
    assert(call_ensures(step, (&before, i as usize), after.boids@[i]));
}

/// A change to the size that the population already has changes nothing.
pub proof fn lemma_resize_to_same_size<V>(before: Seq<Boid<V>>, after: Seq<Boid<V>>, number: usize)
    requires
        before.len() == number,
        resized(before, after, number),
    ensures
        after == before,
{
    assert(after =~= before);
}

/// Resizing twice to the same number is resizing once: whatever the first
/// change produced, the second leaves it as it is.
pub proof fn lemma_resize_idempotent<V>(
    first: Seq<Boid<V>>,
    second: Seq<Boid<V>>,
    third: Seq<Boid<V>>,
    number: usize,
)
    requires
        resized(first, second, number),
        resized(second, third, number),
    ensures
        third == second,
{
    lemma_resize_to_same_size(second, third, number);
}

} // verus!
