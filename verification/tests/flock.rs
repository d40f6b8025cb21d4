use boids::boid::Boid;
use boids::boids::{Boids, DEFAULT_NR_OF_BOIDS};
use boids::utils::{change_number_of_boids, update};
use std::cell::Cell;

/// A stand-in for a vector of the plane: a point on a line and a tag.
#[derive(Clone, Copy, Debug, PartialEq)]
struct Dot {
    at: f64,
    tag: u32,
}

const STILL: Dot = Dot { at: 0.0, tag: 0 };

fn dot(at: f64, tag: u32) -> Boid<Dot> {
    Boid::new(Dot { at, tag }, STILL, at as usize, 0)
}

fn flock_of(places: &[f64]) -> Boids<Dot, &'static str> {
    let mut tag = 0;
    let mut flock = Vec::new();
    for at in places {
        flock.push(dot(*at, tag));
        tag += 1;
    }
    Boids { boids: flock, params: "settings" }
}

fn gap_squared_under(limit: f64) -> impl Fn(&Dot, &Dot) -> Option<f64> {
    move |this: &Dot, other: &Dot| {
        let gap = (this.at - other.at) * (this.at - other.at);
        if gap < limit {
            Some(gap)
        } else {
            None
        }
    }
}

#[test]
fn new_boid_keeps_position_and_velocity_and_derives_bucket() {
    let boid = Boid::new((120.5f64, 349.9f64), (1.5f64, -2.0f64), 120, 349);
    assert_eq!(boid.pos, (120.5, 349.9));
    assert_eq!(boid.vel, (1.5, -2.0));
    assert_eq!(boid.id, (2, 6));
}

#[test]
fn new_flock_has_default_population() {
    assert_eq!(DEFAULT_NR_OF_BOIDS, 100);
    let made = Cell::new(0u32);
    let flock = Boids::new(7u8, || {
        made.set(made.get() + 1);
        dot(3.0, made.get())
    });
    assert_eq!(flock.boids.len(), 100);
    assert_eq!(flock.params, 7);
    assert_eq!(made.get(), 100);
    for (i, boid) in flock.boids.iter().enumerate() {
        assert_eq!(boid.pos.tag, i as u32 + 1);
    }
}

#[test]
fn scatter_keeps_size_and_parameters() {
    let mut flock = flock_of(&[1.0, 2.0, 3.0, 4.0]);
    flock.scatter(|| dot(777.0, 99));
    assert_eq!(flock.boids.len(), 4);
    assert_eq!(flock.params, "settings");
    for boid in &flock.boids {
        assert_eq!(boid.pos, Dot { at: 777.0, tag: 99 });
        assert_eq!(boid.id, (15, 0));
    }
}

#[test]
fn scatter_of_empty_flock_spawns_nothing() {
    let made = Cell::new(0u32);
    let mut flock = flock_of(&[]);
    flock.scatter(|| {
        made.set(made.get() + 1);
        dot(0.0, 0)
    });
    assert_eq!(flock.boids.len(), 0);
    assert_eq!(made.get(), 0);
}

#[test]
fn resize_grows_at_the_end() {
    let mut flock = flock_of(&[1.0, 2.0]);
    change_number_of_boids(&mut flock, 5, || dot(500.0, 42));
    assert_eq!(flock.boids.len(), 5);
    assert_eq!(flock.boids[0].pos, Dot { at: 1.0, tag: 0 });
    assert_eq!(flock.boids[1].pos, Dot { at: 2.0, tag: 1 });
    for boid in &flock.boids[2..] {
        assert_eq!(boid.pos, Dot { at: 500.0, tag: 42 });
        assert_eq!(boid.id, (10, 0));
    }
    assert_eq!(flock.params, "settings");
}

#[test]
fn resize_shrinks_from_the_end() {
    let mut flock = flock_of(&[1.0, 2.0, 3.0, 4.0]);
    let made = Cell::new(0u32);
    change_number_of_boids(&mut flock, 1, || {
        made.set(made.get() + 1);
        dot(0.0, 0)
    });
    assert_eq!(flock.boids.len(), 1);
    assert_eq!(flock.boids[0].pos, Dot { at: 1.0, tag: 0 });
    assert_eq!(made.get(), 0);
    assert_eq!(flock.params, "settings");
}

#[test]
fn resize_to_current_size_is_a_no_op() {
    let mut flock = flock_of(&[1.0, 2.0, 3.0]);
    let made = Cell::new(0u32);
    change_number_of_boids(&mut flock, 3, || {
        made.set(made.get() + 1);
        dot(0.0, 0)
    });
    assert_eq!(made.get(), 0);
    assert_eq!(flock.boids.len(), 3);
    for (i, boid) in flock.boids.iter().enumerate() {
        assert_eq!(boid.pos.tag, i as u32);
    }
}

#[test]
fn resize_to_zero_empties_the_flock() {
    let mut flock = flock_of(&[1.0, 2.0, 3.0]);
    change_number_of_boids(&mut flock, 0, || dot(0.0, 0));
    assert!(flock.boids.is_empty());
    change_number_of_boids(&mut flock, 0, || dot(0.0, 0));
    assert!(flock.boids.is_empty());
}

#[test]
fn resize_twice_is_resize_once() {
    let made = Cell::new(0u32);
    let spawn = || {
        made.set(made.get() + 1);
        dot(10.0, 100 + made.get())
    };
    let mut flock = flock_of(&[1.0, 2.0]);
    change_number_of_boids(&mut flock, 6, &spawn);
    let after_first: Vec<Dot> = flock.boids.iter().map(|b| b.pos).collect();
    change_number_of_boids(&mut flock, 6, &spawn);
    let after_second: Vec<Dot> = flock.boids.iter().map(|b| b.pos).collect();
    assert_eq!(after_first.len(), 6);
    assert_eq!(after_first, after_second);
    assert_eq!(made.get(), 4);
}

#[test]
fn resize_from_default_to_ui_maximum_and_back() {
    let mut flock = Boids::new((), || dot(1.0, 0));
    change_number_of_boids(&mut flock, 4000, || dot(2.0, 1));
    assert_eq!(flock.boids.len(), 4000);
    assert_eq!(flock.boids[99].pos.tag, 0);
    assert_eq!(flock.boids[100].pos.tag, 1);
    change_number_of_boids(&mut flock, 100, || dot(3.0, 2));
    assert_eq!(flock.boids.len(), 100);
    assert!(flock.boids.iter().all(|b| b.pos.tag == 0));
}

#[test]
fn others_exclude_the_boid_itself() {
    let flock = flock_of(&[10.0, 10.0, 10.0]);
    let others = flock.get_weighted_others(1, 225, gap_squared_under(225.0));
    let indices: Vec<usize> = others.iter().map(|o| o.0).collect();
    assert_eq!(indices, vec![0, 2]);
}

#[test]
fn others_carry_the_weight_they_were_given() {
    let flock = flock_of(&[0.0, 10.0, 3.0, 14.0]);
    let others = flock.get_weighted_others(0, 225, gap_squared_under(225.0));
    assert_eq!(others, vec![(1, 100.0), (2, 9.0), (3, 196.0)]);
}

#[test]
fn others_leave_out_what_the_weighing_refuses() {
    let flock = flock_of(&[0.0, 10.0, 15.0, 16.0]);
    let others = flock.get_weighted_others(0, 225, gap_squared_under(225.0));
    // 15 * 15 is not under 225: the bound is strict.
    assert_eq!(others, vec![(1, 100.0)]);
}

#[test]
fn others_never_weigh_a_boid_that_fails_the_coarse_test() {
    let near = Boid { pos: Dot { at: 0.0, tag: 0 }, vel: STILL, id: (0, 0) };
    let misplaced = Boid { pos: Dot { at: 1.0, tag: 1 }, vel: STILL, id: (9, 9) };
    let far_on_one_axis = Boid { pos: Dot { at: 2.0, tag: 2 }, vel: STILL, id: (9, 0) };
    let flock = Boids { boids: vec![near, misplaced, far_on_one_axis], params: () };
    let seen = Cell::new(0u32);
    let others = flock.get_weighted_others(0, 225, |this: &Dot, other: &Dot| {
        seen.set(seen.get() + 1);
        Some(other.at - this.at)
    });
    // reach is 1 + 225 / 50 = 5 buckets; (9, 9) is out on both axes, (9, 0) on one only
    assert_eq!(others, vec![(2, 2.0)]);
    assert_eq!(seen.get(), 1);
}

#[test]
fn others_of_a_lone_boid_are_none() {
    let flock = flock_of(&[5.0]);
    let others = flock.get_weighted_others(0, 4900, gap_squared_under(4900.0));
    assert!(others.is_empty());
}

#[test]
fn others_with_zero_radius_still_reach_the_own_bucket() {
    let flock = flock_of(&[5.0, 6.0, 70.0]);
    let seen = Cell::new(0u32);
    let others = flock.get_weighted_others(0, 0, |_: &Dot, other: &Dot| {
        seen.set(seen.get() + 1);
        Some(other.tag)
    });
    // all three share the row of buckets, and one shared axis is enough
    assert_eq!(others, vec![(1, 1), (2, 2)]);
    assert_eq!(seen.get(), 2);
}

#[test]
fn neighbourhood_is_symmetric() {
    let places = [0.0, 10.0, 14.9, 15.0, 40.0, 49.0, 55.0, 300.0];
    let flock = flock_of(&places);
    for a in 0..places.len() {
        let of_a = flock.get_weighted_others(a, 225, gap_squared_under(225.0));
        for b in 0..places.len() {
            let of_b = flock.get_weighted_others(b, 225, gap_squared_under(225.0));
            let b_in_a = of_a.iter().any(|o| o.0 == b);
            let a_in_b = of_b.iter().any(|o| o.0 == a);
            assert_eq!(b_in_a, a_in_b);
        }
    }
}

#[test]
fn update_of_empty_flock_does_nothing() {
    let mut flock = flock_of(&[]);
    let calls = Cell::new(0u32);
    update(&mut flock, |_: &Boids<Dot, &'static str>, _: usize| {
        calls.set(calls.get() + 1);
        dot(0.0, 0)
    });
    assert_eq!(calls.get(), 0);
    assert!(flock.boids.is_empty());
    assert_eq!(flock.params, "settings");
}

#[test]
fn update_replaces_each_boid_by_its_step() {
    let mut flock = flock_of(&[10.0, 60.0, 110.0]);
    update(&mut flock, |before: &Boids<Dot, &'static str>, idx: usize| {
        let old = before.boids[idx].pos;
        dot(old.at + 50.0, old.tag)
    });
    let places: Vec<f64> = flock.boids.iter().map(|b| b.pos.at).collect();
    let ids: Vec<(usize, usize)> = flock.boids.iter().map(|b| b.id).collect();
    assert_eq!(places, vec![60.0, 110.0, 160.0]);
    assert_eq!(ids, vec![(1, 0), (2, 0), (3, 0)]);
    assert_eq!(flock.params, "settings");
}

#[test]
fn update_shows_every_step_the_flock_before_the_tick() {
    let mut flock = flock_of(&[1.0, 2.0, 4.0]);
    update(&mut flock, |before: &Boids<Dot, &'static str>, idx: usize| {
        let mut sum = 0.0;
        for boid in &before.boids {
            sum += boid.pos.at;
        }
        dot(sum, before.boids[idx].pos.tag)
    });
    // had a later step seen an earlier result, the sums would differ
    let places: Vec<f64> = flock.boids.iter().map(|b| b.pos.at).collect();
    assert_eq!(places, vec![7.0, 7.0, 7.0]);
}

#[test]
fn update_result_does_not_depend_on_the_order_of_the_boids() {
    let step = |before: &Boids<Dot, &'static str>, idx: usize| {
        let this = before.boids[idx].pos;
        let others = before.get_weighted_others(idx, 225, gap_squared_under(225.0));
        let mut push = 0.0;
        for (other, _) in &others {
            push -= before.boids[*other].pos.at - this.at;
        }
        dot(this.at + push, this.tag)
    };
    let mut forward = flock_of(&[100.0, 110.0, 118.0]);
    let mut backward = flock_of(&[118.0, 110.0, 100.0]);
    update(&mut forward, &step);
    update(&mut backward, &step);
    let mut a: Vec<f64> = forward.boids.iter().map(|b| b.pos.at).collect();
    let mut b: Vec<f64> = backward.boids.iter().map(|b| b.pos.at).collect();
    a.sort_by(|x, y| x.partial_cmp(y).unwrap());
    b.sort_by(|x, y| x.partial_cmp(y).unwrap());
    // 100 and 118 lie 18 apart, beyond the radius of 15: only 110 sees both
    assert_eq!(a, vec![90.0, 112.0, 126.0]);
    assert_eq!(a, b);
}

#[test]
fn two_boids_within_separation_range_part_symmetrically() {
    // two boids 10 apart, separation radius 15, factor 1, one second per tick
    let step = |before: &Boids<Dot, &'static str>, idx: usize| {
        let this = before.boids[idx].pos;
        let others = before.get_weighted_others(idx, 225, gap_squared_under(225.0));
        let mut steer = 0.0;
        for (other, gap) in &others {
            if *gap <= 225.0 {
                steer -= before.boids[*other].pos.at - this.at;
            }
        }
        let capped = steer.clamp(-1000.0, 1000.0);
        dot(this.at + capped * 1.0, this.tag)
    };
    let mut flock = flock_of(&[100.0, 110.0]);
    update(&mut flock, &step);
    let left = flock.boids[0].pos.at;
    let right = flock.boids[1].pos.at;
    assert_eq!((left, right), (90.0, 120.0));
    assert!(right - left > 10.0);
    assert_eq!((left + right) / 2.0, 105.0);
    assert_eq!(flock.boids[0].id, (1, 0));
    assert_eq!(flock.boids[1].id, (2, 0));
}
