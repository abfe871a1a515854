//! Bounded histories, FIFO eviction, and the random spawner.

use lorenz_vis::fx::SCALE;
use lorenz_vis::sim::SimulationParameters;
use lorenz_vis::trajectory::{Trajectory, TrajectorySet, MAX_POINTS, SPAWN_HALF_RANGE};
use lorenz_vis::vec3::Vec3;

fn params() -> SimulationParameters {
    SimulationParameters {
        sigma: 10 * SCALE,
        rho: 28 * SCALE,
        beta: 2_666_667,
    }
}

#[test]
fn length_never_exceeds_bound() {
    let mut t = Trajectory::new(Vec3 {
        x: SCALE,
        y: SCALE,
        z: SCALE,
    });
    let p = params();
    for i in 0..(MAX_POINTS + 100) {
        t.advance(p, 2_000);
        let expected = (i + 2).min(MAX_POINTS);
        assert_eq!(t.len(), expected);
        assert!(t.len() <= MAX_POINTS);
    }
}

#[test]
fn eviction_is_fifo() {
    let seed = Vec3 {
        x: 3 * SCALE,
        y: -2 * SCALE,
        z: SCALE,
    };
    let mut t = Trajectory::new(seed);
    let p = params();
    // Fill to the bound; the seed is still the oldest point.
    for _ in 0..(MAX_POINTS - 1) {
        t.advance(p, 2_000);
    }
    assert_eq!(t.len(), MAX_POINTS);
    assert_eq!(t.point_at(0), seed);
    let second = t.point_at(1);
    let third = t.point_at(2);
    // The next advance evicts exactly the first-in point.
    t.advance(p, 2_000);
    assert_eq!(t.len(), MAX_POINTS);
    assert_eq!(t.point_at(0), second);
    // And the one after evicts the next-oldest, never a newer point.
    t.advance(p, 2_000);
    assert_eq!(t.point_at(0), third);
}

#[test]
fn spawn_twenty_trajectories_with_colours_in_unit_cube() {
    let mut set = TrajectorySet::new();
    for _ in 0..20 {
        set.spawn();
    }
    assert_eq!(set.len(), 20);
    for i in 0..20 {
        let e = set.entry_at(i);
        let c = e.colour;
        assert!(0 <= c.r && c.r <= SCALE);
        assert!(0 <= c.g && c.g <= SCALE);
        assert!(0 <= c.b && c.b <= SCALE);
        assert_eq!(e.trajectory.len(), 1);
        let seed = e.trajectory.point_at(0);
        assert!(-SPAWN_HALF_RANGE <= seed.x && seed.x <= SPAWN_HALF_RANGE);
        assert!(-SPAWN_HALF_RANGE <= seed.y && seed.y <= SPAWN_HALF_RANGE);
        assert!(-SPAWN_HALF_RANGE <= seed.z && seed.z <= SPAWN_HALF_RANGE);
    }
}

#[test]
fn spawn_many_matches_repeated_spawn() {
    let mut set = TrajectorySet::new();
    set.spawn_many(20);
    assert_eq!(set.len(), 20);
    set.spawn_many(5);
    assert_eq!(set.len(), 25);
}

#[test]
fn advance_all_steps_every_trajectory_once() {
    let mut set = TrajectorySet::new();
    set.spawn_many(7);
    let before: Vec<usize> = (0..7).map(|i| set.entry_at(i).trajectory.len()).collect();
    let colours_before: Vec<_> = (0..7).map(|i| set.entry_at(i).colour).collect();
    set.advance_all(params(), 2_000);
    for i in 0..7 {
        assert_eq!(set.entry_at(i).trajectory.len(), before[i] + 1);
        assert_eq!(set.entry_at(i).colour, colours_before[i]);
    }
}

#[test]
fn spawned_seeds_vary() {
    // The spawner draws fresh randomness per trajectory: 20 seeds all equal
    // would mean the draw was handed back unchanged.
    let mut set = TrajectorySet::new();
    set.spawn_many(20);
    let first = set.entry_at(0).trajectory.point_at(0);
    let mut all_equal = true;
    for i in 1..20 {
        if set.entry_at(i).trajectory.point_at(0) != first {
            all_equal = false;
        }
    }
    assert!(!all_equal);
}
