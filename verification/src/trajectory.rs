//! Bounded trajectories, their colours, and the insertion-ordered set of
//! both, including the random spawner.

use vstd::prelude::*;
use crate::fx::SCALE;
use crate::vec3::Vec3;
use crate::sim::{SimulationParameters, spec_step, step};

verus! {

/// Most points a trajectory may hold; appending beyond it evicts the oldest.
pub const MAX_POINTS: usize = 500;

/// Half-side of the symmetric cube (in fixed-point units) from which seed
/// points are drawn.
pub const SPAWN_HALF_RANGE: i64 = 50_000_000;

/// A time-ordered, bounded history of integrated states.
pub struct Trajectory {
    points: Vec<Vec3>,
}

/// An (r, g, b) triple with every channel in `[0, SCALE]`,
/// fixed at spawn time.
#[derive(Clone, Copy, Debug, PartialEq, Eq, Structural)]
pub struct Colour {
    pub r: i64,
    pub g: i64,
    pub b: i64,
}

pub open spec fn colour_wf(c: Colour) -> bool {
    0 <= c.r <= SCALE && 0 <= c.g <= SCALE && 0 <= c.b <= SCALE
}

/// Whether a point lies in the spawn cube.
pub open spec fn in_spawn_cube(v: Vec3) -> bool {
    -SPAWN_HALF_RANGE <= v.x <= SPAWN_HALF_RANGE && -SPAWN_HALF_RANGE <= v.y <= SPAWN_HALF_RANGE
        && -SPAWN_HALF_RANGE <= v.z <= SPAWN_HALF_RANGE
}

impl View for Trajectory {
    type V = Seq<Vec3>;

    closed spec fn view(&self) -> Seq<Vec3> {
        self.points@
    }
}

/// What one `advance` does to a point history: append the Euler update of the
/// newest point, and drop the oldest point if the bound is now exceeded.
pub open spec fn spec_advance(pts: Seq<Vec3>, p: SimulationParameters, dt: int) -> Seq<Vec3> {
    let grown = pts.push(spec_step(pts.last(), p, dt));
    if grown.len() > MAX_POINTS {
        grown.subrange(1, grown.len() as int)
    } else {
        grown
    }
}

/// The length invariant of the bounded history: one advance grows a
/// trajectory by one point until the bound, then holds the length there by
/// evicting exactly the oldest point (first in, first out).
pub proof fn lemma_advance_bounded(pts: Seq<Vec3>, p: SimulationParameters, dt: int)
    requires
        1 <= pts.len() <= MAX_POINTS,
    ensures
        1 <= spec_advance(pts, p, dt).len() <= MAX_POINTS,
        pts.len() < MAX_POINTS ==> spec_advance(pts, p, dt) == pts.push(
            spec_step(pts.last(), p, dt),
        ),
        pts.len() == MAX_POINTS ==> spec_advance(pts, p, dt) == pts.subrange(
            1,
            pts.len() as int,
        ).push(spec_step(pts.last(), p, dt)),
{
    let grown = pts.push(spec_step(pts.last(), p, dt));
    if pts.len() == MAX_POINTS {
        assert(grown.subrange(1, grown.len() as int) =~= pts.subrange(1, pts.len() as int).push(
            spec_step(pts.last(), p, dt),
        ));
    }
}

impl Trajectory {
    /// A trajectory always holds its seed and never exceeds the bound.
    pub open spec fn well_formed(&self) -> bool {
        1 <= self@.len() <= MAX_POINTS
    }

    /// Seed a new trajectory with a single point.
    pub fn new(seed: Vec3) -> (t: Trajectory)
        ensures
            t@ == seq![seed],
            t.well_formed(),
    {
        let mut points: Vec<Vec3> = Vec::new();
        points.push(seed);
        proof {
            assert(points@ =~= seq![seed]);
        }
        Trajectory { points }
    }

    pub fn len(&self) -> (n: usize)
        ensures
            n == self@.len(),
    {
        self.points.len()
    }

    /// The newest point: the state the next step integrates from.
    pub fn last(&self) -> (p: Vec3)
        requires
            self@.len() >= 1,
        ensures
            p == self@.last(),
    {
        self.points[self.points.len() - 1]
    }

    /// The whole history, oldest first, for flattening into a vertex buffer.
    pub fn points(&self) -> (r: &Vec<Vec3>)
        ensures
            r@ == self@,
    {
        &self.points
    }

    /// The point at history index `i` (0 is the oldest).
    pub fn point_at(&self, i: usize) -> (p: Vec3)
        requires
            i < self@.len(),
        ensures
            p == self@[i as int],
    {
        self.points[i]
    }

    /// Append one Euler update and evict the oldest point when the bound
    /// would be exceeded, so the length never passes `MAX_POINTS`.
    pub fn advance(&mut self, params: SimulationParameters, dt: i64)
        requires
            old(self).well_formed(),
        ensures
            final(self)@ == spec_advance(old(self)@, params, dt as int),
            final(self).well_formed(),
            final(self)@.len() <= MAX_POINTS,
            old(self)@.len() < MAX_POINTS ==> final(self)@.len() == old(self)@.len() + 1,
            old(self)@.len() == MAX_POINTS ==> final(self)@.len() == MAX_POINTS
                && final(self)@[0] == old(self)@[1],
    {
        let next = step(self.last(), params, dt);
        self.points.push(next);
        if self.points.len() > MAX_POINTS {
            self.points.remove(0);
            proof {
                assert(self.points@ =~= spec_advance(old(self)@, params, dt as int));
            }
        }
    }
}

/// One trajectory together with its immutable colour.
pub struct TrajectoryEntry {
    pub trajectory: Trajectory,
    pub colour: Colour,
}

/// The insertion-ordered collection of all live trajectories. It only ever
/// grows: the design evicts points within a trajectory, never a whole one.
pub struct TrajectorySet {
    entries: Vec<TrajectoryEntry>,
}

impl View for TrajectorySet {
    type V = Seq<TrajectoryEntry>;

    closed spec fn view(&self) -> Seq<TrajectoryEntry> {
        self.entries@
    }
}

/// Relies on rand::random of the rand crate: draws an arbitrary value of the
/// given type; nothing can be promised of the result.
pub assume_specification<T>[ rand::random::<T> ]() -> (r: T)
    where
        rand::distributions::Standard: rand::distributions::Distribution<T>,
;

/// A coordinate drawn from `[-SPAWN_HALF_RANGE, SPAWN_HALF_RANGE]`.
fn random_coord() -> (c: i64)
    ensures
        -SPAWN_HALF_RANGE <= c <= SPAWN_HALF_RANGE,
{
    let bits: u64 = rand::random::<u64>();
    let m: u64 = bits % 100_000_001u64;
    (m as i64) - SPAWN_HALF_RANGE
}

/// A colour channel drawn from `[0, SCALE]`.
fn random_channel() -> (c: i64)
    ensures
        0 <= c <= SCALE,
{
    let bits: u64 = rand::random::<u64>();
    let m: u64 = bits % 1_000_001u64;
    m as i64
}

impl TrajectorySet {
    /// Every trajectory bounded and seeded, every colour in range.
    pub open spec fn well_formed(&self) -> bool {
        forall|i: int|
            0 <= i < self@.len() ==> (#[trigger] self@[i]).trajectory.well_formed() && colour_wf(
                self@[i].colour,
            )
    }

    pub fn new() -> (s: TrajectorySet)
        ensures
            s@.len() == 0,
            s.well_formed(),
    {
        TrajectorySet { entries: Vec::new() }
    }

    pub fn len(&self) -> (n: usize)
        ensures
            n == self@.len(),
    {
        self.entries.len()
    }

    pub fn entry_at(&self, i: usize) -> (e: &TrajectoryEntry)
        requires
            i < self@.len(),
        ensures
            *e == self@[i as int],
    {
        &self.entries[i]
    }

    /// Append one new trajectory, seeded with a single point drawn uniformly
    /// from the spawn cube, under a colour drawn uniformly from the unit
    /// cube. Existing entries are untouched.
    pub fn spawn(&mut self)
        ensures
            final(self)@.len() == old(self)@.len() + 1,
            final(self)@.drop_last() == old(self)@,
            final(self)@.last().trajectory@.len() == 1,
            final(self)@.last().trajectory.well_formed(),
            in_spawn_cube(final(self)@.last().trajectory@[0]),
            colour_wf(final(self)@.last().colour),
            old(self).well_formed() ==> final(self).well_formed(),
    {
        let seed = Vec3 { x: random_coord(), y: random_coord(), z: random_coord() };
        let colour = Colour { r: random_channel(), g: random_channel(), b: random_channel() };
        let entry = TrajectoryEntry { trajectory: Trajectory::new(seed), colour };
        self.entries.push(entry);
        proof {
            assert(self.entries@.drop_last() =~= old(self)@);
        }
    }

    /// Spawn `count` new trajectories in a row, as at startup.
    pub fn spawn_many(&mut self, count: usize)
        requires
            old(self)@.len() + count <= usize::MAX,
        ensures
            final(self)@.len() == old(self)@.len() + count,
            old(self).well_formed() ==> final(self).well_formed(),
    {
        let mut i: usize = 0;
        while i < count
            invariant
                0 <= i <= count,
                old(self)@.len() + count <= usize::MAX,
                self@.len() == old(self)@.len() + i,
                old(self).well_formed() ==> self.well_formed(),
            decreases count - i,
        {
            self.spawn();
            i = i + 1;
        }
    }

    /// One simulation tick over the whole set: every trajectory advances by
    /// one step, in iteration order; colours and order are untouched.
    pub fn advance_all(&mut self, params: SimulationParameters, dt: i64)
        requires
            old(self).well_formed(),
        ensures
            final(self)@.len() == old(self)@.len(),
            forall|i: int|
                0 <= i < old(self)@.len() ==> (#[trigger] final(self)@[i]).trajectory@
                    == spec_advance(old(self)@[i].trajectory@, params, dt as int),
            forall|i: int|
                0 <= i < old(self)@.len() ==> (#[trigger] final(self)@[i]).colour
                    == old(self)@[i].colour,
            final(self).well_formed(),
    {
        let n = self.entries.len();
        let mut i: usize = 0;
        while i < n
            invariant
                n == self.entries@.len(),
                n == old(self)@.len(),
                0 <= i <= n,
                forall|j: int|
                    i <= j < n ==> #[trigger] self.entries@[j] == old(self)@[j],
                forall|j: int|
                    0 <= j < i ==> (#[trigger] self.entries@[j]).trajectory@ == spec_advance(
                        old(self)@[j].trajectory@,
                        params,
                        dt as int,
                    ),
                forall|j: int|
                    0 <= j < i ==> (#[trigger] self.entries@[j]).colour == old(self)@[j].colour,
                forall|j: int|
                    0 <= j < i ==> (#[trigger] self.entries@[j]).trajectory.well_formed(),
                old(self).well_formed(),
            decreases n - i,
        {
            self.entries[i].trajectory.advance(params, dt);
            i = i + 1;
        }
    }
}

} // verus!
