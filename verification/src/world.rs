//! Per-frame orchestration: the shared application state, the pause control,
//! slider-driven parameter updates, and the one-tick frame schedule that
//! turns the world into a list of render commands.

use vstd::prelude::*;
use crate::fx::SCALE;
use crate::vec3::Vec3;
use crate::sim::SimulationParameters;
use crate::trajectory::{TrajectorySet, TrajectoryEntry, spec_advance};
use crate::camera::CameraState;
use crate::mat4::{
    Mat4,
    spec_mat4_mul,
    spec_look_at,
    look_at_defined,
    look_at_rh,
    mat4_mul,
    mat4_identity,
    lemma_mat4_mul_identity,
};
use crate::geometry::{is_flat_of, build_from_points, build_segment};

verus! {

/// The fixed simulation time step (0.002 units).
pub const DELTA_T: i64 = 2_000;

/// Half-length of each drawn world axis (10000 units).
pub const AXIS_BOUND: i64 = 10_000_000_000;

/// Wall-clock interval between background trajectory spawns, in milliseconds.
pub const SPAWN_INTERVAL_MS: u32 = 500;

/// Number of trajectories spawned at startup.
pub const INITIAL_TRAJECTORIES: usize = 20;

/// One instruction to the external renderer, in issue order. Colour channels
/// and vertex coordinates are fixed-point; the boundary converts them to the
/// renderer's float format.
#[derive(Debug, PartialEq)]
pub enum RenderCommand {
    /// Set the model-view-projection uniform.
    SetMvp(Mat4),
    /// Clear the target.
    Clear,
    /// Set the colour uniform (rgba).
    SetColour { r: i64, g: i64, b: i64, a: i64 },
    /// Upload a vertex buffer.
    Upload(Vec<i64>),
    /// Draw the uploaded buffer as a line strip of `n` vertices.
    DrawLineStrip(usize),
}

/// All shared state, owned by the scheduling loop and passed by borrow into
/// each tick and each event handler: the trajectory set, the camera pose, the
/// simulation parameters and the pause flag.
pub struct World {
    pub set: TrajectorySet,
    pub camera: CameraState,
    pub params: SimulationParameters,
    pub paused: bool,
}

/// Which simulation parameter a slider drives.
#[derive(Clone, Copy, Debug, PartialEq, Eq, Structural)]
pub enum Param {
    Sigma,
    Rho,
    Beta,
}

/// The new parameter triple after one slider event. A malformed slider value
/// arrives as `None` and leaves the previous value unchanged.
pub open spec fn spec_update_param(
    p: SimulationParameters,
    which: Param,
    value: Option<i64>,
) -> SimulationParameters {
    match value {
        Option::None => p,
        Option::Some(v) => match which {
            Param::Sigma => SimulationParameters { sigma: v, ..p },
            Param::Rho => SimulationParameters { rho: v, ..p },
            Param::Beta => SimulationParameters { beta: v, ..p },
        },
    }
}

/// Absorb one slider event: set the chosen coefficient, or, when the input
/// failed to parse (`None`), fail fast and keep the previous value.
pub fn update_param(p: &mut SimulationParameters, which: Param, value: Option<i64>)
    ensures
        *final(p) == spec_update_param(*old(p), which, value),
{
    match value {
        Option::None => {},
        Option::Some(v) => {
            match which {
                Param::Sigma => {
                    p.sigma = v;
                },
                Param::Rho => {
                    p.rho = v;
                },
                Param::Beta => {
                    p.beta = v;
                },
            }
        },
    }
}

/// The label the pause button shows once the flag holds: the action a click
/// would take next.
pub fn pause_label(paused: bool) -> (s: &'static str)
    ensures
        paused ==> s@ == "resume"@,
        !paused ==> s@ == "pause"@,
{
    if paused {
        "resume"
    } else {
        "pause"
    }
}

/// The three render commands that draw one trajectory: its colour, its
/// flattened point history, and a line-strip draw call over every point.
pub open spec fn is_traj_cmds(
    c0: RenderCommand,
    c1: RenderCommand,
    c2: RenderCommand,
    e: TrajectoryEntry,
) -> bool {
    &&& c0 == (RenderCommand::SetColour { r: e.colour.r, g: e.colour.g, b: e.colour.b, a: SCALE })
    &&& c1 matches RenderCommand::Upload(b) && is_flat_of(b@, e.trajectory@)
    &&& c2 == RenderCommand::DrawLineStrip(e.trajectory@.len() as usize)
}

/// The world-axis segment along axis `k` (0 = X, 1 = Y, 2 = Z), spanning the
/// symmetric bound.
pub open spec fn spec_axis_segment(k: int) -> Seq<i64> {
    if k == 0 {
        seq![(-AXIS_BOUND) as i64, 0, 0, AXIS_BOUND, 0, 0]
    } else if k == 1 {
        seq![0, (-AXIS_BOUND) as i64, 0, 0, AXIS_BOUND, 0]
    } else {
        seq![0, 0, (-AXIS_BOUND) as i64, 0, 0, AXIS_BOUND]
    }
}

/// The two render commands that draw one world axis.
pub open spec fn is_axis_cmds(c0: RenderCommand, c1: RenderCommand, k: int) -> bool {
    &&& c0 matches RenderCommand::Upload(b) && b@ == spec_axis_segment(k)
    &&& c1 == RenderCommand::DrawLineStrip(2usize)
}

impl World {
    pub open spec fn well_formed(&self) -> bool {
        self.set.well_formed() && self.camera.well_formed()
    }

    /// The world at startup: no trajectories yet, the initial camera pose,
    /// the given coefficients, running (not paused).
    pub fn new(params: SimulationParameters) -> (w: World)
        ensures
            w.set@.len() == 0,
            w.camera.position == (Vec3 { x: 0, y: 0, z: 500_000_000i64 }),
            w.camera.front == (Vec3 { x: 0, y: 0, z: -1_000_000i64 }),
            w.camera.up == (Vec3 { x: 0, y: 1_000_000i64, z: 0 }),
            w.camera.yaw == -90_000_000i64,
            w.camera.pitch == 0i64,
            w.params == params,
            !w.paused,
            w.well_formed(),
    {
        World { set: TrajectorySet::new(), camera: CameraState::new(), params, paused: false }
    }

    /// Flip the pause flag; nothing else moves. Pausing gates the simulation
    /// and the draws, never the scheduling chain itself.
    pub fn toggle_pause(&mut self)
        ensures
            final(self).paused == !old(self).paused,
            final(self).set@ == old(self).set@,
            final(self).camera == old(self).camera,
            final(self).params == old(self).params,
    {
        self.paused = !self.paused;
    }

    /// One frame tick. When paused, nothing moves and nothing is drawn; the
    /// caller re-registers the tick unconditionally either way. Otherwise:
    /// the camera's view is combined with the given projection into the MVP
    /// uniform, every trajectory advances by one `DELTA_T` step of the
    /// current parameters, and the commands issue, in order: the MVP, a
    /// clear, colour/upload/draw for each trajectory in insertion order, the
    /// axis colour, and upload/draw for the three world axes. A camera pose
    /// with no defined view basis skips the draw commands (never the tick).
    pub fn frame_tick(&mut self, projection: &Mat4) -> (cmds: Vec<RenderCommand>)
        requires
            old(self).well_formed(),
        ensures
            final(self).well_formed(),
            final(self).camera == old(self).camera,
            final(self).params == old(self).params,
            final(self).paused == old(self).paused,
            old(self).paused ==> final(self).set@ == old(self).set@ && cmds@.len() == 0,
            !old(self).paused ==> {
                &&& final(self).set@.len() == old(self).set@.len()
                &&& forall|i: int|
                    0 <= i < old(self).set@.len() ==> (#[trigger] final(self).set@[i]).trajectory@
                        == spec_advance(
                        old(self).set@[i].trajectory@,
                        old(self).params,
                        DELTA_T as int,
                    )
                &&& forall|i: int|
                    0 <= i < old(self).set@.len() ==> (#[trigger] final(self).set@[i]).colour
                        == old(self).set@[i].colour
            },
            !old(self).paused && !look_at_defined(old(self).camera.front, old(self).camera.up)
                ==> cmds@.len() == 0,
            !old(self).paused && look_at_defined(old(self).camera.front, old(self).camera.up)
                ==> {
                let n = final(self).set@.len() as int;
                &&& cmds@.len() == 3 + 3 * n + 6
                &&& cmds@[0] == RenderCommand::SetMvp(
                    spec_mat4_mul(
                        *projection,
                        spec_look_at(
                            old(self).camera.position,
                            old(self).camera.front,
                            old(self).camera.up,
                        ),
                    ),
                )
                &&& cmds@[1] == RenderCommand::Clear
                &&& forall|i: int|
                    0 <= i < n ==> is_traj_cmds(
                        cmds@[2 + 3 * i],
                        cmds@[2 + 3 * i + 1],
                        cmds@[2 + 3 * i + 2],
                        #[trigger] final(self).set@[i],
                    )
                &&& cmds@[2 + 3 * n] == (RenderCommand::SetColour {
                    r: SCALE,
                    g: SCALE,
                    b: SCALE,
                    a: SCALE,
                })
                &&& forall|k: int|
                    0 <= k < 3 ==> #[trigger] is_axis_cmds(
                        cmds@[3 + 3 * n + 2 * k],
                        cmds@[3 + 3 * n + 2 * k + 1],
                        k,
                    )
            },
    {
        let mut cmds: Vec<RenderCommand> = Vec::new();
        if self.paused {
            return cmds;
        }
        let view = look_at_rh(self.camera.position, self.camera.front, self.camera.up);
        self.set.advance_all(self.params, DELTA_T);
        let view = match view {
            Option::Some(v) => v,
            Option::None => {
                return cmds;
            },
        };
        let model = mat4_identity();
        let mvp = mat4_mul(&mat4_mul(projection, &view), &model);
        proof {
            lemma_mat4_mul_identity(spec_mat4_mul(*projection, spec_look_at(
                self.camera.position,
                self.camera.front,
                self.camera.up,
            )));
        }
        cmds.push(RenderCommand::SetMvp(mvp));
        cmds.push(RenderCommand::Clear);
        let n = self.set.len();
        let mut i: usize = 0;
        while i < n
            invariant
                n == self.set@.len(),
                0 <= i <= n,
                self.set.well_formed(),
                cmds@.len() == 2 + 3 * i,
                cmds@[0] == RenderCommand::SetMvp(
                    spec_mat4_mul(
                        *projection,
                        spec_look_at(self.camera.position, self.camera.front, self.camera.up),
                    ),
                ),
                cmds@[1] == RenderCommand::Clear,
                forall|j: int|
                    0 <= j < i ==> is_traj_cmds(
                        cmds@[2 + 3 * j],
                        cmds@[2 + 3 * j + 1],
                        cmds@[2 + 3 * j + 2],
                        #[trigger] self.set@[j],
                    ),
                self.camera == old(self).camera,
                mvp == spec_mat4_mul(
                    *projection,
                    spec_look_at(self.camera.position, self.camera.front, self.camera.up),
                ),
            decreases n - i,
        {
            let e = self.set.entry_at(i);
            let colour = e.colour;
            let buf = build_from_points(e.trajectory.points());
            let len = e.trajectory.len();
            cmds.push(RenderCommand::SetColour { r: colour.r, g: colour.g, b: colour.b, a: SCALE });
            cmds.push(RenderCommand::Upload(buf));
            cmds.push(RenderCommand::DrawLineStrip(len));
            i = i + 1;
        }
        cmds.push(RenderCommand::SetColour { r: SCALE, g: SCALE, b: SCALE, a: SCALE });
        let ax = build_segment(
            Vec3 { x: -AXIS_BOUND, y: 0, z: 0 },
            Vec3 { x: AXIS_BOUND, y: 0, z: 0 },
        );
        proof {
            assert(ax@ =~= spec_axis_segment(0));
        }
        cmds.push(RenderCommand::Upload(ax));
        cmds.push(RenderCommand::DrawLineStrip(2));
        let ay = build_segment(
            Vec3 { x: 0, y: -AXIS_BOUND, z: 0 },
            Vec3 { x: 0, y: AXIS_BOUND, z: 0 },
        );
        proof {
            assert(ay@ =~= spec_axis_segment(1));
        }
        cmds.push(RenderCommand::Upload(ay));
        cmds.push(RenderCommand::DrawLineStrip(2));
        let az = build_segment(
            Vec3 { x: 0, y: 0, z: -AXIS_BOUND },
            Vec3 { x: 0, y: 0, z: AXIS_BOUND },
        );
        proof {
            assert(az@ =~= spec_axis_segment(2));
        }
        cmds.push(RenderCommand::Upload(az));
        cmds.push(RenderCommand::DrawLineStrip(2));
        cmds
    }
}

} // verus!
