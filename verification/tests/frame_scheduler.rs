//! One frame tick under the pause control, parameter updates from sliders,
//! and the matrices pushed to the renderer.

use lorenz_vis::fx::SCALE;
use lorenz_vis::mat4::{mat4_identity, mat4_mul, orthographic, perspective, to_column_major, Mat4};
use lorenz_vis::sim::SimulationParameters;
use lorenz_vis::world::{pause_label, update_param, Param, RenderCommand, World, DELTA_T};

fn params() -> SimulationParameters {
    SimulationParameters {
        sigma: 10 * SCALE,
        rho: 28 * SCALE,
        beta: 2_666_667,
    }
}

fn proj() -> Mat4 {
    // Aspect 1, a generic field-of-view factor, near 0.1, far 1000.
    perspective(SCALE, 1_500_000, 100_000, 1_000 * SCALE)
}

fn lengths(w: &World) -> Vec<usize> {
    (0..w.set.len())
        .map(|i| w.set.entry_at(i).trajectory.len())
        .collect()
}

#[test]
fn paused_tick_changes_nothing_and_draws_nothing() {
    let mut w = World::new(params());
    w.set.spawn_many(5);
    let before = lengths(&w);
    w.toggle_pause();
    assert!(w.paused);
    let cmds = w.frame_tick(&proj());
    assert!(cmds.is_empty());
    assert_eq!(lengths(&w), before);
    // Resuming, one tick grows every trajectory by exactly one point.
    w.toggle_pause();
    assert!(!w.paused);
    let cmds = w.frame_tick(&proj());
    assert!(!cmds.is_empty());
    let after = lengths(&w);
    for (a, b) in before.iter().zip(after.iter()) {
        assert_eq!(*b, *a + 1);
    }
}

#[test]
fn tick_emits_commands_in_draw_order() {
    let mut w = World::new(params());
    w.set.spawn_many(3);
    let cmds = w.frame_tick(&proj());
    // MVP, clear, three commands per trajectory, the axis colour, and
    // upload/draw for each of the three axes.
    assert_eq!(cmds.len(), 3 + 3 * 3 + 6);
    assert!(matches!(cmds[0], RenderCommand::SetMvp(_)));
    assert_eq!(cmds[1], RenderCommand::Clear);
    for i in 0..3 {
        let e = w.set.entry_at(i);
        let c = e.colour;
        assert_eq!(
            cmds[2 + 3 * i],
            RenderCommand::SetColour {
                r: c.r,
                g: c.g,
                b: c.b,
                a: SCALE
            }
        );
        match &cmds[2 + 3 * i + 1] {
            RenderCommand::Upload(buf) => {
                assert_eq!(buf.len(), 3 * e.trajectory.len());
                let newest = e.trajectory.point_at(e.trajectory.len() - 1);
                let k = buf.len() - 3;
                assert_eq!((buf[k], buf[k + 1], buf[k + 2]), (newest.x, newest.y, newest.z));
            }
            other => panic!("expected an upload, got {:?}", other),
        }
        assert_eq!(
            cmds[2 + 3 * i + 2],
            RenderCommand::DrawLineStrip(e.trajectory.len())
        );
    }
    assert_eq!(
        cmds[11],
        RenderCommand::SetColour {
            r: SCALE,
            g: SCALE,
            b: SCALE,
            a: SCALE
        }
    );
    assert_eq!(cmds[13], RenderCommand::DrawLineStrip(2));
    assert_eq!(cmds[15], RenderCommand::DrawLineStrip(2));
    assert_eq!(cmds[17], RenderCommand::DrawLineStrip(2));
}

#[test]
fn ticks_advance_with_the_current_parameters() {
    // The tick appends exactly the Euler update of the newest point, under
    // the parameters as they stand at the tick.
    let mut w = World::new(params());
    w.set.spawn_many(1);
    let seed = w.set.entry_at(0).trajectory.point_at(0);
    let _ = w.frame_tick(&proj());
    assert_eq!(w.set.entry_at(0).trajectory.len(), 2);
    let stepped = w.set.entry_at(0).trajectory.point_at(1);
    let expected = lorenz_vis::sim::step(seed, params(), DELTA_T);
    assert_eq!(stepped, expected);
}

#[test]
fn malformed_slider_value_keeps_previous_parameter() {
    let mut p = params();
    update_param(&mut p, Param::Rho, None);
    assert_eq!(p, params());
    update_param(&mut p, Param::Rho, Some(35 * SCALE));
    assert_eq!(p.rho, 35 * SCALE);
    assert_eq!(p.sigma, 10 * SCALE);
    assert_eq!(p.beta, 2_666_667);
    update_param(&mut p, Param::Sigma, Some(1));
    assert_eq!(p.sigma, 1);
    update_param(&mut p, Param::Beta, None);
    assert_eq!(p.beta, 2_666_667);
}

#[test]
fn pause_label_names_the_next_action() {
    assert_eq!(pause_label(true), "resume");
    assert_eq!(pause_label(false), "pause");
}

#[test]
fn perspective_entries_follow_the_formula() {
    // Aspect 1, f = 1.5, near 0.1, far 1000.
    let m = perspective(SCALE, 1_500_000, 100_000, 1_000 * SCALE);
    assert_eq!(m.r0.x, 1_500_000); // f / aspect
    assert_eq!(m.r1.y, 1_500_000); // f
    assert_eq!((m.r0.y, m.r0.z, m.r0.w), (0, 0, 0));
    // -(far + near) / (far - near) = -1000.1 / 999.9, truncated.
    assert_eq!(m.r2.z, -1_000_200);
    // -(2 * far * near) / (far - near) = -200 / 999.9, truncated.
    assert_eq!(m.r2.w, -200_020);
    assert_eq!(m.r3.z, -SCALE);
    assert_eq!(m.r3.w, 0);
}

#[test]
fn orthographic_entries_follow_the_formula() {
    // The box [-1, 1] x [-1, 1] x [0.1, 10].
    let m = orthographic(-SCALE, SCALE, -SCALE, SCALE, 100_000, 10 * SCALE);
    assert_eq!(m.r0.x, SCALE); // 2 / (right - left)
    assert_eq!(m.r0.w, 0); // centred box
    assert_eq!(m.r1.y, SCALE);
    // -2 / (far - near) = -2 / 9.9, truncated.
    assert_eq!(m.r2.z, -202_020);
    // -(far + near) / (far - near) = -10.1 / 9.9, truncated.
    assert_eq!(m.r2.w, -1_020_202);
    assert_eq!(m.r3.w, SCALE);
}

#[test]
fn multiplying_by_the_identity_model_changes_nothing() {
    let p = proj();
    let m = mat4_mul(&p, &mat4_identity());
    assert_eq!(m, p);
}

#[test]
fn column_major_layout_matches_rows() {
    let m = proj();
    let buf = to_column_major(&m);
    assert_eq!(buf.len(), 16);
    assert_eq!(buf[0], m.r0.x);
    assert_eq!(buf[1], m.r1.x);
    assert_eq!(buf[4], m.r0.y);
    assert_eq!(buf[15], m.r3.w);
}
