use jardin::input::{InputQueue, ScrollUnit};
use jardin::player::{camera_look, camera_movement, camera_translate, camera_zoom, move_step,
    spawn_camera, Keys};

fn held(f: impl Fn(&mut Keys)) -> Keys {
    let mut k = Keys::none();
    f(&mut k);
    k
}

#[test]
fn spawn_camera_initial_state() {
    let cam = spawn_camera();
    assert_eq!(cam.player.yaw, -90_000);
    assert_eq!(cam.player.pitch, 0);
    assert_eq!(cam.fov, 60_000);
    assert_eq!(cam.pos.x, 0);
    assert_eq!(cam.pos.y, 5_000_000);
    assert_eq!(cam.pos.z, 15_000_000);
    assert_eq!(cam.player.speed, 10_000);
    assert_eq!(cam.player.sensitivity, 100);
    assert_eq!(cam.player.zoom_speed, 2_000);
}

#[test]
fn pitch_clamps_low_and_high() {
    let mut cam = spawn_camera();
    camera_look(&mut cam, 0, 1_000_000);
    assert_eq!(cam.player.pitch, -89_000);
    camera_look(&mut cam, 0, -1_000_000);
    assert_eq!(cam.player.pitch, 89_000);
    camera_look(&mut cam, 0, -1_000_000);
    assert_eq!(cam.player.pitch, 89_000);
}

#[test]
fn yaw_accumulates_unclamped() {
    let mut cam = spawn_camera();
    camera_look(&mut cam, 10_000_000, 0);
    assert_eq!(cam.player.yaw, -90_000 + 10_000_000 * 100);
    camera_look(&mut cam, 10_000_000, 0);
    assert_eq!(cam.player.yaw, -90_000 + 2 * 10_000_000 * 100);
}

#[test]
fn zero_delta_skips_look() {
    let mut cam = spawn_camera();
    camera_look(&mut cam, 0, 0);
    assert_eq!(cam.player.yaw, -90_000);
    assert_eq!(cam.player.pitch, 0);
}

#[test]
fn fov_clamps_both_ways() {
    let mut cam = spawn_camera();
    camera_zoom(&mut cam, 1_000_000_000);
    assert_eq!(cam.fov, 20_000);
    camera_zoom(&mut cam, -1_000_000_000);
    assert_eq!(cam.fov, 90_000);
    camera_zoom(&mut cam, 0);
    assert_eq!(cam.fov, 90_000);
}

#[test]
fn scroll_in_narrows_fov() {
    let mut cam = spawn_camera();
    // one scroll line at 2 degrees per line: 60 - 2 = 58 degrees.
    camera_zoom(&mut cam, 1_000);
    assert_eq!(cam.fov, 58_000);
}

#[test]
fn pixel_scroll_rescaled_by_fifty() {
    let mut q = InputQueue::new();
    q.push_scroll(ScrollUnit::Pixel, 50_000);
    assert_eq!(q.drain_scroll(), 1_000);
    q.push_scroll(ScrollUnit::Line, 1_000);
    q.push_scroll(ScrollUnit::Pixel, -100_000);
    assert_eq!(q.drain_scroll(), 1_000 - 2_000);
    // drained queues stay drained.
    assert_eq!(q.drain_scroll(), 0);
}

#[test]
fn drain_motion_sums_and_empties() {
    let mut q = InputQueue::new();
    q.push_motion(3, -4);
    q.push_motion(7, 9);
    let (dx, dy) = q.drain_motion();
    assert_eq!((dx, dy), (10, 5));
    assert_eq!(q.drain_motion(), (0, 0));
}

#[test]
fn diagonal_is_not_faster() {
    let fw = held(|k| k.forward = true);
    let fwr = held(|k| {
        k.forward = true;
        k.right = true;
    });
    let all = held(|k| {
        k.forward = true;
        k.right = true;
        k.up = true;
    });
    let s = move_step(&fw, 10_000, 16);
    assert_eq!(s, 160_000);
    assert_eq!(move_step(&fwr, 10_000, 16), s);
    assert_eq!(move_step(&all, 10_000, 16), s);
}

#[test]
fn opposed_keys_cancel_to_no_step() {
    let ws = held(|k| {
        k.forward = true;
        k.back = true;
    });
    assert_eq!(move_step(&ws, 10_000, 16), 0);
}

#[test]
fn step_scales_linearly_with_time_and_sprint() {
    let fw = held(|k| k.forward = true);
    let fws = held(|k| {
        k.forward = true;
        k.sprint = true;
    });
    assert_eq!(move_step(&fw, 10_000, 32), 2 * move_step(&fw, 10_000, 16));
    assert_eq!(move_step(&fws, 10_000, 16), 2 * move_step(&fw, 10_000, 16));
}

#[test]
fn vertical_move_is_exact() {
    let mut cam = spawn_camera();
    let up = held(|k| k.up = true);
    camera_translate(&mut cam, &up, 1_000);
    // 10 units per second for one second, straight up.
    assert_eq!(cam.pos.x, 0);
    assert_eq!(cam.pos.y, 5_000_000 + 10_000_000);
    assert_eq!(cam.pos.z, 15_000_000);
}

#[test]
fn forward_move_heads_toward_negative_z() {
    let mut cam = spawn_camera();
    let fw = held(|k| k.forward = true);
    camera_translate(&mut cam, &fw, 100);
    // at yaw -90 degrees and pitch 0 the camera faces negative z; the
    // fixed-point forward vector is (0, 0, -998) and normalizes exactly.
    assert_eq!(cam.pos.x, 0);
    assert_eq!(cam.pos.y, 5_000_000);
    assert_eq!(cam.pos.z, 15_000_000 - 1_000_000);
}

#[test]
fn idle_frame_changes_nothing() {
    let mut cam = spawn_camera();
    let before = cam;
    let mut q = InputQueue::new();
    let none = Keys::none();
    camera_movement(&mut cam, &mut q, &none, 16);
    assert_eq!(cam, before);
}

#[test]
fn end_to_end_look_frame() {
    let mut cam = spawn_camera();
    let mut q = InputQueue::new();
    let none = Keys::none();
    // one frame with a summed mouse delta of (10, 0) at 0.1 degrees per
    // count turns yaw from -90 to -89 degrees and touches nothing else.
    q.push_motion(10, 0);
    camera_movement(&mut cam, &mut q, &none, 16);
    assert_eq!(cam.player.yaw, -89_000);
    assert_eq!(cam.player.pitch, 0);
    assert_eq!(cam.fov, 60_000);
    assert_eq!(cam.pos.x, 0);
    assert_eq!(cam.pos.y, 5_000_000);
    assert_eq!(cam.pos.z, 15_000_000);
}

#[test]
fn movement_frame_uses_post_look_orientation() {
    let mut cam = spawn_camera();
    let mut q = InputQueue::new();
    let up = held(|k| k.up = true);
    q.push_motion(10, 0);
    camera_movement(&mut cam, &mut q, &up, 1_000);
    assert_eq!(cam.player.yaw, -89_000);
    assert_eq!(cam.pos.y, 5_000_000 + 10_000_000);
}
