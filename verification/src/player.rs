//! The free-flying player camera: state, spawning, and the per-frame
//! controller that turns mouse motion, held keys and scroll input into a new
//! orientation, position and field of view.
//!
//! Angles are stored in millidegrees, positions in microunits, speeds in
//! milliunits per second, and frame times in milliseconds, so every update
//! rule is exact integer arithmetic.

use vstd::prelude::*;
use vstd::arithmetic::div_mod::{lemma_div_is_ordered, lemma_div_multiples_vanish};

use crate::input::{motion_sum_dx, motion_sum_dy, scroll_sum, InputQueue};
use crate::trig::{cos_milli, cos_milli_spec, isqrt_spec, isqrt_u64, sin_milli, sin_milli_spec};

verus! {

/// Lower clamp bound for the camera pitch, in millidegrees.
pub const PITCH_MIN_MDEG: i64 = -89_000;
/// Upper clamp bound for the camera pitch, in millidegrees.
pub const PITCH_MAX_MDEG: i64 = 89_000;
/// Lower clamp bound for the field of view, in millidegrees.
pub const FOV_MIN_MDEG: i64 = 20_000;
/// Upper clamp bound for the field of view, in millidegrees.
pub const FOV_MAX_MDEG: i64 = 90_000;

/// Largest admitted movement speed, in milliunits per second.
pub const SPEED_MAX: i64 = 1_000_000;
/// Largest admitted mouse sensitivity, in millidegrees per count.
pub const SENS_MAX: i64 = 1_000_000;
/// Largest admitted zoom speed, in millidegrees per scroll line.
pub const ZOOM_MAX: i64 = 1_000_000;
/// Largest admitted summed per-frame mouse delta component, in counts.
pub const DELTA_MAX: i64 = 1_000_000_000;
/// Largest admitted summed per-frame scroll, in milli-lines.
pub const SCROLL_MAX: i64 = 1_000_000_000;
/// Largest admitted frame time, in milliseconds.
pub const DT_MAX: i64 = 1_000_000;
/// Largest movement step of one frame, in microunits.
pub const STEP_ABS_MAX: i64 = 2 * SPEED_MAX * DT_MAX;
/// Largest yaw magnitude, in millidegrees, at which another look step is
/// admitted without risking machine overflow.
pub const YAW_ABS_MAX: i64 = 0x2000_0000_0000_0000;
/// Largest position component magnitude, in microunits, at which another
/// movement step is admitted without risking machine overflow.
pub const POS_ABS_MAX: i64 = 0x2000_0000_0000_0000;
/// Position bound, in microunits, that leaves room for one more full
/// movement step.
pub const POS_SAFE_MAX: i64 = 0x2000_0000_0000_0000 - 2 * SPEED_MAX * DT_MAX;
/// Yaw bound, in millidegrees, that leaves room for one more full look
/// step.
pub const YAW_SAFE_MAX: i64 = 0x2000_0000_0000_0000 - DELTA_MAX * SENS_MAX;

/// Camera tuning parameters and look angles, one instance per camera.
#[derive(Clone, Copy, Debug, PartialEq, Eq, Structural)]
pub struct PlayerCamera {
    /// Movement speed in milliunits per second.
    pub speed: i64,
    /// Mouse sensitivity in millidegrees per count of raw motion.
    pub sensitivity: i64,
    /// Pitch in millidegrees; kept within [-89°, 89°].
    pub pitch: i64,
    /// Yaw in millidegrees; unbounded, never clamped.
    pub yaw: i64,
    /// Zoom speed in millidegrees of field of view per scroll line.
    pub zoom_speed: i64,
}

/// A 3D position in microunits.
#[derive(Clone, Copy, Debug, PartialEq, Eq, Structural)]
pub struct Pos3 {
    pub x: i64,
    pub y: i64,
    pub z: i64,
}

/// Full per-camera state the controller mutates each frame: tuning and
/// angles, world position, and the perspective field of view.
#[derive(Clone, Copy, Debug, PartialEq, Eq, Structural)]
pub struct CameraState {
    pub player: PlayerCamera,
    /// World position in microunits.
    pub pos: Pos3,
    /// Field of view in millidegrees; kept within [20°, 90°].
    pub fov: i64,
}

impl PlayerCamera {
    /// Tuning parameters are in range and the pitch invariant holds.
    pub open spec fn wf(self) -> bool {
        &&& 0 <= self.speed <= SPEED_MAX
        &&& 0 <= self.sensitivity <= SENS_MAX
        &&& 0 <= self.zoom_speed <= ZOOM_MAX
        &&& PITCH_MIN_MDEG <= self.pitch <= PITCH_MAX_MDEG
    }
}

impl CameraState {
    /// The camera invariant: tuning in range, pitch and field of view
    /// clamped, and position within machine bounds.
    pub open spec fn wf(self) -> bool {
        &&& self.player.wf()
        &&& FOV_MIN_MDEG <= self.fov <= FOV_MAX_MDEG
        &&& -POS_ABS_MAX <= self.pos.x <= POS_ABS_MAX
        &&& -POS_ABS_MAX <= self.pos.y <= POS_ABS_MAX
        &&& -POS_ABS_MAX <= self.pos.z <= POS_ABS_MAX
    }
}

/// A product of bounded factors is bounded: with `|a| <= am` and
/// `0 <= b <= bm`, the product `a * b` lies within `[-(am*bm), am*bm]`.
pub proof fn lemma_mul_bound(a: int, am: int, b: int, bm: int)
    requires
        -am <= a <= am,
        0 <= b <= bm,
    ensures
        -(am * bm) <= a * b <= am * bm,
{
    assert(-(am * bm) <= a * b <= am * bm) by (nonlinear_arith)
        requires
            -am <= a <= am,
            0 <= b <= bm,
    ;
}

/// Clamping of a value to a closed interval.
pub open spec fn clamp_spec(v: int, lo: int, hi: int) -> int {
    if v < lo {
        lo
    } else if v > hi {
        hi
    } else {
        v
    }
}

/// Clamps `v` to `[lo, hi]`.
pub fn clamp_i64(v: i64, lo: i64, hi: i64) -> (r: i64)
    requires
        lo <= hi,
    ensures
        r == clamp_spec(v as int, lo as int, hi as int),
{
    if v < lo {
        lo
    } else if v > hi {
        hi
    } else {
        v
    }
}

/// The fixed state every run starts from: at (0, 5, 15) units, looking
/// toward negative z (yaw -90°, pitch 0°), with a 60° field of view,
/// speed 10 units per second, sensitivity 0.1° per count and zoom speed
/// 2° per scroll line.
pub fn spawn_camera() -> (cam: CameraState)
    ensures
        cam.player.speed == 10_000,
        cam.player.sensitivity == 100,
        cam.player.pitch == 0,
        cam.player.yaw == -90_000,
        cam.player.zoom_speed == 2_000,
        cam.pos == (Pos3 { x: 0, y: 5_000_000, z: 15_000_000 }),
        cam.fov == 60_000,
        cam.wf(),
{
    CameraState {
        player: PlayerCamera {
            speed: 10_000,
            sensitivity: 100,
            pitch: 0,
            yaw: -90_000,
            zoom_speed: 2_000,
        },
        pos: Pos3 { x: 0, y: 5_000_000, z: 15_000_000 },
        fov: 60_000,
    }
}

/// The set of controller-relevant keys held during one frame.
#[derive(Clone, Copy, Debug, PartialEq, Eq, Structural)]
pub struct Keys {
    pub forward: bool,
    pub back: bool,
    pub left: bool,
    pub right: bool,
    pub up: bool,
    pub down: bool,
    pub sprint: bool,
    pub rotate_left: bool,
    pub rotate_right: bool,
}

impl Keys {
    /// The frame with no key held.
    pub fn none() -> (k: Keys)
        ensures
            k == (Keys {
                forward: false,
                back: false,
                left: false,
                right: false,
                up: false,
                down: false,
                sprint: false,
                rotate_left: false,
                rotate_right: false,
            }),
    {
        Keys {
            forward: false,
            back: false,
            left: false,
            right: false,
            up: false,
            down: false,
            sprint: false,
            rotate_left: false,
            rotate_right: false,
        }
    }
}

/// 1 when the key is held, else 0.
pub open spec fn key_val(held: bool) -> int {
    if held {
        1
    } else {
        0
    }
}

/// Net intent along the camera-forward axis: forward minus back.
pub open spec fn intent_forward(keys: Keys) -> int {
    key_val(keys.forward) - key_val(keys.back)
}

/// Net intent along the camera-right axis: right minus left.
pub open spec fn intent_right(keys: Keys) -> int {
    key_val(keys.right) - key_val(keys.left)
}

/// Net intent along world-up: up minus down.
pub open spec fn intent_up(keys: Keys) -> int {
    key_val(keys.up) - key_val(keys.down)
}

/// Whether the held keys ask for any movement at all.
pub open spec fn has_intent(keys: Keys) -> bool {
    intent_forward(keys) != 0 || intent_right(keys) != 0 || intent_up(keys) != 0
}

/// The sprint multiplier: 2 while the sprint modifier is held, else 1.
pub open spec fn sprint_mult(keys: Keys) -> int {
    if keys.sprint {
        2
    } else {
        1
    }
}

/// The distance the camera covers this frame, in microunits: zero when no
/// movement is asked for, else speed times the sprint multiplier times the
/// elapsed time. Direction is intent, not magnitude: the step does not grow
/// with the number of keys held.
pub open spec fn move_step_spec(keys: Keys, speed: int, dt_ms: int) -> int {
    if has_intent(keys) {
        speed * sprint_mult(keys) * dt_ms
    } else {
        0
    }
}

/// Computes the per-frame movement distance in microunits.
pub fn move_step(keys: &Keys, speed: i64, dt_ms: i64) -> (step: i64)
    requires
        0 <= speed <= SPEED_MAX,
        0 <= dt_ms <= DT_MAX,
    ensures
        step == move_step_spec(*keys, speed as int, dt_ms as int),
        0 <= step <= 2 * SPEED_MAX * DT_MAX,
{
    let f: i64 = if keys.forward { 1 } else { 0 } - if keys.back { 1 } else { 0 };
    let r: i64 = if keys.right { 1 } else { 0 } - if keys.left { 1 } else { 0 };
    let u: i64 = if keys.up { 1 } else { 0 } - if keys.down { 1 } else { 0 };
    if f == 0 && r == 0 && u == 0 {
        0
    } else {
        let sm: i64 = if keys.sprint {
            2 * speed
        } else {
            speed
        };
        proof {
            lemma_mul_bound(sm as int, 2 * SPEED_MAX, dt_ms as int, DT_MAX as int);
        }
        sm * dt_ms
    }
}

/// One mouse-look step on the angles: yaw accumulates unclamped, pitch is
/// clamped to [-89°, 89°]. A frame whose summed delta is zero leaves the
/// camera untouched.
pub fn camera_look(cam: &mut CameraState, dx: i64, dy: i64)
    requires
        old(cam).wf(),
        -DELTA_MAX <= dx <= DELTA_MAX,
        -DELTA_MAX <= dy <= DELTA_MAX,
        -YAW_ABS_MAX <= old(cam).player.yaw <= YAW_ABS_MAX,
    ensures
        final(cam).wf(),
        dx == 0 && dy == 0 ==> *final(cam) == *old(cam),
        dx != 0 || dy != 0 ==> {
            &&& final(cam).player.yaw == old(cam).player.yaw + dx * old(cam).player.sensitivity
            &&& final(cam).player.pitch == clamp_spec(
                old(cam).player.pitch - dy * old(cam).player.sensitivity,
                PITCH_MIN_MDEG as int,
                PITCH_MAX_MDEG as int,
            )
        },
        final(cam).player.speed == old(cam).player.speed,
        final(cam).player.sensitivity == old(cam).player.sensitivity,
        final(cam).player.zoom_speed == old(cam).player.zoom_speed,
        final(cam).pos == old(cam).pos,
        final(cam).fov == old(cam).fov,
{
    if dx != 0 || dy != 0 {
        proof {
            lemma_mul_bound(dx as int, DELTA_MAX as int, cam.player.sensitivity as int, SENS_MAX as int);
            lemma_mul_bound(dy as int, DELTA_MAX as int, cam.player.sensitivity as int, SENS_MAX as int);
        }
        cam.player.yaw = cam.player.yaw + dx * cam.player.sensitivity;
        let raw_pitch: i64 = cam.player.pitch - dy * cam.player.sensitivity;
        cam.player.pitch = clamp_i64(raw_pitch, PITCH_MIN_MDEG, PITCH_MAX_MDEG);
    }
}

/// One zoom step on the field of view: the accumulated scroll, in
/// milli-lines, narrows the field of view when positive (zooming in) and
/// widens it when negative, clamped to [20°, 90°]. A frame with no scroll
/// leaves the camera untouched.
pub fn camera_zoom(cam: &mut CameraState, scroll_milli: i64)
    requires
        old(cam).wf(),
        -SCROLL_MAX <= scroll_milli <= SCROLL_MAX,
    ensures
        final(cam).wf(),
        scroll_milli == 0 ==> *final(cam) == *old(cam),
        scroll_milli != 0 ==> final(cam).fov == clamp_spec(
            old(cam).fov - scroll_zoom_delta(scroll_milli as int, old(cam).player.zoom_speed as int),
            FOV_MIN_MDEG as int,
            FOV_MAX_MDEG as int,
        ),
        final(cam).player == old(cam).player,
        final(cam).pos == old(cam).pos,
{
    if scroll_milli != 0 {
        proof {
            lemma_mul_bound(
                scroll_milli as int,
                SCROLL_MAX as int,
                cam.player.zoom_speed as int,
                ZOOM_MAX as int,
            );
        }
        let t: i64 = scroll_milli * cam.player.zoom_speed;
        let delta: i64 = if t >= 0 {
            t / 1000
        } else {
            -((-t) / 1000)
        };
        assert(delta == scroll_zoom_delta(scroll_milli as int, cam.player.zoom_speed as int));
        cam.fov = clamp_i64(cam.fov - delta, FOV_MIN_MDEG, FOV_MAX_MDEG);
    }
}

/// The field-of-view change, in millidegrees, asked for by an accumulated
/// scroll of `scroll_milli` milli-lines at `zoom_speed` millidegrees per
/// line, rounded toward zero.
pub open spec fn scroll_zoom_delta(scroll_milli: int, zoom_speed: int) -> int {
    let t = scroll_milli * zoom_speed;
    if t >= 0 {
        t / 1000
    } else {
        -((-t) / 1000)
    }
}

/// The absolute product bound: with `|a| <= am` and `|b| <= bm` the
/// product stays within `[-(am*bm), am*bm]`.
pub proof fn lemma_mul_abs_bound(a: int, am: int, b: int, bm: int)
    requires
        -am <= a <= am,
        -bm <= b <= bm,
    ensures
        -(am * bm) <= a * b <= am * bm,
{
    assert(-(am * bm) <= a * b <= am * bm) by (nonlinear_arith)
        requires
            -am <= a <= am,
            -bm <= b <= bm,
    ;
}

/// Division rounded toward zero, for a positive divisor.
pub open spec fn div_trunc_spec(a: int, b: int) -> int {
    if a >= 0 {
        a / b
    } else {
        -((-a) / b)
    }
}

/// Computes division rounded toward zero for a positive divisor.
pub fn div_trunc(a: i64, b: i64) -> (r: i64)
    requires
        b > 0,
        i64::MIN < a,
    ensures
        r == div_trunc_spec(a as int, b as int),
{
    if a >= 0 {
        a / b
    } else {
        -((-a) / b)
    }
}

/// Truncating division keeps a multiple bound: when `|a| <= m * b` the
/// quotient rounded toward zero stays within `[-m, m]`.
pub proof fn lemma_div_trunc_bound(a: int, b: int, m: int)
    requires
        b > 0,
        0 <= m,
        -(m * b) <= a <= m * b,
    ensures
        -m <= div_trunc_spec(a, b) <= m,
{
    lemma_div_multiples_vanish(m, b);
    assert(b * m == m * b) by (nonlinear_arith);
    assert((m * b) / b == m);
    if a >= 0 {
        lemma_div_is_ordered(a, m * b, b);
        assert(a / b >= 0) by (nonlinear_arith)
            requires
                a >= 0,
                b > 0,
        ;
    } else {
        lemma_div_is_ordered(-a, m * b, b);
        assert((-a) / b >= 0) by (nonlinear_arith)
            requires
                -a >= 0,
                b > 0,
        ;
    }
}

/// The yaw folded into one turn, in millidegrees: the representative of
/// the same heading within [0°, 360°).
pub open spec fn norm_yaw_spec(yaw: int) -> int {
    if yaw >= 0 {
        yaw % 360_000
    } else {
        let k = (-yaw) % 360_000;
        if k == 0 {
            0
        } else {
            360_000 - k
        }
    }
}

/// Folds a yaw into [0°, 360°) millidegrees.
pub fn norm_yaw(yaw: i64) -> (r: i64)
    requires
        i64::MIN < yaw,
    ensures
        r == norm_yaw_spec(yaw as int),
        0 <= r < 360_000,
{
    if yaw >= 0 {
        yaw % 360_000
    } else {
        let k: i64 = (-yaw) % 360_000;
        if k == 0 {
            0
        } else {
            360_000 - k
        }
    }
}

/// Millidegrees converted to milliradians, rounded toward zero
/// (1° = 17.453 milliradians).
pub open spec fn mdeg_to_mrad_spec(mdeg: int) -> int {
    div_trunc_spec(mdeg * 17_453, 1_000_000)
}

/// Converts millidegrees to milliradians, rounded toward zero.
pub fn mdeg_to_mrad(mdeg: i64) -> (r: i64)
    requires
        -360_000 <= mdeg <= 360_000,
    ensures
        r == mdeg_to_mrad_spec(mdeg as int),
        -6_284 <= r <= 6_284,
    {
    proof {
        lemma_div_trunc_bound(mdeg * 17_453, 1_000_000, 6_284);
    }
    div_trunc(mdeg * 17_453, 1_000_000)
}

/// The camera-forward and camera-right frame, each component scaled by
/// 1000, derived from the yaw and pitch in millidegrees: forward points
/// where the camera looks (classic fly-camera convention, yaw -90° facing
/// negative z), right is horizontal and perpendicular to it.
pub open spec fn fwd_x_spec(yaw_mdeg: int, pitch_mdeg: int) -> int {
    div_trunc_spec(
        cos_milli_spec(mdeg_to_mrad_spec(norm_yaw_spec(yaw_mdeg))) * cos_milli_spec(
            mdeg_to_mrad_spec(pitch_mdeg),
        ),
        1000,
    )
}

pub open spec fn fwd_y_spec(pitch_mdeg: int) -> int {
    sin_milli_spec(mdeg_to_mrad_spec(pitch_mdeg))
}

pub open spec fn fwd_z_spec(yaw_mdeg: int, pitch_mdeg: int) -> int {
    div_trunc_spec(
        sin_milli_spec(mdeg_to_mrad_spec(norm_yaw_spec(yaw_mdeg))) * cos_milli_spec(
            mdeg_to_mrad_spec(pitch_mdeg),
        ),
        1000,
    )
}

pub open spec fn right_x_spec(yaw_mdeg: int) -> int {
    -sin_milli_spec(mdeg_to_mrad_spec(norm_yaw_spec(yaw_mdeg)))
}

pub open spec fn right_z_spec(yaw_mdeg: int) -> int {
    cos_milli_spec(mdeg_to_mrad_spec(norm_yaw_spec(yaw_mdeg)))
}

/// The unnormalized movement direction asked for by the keys, scaled by
/// 1000: intent times forward, plus intent times right, plus intent times
/// world-up.
pub open spec fn dir_x_spec(yaw_mdeg: int, pitch_mdeg: int, keys: Keys) -> int {
    intent_forward(keys) * fwd_x_spec(yaw_mdeg, pitch_mdeg) + intent_right(keys) * right_x_spec(
        yaw_mdeg,
    )
}

pub open spec fn dir_y_spec(pitch_mdeg: int, keys: Keys) -> int {
    intent_forward(keys) * fwd_y_spec(pitch_mdeg) + intent_up(keys) * 1000
}

pub open spec fn dir_z_spec(yaw_mdeg: int, pitch_mdeg: int, keys: Keys) -> int {
    intent_forward(keys) * fwd_z_spec(yaw_mdeg, pitch_mdeg) + intent_right(keys) * right_z_spec(
        yaw_mdeg,
    )
}

/// One component of the normalized, scaled displacement: the direction
/// component times the step, divided by the direction length, rounded
/// toward zero; zero when the direction vanishes.
pub open spec fn disp_part_spec(d: int, step: int, len: int) -> int {
    if len == 0 {
        0
    } else {
        div_trunc_spec(d * step, len)
    }
}

/// The position change of one frame, in microunits: the direction built
/// from the keys and the current orientation, normalized to length one and
/// scaled by the frame's movement step. No intent, or a direction that
/// rounds to nothing, moves nothing.
pub open spec fn displacement_spec(yaw_mdeg: int, pitch_mdeg: int, keys: Keys, step: int) -> (
    int,
    int,
    int,
) {
    if !has_intent(keys) {
        (0, 0, 0)
    } else {
        let dx = dir_x_spec(yaw_mdeg, pitch_mdeg, keys);
        let dy = dir_y_spec(pitch_mdeg, keys);
        let dz = dir_z_spec(yaw_mdeg, pitch_mdeg, keys);
        let len = isqrt_spec(dx * dx + dy * dy + dz * dz);
        (disp_part_spec(dx, step, len), disp_part_spec(dy, step, len), disp_part_spec(
            dz,
            step,
            len,
        ))
    }
}

/// One movement step on the position: the held keys pick a direction from
/// the current orientation — forward and right follow the post-look frame,
/// up is world-up — the direction is normalized so that holding several
/// keys is no faster than one, and the position advances by exactly the
/// frame's movement step along it. No intent moves nothing.
#[verifier::rlimit(100)]
pub fn camera_translate(cam: &mut CameraState, keys: &Keys, dt_ms: i64)
    requires
        old(cam).wf(),
        0 <= dt_ms <= DT_MAX,
        i64::MIN < old(cam).player.yaw,
        -POS_SAFE_MAX <= old(cam).pos.x <= POS_SAFE_MAX,
        -POS_SAFE_MAX <= old(cam).pos.y <= POS_SAFE_MAX,
        -POS_SAFE_MAX <= old(cam).pos.z <= POS_SAFE_MAX,
    ensures
        final(cam).wf(),
        final(cam).player == old(cam).player,
        final(cam).fov == old(cam).fov,
        ({
            let (ax, ay, az) = displacement_spec(
                old(cam).player.yaw as int,
                old(cam).player.pitch as int,
                *keys,
                move_step_spec(*keys, old(cam).player.speed as int, dt_ms as int),
            );
            &&& final(cam).pos.x == old(cam).pos.x + ax
            &&& final(cam).pos.y == old(cam).pos.y + ay
            &&& final(cam).pos.z == old(cam).pos.z + az
        }),
{
    let f: i64 = if keys.forward { 1 } else { 0 } - if keys.back { 1 } else { 0 };
    let r: i64 = if keys.right { 1 } else { 0 } - if keys.left { 1 } else { 0 };
    let u: i64 = if keys.up { 1 } else { 0 } - if keys.down { 1 } else { 0 };
    if f == 0 && r == 0 && u == 0 {
        assert(!has_intent(*keys));
        return ;
    }
    assert(has_intent(*keys));
    let step: i64 = move_step(keys, cam.player.speed, dt_ms);
    let ny: i64 = norm_yaw(cam.player.yaw);
    let ym: i64 = mdeg_to_mrad(ny);
    let pm: i64 = mdeg_to_mrad(cam.player.pitch);
    let sy: i64 = sin_milli(ym);
    let cy: i64 = cos_milli(ym);
    let sp: i64 = sin_milli(pm);
    let cp: i64 = cos_milli(pm);
    proof {
        lemma_mul_abs_bound(cy as int, 1000, cp as int, 1000);
        lemma_mul_abs_bound(sy as int, 1000, cp as int, 1000);
        lemma_div_trunc_bound(cy as int * cp as int, 1000, 1000);
        lemma_div_trunc_bound(sy as int * cp as int, 1000, 1000);
    }
    let fx: i64 = div_trunc(cy * cp, 1000);
    let fy: i64 = sp;
    let fz: i64 = div_trunc(sy * cp, 1000);
    let rx: i64 = -sy;
    let rz: i64 = cy;
    proof {
        lemma_mul_abs_bound(f as int, 1, fx as int, 1000);
        lemma_mul_abs_bound(f as int, 1, fy as int, 1000);
        lemma_mul_abs_bound(f as int, 1, fz as int, 1000);
        lemma_mul_abs_bound(r as int, 1, rx as int, 1000);
        lemma_mul_abs_bound(r as int, 1, rz as int, 1000);
        lemma_mul_abs_bound(u as int, 1, 1000, 1000);
    }
    let dx: i64 = f * fx + r * rx;
    let dy: i64 = f * fy + u * 1000;
    let dz: i64 = f * fz + r * rz;
    proof {
        assert(dx as int == dir_x_spec(cam.player.yaw as int, cam.player.pitch as int, *keys));
        assert(dy as int == dir_y_spec(cam.player.pitch as int, *keys));
        assert(dz as int == dir_z_spec(cam.player.yaw as int, cam.player.pitch as int, *keys));
        lemma_mul_abs_bound(dx as int, 2000, dx as int, 2000);
        lemma_mul_abs_bound(dy as int, 2000, dy as int, 2000);
        lemma_mul_abs_bound(dz as int, 2000, dz as int, 2000);
        assert(dx as int * dx as int >= 0 && dy as int * dy as int >= 0 && dz as int * dz as int
            >= 0) by (nonlinear_arith);
    }
    let sq: i64 = dx * dx + dy * dy + dz * dz;
    let len: u64 = isqrt_u64(sq as u64);
    if len == 0 {
        return ;
    }
    proof {
        assert(len <= 0x1_0000) by (nonlinear_arith)
            requires
                len as int * len as int <= sq as int,
                0 <= sq <= 0x1_0000_0000,
                len >= 0,
        ;
    }
    let leni: i64 = len as i64;
    proof {
        lemma_component_le_len(dx as int, dy as int, dz as int, leni as int);
    }
    let ddx: i64 = disp_component(dx, step, leni);
    let ddy: i64 = disp_component(dy, step, leni);
    let ddz: i64 = disp_component(dz, step, leni);
    cam.pos.x = cam.pos.x + ddx;
    cam.pos.y = cam.pos.y + ddy;
    cam.pos.z = cam.pos.z + ddz;
}

/// One whole controller frame, in the fixed order look, move, zoom: drains
/// the input queues, turns the summed mouse motion into new angles, moves
/// the position along the post-look orientation, and applies the summed
/// scroll to the field of view. A frame with no input of one kind skips
/// that sub-step, and a frame with no input at all leaves the camera
/// untouched.
pub fn camera_movement(cam: &mut CameraState, input: &mut InputQueue, keys: &Keys, dt_ms: i64)
    requires
        old(cam).wf(),
        old(input).wf(),
        0 <= dt_ms <= DT_MAX,
        -YAW_SAFE_MAX <= old(cam).player.yaw <= YAW_SAFE_MAX,
        -POS_SAFE_MAX <= old(cam).pos.x <= POS_SAFE_MAX,
        -POS_SAFE_MAX <= old(cam).pos.y <= POS_SAFE_MAX,
        -POS_SAFE_MAX <= old(cam).pos.z <= POS_SAFE_MAX,
    ensures
        final(cam).wf(),
        final(input).wf(),
        final(input).motions@.len() == 0,
        final(input).scrolls@.len() == 0,
        final(cam).player.speed == old(cam).player.speed,
        final(cam).player.sensitivity == old(cam).player.sensitivity,
        final(cam).player.zoom_speed == old(cam).player.zoom_speed,
        ({
            let dx = motion_sum_dx(old(input).motions@);
            let dy = motion_sum_dy(old(input).motions@);
            &&& (dx == 0 && dy == 0) ==> final(cam).player.yaw == old(cam).player.yaw
                && final(cam).player.pitch == old(cam).player.pitch
            &&& (dx != 0 || dy != 0) ==> final(cam).player.yaw
                == old(cam).player.yaw + dx * old(cam).player.sensitivity
                && final(cam).player.pitch == clamp_spec(
                old(cam).player.pitch - dy * old(cam).player.sensitivity,
                PITCH_MIN_MDEG as int,
                PITCH_MAX_MDEG as int,
            )
        }),
        ({
            let (ax, ay, az) = displacement_spec(
                final(cam).player.yaw as int,
                final(cam).player.pitch as int,
                *keys,
                move_step_spec(*keys, old(cam).player.speed as int, dt_ms as int),
            );
            &&& final(cam).pos.x == old(cam).pos.x + ax
            &&& final(cam).pos.y == old(cam).pos.y + ay
            &&& final(cam).pos.z == old(cam).pos.z + az
        }),
        ({
            let s = scroll_sum(old(input).scrolls@);
            &&& s == 0 ==> final(cam).fov == old(cam).fov
            &&& s != 0 ==> final(cam).fov == clamp_spec(
                old(cam).fov - scroll_zoom_delta(s, old(cam).player.zoom_speed as int),
                FOV_MIN_MDEG as int,
                FOV_MAX_MDEG as int,
            )
        }),
{
    let (mdx, mdy) = input.drain_motion();
    proof {
        lemma_mul_bound(
            mdx as int,
            DELTA_MAX as int,
            old(cam).player.sensitivity as int,
            SENS_MAX as int,
        );
    }
    camera_look(cam, mdx, mdy);
    camera_translate(cam, keys, dt_ms);
    let sc = input.drain_scroll();
    camera_zoom(cam, sc);
}

/// Each component of a vector is bounded by any `l` whose next square
/// exceeds the vector's squared length.
proof fn lemma_component_le_len(dx: int, dy: int, dz: int, l: int)
    requires
        l >= 0,
        dx * dx + dy * dy + dz * dz < (l + 1) * (l + 1),
    ensures
        -l <= dx <= l,
        -l <= dy <= l,
        -l <= dz <= l,
{
    assert(-l <= dx <= l && -l <= dy <= l && -l <= dz <= l) by (nonlinear_arith)
        requires
            l >= 0,
            dx * dx + dy * dy + dz * dz < (l + 1) * (l + 1),
    ;
}

/// Computes one component of the normalized, scaled displacement: the
/// direction component times the step, divided by the direction length.
/// The result never exceeds the step itself.
fn disp_component(d: i64, step: i64, leni: i64) -> (r: i64)
    requires
        0 < leni <= 0x1_0000,
        -leni <= d <= leni,
        0 <= step <= STEP_ABS_MAX,
    ensures
        r == disp_part_spec(d as int, step as int, leni as int),
        -step <= r <= step,
{
    proof {
        lemma_mul_bound(leni as int, 0x1_0000, step as int, STEP_ABS_MAX as int);
        assert(-(leni as int * step as int) <= d as int * step as int <= leni as int
            * step as int) by (nonlinear_arith)
            requires
                -leni <= d <= leni,
                step >= 0,
        ;
        assert(step as int * leni as int == leni as int * step as int) by (nonlinear_arith);
        lemma_div_trunc_bound(d as int * step as int, leni as int, step as int);
    }
    div_trunc(d * step, leni)
}

/// The pitch after folding the look step over a whole run of summed
/// per-frame mouse deltas: each non-zero delta clamps the new pitch into
/// [-89°, 89°], a zero delta skips the step.
pub open spec fn pitch_after(p0: int, sens: int, deltas: Seq<(int, int)>) -> int
    decreases deltas.len(),
{
    if deltas.len() == 0 {
        p0
    } else {
        let prev = pitch_after(p0, sens, deltas.drop_last());
        let d = deltas.last();
        if d.0 != 0 || d.1 != 0 {
            clamp_spec(prev - d.1 * sens, PITCH_MIN_MDEG as int, PITCH_MAX_MDEG as int)
        } else {
            prev
        }
    }
}

/// The yaw after folding the look step over the same run: each non-zero
/// delta adds its horizontal part times the sensitivity, with no clamp.
pub open spec fn yaw_after(y0: int, sens: int, deltas: Seq<(int, int)>) -> int
    decreases deltas.len(),
{
    if deltas.len() == 0 {
        y0
    } else {
        let prev = yaw_after(y0, sens, deltas.drop_last());
        let d = deltas.last();
        if d.0 != 0 || d.1 != 0 {
            prev + d.0 * sens
        } else {
            prev
        }
    }
}

/// The sum of the horizontal mouse deltas of a run.
pub open spec fn sum_dx(deltas: Seq<(int, int)>) -> int
    decreases deltas.len(),
{
    if deltas.len() == 0 {
        0
    } else {
        sum_dx(deltas.drop_last()) + deltas.last().0
    }
}

/// Over every sequence of mouse deltas, the pitch stays within
/// [-89°, 89°] once it starts there.
pub proof fn lemma_pitch_always_clamped(p0: int, sens: int, deltas: Seq<(int, int)>)
    requires
        PITCH_MIN_MDEG <= p0 <= PITCH_MAX_MDEG,
    ensures
        PITCH_MIN_MDEG <= pitch_after(p0, sens, deltas) <= PITCH_MAX_MDEG,
    decreases deltas.len(),
{
    if deltas.len() > 0 {
        lemma_pitch_always_clamped(p0, sens, deltas.drop_last());
    }
}

/// The yaw is never clamped: over every sequence of mouse deltas it ends
/// at exactly the start plus the sensitivity times the summed horizontal
/// motion. A skipped frame (both deltas zero) leaves the yaw alone and
/// adds nothing to the sum, so the equality holds with it included.
pub proof fn lemma_yaw_unbounded(y0: int, sens: int, deltas: Seq<(int, int)>)
    ensures
        yaw_after(y0, sens, deltas) == y0 + sens * sum_dx(deltas),
    decreases deltas.len(),
{
    if deltas.len() == 0 {
        assert(sens * 0 == 0) by (nonlinear_arith);
    } else {
        lemma_yaw_unbounded(y0, sens, deltas.drop_last());
        assert(deltas.last() == deltas[deltas.len() - 1]);
        let s = sum_dx(deltas.drop_last());
        let d = deltas.last().0;
        assert(sens * (s + d) == sens * s + d * sens) by (nonlinear_arith);
    }
}

/// The field of view after folding the zoom step over a whole run of
/// accumulated per-frame scrolls, in milli-lines: each non-zero scroll
/// clamps the new value into [20°, 90°], a zero scroll skips the step.
pub open spec fn fov_after(f0: int, zoom_speed: int, scrolls: Seq<int>) -> int
    decreases scrolls.len(),
{
    if scrolls.len() == 0 {
        f0
    } else {
        let prev = fov_after(f0, zoom_speed, scrolls.drop_last());
        let s = scrolls.last();
        if s != 0 {
            clamp_spec(
                prev - scroll_zoom_delta(s, zoom_speed),
                FOV_MIN_MDEG as int,
                FOV_MAX_MDEG as int,
            )
        } else {
            prev
        }
    }
}

/// Over every sequence of accumulated scrolls — whatever their sign, and
/// whatever unit they were reported in before accumulation — the field of
/// view stays within [20°, 90°] once it starts there.
pub proof fn lemma_fov_always_clamped(f0: int, zoom_speed: int, scrolls: Seq<int>)
    requires
        FOV_MIN_MDEG <= f0 <= FOV_MAX_MDEG,
    ensures
        FOV_MIN_MDEG <= fov_after(f0, zoom_speed, scrolls) <= FOV_MAX_MDEG,
    decreases scrolls.len(),
{
    if scrolls.len() > 0 {
        lemma_fov_always_clamped(f0, zoom_speed, scrolls.drop_last());
    }
}

/// Diagonal movement is not faster: any two key sets that both ask for
/// some movement and agree on the sprint modifier cover the same distance
/// in the same time, however many directional keys each holds.
pub proof fn lemma_diagonal_no_faster(k1: Keys, k2: Keys, speed: int, dt_ms: int)
    requires
        has_intent(k1),
        has_intent(k2),
        k1.sprint == k2.sprint,
    ensures
        move_step_spec(k1, speed, dt_ms) == move_step_spec(k2, speed, dt_ms),
{
}

/// Movement distance is linear in the elapsed frame time: a frame `k`
/// times as long covers `k` times the distance.
pub proof fn lemma_step_linear_in_time(keys: Keys, speed: int, dt_ms: int, k: int)
    ensures
        move_step_spec(keys, speed, k * dt_ms) == k * move_step_spec(keys, speed, dt_ms),
{
    if has_intent(keys) {
        assert(speed * sprint_mult(keys) * (k * dt_ms) == k * (speed * sprint_mult(keys)
            * dt_ms)) by (nonlinear_arith);
    } else {
        assert(k * 0 == 0) by (nonlinear_arith);
    }
}

/// Holding the sprint modifier doubles the distance covered, exactly.
pub proof fn lemma_sprint_doubles(keys: Keys, speed: int, dt_ms: int)
    requires
        !keys.sprint,
    ensures
        move_step_spec(Keys { sprint: true, ..keys }, speed, dt_ms) == 2 * move_step_spec(
            keys,
            speed,
            dt_ms,
        ),
{
    let sk = Keys { sprint: true, ..keys };
    assert(intent_forward(sk) == intent_forward(keys));
    assert(intent_right(sk) == intent_right(keys));
    assert(intent_up(sk) == intent_up(keys));
    if has_intent(keys) {
        assert(speed * 2 * dt_ms == 2 * (speed * 1 * dt_ms)) by (nonlinear_arith);
    }
}

} // verus!
