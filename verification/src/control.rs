//! The per-frame steering and jump rules.

use vstd::prelude::*;
use crate::keyboard::{binding, Action, Controls, Key, Keyboard};
use crate::units::{
    clamp_spin, four_fifths, magnitude, EASE_DEN, EASE_NUM, JUMP_SPEED, MAX_SPIN, STEER_RATE,
};

verus! {

/// The spin that the player last commanded, or `None` while no steering key
/// is held and the ball spins as the physics leaves it.
#[derive(Clone, Copy, Debug, PartialEq, Eq, Structural)]
pub struct TargetAngVel(pub Option<i64>);

/// A linear velocity in the plane.
#[derive(Clone, Copy, Debug, PartialEq, Eq, Structural)]
pub struct Vect {
    pub x: i64,
    pub y: i64,
}

/// A body's linear velocity and its spin.
#[derive(Clone, Copy, Debug, PartialEq, Eq, Structural)]
pub struct Velocity {
    pub linvel: Vect,
    pub angvel: i64,
}

/// What one frame of control wrote to the body's velocity.
#[derive(Clone, Copy, Debug, PartialEq, Eq, Structural)]
pub struct Applied {
    /// The spin was set to the new target.
    pub angvel: bool,
    /// The vertical speed was set to the jump speed.
    pub linvel: bool,
}

/// The player as the rules see it: the stored target and the body's motion,
/// as unbounded integers.
pub struct Player {
    pub target: Option<int>,
    pub linvel_x: int,
    pub linvel_y: int,
    pub angvel: int,
}

impl TargetAngVel {
    /// The spin that steering starts from: the stored target where one is
    /// set, else the body's own spin.
    pub open spec fn baseline(self, angvel: i64) -> int {
        match self.0 {
            Some(t) => t as int,
            None => angvel as int,
        }
    }

    /// The spin that steering starts from.
    pub fn current(&self, angvel: i64) -> (c: i64)
        ensures
            c == self.baseline(angvel),
    {
        match self.0 {
            Some(t) => t,
            None => angvel,
        }
    }
}

impl Velocity {
    /// A body at rest.
    pub fn zero() -> (v: Velocity)
        ensures
            v.linvel.x == 0,
            v.linvel.y == 0,
            v.angvel == 0,
    {
        Velocity { linvel: Vect { x: 0, y: 0 }, angvel: 0 }
    }
}

/// The model of a stored target and a velocity.
pub open spec fn player(target: TargetAngVel, vel: Velocity) -> Player {
    Player {
        target: match target.0 {
            Some(t) => Some(t as int),
            None => None,
        },
        linvel_x: vel.linvel.x as int,
        linvel_y: vel.linvel.y as int,
        angvel: vel.angvel as int,
    }
}

impl Player {
    /// The spin that steering starts from: the stored target where one is
    /// set, else the body's own spin.
    pub open spec fn baseline(self) -> int {
        match self.target {
            Some(t) => t,
            None => self.angvel,
        }
    }

    /// Whether the body's spin and the stored target lie within the
    /// greatest spin that steering commands.
    pub open spec fn spin_in_range(self) -> bool {
        &&& -MAX_SPIN <= self.angvel <= MAX_SPIN
        &&& self.target matches Some(t) ==> -MAX_SPIN <= t <= MAX_SPIN
    }

    /// The player after one frame of `dt` nanoseconds under `controls`.
    ///
    /// With no steering key held the target is cleared and the spin is left
    /// alone; else both become the commanded spin. A jump sets the vertical
    /// speed and leaves the horizontal one.
    pub open spec fn after_frame(self, controls: Controls, dt: int) -> Player {
        let spin = commanded_spin(self.baseline(), controls.steer_left, controls.steer_right, dt);
        Player {
            target: if controls.steering() { Some(spin) } else { None },
            linvel_x: self.linvel_x,
            linvel_y: if controls.jump { JUMP_SPEED as int } else { self.linvel_y },
            angvel: if controls.steering() { spin } else { self.angvel },
        }
    }
}

/// The spin that steering proposes before easing and clamping: `current`
/// plus `STEER_RATE * dt` for a held left key, minus the same for a held
/// right key. With both held the two cancel.
pub open spec fn proposed_spin(current: int, left: bool, right: bool, dt: int) -> int {
    current + (if left { STEER_RATE * dt } else { 0 }) - (if right { STEER_RATE * dt } else { 0 })
}

/// A proposal that would slow the ball is scaled to four fifths; any other
/// is kept.
pub open spec fn eased_spin(current: int, proposed: int) -> int {
    if magnitude(proposed) < magnitude(current) {
        four_fifths(proposed)
    } else {
        proposed
    }
}

/// The spin commanded for one frame of held steering.
pub open spec fn commanded_spin(current: int, left: bool, right: bool, dt: int) -> int {
    clamp_spin(eased_spin(current, proposed_spin(current, left, right, dt)))
}

/// Computes the spin to command from the baseline `current`, the held
/// steering keys and the frame length in nanoseconds.
pub fn steer(current: i64, left: bool, right: bool, dt_nanos: u64) -> (out: i64)
    ensures
        out == commanded_spin(current as int, left, right, dt_nanos as int),
        -MAX_SPIN <= out <= MAX_SPIN,
{
    let step: i128 = (STEER_RATE as i128) * (dt_nanos as i128);
    assert(step == 8 * dt_nanos);
    let base: i128 = current as i128;
    let mut proposed: i128 = base;
    if left {
        proposed = proposed + step;
    }
    if right {
        proposed = proposed - step;
    }
    let size: i128 = if proposed < 0 { -proposed } else { proposed };
    let base_size: i128 = if base < 0 { -base } else { base };
    if size < base_size {
        assert(EASE_NUM * size == 4 * size);
        let scaled: i128 = ((EASE_NUM as i128) * size) / (EASE_DEN as i128);
        proposed = if proposed < 0 { -scaled } else { scaled };
    }
    if proposed < -(MAX_SPIN as i128) {
        -MAX_SPIN
    } else if proposed > MAX_SPIN as i128 {
        MAX_SPIN
    } else {
        proposed as i64
    }
}

/// Applies one frame of `controls` to the player's velocity and stored
/// target.
///
/// While a steering key is held, the new target is computed by [`steer`]
/// from the stored target, or from the body's spin where none is stored, and
/// is written to the body's spin as well. With none held the target is
/// cleared and the spin is not touched. A jump sets the vertical speed to
/// `JUMP_SPEED`, whatever the body is doing. The result says which of the
/// two writes were made.
pub fn apply_controls(
    controls: Controls,
    vel: &mut Velocity,
    target: &mut TargetAngVel,
    dt_nanos: u64,
) -> (applied: Applied)
    ensures
        player(*final(target), *final(vel)) == player(*old(target), *old(vel)).after_frame(
            controls,
            dt_nanos as int,
        ),
        applied.angvel == controls.steering(),
        applied.linvel == controls.jump,
{
    let steering = controls.steer_left || controls.steer_right;
    if steering {
        let current = target.current(vel.angvel);
        let spin = steer(current, controls.steer_left, controls.steer_right, dt_nanos);
        target.0 = Some(spin);
        vel.angvel = spin;
    } else {
        target.0 = None;
    }
    if controls.jump {
        vel.linvel = Vect { x: vel.linvel.x, y: JUMP_SPEED };
    }
    Applied { angvel: steering, linvel: controls.jump }
}

/// Runs the input rules for one frame: reads the steering and jump inputs
/// off `keyboard` and applies them as [`apply_controls`] does.
pub fn arrow_keys_apply_force(
    keyboard: &Keyboard,
    vel: &mut Velocity,
    target: &mut TargetAngVel,
    dt_nanos: u64,
) -> (applied: Applied)
    ensures
        player(*final(target), *final(vel)) == player(*old(target), *old(vel)).after_frame(
            keyboard.controls_spec(),
            dt_nanos as int,
        ),
        applied.angvel == keyboard.controls_spec().steering(),
        applied.linvel == keyboard.struck(Action::Jump),
{
    let controls = keyboard.controls();
    apply_controls(controls, vel, target, dt_nanos)
}

/// One frame's input to the rules: the controls and the frame's length in
/// nanoseconds.
pub struct Frame {
    pub controls: Controls,
    pub dt: int,
}

impl Player {
    /// The player after the frames of `frames`, taken in order.
    pub open spec fn after_frames(self, frames: Seq<Frame>) -> Player
        decreases frames.len(),
    {
        if frames.len() == 0 {
            self
        } else {
            self.after_frames(frames.drop_last()).after_frame(
                frames.last().controls,
                frames.last().dt,
            )
        }
    }
}

/// Four fifths of a number lies within one unit of the exact quotient, on
/// the side of zero, and keeps the number's sign.
pub proof fn lemma_four_fifths_is_tight(x: int)
    ensures
        x >= 0 ==> 5 * four_fifths(x) <= 4 * x < 5 * four_fifths(x) + 5,
        x <= 0 ==> 5 * four_fifths(x) - 5 < 4 * x <= 5 * four_fifths(x),
        magnitude(four_fifths(x)) <= magnitude(x),
        four_fifths(-x) == -four_fifths(x),
{
}

/// A frame with no steering key held clears the stored target and leaves
/// the body's spin as it was.
pub proof fn lemma_release_clears_target(p: Player, controls: Controls, dt: int)
    requires
        !controls.steer_left,
        !controls.steer_right,
    ensures
        p.after_frame(controls, dt).target is None,
        p.after_frame(controls, dt).angvel == p.angvel,
{
}

/// With exactly one steering key held and a proposal that does not slow the
/// ball, the new spin is the baseline moved by `STEER_RATE * dt` toward the
/// held key, clamped, and nothing is scaled down. It is stored as the target
/// and written to the body alike.
pub proof fn lemma_steady_steering(p: Player, controls: Controls, dt: int)
    requires
        controls.steer_left != controls.steer_right,
        magnitude(proposed_spin(p.baseline(), controls.steer_left, controls.steer_right, dt))
            >= magnitude(p.baseline()),
    ensures
        controls.steer_left ==> p.after_frame(controls, dt).angvel == clamp_spin(
            p.baseline() + STEER_RATE * dt,
        ),
        controls.steer_right ==> p.after_frame(controls, dt).angvel == clamp_spin(
            p.baseline() - STEER_RATE * dt,
        ),
        p.after_frame(controls, dt).target == Some(p.after_frame(controls, dt).angvel),
{
}

/// Where the proposal would slow the ball, the new spin is four fifths of
/// the proposal, clamped: with the left key held, four fifths of the
/// baseline raised by `STEER_RATE * dt`, with the right key, of the baseline
/// lowered by it.
pub proof fn lemma_reversal_is_eased(p: Player, controls: Controls, dt: int)
    requires
        controls.steering(),
        magnitude(proposed_spin(p.baseline(), controls.steer_left, controls.steer_right, dt))
            < magnitude(p.baseline()),
    ensures
        controls.steer_left != controls.steer_right,
        controls.steer_left ==> p.after_frame(controls, dt).angvel == clamp_spin(
            four_fifths(p.baseline() + STEER_RATE * dt),
        ),
        controls.steer_right ==> p.after_frame(controls, dt).angvel == clamp_spin(
            four_fifths(p.baseline() - STEER_RATE * dt),
        ),
        p.after_frame(controls, dt).target == Some(p.after_frame(controls, dt).angvel),
{
}

/// With both steering keys held the two steps cancel: the proposal is the
/// baseline itself, nothing is scaled down, and the new spin is the baseline
/// clamped.
pub proof fn lemma_opposed_keys_cancel(p: Player, controls: Controls, dt: int)
    requires
        controls.steer_left,
        controls.steer_right,
    ensures
        proposed_spin(p.baseline(), true, true, dt) == p.baseline(),
        p.after_frame(controls, dt).angvel == clamp_spin(p.baseline()),
        p.after_frame(controls, dt).target == Some(clamp_spin(p.baseline())),
{
}

/// Whatever the player's state, the keys and the frame's length, a frame
/// that steers commands a spin within `MAX_SPIN` of zero, and the target
/// that any frame leaves is within that range too.
pub proof fn lemma_commanded_spin_in_range(p: Player, controls: Controls, dt: int)
    ensures
        controls.steering() ==> -MAX_SPIN <= p.after_frame(controls, dt).angvel <= MAX_SPIN,
        p.after_frame(controls, dt).target matches Some(t) ==> -MAX_SPIN <= t <= MAX_SPIN,
        p.spin_in_range() ==> p.after_frame(controls, dt).spin_in_range(),
{
}

/// A spin that starts within `MAX_SPIN` of zero stays there through any
/// sequence of frames, however long each frame is.
pub proof fn lemma_spin_stays_in_range(p: Player, frames: Seq<Frame>)
    requires
        p.spin_in_range(),
    ensures
        p.after_frames(frames).spin_in_range(),
    decreases frames.len(),
{
    if frames.len() > 0 {
        lemma_spin_stays_in_range(p, frames.drop_last());
        lemma_commanded_spin_in_range(
            p.after_frames(frames.drop_last()),
            frames.last().controls,
            frames.last().dt,
        );
    }
}

/// A fresh press of a jump key sets the vertical speed to `JUMP_SPEED` and
/// leaves the horizontal speed alone. A frame without one leaves both alone.
pub proof fn lemma_jump_sets_vertical_speed(p: Player, controls: Controls, dt: int)
    ensures
        p.after_frame(controls, dt).linvel_x == p.linvel_x,
        controls.jump ==> p.after_frame(controls, dt).linvel_y == JUMP_SPEED,
        !controls.jump ==> p.after_frame(controls, dt).linvel_y == p.linvel_y,
{
}

/// A jump key that goes down jumps: where a key bound to the jump is among
/// those that went down in this frame, the vertical speed becomes
/// `JUMP_SPEED` and the horizontal speed stays.
pub proof fn lemma_fresh_jump_key_jumps(p: Player, keyboard: Keyboard, key: Key, dt: int)
    requires
        keyboard.just_pressed@.contains(key),
        binding(key) == Action::Jump,
    ensures
        p.after_frame(keyboard.controls_spec(), dt).linvel_y == JUMP_SPEED,
        p.after_frame(keyboard.controls_spec(), dt).linvel_x == p.linvel_x,
{
    let i = choose|i: int| 0 <= i < keyboard.just_pressed@.len() && keyboard.just_pressed@[i] == key;
    assert(binding(keyboard.just_pressed@[i]) == Action::Jump);
}

/// A jump key that stays down does not jump again: in a frame that follows
/// `before` and in which every held jump key was held in `before` already,
/// the linear velocity is left alone.
pub proof fn lemma_held_jump_key_does_not_retrigger(
    p: Player,
    before: Keyboard,
    keyboard: Keyboard,
    dt: int,
)
    requires
        keyboard.follows(&before),
        forall|key: Key|
            binding(key) == Action::Jump && #[trigger] keyboard.pressed@.contains(key)
                ==> before.pressed@.contains(key),
    ensures
        !keyboard.struck(Action::Jump),
        p.after_frame(keyboard.controls_spec(), dt).linvel_x == p.linvel_x,
        p.after_frame(keyboard.controls_spec(), dt).linvel_y == p.linvel_y,
{
    if keyboard.struck(Action::Jump) {
        let i = choose|i: int|
            0 <= i < keyboard.just_pressed@.len() && binding(
                #[trigger] keyboard.just_pressed@[i],
            ) == Action::Jump;
        let key = keyboard.just_pressed@[i];
        assert(keyboard.just_pressed@.contains(key));
        assert(keyboard.pressed@.contains(key));
        assert(before.pressed@.contains(key));
    }
}

} // verus!
