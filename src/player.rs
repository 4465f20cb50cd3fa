//! Player kinematics and sprite animation.
//!
//! Time comes in whole milliseconds; one movement step is `STEP_MS`
//! milliseconds. Vertical velocity is fixed-point: thousandths of a world
//! unit per step.

use vstd::prelude::*;

verus! {

/// Length of one movement step, in milliseconds.
pub const STEP_MS: i32 = 100;

/// Fixed-point scale of a velocity: thousandths of a unit per step.
pub const VELOCITY_SCALE: i32 = 1000;

/// Maximum fall speed (8.0 units per step): gravity accelerates up to it and
/// no further.
pub const MAX_FALL_SPEED: i32 = 8000;

/// Velocity set by a flap (-4.0 units per step).
pub const FLAP_VELOCITY: i32 = -4000;

/// Gravity: 0.4 units per step per step, that is 4 thousandths per millisecond.
pub const GRAVITY_PER_MS: i32 = 4;

/// Horizontal speed, in units per step.
pub const RUN_SPEED: i32 = 6;

/// Number of frames of the player's sprite animation.
pub const NUM_ANIMATION_FRAMES: usize = 4;

/// Frame shown while the player is not animating.
pub const DEFAULT_ANIMATION_FRAME: usize = 1;

/// How long one animation frame is shown, in milliseconds; it advances once
/// the elapsed time exceeds this.
pub const ANIMATION_FRAME_LENGTH: u32 = 20;

#[derive(Clone, Copy, Debug, PartialEq, Eq, Structural)]
pub struct Player {
    pub x: i32,
    pub y: i32,
    /// Vertical velocity in thousandths of a unit per step; positive is down.
    pub velocity: i32,
    pub curr_animation_index: usize,
    /// Milliseconds spent on the current animation frame.
    pub curr_frame_time: u32,
    pub is_animating: bool,
}

/// Division rounding toward zero, as a float-to-integer cast does.
pub open spec fn trunc_div(a: int, d: int) -> int {
    if a >= 0 {
        a / d
    } else {
        -((-a) / d)
    }
}

/// Velocity after gravity acted for `ms` milliseconds: below the maximum
/// fall speed it grows, up to that speed and no further; at or above it, it
/// stays.
pub open spec fn fall_velocity(v: int, ms: int) -> int {
    if v < MAX_FALL_SPEED {
        if v + GRAVITY_PER_MS * ms < MAX_FALL_SPEED {
            v + GRAVITY_PER_MS * ms
        } else {
            MAX_FALL_SPEED as int
        }
    } else {
        v
    }
}

/// Vertical displacement over `ms` milliseconds at velocity `v`: truncated
/// toward zero, and at least one unit while moving down.
pub open spec fn displacement(v: int, ms: int) -> int {
    let d = trunc_div(v * ms, VELOCITY_SCALE * STEP_MS);
    if d == 0 && v > 0 {
        1
    } else {
        d
    }
}

/// Horizontal distance covered in `ms` milliseconds, truncated.
pub open spec fn run_distance(ms: int) -> int {
    RUN_SPEED * ms / (STEP_MS as int)
}

/// Next animation frame, wrapping around the frame count.
pub open spec fn next_frame(i: usize) -> usize {
    if i + 1 >= NUM_ANIMATION_FRAMES {
        0
    } else {
        (i + 1) as usize
    }
}

impl Player {
    /// A player above the floor, on one of the animation frames, and no
    /// longer than one frame length into it.
    pub open spec fn wf(self) -> bool {
        &&& self.y >= 0
        &&& self.curr_animation_index < NUM_ANIMATION_FRAMES
        &&& self.curr_frame_time <= ANIMATION_FRAME_LENGTH
    }

    /// The integers that one movement of `ms` milliseconds produces fit an `i32`.
    pub open spec fn can_move(self, ms: u16) -> bool {
        let v = fall_velocity(self.velocity as int, ms as int);
        &&& self.x + run_distance(ms as int) <= i32::MAX
        &&& i32::MIN <= self.y + displacement(v, ms as int) <= i32::MAX
    }

    /// The player after gravity and movement over `ms` milliseconds.
    pub open spec fn moved(self, ms: u16) -> Player {
        let v = fall_velocity(self.velocity as int, ms as int);
        let y = self.y + displacement(v, ms as int);
        Player {
            x: (self.x + run_distance(ms as int)) as i32,
            y: (if y < 0 { 0 } else { y }) as i32,
            velocity: v as i32,
            ..self
        }
    }

    /// The player after its animation clock advanced by `ms` milliseconds.
    pub open spec fn animated(self, ms: u16) -> Player {
        if !self.is_animating {
            self
        } else if self.curr_frame_time + ms > ANIMATION_FRAME_LENGTH {
            let i = next_frame(self.curr_animation_index);
            Player {
                curr_frame_time: 0,
                curr_animation_index: i,
                is_animating: i != DEFAULT_ANIMATION_FRAME,
                ..self
            }
        } else {
            Player { curr_frame_time: (self.curr_frame_time + ms) as u32, ..self }
        }
    }

    pub fn new(x: i32, y: i32) -> (r: Player)
        ensures
            r == (Player {
                x,
                y,
                velocity: 0,
                curr_animation_index: DEFAULT_ANIMATION_FRAME,
                curr_frame_time: 0,
                is_animating: false,
            }),
    {
        Player {
            x,
            y,
            velocity: 0,
            curr_animation_index: DEFAULT_ANIMATION_FRAME,
            curr_frame_time: 0,
            is_animating: false,
        }
    }

    /// Applies gravity for `ms` milliseconds, then moves the player; its
    /// height is clamped at zero.
    pub fn gravity_and_move(&mut self, ms: u16)
        requires
            old(self).can_move(ms),
        ensures
            *final(self) == old(self).moved(ms),
            final(self).y >= 0,
    {
        let ghost v0 = self.velocity as int;
        if self.velocity < MAX_FALL_SPEED {
            let v = self.velocity + GRAVITY_PER_MS * ms as i32;
            self.velocity = if v < MAX_FALL_SPEED {
                v
            } else {
                MAX_FALL_SPEED
            };
        }
        assert(self.velocity == fall_velocity(v0, ms as int));
        let v = self.velocity as i64;
        let m = ms as i64;
        assert(-0x8000_0000 * 0x1_0000 <= v * m <= 0x8000_0000 * 0x1_0000) by (nonlinear_arith)
            requires
                -0x8000_0000 <= v < 0x8000_0000,
                0 <= m < 0x1_0000,
        ;
        let product: i64 = v * m;
        let divisor: i64 = (VELOCITY_SCALE * STEP_MS) as i64;
        let mut dy: i64 = if product >= 0 {
            product / divisor
        } else {
            -((-product) / divisor)
        };
        if dy == 0 && self.velocity > 0 {
            dy = 1;
        }
        let y: i64 = self.y as i64 + dy;
        self.y = if y < 0 {
            0
        } else {
            y as i32
        };
        self.x = self.x + RUN_SPEED * ms as i32 / STEP_MS;
    }

    /// Advances the animation clock by `ms` milliseconds while animating;
    /// past the frame length the frame advances, and animation stops when
    /// the rest frame comes round again.
    pub fn update_animation(&mut self, ms: u16)
        requires
            old(self).curr_frame_time + ms <= u32::MAX,
        ensures
            *final(self) == old(self).animated(ms),
    {
        if !self.is_animating {
            return;
        }
        self.curr_frame_time = self.curr_frame_time + ms as u32;
        if self.curr_frame_time > ANIMATION_FRAME_LENGTH {
            self.curr_frame_time = 0;
            if self.curr_animation_index >= NUM_ANIMATION_FRAMES - 1 {
                self.curr_animation_index = 0;
            } else {
                self.curr_animation_index = self.curr_animation_index + 1;
            }
            if self.curr_animation_index == DEFAULT_ANIMATION_FRAME {
                self.is_animating = false;
            }
        }
    }

    /// Sets the velocity to the flap impulse, whatever it was.
    pub fn flap(&mut self)
        ensures
            *final(self) == (Player { velocity: FLAP_VELOCITY, ..*old(self) }),
    {
        self.velocity = FLAP_VELOCITY;
    }
}

/// The player after one movement per entry of `frames`, in order.
pub open spec fn after_frames(p: Player, frames: Seq<u16>) -> Player
    decreases frames.len(),
{
    if frames.len() == 0 {
        p
    } else {
        after_frames(p.moved(frames[0]), frames.drop_first())
    }
}

/// Each movement of `frames`, in order, stays within `i32`.
pub open spec fn frames_fit(p: Player, frames: Seq<u16>) -> bool
    decreases frames.len(),
{
    frames.len() == 0 || (p.can_move(frames[0]) && frames_fit(
        p.moved(frames[0]),
        frames.drop_first(),
    ))
}

/// A frame of no time leaves a player that is not moving down as it was.
/// (One that moves down still drops by the minimum of one unit.)
pub proof fn lemma_still_frame(p: Player)
    requires
        p.y >= 0,
        p.velocity <= 0,
    ensures
        p.moved(0) == p,
{
    assert(trunc_div(p.velocity * 0, VELOCITY_SCALE * STEP_MS) == 0);
}

/// Over a frame of positive length, gravity strictly raises a velocity
/// below the maximum fall speed, never past that speed, and leaves one at
/// or above it unchanged.
pub proof fn lemma_velocity_rises(p: Player, ms: u16)
    requires
        ms > 0,
    ensures
        p.velocity < MAX_FALL_SPEED ==> p.velocity < p.moved(ms).velocity <= MAX_FALL_SPEED,
        p.velocity >= MAX_FALL_SPEED ==> p.moved(ms).velocity == p.velocity,
{
}

/// Whatever the sequence of movements, the player's height stays at or
/// above zero.
pub proof fn lemma_never_negative(p: Player, frames: Seq<u16>)
    requires
        p.y >= 0,
        frames_fit(p, frames),
    ensures
        after_frames(p, frames).y >= 0,
    decreases frames.len(),
{
    if frames.len() > 0 {
        lemma_never_negative(p.moved(frames[0]), frames.drop_first());
    }
}

} // verus!
