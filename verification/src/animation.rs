//! The animation state: how far the model has turned.
//!
//! The model turns at a constant rate of one revolution every ten seconds,
//! and every frame advances it by the same step, the rotation of a sixtieth
//! of a second: a six-hundredth of a turn. The state is therefore a count of
//! frames within the current revolution, and the angle is the exact fraction
//! `frame / FRAMES_PER_TURN` of a full turn, which never leaves the interval
//! from zero up to, but not including, one turn.

use vstd::prelude::*;
use crate::units::Angle;

verus! {

/// Nanoseconds in one second.
pub const NANOS_PER_SECOND: u64 = 1_000_000_000;

/// Frames scheduled per second.
pub const FRAMES_PER_SECOND: u64 = 60;

/// The time of one full revolution of the model, in seconds.
pub const SECONDS_PER_TURN: u64 = 10;

/// The number of frames in which the model turns once.
pub const FRAMES_PER_TURN: u64 = 600;

/// The time from a frame to the moment the next one is scheduled for, in
/// whole nanoseconds: a sixtieth of a second, rounded down.
pub const FRAME_NANOS: u64 = 16_666_666;

/// The constants agree with each other: the model turns once in the frames
/// of ten seconds, and the frame time is the second divided by the frame
/// rate, in whole nanoseconds.
pub proof fn lemma_time_constants()
    ensures
        FRAMES_PER_TURN == SECONDS_PER_TURN * FRAMES_PER_SECOND,
        FRAME_NANOS == NANOS_PER_SECOND / FRAMES_PER_SECOND,
{
}

/// The frame within the revolution that follows `frame`.
pub open spec fn advanced(frame: nat) -> nat {
    (frame + 1) % (FRAMES_PER_TURN as nat)
}

/// The frame within the revolution reached from `frame` after `ticks` frames.
pub open spec fn advanced_by_ticks(frame: nat, ticks: nat) -> nat
    decreases ticks,
{
    if ticks == 0 {
        frame
    } else {
        advanced(advanced_by_ticks(frame, (ticks - 1) as nat))
    }
}

/// The rotation at a frame within the revolution, as a fraction of a full
/// turn: each frame adds the rotation of a sixtieth of a second at a tenth
/// of a turn per second.
pub open spec fn angle_at(frame: nat) -> Angle {
    Angle { numer: frame as u64, denom: FRAMES_PER_TURN }
}

/// The single value carried from frame to frame: the rotation of the model.
#[derive(Clone, Copy, Debug)]
pub struct FrameState {
    frame: u64,
}

impl FrameState {
    #[verifier::type_invariant]
    spec fn within_turn(self) -> bool {
        self.frame < FRAMES_PER_TURN
    }

    /// The number of frames drawn in the current revolution.
    pub closed spec fn frame(self) -> nat {
        self.frame as nat
    }

    /// The rotation as a fraction of a full turn.
    pub open spec fn spec_angle(self) -> Angle {
        angle_at(self.frame())
    }

    /// The state at startup: no rotation yet.
    pub fn new() -> (state: FrameState)
        ensures
            state.frame() == 0,
    {
        FrameState { frame: 0 }
    }

    /// Advances the rotation by the step of one frame, and takes off a full
    /// turn where that completes the revolution.
    ///
    /// The rotation stays below one turn, and moves by exactly one step
    /// forward or, at the wrap, by one step less a full turn.
    pub fn tick(&mut self)
        ensures
            final(self).frame() == advanced(old(self).frame()),
            final(self).frame() < FRAMES_PER_TURN,
            final(self).frame() == old(self).frame() + 1 || final(self).frame() == old(
                self,
            ).frame() + 1 - FRAMES_PER_TURN,
    {
        proof {
            use_type_invariant(&*self);
        }
        let next: u64 = self.frame + 1;
        self.frame = if next >= FRAMES_PER_TURN {
            next - FRAMES_PER_TURN
        } else {
            next
        };
    }

    /// The number of frames drawn in the current revolution.
    pub fn frame_in_turn(&self) -> (frame: u64)
        ensures
            frame == self.frame(),
            frame < FRAMES_PER_TURN,
    {
        proof {
            use_type_invariant(self);
        }
        self.frame
    }

    /// The rotation as a fraction of a full turn, below one turn.
    pub fn angle(&self) -> (angle: Angle)
        ensures
            angle == self.spec_angle(),
            angle.numer == self.frame(),
            angle.denom == FRAMES_PER_TURN,
            angle.within_turn(),
    {
        proof {
            use_type_invariant(self);
        }
        Angle { numer: self.frame, denom: FRAMES_PER_TURN }
    }
}

/// The rotation never leaves the interval from zero up to, but not
/// including, one full turn, wherever it started.
pub proof fn lemma_advanced_within_turn(frame: nat)
    ensures
        advanced(frame) < FRAMES_PER_TURN,
        angle_at(advanced(frame)).within_turn(),
{
}

/// Between two consecutive frames the rotation moves by one step, or by one
/// step less a full turn where it wraps: it never jumps further, and it
/// wraps exactly where the step completes the revolution.
pub proof fn lemma_advanced_is_continuous(frame: nat)
    requires
        frame < FRAMES_PER_TURN,
    ensures
        advanced(frame) == frame + 1 || advanced(frame) == frame + 1 - FRAMES_PER_TURN,
        advanced(frame) == frame + 1 <==> frame + 1 < FRAMES_PER_TURN,
{
}

/// After `ticks` frames the rotation is that many steps, added to the
/// rotation at the start and reduced by whole turns: it depends on nothing
/// but the start and the number of frames.
pub proof fn lemma_ticks_add_up(frame: nat, ticks: nat)
    requires
        frame < FRAMES_PER_TURN,
    ensures
        advanced_by_ticks(frame, ticks) == (frame + ticks) % (FRAMES_PER_TURN as nat),
    decreases ticks,
{
    if ticks > 0 {
        lemma_ticks_add_up(frame, (ticks - 1) as nat);
    }
}

/// A whole number of revolutions brings the model back to where it was.
pub proof fn lemma_whole_turns_return(frame: nat, turns: nat)
    requires
        frame < FRAMES_PER_TURN,
    ensures
        advanced_by_ticks(frame, turns * FRAMES_PER_TURN as nat) == frame,
{
    lemma_ticks_add_up(frame, turns * FRAMES_PER_TURN as nat);
}

} // verus!
