//! The host shell: which window to open, how each event of the window is
//! answered, and when the loop ends.
//!
//! The shell decides and the program around it acts: it hands every event to
//! [`Shell::on_event`], and does what the returned [`Control`] says.

use vstd::prelude::*;
use crate::animation::{advanced, angle_at, FrameState, FRAMES_PER_TURN, FRAME_NANOS};
use crate::scene::{compose, Frame};

verus! {

/// An event of the window, reduced to what the shell tells apart.
#[derive(Clone, Copy, Debug, PartialEq, Eq, Structural)]
pub enum Event {
    /// The event loop has started.
    Init,
    /// The time has come that the loop was asked to wait for.
    ResumeTimeReached,
    /// The user asked for the window to be closed.
    CloseRequested,
    /// Anything else: input, resizing, redraw requests, other wake-ups.
    Other,
}

/// What could not be created at startup.
#[derive(Clone, Copy, Debug, PartialEq, Eq, Structural)]
pub enum Resource {
    Display,
    Buffers,
    ProgramCompile,
    ProgramLink,
}

/// A call to the GPU that failed. Every failure is fatal.
#[derive(Clone, Copy, Debug, PartialEq, Eq, Structural)]
pub enum Failure {
    ResourceCreationFailed(Resource),
    DrawFailed,
    PresentFailed,
}

/// What the program is to do in answer to an event.
#[derive(Clone, Debug)]
pub enum Control {
    /// Leave the event loop.
    Exit,
    /// Nothing: go on waiting as before.
    Idle,
    /// Ask to be woken `wait_nanos` nanoseconds from now, then draw `frame`
    /// and present it.
    Render { wait_nanos: u64, frame: Frame },
    /// Stop the process with a diagnostic for the failure.
    Abort(Failure),
}

/// The window that the shell asks for, in logical pixels, and the depth
/// buffer of its graphics context.
#[derive(Clone, Copy, Debug, PartialEq, Eq, Structural)]
pub struct WindowConfig {
    pub width: u32,
    pub height: u32,
    pub x: i32,
    pub y: i32,
    pub decorated: bool,
    pub always_on_top: bool,
    pub depth_bits: u8,
}

/// The shell as the contracts see it: whether the loop has ended, and the number
/// of frames drawn in the current revolution of the model.
pub struct ShellState {
    pub closed: bool,
    pub frame: nat,
}

/// The event is one that brings a frame: the start of the loop, or the
/// moment a frame was scheduled for.
pub open spec fn brings_frame(event: Event) -> bool {
    event is Init || event is ResumeTimeReached
}

/// The shell draws a frame in answer to `event`.
pub open spec fn draws(state: ShellState, event: Event) -> bool {
    !state.closed && brings_frame(event)
}

/// The state after `event`: a close request ends the loop, an event that
/// brings a frame advances the rotation by the step of one frame, and
/// nothing else changes anything. Once the loop has ended nothing changes.
pub open spec fn next(state: ShellState, event: Event) -> ShellState {
    if state.closed {
        state
    } else if event is CloseRequested {
        ShellState { closed: true, frame: state.frame }
    } else if brings_frame(event) {
        ShellState { closed: false, frame: advanced(state.frame) }
    } else {
        state
    }
}

/// The state after a run of events.
pub open spec fn run(state: ShellState, events: Seq<Event>) -> ShellState
    decreases events.len(),
{
    if events.len() == 0 {
        state
    } else {
        run(next(state, events[0]), events.drop_first())
    }
}

/// The number of frames drawn during a run of events.
pub open spec fn frames_drawn(state: ShellState, events: Seq<Event>) -> nat
    decreases events.len(),
{
    if events.len() == 0 {
        0
    } else {
        let first: nat = if draws(state, events[0]) {
            1
        } else {
            0
        };
        first + frames_drawn(next(state, events[0]), events.drop_first())
    }
}

/// A square window of 600 by 600 at (53, 420), with its decorations, kept
/// above other windows, and a depth buffer of 24 bits.
pub open spec fn default_window() -> WindowConfig {
    WindowConfig {
        width: 600,
        height: 600,
        x: 53,
        y: 420,
        decorated: true,
        always_on_top: true,
        depth_bits: 24,
    }
}

/// The window that the shell asks for.
pub fn window() -> (config: WindowConfig)
    ensures
        config == default_window(),
{
    WindowConfig {
        width: 600,
        height: 600,
        x: 53,
        y: 420,
        decorated: true,
        always_on_top: true,
        depth_bits: 24,
    }
}

impl Failure {
    /// The diagnostic for the failure.
    pub open spec fn spec_diagnostic(self) -> Seq<char> {
        match self {
            Failure::ResourceCreationFailed(Resource::Display) => "could not create the display"@,
            Failure::ResourceCreationFailed(Resource::Buffers) => "could not create the mesh buffers"@,
            Failure::ResourceCreationFailed(Resource::ProgramCompile) => "could not compile the shaders"@,
            Failure::ResourceCreationFailed(Resource::ProgramLink) => "could not link the shader program"@,
            Failure::DrawFailed => "could not draw the frame"@,
            Failure::PresentFailed => "could not present the frame"@,
        }
    }

    /// The diagnostic that the process stops with.
    pub fn diagnostic(self) -> (text: &'static str)
        ensures
            text@ == self.spec_diagnostic(),
    {
        match self {
            Failure::ResourceCreationFailed(Resource::Display) => "could not create the display",
            Failure::ResourceCreationFailed(Resource::Buffers) => "could not create the mesh buffers",
            Failure::ResourceCreationFailed(Resource::ProgramCompile) => "could not compile the shaders",
            Failure::ResourceCreationFailed(Resource::ProgramLink) => "could not link the shader program",
            Failure::DrawFailed => "could not draw the frame",
            Failure::PresentFailed => "could not present the frame",
        }
    }
}

/// The host shell: the flag that ends the loop, and the animation state.
#[derive(Clone, Copy, Debug)]
pub struct Shell {
    closed: bool,
    state: FrameState,
}

impl View for Shell {
    type V = ShellState;

    closed spec fn view(&self) -> ShellState {
        ShellState { closed: self.closed, frame: self.state.frame() }
    }
}

impl Shell {
    /// The shell at startup: the loop runs, and the model has not turned.
    pub fn new() -> (shell: Shell)
        ensures
            shell@ == (ShellState { closed: false, frame: 0 }),
    {
        Shell { closed: false, state: FrameState::new() }
    }

    /// Whether the loop has ended.
    pub fn is_closed(&self) -> (closed: bool)
        ensures
            closed == self@.closed,
    {
        self.closed
    }

    /// The animation state.
    pub fn frame_state(&self) -> (state: FrameState)
        ensures
            state.frame() == self@.frame,
    {
        self.state
    }

    /// Answers one event of the window.
    ///
    /// A close request ends the loop. The start of the loop and the moment a
    /// frame was scheduled for each bring exactly one frame: the rotation
    /// advances by one step, the next frame is scheduled a sixtieth of a
    /// second from now, and the frame shows the model at the new rotation.
    /// Every other event is ignored. Once the loop has ended the answer is
    /// always to leave, and no frame is drawn again.
    pub fn on_event(&mut self, event: Event) -> (control: Control)
        ensures
            final(self)@ == next(old(self)@, event),
            control is Render <==> draws(old(self)@, event),
            match control {
                Control::Exit => old(self)@.closed || event is CloseRequested,
                Control::Idle => !old(self)@.closed && event is Other,
                Control::Render { wait_nanos, frame } => {
                    &&& draws(old(self)@, event)
                    &&& wait_nanos == FRAME_NANOS
                    &&& final(self)@.frame < FRAMES_PER_TURN
                    &&& frame.shows(angle_at(final(self)@.frame))
                },
                Control::Abort(_) => false,
            },
    {
        if self.closed {
            return Control::Exit;
        }
        match event {
            Event::CloseRequested => {
                self.closed = true;
                Control::Exit
            },
            Event::Init | Event::ResumeTimeReached => {
                self.state.tick();
                let frame = compose(self.state.angle());
                Control::Render { wait_nanos: FRAME_NANOS, frame }
            },
            Event::Other => Control::Idle,
        }
    }

    /// Answers a failed call to the GPU: the loop ends, and the process is to
    /// stop with a diagnostic. No failure is retried or survived.
    pub fn on_failure(&mut self, failure: Failure) -> (control: Control)
        ensures
            final(self)@ == (ShellState { closed: true, frame: old(self)@.frame }),
            control == Control::Abort(failure),
    {
        self.closed = true;
        Control::Abort(failure)
    }
}

/// One event draws one frame where it brings a frame to a loop that still
/// runs, and none otherwise: never more than one.
pub proof fn lemma_one_frame_per_event(state: ShellState, event: Event)
    ensures
        draws(state, event) ==> frames_drawn(state, seq![event]) == 1,
        !draws(state, event) ==> frames_drawn(state, seq![event]) == 0,
{
    let events = seq![event];
    assert(events.drop_first().len() == 0);
    assert(frames_drawn(next(state, events[0]), events.drop_first()) == 0);
}

/// Once the loop has ended, no run of events changes the state or draws a
/// frame.
pub proof fn lemma_closed_is_final(state: ShellState, events: Seq<Event>)
    requires
        state.closed,
    ensures
        run(state, events) == state,
        frames_drawn(state, events) == 0,
    decreases events.len(),
{
    if events.len() > 0 {
        lemma_closed_is_final(state, events.drop_first());
    }
}

/// A close request ends the loop: whatever follows it, no further frame is
/// drawn and the rotation stays where it was.
pub proof fn lemma_close_request_ends_drawing(state: ShellState, events: Seq<Event>)
    ensures
        next(state, Event::CloseRequested).closed,
        !draws(state, Event::CloseRequested),
        frames_drawn(next(state, Event::CloseRequested), events) == 0,
        run(next(state, Event::CloseRequested), events).frame == state.frame,
{
    lemma_closed_is_final(next(state, Event::CloseRequested), events);
}

/// The rotation depends on nothing but the number of frames drawn: after a
/// run of events it is that many steps, added to the rotation at the start
/// and reduced by whole turns.
pub proof fn lemma_rotation_counts_frames(state: ShellState, events: Seq<Event>)
    requires
        state.frame < FRAMES_PER_TURN,
    ensures
        run(state, events).frame == (state.frame + frames_drawn(state, events)) % (
        FRAMES_PER_TURN as nat),
        angle_at(run(state, events).frame).within_turn(),
    decreases events.len(),
{
    if events.len() > 0 {
        lemma_rotation_counts_frames(next(state, events[0]), events.drop_first());
    }
}

} // verus!
