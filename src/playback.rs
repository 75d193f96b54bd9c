//! The playback state machine: which frame comes next, when to stop, and how
//! long to wait for input between frames.

use vstd::prelude::*;
use crate::config::ColorMode;
use crate::surface::{resized, surface_wf, SurfaceView, TerminalSurface};

verus! {

/// The time one frame may take, in microseconds: a rate of 30 frames per
/// second, with a small allowance for the time that measuring itself costs
/// (a divisor of 30.75 in place of 30).
pub const FRAME_INTERVAL_MICROS: u64 = 32520;

/// How long to wait for input after a frame that took `elapsed_micros` to
/// decode, render and write: what is left of the frame interval, and zero
/// once the frame has used it all. Frames are never skipped to catch up.
pub fn poll_timeout(elapsed_micros: u64) -> (r: u64)
    ensures
        elapsed_micros >= FRAME_INTERVAL_MICROS ==> r == 0,
        elapsed_micros < FRAME_INTERVAL_MICROS ==> r == FRAME_INTERVAL_MICROS - elapsed_micros,
{
    if elapsed_micros >= FRAME_INTERVAL_MICROS {
        0
    } else {
        FRAME_INTERVAL_MICROS - elapsed_micros
    }
}

/// Where a session stands.
#[derive(Clone, Copy, Debug, PartialEq, Eq, Structural)]
pub enum Phase {
    /// The terminal is being set up and the first frame read.
    Starting,
    /// Frames are being shown.
    Playing,
    /// Playback has ended; the terminal still has to be restored.
    Stopping,
    /// The terminal has been restored.
    Stopped,
}

/// What the caller observed while waiting after a frame.
#[derive(Clone, Copy, Debug, PartialEq, Eq, Structural)]
pub enum Event {
    /// The quit key was pressed.
    Quit,
    /// The terminal now has this size in cells.
    Resize { cols: u16, rows: u16 },
    /// The wait ran out, or what came in has no meaning here.
    Tick,
    /// Reading, decoding or writing a frame failed.
    Failed,
}

/// What the caller is to do next.
#[derive(Clone, Copy, Debug, PartialEq, Eq, Structural)]
pub enum Action {
    /// Decode and show this frame (numbered from 1).
    Render { frame: usize },
    /// Stop playing; the terminal is to be restored.
    Stop,
    /// Nothing: the session has already stopped playing.
    Idle,
}

/// What a session holds, as plain values.
pub struct SessionView {
    pub phase: Phase,
    pub frame: nat,
    pub total: nat,
    pub surface: SurfaceView,
    pub mode: ColorMode,
}

/// A session is consistent when its surface is, and while playing, when the
/// frame number lies in `1..=total`.
pub open spec fn session_wf(s: SessionView) -> bool {
    &&& surface_wf(s.surface)
    &&& s.frame <= s.total
    &&& s.phase == Phase::Playing ==> 1 <= s.frame
}

/// Moving on from the frame just shown: the next frame, or a stop after the
/// last.
pub open spec fn advance_spec(s: SessionView) -> (SessionView, Action) {
    if s.frame < s.total {
        (SessionView { frame: s.frame + 1, ..s }, Action::Render { frame: (s.frame + 1) as usize })
    } else {
        (SessionView { phase: Phase::Stopping, ..s }, Action::Stop)
    }
}

/// The session after one event, and what the caller is to do.
pub open spec fn step_spec(s: SessionView, ev: Event) -> (SessionView, Action) {
    match s.phase {
        Phase::Playing => match ev {
            Event::Quit | Event::Failed => (SessionView { phase: Phase::Stopping, ..s }, Action::Stop),
            Event::Resize { cols, rows } => advance_spec(
                SessionView { surface: resized(s.surface, cols, rows), ..s },
            ),
            Event::Tick => advance_spec(s),
        },
        Phase::Starting => match ev {
            Event::Failed => (SessionView { phase: Phase::Stopping, ..s }, Action::Stop),
            _ => (s, Action::Idle),
        },
        _ => (s, Action::Idle),
    }
}

/// The session after the caller's exit path has run, and whether the
/// terminal is to be restored now.
pub open spec fn finish_spec(s: SessionView) -> (SessionView, bool) {
    match s.phase {
        Phase::Stopped => (s, false),
        _ => (SessionView { phase: Phase::Stopped, ..s }, true),
    }
}

/// One thing that happens to a session: an event after a frame, or the exit
/// path that ends it.
pub enum Input {
    Event(Event),
    Finish,
}

/// The session after one input.
pub open spec fn apply(s: SessionView, input: Input) -> SessionView {
    match input {
        Input::Event(ev) => step_spec(s, ev).0,
        Input::Finish => finish_spec(s).0,
    }
}

/// How many times the terminal is restored over a sequence of inputs.
pub open spec fn restores(s: SessionView, inputs: Seq<Input>) -> nat
    decreases inputs.len(),
{
    if inputs.len() == 0 {
        0
    } else {
        let now = match inputs[0] {
            Input::Finish => if finish_spec(s).1 {
                1nat
            } else {
                0nat
            },
            Input::Event(_) => 0nat,
        };
        now + restores(apply(s, inputs[0]), inputs.drop_first())
    }
}

/// How many frames are asked for over a sequence of inputs.
pub open spec fn renders(s: SessionView, inputs: Seq<Input>) -> nat
    decreases inputs.len(),
{
    if inputs.len() == 0 {
        0
    } else {
        let now = match inputs[0] {
            Input::Event(ev) => if step_spec(s, ev).1 is Render {
                1nat
            } else {
                0nat
            },
            Input::Finish => 0nat,
        };
        now + renders(apply(s, inputs[0]), inputs.drop_first())
    }
}

/// Whether the exit path comes up among the inputs.
pub open spec fn has_finish(inputs: Seq<Input>) -> bool
    decreases inputs.len(),
{
    if inputs.len() == 0 {
        false
    } else {
        inputs[0] is Finish || has_finish(inputs.drop_first())
    }
}

proof fn lemma_after_playing(s: SessionView, inputs: Seq<Input>)
    requires
        s.phase == Phase::Stopping || s.phase == Phase::Stopped,
    ensures
        renders(s, inputs) == 0,
        restores(s, inputs) == if s.phase == Phase::Stopping && has_finish(inputs) {
            1nat
        } else {
            0nat
        },
    decreases inputs.len(),
{
    if inputs.len() > 0 {
        lemma_after_playing(apply(s, inputs[0]), inputs.drop_first());
    }
}

/// However playback goes, the terminal is restored at most once.
pub proof fn lemma_restore_at_most_once(s: SessionView, inputs: Seq<Input>)
    ensures
        restores(s, inputs) <= 1,
    decreases inputs.len(),
{
    if inputs.len() > 0 {
        let t = apply(s, inputs[0]);
        if t.phase == Phase::Playing || t.phase == Phase::Starting {
            lemma_restore_at_most_once(apply(s, inputs[0]), inputs.drop_first());
        } else {
            lemma_after_playing(apply(s, inputs[0]), inputs.drop_first());
        }
    }
}

/// The quit key, taken while playing, stops playback at once: no further frame
/// is asked for, whatever follows, and the terminal is restored exactly once
/// when the exit path runs.
pub proof fn lemma_quit_ends_playback(s: SessionView, rest: Seq<Input>)
    requires
        s.phase == Phase::Playing,
    ensures
        step_spec(s, Event::Quit).1 == Action::Stop,
        renders(s, seq![Input::Event(Event::Quit)] + rest) == 0,
        restores(s, seq![Input::Event(Event::Quit)] + rest) == if has_finish(rest) {
            1nat
        } else {
            0nat
        },
{
    let inputs = seq![Input::Event(Event::Quit)] + rest;
    assert(inputs.drop_first() =~= rest);
    lemma_after_playing(apply(s, inputs[0]), rest);
}

/// The state of one playback: frame numbers, the surface and the color mode.
pub struct Session {
    phase: Phase,
    frame: usize,
    total: usize,
    surface: TerminalSurface,
    mode: ColorMode,
}

impl View for Session {
    type V = SessionView;

    closed spec fn view(&self) -> SessionView {
        SessionView {
            phase: self.phase,
            frame: self.frame as nat,
            total: self.total as nat,
            surface: self.surface@,
            mode: self.mode,
        }
    }
}

/// The session once the frame count and the surface are known.
pub open spec fn begin_spec(s: SessionView, total: nat, surface: SurfaceView) -> (SessionView, Action) {
    match s.phase {
        Phase::Starting => if total >= 1 {
            (
                SessionView { phase: Phase::Playing, frame: 1, total, surface, ..s },
                Action::Render { frame: 1 },
            )
        } else {
            (SessionView { phase: Phase::Stopping, frame: 0, total, surface, ..s }, Action::Stop)
        },
        _ => (s, Action::Idle),
    }
}

impl Session {
    /// A session that is starting, in a color mode fixed for its whole life.
    /// Until it begins it holds a surface of one cell for images of one pixel.
    pub fn new(mode: ColorMode) -> (r: Session)
        ensures
            session_wf(r@),
            r@.phase == Phase::Starting,
            r@.frame == 0,
            r@.total == 0,
            r@.mode == mode,
    {
        Session { phase: Phase::Starting, frame: 0, total: 0, surface: TerminalSurface::new(1, 1, 1, 1), mode }
    }

    /// Begins playing `total` frames on `surface`, from frame 1. With no
    /// frames there is nothing to play and the session is stopping at once.
    /// Only a starting session begins.
    pub fn begin(&mut self, total: usize, surface: TerminalSurface) -> (r: Action)
        requires
            session_wf(old(self)@),
            surface_wf(surface@),
        ensures
            session_wf(final(self)@),
            (final(self)@, r) == begin_spec(old(self)@, total as nat, surface@),
    {
        match self.phase {
            Phase::Starting => {
                self.total = total;
                self.surface = surface;
                if total >= 1 {
                    self.phase = Phase::Playing;
                    self.frame = 1;
                    Action::Render { frame: 1 }
                } else {
                    self.phase = Phase::Stopping;
                    self.frame = 0;
                    Action::Stop
                }
            },
            _ => Action::Idle,
        }
    }

    /// Starts playing `total` frames on `surface` at once, from frame 1.
    pub fn start(total: usize, surface: TerminalSurface, mode: ColorMode) -> (r: (Session, Action))
        requires
            surface_wf(surface@),
        ensures
            session_wf(r.0@),
            r.0@.total == total,
            r.0@.surface == surface@,
            r.0@.mode == mode,
            total >= 1 ==> r.0@.phase == Phase::Playing && r.0@.frame == 1 && r.1 == (Action::Render {
                frame: 1,
            }),
            total == 0 ==> r.0@.phase == Phase::Stopping && r.1 == Action::Stop,
    {
        let mut s = Session::new(mode);
        let a = s.begin(total, surface);
        (s, a)
    }

    /// Takes one event after a frame. While starting, only a failure counts:
    /// it stops the session. While playing: the quit key, or a
    /// failure, stops playback; a resize takes the new size, with both scales,
    /// and then, like anything else, moves on to the next frame, or stops after
    /// the last. The frame just shown is never drawn again: the new size shows
    /// from the next frame on. Once playback has stopped, events
    /// change nothing.
    pub fn step(&mut self, ev: Event) -> (r: Action)
        requires
            session_wf(old(self)@),
        ensures
            session_wf(final(self)@),
            (final(self)@, r) == step_spec(old(self)@, ev),
    {
        match self.phase {
            Phase::Playing => match ev {
                Event::Quit | Event::Failed => {
                    self.phase = Phase::Stopping;
                    Action::Stop
                },
                Event::Resize { cols, rows } => {
                    self.surface.resize(cols, rows);
                    self.advance()
                },
                Event::Tick => self.advance(),
            },
            Phase::Starting => match ev {
                Event::Failed => {
                    self.phase = Phase::Stopping;
                    Action::Stop
                },
                _ => Action::Idle,
            },
            _ => Action::Idle,
        }
    }

    fn advance(&mut self) -> (r: Action)
        requires
            session_wf(old(self)@),
            old(self)@.phase == Phase::Playing,
        ensures
            session_wf(final(self)@),
            (final(self)@, r) == advance_spec(old(self)@),
    {
        if self.frame < self.total {
            self.frame = self.frame + 1;
            Action::Render { frame: self.frame }
        } else {
            self.phase = Phase::Stopping;
            Action::Stop
        }
    }

    /// Ends the session on any exit path. It returns `true` the first time
    /// only: the terminal is restored once, however playback ended.
    pub fn finish(&mut self) -> (restore: bool)
        requires
            session_wf(old(self)@),
        ensures
            session_wf(final(self)@),
            (final(self)@, restore) == finish_spec(old(self)@),
    {
        match self.phase {
            Phase::Stopped => false,
            _ => {
                self.phase = Phase::Stopped;
                true
            },
        }
    }

    pub fn phase(&self) -> (r: Phase)
        ensures
            r == self@.phase,
    {
        self.phase
    }

    pub fn frame(&self) -> (r: usize)
        ensures
            r == self@.frame,
    {
        self.frame
    }

    pub fn total(&self) -> (r: usize)
        ensures
            r == self@.total,
    {
        self.total
    }

    pub fn surface(&self) -> (r: &TerminalSurface)
        ensures
            r@ == self@.surface,
    {
        &self.surface
    }

    pub fn mode(&self) -> (r: ColorMode)
        ensures
            r == self@.mode,
    {
        self.mode
    }
}

} // verus!
