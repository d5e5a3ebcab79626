//! The editing session and its frame scheduler.
//!
//! A session bundles the per-frame mutable state: the key-state
//! edge-detector, the surface model, the last frame timestamp and the
//! (reserved, never populated) command-text buffer. The scheduler is
//! the cooperative loop's two-state machine: a tick may only start
//! while one is *scheduled*, runs to completion, and re-arms the next
//! tick before it returns — so exactly one tick is ever in flight.
//!
//! The host drives the loop: each frame it calls [`tick`], applies the
//! returned commands to the external score controller, and — when any
//! command fired — lays the score out again and hands the result to
//! [`crate::scene::Surface::render_measures`].

use vstd::prelude::*;

use crate::command::{commands_for, commands_spec, Command};
use crate::input::{reset_keys_spec, InputState};
use crate::scene::Surface;

verus! {

/// Where the cooperative frame loop stands.
#[derive(PartialEq, Eq, Structural, Copy, Clone, Debug)]
pub enum FramePhase {
    /// Waiting for the host to deliver the next tick.
    Scheduled,
    /// A tick is executing.
    Running,
}

/// The frame scheduler: a two-state machine with no terminal state —
/// once kicked off, the loop runs for the lifetime of the process.
pub struct Scheduler {
    /// The loop's current state.
    pub phase: FramePhase,
}

impl Scheduler {
    /// Kick the loop off in the *scheduled* state, waiting for the
    /// first tick.
    pub fn new() -> (s: Scheduler)
        ensures
            s.phase == FramePhase::Scheduled,
    {
        Scheduler { phase: FramePhase::Scheduled }
    }

    /// Enter a tick. Only a scheduled loop may tick, which is what
    /// keeps a second tick from starting while one runs.
    pub fn begin_tick(&mut self)
        requires
            old(self).phase == FramePhase::Scheduled,
        ensures
            final(self).phase == FramePhase::Running,
    {
        self.phase = FramePhase::Running;
    }

    /// Leave the tick and re-request the next one: back to
    /// *scheduled* before the tick handler returns.
    pub fn end_tick(&mut self)
        requires
            old(self).phase == FramePhase::Running,
        ensures
            final(self).phase == FramePhase::Scheduled,
    {
        self.phase = FramePhase::Scheduled;
    }
}

/// The per-session mutable state, owned by the top level and handed
/// by reference into each event callback and each tick.
pub struct Session {
    /// Last frame timestamp, kept for delta computation (the delta is
    /// not consumed by any current command).
    pub time_old: u64,
    /// The free-text command buffer. Reserved: nothing populates or
    /// parses it.
    pub command: String,
    /// The key-state edge-detector.
    pub input: InputState,
    /// The model of the drawing surface.
    pub surface: Surface,
}

impl Session {
    /// A fresh session: idle keys, an empty surface, time zero.
    pub fn new() -> (s: Session)
        ensures
            s.input.wf(),
            s.surface.wf(),
            forall|i: int|
                0 <= i < s.input.keys@.len() ==> s.input.keys@[i]
                    == crate::input::KeyState::Idle,
            !s.input.has_input,
            s.input.text == '\0',
            s.time_old == 0,
            s.command@ == Seq::<char>::empty(),
            s.surface.nodes@.len() == 0,
            s.surface.defs@.len() == 0,
            s.surface.view_w == crate::scene::SCALEDOWN,
            s.surface.view_h == crate::scene::SCALEDOWN,
    {
        Session {
            time_old: 0,
            command: String::new(),
            input: InputState::new(),
            surface: Surface::new(),
        }
    }

    /// One frame's input processing: decide this frame's commands from
    /// the edge-detector, remember the timestamp, and reset the
    /// edge-detector — strictly after the decisions consumed the
    /// edges.
    ///
    /// The caller applies the returned commands to the external score
    /// controller in order and re-renders the affected measures when
    /// the result is non-empty.
    pub fn process_input(&mut self, time: u64) -> (cmds: Vec<Command>)
        requires
            old(self).input.wf(),
        ensures
            final(self).input.wf(),
            cmds@ == commands_spec(old(self).input.keys@, old(self).input.has_input),
            final(self).input.keys@ == reset_keys_spec(old(self).input.keys@),
            !final(self).input.has_input,
            final(self).input.text == old(self).input.text,
            final(self).time_old == time,
            final(self).command == old(self).command,
            final(self).surface == old(self).surface,
    {
        self.time_old = time;
        let cmds = commands_for(&self.input);
        self.input.reset();
        cmds
    }
}

/// One tick of the cooperative loop: enter *running*, process the
/// frame's input with the new timestamp, and re-arm the scheduler
/// before returning. The returned commands are the tick's decisions
/// for the host to carry out.
pub fn tick(session: &mut Session, sched: &mut Scheduler, time: u64) -> (cmds: Vec<Command>)
    requires
        old(session).input.wf(),
        old(sched).phase == FramePhase::Scheduled,
    ensures
        final(sched).phase == FramePhase::Scheduled,
        final(session).input.wf(),
        cmds@ == commands_spec(old(session).input.keys@, old(session).input.has_input),
        final(session).input.keys@ == reset_keys_spec(old(session).input.keys@),
        !final(session).input.has_input,
        final(session).input.text == old(session).input.text,
        final(session).time_old == time,
        final(session).command == old(session).command,
        final(session).surface == old(session).surface,
{
    sched.begin_tick();
    let cmds = session.process_input(time);
    sched.end_tick();
    cmds
}

} // verus!
