use vstd::prelude::*;
use crate::frame::Effect;

verus! {

/// Keys that the demo tells apart.
#[derive(Clone, Copy, Debug, PartialEq, Eq, Structural)]
pub enum Key {
    Escape,
    Other,
}

/// The window events that the demo reacts to; every other event is `Other`.
#[derive(Clone, Copy, Debug, PartialEq, Eq, Structural)]
pub enum LoopEvent {
    /// The window's drawable area now has this size.
    Resized { width: u32, height: u32 },
    /// The user asked to close the window.
    CloseRequested,
    /// A key with a known key code went down (`pressed`) or up.
    KeyInput { key: Key, pressed: bool },
    /// The window system asks for the window to be redrawn.
    RedrawRequested,
    /// All pending input of this iteration has been delivered.
    MainEventsCleared,
    Other,
}

/// Whether the loop keeps running. Once `Exit` is set the loop stops, and
/// it cannot be set back.
#[derive(Clone, Copy, Debug, PartialEq, Eq, Structural)]
pub enum ControlFlow {
    Poll,
    Exit,
}

/// What the caller performs for one event.
#[derive(Clone, Copy, Debug, PartialEq, Eq, Structural)]
pub enum Action {
    Nothing,
    /// Resize the demo's surface and recreate its swap chain.
    Resize { width: u32, height: u32 },
    /// Render one frame.
    Render,
    /// Ask the window system for a redraw.
    RequestRedraw,
}

/// The event loop's state: the effect drawn, the control flow, and whether a
/// redraw is pending (asked for and not yet rendered).
#[derive(Clone, Copy, Debug, PartialEq, Eq, Structural)]
pub struct LoopState {
    pub effect: Effect,
    pub control: ControlFlow,
    pub render_requested: bool,
}

/// Events that end the loop: a close request, or the escape key pressed.
pub open spec fn spec_ends_loop(e: LoopEvent) -> bool {
    e == LoopEvent::CloseRequested || e == (LoopEvent::KeyInput { key: Key::Escape, pressed: true })
}

/// The action for event `e` in state `s`. The still effect renders when the
/// window asks; the animated one asks for the next redraw as soon as the last
/// one has been rendered.
pub open spec fn spec_action(s: LoopState, e: LoopEvent) -> Action {
    match e {
        LoopEvent::Resized { width, height } => Action::Resize { width, height },
        LoopEvent::RedrawRequested => Action::Render,
        LoopEvent::MainEventsCleared => {
            if s.effect == Effect::Animated && !s.render_requested {
                Action::RequestRedraw
            } else {
                Action::Nothing
            }
        },
        _ => Action::Nothing,
    }
}

/// The state after event `e` in state `s`.
pub open spec fn spec_next(s: LoopState, e: LoopEvent) -> LoopState {
    LoopState {
        effect: s.effect,
        control: if s.control == ControlFlow::Exit || spec_ends_loop(e) {
            ControlFlow::Exit
        } else {
            ControlFlow::Poll
        },
        render_requested: if s.effect == Effect::Animated {
            match e {
                LoopEvent::RedrawRequested => false,
                LoopEvent::MainEventsCleared => true,
                _ => s.render_requested,
            }
        } else {
            s.render_requested
        },
    }
}

/// The state after the events of `events`, handled in order from `s`.
pub open spec fn spec_run(s: LoopState, events: Seq<LoopEvent>) -> LoopState
    decreases events.len(),
{
    if events.len() == 0 {
        s
    } else {
        spec_run(spec_next(s, events[0]), events.subrange(1, events.len() as int))
    }
}

impl LoopState {
    /// The loop starts polling, with a redraw counted as pending: the window
    /// system asks for the first one.
    pub fn new(effect: Effect) -> (r: LoopState)
        ensures
            r == (LoopState { effect, control: ControlFlow::Poll, render_requested: true }),
    {
        LoopState { effect, control: ControlFlow::Poll, render_requested: true }
    }

    /// Whether the loop has been told to stop.
    pub fn is_exit(&self) -> (r: bool)
        ensures
            r == (self.control == ControlFlow::Exit),
    {
        match self.control {
            ControlFlow::Exit => true,
            ControlFlow::Poll => false,
        }
    }

    /// Handles one event: updates the state and returns the action to perform.
    pub fn step(&mut self, event: LoopEvent) -> (r: Action)
        ensures
            r == spec_action(*old(self), event),
            *final(self) == spec_next(*old(self), event),
    {
        let animated = self.effect.uses_time_uniform();
        let ends = match event {
            LoopEvent::CloseRequested => true,
            LoopEvent::KeyInput { key: Key::Escape, pressed } => pressed,
            _ => false,
        };
        if ends {
            self.control = ControlFlow::Exit;
        } else if !self.is_exit() {
            self.control = ControlFlow::Poll;
        }
        match event {
            LoopEvent::Resized { width, height } => Action::Resize { width, height },
            LoopEvent::RedrawRequested => {
                if animated {
                    self.render_requested = false;
                }
                Action::Render
            },
            LoopEvent::MainEventsCleared => {
                if animated && !self.render_requested {
                    self.render_requested = true;
                    Action::RequestRedraw
                } else {
                    Action::Nothing
                }
            },
            _ => Action::Nothing,
        }
    }
}

/// Once the loop has been told to stop, no sequence of events restarts it.
pub proof fn lemma_exit_is_final(s: LoopState, events: Seq<LoopEvent>)
    requires
        s.control == ControlFlow::Exit,
    ensures
        spec_run(s, events).control == ControlFlow::Exit,
    decreases events.len(),
{
    if events.len() > 0 {
        lemma_exit_is_final(spec_next(s, events[0]), events.subrange(1, events.len() as int));
    }
}

/// A close request or an escape key press anywhere in a sequence of events
/// ends the loop.
pub proof fn lemma_exit_event_ends_loop(s: LoopState, events: Seq<LoopEvent>, i: int)
    requires
        0 <= i < events.len(),
        spec_ends_loop(events[i]),
    ensures
        spec_run(s, events).control == ControlFlow::Exit,
    decreases events.len(),
{
    let rest = events.subrange(1, events.len() as int);
    if i == 0 {
        lemma_exit_is_final(spec_next(s, events[0]), rest);
    } else {
        assert(rest[i - 1] == events[i]);
        lemma_exit_event_ends_loop(spec_next(s, events[0]), rest, i - 1);
    }
}

/// Without a close request or an escape key press, the loop keeps running.
pub proof fn lemma_runs_without_exit_event(s: LoopState, events: Seq<LoopEvent>)
    requires
        s.control == ControlFlow::Poll,
        forall|i: int| 0 <= i < events.len() ==> !spec_ends_loop(#[trigger] events[i]),
    ensures
        spec_run(s, events).control == ControlFlow::Poll,
    decreases events.len(),
{
    if events.len() > 0 {
        let rest = events.subrange(1, events.len() as int);
        assert forall|i: int| 0 <= i < rest.len() implies !spec_ends_loop(#[trigger] rest[i]) by {
            assert(rest[i] == events[i + 1]);
        }
        lemma_runs_without_exit_event(spec_next(s, events[0]), rest);
    }
}

/// The animated effect redraws continuously: once a frame has been rendered,
/// the next clearing of the event queue asks for another redraw.
pub proof fn lemma_animated_redraws_continuously(s: LoopState)
    requires
        s.effect == Effect::Animated,
    ensures
        spec_action(spec_next(s, LoopEvent::RedrawRequested), LoopEvent::MainEventsCleared)
            == Action::RequestRedraw,
{
}

/// The still effect never asks for a redraw of its own.
pub proof fn lemma_still_never_requests_redraw(s: LoopState, e: LoopEvent)
    requires
        s.effect == Effect::Still,
    ensures
        spec_action(s, e) != Action::RequestRedraw,
{
}

} // verus!
