//! The window loop as a state machine.
//!
//! The host turns each notification of the windowing system into an
//! [`Event`], hands it to [`State::dispatch`] and performs the [`Action`]
//! that comes back. When the action is [`Action::Render`] the host runs one
//! frame and reports how it ended to [`State::settle`], which answers with
//! the action that the outcome calls for.

use vstd::prelude::*;
use crate::extent::Extent;

verus! {

/// Whether the loop still takes notifications.
#[derive(Clone, Copy, Debug, PartialEq, Eq, Structural)]
pub enum Phase {
    Running,
    /// Terminal: nothing leaves this phase.
    Exited,
}

/// A notification of the windowing system, addressed to the host's window.
#[derive(Clone, Copy, Debug, PartialEq, Eq, Structural)]
pub enum Event {
    /// The user asked to close the window.
    Close,
    /// The window has a new inner size.
    Resize(Extent),
    /// The scale factor changed; the payload is the new inner size.
    ScaleChange(Extent),
    /// The pointer moved inside the window.
    CursorMove,
    /// The window has to be drawn again.
    RedrawRequested,
    /// Every pending notification has been handled.
    Idle,
}

/// Why a frame could not be presented.
#[derive(Clone, Copy, Debug, PartialEq, Eq, Structural)]
pub enum SurfaceFault {
    /// No image became available in time.
    Timeout,
    /// The surface no longer matches the window.
    Outdated,
    /// The surface was lost and has to be configured again.
    Lost,
    /// The device ran out of memory.
    OutOfMemory,
}

/// What the host has to do in answer to a notification or a frame outcome.
#[derive(Clone, Copy, Debug, PartialEq, Eq, Structural)]
pub enum Action {
    Nothing,
    /// Configure the surface with these dimensions.
    Configure(Extent),
    /// Set the clear colour from the pointer position, normalised by these
    /// dimensions: red is `x / width`, green is `y / height`.
    Recolor(Extent),
    /// Run one frame and report its outcome to [`State::settle`].
    Render,
    /// Ask the windowing system for another redraw.
    RequestRedraw,
    /// Leave the loop.
    Exit,
    /// Report the fault; the frame is dropped.
    Report(SurfaceFault),
}

/// The action that a resize to `size` calls for.
pub open spec fn configure_for(size: Extent) -> Action {
    if size.drawable() {
        Action::Configure(size)
    } else {
        Action::Nothing
    }
}

/// What the loop remembers between notifications.
#[derive(Clone, Copy, Debug, PartialEq, Eq, Structural)]
pub struct State {
    pub phase: Phase,
    /// The window's inner size as of the last drawable resize.
    pub size: Extent,
    /// The dimensions in the surface configuration.
    pub config: Extent,
}

impl State {
    /// The surface configuration carries the cached window size.
    pub open spec fn wf(self) -> bool {
        self.size == self.config
    }

    /// The state at start-up, for a window of the given inner size.
    pub open spec fn initial(size: Extent) -> State {
        State { phase: Phase::Running, size, config: size }
    }

    /// The state after a resize to `new_size`: a drawable size replaces both
    /// the cached size and the configured dimensions, any other changes
    /// nothing.
    pub open spec fn resized(self, new_size: Extent) -> State {
        if new_size.drawable() {
            State { phase: self.phase, size: new_size, config: new_size }
        } else {
            self
        }
    }

    /// The same state, in the terminal phase.
    pub open spec fn exited(self) -> State {
        State { phase: Phase::Exited, size: self.size, config: self.config }
    }

    /// The transition on a notification: the next state and the action.
    pub open spec fn after(self, event: Event) -> (State, Action) {
        if self.phase == Phase::Exited {
            (self, Action::Nothing)
        } else {
            match event {
                Event::Close => (self.exited(), Action::Exit),
                Event::Resize(size) => (self.resized(size), configure_for(size)),
                Event::ScaleChange(size) => (self.resized(size), configure_for(size)),
                Event::CursorMove => (self, Action::Recolor(self.size)),
                Event::RedrawRequested => (self, Action::Render),
                Event::Idle => (self, Action::RequestRedraw),
            }
        }
    }

    /// The transition on the outcome of a frame: the next state and the
    /// action.
    pub open spec fn settled(self, outcome: Result<(), SurfaceFault>) -> (State, Action) {
        if self.phase == Phase::Exited {
            (self, Action::Nothing)
        } else {
            match outcome {
                Ok(_) => (self, Action::Nothing),
                Err(SurfaceFault::Lost) => (self.resized(self.size), configure_for(self.size)),
                Err(SurfaceFault::OutOfMemory) => (self.exited(), Action::Exit),
                Err(fault) => (self, Action::Report(fault)),
            }
        }
    }

    /// Starts a loop for a window of the given inner size.
    pub fn new(size: Extent) -> (state: State)
        ensures
            state == State::initial(size),
            state.wf(),
    {
        State { phase: Phase::Running, size, config: size }
    }

    pub fn is_running(&self) -> (yes: bool)
        ensures
            yes == (self.phase == Phase::Running),
    {
        self.phase == Phase::Running
    }

    /// Takes a new window size. The result is the action to perform:
    /// [`Action::Configure`] for a drawable size, [`Action::Nothing`] for one
    /// with a zero dimension, which leaves the state as it was.
    pub fn resize(&mut self, new_size: Extent) -> (action: Action)
        ensures
            *final(self) == old(self).resized(new_size),
            action == configure_for(new_size),
    {
        if new_size.is_drawable() {
            self.size = new_size;
            self.config = new_size;
            Action::Configure(new_size)
        } else {
            Action::Nothing
        }
    }

    /// Whether the notification is input that the state consumes itself, so
    /// that it is not read as a window-level notification.
    pub fn input(&self, event: &Event) -> (handled: bool)
        ensures
            handled == (*event == Event::CursorMove),
    {
        match event {
            Event::CursorMove => true,
            _ => false,
        }
    }

    /// Per-frame bookkeeping before a frame is drawn. There is none.
    pub fn update(&mut self)
        ensures
            *final(self) == *old(self),
    {
    }

    /// Takes one notification and answers with the action to perform.
    pub fn dispatch(&mut self, event: Event) -> (action: Action)
        ensures
            (*final(self), action) == old(self).after(event),
    {
        if !self.is_running() {
            return Action::Nothing;
        }
        if self.input(&event) {
            return Action::Recolor(self.size);
        }
        match event {
            Event::Close => {
                self.phase = Phase::Exited;
                Action::Exit
            },
            Event::Resize(size) => self.resize(size),
            Event::ScaleChange(size) => self.resize(size),
            Event::RedrawRequested => {
                self.update();
                Action::Render
            },
            Event::Idle => Action::RequestRedraw,
            Event::CursorMove => Action::Recolor(self.size),
        }
    }

    /// Takes the outcome of the frame that [`Action::Render`] asked for and
    /// answers with the action to perform.
    pub fn settle(&mut self, outcome: Result<(), SurfaceFault>) -> (action: Action)
        ensures
            (*final(self), action) == old(self).settled(outcome),
    {
        if !self.is_running() {
            return Action::Nothing;
        }
        match outcome {
            Ok(_) => Action::Nothing,
            Err(SurfaceFault::Lost) => {
                let cached = self.size;
                self.resize(cached)
            },
            Err(SurfaceFault::OutOfMemory) => {
                self.phase = Phase::Exited;
                Action::Exit
            },
            Err(fault) => Action::Report(fault),
        }
    }
}

/// The cached size and the configured dimensions agree at start-up, and no
/// transition makes them differ.
pub proof fn lemma_agreement_is_invariant(
    state: State,
    event: Event,
    outcome: Result<(), SurfaceFault>,
)
    requires
        state.wf(),
    ensures
        state.after(event).0.wf(),
        state.settled(outcome).0.wf(),
{
}

/// The terminal phase is terminal: an exited loop answers every notification
/// and every frame outcome with no action and stays as it is.
pub proof fn lemma_exited_is_terminal(
    state: State,
    event: Event,
    outcome: Result<(), SurfaceFault>,
)
    requires
        state.phase == Phase::Exited,
    ensures
        state.after(event) == (state, Action::Nothing),
        state.settled(outcome) == (state, Action::Nothing),
{
}

/// Only a close request and an out-of-memory fault end a running loop.
pub proof fn lemma_exit_has_two_causes(
    state: State,
    event: Event,
    outcome: Result<(), SurfaceFault>,
)
    requires
        state.phase == Phase::Running,
    ensures
        state.after(event).0.phase == Phase::Exited <==> event == Event::Close,
        state.settled(outcome).0.phase == Phase::Exited <==> outcome == Err::<
            (),
            SurfaceFault,
        >(SurfaceFault::OutOfMemory),
        state.after(event).1 == Action::Exit <==> event == Event::Close,
        state.settled(outcome).1 == Action::Exit <==> outcome == Err::<(), SurfaceFault>(
            SurfaceFault::OutOfMemory,
        ),
{
}

/// A resize to a drawable size, whether announced as a resize or as a change
/// of scale, configures the surface with exactly that size, and the redraw
/// that follows renders against it: the cached size and the configured
/// dimensions are both the size the window now has.
pub proof fn lemma_resize_then_redraw(state: State, size: Extent)
    requires
        state.phase == Phase::Running,
        size.drawable(),
    ensures
        state.after(Event::Resize(size)) == state.after(Event::ScaleChange(size)),
        state.after(Event::Resize(size)).1 == Action::Configure(size),
        state.after(Event::Resize(size)).0.size == size,
        state.after(Event::Resize(size)).0.config == size,
        state.after(Event::Resize(size)).0.after(Event::RedrawRequested) == (
            state.after(Event::Resize(size)).0,
            Action::Render,
        ),
{
}

/// A resize to a size with a zero dimension is a no-op: no action, and the
/// state, its surface configuration included, stays as it was, however often
/// the notification repeats.
pub proof fn lemma_degenerate_resize_is_noop(state: State, size: Extent)
    requires
        size.width == 0 || size.height == 0,
    ensures
        state.resized(size) == state,
        state.after(Event::Resize(size)) == (state, Action::Nothing),
        state.after(Event::ScaleChange(size)) == (state, Action::Nothing),
        state.after(Event::Resize(size)).0.after(Event::Resize(size)) == (state, Action::Nothing),
{
}

/// An out-of-memory fault ends a running loop at once: the answer is
/// [`Action::Exit`], and whatever comes next finds the loop exited and gets
/// no action.
pub proof fn lemma_out_of_memory_exits(
    state: State,
    next: Event,
    later: Result<(), SurfaceFault>,
)
    requires
        state.phase == Phase::Running,
    ensures
        state.settled(Err(SurfaceFault::OutOfMemory)) == (state.exited(), Action::Exit),
        state.exited().phase == Phase::Exited,
        state.exited().after(next) == (state.exited(), Action::Nothing),
        state.exited().settled(later) == (state.exited(), Action::Nothing),
{
}

/// A lost surface is answered with one action, to configure the surface with
/// the cached size, and the state stays as it was, so that the next redraw
/// request renders. The cached size has to be drawable: a loop started on a
/// window with a zero dimension has nothing to configure the surface with.
pub proof fn lemma_lost_reconfigures_with_cached_size(state: State)
    requires
        state.phase == Phase::Running,
        state.wf(),
        state.size.drawable(),
    ensures
        state.settled(Err(SurfaceFault::Lost)) == (state, Action::Configure(state.size)),
        state.after(Event::RedrawRequested) == (state, Action::Render),
{
}

/// Faults other than a lost surface and exhausted memory drop the frame: they
/// are reported and the loop goes on unchanged.
pub proof fn lemma_other_faults_drop_the_frame(state: State, fault: SurfaceFault)
    requires
        state.phase == Phase::Running,
        fault != SurfaceFault::Lost,
        fault != SurfaceFault::OutOfMemory,
    ensures
        state.settled(Err(fault)) == (state, Action::Report(fault)),
        state.settled(Ok(())) == (state, Action::Nothing),
{
}

/// A pointer move is consumed as input: it leaves a running loop as it is and
/// asks for the clear colour to be set from the pointer position, normalised
/// by the cached size of the window.
pub proof fn lemma_cursor_move_recolors(state: State)
    requires
        state.phase == Phase::Running,
    ensures
        state.after(Event::CursorMove) == (state, Action::Recolor(state.size)),
{
}

/// The surface is never configured with a zero dimension: whenever the answer
/// is to configure, the dimensions are drawable, and they are the ones the
/// state then holds as cached size and as configuration.
pub proof fn lemma_configure_is_drawable(
    state: State,
    event: Event,
    outcome: Result<(), SurfaceFault>,
    size: Extent,
)
    ensures
        state.after(event).1 == Action::Configure(size) ==> size.drawable() && state.after(
            event,
        ).0.size == size && state.after(event).0.config == size,
        state.settled(outcome).1 == Action::Configure(size) ==> size.drawable()
            && state.settled(outcome).0.size == size && state.settled(outcome).0.config == size,
{
}

/// The outcome of a frame never calls for another frame: the answer to it is
/// to do nothing, to configure the surface, to leave, or to report.
pub proof fn lemma_settling_ends_the_frame(state: State, outcome: Result<(), SurfaceFault>)
    ensures
        state.settled(outcome).1 != Action::Render,
        state.settled(outcome).1 != Action::RequestRedraw,
        !(state.settled(outcome).1 is Recolor),
{
}

/// One thing that reaches the loop: a notification, or the outcome of the
/// frame that the loop asked for.
#[derive(Clone, Copy, Debug, PartialEq, Eq)]
pub enum Input {
    Notified(Event),
    Settled(Result<(), SurfaceFault>),
}

impl State {
    /// The transition on either kind of input.
    pub open spec fn took(self, input: Input) -> (State, Action) {
        match input {
            Input::Notified(event) => self.after(event),
            Input::Settled(outcome) => self.settled(outcome),
        }
    }

    /// The state after all of `inputs`, taken in order from this one.
    pub open spec fn replay(self, inputs: Seq<Input>) -> State
        decreases inputs.len(),
    {
        if inputs.len() == 0 {
            self
        } else {
            self.replay(inputs.drop_last()).took(inputs.last()).0
        }
    }
}

/// The size that the window has after `inputs`, as far as a surface can
/// follow it: the drawable size announced last, or `first`, the size at
/// start-up, where none was announced.
pub open spec fn latest_size(first: Extent, inputs: Seq<Input>) -> Extent
    decreases inputs.len(),
{
    if inputs.len() == 0 {
        first
    } else {
        match inputs.last() {
            Input::Notified(Event::Resize(size)) if size.drawable() => size,
            Input::Notified(Event::ScaleChange(size)) if size.drawable() => size,
            _ => latest_size(first, inputs.drop_last()),
        }
    }
}

/// The surface follows the window. Whatever reached a loop that is still
/// running, in whatever order, the dimensions in its surface configuration and
/// its cached size are the drawable size that the window announced last: a
/// frame is never drawn against dimensions that the window has left behind.
pub proof fn lemma_config_follows_window(first: Extent, inputs: Seq<Input>)
    requires
        State::initial(first).replay(inputs).phase == Phase::Running,
    ensures
        State::initial(first).replay(inputs).config == latest_size(first, inputs),
        State::initial(first).replay(inputs).size == latest_size(first, inputs),
    decreases inputs.len(),
{
    if inputs.len() > 0 {
        let earlier = State::initial(first).replay(inputs.drop_last());
        if earlier.phase == Phase::Running {
            lemma_config_follows_window(first, inputs.drop_last());
        }
    }
}

/// Leaving is for good: once a loop has exited, nothing that reaches it
/// afterwards brings it back or changes it.
pub proof fn lemma_replay_stays_exited(state: State, inputs: Seq<Input>)
    requires
        state.phase == Phase::Exited,
    ensures
        state.replay(inputs) == state,
    decreases inputs.len(),
{
    if inputs.len() > 0 {
        lemma_replay_stays_exited(state, inputs.drop_last());
    }
}

} // verus!
