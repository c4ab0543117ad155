//! The scheduler: what each platform event does to the loop, and how a frame
//! is drained into fixed simulation steps followed by one render.
//!
//! The scheduler owns no window and calls nothing back. Its caller feeds it
//! the platform's events, asks it for the steps of each frame one at a time,
//! carries each step out, and tells it when the simulation wants to exit.

use crate::timestep::ClockState;
use crate::timestep::TimeStep;
use crate::timestep::total;
use std::time::Instant;
use vstd::arithmetic::div_mod::lemma_fundamental_div_mod;
use vstd::arithmetic::div_mod::lemma_fundamental_div_mod_converse;
use vstd::arithmetic::div_mod::lemma_mod_pos_bound;
use vstd::prelude::*;

verus! {

/// Width of the surface before the first resize, in pixels.
pub const DEFAULT_WIDTH: u32 = 640;

/// Height of the surface before the first resize, in pixels.
pub const DEFAULT_HEIGHT: u32 = 400;

/// Whether the loop goes on.
#[derive(Clone, Copy, Debug, PartialEq, Eq, Structural)]
pub enum Lifecycle {
    /// Keep polling.
    Continue,
    /// Stop: no more simulation steps, no more renders.
    Exit,
}

/// A platform event, as far as the scheduler tells events apart.
#[derive(Clone, Copy, Debug, PartialEq, Eq, Structural)]
pub enum LoopEvent {
    /// The platform's loop is being torn down.
    LoopDestroyed,
    /// The user asked to close the window.
    CloseRequested,
    /// The window has a new size, in pixels.
    Resized { width: u32, height: u32 },
    /// The display is ready for a new frame.
    RedrawRequested,
    /// Every event of this pass has been handed over.
    MainEventsCleared,
    /// Any other event.
    Other,
}

/// What the caller has to do for an event.
#[derive(Clone, Copy, Debug, PartialEq, Eq)]
pub enum Reaction {
    /// Nothing.
    Ignore,
    /// Resize the rendering context to this size.
    ResizeSurface { width: u32, height: u32 },
    /// A frame has begun: show the frame rate if there is one, then carry
    /// out the frame's steps until one ends it.
    BeginFrame { frame_rate: Option<u32> },
    /// Ask the platform for another redraw.
    RequestRedraw,
}

/// One step of a frame.
#[derive(Clone, Copy, Debug, PartialEq, Eq)]
pub enum FrameStep {
    /// Advance the simulation by one fixed step.
    Update,
    /// Size the surface to `width` by `height`, clear it, render with `lag`
    /// nanoseconds not yet simulated, and present. Ends the frame.
    Render { lag: u64, width: u32, height: u32 },
    /// Exit was requested: the frame ends without a render.
    Abort,
    /// No frame is under way.
    Idle,
}

/// What the loop does when a rendered frame cannot be presented.
#[derive(Clone, Copy, Debug, PartialEq, Eq, Structural)]
pub enum PresentFailure {
    /// The failure is fatal: the loop exits.
    Terminate,
    /// The failure is reported and the loop goes on.
    Continue,
}

/// What a whole frame came to: see `RenderLoop::drain`.
#[derive(Clone, Copy, Debug, PartialEq, Eq)]
pub struct FramePass {
    /// Simulation steps taken.
    pub updates: u64,
    /// The step that ended the frame.
    pub end: FrameStep,
}

/// The scheduler's state, in nanoseconds and pixels.
pub struct LoopState {
    /// Length of one simulation step.
    pub step: nat,
    /// Time that has passed and is not yet simulated.
    pub lag: nat,
    /// Whether the loop goes on.
    pub lifecycle: Lifecycle,
    /// Width of the surface.
    pub width: u32,
    /// Height of the surface.
    pub height: u32,
    /// Whether a frame is under way.
    pub draining: bool,
    /// The clock.
    pub clock: ClockState,
}

impl LoopState {
    /// A step has a length, and between frames less than one step is left
    /// to simulate.
    pub open spec fn wf(self) -> bool {
        &&& self.step > 0
        &&& (!self.draining ==> self.lag < self.step)
    }

    /// Whether `event` begins a frame: a redraw, while the loop goes on and
    /// no frame is under way.
    pub open spec fn begins_frame(self, event: LoopEvent) -> bool {
        &&& event is RedrawRequested
        &&& self.lifecycle is Continue
        &&& !self.draining
    }

    /// The measurement that goes with `event` when the clock reads `now`:
    /// for an event that begins a frame, the time from the clock's kept
    /// reading to `now`; for any other the clock is not polled, and the
    /// measurement is the one it has.
    pub open spec fn measurement_at(self, event: LoopEvent, now: Instant) -> nat {
        if self.begins_frame(event) {
            self.clock.elapsed_at(now)
        } else {
            self.clock.delta
        }
    }

    /// The state after `event` is handled on the clock itself. An event
    /// that begins a frame polls the clock, which reads `now`, and the frame
    /// begins with the time measured by that poll. Any other event leaves
    /// the clock as it was, kept reading included.
    pub open spec fn handled(self, event: LoopEvent, now: Instant) -> LoopState {
        if self.begins_frame(event) {
            (LoopState { clock: self.clock.polled(now), ..self }).after_event(
                event,
                self.clock.elapsed_at(now),
            )
        } else {
            self.after_event(event, self.clock.delta)
        }
    }

    /// The state after `event`, where `delta` is the time measured at a
    /// redraw. After exit nothing changes any more. A redraw takes the
    /// measurement onto the lag and counts a frame; a redraw during a frame
    /// is ignored.
    pub open spec fn after_event(self, event: LoopEvent, delta: nat) -> LoopState {
        if self.lifecycle is Exit {
            self
        } else {
            match event {
                LoopEvent::LoopDestroyed | LoopEvent::CloseRequested => LoopState {
                    lifecycle: Lifecycle::Exit,
                    ..self
                },
                LoopEvent::Resized { width, height } => LoopState { width, height, ..self },
                LoopEvent::RedrawRequested => if self.draining {
                    self
                } else {
                    LoopState {
                        lag: self.lag + delta,
                        draining: true,
                        clock: self.clock.measured(delta).after_sample(),
                        ..self
                    }
                },
                LoopEvent::MainEventsCleared | LoopEvent::Other => self,
            }
        }
    }

    /// What the caller has to do for `event`.
    pub open spec fn reaction_to(self, event: LoopEvent, delta: nat) -> Reaction {
        if self.lifecycle is Exit {
            Reaction::Ignore
        } else {
            match event {
                LoopEvent::Resized { width, height } => Reaction::ResizeSurface { width, height },
                LoopEvent::RedrawRequested => if self.draining {
                    Reaction::Ignore
                } else {
                    Reaction::BeginFrame { frame_rate: self.clock.measured(delta).sampled_rate() }
                },
                LoopEvent::MainEventsCleared => Reaction::RequestRedraw,
                _ => Reaction::Ignore,
            }
        }
    }

    /// The next step of the frame under way. Exit ends the frame at once;
    /// otherwise the simulation steps while a whole step is left, and then
    /// the frame is rendered with the rest.
    pub open spec fn next_step(self) -> FrameStep {
        if !self.draining {
            FrameStep::Idle
        } else if self.lifecycle is Exit {
            FrameStep::Abort
        } else if self.lag >= self.step {
            FrameStep::Update
        } else {
            FrameStep::Render { lag: self.lag as u64, width: self.width, height: self.height }
        }
    }

    /// The state after that step. A simulation step takes exactly one step's
    /// length off the lag. A frame ended by exit drops what was left.
    pub open spec fn after_step(self) -> LoopState {
        if !self.draining {
            self
        } else if self.lifecycle is Exit {
            LoopState { lag: 0, draining: false, ..self }
        } else if self.lag >= self.step {
            LoopState { lag: (self.lag - self.step) as nat, ..self }
        } else {
            LoopState { draining: false, ..self }
        }
    }

    /// The state after exit was requested.
    pub open spec fn exited(self) -> LoopState {
        LoopState { lifecycle: Lifecycle::Exit, ..self }
    }

    /// Simulation steps that the frame under way still takes if no exit is
    /// requested meanwhile.
    pub open spec fn due_updates(self) -> nat {
        if self.draining && self.lifecycle is Continue {
            self.lag / self.step
        } else {
            0
        }
    }

    /// The step that ends the frame under way if no exit is requested
    /// meanwhile.
    pub open spec fn frame_end(self) -> FrameStep {
        if !self.draining {
            FrameStep::Idle
        } else if self.lifecycle is Exit {
            FrameStep::Abort
        } else {
            FrameStep::Render {
                lag: (self.lag % self.step) as u64,
                width: self.width,
                height: self.height,
            }
        }
    }

    /// The state once the frame under way has ended, if no exit is requested
    /// meanwhile.
    pub open spec fn drained(self) -> LoopState {
        if !self.draining {
            self
        } else if self.lifecycle is Exit {
            LoopState { lag: 0, draining: false, ..self }
        } else {
            LoopState { lag: self.lag % self.step, draining: false, ..self }
        }
    }

    /// The state after a whole frame that began with the measurement
    /// `delta`.
    pub open spec fn after_frame(self, delta: nat) -> LoopState {
        self.after_event(LoopEvent::RedrawRequested, delta).drained()
    }

    /// Simulation steps in that frame.
    pub open spec fn updates_in_frame(self, delta: nat) -> nat {
        self.after_event(LoopEvent::RedrawRequested, delta).due_updates()
    }

    /// The state after a run of whole frames, each with its measurement.
    pub open spec fn after_frames(self, deltas: Seq<nat>) -> LoopState
        decreases deltas.len(),
    {
        if deltas.len() == 0 {
            self
        } else {
            self.after_frames(deltas.drop_last()).after_frame(deltas.last())
        }
    }

    /// Simulation steps over that run.
    pub open spec fn updates_over(self, deltas: Seq<nat>) -> nat
        decreases deltas.len(),
    {
        if deltas.len() == 0 {
            0
        } else {
            self.updates_over(deltas.drop_last()) + self.after_frames(
                deltas.drop_last(),
            ).updates_in_frame(deltas.last())
        }
    }
}

/// A fixed-timestep scheduler.
pub struct RenderLoop {
    target_delta_time: u64,
    timestep: TimeStep,
    lag: u128,
    lifecycle: Lifecycle,
    width: u32,
    height: u32,
    draining: bool,
}

impl View for RenderLoop {
    type V = LoopState;

    closed spec fn view(&self) -> LoopState {
        LoopState {
            step: self.target_delta_time as nat,
            lag: self.lag as nat,
            lifecycle: self.lifecycle,
            width: self.width,
            height: self.height,
            draining: self.draining,
            clock: self.timestep@,
        }
    }
}

impl RenderLoop {
    /// Validity of a scheduler: that of its state and of its clock, and a
    /// lag of less than one step beyond the longest measurement.
    pub open spec fn wf(&self) -> bool {
        &&& self@.wf()
        &&& self@.clock.wf()
        &&& self@.step <= u64::MAX
        &&& self@.lag < self@.step + u64::MAX
    }

    /// A scheduler that simulates in steps of `target_delta_time`
    /// nanoseconds. Its clock starts now; nothing is left to simulate, no
    /// frame is under way, and the surface has its default size.
    pub fn new(target_delta_time: u64) -> (scheduler: RenderLoop)
        requires
            target_delta_time > 0,
        ensures
            scheduler.wf(),
            scheduler@ == (LoopState {
                step: target_delta_time as nat,
                lag: 0,
                lifecycle: Lifecycle::Continue,
                width: DEFAULT_WIDTH,
                height: DEFAULT_HEIGHT,
                draining: false,
                clock: ClockState { delta: 0, frames: 0, window: 0, ..scheduler@.clock },
            }),
    {
        RenderLoop {
            target_delta_time,
            timestep: TimeStep::new(),
            lag: 0,
            lifecycle: Lifecycle::Continue,
            width: DEFAULT_WIDTH,
            height: DEFAULT_HEIGHT,
            draining: false,
        }
    }

    /// Handles a platform event. Where the event begins a frame the clock is
    /// polled, and the frame begins with the time from the clock's kept
    /// reading to the new one, which is kept in its place. No other event
    /// polls the clock: its kept reading and its measurement are as before.
    pub fn event_handler(&mut self, event: LoopEvent) -> (reaction: Reaction)
        requires
            old(self).wf(),
        ensures
            final(self).wf(),
            final(self)@ == old(self)@.handled(event, final(self)@.clock.last_sample),
            reaction == old(self)@.reaction_to(
                event,
                old(self)@.measurement_at(event, final(self)@.clock.last_sample),
            ),
            !old(self)@.begins_frame(event) ==> final(self)@.clock == old(self)@.clock,
    {
        let begins: bool = match (event, self.lifecycle) {
            (LoopEvent::RedrawRequested, Lifecycle::Continue) => !self.draining,
            _ => false,
        };
        let delta: u64 = if begins {
            self.timestep.delta()
        } else {
            self.timestep.last_delta()
        };
        self.apply_event(event, delta)
    }

    /// Handles a platform event, with `delta` nanoseconds as the time
    /// measured if the event begins a frame.
    pub fn apply_event(&mut self, event: LoopEvent, delta: u64) -> (reaction: Reaction)
        requires
            old(self).wf(),
        ensures
            final(self).wf(),
            final(self)@ == old(self)@.after_event(event, delta as nat),
            reaction == old(self)@.reaction_to(event, delta as nat),
    {
        match self.lifecycle {
            Lifecycle::Exit => Reaction::Ignore,
            Lifecycle::Continue => match event {
                LoopEvent::LoopDestroyed | LoopEvent::CloseRequested => {
                    self.lifecycle = Lifecycle::Exit;
                    Reaction::Ignore
                },
                LoopEvent::Resized { width, height } => {
                    self.width = width;
                    self.height = height;
                    Reaction::ResizeSurface { width, height }
                },
                LoopEvent::RedrawRequested => {
                    if self.draining {
                        Reaction::Ignore
                    } else {
                        self.lag = self.lag + delta as u128;
                        self.draining = true;
                        self.timestep.record(delta);
                        let frame_rate = self.timestep.frame_rate();
                        Reaction::BeginFrame { frame_rate }
                    }
                },
                LoopEvent::MainEventsCleared => Reaction::RequestRedraw,
                LoopEvent::Other => Reaction::Ignore,
            },
        }
    }

    /// Takes the next step of the frame under way, for the caller to carry
    /// out.
    pub fn next_step(&mut self) -> (step: FrameStep)
        requires
            old(self).wf(),
        ensures
            final(self).wf(),
            step == old(self)@.next_step(),
            final(self)@ == old(self)@.after_step(),
    {
        if !self.draining {
            FrameStep::Idle
        } else {
            match self.lifecycle {
                Lifecycle::Exit => {
                    self.lag = 0;
                    self.draining = false;
                    FrameStep::Abort
                },
                Lifecycle::Continue => {
                    if self.lag >= self.target_delta_time as u128 {
                        self.lag = self.lag - self.target_delta_time as u128;
                        FrameStep::Update
                    } else {
                        self.draining = false;
                        FrameStep::Render {
                            lag: self.lag as u64,
                            width: self.width,
                            height: self.height,
                        }
                    }
                },
            }
        }
    }

    /// Requests exit, as a simulation step may. The frame under way then
    /// ends at its next step, without a render.
    pub fn request_exit(&mut self)
        requires
            old(self).wf(),
        ensures
            final(self).wf(),
            final(self)@ == old(self)@.exited(),
    {
        self.lifecycle = Lifecycle::Exit;
    }

    /// Takes note that a rendered frame could not be presented. Under
    /// `Terminate` exit is requested and the failure is fatal; under
    /// `Continue` nothing changes.
    pub fn present_failed(&mut self, policy: PresentFailure) -> (fatal: bool)
        requires
            old(self).wf(),
        ensures
            final(self).wf(),
            fatal == (policy is Terminate),
            policy is Terminate ==> final(self)@ == old(self)@.exited(),
            policy is Continue ==> final(self)@ == old(self)@,
    {
        match policy {
            PresentFailure::Terminate => {
                self.lifecycle = Lifecycle::Exit;
                true
            },
            PresentFailure::Continue => false,
        }
    }

    /// Takes every step that is left of the frame under way, and reports
    /// how many simulation steps there were and how the frame ended.
    pub fn drain(&mut self) -> (pass: FramePass)
        requires
            old(self).wf(),
        ensures
            final(self).wf(),
            !final(self)@.draining,
            final(self)@ == old(self)@.drained(),
            pass.updates == old(self)@.due_updates(),
            pass.end == old(self)@.frame_end(),
    {
        let ghost start = self@;
        let mut updates: u64 = 0;
        let mut step = self.next_step();
        proof {
            if step is Render {
                lemma_fundamental_div_mod_converse(
                    start.lag as int,
                    start.step as int,
                    0,
                    start.lag as int,
                );
            }
        }
        while matches!(step, FrameStep::Update)
            invariant
                self.wf(),
                start.wf(),
                start.lag < start.step + u64::MAX,
                step is Update ==> start.draining && start.lifecycle is Continue,
                step is Update ==> self@ == (LoopState { lag: self@.lag, ..start }),
                step is Update ==> updates * start.step + start.step + self@.lag == start.lag,
                !(step is Update) ==> self@ == start.drained(),
                !(step is Update) ==> updates == start.due_updates(),
                !(step is Update) ==> step == start.frame_end(),
            decreases
                    self@.lag + if step is Update {
                        1nat
                    } else {
                        0nat
                    },
        {
            proof {
                assert(updates + 1 <= (updates + 1) * start.step) by (nonlinear_arith)
                    requires
                        start.step >= 1,
                ;
                assert((updates + 1) * start.step == updates * start.step + start.step)
                    by (nonlinear_arith);
            }
            updates = updates + 1;
            step = self.next_step();
            proof {
                if !(step is Update) {
                    lemma_fundamental_div_mod_converse(
                        start.lag as int,
                        start.step as int,
                        updates as int,
                        self@.lag as int,
                    );
                }
            }
        }
        FramePass { updates, end: step }
    }

    /// Length of one simulation step, in nanoseconds.
    pub fn target_delta_time(&self) -> (step: u64)
        ensures
            step == self@.step,
    {
        self.target_delta_time
    }

    /// Time that has passed and is not yet simulated, in nanoseconds.
    pub fn lag(&self) -> (lag: u128)
        ensures
            lag == self@.lag,
    {
        self.lag
    }

    /// Width and height of the surface, in pixels.
    pub fn surface_size(&self) -> (size: (u32, u32))
        ensures
            size == (self@.width, self@.height),
    {
        (self.width, self.height)
    }

    /// Whether a frame is under way.
    pub fn is_draining(&self) -> (draining: bool)
        ensures
            draining == self@.draining,
    {
        self.draining
    }

    /// Whether the loop goes on.
    pub fn lifecycle(&self) -> (lifecycle: Lifecycle)
        ensures
            lifecycle == self@.lifecycle,
    {
        self.lifecycle
    }
}

/// One thing that can happen to a scheduler: an event with the time measured
/// at it, or a request for the next step of the frame.
pub enum Move {
    /// A platform event.
    Event { event: LoopEvent, delta: nat },
    /// A request for the next step.
    Step,
    /// A request for exit.
    Exit,
}

impl LoopState {
    /// The state after `m`.
    pub open spec fn after_move(self, m: Move) -> LoopState {
        match m {
            Move::Event { event, delta } => self.after_event(event, delta),
            Move::Step => self.after_step(),
            Move::Exit => self.exited(),
        }
    }

    /// Whether `m` has the caller simulate or render: a step that is a
    /// simulation step or a render, or an event that begins a frame.
    pub open spec fn gives_work(self, m: Move) -> bool {
        match m {
            Move::Event { event, delta } => self.reaction_to(event, delta) is BeginFrame,
            Move::Step => self.next_step() is Update || self.next_step() is Render,
            Move::Exit => false,
        }
    }

    /// The state after a run of moves.
    pub open spec fn after_moves(self, moves: Seq<Move>) -> LoopState
        decreases moves.len(),
    {
        if moves.len() == 0 {
            self
        } else {
            self.after_moves(moves.drop_last()).after_move(moves.last())
        }
    }
}

/// Every move keeps a valid state valid: a step has a length, and between
/// frames less than one step is left to simulate.
pub proof fn moves_keep_validity(state: LoopState, m: Move)
    requires
        state.wf(),
    ensures
        state.after_move(m).wf(),
        state.after_move(m).step == state.step,
{
}

/// After every frame less than one step is left to simulate, whatever was
/// measured and whether or not exit was requested, and no frame is under
/// way.
pub proof fn lag_below_step_after_frame(state: LoopState, delta: nat)
    requires
        state.wf(),
    ensures
        state.after_frame(delta).wf(),
        !state.after_frame(delta).draining,
        0 <= state.after_frame(delta).lag < state.step,
{
    let begun = state.after_event(LoopEvent::RedrawRequested, delta);
    lemma_mod_pos_bound(begun.lag as int, begun.step as int);
}

/// Taking the steps of a frame one by one comes to what `drained` and
/// `due_updates` say: a simulation step leaves one update fewer due and the
/// same end, and any other step ends the frame in the drained state.
pub proof fn steps_lead_to_drained(state: LoopState)
    requires
        state.wf(),
    ensures
        state.next_step() is Update ==> {
            &&& state.after_step().due_updates() + 1 == state.due_updates()
            &&& state.after_step().drained() == state.drained()
            &&& state.after_step().frame_end() == state.frame_end()
        },
        !(state.next_step() is Update) ==> {
            &&& state.due_updates() == 0
            &&& state.after_step() == state.drained()
            &&& state.next_step() == state.frame_end()
        },
{
    let step = state.step as int;
    let lag = state.lag as int;
    if state.next_step() is Update {
        let rest = lag - step;
        lemma_fundamental_div_mod(rest, step);
        lemma_mod_pos_bound(rest, step);
        assert(step * (rest / step + 1) == step * (rest / step) + step) by (nonlinear_arith);
        lemma_fundamental_div_mod_converse(lag, step, rest / step + 1, rest % step);
    } else if state.next_step() is Render {
        lemma_fundamental_div_mod_converse(lag, step, 0, lag);
    }
}

/// No time is lost: over a run of whole frames without exit, the simulated
/// time and the lag left at the end add up to the lag at the start and the
/// measurements. So from a lag of zero the number of simulation steps is the
/// measured time divided by the step's length, rounded down.
pub proof fn updates_account_for_elapsed_time(state: LoopState, deltas: Seq<nat>)
    requires
        state.wf(),
        !state.draining,
        state.lifecycle is Continue,
    ensures
        state.after_frames(deltas).wf(),
        !state.after_frames(deltas).draining,
        state.after_frames(deltas).lifecycle is Continue,
        state.after_frames(deltas).step == state.step,
        state.after_frames(deltas).lag < state.step,
        state.updates_over(deltas) * state.step + state.after_frames(deltas).lag == state.lag
            + total(deltas),
        state.lag == 0 ==> state.updates_over(deltas) == total(deltas) / state.step,
    decreases deltas.len(),
{
    let step = state.step as int;
    if deltas.len() > 0 {
        let front = deltas.drop_last();
        updates_account_for_elapsed_time(state, front);
        let begun = state.after_frames(front).after_event(
            LoopEvent::RedrawRequested,
            deltas.last(),
        );
        let before = state.updates_over(front) as int;
        let now = (begun.lag / state.step) as int;
        lemma_fundamental_div_mod(begun.lag as int, step);
        lemma_mod_pos_bound(begun.lag as int, step);
        assert((before + now) * step == before * step + step * now) by (nonlinear_arith);
    } else {
        assert(state.updates_over(deltas) * state.step == 0) by (nonlinear_arith)
            requires
                state.updates_over(deltas) == 0,
        ;
    }
    if state.lag == 0 {
        lemma_fundamental_div_mod_converse(
            total(deltas) as int,
            step,
            state.updates_over(deltas) as int,
            state.after_frames(deltas).lag as int,
        );
    }
}

/// A close request, or the loop's teardown, sets the lifecycle to exit, and
/// so does a request for exit.
pub proof fn close_request_exits(state: LoopState, delta: nat)
    ensures
        state.after_event(LoopEvent::CloseRequested, delta).lifecycle is Exit,
        state.after_event(LoopEvent::LoopDestroyed, delta).lifecycle is Exit,
        state.exited().lifecycle is Exit,
{
}

/// Exit is final: whatever moves follow it, the lifecycle stays at exit, and
/// no further move has the caller simulate or render.
pub proof fn no_work_after_exit(state: LoopState, moves: Seq<Move>, next: Move)
    requires
        state.lifecycle is Exit,
    ensures
        state.after_moves(moves).lifecycle is Exit,
        !state.after_moves(moves).gives_work(next),
    decreases moves.len(),
{
    if moves.len() > 0 {
        no_work_after_exit(state, moves.drop_last(), moves.last());
    }
}

/// A resize, while the loop goes on, sets the surface's size and nothing
/// else: the lag and the clock are as before. The next render, in the frame
/// under way or in the one that a redraw then begins, is at the new size.
pub proof fn resize_changes_only_surface(
    state: LoopState,
    width: u32,
    height: u32,
    delta: nat,
    next_delta: nat,
)
    requires
        state.lifecycle is Continue,
    ensures
        state.after_event(LoopEvent::Resized { width, height }, delta) == (LoopState {
            width,
            height,
            ..state
        }),
        ({
            let resized = state.after_event(LoopEvent::Resized { width, height }, delta);
            let begun = resized.after_event(LoopEvent::RedrawRequested, next_delta);
            &&& begun.draining
            &&& begun.frame_end() is Render
            &&& begun.frame_end()->width == width
            &&& begun.frame_end()->height == height
        }),
{
}

} // verus!
