//! The game loop driver: it owns the engine state and the game loop, and runs
//! one frame after another.

use crate::clock::clamp_delta;
use crate::commands::{flushed, Command};
use crate::engine::{
    next_frame, planned_carry, planned_steps, synced_step, EngineError, EngineState, GameLoop,
    Host,
};
use vstd::prelude::*;

verus! {

/// Where the driver stands between two frames.
#[derive(Copy, Clone, Debug, PartialEq, Eq, Structural)]
pub enum Phase {
    /// No frame was run yet and no game loop exists.
    Uninitialized,
    /// Frames run with their fixed steps.
    Running,
    /// Frames run without fixed steps.
    Paused,
    /// The game asked to quit: no callback is invoked any more.
    ShuttingDown,
}

/// What one call of [`GameLoopDriver::tick`] did.
#[derive(Copy, Clone, Debug, PartialEq, Eq, Structural)]
pub struct TickReport {
    /// The phase the driver is in after the call.
    pub phase: Phase,
    /// Whether the game loop was called this frame.
    pub ran_callbacks: bool,
    /// The time the frame covered, in ticks, after clamping; zero for a
    /// call that ran no frame.
    pub delta: u64,
    /// How often `fixed_update` was called.
    pub steps: u32,
    /// Ticks left in the accumulator, below one fixed step.
    pub remainder: u64,
}

/// The phase that a frame runs in, decided at the start of the frame from
/// the phase before and the two flags as they stand then: shutting down is
/// final, a raised quit flag leads there, and otherwise the pause flag
/// chooses between paused and running.
pub open spec fn phase_for(before: Phase, quit_flag: bool, is_paused: bool) -> Phase {
    if before == Phase::ShuttingDown || quit_flag {
        Phase::ShuttingDown
    } else if is_paused {
        Phase::Paused
    } else {
        Phase::Running
    }
}

/// Owns the engine state, the game loop in it included, and runs the
/// frames.
pub struct GameLoopDriver<H: Host, G: GameLoop<H>> {
    state: EngineState<H, G>,
    phase: Phase,
}

impl<H: Host, G: GameLoop<H>> GameLoopDriver<H, G> {
    pub closed spec fn spec_phase(&self) -> Phase {
        self.phase
    }

    /// The engine state that the driver owns.
    pub closed spec fn engine(&self) -> EngineState<H, G> {
        self.state
    }

    /// Whether a game loop exists.
    pub open spec fn has_game_loop(&self) -> bool {
        self.engine().game_loop is Some
    }

    /// A driver for `state` that has run no frame yet.
    pub fn new(state: EngineState<H, G>) -> (d: Self)
        ensures
            d.engine() == state,
            d.spec_phase() == Phase::Uninitialized,
    {
        GameLoopDriver { state, phase: Phase::Uninitialized }
    }

    #[verifier::when_used_as_spec(spec_phase)]
    pub fn phase(&self) -> (p: Phase)
        ensures
            p == self.spec_phase(),
    {
        self.phase
    }

    /// The engine state, to look at.
    pub fn state(&self) -> (state: &EngineState<H, G>)
        ensures
            *state == self.engine(),
    {
        &self.state
    }

    /// The engine state, for the host to work on between two frames: to
    /// install the graphics backend, to set the pause flag.
    pub fn state_mut(&mut self) -> (state: &mut EngineState<H, G>)
        ensures
            *state == old(self).engine(),
            final(self).engine() == *final(state),
            final(self).spec_phase() == old(self).spec_phase(),
    {
        &mut self.state
    }

    /// Puts `game_loop` in the place of the current game loop, between two
    /// frames, and hands out the one it replaces.
    pub fn replace_game_loop(&mut self, game_loop: G) -> (replaced: Option<G>)
        ensures
            final(self).engine() == (EngineState {
                game_loop: Some(game_loop),
                ..old(self).engine()
            }),
            final(self).spec_phase() == old(self).spec_phase(),
            replaced == old(self).engine().game_loop,
    {
        let replaced = self.state.game_loop.take();
        self.state.game_loop = Some(game_loop);
        replaced
    }

    /// Runs one frame that comes `real_delta` ticks after the last one and
    /// in which the pointer is at `mouse_world`.
    ///
    /// - Once shutting down, nothing happens any more.
    /// - With the quit flag raised, the driver flushes the deferred changes
    ///   a last time, calls nothing, and is shutting down from then on.
    /// - Otherwise the frame is run: the game loop is built by `factory` if
    ///   there is none yet, the clock is advanced, `fixed_update` is called
    ///   once for each step that the clock finds due (for none while
    ///   paused), `update` is called once, and the frame is closed by
    ///   [`EngineState::end_frame`]. While the callbacks run, the slot of
    ///   the game loop is empty; a game loop that a callback puts there
    ///   takes over with the next frame, in place of the one that ran.
    ///
    /// A frame cannot be run before the graphics backend and the texture
    /// creator are installed, nor while a subsystem is on loan; the call is
    /// then refused and changes nothing. What the two callbacks do to the
    /// subsystems is theirs to decide; a callback that keeps a subsystem on
    /// loan beyond its return makes the frame fail at its end.
    pub fn tick<F: FnOnce() -> G>(
        &mut self,
        factory: F,
        real_delta: i64,
        mouse_world: H::WorldPoint,
    ) -> (r: Result<
        TickReport,
        EngineError,
    >)
        requires
            call_requires(factory, ()),
        ensures
            r matches Ok(report) ==> report.phase == final(self).spec_phase(),
            r is Ok ==> final(self).spec_phase() == phase_for(
                old(self).spec_phase(),
                old(self).engine().quit_flag,
                old(self).engine().is_paused,
            ),
            r is Err ==> final(self).spec_phase() == old(self).spec_phase(),
            // shutting down: nothing happens
            old(self).spec_phase() == Phase::ShuttingDown ==> {
                &&& *final(self) == *old(self)
                &&& r matches Ok(report)
                &&& !report.ran_callbacks
                &&& report.delta == 0
                &&& report.steps == 0
                &&& report.remainder == old(self).engine().clock.spec_accumulator()
            },
            // the quit flag is observed: a last flush, no callback
            old(self).spec_phase() != Phase::ShuttingDown && old(self).engine().quit_flag ==> {
                &&& r is Ok <==> !old(self).engine().world.is_lent() && !old(
                    self,
                ).engine().commands.is_lent() && !old(self).engine().to_despawn.is_lent()
                &&& r is Err ==> r == Err::<TickReport, EngineError>(EngineError::SubsystemHeld)
                    && *final(self) == *old(self)
                &&& r matches Ok(report) ==> {
                    &&& !report.ran_callbacks
                    &&& report.delta == 0
                    &&& report.steps == 0
                    &&& report.remainder == old(self).engine().clock.spec_accumulator()
                    &&& final(self).engine() == (EngineState {
                        world: final(self).engine().world,
                        commands: final(self).engine().commands,
                        to_despawn: final(self).engine().to_despawn,
                        ..old(self).engine()
                    })
                    &&& final(self).engine().world.value()@ == flushed(
                        old(self).engine().world.value()@,
                        old(self).engine().commands.value()@,
                        old(self).engine().to_despawn.value()@,
                    )
                    &&& final(self).engine().commands.value()@ == Seq::<Command>::empty()
                    &&& final(self).engine().to_despawn.value()@ == Seq::<u64>::empty()
                }
            },
            // a frame that cannot start is refused and changes nothing
            old(self).spec_phase() != Phase::ShuttingDown && !old(self).engine().quit_flag ==> (
            match old(self).engine().refusal() {
                Some(e) => r == Err::<TickReport, EngineError>(e) && *final(self) == *old(self),
                None => {
                    // a frame that starts: this much holds whatever the
                    // callbacks did
                    &&& final(self).has_game_loop()
                    &&& r is Ok <==> final(self).engine().is_idle()
                    &&& r is Err ==> r == Err::<TickReport, EngineError>(
                        EngineError::SubsystemHeld,
                    )
                    &&& final(self).engine().renderer is Some
                    &&& final(self).engine().texture_creator == old(self).engine().texture_creator
                    &&& final(self).engine().egui == old(self).engine().egui
                    &&& final(self).engine().clock.spec_previous_time() == old(
                        self,
                    ).engine().clock.spec_previous_time()
                    &&& final(self).engine().clock.spec_fixed_step() == synced_step(
                        old(self).engine().config.value().fixed_dt,
                        old(self).engine().clock.spec_fixed_step(),
                    )
                    &&& final(self).engine().clock.spec_accumulator() == planned_carry(
                        old(self).engine().is_paused,
                        old(self).engine().clock.spec_accumulator(),
                        clamp_delta(
                            real_delta as int,
                            old(self).engine().config.value().max_frame_delta as int,
                        ) as u64,
                        final(self).engine().clock.spec_fixed_step(),
                    )
                    &&& r matches Ok(report) ==> {
                        &&& report.ran_callbacks
                        &&& report.delta == clamp_delta(
                            real_delta as int,
                            old(self).engine().config.value().max_frame_delta as int,
                        )
                        &&& report.steps == planned_steps(
                            old(self).engine().is_paused,
                            old(self).engine().clock.spec_accumulator(),
                            clamp_delta(
                                real_delta as int,
                                old(self).engine().config.value().max_frame_delta as int,
                            ) as u64,
                            final(self).engine().clock.spec_fixed_step(),
                            old(self).engine().config.value().max_fixed_steps,
                        )
                        &&& report.steps <= old(self).engine().config.value().max_fixed_steps
                        &&& report.remainder == final(self).engine().clock.spec_accumulator()
                        &&& final(self).engine().frame == next_frame(old(self).engine().frame)
                        &&& final(self).engine().commands.value()@ == Seq::<Command>::empty()
                        &&& final(self).engine().to_despawn.value()@ == Seq::<u64>::empty()
                        &&& final(self).engine().changes.value()@ == Set::<u64>::empty()
                    }
                    &&& r is Err ==> final(self).engine().frame == old(self).engine().frame
                },
            }),
    {
        if self.phase == Phase::ShuttingDown {
            let remainder: u64 = self.state.clock.accumulator();
            return Ok(
                TickReport {
                    phase: Phase::ShuttingDown,
                    ran_callbacks: false,
                    delta: 0,
                    steps: 0,
                    remainder,
                },
            );
        }
        if self.state.quit_flag {
            match self.state.flush() {
                Ok(()) => {},
                Err(e) => {
                    return Err(e);
                },
            }
            self.phase = Phase::ShuttingDown;
            let remainder: u64 = self.state.clock.accumulator();
            return Ok(
                TickReport {
                    phase: Phase::ShuttingDown,
                    ran_callbacks: false,
                    delta: 0,
                    steps: 0,
                    remainder,
                },
            );
        }
        match self.state.check_ready() {
            Ok(()) => {},
            Err(e) => {
                return Err(e);
            },
        }
        if self.state.game_loop.is_none() {
            self.state.game_loop = Some(factory());
        }
        let plan = self.state.begin_frame(real_delta);
        let phase = if plan.paused {
            Phase::Paused
        } else {
            Phase::Running
        };
        match self.state.game_loop.take() {
            Some(game_loop) => {
                let mut game_loop = game_loop;
                {
                    let mut c = self.state.make_context(plan.delta, mouse_world);
                    let mut step: u32 = 0;
                    while step < plan.steps
                        invariant
                            step <= plan.steps,
                        decreases plan.steps - step,
                    {
                        game_loop.fixed_update(&mut c);
                        step = step + 1;
                    }
                    game_loop.update(&mut c);
                }
                if self.state.game_loop.is_none() {
                    self.state.game_loop = Some(game_loop);
                }
            },
            None => vstd::pervasive::unreached(),
        }
        match self.state.end_frame() {
            Ok(()) => {},
            Err(e) => {
                return Err(e);
            },
        }
        self.phase = phase;
        Ok(
            TickReport {
                phase,
                ran_callbacks: true,
                delta: plan.delta,
                steps: plan.steps,
                remainder: plan.remainder,
            },
        )
    }
}

} // verus!
