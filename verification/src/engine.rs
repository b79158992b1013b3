//! The engine state and the per-frame view of it that game logic receives.

use crate::changes::ChangeTracker;
use crate::clock::{carry_over, clamp_delta, steps_due, ClockError, FrameClock};
use crate::commands::{flush, flushed, Command, CommandBuffer, DespawnQueue};
use crate::config::{GameConfig, DEFAULT_FIXED_DT, MIN_SURFACE_EXTENT};
use crate::cooldowns::{Cooldown, Cooldowns};
use crate::flags::FlagSet;
use crate::guarded::Guarded;
use crate::notifications::{Notification, Notifications};
use crate::stats::MovingStats;
use crate::world::World;
use vstd::prelude::*;
use vstd::string::*;

verus! {

/// The collaborators that the host supplies. The core carries a value of
/// each type and hands it to game logic; it never looks inside one.
pub trait Host {
    /// The graphics backend.
    type Renderer;

    /// What creates textures for the graphics backend.
    type TextureCreator;

    /// The buffer that draw calls are collected in.
    type Draw;

    /// The extension store: side data of any type that host code attaches
    /// to the engine.
    type Meta;

    /// The cache of decoded images.
    type ImageLoader;

    /// The parameters of the global lighting.
    type Lighting;

    /// A position in the world, as the pointer has one.
    type WorldPoint;
}

/// The values of the host's own that a fresh engine state starts with.
pub struct HostParts<H: Host> {
    pub cached_loader: H::ImageLoader,
    pub draw: H::Draw,
    pub lighting: H::Lighting,
    pub meta: H::Meta,
}

/// Why the engine cannot do what was asked of it. Each of these is a bug in
/// the host or in game code, not a condition to recover from.
#[derive(Copy, Clone, Debug, PartialEq, Eq, Structural)]
pub enum EngineError {
    /// No graphics backend was installed yet.
    RendererMissing,
    /// No texture creator was installed yet.
    TextureCreatorMissing,
    /// A subsystem is still on loan to a writer.
    SubsystemHeld,
}

/// The size that is handed to the graphics backend for a requested size:
/// each dimension is raised to the smallest extent a surface can have.
pub open spec fn clamped_extent(requested: u32) -> u32 {
    if requested < MIN_SURFACE_EXTENT {
        MIN_SURFACE_EXTENT
    } else {
        requested
    }
}

/// The step length that the clock runs with for a configured length: the
/// configured one, or the current one where the configuration holds zero.
pub open spec fn synced_step(configured: u64, current: u64) -> u64 {
    if configured > 0 {
        configured
    } else {
        current
    }
}

/// The frame counter after one more frame. It starts over after the last
/// value it can hold.
pub open spec fn next_frame(frame: u64) -> u64 {
    if frame == u64::MAX {
        0
    } else {
        (frame + 1) as u64
    }
}

/// The sole owner of the state of one running engine.
pub struct EngineState<H: Host, G> {
    pub cached_loader: Guarded<H::ImageLoader>,
    pub draw: Guarded<H::Draw>,
    pub egui: egui::Context,
    pub frame: u64,
    pub flags: Guarded<FlagSet>,
    pub dt_stats: Guarded<MovingStats>,
    pub fps_stats: Guarded<MovingStats>,
    pub renderer: Option<H::Renderer>,
    pub texture_creator: Option<H::TextureCreator>,
    pub lighting: H::Lighting,
    pub meta: Guarded<H::Meta>,
    pub world: Guarded<World>,
    pub commands: Guarded<CommandBuffer>,
    pub config: Guarded<GameConfig>,
    pub cooldowns: Guarded<Cooldowns>,
    pub changes: Guarded<ChangeTracker>,
    pub notifications: Guarded<Notifications>,
    /// The game loop, between two frames. While a frame runs the slot is
    /// empty: the game loop is at work.
    pub game_loop: Option<G>,
    pub is_paused: bool,
    pub show_pause_menu: bool,
    pub quit_flag: bool,
    pub to_despawn: Guarded<DespawnQueue>,
    pub clock: FrameClock,
}

/// What game logic receives once a frame: access to every subsystem of the
/// engine state at once. It is built for one frame and gone before the
/// deferred changes are flushed.
pub struct EngineContext<'a, H: Host, G> {
    pub cached_loader: &'a mut Guarded<H::ImageLoader>,
    pub renderer: &'a mut H::Renderer,
    pub texture_creator: &'a H::TextureCreator,
    pub draw: &'a mut Guarded<H::Draw>,
    pub egui: &'a egui::Context,
    /// Whether the UI wants the pointer this frame, so that the game can
    /// keep its hands off it.
    pub egui_wants_mouse: bool,
    /// The time this frame covers, in ticks.
    pub delta: u64,
    pub frame: u64,
    pub dt_stats: &'a mut Guarded<MovingStats>,
    pub fps_stats: &'a mut Guarded<MovingStats>,
    /// Where the pointer is in the world.
    pub mouse_world: H::WorldPoint,
    pub flags: &'a mut Guarded<FlagSet>,
    pub lighting: &'a mut H::Lighting,
    pub meta: &'a mut Guarded<H::Meta>,
    pub world: &'a mut Guarded<World>,
    pub commands: &'a mut Guarded<CommandBuffer>,
    pub config: &'a mut Guarded<GameConfig>,
    /// The slot of the game loop. It is empty while the game loop is at
    /// work; a game loop put here takes over with the next frame.
    pub game_loop: &'a mut Option<G>,
    pub cooldowns: &'a mut Guarded<Cooldowns>,
    pub changes: &'a mut Guarded<ChangeTracker>,
    pub notifications: &'a mut Guarded<Notifications>,
    pub is_paused: &'a mut bool,
    pub show_pause_menu: &'a mut bool,
    pub quit_flag: &'a mut bool,
    pub to_despawn: &'a mut Guarded<DespawnQueue>,
}

/// The logic of a game, supplied by the host and driven by the engine.
pub trait GameLoop<H: Host>: Sized {
    /// Draws figures about the running game into a debugging overlay. The
    /// default draws nothing.
    fn performance_metrics(&self, _world: &mut World, _ui: &mut egui::Ui) {
    }

    /// Runs once a frame, after the fixed steps of that frame.
    fn update(&mut self, c: &mut EngineContext<'_, H, Self>);

    /// Runs once for each fixed step of the simulation.
    fn fixed_update(&mut self, c: &mut EngineContext<'_, H, Self>);
}

impl<H: Host, G> EngineState<H, G> {
    /// Whether no subsystem is on loan.
    pub open spec fn is_idle(&self) -> bool {
        &&& !self.cached_loader.is_lent()
        &&& !self.draw.is_lent()
        &&& !self.flags.is_lent()
        &&& !self.dt_stats.is_lent()
        &&& !self.fps_stats.is_lent()
        &&& !self.meta.is_lent()
        &&& !self.world.is_lent()
        &&& !self.commands.is_lent()
        &&& !self.config.is_lent()
        &&& !self.cooldowns.is_lent()
        &&& !self.changes.is_lent()
        &&& !self.notifications.is_lent()
        &&& !self.to_despawn.is_lent()
    }

    /// Why no view of the state can be built now, if anything stands in the
    /// way: a missing graphics backend first, then a missing texture
    /// creator, then a subsystem that is on loan.
    pub open spec fn refusal(&self) -> Option<EngineError> {
        if self.renderer is None {
            Some(EngineError::RendererMissing)
        } else if self.texture_creator is None {
            Some(EngineError::TextureCreatorMissing)
        } else if !self.is_idle() {
            Some(EngineError::SubsystemHeld)
        } else {
            None
        }
    }

    /// A fresh state for a game configured by `config`, started at wall time
    /// `now`: frame zero, an empty world, nothing queued, no timers, no
    /// game loop, not paused, no backend installed yet. `host` holds the
    /// host's own values. The configuration is stored as it is given; the
    /// clock runs with the configured step, or with the default step where
    /// the configuration holds zero.
    pub fn new(config: GameConfig, now: u64, host: HostParts<H>) -> (s: Self)
        ensures
            s.is_idle(),
            s.frame == 0,
            s.renderer is None,
            s.texture_creator is None,
            s.game_loop is None,
            !s.is_paused,
            !s.show_pause_menu,
            !s.quit_flag,
            s.cached_loader.value() == host.cached_loader,
            s.draw.value() == host.draw,
            s.lighting == host.lighting,
            s.meta.value() == host.meta,
            s.config.value() == config,
            s.world.value()@ == Map::<u64, Map<u32, u64>>::empty(),
            s.commands.value()@ == Seq::<Command>::empty(),
            s.to_despawn.value()@ == Seq::<u64>::empty(),
            s.cooldowns.value()@ == Map::<u64, Cooldown>::empty(),
            s.changes.value()@ == Set::<u64>::empty(),
            s.notifications.value()@ == Seq::<Notification>::empty(),
            s.notifications.value().spec_now() == 0,
            s.flags.value()@ == Set::<Seq<char>>::empty(),
            s.dt_stats.value()@ == Seq::<u64>::empty(),
            s.dt_stats.value().spec_capacity() == 20,
            s.fps_stats.value()@ == Seq::<u64>::empty(),
            s.fps_stats.value().spec_capacity() == 100,
            s.clock.spec_fixed_step() == synced_step(config.fixed_dt, DEFAULT_FIXED_DT),
            s.clock.spec_max_delta() == config.max_frame_delta,
            s.clock.spec_max_steps() == config.max_fixed_steps,
            s.clock.spec_accumulator() == 0,
            s.clock.spec_previous_time() == now,
    {
        let step: u64 = if config.fixed_dt > 0 {
            config.fixed_dt
        } else {
            DEFAULT_FIXED_DT
        };
        let clock = match FrameClock::new(
            step,
            config.max_frame_delta,
            config.max_fixed_steps,
            now,
        ) {
            Ok(clock) => clock,
            Err(_) => vstd::pervasive::unreached(),
        };
        Self {
            cached_loader: Guarded::new(host.cached_loader),
            draw: Guarded::new(host.draw),
            egui: egui::Context::default(),
            frame: 0,
            flags: Guarded::new(FlagSet::new()),
            dt_stats: Guarded::new(MovingStats::new(20)),
            fps_stats: Guarded::new(MovingStats::new(100)),
            renderer: None,
            texture_creator: None,
            lighting: host.lighting,
            meta: Guarded::new(host.meta),
            world: Guarded::new(World::new()),
            commands: Guarded::new(CommandBuffer::new()),
            config: Guarded::new(config),
            cooldowns: Guarded::new(Cooldowns::new()),
            changes: Guarded::new(ChangeTracker::new()),
            notifications: Guarded::new(Notifications::new()),
            game_loop: None,
            is_paused: false,
            show_pause_menu: false,
            quit_flag: false,
            to_despawn: Guarded::new(DespawnQueue::new()),
            clock,
        }
    }

    /// Whether no subsystem is on loan.
    pub fn idle(&self) -> (b: bool)
        ensures
            b == self.is_idle(),
    {
        self.cached_loader.is_available() && self.draw.is_available()
            && self.flags.is_available() && self.dt_stats.is_available()
            && self.fps_stats.is_available() && self.meta.is_available()
            && self.world.is_available() && self.commands.is_available()
            && self.config.is_available() && self.cooldowns.is_available()
            && self.changes.is_available() && self.notifications.is_available()
            && self.to_despawn.is_available()
    }

    /// Tests whether a view of the state can be built now, and says what
    /// stands in the way where it cannot.
    pub fn check_ready(&self) -> (r: Result<(), EngineError>)
        ensures
            r == (match self.refusal() {
                Some(e) => Err::<(), EngineError>(e),
                None => Ok::<(), EngineError>(()),
            }),
    {
        if self.renderer.is_none() {
            Err(EngineError::RendererMissing)
        } else if self.texture_creator.is_none() {
            Err(EngineError::TextureCreatorMissing)
        } else if !self.idle() {
            Err(EngineError::SubsystemHeld)
        } else {
            Ok(())
        }
    }

    /// Builds the view of the state for one frame that covers `delta` ticks,
    /// in which the UI wants the pointer or not, as `egui_wants_mouse` says,
    /// and in which the pointer is at `mouse_world`.
    ///
    /// The view refers to the subsystems themselves: what game logic does
    /// through the view is what the state holds once the view is gone. The
    /// frame counter, the clock and the texture creator cannot be changed
    /// through it.
    pub fn view_with<'a>(
        &'a mut self,
        delta: u64,
        egui_wants_mouse: bool,
        mouse_world: H::WorldPoint,
    ) -> (c: EngineContext<'a, H, G>)
        requires
            old(self).refusal() is None,
        ensures
            c.egui_wants_mouse == egui_wants_mouse,
            c.mouse_world == mouse_world,
            c.delta == delta,
            c.frame == old(self).frame,
            *c.egui == old(self).egui,
            *c.texture_creator == old(self).texture_creator->0,
            *c.renderer == old(self).renderer->0,
            *c.cached_loader == old(self).cached_loader,
            *c.draw == old(self).draw,
            *c.dt_stats == old(self).dt_stats,
            *c.fps_stats == old(self).fps_stats,
            *c.flags == old(self).flags,
            *c.lighting == old(self).lighting,
            *c.meta == old(self).meta,
            *c.world == old(self).world,
            *c.commands == old(self).commands,
            *c.config == old(self).config,
            *c.game_loop == old(self).game_loop,
            *c.cooldowns == old(self).cooldowns,
            *c.changes == old(self).changes,
            *c.notifications == old(self).notifications,
            *c.is_paused == old(self).is_paused,
            *c.show_pause_menu == old(self).show_pause_menu,
            *c.quit_flag == old(self).quit_flag,
            *c.to_despawn == old(self).to_despawn,
            final(self).renderer == Some(*final(c.renderer)),
            final(self).cached_loader == *final(c.cached_loader),
            final(self).draw == *final(c.draw),
            final(self).dt_stats == *final(c.dt_stats),
            final(self).fps_stats == *final(c.fps_stats),
            final(self).flags == *final(c.flags),
            final(self).lighting == *final(c.lighting),
            final(self).meta == *final(c.meta),
            final(self).world == *final(c.world),
            final(self).commands == *final(c.commands),
            final(self).config == *final(c.config),
            final(self).game_loop == *final(c.game_loop),
            final(self).cooldowns == *final(c.cooldowns),
            final(self).changes == *final(c.changes),
            final(self).notifications == *final(c.notifications),
            final(self).is_paused == *final(c.is_paused),
            final(self).show_pause_menu == *final(c.show_pause_menu),
            final(self).quit_flag == *final(c.quit_flag),
            final(self).to_despawn == *final(c.to_despawn),
            final(self).frame == old(self).frame,
            final(self).egui == old(self).egui,
            final(self).texture_creator == old(self).texture_creator,
            final(self).clock == old(self).clock,
    {
        let frame = self.frame;
        let renderer = match &mut self.renderer {
            Some(renderer) => renderer,
            None => vstd::pervasive::unreached(),
        };
        let texture_creator = match &self.texture_creator {
            Some(texture_creator) => texture_creator,
            None => vstd::pervasive::unreached(),
        };
        EngineContext {
            cached_loader: &mut self.cached_loader,
            renderer,
            texture_creator,
            draw: &mut self.draw,
            egui: &self.egui,
            egui_wants_mouse,
            delta,
            frame,
            dt_stats: &mut self.dt_stats,
            fps_stats: &mut self.fps_stats,
            mouse_world,
            flags: &mut self.flags,
            lighting: &mut self.lighting,
            meta: &mut self.meta,
            world: &mut self.world,
            commands: &mut self.commands,
            config: &mut self.config,
            game_loop: &mut self.game_loop,
            cooldowns: &mut self.cooldowns,
            changes: &mut self.changes,
            notifications: &mut self.notifications,
            is_paused: &mut self.is_paused,
            show_pause_menu: &mut self.show_pause_menu,
            quit_flag: &mut self.quit_flag,
            to_despawn: &mut self.to_despawn,
        }
    }

    /// Builds the view of the state for one frame that covers `delta` ticks
    /// and in which the pointer is at `mouse_world`. Whether the UI wants the
    /// pointer is asked of the UI context; the rest is as in
    /// [`EngineState::view_with`].
    pub fn make_context<'a>(&'a mut self, delta: u64, mouse_world: H::WorldPoint) -> (c:
        EngineContext<'a, H, G>)
        requires
            old(self).refusal() is None,
        ensures
            c.mouse_world == mouse_world,
            c.delta == delta,
            c.frame == old(self).frame,
            *c.egui == old(self).egui,
            *c.texture_creator == old(self).texture_creator->0,
            *c.renderer == old(self).renderer->0,
            *c.cached_loader == old(self).cached_loader,
            *c.draw == old(self).draw,
            *c.dt_stats == old(self).dt_stats,
            *c.fps_stats == old(self).fps_stats,
            *c.flags == old(self).flags,
            *c.lighting == old(self).lighting,
            *c.meta == old(self).meta,
            *c.world == old(self).world,
            *c.commands == old(self).commands,
            *c.config == old(self).config,
            *c.game_loop == old(self).game_loop,
            *c.cooldowns == old(self).cooldowns,
            *c.changes == old(self).changes,
            *c.notifications == old(self).notifications,
            *c.is_paused == old(self).is_paused,
            *c.show_pause_menu == old(self).show_pause_menu,
            *c.quit_flag == old(self).quit_flag,
            *c.to_despawn == old(self).to_despawn,
            final(self).renderer == Some(*final(c.renderer)),
            final(self).cached_loader == *final(c.cached_loader),
            final(self).draw == *final(c.draw),
            final(self).dt_stats == *final(c.dt_stats),
            final(self).fps_stats == *final(c.fps_stats),
            final(self).flags == *final(c.flags),
            final(self).lighting == *final(c.lighting),
            final(self).meta == *final(c.meta),
            final(self).world == *final(c.world),
            final(self).commands == *final(c.commands),
            final(self).config == *final(c.config),
            final(self).game_loop == *final(c.game_loop),
            final(self).cooldowns == *final(c.cooldowns),
            final(self).changes == *final(c.changes),
            final(self).notifications == *final(c.notifications),
            final(self).is_paused == *final(c.is_paused),
            final(self).show_pause_menu == *final(c.show_pause_menu),
            final(self).quit_flag == *final(c.quit_flag),
            final(self).to_despawn == *final(c.to_despawn),
            final(self).frame == old(self).frame,
            final(self).egui == old(self).egui,
            final(self).texture_creator == old(self).texture_creator,
            final(self).clock == old(self).clock,
    {
        let egui_wants_mouse = self.egui.wants_pointer_input();
        self.view_with(delta, egui_wants_mouse, mouse_world)
    }

    /// The graphics backend, once it is installed.
    pub fn renderer(&mut self) -> (r: &mut H::Renderer)
        requires
            old(self).renderer is Some,
        ensures
            *r == old(self).renderer->0,
            *final(self) == (EngineState { renderer: Some(*final(r)), ..*old(self) }),
    {
        match &mut self.renderer {
            Some(renderer) => renderer,
            None => vstd::pervasive::unreached(),
        }
    }

    /// The size to hand to the graphics backend when the window was resized
    /// to `width` by `height`: a dimension of zero is raised to the smallest
    /// extent a surface can have.
    pub fn resize(&self, width: u32, height: u32) -> (size: (u32, u32))
        requires
            self.renderer is Some,
        ensures
            size == (clamped_extent(width), clamped_extent(height)),
            size.0 >= MIN_SURFACE_EXTENT,
            size.1 >= MIN_SURFACE_EXTENT,
    {
        let w: u32 = if width < MIN_SURFACE_EXTENT {
            MIN_SURFACE_EXTENT
        } else {
            width
        };
        let h: u32 = if height < MIN_SURFACE_EXTENT {
            MIN_SURFACE_EXTENT
        } else {
            height
        };
        (w, h)
    }

    /// Whether the game asked to quit.
    pub fn quit_flag(&self) -> (b: bool)
        ensures
            b == self.quit_flag,
    {
        self.quit_flag
    }

    /// The window title: the name of the game and the name of the engine.
    pub fn title(&self) -> (t: String)
        requires
            !self.config.is_lent(),
        ensures
            t@ == self.config.value().game_name@ + " (COMFY ENGINE)"@,
    {
        String::from_str(self.config.get().game_name).concat(" (COMFY ENGINE)")
    }

    /// Whether `after` is `before` but for the clock.
    pub open spec fn same_but_clock(before: &Self, after: &Self) -> bool {
        *after == (EngineState { clock: after.clock, ..*before })
    }

    /// Whether `after` is `before` but for the frame counter, the world, the
    /// two queues of deferred changes and the change tracker.
    pub open spec fn same_but_flushed(before: &Self, after: &Self) -> bool {
        *after == (EngineState {
            frame: after.frame,
            world: after.world,
            commands: after.commands,
            to_despawn: after.to_despawn,
            changes: after.changes,
            ..*before
        })
    }

    /// Opens a frame that comes `real_delta` ticks after the last one.
    ///
    /// The clock takes its step length and its limits from the
    /// configuration as it stands now; a configured step of zero leaves the
    /// step length as it was. Unless the game is paused, the clock then
    /// accumulates the delta and says how many fixed steps this frame runs.
    /// While the game is paused no time is accumulated and no step is run.
    pub fn begin_frame(&mut self, real_delta: i64) -> (plan: FramePlan)
        requires
            !old(self).config.is_lent(),
        ensures
            Self::same_but_clock(old(self), final(self)),
            final(self).clock.spec_previous_time() == old(self).clock.spec_previous_time(),
            final(self).clock.spec_max_delta() == old(self).config.value().max_frame_delta,
            final(self).clock.spec_max_steps() == old(self).config.value().max_fixed_steps,
            final(self).clock.spec_fixed_step() == synced_step(
                old(self).config.value().fixed_dt,
                old(self).clock.spec_fixed_step(),
            ),
            final(self).clock.spec_accumulator() == plan.remainder,
            plan.paused == old(self).is_paused,
            plan.delta == clamp_delta(
                real_delta as int,
                old(self).config.value().max_frame_delta as int,
            ),
            plan.steps == planned_steps(
                old(self).is_paused,
                old(self).clock.spec_accumulator(),
                plan.delta,
                final(self).clock.spec_fixed_step(),
                old(self).config.value().max_fixed_steps,
            ),
            plan.remainder == planned_carry(
                old(self).is_paused,
                old(self).clock.spec_accumulator(),
                plan.delta,
                final(self).clock.spec_fixed_step(),
            ),
            plan.steps <= old(self).config.value().max_fixed_steps,
            plan.remainder < final(self).clock.spec_fixed_step(),
    {
        let config = *self.config.get();
        let step: u64 = if config.fixed_dt > 0 {
            config.fixed_dt
        } else {
            self.clock.fixed_step()
        };
        let _ = self.clock.set_fixed_step(step);
        self.clock.set_limits(config.max_frame_delta, config.max_fixed_steps);
        let delta: u64 = self.clock.clamp(real_delta);
        let paused = self.is_paused;
        if paused {
            let remainder: u64 = self.clock.accumulator();
            FramePlan { paused, delta, steps: 0, remainder }
        } else {
            let advance = self.clock.advance(real_delta);
            FramePlan { paused, delta, steps: advance.steps, remainder: advance.remainder }
        }
    }

    /// Applies the deferred changes to the world: every queued command in
    /// the order it was queued, then every queued removal. Where the world
    /// or one of the two queues is on loan, nothing is applied.
    pub fn flush(&mut self) -> (r: Result<(), EngineError>)
        ensures
            r is Ok <==> !old(self).world.is_lent() && !old(self).commands.is_lent() && !old(
                self,
            ).to_despawn.is_lent(),
            r is Err ==> r == Err::<(), EngineError>(EngineError::SubsystemHeld) && *final(self)
                == *old(self),
            r is Ok ==> {
                &&& *final(self) == (EngineState {
                    world: final(self).world,
                    commands: final(self).commands,
                    to_despawn: final(self).to_despawn,
                    ..*old(self)
                })
                &&& !final(self).world.is_lent()
                &&& !final(self).commands.is_lent()
                &&& !final(self).to_despawn.is_lent()
                &&& final(self).world.value()@ == flushed(
                    old(self).world.value()@,
                    old(self).commands.value()@,
                    old(self).to_despawn.value()@,
                )
                &&& final(self).commands.value()@ == Seq::<Command>::empty()
                &&& final(self).to_despawn.value()@ == Seq::<u64>::empty()
            },
    {
        if !(self.world.is_available() && self.commands.is_available()
            && self.to_despawn.is_available()) {
            return Err(EngineError::SubsystemHeld);
        }
        let world = self.world.get_mut();
        let commands = self.commands.get_mut();
        let despawns = self.to_despawn.get_mut();
        flush(world, commands, despawns);
        Ok(())
    }

    /// Closes a frame, at the one point where deferred changes reach the
    /// world: the queues are flushed, the change tracker is cleared for the
    /// next frame, and the frame counter goes up by one.
    ///
    /// A subsystem that is still on loan at this point was kept beyond the
    /// frame it was lent for. The frame is then not closed and nothing is
    /// changed.
    pub fn end_frame(&mut self) -> (r: Result<(), EngineError>)
        ensures
            r is Ok <==> old(self).is_idle(),
            r is Err ==> r == Err::<(), EngineError>(EngineError::SubsystemHeld) && *final(self)
                == *old(self),
            r is Ok ==> {
                &&& Self::same_but_flushed(old(self), final(self))
                &&& final(self).is_idle()
                &&& final(self).frame == next_frame(old(self).frame)
                &&& final(self).world.value()@ == flushed(
                    old(self).world.value()@,
                    old(self).commands.value()@,
                    old(self).to_despawn.value()@,
                )
                &&& final(self).commands.value()@ == Seq::<Command>::empty()
                &&& final(self).to_despawn.value()@ == Seq::<u64>::empty()
                &&& final(self).changes.value()@ == Set::<u64>::empty()
            },
    {
        if !self.idle() {
            return Err(EngineError::SubsystemHeld);
        }
        let _ = self.flush();
        self.changes.get_mut().clear();
        self.frame = if self.frame == u64::MAX {
            0
        } else {
            self.frame + 1
        };
        Ok(())
    }
}

/// What [`EngineState::begin_frame`] decides for one frame.
#[derive(Copy, Clone, Debug, PartialEq, Eq, Structural)]
pub struct FramePlan {
    /// Whether the game is paused for this frame.
    pub paused: bool,
    /// The time this frame covers, in ticks, after clamping.
    pub delta: u64,
    /// How many fixed steps to run.
    pub steps: u32,
    /// Ticks left in the accumulator, below one fixed step.
    pub remainder: u64,
}

/// The number of fixed steps of a frame: none while paused, and otherwise
/// what the clock finds due in the accumulated time.
pub open spec fn planned_steps(
    paused: bool,
    accumulator: u64,
    delta: u64,
    fixed_step: u64,
    max_steps: u32,
) -> int {
    if paused {
        0
    } else {
        steps_due(
            carry_over(accumulator as int, fixed_step as int) + delta,
            fixed_step as int,
            max_steps as int,
        )
    }
}

/// The accumulator after a frame was opened: while paused what it held, and
/// otherwise what the clock carries over from the accumulated time. Either
/// way it is below one step of the length that is in force.
pub open spec fn planned_carry(paused: bool, accumulator: u64, delta: u64, fixed_step: u64) -> int {
    if paused {
        carry_over(accumulator as int, fixed_step as int)
    } else {
        carry_over(
            carry_over(accumulator as int, fixed_step as int) + delta,
            fixed_step as int,
        )
    }
}

} // verus!
