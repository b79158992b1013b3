//! Configuration values: plain data, readable and writable at run time.

use vstd::prelude::*;

verus! {

/// Number of ticks in one second. Every duration in this crate is a whole
/// number of ticks; 1/24, 1/30, 1/60, 1/120, 1/144 and 1/240 of a second are
/// all whole numbers of ticks.
pub const TICKS_PER_SECOND: u64 = 705_600_000;

/// How long a floating combat text stays on screen: four tenths of a second.
pub const COMBAT_TEXT_LIFETIME: u64 = 282_240_000;

/// The length of a fixed simulation step where none is configured: one
/// 240th of a second.
pub const DEFAULT_FIXED_DT: u64 = 2_940_000;

/// The smallest width or height a window surface may be resized to.
pub const MIN_SURFACE_EXTENT: u32 = 1;

/// Window resolution, either in physical pixels or in logical points.
#[derive(Copy, Clone, Debug)]
pub enum ResolutionConfig {
    Physical(u32, u32),
    Logical(u32, u32),
}

impl ResolutionConfig {
    /// The width, whichever unit it is measured in.
    pub open spec fn spec_width(&self) -> u32 {
        match *self {
            ResolutionConfig::Physical(w, _) => w,
            ResolutionConfig::Logical(w, _) => w,
        }
    }

    /// The height, whichever unit it is measured in.
    pub open spec fn spec_height(&self) -> u32 {
        match *self {
            ResolutionConfig::Physical(_, h) => h,
            ResolutionConfig::Logical(_, h) => h,
        }
    }

    /// The same kind of resolution with other dimensions.
    pub open spec fn spec_with_size(&self, width: u32, height: u32) -> ResolutionConfig {
        match *self {
            ResolutionConfig::Physical(_, _) => ResolutionConfig::Physical(width, height),
            ResolutionConfig::Logical(_, _) => ResolutionConfig::Logical(width, height),
        }
    }

    #[verifier::when_used_as_spec(spec_width)]
    pub fn width(&self) -> (w: u32)
        ensures
            w == self.spec_width(),
    {
        match self {
            Self::Physical(w, _) => *w,
            Self::Logical(w, _) => *w,
        }
    }

    #[verifier::when_used_as_spec(spec_height)]
    pub fn height(&self) -> (h: u32)
        ensures
            h == self.spec_height(),
    {
        match self {
            Self::Physical(_, h) => *h,
            Self::Logical(_, h) => *h,
        }
    }

    /// Keeps the unit and replaces both dimensions.
    pub fn with_size(&self, width: u32, height: u32) -> (r: ResolutionConfig)
        ensures
            r == self.spec_with_size(width, height),
            r.spec_width() == width,
            r.spec_height() == height,
    {
        match self {
            Self::Physical(_, _) => ResolutionConfig::Physical(width, height),
            Self::Logical(_, _) => ResolutionConfig::Logical(width, height),
        }
    }
}

/// The settings of one game. A plain value: the engine reads it every frame,
/// and game code may change it while the game runs.
#[derive(Copy, Clone, Debug)]
pub struct GameConfig {
    pub game_name: &'static str,
    pub version: &'static str,
    pub resolution: ResolutionConfig,
    pub bloom_enabled: bool,
    pub lighting_enabled: bool,
    pub enable_dynamic_camera: bool,
    pub dev: DevConfig,
    /// Camera scroll speed, in thousandths of a world unit per scroll step.
    pub scroll_speed: u32,
    pub music_enabled: bool,
    pub show_combat_text: bool,
    pub spawn_exp: bool,
    /// The length of one fixed simulation step, in ticks. Zero stands for
    /// no length configured.
    pub fixed_dt: u64,
    /// The longest frame delta that is taken at face value, in ticks.
    pub max_frame_delta: u64,
    /// The most fixed steps that one frame may run.
    pub max_fixed_steps: u32,
}

impl GameConfig {
    /// The settings a game starts from: a window of 1920 by 1080 physical
    /// pixels, 240 fixed steps to the second, frame deltas taken at face
    /// value up to a quarter of a second and at most 60 fixed steps a frame.
    pub open spec fn spec_default() -> GameConfig {
        GameConfig {
            game_name: "TODO_GAME_NAME",
            version: "TODO_VERSION",
            resolution: ResolutionConfig::Physical(1920, 1080),
            bloom_enabled: false,
            lighting_enabled: false,
            enable_dynamic_camera: false,
            dev: DevConfig::spec_default(),
            scroll_speed: 7000,
            music_enabled: false,
            show_combat_text: true,
            spawn_exp: true,
            fixed_dt: DEFAULT_FIXED_DT,
            max_frame_delta: 176_400_000,
            max_fixed_steps: 60,
        }
    }
}

impl Default for GameConfig {
    fn default() -> (c: Self)
        ensures
            c == GameConfig::spec_default(),
            c.fixed_dt * 240 == TICKS_PER_SECOND,
            c.max_frame_delta * 4 == TICKS_PER_SECOND,
    {
        let resolution = ResolutionConfig::Physical(1920, 1080);
        Self {
            game_name: "TODO_GAME_NAME",
            version: "TODO_VERSION",
            resolution,
            bloom_enabled: false,
            lighting_enabled: false,
            dev: DevConfig::default(),
            enable_dynamic_camera: false,
            scroll_speed: 7000,
            music_enabled: false,
            show_combat_text: true,
            spawn_exp: true,
            fixed_dt: DEFAULT_FIXED_DT,
            max_frame_delta: 176_400_000,
            max_fixed_steps: 60,
        }
    }
}

/// What a screen recording is framed for.
#[derive(Copy, Clone, Debug, PartialEq, Eq, Structural)]
pub enum RecordingMode {
    Off,
    Tiktok,
    Landscape,
}

/// Developer and debugging switches.
#[derive(Copy, Clone, Debug)]
pub struct DevConfig {
    pub show_lighting_config: bool,
    pub show_buffers: bool,
    pub show_fps: bool,
    pub show_editor: bool,
    pub show_tiktok_overlay: bool,
    pub log_collisions: bool,
    pub show_ai_target: bool,
    pub show_linear_acc_target: bool,
    pub show_angular_acc_target: bool,
    pub draw_colliders: bool,
    pub draw_collision_marks: bool,
    pub show_debug_bullets: bool,
    pub orig_props: bool,
    pub collider_outlines: bool,
    pub show_debug: bool,
    pub recording_mode: RecordingMode,
}

impl DevConfig {
    /// The switches a fresh development build starts with: the frame-rate
    /// display and `orig_props` are on, recording is framed for landscape,
    /// everything else is off.
    pub open spec fn spec_default() -> DevConfig {
        DevConfig {
            show_lighting_config: false,
            show_buffers: false,
            show_fps: true,
            show_editor: false,
            show_tiktok_overlay: false,
            log_collisions: false,
            show_ai_target: false,
            show_linear_acc_target: false,
            show_angular_acc_target: false,
            draw_colliders: false,
            draw_collision_marks: false,
            show_debug_bullets: false,
            orig_props: true,
            collider_outlines: false,
            show_debug: false,
            recording_mode: RecordingMode::Landscape,
        }
    }
}

impl Default for DevConfig {
    fn default() -> (d: Self)
        ensures
            d == DevConfig::spec_default(),
    {
        Self {
            show_lighting_config: false,
            show_buffers: false,
            show_editor: false,
            log_collisions: false,
            show_ai_target: false,
            show_linear_acc_target: false,
            show_angular_acc_target: false,
            show_tiktok_overlay: false,
            show_debug_bullets: false,
            show_fps: true,
            draw_colliders: false,
            draw_collision_marks: false,
            collider_outlines: false,
            orig_props: true,
            show_debug: false,
            recording_mode: RecordingMode::Landscape,
        }
    }
}

} // verus!
