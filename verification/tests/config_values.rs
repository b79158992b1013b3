use comfy::config::{DevConfig, GameConfig, RecordingMode, ResolutionConfig, TICKS_PER_SECOND};

#[test]
fn resolution_width_and_height() {
    let physical = ResolutionConfig::Physical(1920, 1080);
    assert_eq!(physical.width(), 1920);
    assert_eq!(physical.height(), 1080);
    let logical = ResolutionConfig::Logical(1106, 526);
    assert_eq!(logical.width(), 1106);
    assert_eq!(logical.height(), 526);
}

#[test]
fn default_game_config() {
    let config = GameConfig::default();
    assert_eq!(config.game_name, "TODO_GAME_NAME");
    assert_eq!(config.version, "TODO_VERSION");
    assert_eq!(config.resolution.width(), 1920);
    assert_eq!(config.resolution.height(), 1080);
    assert!(matches!(config.resolution, ResolutionConfig::Physical(_, _)));
    assert!(!config.bloom_enabled);
    assert!(!config.lighting_enabled);
    assert!(!config.enable_dynamic_camera);
    assert_eq!(config.scroll_speed, 7000);
    assert!(!config.music_enabled);
    assert!(config.show_combat_text);
    assert!(config.spawn_exp);
    assert_eq!(config.fixed_dt * 240, TICKS_PER_SECOND);
    assert_eq!(config.max_frame_delta * 4, TICKS_PER_SECOND);
    assert_eq!(config.max_fixed_steps, 60);
}

#[test]
fn default_dev_config() {
    let dev = DevConfig::default();
    assert!(dev.show_fps);
    assert!(dev.orig_props);
    assert_eq!(dev.recording_mode, RecordingMode::Landscape);
    assert!(!dev.show_lighting_config);
    assert!(!dev.show_buffers);
    assert!(!dev.show_editor);
    assert!(!dev.show_tiktok_overlay);
    assert!(!dev.log_collisions);
    assert!(!dev.show_ai_target);
    assert!(!dev.show_linear_acc_target);
    assert!(!dev.show_angular_acc_target);
    assert!(!dev.draw_colliders);
    assert!(!dev.draw_collision_marks);
    assert!(!dev.show_debug_bullets);
    assert!(!dev.collider_outlines);
    assert!(!dev.show_debug);
}
