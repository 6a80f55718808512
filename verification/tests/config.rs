use cosmic_audio_bg::config::{
    default_fps_ac, default_fps_battery, default_shader, default_true, frame_period_ms, Config,
    MachineOverride, OutputMode, PowerConfig, VisualizationMode, MAX_FPS, MIN_FPS,
};

fn empty_override() -> MachineOverride {
    MachineOverride {
        shader_path: None,
        fps_ac: None,
        fps_battery: None,
        audio_sensitivity_bits: None,
        output: None,
        visualization: None,
    }
}

#[test]
fn shader_flag_tells_modes_apart() {
    assert_eq!(VisualizationMode::Stripes.shader_flag(), 0);
    assert_eq!(VisualizationMode::Composite.shader_flag(), 1);
}

#[test]
fn default_visualization_is_stripes() {
    let config = Config::default();
    assert_eq!(config.visualization, VisualizationMode::Stripes);
    assert_eq!(config.visualization.shader_flag(), 0);
    assert_eq!(VisualizationMode::default(), VisualizationMode::Stripes);
}

#[test]
fn default_config_holds_documented_values() {
    let config = Config::default();
    assert_eq!(config.shader_path, "/usr/share/cosmic-audio-bg/shaders/sinusoids.wgsl");
    assert_eq!(config.fps_ac, 60);
    assert_eq!(config.fps_battery, 30);
    assert_eq!(f32::from_bits(config.audio_sensitivity_bits), 1.0);
    assert_eq!(f32::from_bits(config.idle_energy_threshold_bits), 0.02);
    assert_eq!(f32::from_bits(config.idle_seconds_bits), 3.0);
    assert_eq!(config.output, OutputMode::All);
    assert!(config.power.reduce_fps_on_battery);
    assert!(config.power.pause_on_lid_closed);
    assert_eq!(default_shader(), config.shader_path);
    assert_eq!(default_fps_ac(), 60);
    assert_eq!(default_fps_battery(), 30);
    assert!(default_true());
    assert_eq!(OutputMode::default(), OutputMode::All);
}

#[test]
fn merge_replaces_only_the_fields_the_override_sets() {
    let mut config = Config::default();
    let mut machine = empty_override();
    machine.shader_path = Some("/tmp/shader.wgsl".to_string());
    machine.fps_ac = Some(45);
    config.merge(machine);
    assert_eq!(config.shader_path, "/tmp/shader.wgsl");
    assert_eq!(config.fps_ac, 45);
    assert_eq!(config.fps_battery, 30);
    assert_eq!(config.output, OutputMode::All);
    assert_eq!(config.visualization, VisualizationMode::Stripes);
    assert_eq!(f32::from_bits(config.audio_sensitivity_bits), 1.0);
}

#[test]
fn merge_sets_visualization_output_and_sensitivity() {
    let mut config = Config::default();
    let mut machine = empty_override();
    machine.visualization = Some(VisualizationMode::Composite);
    machine.output = Some(OutputMode::Named("eDP-1".to_string()));
    machine.audio_sensitivity_bits = Some(2.5f32.to_bits());
    machine.fps_battery = Some(15);
    config.merge(machine);
    assert_eq!(config.visualization, VisualizationMode::Composite);
    assert_eq!(config.output, OutputMode::Named("eDP-1".to_string()));
    assert_eq!(f32::from_bits(config.audio_sensitivity_bits), 2.5);
    assert_eq!(config.fps_battery, 15);
    assert_eq!(f32::from_bits(config.idle_seconds_bits), 3.0);
}

#[test]
fn merge_of_empty_override_changes_nothing() {
    let mut config = Config::default();
    config.fps_ac = 90;
    config.merge(empty_override());
    assert_eq!(config.fps_ac, 90);
    assert_eq!(config.shader_path, "/usr/share/cosmic-audio-bg/shaders/sinusoids.wgsl");
}

#[test]
fn merging_twice_equals_merging_once() {
    let mut once = Config::default();
    let mut twice = Config::default();
    let mut machine = empty_override();
    machine.fps_ac = Some(75);
    machine.visualization = Some(VisualizationMode::Composite);
    once.merge(machine.clone());
    twice.merge(machine.clone());
    twice.merge(machine);
    assert_eq!(once.fps_ac, twice.fps_ac);
    assert_eq!(once.visualization, twice.visualization);
    assert_eq!(once.shader_path, twice.shader_path);
}

#[test]
fn env_overrides_set_shader_and_a_parsable_fps() {
    let mut config = Config::default();
    config.apply_env_overrides(Some("/opt/wave.wgsl".to_string()), Some("45".to_string()));
    assert_eq!(config.shader_path, "/opt/wave.wgsl");
    assert_eq!(config.fps_ac, 45);
    assert_eq!(config.fps_battery, 30);
}

#[test]
fn env_fps_that_does_not_parse_is_ignored() {
    for text in ["fast", "-5", "", "+", " 45", "4294967296", "12a"] {
        let mut config = Config::default();
        config.apply_env_overrides(None, Some(text.to_string()));
        assert_eq!(config.fps_ac, 60, "{text}");
    }
    let mut config = Config::default();
    config.apply_env_overrides(None, Some("+30".to_string()));
    assert_eq!(config.fps_ac, 30);
    let mut config = Config::default();
    config.apply_env_overrides(None, Some("4294967295".to_string()));
    assert_eq!(config.fps_ac, u32::MAX);
}

#[test]
fn env_overrides_applied_twice_equal_once() {
    let mut config = Config::default();
    config.apply_env_overrides(Some("/a.wgsl".to_string()), Some("120".to_string()));
    config.apply_env_overrides(Some("/a.wgsl".to_string()), Some("120".to_string()));
    assert_eq!(config.shader_path, "/a.wgsl");
    assert_eq!(config.fps_ac, 120);
}

#[test]
fn machine_override_applies_over_defaults_and_env_wins() {
    let mut machine = empty_override();
    machine.shader_path = Some("/machine.wgsl".to_string());
    machine.fps_ac = Some(50);
    let config = Config::with_machine_override(
        None,
        Some(machine),
        Some("/env.wgsl".to_string()),
        None,
    );
    assert_eq!(config.shader_path, "/env.wgsl");
    assert_eq!(config.fps_ac, 50);
    assert_eq!(config.fps_battery, 30);
}

#[test]
fn machine_override_applies_over_base() {
    let mut base = Config::default();
    base.fps_battery = 20;
    base.power = PowerConfig { reduce_fps_on_battery: false, pause_on_lid_closed: false };
    let mut machine = empty_override();
    machine.visualization = Some(VisualizationMode::Composite);
    let config = Config::with_machine_override(Some(base), Some(machine), None, None);
    assert_eq!(config.visualization, VisualizationMode::Composite);
    assert_eq!(config.fps_battery, 20);
    assert!(!config.power.reduce_fps_on_battery);
    let config = Config::with_machine_override(None, None, None, None);
    assert_eq!(config.fps_ac, 60);
}

#[test]
fn effective_fps_follows_power_state_and_clamps() {
    let mut config = Config::default();
    assert_eq!(config.effective_fps(false), 60);
    assert_eq!(config.effective_fps(true), 30);
    config.power.reduce_fps_on_battery = false;
    assert_eq!(config.effective_fps(true), 60);
    config.fps_ac = 0;
    assert_eq!(config.effective_fps(false), MIN_FPS);
    config.fps_ac = 1000;
    assert_eq!(config.effective_fps(false), MAX_FPS);
    config.power.reduce_fps_on_battery = true;
    config.fps_battery = 0;
    assert_eq!(config.effective_fps(true), 1);
    config.fps_battery = 241;
    assert_eq!(config.effective_fps(true), 240);
}

#[test]
fn select_mode_reports_a_change_once() {
    let mut config = Config::default();
    assert!(config.select_mode(VisualizationMode::Composite));
    assert_eq!(config.visualization, VisualizationMode::Composite);
    assert!(!config.select_mode(VisualizationMode::Composite));
    assert!(config.select_mode(VisualizationMode::Stripes));
    assert_eq!(config.visualization, VisualizationMode::Stripes);
}

#[test]
fn output_filter_matches_name() {
    let mut config = Config::default();
    assert!(config.output_allowed("HDMI-A-1"));
    assert!(config.output_allowed(""));
    config.output = OutputMode::Named("eDP-1".to_string());
    assert!(config.output_allowed("eDP-1"));
    assert!(!config.output_allowed("HDMI-A-1"));
    assert!(!config.output_allowed("eDP-10"));
    assert!(!config.output_allowed(""));
}

#[test]
fn pause_needs_the_switch_and_a_closed_lid() {
    let power = PowerConfig::default();
    assert!(power.should_pause(true));
    assert!(!power.should_pause(false));
    let off = PowerConfig { reduce_fps_on_battery: true, pause_on_lid_closed: false };
    assert!(!off.should_pause(true));
}

#[test]
fn frame_period_divides_a_second() {
    assert_eq!(frame_period_ms(60), 16);
    assert_eq!(frame_period_ms(30), 33);
    assert_eq!(frame_period_ms(240), 4);
    assert_eq!(frame_period_ms(1), 1000);
    assert_eq!(frame_period_ms(0), 1000);
    assert_eq!(frame_period_ms(2000), 0);
}
