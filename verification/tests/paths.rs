use cosmic_audio_bg::paths::{config_path_from, machine_override_path};

#[test]
fn machine_override_sits_beside_the_base_file() {
    assert_eq!(machine_override_path("config/default.ron", "laptop"), "config/machines/laptop.ron");
    assert_eq!(
        machine_override_path("/home/u/.config/cosmic-audio-bg/config.ron", "box"),
        "/home/u/.config/cosmic-audio-bg/machines/box.ron"
    );
    assert_eq!(machine_override_path("default.ron", "h"), "machines/h.ron");
}

#[test]
fn machine_override_without_parent_goes_under_config() {
    assert_eq!(machine_override_path("", "h"), "config/machines/h.ron");
    assert_eq!(machine_override_path("/", "h"), "config/machines/h.ron");
}

#[test]
fn config_path_prefers_env_then_config_dir() {
    assert_eq!(
        config_path_from(Some("/etc/bg.ron".to_string()), Some("/home/u/.config".to_string())),
        "/etc/bg.ron"
    );
    assert_eq!(
        config_path_from(None, Some("/home/u/.config".to_string())),
        "/home/u/.config/cosmic-audio-bg/config.ron"
    );
    assert_eq!(config_path_from(None, None), "config/default.ron");
}
