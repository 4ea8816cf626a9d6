use druns::cli::Args;
use druns::color::SerializableColor;
use druns::config::AnimationConfig;
use druns::config::AppConfig;
use druns::config::Config;
use druns::config::LayoutConfig;
use druns::config::OutputConfig;
use druns::config::max_line_chars;
use druns::config::resolve_config;

#[test]
fn test_layout_config_default() {
    let config = LayoutConfig::default();
    assert_eq!(config.sidebar_width, 30);
    assert_eq!(config.max_command_lines, 3);
}

#[test]
fn test_output_config_default() {
    let config = OutputConfig::default();
    assert_eq!(config.max_output_lines, 1000);
}

#[test]
fn test_animation_config_default() {
    let config = AnimationConfig::default();
    assert!(config.animation_enabled);
    assert!(!config.no_animate);
}

#[test]
fn test_no_animate_config() {
    let mut config = AnimationConfig::default();
    config.no_animate = true;
    assert!(config.animation_enabled); // the struct flag alone does not disable
    assert!(config.no_animate);
}

#[test]
fn test_app_config_defaults() {
    let config = AppConfig::default();
    assert_eq!(config.sidebar_width(), 30);
    assert_eq!(config.max_output_lines(), 1000);
    assert!(config.animation_enabled());
    assert!(!config.no_animate());
}

#[test]
fn test_app_config_composition() {
    let config = AppConfig::default();
    assert_eq!(config.layout.sidebar_width, 30);
    assert_eq!(config.output.max_output_lines, 1000);
    assert!(config.animation.animation_enabled);
    assert!(!config.animation.no_animate);
}

#[test]
fn test_app_config_clone() {
    let config = AppConfig::default();
    let cloned = config.clone();
    assert_eq!(cloned.sidebar_width(), config.sidebar_width());
    assert_eq!(cloned.max_output_lines(), config.max_output_lines());
}

#[test]
fn test_app_config_convenience_methods() {
    let config = AppConfig::default();
    assert_eq!(config.sidebar_width(), config.layout.sidebar_width);
    assert_eq!(config.max_output_lines(), config.output.max_output_lines);
    assert_eq!(config.animation_enabled(), config.animation.animation_enabled);
    assert_eq!(config.no_animate(), config.animation.no_animate);
    assert_eq!(config.max_command_lines(), config.layout.max_command_lines);
}

#[test]
fn test_app_config_debug() {
    let config = AppConfig::default();
    let debug_str = format!("{config:?}");
    assert!(debug_str.contains("AppConfig"));
    assert!(debug_str.contains("layout:"));
    assert!(debug_str.contains("output:"));
    assert!(debug_str.contains("animation:"));
}

#[test]
fn test_config_defaults() {
    let config = Config::default();
    assert_eq!(config.app.layout.sidebar_width, 30);
    assert_eq!(config.app.output.max_output_lines, 1000);
    assert!(config.app.animation.animation_enabled);
    assert!(!config.app.animation.no_animate);
    assert_eq!(config.theme.primary, SerializableColor { r: 59, g: 130, b: 246 });
}

#[test]
fn test_config_with_custom_values() {
    let mut config = Config::default();
    config.app.layout.sidebar_width = 50;
    config.app.output.max_output_lines = 2000;
    config.app.animation.animation_enabled = false;
    config.app.animation.no_animate = true;

    assert_eq!(config.app.layout.sidebar_width, 50);
    assert_eq!(config.app.output.max_output_lines, 2000);
    assert!(!config.app.animation.animation_enabled);
    assert!(config.app.animation.no_animate);
}

#[test]
fn test_config_clone_equality() {
    let config = Config::default();
    let cloned = config.clone();

    assert_eq!(config.app.layout.sidebar_width, cloned.app.layout.sidebar_width);
    assert_eq!(config.app.output.max_output_lines, cloned.app.output.max_output_lines);
    assert_eq!(config.app.animation.animation_enabled, cloned.app.animation.animation_enabled);
}

#[test]
fn test_config_with_defaults_method() {
    let config1 = Config::with_defaults();
    let config2 = Config::default();

    assert_eq!(config1.app.layout.sidebar_width, config2.app.layout.sidebar_width);
    assert_eq!(config1.app.output.max_output_lines, config2.app.output.max_output_lines);
}

#[test]
fn test_resolve_config_overrides() {
    let args = Args::parse_from(&[
        "test",
        "--sidebar-width", "50",
        "--max-output-lines", "2000",
        "--max-command-lines", "4",
        "sleep", "1",
    ]).unwrap();
    let resolved = resolve_config(Config::with_defaults(), &args, 26);
    assert_eq!(resolved.app.layout.sidebar_width, 50);
    assert_eq!(resolved.app.output.max_output_lines, 2000);
    assert_eq!(resolved.app.layout.max_command_lines, 4);
    assert!(resolved.app.animation.animation_enabled);
}

#[test]
fn test_resolve_config_sidebar_floor() {
    // a sidebar narrower than the header is widened to fit it
    let args = Args::parse_from(&["test", "--sidebar-width", "10", "ls"]).unwrap();
    let resolved = resolve_config(Config::with_defaults(), &args, 26);
    assert_eq!(resolved.app.layout.sidebar_width, 30);
}

#[test]
fn test_resolve_config_no_animate() {
    let args = Args::parse_from(&["test", "--no-animate", "ls"]).unwrap();
    let resolved = resolve_config(Config::with_defaults(), &args, 0);
    assert!(!resolved.app.animation.animation_enabled);
}

#[test]
fn test_max_line_chars() {
    let lines = vec!["ab".to_string(), "abcd".to_string(), "a".to_string()];
    assert_eq!(max_line_chars(&lines), 4);
    let empty: Vec<String> = Vec::new();
    assert_eq!(max_line_chars(&empty), 0);
}
