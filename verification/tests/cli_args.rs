use druns::cli::Args;
use druns::cli::ArgsError;

#[test]
fn test_default_args() {
    let args = Args::parse_from(&["test"]).unwrap();
    assert_eq!(args.sidebar_width, 30);
    assert_eq!(args.max_output_lines, 1000);
    assert_eq!(args.max_command_lines, 3);
    assert!(args.animation);
    assert!(!args.no_animate);
    assert!(args.log.is_none());
    assert!(args.config.is_none());
    assert!(args.command.is_empty());
}

#[test]
fn test_command_parsing() {
    let args = Args::parse_from(&["test", "ls", "-la"]).unwrap();
    assert_eq!(args.command, vec!["ls", "-la"]);
}

#[test]
fn test_sidebar_width() {
    let args = Args::parse_from(&["test", "--sidebar-width", "50"]).unwrap();
    assert_eq!(args.sidebar_width, 50);
}

#[test]
fn test_max_output_lines() {
    let args = Args::parse_from(&["test", "--max-output-lines", "500"]).unwrap();
    assert_eq!(args.max_output_lines, 500);
}

#[test]
fn test_max_command_lines() {
    let args = Args::parse_from(&["test", "--max-command-lines", "5"]).unwrap();
    assert_eq!(args.max_command_lines, 5);
}

#[test]
fn test_animation_flags() {
    // --no-animate sets no_animate without touching the animation default
    let args = Args::parse_from(&["test", "--no-animate"]).unwrap();
    assert!(args.animation); // default is true
    assert!(args.no_animate);

    // defaults
    let args = Args::parse_from(&["test"]).unwrap();
    assert!(args.animation);
    assert!(!args.no_animate);
}

#[test]
fn test_log_option() {
    let args = Args::parse_from(&["test", "--log", "output.log"]).unwrap();
    assert_eq!(args.log, Some("output.log".to_string()));
}

#[test]
fn test_config_option() {
    let args = Args::parse_from(&["test", "--config", "config.toml"]).unwrap();
    assert_eq!(args.config, Some("config.toml".to_string()));
}

#[test]
fn test_combined_options() {
    let args = Args::parse_from(&[
        "test",
        "--config", "myconfig.toml",
        "--sidebar-width", "40",
        "--max-output-lines", "2000",
        "--log", "debug.log",
        "--no-animate",
        "echo", "hello",
    ]).unwrap();
    assert_eq!(args.config, Some("myconfig.toml".to_string()));
    assert_eq!(args.sidebar_width, 40);
    assert_eq!(args.max_output_lines, 2000);
    assert_eq!(args.log, Some("debug.log".to_string()));
    assert!(args.animation); // --animation defaults to true
    assert!(args.no_animate); // --no-animate sets this flag
    assert_eq!(args.command, vec!["echo", "hello"]);
}

#[test]
fn test_hyphen_values_in_command() {
    let args = Args::parse_from(&["test", "grep", "-r", "--include=*.rs", "pattern"]).unwrap();
    assert_eq!(args.command, vec!["grep", "-r", "--include=*.rs", "pattern"]);
}

#[test]
fn test_equals_form_options() {
    let args = Args::parse_from(&["test", "--log=out.log", "--sidebar-width=45", "ls"]).unwrap();
    assert_eq!(args.log, Some("out.log".to_string()));
    assert_eq!(args.sidebar_width, 45);
    assert_eq!(args.command, vec!["ls"]);
}

#[test]
fn test_animation_value_parsing() {
    let args = Args::parse_from(&["test", "--animation", "false"]).unwrap();
    assert!(!args.animation);
    let args = Args::parse_from(&["test", "--animation", "true"]).unwrap();
    assert!(args.animation);
}

#[test]
fn test_missing_value_error() {
    assert_eq!(Args::parse_from(&["test", "--log"]).unwrap_err(), ArgsError::MissingValue);
    assert_eq!(Args::parse_from(&["test", "--sidebar-width"]).unwrap_err(), ArgsError::MissingValue);
}

#[test]
fn test_invalid_value_error() {
    assert_eq!(
        Args::parse_from(&["test", "--sidebar-width", "abc"]).unwrap_err(),
        ArgsError::InvalidValue
    );
    // out of range for a 16-bit width
    assert_eq!(
        Args::parse_from(&["test", "--sidebar-width", "70000"]).unwrap_err(),
        ArgsError::InvalidValue
    );
    // far beyond the machine word
    assert_eq!(
        Args::parse_from(&["test", "--max-output-lines", "99999999999999999999999999"]).unwrap_err(),
        ArgsError::InvalidValue
    );
    assert_eq!(
        Args::parse_from(&["test", "--animation", "maybe"]).unwrap_err(),
        ArgsError::InvalidValue
    );
}

#[test]
fn test_last_option_wins() {
    let args = Args::parse_from(&["test", "--sidebar-width", "40", "--sidebar-width", "50"]).unwrap();
    assert_eq!(args.sidebar_width, 50);
}
