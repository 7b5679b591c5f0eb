use lloggs::{ColourMode, Destination, Encoding, Environment, PreArgs, Session};

fn env_of(pairs: &[(&str, &str)]) -> Environment {
    let mut env = Environment::new();
    for (name, value) in pairs {
        env.set(name, value);
    }
    env
}

#[test]
fn empty_environment_asks_for_nothing() {
    let env = Environment::new();
    let early = PreArgs::parse_with_env_given(&env, "RUST_LOG", true, true);
    assert_eq!(early, PreArgs { logline: None, timeless: false, color: ColourMode::Auto });
    let early = PreArgs::parse(&env);
    assert_eq!(early.logline, None);
    assert!(!early.timeless);
    assert_eq!(early.setup(), None);
}

#[test]
fn debug_invocation_stands_for_debug() {
    let env = env_of(&[("DEBUG_INVOCATION", "1")]);
    let early = PreArgs::parse(&env);
    assert_eq!(early.logline, Some("debug".to_string()));
    assert!(early.timeless);
}

#[test]
fn filter_variable_beats_debug_invocation() {
    let env = env_of(&[("DEBUG_INVOCATION", "1"), ("RUST_LOG", "info,mine=trace")]);
    let early = PreArgs::parse(&env);
    assert_eq!(early.logline, Some("info,mine=trace".to_string()));
    assert!(early.timeless);
}

#[test]
fn filter_variable_alone_is_the_logline() {
    let env = env_of(&[("RUST_LOG", "warn")]);
    let early = PreArgs::parse(&env);
    assert_eq!(early.logline, Some("warn".to_string()));
    assert!(!early.timeless);
}

#[test]
fn caller_names_the_filter_variable() {
    let env = env_of(&[("RUST_LOG", "warn"), ("MYAPP_LOG", "trace")]);
    assert_eq!(PreArgs::parse_with_env(&env, "MYAPP_LOG").logline, Some("trace".to_string()));
    assert_eq!(PreArgs::parse_with_env(&env, "RUST_LOG").logline, Some("warn".to_string()));
    assert_eq!(PreArgs::parse_with_env(&env, "OTHER_LOG").logline, None);
    assert_eq!(PreArgs::parse(&env).logline, Some("warn".to_string()));
}

#[test]
fn journal_stream_is_timeless_without_a_terminal() {
    let env = env_of(&[("JOURNAL_STREAM", "8:12345")]);
    assert!(PreArgs::parse_with_env_given(&env, "RUST_LOG", false, true).timeless);
}

#[test]
fn journal_stream_is_not_timeless_on_a_terminal() {
    let env = env_of(&[("JOURNAL_STREAM", "8:12345")]);
    assert!(!PreArgs::parse_with_env_given(&env, "RUST_LOG", true, true).timeless);
}

#[test]
fn log_timeless_forces_timeless() {
    let env = env_of(&[("LOG_TIMELESS", "")]);
    assert!(PreArgs::parse_with_env_given(&env, "RUST_LOG", true, true).timeless);
    assert!(PreArgs::parse(&env).timeless);
    let env = env_of(&[("LOG_TIMELESS", "1"), ("JOURNAL_STREAM", "8:12345")]);
    assert!(PreArgs::parse_with_env_given(&env, "RUST_LOG", true, true).timeless);
    assert!(PreArgs::parse(&env).timeless);
}

#[test]
fn early_colour_follows_the_environment() {
    let env = env_of(&[("NO_COLOR", "1"), ("CLICOLOR_FORCE", "1")]);
    assert_eq!(PreArgs::parse(&env).color, ColourMode::Never);
    let env = env_of(&[("CLICOLOR_FORCE", "1")]);
    assert_eq!(PreArgs::parse(&env).color, ColourMode::Always);
    let env = Environment::new();
    assert_eq!(
        PreArgs::parse_with_env_given(&env, "RUST_LOG", true, false).color,
        ColourMode::Never
    );
    assert_eq!(
        PreArgs::parse_with_env_given(&env, "RUST_LOG", true, true).color,
        ColourMode::Auto
    );
}

#[test]
fn parse_agrees_with_some_state_of_the_machine() {
    let env = env_of(&[("JOURNAL_STREAM", "8:12345"), ("RUST_LOG", "info")]);
    let early = PreArgs::parse(&env);
    let mut found = false;
    for terminal in [true, false] {
        for ansi in [true, false] {
            found = found || early == PreArgs::parse_with_env_given(&env, "RUST_LOG", terminal, ansi);
        }
    }
    assert!(found);
}

#[test]
fn session_needs_a_logline() {
    let early = PreArgs { logline: None, timeless: true, color: ColourMode::Always };
    assert_eq!(early.setup(), None);
    assert_eq!(early.setup_given(true), None);
    assert_eq!(early.setup_given(false), None);
}

#[test]
fn session_goes_to_the_error_stream() {
    let early = PreArgs {
        logline: Some("info,mine=debug".to_string()),
        timeless: true,
        color: ColourMode::Always,
    };
    let expected = Session {
        destination: Destination::Stderr,
        encoding: Encoding::Human,
        ansi: true,
        timeless: true,
        filter: "info,mine=debug".to_string(),
        span_events: false,
    };
    assert_eq!(early.setup(), Some(expected.clone()));
    assert_eq!(early.setup_given(false), Some(expected));
}

#[test]
fn session_colours_follow_the_terminal_in_auto() {
    let early =
        PreArgs { logline: Some("debug".to_string()), timeless: false, color: ColourMode::Auto };
    let on_terminal = early.setup_given(true).unwrap();
    assert!(on_terminal.ansi);
    assert!(!on_terminal.timeless);
    assert!(on_terminal.timestamps());
    let piped = early.setup_given(false).unwrap();
    assert!(!piped.ansi);
    let never =
        PreArgs { logline: Some("debug".to_string()), timeless: false, color: ColourMode::Never };
    assert!(!never.setup().unwrap().ansi);
    assert!(!never.setup_given(true).unwrap().ansi);
}
