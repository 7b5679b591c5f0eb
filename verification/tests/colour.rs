use lloggs::{ColourMode, Environment};

const MODES: [ColourMode; 3] = [ColourMode::Auto, ColourMode::Always, ColourMode::Never];

fn env_of(names: &[&str]) -> Environment {
    let mut env = Environment::new();
    for name in names {
        env.set(name, "1");
    }
    env
}

#[test]
fn default_mode_is_auto() {
    assert_eq!(ColourMode::default(), ColourMode::Auto);
}

#[test]
fn auto_gives_way_to_any_mode() {
    for mode in MODES {
        assert_eq!(ColourMode::Auto.or_if_auto(mode), mode);
    }
}

#[test]
fn decided_modes_give_way_to_none() {
    for first in [ColourMode::Always, ColourMode::Never] {
        for second in MODES {
            assert_eq!(first.or_if_auto(second), first);
        }
    }
}

#[test]
fn enabled_given_follows_the_terminal_only_in_auto() {
    assert!(ColourMode::Auto.enabled_given(true));
    assert!(!ColourMode::Auto.enabled_given(false));
    assert!(ColourMode::Always.enabled_given(true));
    assert!(ColourMode::Always.enabled_given(false));
    assert!(!ColourMode::Never.enabled_given(true));
    assert!(!ColourMode::Never.enabled_given(false));
}

#[test]
fn enabled_is_decided_for_always_and_never() {
    assert!(ColourMode::Always.enabled());
    assert!(!ColourMode::Never.enabled());
}

#[test]
fn enabled_answers_the_same_twice() {
    for mode in MODES {
        assert_eq!(mode.enabled(), mode.enabled());
    }
}

#[test]
fn no_color_gives_never() {
    assert_eq!(ColourMode::from_env(&env_of(&["NO_COLOR"])), ColourMode::Never);
    for ansi in [true, false] {
        assert_eq!(ColourMode::from_env_given(&env_of(&["NO_COLOR"]), ansi), ColourMode::Never);
    }
}

#[test]
fn no_color_beats_clicolor_force() {
    let env = env_of(&["CLICOLOR_FORCE", "NO_COLOR"]);
    assert_eq!(ColourMode::from_env(&env), ColourMode::Never);
    let env = env_of(&["NO_COLOR", "CLICOLOR_FORCE"]);
    assert_eq!(ColourMode::from_env(&env), ColourMode::Never);
    for ansi in [true, false] {
        assert_eq!(ColourMode::from_env_given(&env, ansi), ColourMode::Never);
    }
}

#[test]
fn no_color_counts_even_when_empty() {
    let mut env = Environment::new();
    env.set("NO_COLOR", "");
    assert_eq!(ColourMode::from_env(&env), ColourMode::Never);
}

#[test]
fn clicolor_force_gives_always() {
    let env = env_of(&["CLICOLOR_FORCE"]);
    assert_eq!(ColourMode::from_env(&env), ColourMode::Always);
    for ansi in [true, false] {
        assert_eq!(ColourMode::from_env_given(&env, ansi), ColourMode::Always);
    }
}

#[test]
fn clicolor_alone_is_ignored() {
    let env = env_of(&["CLICOLOR"]);
    assert_eq!(ColourMode::from_env_given(&env, true), ColourMode::Auto);
}

#[test]
fn console_decides_where_the_environment_is_silent() {
    let env = Environment::new();
    assert_eq!(ColourMode::from_env_given(&env, true), ColourMode::Auto);
    assert_eq!(ColourMode::from_env_given(&env, false), ColourMode::Never);
    assert!(matches!(ColourMode::from_env(&env), ColourMode::Auto | ColourMode::Never));
}

#[test]
fn with_env_overrides_only_under_no_color() {
    let silent = Environment::new();
    let forced = env_of(&["CLICOLOR_FORCE"]);
    let disabled = env_of(&["NO_COLOR"]);
    for mode in MODES {
        assert_eq!(mode.with_env(&silent), mode);
        assert_eq!(mode.with_env(&forced), mode);
        assert_eq!(mode.with_env(&disabled), ColourMode::Never);
    }
}

#[test]
fn with_windows_given_overrides_only_on_refusal() {
    for mode in MODES {
        assert_eq!(mode.with_windows_given(false), ColourMode::Never);
    }
    assert_eq!(ColourMode::Auto.with_windows_given(true), ColourMode::Auto);
    assert_eq!(ColourMode::Always.with_windows_given(true), ColourMode::Always);
    assert_eq!(ColourMode::Never.with_windows_given(true), ColourMode::Never);
}

#[test]
fn with_windows_keeps_the_mode_or_gives_never() {
    assert_eq!(ColourMode::Never.with_windows(), ColourMode::Never);
    for mode in [ColourMode::Auto, ColourMode::Always] {
        let after = mode.with_windows();
        assert!(after == mode || after == ColourMode::Never);
    }
}
