use lloggs::environment::{
    CLICOLOR_FORCE, DEBUG_INVOCATION, JOURNAL_STREAM, LOG_TIMELESS, NO_COLOR, RUST_LOG,
};
use lloggs::supervisor::{is_systemd, is_systemd_given};
use lloggs::Environment;

#[test]
fn new_environment_has_no_variable() {
    let env = Environment::new();
    assert_eq!(env.get("RUST_LOG"), None);
    assert!(!env.is_set("RUST_LOG"));
    assert!(!env.is_set(""));
}

#[test]
fn set_binds_a_name() {
    let mut env = Environment::new();
    env.set("RUST_LOG", "info");
    assert!(env.is_set("RUST_LOG"));
    assert_eq!(env.get("RUST_LOG"), Some("info".to_string()));
    assert!(!env.is_set("RUST_LO"));
    assert!(!env.is_set("rust_log"));
}

#[test]
fn set_replaces_an_earlier_value() {
    let mut env = Environment::new();
    env.set("RUST_LOG", "info");
    env.set("NO_COLOR", "1");
    env.set("RUST_LOG", "trace");
    assert_eq!(env.get("RUST_LOG"), Some("trace".to_string()));
    assert_eq!(env.get("NO_COLOR"), Some("1".to_string()));
}

#[test]
fn an_empty_value_still_counts_as_set() {
    let mut env = Environment::new();
    env.set("LOG_TIMELESS", "");
    assert!(env.is_set("LOG_TIMELESS"));
    assert_eq!(env.get("LOG_TIMELESS"), Some(String::new()));
}

#[test]
fn variable_names_are_the_documented_ones() {
    assert_eq!(NO_COLOR, "NO_COLOR");
    assert_eq!(CLICOLOR_FORCE, "CLICOLOR_FORCE");
    assert_eq!(RUST_LOG, "RUST_LOG");
    assert_eq!(DEBUG_INVOCATION, "DEBUG_INVOCATION");
    assert_eq!(JOURNAL_STREAM, "JOURNAL_STREAM");
    assert_eq!(LOG_TIMELESS, "LOG_TIMELESS");
}

#[test]
fn journal_stream_detects_systemd_only_without_a_terminal() {
    let mut env = Environment::new();
    env.set("JOURNAL_STREAM", "8:12345");
    assert!(is_systemd_given(&env, false));
    assert!(!is_systemd_given(&env, true));
}

#[test]
fn debug_invocation_detects_systemd_on_any_stream() {
    let mut env = Environment::new();
    env.set("DEBUG_INVOCATION", "1");
    assert!(is_systemd_given(&env, false));
    assert!(is_systemd_given(&env, true));
    assert!(is_systemd(&env));
}

#[test]
fn nothing_set_detects_no_systemd() {
    let env = Environment::new();
    assert!(!is_systemd_given(&env, false));
    assert!(!is_systemd_given(&env, true));
    assert!(!is_systemd(&env));
}

#[test]
fn is_systemd_agrees_with_some_state_of_the_stream() {
    let mut env = Environment::new();
    env.set("JOURNAL_STREAM", "8:12345");
    let detected = is_systemd(&env);
    assert!(detected == is_systemd_given(&env, true) || detected == is_systemd_given(&env, false));
}
