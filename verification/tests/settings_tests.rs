//! Configuration surface: builder, setters, defaults.

use pid1::Builder;
use pid1::Pid1Settings;

#[test]
fn builder_defaults() {
    let settings = Builder::new().build();
    assert!(!settings.log_enabled());
    assert_eq!(settings.timeout_secs(), 2);
}

#[test]
fn builder_configures_log_and_timeout() {
    let settings = Builder::new().enable_log(true).timeout(7).build();
    assert!(settings.log_enabled());
    assert_eq!(settings.timeout_secs(), 7);
}

#[test]
fn builder_setters_are_independent() {
    let settings = Builder::new().timeout(9).enable_log(true).build();
    assert!(settings.log_enabled());
    assert_eq!(settings.timeout_secs(), 9);
    let settings = Builder::new().enable_log(true).enable_log(false).build();
    assert!(!settings.log_enabled());
    assert_eq!(settings.timeout_secs(), 2);
}

#[test]
fn builder_default_matches_new() {
    assert_eq!(Builder::default(), Builder::new());
    assert_eq!(Builder::default().build(), Pid1Settings::new());
}

#[test]
fn settings_setters() {
    let settings = Pid1Settings::new().enable_log(true).timeout(5);
    assert!(settings.log_enabled());
    assert_eq!(settings.timeout_secs(), 5);
}

#[test]
fn settings_default_matches_new() {
    assert_eq!(Pid1Settings::default(), Pid1Settings::new());
    assert!(!Pid1Settings::default().log_enabled());
    assert_eq!(Pid1Settings::default().timeout_secs(), 2);
}

#[test]
fn settings_builder_is_default_builder() {
    assert_eq!(Pid1Settings::builder(), Builder::new());
}
