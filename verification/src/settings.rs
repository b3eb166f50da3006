//! Supervisor configuration and the error surface of the launch path.

use vstd::prelude::*;

verus! {

/// Why the PID-1 launch path could not be completed. Errors can only arise
/// before the supervisor commits to the PID-1 role; once the reaping loop
/// runs, the process communicates through its exit status alone.
#[derive(Debug)]
pub enum Error {
    /// The subordinate workload process could not be created.
    SpawnChild(std::io::Error),
    /// Signal interest could not be installed before spawning the workload.
    InstallSignals(std::io::Error),
}

impl Error {
    /// A short human-readable description of the failure.
    pub fn message(&self) -> (m: String)
        ensures
            self is SpawnChild ==> m@ == "Failed when respawning non-PID1 child process"@,
            self is InstallSignals ==> m@ == "Failed to install signal handlers before spawning"@,
    {
        match self {
            Error::SpawnChild(_) => "Failed when respawning non-PID1 child process".to_owned(),
            Error::InstallSignals(_) => "Failed to install signal handlers before spawning".to_owned(),
        }
    }
}

/// Builder for [`Pid1Settings`]. The default configuration does not log
/// and waits 2 seconds between escalation steps.
#[derive(Debug, Clone, Copy, PartialEq, Eq, Structural)]
pub struct Builder {
    log: bool,
    timeout: u32,
}

impl Builder {
    /// Whether diagnostic logging to standard error is enabled.
    pub closed spec fn spec_log(self) -> bool {
        self.log
    }

    /// The escalation pause, in whole seconds.
    pub closed spec fn spec_timeout(self) -> u32 {
        self.timeout
    }

    /// Initializes the builder with defaults: no logging, 2 second timeout.
    pub fn new() -> (r: Self)
        ensures
            !r.spec_log(),
            r.spec_timeout() == 2,
    {
        Builder { log: false, timeout: 2 }
    }

    /// Should the crate log to standard error. This can be useful to detect
    /// whether it is running with PID 1. By default it is `false`.
    pub fn enable_log(self, enable_log: bool) -> (r: Self)
        ensures
            r.spec_log() == enable_log,
            r.spec_timeout() == self.spec_timeout(),
    {
        Builder { log: enable_log, timeout: self.timeout }
    }

    /// Seconds to wait for the child process to exit after each escalation
    /// signal. By default it is 2 seconds.
    pub fn timeout(self, timeout_secs: u32) -> (r: Self)
        ensures
            r.spec_timeout() == timeout_secs,
            r.spec_log() == self.spec_log(),
    {
        Builder { log: self.log, timeout: timeout_secs }
    }

    /// Build [`Pid1Settings`] with this builder's configuration.
    pub fn build(self) -> (r: Pid1Settings)
        ensures
            r.spec_log() == self.spec_log(),
            r.spec_timeout() == self.spec_timeout(),
    {
        Pid1Settings { log: self.log, timeout: self.timeout }
    }
}

impl Default for Builder {
    /// Same configuration as [`Builder::new`].
    fn default() -> (r: Self)
        ensures
            !r.spec_log(),
            r.spec_timeout() == 2,
    {
        Builder::new()
    }
}

/// Settings for the PID-1 supervisor. The default setting doesn't log and
/// has an escalation timeout of 2 seconds.
#[derive(Debug, Clone, Copy, PartialEq, Eq, Structural)]
pub struct Pid1Settings {
    log: bool,
    timeout: u32,
}

impl Pid1Settings {
    /// Whether diagnostic logging to standard error is enabled.
    pub closed spec fn spec_log(self) -> bool {
        self.log
    }

    /// The escalation pause, in whole seconds.
    pub closed spec fn spec_timeout(self) -> u32 {
        self.timeout
    }

    /// Initializes the settings with defaults: no logging, 2 second timeout.
    pub fn new() -> (r: Self)
        ensures
            !r.spec_log(),
            r.spec_timeout() == 2,
    {
        Pid1Settings { log: false, timeout: 2 }
    }

    /// Should the crate log to standard error. This can be useful to detect
    /// whether it is running with PID 1. By default it is `false`.
    pub fn enable_log(self, enable_log: bool) -> (r: Self)
        ensures
            r.spec_log() == enable_log,
            r.spec_timeout() == self.spec_timeout(),
    {
        Pid1Settings { log: enable_log, timeout: self.timeout }
    }

    /// Seconds to wait for the child process to exit after each escalation
    /// signal. By default it is 2 seconds.
    pub fn timeout(self, timeout_secs: u32) -> (r: Self)
        ensures
            r.spec_timeout() == timeout_secs,
            r.spec_log() == self.spec_log(),
    {
        Pid1Settings { log: self.log, timeout: timeout_secs }
    }

    /// A fresh builder with the default configuration.
    pub fn builder() -> (r: Builder)
        ensures
            !r.spec_log(),
            r.spec_timeout() == 2,
    {
        Builder::new()
    }

    /// Whether diagnostic logging is enabled.
    pub fn log_enabled(&self) -> (b: bool)
        ensures
            b == self.spec_log(),
    {
        self.log
    }

    /// The escalation pause, in whole seconds.
    pub fn timeout_secs(&self) -> (t: u32)
        ensures
            t == self.spec_timeout(),
    {
        self.timeout
    }
}

impl Default for Pid1Settings {
    /// Same configuration as [`Pid1Settings::new`].
    fn default() -> (r: Self)
        ensures
            !r.spec_log(),
            r.spec_timeout() == 2,
    {
        Pid1Settings::new()
    }
}

} // verus!
