//! The recoverable failures of one tick, one type per phase.
//!
//! Every failure of a tick's outside work is one of these; the watch loop
//! catches it, logs its message and goes to sleep, so no tick failure ever
//! ends the process.

use vstd::prelude::*;

verus! {

/// Failure of a single probe of the version source.
#[derive(Clone, Copy, Debug, PartialEq, Eq, Structural)]
pub enum ProbeError {
    /// The version-source process could not be launched.
    Subprocess,
    /// Its output was not valid text.
    Decode,
    /// Zero or several whitespace-delimited fields qualified as a version.
    NoMatch,
}

impl ProbeError {
    /// The line written to the log for this failure.
    pub open spec fn spec_message(self) -> Seq<char> {
        match self {
            ProbeError::Subprocess => "probe failed: the version source could not be run"@,
            ProbeError::Decode => "probe failed: the version source produced invalid text"@,
            ProbeError::NoMatch => "probe failed: no single version-shaped field in the output"@,
        }
    }

    /// Render the failure for the log.
    pub fn message(&self) -> (r: String)
        ensures
            r@ == self.spec_message(),
    {
        match self {
            ProbeError::Subprocess => "probe failed: the version source could not be run".to_owned(),
            ProbeError::Decode => "probe failed: the version source produced invalid text".to_owned(),
            ProbeError::NoMatch => "probe failed: no single version-shaped field in the output".to_owned(),
        }
    }
}

/// Failure of a single refresh of the tracked channel.
#[derive(Clone, Copy, Debug, PartialEq, Eq, Structural)]
pub enum CheckError {
    /// The refresh process could not be launched.
    Subprocess,
    /// Its output was not valid text.
    Decode,
}

impl CheckError {
    /// The line written to the log for this failure.
    pub open spec fn spec_message(self) -> Seq<char> {
        match self {
            CheckError::Subprocess => "check failed: the refresh action could not be run"@,
            CheckError::Decode => "check failed: the refresh action produced invalid text"@,
        }
    }

    /// Render the failure for the log.
    pub fn message(&self) -> (r: String)
        ensures
            r@ == self.spec_message(),
    {
        match self {
            CheckError::Subprocess => "check failed: the refresh action could not be run".to_owned(),
            CheckError::Decode => "check failed: the refresh action produced invalid text".to_owned(),
        }
    }
}

/// Failure of a single notification attempt.
#[derive(Clone, Copy, Debug, PartialEq, Eq, Structural)]
pub enum NotifyError {
    /// The publisher rejected the credentials.
    Auth,
    /// The publish call could not complete.
    Transport,
}

impl NotifyError {
    /// The line written to the log for this failure.
    pub open spec fn spec_message(self) -> Seq<char> {
        match self {
            NotifyError::Auth => "notify failed: the publisher rejected the credentials"@,
            NotifyError::Transport => "notify failed: the publish call could not complete"@,
        }
    }

    /// Render the failure for the log.
    pub fn message(&self) -> (r: String)
        ensures
            r@ == self.spec_message(),
    {
        match self {
            NotifyError::Auth => "notify failed: the publisher rejected the credentials".to_owned(),
            NotifyError::Transport => "notify failed: the publish call could not complete".to_owned(),
        }
    }
}

} // verus!
