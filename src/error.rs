use vstd::prelude::*;

verus! {

/// Every failure the library reports.
#[derive(Debug, Clone, PartialEq, Eq)]
pub enum SyncError {
    /// No remote is configured where an operation needs one.
    MissingRemote,
    /// No configuration name is configured where activation needs one.
    MissingConfiguration,
    /// The persisted record is present but does not hold a valid state.
    InvalidState,
    /// The remote address cannot be parsed, or lacks a part the backend needs.
    InvalidRemote,
    /// No transport backend serves the remote's scheme.
    UnsupportedScheme,
    /// The transport failed: network, credentials, availability or a bad reply.
    Transport,
    /// The source directory, named here, does not hold the configuration
    /// manifest.
    Validation(String),
    /// The activation mechanism reported a failure.
    Activation,
}

impl SyncError {
    /// Configuration problems: missing settings or a corrupt record.
    pub open spec fn is_configuration_spec(self) -> bool {
        self == SyncError::MissingRemote || self == SyncError::MissingConfiguration
            || self == SyncError::InvalidState || self == SyncError::InvalidRemote
    }

    /// Whether the error belongs to the configuration class.
    pub fn is_configuration(&self) -> (r: bool)
        ensures
            r == self.is_configuration_spec(),
    {
        match self {
            SyncError::MissingRemote | SyncError::MissingConfiguration | SyncError::InvalidState
            | SyncError::InvalidRemote => true,
            _ => false,
        }
    }

    /// Errors that a later attempt may overcome; the daemon retries them on
    /// its next cycle.
    pub open spec fn is_recoverable_spec(self) -> bool {
        self == SyncError::Transport || self == SyncError::Activation
    }

    /// Whether a later cycle may succeed where this one failed.
    pub fn is_recoverable(&self) -> (r: bool)
        ensures
            r == self.is_recoverable_spec(),
    {
        match self {
            SyncError::Transport | SyncError::Activation => true,
            _ => false,
        }
    }
}

} // verus!
