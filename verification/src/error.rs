//! The error taxonomy of the settings engine. Every failure propagates
//! unrecovered to the caller; the kinds exist for diagnosis, not for
//! automatic recovery.

use vstd::prelude::*;

verus! {

/// Why an operation of the settings engine failed.
#[derive(Debug, PartialEq)]
pub enum Error {
    /// A referenced version identifier is not present in the registry.
    UnknownVersion { version: String },
    /// No forward or backward route connects the two versions.
    NoMigrationPath { from: String, to: String },
    /// A migration step failed mid-chain; carries the sub-step that failed
    /// and the original cause.
    MigrationStepFailure { from: String, to: String, cause: Box<Error> },
    /// An adapter boundary could not read the exchange value as the named
    /// schema version (malformed input, or an unknown or missing field).
    SerializationMismatch { version: String },
    /// A neighbor named by a migration link is absent from the registry:
    /// a misconfigured extension, not a caller error.
    InternalConsistencyFault { version: String },
    /// Two models were registered under the same version identifier.
    DuplicateVersion { version: String },
}

/// The mathematical shape of an [`Error`], over `Seq<char>`.
pub enum ErrorView {
    UnknownVersion { version: Seq<char> },
    NoMigrationPath { from: Seq<char>, to: Seq<char> },
    MigrationStepFailure { from: Seq<char>, to: Seq<char>, cause: Box<ErrorView> },
    SerializationMismatch { version: Seq<char> },
    InternalConsistencyFault { version: Seq<char> },
    DuplicateVersion { version: Seq<char> },
}

impl Error {
    /// The view of an error.
    pub open spec fn to_view(self) -> ErrorView
        decreases self,
    {
        match self {
            Error::UnknownVersion { version } => ErrorView::UnknownVersion { version: version@ },
            Error::NoMigrationPath { from, to } => ErrorView::NoMigrationPath {
                from: from@,
                to: to@,
            },
            Error::MigrationStepFailure { from, to, cause } => ErrorView::MigrationStepFailure {
                from: from@,
                to: to@,
                cause: Box::new((*cause).to_view()),
            },
            Error::SerializationMismatch { version } => ErrorView::SerializationMismatch {
                version: version@,
            },
            Error::InternalConsistencyFault { version } => ErrorView::InternalConsistencyFault {
                version: version@,
            },
            Error::DuplicateVersion { version } => ErrorView::DuplicateVersion {
                version: version@,
            },
        }
    }
}

impl View for Error {
    type V = ErrorView;

    open spec fn view(&self) -> ErrorView {
        self.to_view()
    }
}

} // verus!
