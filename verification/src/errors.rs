//! The error kinds that the server manager's operations report.

use vstd::prelude::*;

verus! {

/// Everything that can go wrong in a manager operation. Each variant is a
/// distinguishable kind; `message` renders it for display.
#[derive(Clone, Copy, Debug, PartialEq, Eq, Structural)]
pub enum ServerError {
    /// `start_server` was called while an instance is already active.
    AlreadyRunning,
    /// `stop_server` was called with no active instance.
    NotRunning,
    /// `start_server` was called with an empty folder path configured.
    MissingFolder,
    /// The configured folder path does not name a directory.
    FolderNotFound,
    /// `update_config` was given a port outside the allowed range.
    InvalidPort,
    /// The listener could not bind its local address.
    BindFailed,
}

impl ServerError {
    /// A human-readable rendering of the error kind.
    pub fn message(&self) -> (r: String)
        ensures
            r@ == self.spec_message(),
    {
        match self {
            ServerError::AlreadyRunning => String::from_str("server is already running"),
            ServerError::NotRunning => String::from_str("server is not running"),
            ServerError::MissingFolder => String::from_str("folder path is not set"),
            ServerError::FolderNotFound => String::from_str("folder does not exist"),
            ServerError::InvalidPort => String::from_str("port must be between 1024 and 65535"),
            ServerError::BindFailed => String::from_str("could not bind the server address"),
        }
    }

    /// What `message` returns, variant by variant.
    pub open spec fn spec_message(&self) -> Seq<char> {
        match self {
            ServerError::AlreadyRunning => "server is already running"@,
            ServerError::NotRunning => "server is not running"@,
            ServerError::MissingFolder => "folder path is not set"@,
            ServerError::FolderNotFound => "folder does not exist"@,
            ServerError::InvalidPort => "port must be between 1024 and 65535"@,
            ServerError::BindFailed => "could not bind the server address"@,
        }
    }
}

} // verus!
