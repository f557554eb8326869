//! Error type of the session service layer.

use crate::config::ConfigError;
use crate::protocol::ConnectionError;
use crate::pty::PtyError;
use vstd::prelude::*;

verus! {

/// Failure in the session service layer.
#[derive(Debug)]
pub enum ServiceError {
    /// Input/output fault, with its description.
    Io(String),
    /// Terminal process fault.
    Pty(PtyError),
    /// Transport fault.
    Connection(ConnectionError),
    /// No session with the given identifier.
    SessionNotFound(String),
    /// A session with the given identifier already exists.
    SessionAlreadyExists(String),
    /// The session could not be initialized.
    SessionInitialization(String),
    /// A message could not be handled.
    MessageHandling(String),
    /// The terminal process could not be created.
    PtyCreation(String),
    /// Session resources could not be released.
    ResourceCleanup(String),
    /// Configuration fault.
    Config(ConfigError),
    /// Any other service fault.
    Other(String),
}

} // verus!
