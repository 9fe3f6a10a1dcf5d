//! The error taxonomy of the registry.

use vstd::prelude::*;

verus! {

/// Everything that can go wrong in the registry core.
///
/// Each variant is terminal for the current operation; there is no retry or
/// recovery inside the library.
#[derive(Debug, Clone, Copy, PartialEq, Eq)]
pub enum JumpError {
    /// `add` was given a server name that is already stored.
    DuplicateServerName,
    /// `get` or `connect` was given a name with no stored profile.
    ServerNotFound,
    /// A stored method token has no colon, so it has no tag and no payload.
    MalformedCredentialToken,
    /// A key path could not be represented in the argument encoding that the
    /// SSH client requires.
    InvalidKeyPath,
    /// The backing table or its file could not be reached or altered.
    StorageUnavailable,
    /// The external SSH process could not be launched at all.
    ChildProcessLaunchFailed,
}

impl JumpError {
    /// A short human-readable description, for the surrounding CLI to print.
    pub fn describe(&self) -> (r: &'static str)
        ensures
            r@.len() > 0,
    {
        proof {
            reveal_strlit("a profile with this server name already exists");
            reveal_strlit("no profile with this server name exists");
            reveal_strlit("stored credential token is malformed");
            reveal_strlit("the ssh key path cannot be passed to the ssh client");
            reveal_strlit("the profile store is unavailable");
            reveal_strlit("the ssh process could not be launched");
        }
        match self {
            JumpError::DuplicateServerName => "a profile with this server name already exists",
            JumpError::ServerNotFound => "no profile with this server name exists",
            JumpError::MalformedCredentialToken => "stored credential token is malformed",
            JumpError::InvalidKeyPath => "the ssh key path cannot be passed to the ssh client",
            JumpError::StorageUnavailable => "the profile store is unavailable",
            JumpError::ChildProcessLaunchFailed => "the ssh process could not be launched",
        }
    }
}

} // verus!
