//! Server profiles and their stored-row form.

use vstd::prelude::*;

use crate::errors::JumpError;
use crate::method::{decode, decode_spec, encode_spec, ConnectMethods};

verus! {

/// The port an SSH server listens on when none is given.
pub const DEFAULT_PORT: u32 = 22;

/// A named server profile: the unit the registry stores, keyed by its unique
/// `server_name`.
#[derive(Debug, Clone, PartialEq, Eq)]
pub struct ServerProfile {
    pub server_name: String,
    pub username: String,
    pub server_address: String,
    pub port: u32,
    pub method: ConnectMethods,
}

/// What a stored row holds besides the server name: username, address, port,
/// and the encoded method token.
pub type RowModel = (Seq<char>, Seq<char>, u32, Seq<char>);

/// A row exactly as the backing table stores it: the method still encoded as
/// its text token.
#[derive(Debug, Clone, PartialEq, Eq)]
pub struct StoredRow {
    pub server_name: String,
    pub username: String,
    pub server_address: String,
    pub port: u32,
    pub method: String,
}

impl StoredRow {
    /// The row's value part, as the store model keeps it under the name.
    pub open spec fn val(self) -> RowModel {
        (self.username@, self.server_address@, self.port, self.method@)
    }
}

impl ServerProfile {
    /// A well-formed profile: a non-empty name and a port in the valid range.
    pub open spec fn wf(self) -> bool {
        self.server_name@.len() > 0 && 1 <= self.port <= 65535
    }

    /// Builds a profile; when no port is given, the SSH default 22 is used.
    pub fn new(
        server_name: String,
        username: String,
        server_address: String,
        port: Option<u32>,
        method: ConnectMethods,
    ) -> (r: ServerProfile)
        ensures
            r.server_name == server_name,
            r.username == username,
            r.server_address == server_address,
            r.method == method,
            r.port == match port {
                Some(p) => p,
                None => DEFAULT_PORT,
            },
    {
        let port_value = match port {
            Some(p) => p,
            None => DEFAULT_PORT,
        };
        ServerProfile { server_name, username, server_address, port: port_value, method }
    }

    /// The profile as the table stores it: the method encoded to its token.
    pub fn to_row(&self) -> (r: StoredRow)
        ensures
            r.server_name@ == self.server_name@,
            r.val() == (self.username@, self.server_address@, self.port, encode_spec(
                self.method@,
            )),
    {
        StoredRow {
            server_name: self.server_name.clone(),
            username: self.username.clone(),
            server_address: self.server_address.clone(),
            port: self.port,
            method: self.method.encode(),
        }
    }

    /// Decodes a stored row back into a profile. Fails with
    /// `MalformedCredentialToken` exactly when the stored token has no colon.
    pub fn from_row(row: &StoredRow) -> (r: Result<ServerProfile, JumpError>)
        ensures
            match r {
                Ok(p) => p.server_name@ == row.server_name@ && p.username@ == row.username@
                    && p.server_address@ == row.server_address@ && p.port == row.port
                    && decode_spec(row.method@) == Some(p.method@),
                Err(e) => e == JumpError::MalformedCredentialToken && decode_spec(row.method@)
                    is None,
            },
    {
        match decode(row.method.as_str()) {
            Ok(method) => Ok(
                ServerProfile {
                    server_name: row.server_name.clone(),
                    username: row.username.clone(),
                    server_address: row.server_address.clone(),
                    port: row.port,
                    method,
                },
            ),
            Err(e) => Err(e),
        }
    }
}

} // verus!
