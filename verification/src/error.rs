//! The error kinds that every operation of the library reports.

use vstd::prelude::*;
use vstd::string::StringExecFns;

verus! {

/// Why an operation failed. Errors are never retried; each one ends the
/// command that met it.
#[derive(Debug, Clone, PartialEq, Eq)]
pub enum RemoteError {
    /// The provider knows no instance with this id.
    NotFound { instance_id: String },
    /// No alias is marked active.
    NoActiveInstance,
    /// The alias is not configured in the profile store.
    UnknownAlias { alias: String },
    /// The alias is already configured in the profile store.
    DuplicateAlias { alias: String },
    /// The active alias names no configured instance.
    DanglingActiveAlias { alias: String },
    /// The operation needs a running instance.
    InvalidState,
    /// The instance is running but reports no public DNS name.
    MissingPublicAddress,
    /// The provider's response lacks a field that must be present.
    UpstreamProtocolError,
    /// The provider's SDK failed on the network or on credentials.
    CredentialOrTransportError { message: String },
    /// The cloud name is not one the library knows.
    UnsupportedProvider,
    /// The profile file or a key file could not be read, written or found.
    FileSystemError { message: String },
}

impl RemoteError {
    /// The single line of text shown to the user for this error.
    pub open spec fn message_text(self) -> Seq<char> {
        match self {
            RemoteError::NotFound { instance_id } => "Could not find instance "@ + instance_id@,
            RemoteError::NoActiveInstance => "No active instance"@,
            RemoteError::UnknownAlias { alias } => "No instance with alias '"@ + alias@
                + "' found, you may need to create it first"@,
            RemoteError::DuplicateAlias { alias } => "Instance with alias '"@ + alias@
                + "' already exists"@,
            RemoteError::DanglingActiveAlias { alias } => "Active instance '"@ + alias@
                + "' not found in instance list"@,
            RemoteError::InvalidState => "Instance is not running"@,
            RemoteError::MissingPublicAddress => "Instance has no public DNS"@,
            RemoteError::UpstreamProtocolError => "Provider response is missing an expected field"@,
            RemoteError::CredentialOrTransportError { message } => message@,
            RemoteError::UnsupportedProvider => "Unsupported cloud provider"@,
            RemoteError::FileSystemError { message } => message@,
        }
    }

    /// Renders the error as the text of `message_text`.
    pub fn message(&self) -> (text: String)
        ensures
            text@ == self.message_text(),
    {
        match self {
            RemoteError::NotFound { instance_id } => {
                let mut text = String::from_str("Could not find instance ");
                text.append(instance_id.as_str());
                text
            },
            RemoteError::NoActiveInstance => String::from_str("No active instance"),
            RemoteError::UnknownAlias { alias } => {
                let mut text = String::from_str("No instance with alias '");
                text.append(alias.as_str());
                text.append("' found, you may need to create it first");
                text
            },
            RemoteError::DuplicateAlias { alias } => {
                let mut text = String::from_str("Instance with alias '");
                text.append(alias.as_str());
                text.append("' already exists");
                text
            },
            RemoteError::DanglingActiveAlias { alias } => {
                let mut text = String::from_str("Active instance '");
                text.append(alias.as_str());
                text.append("' not found in instance list");
                text
            },
            RemoteError::InvalidState => String::from_str("Instance is not running"),
            RemoteError::MissingPublicAddress => String::from_str("Instance has no public DNS"),
            RemoteError::UpstreamProtocolError => String::from_str(
                "Provider response is missing an expected field",
            ),
            RemoteError::CredentialOrTransportError { message } => message.clone(),
            RemoteError::UnsupportedProvider => String::from_str("Unsupported cloud provider"),
            RemoteError::FileSystemError { message } => message.clone(),
        }
    }
}

} // verus!
