//! The provisioning error taxonomy.
//!
//! Per-backend failures never appear here: the orchestrator swallows them
//! into "no result" and keeps trying. Only batch-level failures do — a
//! malformed declaration, exhaustion of every backend for one secret, a
//! store failure, or a filesystem failure reported by the host.

use vstd::prelude::*;
use vstd::string::*;

use crate::nixstore;
use crate::secret::{Secret, SecretV};

verus! {

/// A failure that aborts the whole invocation.
#[derive(Debug)]
pub enum Error {
    /// The store collaborator failed.
    NixError(nixstore::Error),
    /// A serialized secret declaration did not parse; carries the offending
    /// declaration text.
    ParseSecret(String),
    /// The configuration has no backend configuration mapping at all.
    NoConfigForBackends,
    /// The named backend has no usable entry in the backend configuration.
    NoBackendConfig(String),
    /// Every applicable backend was tried and none produced content.
    NoSuccessfulBackends(Secret),
    /// The secret file could not be created; carries the path and the
    /// reported cause.
    CreateSecretFile { path: String, source: String },
    /// The secret file could not be written; carries the path and the
    /// reported cause.
    WriteSecret { path: String, source: String },
    /// The given store path does not name a derivation.
    StorePathIsNotDerivation,
    /// The per-target secret directory could not be created; carries the
    /// path and the reported cause.
    CreateDrvSecretDir { path: String, source: String },
}

/// The mathematical value of an [`Error`].
pub enum ErrorV {
    NixError(nixstore::ErrorV),
    ParseSecret(Seq<char>),
    NoConfigForBackends,
    NoBackendConfig(Seq<char>),
    NoSuccessfulBackends(SecretV),
    CreateSecretFile { path: Seq<char>, source: Seq<char> },
    WriteSecret { path: Seq<char>, source: Seq<char> },
    StorePathIsNotDerivation,
    CreateDrvSecretDir { path: Seq<char>, source: Seq<char> },
}

impl View for Error {
    type V = ErrorV;

    open spec fn view(&self) -> ErrorV {
        match self {
            Error::NixError(e) => ErrorV::NixError(e@),
            Error::ParseSecret(t) => ErrorV::ParseSecret(t@),
            Error::NoConfigForBackends => ErrorV::NoConfigForBackends,
            Error::NoBackendConfig(b) => ErrorV::NoBackendConfig(b@),
            Error::NoSuccessfulBackends(s) => ErrorV::NoSuccessfulBackends(s@),
            Error::CreateSecretFile { path, source } => ErrorV::CreateSecretFile {
                path: path@,
                source: source@,
            },
            Error::WriteSecret { path, source } => ErrorV::WriteSecret {
                path: path@,
                source: source@,
            },
            Error::StorePathIsNotDerivation => ErrorV::StorePathIsNotDerivation,
            Error::CreateDrvSecretDir { path, source } => ErrorV::CreateDrvSecretDir {
                path: path@,
                source: source@,
            },
        }
    }
}

/// The text of an [`Error`], as a value.
pub open spec fn message_spec(e: ErrorV) -> Seq<char> {
    match e {
        ErrorV::NixError(source) => "an error occurred while interfacing with nix: "@
            + nixstore::message_spec(source),
        ErrorV::ParseSecret(decl) => "failed to parse secret: "@ + decl,
        ErrorV::NoConfigForBackends => "no \"backend_config\" in config"@,
        ErrorV::NoBackendConfig(backend) => "no backend config for "@ + backend,
        ErrorV::NoSuccessfulBackends(secret) => "no backends could decrypt the secret \""@
            + secret.name + "\""@,
        ErrorV::CreateSecretFile { path, source } => "can't create secret file \""@ + path
            + "\": "@ + source,
        ErrorV::WriteSecret { path, source } => "can't write secret file \""@ + path + "\": "@
            + source,
        ErrorV::StorePathIsNotDerivation => "store path is not a derivation"@,
        ErrorV::CreateDrvSecretDir { path, source } =>
            "can't create derivation secret directory \""@ + path + "\": "@ + source,
    }
}

impl Error {
    /// The human-readable description of this failure.
    pub fn message(&self) -> (r: String)
        ensures
            r@ == message_spec(self@),
    {
        match self {
            Error::NixError(source) => {
                let mut r: String = "an error occurred while interfacing with nix: ".to_owned();
                let m = source.message();
                r.append(m.as_str());
                r
            },
            Error::ParseSecret(decl) => {
                let mut r: String = "failed to parse secret: ".to_owned();
                r.append(decl.as_str());
                r
            },
            Error::NoConfigForBackends => "no \"backend_config\" in config".to_owned(),
            Error::NoBackendConfig(backend) => {
                let mut r: String = "no backend config for ".to_owned();
                r.append(backend.as_str());
                r
            },
            Error::NoSuccessfulBackends(secret) => {
                let mut r: String = "no backends could decrypt the secret \"".to_owned();
                r.append(secret.name.as_str());
                r.append("\"");
                r
            },
            Error::CreateSecretFile { path, source } => {
                let mut r: String = "can't create secret file \"".to_owned();
                r.append(path.as_str());
                r.append("\": ");
                r.append(source.as_str());
                r
            },
            Error::WriteSecret { path, source } => {
                let mut r: String = "can't write secret file \"".to_owned();
                r.append(path.as_str());
                r.append("\": ");
                r.append(source.as_str());
                r
            },
            Error::StorePathIsNotDerivation => "store path is not a derivation".to_owned(),
            Error::CreateDrvSecretDir { path, source } => {
                let mut r: String = "can't create derivation secret directory \"".to_owned();
                r.append(path.as_str());
                r.append("\": ");
                r.append(source.as_str());
                r
            },
        }
    }
}

} // verus!
