//! The process-wide configuration for one invocation.

use vstd::prelude::*;

use crate::json::{JsonDoc, JsonDocV};

verus! {

/// Read-only configuration for one provisioning run: the target identifier
/// as given by the caller, the root directory for secret output, and the
/// optional per-backend configuration entries, keyed by backend name.
///
/// A backend is configured only if its entry is present here and has the
/// shape that backend expects; absence and a malformed entry both make the
/// backend unavailable, never a hard error.
#[derive(Debug)]
pub struct Config {
    pub derivation: String,
    pub secret_dir: String,
    pub backend_config: Option<Vec<(String, JsonDoc)>>,
}

/// The mathematical value of a [`Config`].
pub struct ConfigV {
    pub derivation: Seq<char>,
    pub secret_dir: Seq<char>,
    pub backend_config: Option<Seq<(Seq<char>, JsonDocV)>>,
}

impl View for Config {
    type V = ConfigV;

    open spec fn view(&self) -> ConfigV {
        ConfigV {
            derivation: self.derivation@,
            secret_dir: self.secret_dir@,
            backend_config: self.backend_config.deep_view(),
        }
    }
}

} // verus!
