//! The single-executable backend: runs a configured program that prints a
//! secret's plaintext to standard output.

use vstd::prelude::*;

use crate::backend::{backend_entry_spec, get_backend_config, CommandEnv, CommandEnvV, CommandSpec, CommandSpecV};
use crate::config::{Config, ConfigV};
use crate::error::{Error, ErrorV};
use crate::json::{assoc_get, assoc_of, JsonDoc, JsonDocV, JsonField, JsonFieldV};
use crate::secret::Secret;

verus! {

/// The single-executable backend's configuration: the path of the program
/// to run.
#[derive(Debug)]
pub struct BackendConfig {
    pub file: String,
}

/// The mathematical value of a [`BackendConfig`].
pub struct BackendConfigV {
    pub file: Seq<char>,
}

impl View for BackendConfig {
    type V = BackendConfigV;

    open spec fn view(&self) -> BackendConfigV {
        BackendConfigV { file: self.file@ }
    }
}

/// The configuration a backend entry denotes for this backend: an object
/// with a string `file`.
pub open spec fn config_of_doc(d: JsonDocV) -> Option<BackendConfigV> {
    match d {
        JsonDocV::NotObject => None,
        JsonDocV::Object(fields) => match assoc_of(fields, "file"@) {
            Some(JsonFieldV::Text(file)) => Some(BackendConfigV { file: file }),
            _ => None,
        },
    }
}

/// A backend that runs an arbitrary configured executable: the secret's
/// name is passed as the sole argument, and the executable writes the full
/// plaintext to standard output.
#[derive(Debug)]
pub struct Executable {
    pub config: BackendConfig,
}

/// The mathematical value of an [`Executable`] backend.
pub struct ExecutableV {
    pub config: BackendConfigV,
}

impl View for Executable {
    type V = ExecutableV;

    open spec fn view(&self) -> ExecutableV {
        ExecutableV { config: self.config@ }
    }
}

/// What constructing this backend yields: its entry, read into shape, with
/// a shapeless entry reported like a missing one.
pub open spec fn new_spec(c: ConfigV) -> Result<ExecutableV, ErrorV> {
    match backend_entry_spec(c, "executable"@) {
        Err(e) => Err(e),
        Ok(d) => match config_of_doc(d) {
            Some(bc) => Ok(ExecutableV { config: bc }),
            None => Err(ErrorV::NoBackendConfig("executable"@)),
        },
    }
}

/// The subprocess this backend runs: the configured program with the
/// secret's name as its only argument, in the inherited environment.
pub open spec fn command_spec(x: ExecutableV, name: Seq<char>) -> CommandSpecV {
    CommandSpecV {
        program: x.config.file,
        args: seq![name],
        env: CommandEnvV::Inherit,
    }
}

impl Executable {
    /// Creates a new single-executable backend from the configuration.
    pub fn new(root_config: &Config) -> (r: Result<Self, Error>)
        ensures
            match r {
                Ok(x) => new_spec(root_config@) == Ok::<ExecutableV, ErrorV>(x@),
                Err(e) => new_spec(root_config@) == Err::<ExecutableV, ErrorV>(e@),
            },
    {
        let entry = match get_backend_config(root_config, "executable") {
            Ok(d) => d,
            Err(e) => {
                return Err(e);
            },
        };
        let fields = match entry {
            JsonDoc::Object(fields) => fields,
            JsonDoc::NotObject => {
                return Err(Error::NoBackendConfig("executable".to_owned()));
            },
        };
        match assoc_get(fields, "file") {
            Some(JsonField::Text(t)) => Ok(
                Executable { config: BackendConfig { file: t.clone() } },
            ),
            _ => Err(Error::NoBackendConfig("executable".to_owned())),
        }
    }

    /// Whether the configuration meets this backend's requirements.
    pub fn validate_config(root_config: &Config) -> (r: bool)
        ensures
            r == (new_spec(root_config@) is Ok),
    {
        match Executable::new(root_config) {
            Ok(_) => true,
            Err(_) => false,
        }
    }

    /// The subprocess that resolves `secret` through this backend.
    pub fn command(&self, secret: &Secret) -> (r: CommandSpec)
        ensures
            r@ == command_spec(self@, secret@.name),
    {
        let mut args: Vec<String> = Vec::new();
        args.push(secret.name.clone());
        let r = CommandSpec {
            program: self.config.file.clone(),
            args,
            env: CommandEnv::Inherit,
        };
        proof {
            assert(r@.args =~= command_spec(self@, secret@.name).args);
        }
        r
    }
}

} // verus!
