//! The external-tool backend: asks the `sops` program to decrypt one entry
//! of an encrypted bundle.

use vstd::prelude::*;
use vstd::string::*;

use crate::backend::{backend_entry_spec, get_backend_config, CommandEnv, CommandEnvV, CommandSpec, CommandSpecV};
use crate::config::{Config, ConfigV};
use crate::error::{Error, ErrorV};
use crate::json::{assoc_get, assoc_of, string_entries, string_entries_of, JsonDoc, JsonDocV, JsonField, JsonFieldV};
use crate::secret::Secret;

verus! {

/// The external-tool backend's configuration: the encrypted bundle to
/// extract from, and an optional environment overlay for the tool process.
#[derive(Debug)]
pub struct BackendConfig {
    pub sops_file: String,
    pub environment: Option<Vec<(String, String)>>,
}

/// The mathematical value of a [`BackendConfig`].
pub struct BackendConfigV {
    pub sops_file: Seq<char>,
    pub environment: Option<Seq<(Seq<char>, Seq<char>)>>,
}

impl View for BackendConfig {
    type V = BackendConfigV;

    open spec fn view(&self) -> BackendConfigV {
        BackendConfigV {
            sops_file: self.sops_file@,
            environment: self.environment.deep_view(),
        }
    }
}

/// How an `environment` field reads as an overlay: absent or null means
/// none, an object of strings is the overlay, and anything else makes the
/// entry shapeless (the outer `None`).
pub open spec fn environment_of_field(f: Option<JsonFieldV>) -> Option<
    Option<Seq<(Seq<char>, Seq<char>)>>,
> {
    match f {
        None => Some(None),
        Some(JsonFieldV::Null) => Some(None),
        Some(JsonFieldV::Object(entries)) => match string_entries_of(entries) {
            Some(m) => Some(Some(m)),
            None => None,
        },
        Some(_) => None,
    }
}

/// The configuration a backend entry denotes for this backend: an object
/// with a string `sops_file` and a well-formed optional `environment`.
pub open spec fn config_of_doc(d: JsonDocV) -> Option<BackendConfigV> {
    match d {
        JsonDocV::NotObject => None,
        JsonDocV::Object(fields) => match (
            assoc_of(fields, "sops_file"@),
            environment_of_field(assoc_of(fields, "environment"@)),
        ) {
            (Some(JsonFieldV::Text(file)), Some(env)) => Some(
                BackendConfigV { sops_file: file, environment: env },
            ),
            _ => None,
        },
    }
}

/// Copies an environment overlay pair by pair.
fn clone_string_pairs(v: &Vec<(String, String)>) -> (r: Vec<(String, String)>)
    ensures
        r@ == v@,
{
    let mut r: Vec<(String, String)> = Vec::new();
    let mut i: usize = 0;
    while i < v.len()
        invariant
            i <= v.len(),
            r@.len() == i,
            forall|j: int| 0 <= j < i ==> r@[j] == v@[j],
        decreases v.len() - i,
    {
        let pair = (v[i].0.clone(), v[i].1.clone());
        r.push(pair);
        i = i + 1;
    }
    proof {
        assert(r@ =~= v@);
    }
    r
}

/// This backend asks the `sops` tool to decrypt the required secret out of
/// the configured bundle, with the configured environment overlay applied
/// over a cleared environment that keeps only `PATH`.
#[derive(Debug)]
pub struct Sops {
    pub config: BackendConfig,
}

/// The mathematical value of a [`Sops`] backend.
pub struct SopsV {
    pub config: BackendConfigV,
}

impl View for Sops {
    type V = SopsV;

    open spec fn view(&self) -> SopsV {
        SopsV { config: self.config@ }
    }
}

/// What constructing this backend yields: its entry, read into shape, with
/// a shapeless entry reported like a missing one.
pub open spec fn new_spec(c: ConfigV) -> Result<SopsV, ErrorV> {
    match backend_entry_spec(c, "sops"@) {
        Err(e) => Err(e),
        Ok(d) => match config_of_doc(d) {
            Some(bc) => Ok(SopsV { config: bc }),
            None => Err(ErrorV::NoBackendConfig("sops"@)),
        },
    }
}

/// Reads a backend configuration entry into this backend's shape.
fn parse_config(d: &JsonDoc) -> (r: Option<BackendConfig>)
    ensures
        match r {
            Some(bc) => config_of_doc(d@) == Some(bc@),
            None => config_of_doc(d@) is None,
        },
{
    let fields = match d {
        JsonDoc::Object(fields) => fields,
        JsonDoc::NotObject => {
            return None;
        },
    };
    let sops_file: String = match assoc_get(fields, "sops_file") {
        Some(JsonField::Text(t)) => t.clone(),
        _ => {
            return None;
        },
    };
    let environment: Option<Vec<(String, String)>> = match assoc_get(fields, "environment") {
        None => None,
        Some(JsonField::Null) => None,
        Some(JsonField::Object(entries)) => match string_entries(entries) {
            Some(m) => Some(m),
            None => {
                return None;
            },
        },
        Some(_) => {
            return None;
        },
    };
    Some(BackendConfig { sops_file, environment })
}

/// The subprocess this backend runs: the `sops` program, extracting the
/// entry named like the secret from the configured bundle, in a cleaned
/// environment with the configured overlay.
pub open spec fn command_spec(s: SopsV, name: Seq<char>) -> CommandSpecV {
    CommandSpecV {
        program: "sops"@,
        args: seq![
            "--extract"@,
            "[\""@ + name + "\"]"@,
            "-d"@,
            s.config.sops_file,
        ],
        env: CommandEnvV::CleanKeepPath(
            match s.config.environment {
                Some(overlay) => overlay,
                None => Seq::empty(),
            },
        ),
    }
}

impl Sops {
    /// Creates a new external-tool backend from the configuration.
    pub fn new(root_config: &Config) -> (r: Result<Self, Error>)
        ensures
            match r {
                Ok(s) => new_spec(root_config@) == Ok::<SopsV, ErrorV>(s@),
                Err(e) => new_spec(root_config@) == Err::<SopsV, ErrorV>(e@),
            },
    {
        let entry = match get_backend_config(root_config, "sops") {
            Ok(d) => d,
            Err(e) => {
                return Err(e);
            },
        };
        match parse_config(entry) {
            Some(config) => Ok(Sops { config }),
            None => Err(Error::NoBackendConfig("sops".to_owned())),
        }
    }

    /// Whether the configuration meets this backend's requirements.
    pub fn validate_config(root_config: &Config) -> (r: bool)
        ensures
            r == (new_spec(root_config@) is Ok),
    {
        match Sops::new(root_config) {
            Ok(_) => true,
            Err(_) => false,
        }
    }

    /// The subprocess that resolves `secret` through this backend.
    pub fn command(&self, secret: &Secret) -> (r: CommandSpec)
        ensures
            r@ == command_spec(self@, secret@.name),
    {
        let mut selector: String = "[\"".to_owned();
        selector.append(secret.name.as_str());
        selector.append("\"]");
        let mut args: Vec<String> = Vec::new();
        args.push("--extract".to_owned());
        args.push(selector);
        args.push("-d".to_owned());
        args.push(self.config.sops_file.clone());
        let overlay: Vec<(String, String)> = match &self.config.environment {
            Some(e) => clone_string_pairs(e),
            None => Vec::new(),
        };
        let r = CommandSpec {
            program: "sops".to_owned(),
            args,
            env: CommandEnv::CleanKeepPath(overlay),
        };
        proof {
            assert(r@.args =~= command_spec(self@, secret@.name).args);
            assert(r@.env->CleanKeepPath_0 =~= command_spec(self@, secret@.name).env->CleanKeepPath_0);
        }
        r
    }
}

} // verus!
