//! The closed set of decryption backends: the fixed fallback order, the
//! lookup of each backend's configuration, and the subprocess invocation
//! each backend asks the host to run.

use vstd::prelude::*;

use crate::config::{Config, ConfigV};
use crate::error::{Error, ErrorV};
use crate::json::{assoc_get, assoc_of, JsonDoc, JsonDocV};
use crate::secret::Secret;

pub mod executable;
pub mod sops;

use executable::{Executable, ExecutableV};
use sops::{Sops, SopsV};

verus! {

/// A decryption backend kind. The set is closed: every secret is resolved
/// by one of these, and the fallback order over them is fixed.
#[derive(Copy, Clone, PartialEq, Eq, Structural, Debug, Hash)]
pub enum BackendKind {
    Sops,
    Executable,
}

/// The fixed registry order in which backends are tried when falling back:
/// the external-tool backend first, then the single-executable backend.
pub open spec fn registry_order() -> Seq<BackendKind> {
    seq![BackendKind::Sops, BackendKind::Executable]
}

/// The position of a kind in the fixed registry order.
pub open spec fn registry_index(k: BackendKind) -> int {
    match k {
        BackendKind::Sops => 0,
        BackendKind::Executable => 1,
    }
}

/// The registry order as a vector, for callers that enumerate it.
pub fn registry_kinds() -> (r: Vec<BackendKind>)
    ensures
        r@ == registry_order(),
{
    let mut r: Vec<BackendKind> = Vec::new();
    r.push(BackendKind::Sops);
    r.push(BackendKind::Executable);
    proof {
        assert(r@ =~= registry_order());
    }
    r
}

/// The environment a backend subprocess runs in.
#[derive(Debug)]
pub enum CommandEnv {
    /// The parent process' environment, unchanged.
    Inherit,
    /// The parent's environment cleared except `PATH`, with these variables
    /// set on top.
    CleanKeepPath(Vec<(String, String)>),
}

/// The mathematical value of a [`CommandEnv`].
pub enum CommandEnvV {
    Inherit,
    CleanKeepPath(Seq<(Seq<char>, Seq<char>)>),
}

impl View for CommandEnv {
    type V = CommandEnvV;

    open spec fn view(&self) -> CommandEnvV {
        match self {
            CommandEnv::Inherit => CommandEnvV::Inherit,
            CommandEnv::CleanKeepPath(overlay) => CommandEnvV::CleanKeepPath(overlay.deep_view()),
        }
    }
}

/// One subprocess the host is asked to run on a backend's behalf: the
/// program, its arguments in order, and the environment policy. The host
/// captures standard output, and the run counts as successful exactly when
/// the process exits with status zero.
#[derive(Debug)]
pub struct CommandSpec {
    pub program: String,
    pub args: Vec<String>,
    pub env: CommandEnv,
}

/// The mathematical value of a [`CommandSpec`].
pub struct CommandSpecV {
    pub program: Seq<char>,
    pub args: Seq<Seq<char>>,
    pub env: CommandEnvV,
}

impl View for CommandSpec {
    type V = CommandSpecV;

    open spec fn view(&self) -> CommandSpecV {
        CommandSpecV { program: self.program@, args: self.args.deep_view(), env: self.env@ }
    }
}

/// The backend configuration entry a name selects: absence of the whole
/// mapping and absence of the entry are the two lookup failures.
pub open spec fn backend_entry_spec(c: ConfigV, name: Seq<char>) -> Result<JsonDocV, ErrorV> {
    match c.backend_config {
        None => Err(ErrorV::NoConfigForBackends),
        Some(entries) => match assoc_of(entries, name) {
            Some(d) => Ok(d),
            None => Err(ErrorV::NoBackendConfig(name)),
        },
    }
}

/// Picks one backend's configuration entry out of the global configuration.
pub fn get_backend_config<'a>(config: &'a Config, backend_name: &str) -> (r: Result<
    &'a JsonDoc,
    Error,
>)
    ensures
        match r {
            Ok(d) => backend_entry_spec(config@, backend_name@) == Ok::<JsonDocV, ErrorV>(d@),
            Err(e) => backend_entry_spec(config@, backend_name@) == Err::<JsonDocV, ErrorV>(e@),
        },
{
    match &config.backend_config {
        None => Err(Error::NoConfigForBackends),
        Some(entries) => match assoc_get(entries, backend_name) {
            Some(d) => Ok(d),
            None => Err(Error::NoBackendConfig(backend_name.to_owned())),
        },
    }
}

/// A constructed backend, carrying its validated configuration. Dispatch is
/// by pattern match over this closed set.
#[derive(Debug)]
pub enum Backend {
    Sops(Sops),
    Executable(Executable),
}

/// The mathematical value of a [`Backend`].
pub enum BackendV {
    Sops(SopsV),
    Executable(ExecutableV),
}

impl View for Backend {
    type V = BackendV;

    open spec fn view(&self) -> BackendV {
        match self {
            Backend::Sops(s) => BackendV::Sops(s@),
            Backend::Executable(e) => BackendV::Executable(e@),
        }
    }
}

impl DeepView for Backend {
    type V = BackendV;

    open spec fn deep_view(&self) -> BackendV {
        self.view()
    }
}

/// The kind of a constructed backend.
pub open spec fn kind_of(b: BackendV) -> BackendKind {
    match b {
        BackendV::Sops(_) => BackendKind::Sops,
        BackendV::Executable(_) => BackendKind::Executable,
    }
}

/// What constructing a backend of `kind` from the configuration yields:
/// its entry looked up and read into the shape the kind expects, with a
/// shapeless entry reported like a missing one.
pub open spec fn create_spec(kind: BackendKind, c: ConfigV) -> Result<BackendV, ErrorV> {
    match kind {
        BackendKind::Sops => match sops::new_spec(c) {
            Ok(s) => Ok(BackendV::Sops(s)),
            Err(e) => Err(e),
        },
        BackendKind::Executable => match executable::new_spec(c) {
            Ok(x) => Ok(BackendV::Executable(x)),
            Err(e) => Err(e),
        },
    }
}

/// Whether `kind` is configured: its entry is present and has the expected
/// shape, so that construction succeeds.
pub open spec fn configured(kind: BackendKind, c: ConfigV) -> bool {
    create_spec(kind, c) is Ok
}

/// Asks a backend kind whether the configuration meets its requirements.
pub fn validate_config(backend_kind: BackendKind, config: &Config) -> (r: bool)
    ensures
        r == configured(backend_kind, config@),
{
    match backend_kind {
        BackendKind::Sops => Sops::validate_config(config),
        BackendKind::Executable => Executable::validate_config(config),
    }
}

/// Instantiates a new `backend_kind` backend from the configuration.
pub fn create(backend_kind: BackendKind, config: &Config) -> (r: Result<Backend, Error>)
    ensures
        match r {
            Ok(b) => create_spec(backend_kind, config@) == Ok::<BackendV, ErrorV>(b@),
            Err(e) => create_spec(backend_kind, config@) == Err::<BackendV, ErrorV>(e@),
        },
{
    match backend_kind {
        BackendKind::Sops => match Sops::new(config) {
            Ok(s) => Ok(Backend::Sops(s)),
            Err(e) => Err(e),
        },
        BackendKind::Executable => match Executable::new(config) {
            Ok(x) => Ok(Backend::Executable(x)),
            Err(e) => Err(e),
        },
    }
}

/// The subprocess a backend runs to resolve the named secret.
pub open spec fn command_spec(b: BackendV, name: Seq<char>) -> CommandSpecV {
    match b {
        BackendV::Sops(s) => sops::command_spec(s, name),
        BackendV::Executable(x) => executable::command_spec(x, name),
    }
}

impl Backend {
    /// The kind this backend was constructed as.
    pub fn kind(&self) -> (r: BackendKind)
        ensures
            r == kind_of(self@),
    {
        match self {
            Backend::Sops(_) => BackendKind::Sops,
            Backend::Executable(_) => BackendKind::Executable,
        }
    }

    /// The subprocess that resolves `secret` through this backend. The host
    /// runs it; the secret's plaintext is the captured standard output of a
    /// zero-exit run.
    pub fn command(&self, secret: &Secret) -> (r: CommandSpec)
        ensures
            r@ == command_spec(self@, secret@.name),
    {
        match self {
            Backend::Sops(s) => s.command(secret),
            Backend::Executable(x) => x.command(secret),
        }
    }
}

} // verus!
