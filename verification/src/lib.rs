//! Provisioning of build-time secrets for sandboxed builds.
//!
//! Given a build target (a derivation) and a list of secret declarations,
//! the library resolves each secret's plaintext through a fixed, ordered
//! set of decryption backends and computes the per-target paths at which
//! the plaintext is committed. Everything that touches the outside world
//! (child processes, the filesystem, the store) is driven by a thin host
//! program against the decisions made and proved here: the host asks a
//! [`SecretResolution`] which subprocess to run next, reports each run's
//! outcome back, and writes committed records where they say.

use vstd::prelude::*;
use vstd::string::*;

pub mod backend;
pub mod config;
pub mod error;
pub mod json;
pub mod nixstore;
pub mod secret;
pub mod text;

pub use backend::{Backend, BackendKind, CommandEnv, CommandSpec};
pub use config::Config;
pub use error::Error;
pub use json::{JsonDoc, JsonField};
pub use secret::{ProvisionedSecret, Secret, SecretContent};

use backend::{command_spec, configured, create_spec, kind_of, registry_index, BackendV};
use config::ConfigV;
use error::ErrorV;
use secret::{parsed_secret, SecretV};
use text::{join_path, join_path_spec, split_on, split_str, strip_ext, strip_ext_spec};

verus! {

/// The backend the hint selects, if it is usable: a hint is a preference,
/// so an unconfigured hinted backend contributes nothing.
pub open spec fn hint_plan(s: SecretV, c: ConfigV) -> Seq<BackendV> {
    match s.backend_hint {
        Some(h) => match create_spec(h, c) {
            Ok(b) => seq![b],
            Err(_) => Seq::empty(),
        },
        None => Seq::empty(),
    }
}

/// The contribution of one registry position to the fallback: the kind,
/// constructed, unless it is the hint (already tried) or unconfigured.
pub open spec fn kind_fallback(k: BackendKind, s: SecretV, c: ConfigV) -> Seq<BackendV> {
    if s.backend_hint == Some(k) {
        Seq::empty()
    } else {
        match create_spec(k, c) {
            Ok(b) => seq![b],
            Err(_) => Seq::empty(),
        }
    }
}

/// The backends tried after the hint: the registry's fixed order, skipping
/// the hinted kind, keeping only configured kinds.
pub open spec fn fallback_plan(s: SecretV, c: ConfigV) -> Seq<BackendV> {
    kind_fallback(BackendKind::Sops, s, c) + kind_fallback(BackendKind::Executable, s, c)
}

/// Every backend that resolution of `s` will try, in order: the usable hint
/// first, then the remaining configured kinds in registry order.
pub open spec fn plan_spec(s: SecretV, c: ConfigV) -> Seq<BackendV> {
    hint_plan(s, c) + fallback_plan(s, c)
}

/// The kinds of the planned backends, in try order.
pub open spec fn plan_kinds(s: SecretV, c: ConfigV) -> Seq<BackendKind> {
    plan_spec(s, c).map_values(|b: BackendV| kind_of(b))
}

/// Constructs the backends that resolution of `secret` will try, in order.
fn build_plan(secret: &Secret, config: &Config) -> (r: Vec<Backend>)
    ensures
        r.deep_view() == plan_spec(secret@, config@),
{
    let mut plan: Vec<Backend> = Vec::new();
    match secret.backend_hint {
        Some(h) => {
            if backend::validate_config(h, config) {
                match backend::create(h, config) {
                    Ok(b) => plan.push(b),
                    Err(_) => {
                        proof {
                            assert(false);
                        }
                    },
                }
            }
        },
        None => {},
    }
    let skip_sops = match secret.backend_hint {
        Some(BackendKind::Sops) => true,
        _ => false,
    };
    let skip_executable = match secret.backend_hint {
        Some(BackendKind::Executable) => true,
        _ => false,
    };
    if !skip_sops && backend::validate_config(BackendKind::Sops, config) {
        match backend::create(BackendKind::Sops, config) {
            Ok(b) => plan.push(b),
            Err(_) => {
                proof {
                    assert(false);
                }
            },
        }
    }
    if !skip_executable && backend::validate_config(BackendKind::Executable, config) {
        match backend::create(BackendKind::Executable, config) {
            Ok(b) => plan.push(b),
            Err(_) => {
                proof {
                    assert(false);
                }
            },
        }
    }
    proof {
        assert(plan.deep_view() =~= plan_spec(secret@, config@));
    }
    plan
}

/// The resolution of one secret, stepped by the host: the host runs the
/// command of [`Self::next_command`], reports a failed run through
/// [`Self::record_failure`], and stops at the first successful run. The
/// backends consulted are exactly the plan's, in order, each at most once.
#[derive(Debug)]
pub struct SecretResolution {
    secret: Secret,
    plan: Vec<Backend>,
    next: usize,
}

/// The mathematical value of a [`SecretResolution`].
pub struct SecretResolutionV {
    pub secret: SecretV,
    pub plan: Seq<BackendV>,
    pub next: int,
}

impl View for SecretResolution {
    type V = SecretResolutionV;

    closed spec fn view(&self) -> SecretResolutionV {
        SecretResolutionV {
            secret: self.secret@,
            plan: self.plan.deep_view(),
            next: self.next as int,
        }
    }
}

impl DeepView for SecretResolution {
    type V = SecretResolutionV;

    open spec fn deep_view(&self) -> SecretResolutionV {
        self.view()
    }
}

impl SecretResolution {
    /// The secret under resolution.
    pub fn secret(&self) -> (r: &Secret)
        ensures
            r@ == self@.secret,
    {
        &self.secret
    }

    /// The subprocess to try next, or nothing once every planned backend
    /// has failed.
    pub fn next_command(&self) -> (r: Option<CommandSpec>)
        ensures
            if self@.next < self@.plan.len() {
                r matches Some(cmd) && cmd@ == command_spec(
                    self@.plan[self@.next],
                    self@.secret.name,
                )
            } else {
                r is None
            },
    {
        if self.next < self.plan.len() {
            Some(self.plan[self.next].command(&self.secret))
        } else {
            None
        }
    }

    /// Records that the current backend's run failed (it could not be
    /// spawned, or exited nonzero): resolution moves to the next backend.
    pub fn record_failure(&mut self)
        requires
            old(self)@.next < old(self)@.plan.len(),
        ensures
            final(self)@.secret == old(self)@.secret,
            final(self)@.plan == old(self)@.plan,
            final(self)@.next == old(self)@.next + 1,
    {
        if self.next < self.plan.len() {
            self.next = self.next + 1;
        }
    }

    /// Whether every planned backend has been tried and failed.
    pub fn exhausted(&self) -> (r: bool)
        ensures
            r == (self@.next >= self@.plan.len()),
    {
        self.next >= self.plan.len()
    }

    /// The terminal failure once resolution is exhausted, carrying the full
    /// declaration for diagnostics.
    pub fn into_exhaustion_error(self) -> (r: Error)
        ensures
            r@ == ErrorV::NoSuccessfulBackends(self@.secret),
    {
        Error::NoSuccessfulBackends(self.secret)
    }
}

/// The mathematical value of a [`Provisioner`].
pub struct ProvisionerV {
    pub config: ConfigV,
    pub store_relative_path: Seq<char>,
}

/// The context for provisioning one target's declared secrets: the global
/// configuration and the target's store-relative path, as the store
/// collaborator resolved it.
#[derive(Debug)]
pub struct Provisioner {
    pub config: Config,
    pub store_relative_path: String,
}

impl View for Provisioner {
    type V = ProvisionerV;

    open spec fn view(&self) -> ProvisionerV {
        ProvisionerV {
            config: self.config@,
            store_relative_path: self.store_relative_path@,
        }
    }
}

/// The directory one target's secrets are written to: the configured output
/// root joined with the target's store-relative path, its format suffix
/// stripped. It depends on the target alone, never on the secrets declared.
pub open spec fn secret_dir_spec(p: ProvisionerV) -> Seq<char> {
    strip_ext_spec(join_path_spec(p.config.secret_dir, p.store_relative_path))
}

/// The file one secret is written to: the target's secret directory with
/// the secret's name appended.
pub open spec fn secret_file_spec(p: ProvisionerV, name: Seq<char>) -> Seq<char> {
    join_path_spec(secret_dir_spec(p), name)
}

impl Provisioner {
    /// Creates a new context for provisioning secrets for one target.
    pub fn new(config: Config, store_relative_path: String) -> (r: Self)
        ensures
            r@.config == config@,
            r@.store_relative_path == store_relative_path@,
    {
        Provisioner { config, store_relative_path }
    }

    /// Calculates the secret directory used for this target.
    pub fn derivation_secret_directory(&self) -> (r: String)
        ensures
            r@ == secret_dir_spec(self@),
    {
        let joined = join_path(self.config.secret_dir.as_str(), self.store_relative_path.as_str());
        strip_ext(joined.as_str())
    }

    /// The path a secret's plaintext is committed to: the target's secret
    /// directory with the secret's name as the file name. Two secrets of
    /// one target sharing a name get the same path and overwrite each
    /// other. The host creates the directory before writing.
    pub fn allocate_decrypted_file_path(&self, secret: &Secret) -> (r: String)
        ensures
            r@ == secret_file_spec(self@, secret@.name),
    {
        let dir = self.derivation_secret_directory();
        join_path(dir.as_str(), secret.name.as_str())
    }

    /// Begins resolution of one secret: the hinted backend first where it
    /// is configured, then the remaining configured backends in registry
    /// order, each at most once.
    pub fn provision(&self, secret: &Secret) -> (r: SecretResolution)
        ensures
            r@.secret == secret@,
            r@.plan == plan_spec(secret@, self@.config),
            r@.next == 0,
    {
        SecretResolution {
            secret: secret.clone(),
            plan: build_plan(secret, &self.config),
            next: 0,
        }
    }

    /// The committed record for one resolved secret: the declaration, the
    /// resolved bytes unchanged, and the path to write them to. The host
    /// performs the write; a failure there is fatal and not retried.
    pub fn write_secret_content(&self, secret: &Secret, content: SecretContent) -> (r:
        ProvisionedSecret)
        ensures
            r@.secret == secret@,
            r@.content == content@,
            r@.path == secret_file_spec(self@, secret@.name),
    {
        let path = self.allocate_decrypted_file_path(secret);
        ProvisionedSecret { secret: secret.clone(), content, path }
    }

    /// Parses the target's declared secrets and begins a resolution for
    /// each, in declaration order. An absent or empty declaration blob
    /// means nothing is required: success with nothing to do. Every
    /// declaration is parsed before any resolution is handed out, and the
    /// first malformed declaration fails the whole batch.
    pub fn provision_all(&self, required_secrets: Option<&str>) -> (r: Result<
        Vec<SecretResolution>,
        Error,
    >)
        ensures
            match required_secrets {
                None => r matches Ok(v) && v@.len() == 0,
                Some(blob) => if blob@.len() == 0 {
                    r matches Ok(v) && v@.len() == 0
                } else {
                    match r {
                        Ok(v) => {
                            let toks = split_on(blob@, ' ');
                            v@.len() == toks.len() && forall|i: int|
                                0 <= i < toks.len() ==> parsed_secret(toks[i]) == Some(
                                    (#[trigger] v@[i])@.secret,
                                ) && v@[i]@.plan == plan_spec(v@[i]@.secret, self@.config)
                                    && v@[i]@.next == 0
                        },
                        Err(e) => {
                            let toks = split_on(blob@, ' ');
                            exists|i: int|
                                0 <= i < toks.len() && parsed_secret(#[trigger] toks[i]) is None
                                    && (forall|j: int|
                                    0 <= j < i ==> parsed_secret(#[trigger] toks[j]) is Some)
                                    && e@ == ErrorV::ParseSecret(toks[i])
                        },
                    }
                },
            },
    {
        let blob = match required_secrets {
            None => {
                return Ok(Vec::new());
            },
            Some(b) => b,
        };
        if blob.unicode_len() == 0 {
            return Ok(Vec::new());
        }
        let tokens = split_str(blob, ' ');
        let ghost toks = split_on(blob@, ' ');
        let mut secrets: Vec<Secret> = Vec::new();
        let mut i: usize = 0;
        while i < tokens.len()
            invariant
                required_secrets == Some(blob),
                blob@.len() != 0,
                toks == split_on(blob@, ' '),
                i <= tokens.len(),
                tokens.deep_view() == toks,
                secrets@.len() == i,
                forall|j: int|
                    #![trigger toks[j]]
                    #![trigger secrets@[j]]
                    0 <= j < i ==> parsed_secret(toks[j]) == Some(secrets@[j]@),
            decreases tokens.len() - i,
        {
            match Secret::parse(tokens[i].as_str()) {
                Ok(s) => {
                    secrets.push(s);
                },
                Err(e) => {
                    proof {
                        assert((i as int) < toks.len() && parsed_secret(
                            toks[i as int],
                        ) is None && (forall|j: int|
                            0 <= j < i as int ==> parsed_secret(#[trigger] toks[j]) is Some)
                            && e@ == ErrorV::ParseSecret(toks[i as int]));
                    }
                    return Err(e);
                },
            }
            i = i + 1;
        }
        let mut out: Vec<SecretResolution> = Vec::new();
        let mut k: usize = 0;
        while k < secrets.len()
            invariant
                required_secrets == Some(blob),
                blob@.len() != 0,
                toks == split_on(blob@, ' '),
                k <= secrets.len(),
                secrets@.len() == toks.len(),
                out@.len() == k,
                forall|j: int|
                    #![trigger toks[j]]
                    #![trigger secrets@[j]]
                    0 <= j < secrets@.len() ==> parsed_secret(toks[j]) == Some(secrets@[j]@),
                forall|j: int|
                    0 <= j < k ==> (#[trigger] out@[j])@.secret == secrets@[j]@ && out@[j]@.plan
                        == plan_spec(secrets@[j]@, self@.config) && out@[j]@.next == 0,
            decreases secrets.len() - k,
        {
            let resolution = self.provision(&secrets[k]);
            out.push(resolution);
            k = k + 1;
        }
        Ok(out)
    }

    /// The directive reported to the caller when secrets were provisioned:
    /// a marker line, then a line granting the sandbox the secret directory
    /// under its fixed mount point.
    pub fn mount_directive(&self) -> (r: String)
        ensures
            r@ == "extra-sandbox-paths\n/secrets="@ + secret_dir_spec(self@) + "\n"@,
    {
        let mut r: String = "extra-sandbox-paths\n/secrets=".to_owned();
        let dir = self.derivation_secret_directory();
        r.append(dir.as_str());
        r.append("\n");
        r
    }
}

/// The index of the first successful outcome among a resolution's planned
/// backends, if any.
pub open spec fn first_success(outcomes: Seq<Option<Seq<u8>>>) -> Option<int>
    decreases outcomes.len(),
{
    if outcomes.len() == 0 {
        None
    } else if outcomes.first() is Some {
        Some(0)
    } else {
        match first_success(outcomes.drop_first()) {
            None => None,
            Some(i) => Some(i + 1),
        }
    }
}

/// The content one secret's resolution commits when the host reports
/// `outcomes[i]` for the plan's `i`-th backend and stops at the first
/// success: the first successful backend's bytes unchanged, or exhaustion
/// once every planned backend has failed.
pub open spec fn resolution_result(s: SecretV, c: ConfigV, outcomes: Seq<Option<Seq<u8>>>) -> Result<
    Seq<u8>,
    ErrorV,
> {
    match first_success(outcomes) {
        Some(i) => Ok(outcomes[i].unwrap()),
        None => Err(ErrorV::NoSuccessfulBackends(s)),
    }
}

/// A resolution commits the bytes of the first backend whose run succeeds,
/// leaving every later backend unconsulted, and is exhausted exactly when
/// every planned backend's run failed.
pub proof fn lemma_first_success_commits(s: SecretV, c: ConfigV, outcomes: Seq<Option<Seq<u8>>>)
    ensures
        match first_success(outcomes) {
            Some(i) => 0 <= i < outcomes.len() && outcomes[i] is Some && (forall|j: int|
                0 <= j < i ==> outcomes[j] is None) && resolution_result(s, c, outcomes) == Ok::<
                Seq<u8>,
                ErrorV,
            >(outcomes[i].unwrap()),
            None => (forall|j: int| 0 <= j < outcomes.len() ==> outcomes[j] is None)
                && resolution_result(s, c, outcomes) == Err::<Seq<u8>, ErrorV>(
                ErrorV::NoSuccessfulBackends(s),
            ),
        },
    decreases outcomes.len(),
{
    if outcomes.len() > 0 && outcomes.first() is None {
        lemma_first_success_commits(s, c, outcomes.drop_first());
        match first_success(outcomes.drop_first()) {
            Some(i) => {
                assert(forall|j: int| 1 <= j < i + 1 ==> outcomes[j] == outcomes.drop_first()[j
                    - 1]);
            },
            None => {
                assert(forall|j: int| 1 <= j < outcomes.len() ==> outcomes[j]
                    == outcomes.drop_first()[j - 1]);
            },
        }
    }
}

/// For a secret whose hint names a configured backend, that backend stands
/// first in the plan, and when its run succeeds the resolution commits its
/// bytes with no other backend consulted.
pub proof fn lemma_hinted_backend_first(s: SecretV, c: ConfigV, outcomes: Seq<Option<Seq<u8>>>)
    requires
        s.backend_hint is Some,
        configured(s.backend_hint.unwrap(), c),
        outcomes.len() == plan_spec(s, c).len(),
    ensures
        plan_kinds(s, c).len() > 0,
        Some(plan_kinds(s, c)[0]) == s.backend_hint,
        outcomes.len() > 0 && outcomes[0] is Some ==> resolution_result(s, c, outcomes) == Ok::<
            Seq<u8>,
            ErrorV,
        >(outcomes[0].unwrap()),
{
    let h = s.backend_hint.unwrap();
    match h {
        BackendKind::Sops => {
            assert(kind_of(plan_spec(s, c)[0]) == h);
        },
        BackendKind::Executable => {
            assert(kind_of(plan_spec(s, c)[0]) == h);
        },
    }
}

/// Every configured backend is planned, nothing else is, and no backend is
/// planned twice: a hint changes only the order, never the set.
pub proof fn lemma_plan_tries_each_configured_once(s: SecretV, c: ConfigV)
    ensures
        forall|k: BackendKind|
            (exists|i: int| 0 <= i < plan_kinds(s, c).len() && plan_kinds(s, c)[i] == k)
                <==> configured(k, c),
        forall|i: int, j: int|
            0 <= i < j < plan_kinds(s, c).len() ==> plan_kinds(s, c)[i] != plan_kinds(s, c)[j],
{
    let pk = plan_kinds(s, c);
    assert(forall|i: int| 0 <= i < pk.len() ==> #[trigger] pk[i] == kind_of(plan_spec(s, c)[i]));
    if configured(BackendKind::Sops, c) {
        assert(exists|i: int| 0 <= i < pk.len() && pk[i] == BackendKind::Sops) by {
            if s.backend_hint == Some(BackendKind::Sops) {
                assert(pk[0] == BackendKind::Sops);
            } else {
                let i = hint_plan(s, c).len() as int;
                assert(pk[i] == BackendKind::Sops);
            }
        }
    }
    if configured(BackendKind::Executable, c) {
        assert(exists|i: int| 0 <= i < pk.len() && pk[i] == BackendKind::Executable) by {
            if s.backend_hint == Some(BackendKind::Executable) {
                assert(pk[0] == BackendKind::Executable);
            } else {
                let i = pk.len() - 1;
                assert(pk[i] == BackendKind::Executable);
            }
        }
    }
    assert(forall|k: BackendKind|
        (exists|i: int| 0 <= i < pk.len() && pk[i] == k) ==> configured(k, c)) by {
        assert(forall|i: int| 0 <= i < pk.len() ==> configured(#[trigger] pk[i], c));
    }
}

/// The backends tried after the hint stand in the registry's fixed order.
pub proof fn lemma_fallback_keeps_registry_order(s: SecretV, c: ConfigV)
    ensures
        forall|i: int, j: int|
            0 <= i < j < fallback_plan(s, c).len() ==> registry_index(
                kind_of(#[trigger] fallback_plan(s, c)[i]),
            ) < registry_index(kind_of(#[trigger] fallback_plan(s, c)[j])),
{
}

/// Resolution is idempotent at the content level: when the backends return
/// the same bytes for the same secret and configuration, the resolution
/// commits the same bytes.
pub proof fn lemma_resolution_idempotent(
    s: SecretV,
    c: ConfigV,
    o1: Seq<Option<Seq<u8>>>,
    o2: Seq<Option<Seq<u8>>>,
)
    requires
        o1 == o2,
    ensures
        resolution_result(s, c, o1) == resolution_result(s, c, o2),
{
}

/// Materialization is deterministic in path: the committed path depends
/// only on the output root, the target, and the secret's name — never on
/// the secret's hash, hint, or content.
pub proof fn lemma_path_deterministic(
    p1: ProvisionerV,
    p2: ProvisionerV,
    n1: Seq<char>,
    n2: Seq<char>,
)
    requires
        p1.config.secret_dir == p2.config.secret_dir,
        p1.store_relative_path == p2.store_relative_path,
        n1 == n2,
    ensures
        secret_file_spec(p1, n1) == secret_file_spec(p2, n2),
{
}

/// The prefix the caller prints before a reported error, which the error
/// report backspaces over.
pub open spec fn hook_prefix() -> Seq<char> {
    "unknown pre-build hook command '"@
}

/// The bytes that surface `msg` through the caller's output stream: one
/// backspace for each prefix character, the terminal's color-reset
/// sequence, the message, and a newline.
pub open spec fn report_error_bytes(msg: Seq<char>) -> Seq<u8> {
    Seq::new(hook_prefix().len(), |i: int| 8u8) + seq![27u8, 91u8, 48u8, 109u8]
        + vstd::utf8::encode_utf8(msg) + seq![10u8]
}

/// Composes the bytes that report a failure directly on the caller's
/// terminal: backspaces erase the caller's error prefix, the color mode is
/// reset, and the message replaces the prefix.
pub fn report_error(msg: &str) -> (r: Vec<u8>)
    ensures
        r@ == report_error_bytes(msg@),
{
    proof {
        reveal_strlit("unknown pre-build hook command '");
    }
    let mut out: Vec<u8> = Vec::new();
    let mut i: usize = 0;
    while i < 32
        invariant
            i <= 32,
            out@ == Seq::new(i as nat, |j: int| 8u8),
        decreases 32 - i,
    {
        out.push(8u8);
        proof {
            assert(out@ =~= Seq::new((i + 1) as nat, |j: int| 8u8));
        }
        i = i + 1;
    }
    out.push(27u8);
    out.push(91u8);
    out.push(48u8);
    out.push(109u8);
    let ghost head = Seq::new(hook_prefix().len(), |j: int| 8u8) + seq![27u8, 91u8, 48u8, 109u8];
    proof {
        assert(out@ =~= head);
    }
    let bytes: &[u8] = msg.as_bytes();
    let mut k: usize = 0;
    while k < bytes.len()
        invariant
            k <= bytes@.len(),
            bytes@ == vstd::utf8::encode_utf8(msg@),
            head == Seq::new(hook_prefix().len(), |j: int| 8u8) + seq![27u8, 91u8, 48u8, 109u8],
            out@ == head + bytes@.take(k as int),
        decreases bytes@.len() - k,
    {
        out.push(bytes[k]);
        proof {
            assert(out@ =~= head + bytes@.take(k + 1 as int));
        }
        k = k + 1;
    }
    out.push(10u8);
    proof {
        assert(bytes@.take(bytes@.len() as int) =~= bytes@);
        assert(out@ =~= report_error_bytes(msg@));
    }
    out
}

} // verus!
