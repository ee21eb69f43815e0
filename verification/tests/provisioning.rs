//! The backend fallback order and the batch contract, driven with fake
//! backend outcomes.

use buildtime_secrets_nix::{
    BackendKind, CommandEnv, CommandSpec, Config, Error, JsonDoc, JsonField, Provisioner, Secret,
    SecretContent,
};

fn executable_entry(path: &str) -> (String, JsonDoc) {
    (
        "executable".to_string(),
        JsonDoc::Object(vec![("file".to_string(), JsonField::Text(path.to_string()))]),
    )
}

fn sops_entry(file: &str) -> (String, JsonDoc) {
    (
        "sops".to_string(),
        JsonDoc::Object(vec![("sops_file".to_string(), JsonField::Text(file.to_string()))]),
    )
}

fn provisioner(entries: Option<Vec<(String, JsonDoc)>>) -> Provisioner {
    let config = Config {
        derivation: "/nix/store/abc123-demo.drv".to_string(),
        secret_dir: "/run/buildtime-secrets".to_string(),
        backend_config: entries,
    };
    Provisioner::new(config, "abc123-demo.drv".to_string())
}

fn secret(name: &str, hint: Option<BackendKind>) -> Secret {
    Secret { name: name.to_string(), hash: "abc".to_string(), backend_hint: hint }
}

/// A successful hinted backend is used, and no other backend is consulted.
#[test]
fn hinted_configured_backend_is_used_alone() {
    let p = provisioner(Some(vec![sops_entry("/etc/all.yaml"), executable_entry("/bin/helper")]));
    let resolution = p.provision(&secret("db-pass", Some(BackendKind::Executable)));
    let mut commands_issued = 0;
    let cmd = resolution.next_command().expect("hinted backend must be planned");
    commands_issued += 1;
    assert_eq!(cmd.program, "/bin/helper");
    assert_eq!(cmd.args, vec!["db-pass".to_string()]);
    assert!(matches!(cmd.env, CommandEnv::Inherit));
    // The run succeeds: resolution stops here; nothing else is consulted.
    let content = SecretContent::new(b"s3cr3t".to_vec());
    let record = p.write_secret_content(resolution.secret(), content);
    assert_eq!(record.content.0, b"s3cr3t".to_vec());
    assert_eq!(commands_issued, 1);
}

/// With a failing hinted backend, every other configured backend is tried
/// exactly once, in registry order, before exhaustion.
#[test]
fn failing_hint_falls_back_in_registry_order() {
    let p = provisioner(Some(vec![sops_entry("/etc/all.yaml"), executable_entry("/bin/helper")]));
    let mut resolution = p.provision(&secret("db-pass", Some(BackendKind::Executable)));
    let mut programs: Vec<String> = Vec::new();
    while let Some(cmd) = resolution.next_command() {
        programs.push(cmd.program.clone());
        resolution.record_failure();
    }
    assert!(resolution.exhausted());
    // The hint first, then the one remaining configured backend, once.
    assert_eq!(programs, vec!["/bin/helper".to_string(), "sops".to_string()]);
}

/// Without a hint, every configured backend is tried in fixed registry
/// order until the first success.
#[test]
fn no_hint_tries_registry_order() {
    let p = provisioner(Some(vec![sops_entry("/etc/all.yaml"), executable_entry("/bin/helper")]));
    let mut resolution = p.provision(&secret("db-pass", None));
    let first = resolution.next_command().expect("sops is configured");
    assert_eq!(first.program, "sops");
    assert_eq!(
        first.args,
        vec![
            "--extract".to_string(),
            "[\"db-pass\"]".to_string(),
            "-d".to_string(),
            "/etc/all.yaml".to_string(),
        ]
    );
    resolution.record_failure();
    let second = resolution.next_command().expect("executable is configured");
    assert_eq!(second.program, "/bin/helper");
    resolution.record_failure();
    assert!(resolution.next_command().is_none());
}

/// An unconfigured hinted backend contributes nothing: the hint is a
/// preference, not a restriction.
#[test]
fn unconfigured_hint_is_skipped() {
    let p = provisioner(Some(vec![sops_entry("/etc/all.yaml")]));
    let mut resolution = p.provision(&secret("db-pass", Some(BackendKind::Executable)));
    let only = resolution.next_command().expect("sops is configured");
    assert_eq!(only.program, "sops");
    resolution.record_failure();
    assert!(resolution.next_command().is_none());
}

/// A malformed backend entry counts as unconfigured, never as a hard error.
#[test]
fn malformed_backend_entry_is_unconfigured() {
    let entry = (
        "executable".to_string(),
        JsonDoc::Object(vec![("file".to_string(), JsonField::Number)]),
    );
    let p = provisioner(Some(vec![entry]));
    let resolution = p.provision(&secret("db-pass", Some(BackendKind::Executable)));
    assert!(resolution.next_command().is_none());
    assert!(resolution.exhausted());
}

/// The sops backend's environment overlay reaches its command.
#[test]
fn sops_environment_overlay_reaches_command() {
    let entry = (
        "sops".to_string(),
        JsonDoc::Object(vec![
            ("sops_file".to_string(), JsonField::Text("/etc/all.yaml".to_string())),
            (
                "environment".to_string(),
                JsonField::Object(vec![(
                    "SOPS_AGE_KEY_FILE".to_string(),
                    Some("/etc/age.key".to_string()),
                )]),
            ),
        ]),
    );
    let p = provisioner(Some(vec![entry]));
    let resolution = p.provision(&secret("db-pass", None));
    let cmd: CommandSpec = resolution.next_command().expect("sops is configured");
    match cmd.env {
        CommandEnv::CleanKeepPath(overlay) => {
            assert_eq!(
                overlay,
                vec![("SOPS_AGE_KEY_FILE".to_string(), "/etc/age.key".to_string())]
            );
        },
        CommandEnv::Inherit => panic!("sops must run in a cleaned environment"),
    }
}

/// An environment overlay with a non-string value makes the entry
/// malformed, so the backend counts as unconfigured.
#[test]
fn sops_environment_with_non_string_value_is_unconfigured() {
    let entry = (
        "sops".to_string(),
        JsonDoc::Object(vec![
            ("sops_file".to_string(), JsonField::Text("/etc/all.yaml".to_string())),
            ("environment".to_string(), JsonField::Object(vec![("N".to_string(), None)])),
        ]),
    );
    let p = provisioner(Some(vec![entry]));
    let resolution = p.provision(&secret("db-pass", None));
    assert!(resolution.next_command().is_none());
}

/// Exhaustion with zero configured backends fails, naming the secret.
#[test]
fn zero_backends_exhausts_with_secret_name() {
    let p = provisioner(None);
    let resolution = p.provision(&secret("db-pass", None));
    assert!(resolution.next_command().is_none());
    assert!(resolution.exhausted());
    let err = resolution.into_exhaustion_error();
    assert!(matches!(&err, Error::NoSuccessfulBackends(s) if s.name == "db-pass"));
    assert_eq!(err.message(), "no backends could decrypt the secret \"db-pass\"");
}

/// Resolving the same secret twice against the same backend and config,
/// with the backend returning the same bytes, commits identical content.
#[test]
fn resolution_is_idempotent_at_content_level() {
    let p = provisioner(Some(vec![executable_entry("/bin/helper")]));
    let s = secret("db-pass", None);
    let r1 = p.provision(&s);
    let r2 = p.provision(&s);
    let c1 = r1.next_command().expect("configured");
    let c2 = r2.next_command().expect("configured");
    assert_eq!(c1.program, c2.program);
    assert_eq!(c1.args, c2.args);
    let rec1 = p.write_secret_content(r1.secret(), SecretContent::new(b"bytes".to_vec()));
    let rec2 = p.write_secret_content(r2.secret(), SecretContent::new(b"bytes".to_vec()));
    assert_eq!(rec1.content.0, rec2.content.0);
    assert_eq!(rec1.path, rec2.path);
}

/// An absent or empty declaration blob is a no-op success: nothing to
/// resolve, nothing to write.
#[test]
fn empty_batch_is_success_with_no_work() {
    let p = provisioner(Some(vec![executable_entry("/bin/helper")]));
    let r = p.provision_all(None).expect("absent blob is a no-op");
    assert_eq!(r.len(), 0);
    let r = p.provision_all(Some("")).expect("empty blob is a no-op");
    assert_eq!(r.len(), 0);
}

/// The full scenario: a hinted single-executable backend succeeds and the
/// secret file carries exactly the backend's bytes at the target's path.
#[test]
fn hinted_executable_success_materializes_exact_bytes() {
    let p = provisioner(Some(vec![executable_entry("/bin/print-secret")]));
    let s = secret("db-pass", Some(BackendKind::Executable));
    let resolution = p.provision(&s);
    let cmd = resolution.next_command().expect("hinted backend is configured");
    assert_eq!(cmd.program, "/bin/print-secret");
    // The host runs the command; it prints `s3cr3t` and exits 0.
    let record = p.write_secret_content(resolution.secret(), SecretContent::new(b"s3cr3t".to_vec()));
    assert_eq!(record.path, "/run/buildtime-secrets/abc123-demo/db-pass");
    assert_eq!(record.content.0, b"s3cr3t".to_vec());
}

/// The fallback scenario: the hinted backend fails, the other configured
/// backend's output is materialized, and no error surfaces.
#[test]
fn failed_hint_falls_back_and_materializes_fallback_output() {
    let p = provisioner(Some(vec![sops_entry("/etc/all.yaml"), executable_entry("/bin/helper")]));
    let s = secret("db-pass", Some(BackendKind::Executable));
    let mut resolution = p.provision(&s);
    let hinted = resolution.next_command().expect("hinted backend is configured");
    assert_eq!(hinted.program, "/bin/helper");
    // The hinted run exits nonzero.
    resolution.record_failure();
    let fallback = resolution.next_command().expect("sops remains");
    assert_eq!(fallback.program, "sops");
    // The fallback run succeeds.
    let record =
        p.write_secret_content(resolution.secret(), SecretContent::new(b"from-sops".to_vec()));
    assert_eq!(record.content.0, b"from-sops".to_vec());
    assert!(!resolution.exhausted());
}

/// Batch processing parses every declaration before any resolution is
/// handed out, and the first malformed declaration fails the whole batch.
#[test]
fn batch_parse_failure_is_fail_fast() {
    let p = provisioner(Some(vec![executable_entry("/bin/helper")]));
    let blob = r#"{"name":"a","hash":"x"} {"name":"b","#;
    let r = p.provision_all(Some(blob));
    assert!(matches!(r, Err(Error::ParseSecret(t)) if t == r#"{"name":"b","#));
}

/// A well-formed batch yields one resolution per declaration, in order.
#[test]
fn batch_yields_resolutions_in_declaration_order() {
    let p = provisioner(Some(vec![executable_entry("/bin/helper")]));
    let blob = r#"{"name":"a","hash":"x"} {"name":"b","hash":"y"}"#;
    let rs = p.provision_all(Some(blob)).expect("both declarations parse");
    assert_eq!(rs.len(), 2);
    assert_eq!(rs[0].secret().name, "a");
    assert_eq!(rs[1].secret().name, "b");
}

/// The registry enumerates the fixed backend order.
#[test]
fn registry_enumerates_fixed_order() {
    let kinds = buildtime_secrets_nix::backend::registry_kinds();
    assert_eq!(kinds, vec![BackendKind::Sops, BackendKind::Executable]);
}
