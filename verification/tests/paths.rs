//! Path computation, the mount directive, the error report bytes, and the
//! error message texts.

use buildtime_secrets_nix::text::{join_path, strip_ext};
use buildtime_secrets_nix::{
    BackendKind, Config, Error, Provisioner, Secret, SecretContent,
};

fn provisioner(secret_dir: &str, rel: &str) -> Provisioner {
    let config = Config {
        derivation: "/nix/store/abc123-demo.drv".to_string(),
        secret_dir: secret_dir.to_string(),
        backend_config: None,
    };
    Provisioner::new(config, rel.to_string())
}

#[test]
fn secret_directory_strips_format_suffix() {
    let p = provisioner("/run/buildtime-secrets", "abc123-demo.drv");
    assert_eq!(p.derivation_secret_directory(), "/run/buildtime-secrets/abc123-demo");
}

#[test]
fn secret_directory_without_suffix_is_kept() {
    let p = provisioner("/run/buildtime-secrets", "abc123-demo");
    assert_eq!(p.derivation_secret_directory(), "/run/buildtime-secrets/abc123-demo");
}

#[test]
fn secret_file_path_appends_name() {
    let p = provisioner("/run/buildtime-secrets", "abc123-demo.drv");
    let s = Secret {
        name: "db-pass".to_string(),
        hash: "abc".to_string(),
        backend_hint: None,
    };
    assert_eq!(
        p.allocate_decrypted_file_path(&s),
        "/run/buildtime-secrets/abc123-demo/db-pass"
    );
}

/// Two invocations for the same target and secret name produce the same
/// file path, whatever the hash or hint.
#[test]
fn materialization_path_is_deterministic() {
    let p1 = provisioner("/run/buildtime-secrets", "abc123-demo.drv");
    let p2 = provisioner("/run/buildtime-secrets", "abc123-demo.drv");
    let s1 = Secret {
        name: "db-pass".to_string(),
        hash: "abc".to_string(),
        backend_hint: None,
    };
    let s2 = Secret {
        name: "db-pass".to_string(),
        hash: "other".to_string(),
        backend_hint: Some(BackendKind::Sops),
    };
    assert_eq!(p1.allocate_decrypted_file_path(&s1), p2.allocate_decrypted_file_path(&s2));
    assert_eq!(p1.derivation_secret_directory(), p2.derivation_secret_directory());
}

#[test]
fn join_path_rules() {
    assert_eq!(join_path("/a/b", "c"), "/a/b/c");
    assert_eq!(join_path("/a/b/", "c"), "/a/b/c");
    assert_eq!(join_path("", "c"), "c");
    assert_eq!(join_path("/a", "/abs"), "/abs");
}

#[test]
fn strip_ext_rules() {
    assert_eq!(strip_ext("x/y.drv"), "x/y");
    assert_eq!(strip_ext("x/y"), "x/y");
    assert_eq!(strip_ext("x.d/y"), "x.d/y");
    assert_eq!(strip_ext("a.b.c"), "a.b");
    assert_eq!(strip_ext("x/.hidden"), "x/.hidden");
    assert_eq!(strip_ext("trailing."), "trailing");
}

#[test]
fn mount_directive_names_secret_directory() {
    let p = provisioner("/run/buildtime-secrets", "abc123-demo.drv");
    assert_eq!(
        p.mount_directive(),
        "extra-sandbox-paths\n/secrets=/run/buildtime-secrets/abc123-demo\n"
    );
}

#[test]
fn report_error_bytes_erase_prefix_and_append_message() {
    let bytes = buildtime_secrets_nix::report_error("hi");
    let mut expected: Vec<u8> = Vec::new();
    // one backspace for each character of "unknown pre-build hook command '"
    expected.extend(std::iter::repeat(0x08u8).take(32));
    expected.extend_from_slice(b"\x1b[0m");
    expected.extend_from_slice(b"hi");
    expected.push(b'\n');
    assert_eq!(bytes, expected);
}

#[test]
fn provisioning_record_keeps_declaration() {
    let p = provisioner("/run/buildtime-secrets", "abc123-demo.drv");
    let s = Secret {
        name: "db-pass".to_string(),
        hash: "abc".to_string(),
        backend_hint: None,
    };
    let record = p.write_secret_content(&s, SecretContent::new(vec![1, 2, 3]));
    assert_eq!(record.secret.name, "db-pass");
    assert_eq!(record.secret.hash, "abc");
    assert_eq!(record.content.0, vec![1, 2, 3]);
}

#[test]
fn error_message_texts() {
    assert_eq!(
        Error::ParseSecret("{bad".to_string()).message(),
        "failed to parse secret: {bad"
    );
    assert_eq!(Error::NoConfigForBackends.message(), "no \"backend_config\" in config");
    assert_eq!(
        Error::NoBackendConfig("sops".to_string()).message(),
        "no backend config for sops"
    );
    assert_eq!(
        Error::StorePathIsNotDerivation.message(),
        "store path is not a derivation"
    );
    assert_eq!(
        Error::CreateSecretFile {
            path: "/p/f".to_string(),
            source: "denied".to_string(),
        }
        .message(),
        "can't create secret file \"/p/f\": denied"
    );
    assert_eq!(
        Error::WriteSecret {
            path: "/p/f".to_string(),
            source: "full".to_string(),
        }
        .message(),
        "can't write secret file \"/p/f\": full"
    );
    assert_eq!(
        Error::CreateDrvSecretDir {
            path: "/p".to_string(),
            source: "denied".to_string(),
        }
        .message(),
        "can't create derivation secret directory \"/p\": denied"
    );
    let nix = buildtime_secrets_nix::nixstore::Error::GetVersion("boom".to_string());
    assert_eq!(
        Error::NixError(nix).message(),
        "an error occurred while interfacing with nix: failed to get nix version from store: boom"
    );
}
