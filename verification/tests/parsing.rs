//! Secret declaration parsing and store error mapping.

use buildtime_secrets_nix::nixstore;
use buildtime_secrets_nix::text::{parse_u8, split_str};
use buildtime_secrets_nix::{BackendKind, Error, Secret};

#[test]
fn parse_full_declaration() {
    let s = Secret::parse(r#"{"name":"db-pass","hash":"abc","backendHint":"executable"}"#)
        .expect("well-formed declaration");
    assert_eq!(s.name, "db-pass");
    assert_eq!(s.hash, "abc");
    assert_eq!(s.backend_hint, Some(BackendKind::Executable));
}

#[test]
fn parse_declaration_without_hint() {
    let s = Secret::parse(r#"{"name":"n","hash":"h"}"#).expect("hint is optional");
    assert_eq!(s.name, "n");
    assert_eq!(s.hash, "h");
    assert_eq!(s.backend_hint, None);
}

#[test]
fn parse_declaration_with_null_hint() {
    let s = Secret::parse(r#"{"name":"n","hash":"h","backendHint":null}"#)
        .expect("null hint means no preference");
    assert_eq!(s.backend_hint, None);
}

#[test]
fn parse_declaration_with_sops_hint() {
    let s = Secret::parse(r#"{"name":"n","hash":"h","backendHint":"sops"}"#).expect("sops hint");
    assert_eq!(s.backend_hint, Some(BackendKind::Sops));
}

#[test]
fn parse_ignores_unknown_fields() {
    let s = Secret::parse(r#"{"name":"n","hash":"h","comment":"ignored","extra":3}"#)
        .expect("unknown fields are ignored");
    assert_eq!(s.name, "n");
}

#[test]
fn parse_rejects_missing_hash() {
    let r = Secret::parse(r#"{"name":"n"}"#);
    assert!(matches!(r, Err(Error::ParseSecret(t)) if t == r#"{"name":"n"}"#));
}

#[test]
fn parse_rejects_unknown_hint() {
    let r = Secret::parse(r#"{"name":"n","hash":"h","backendHint":"vault"}"#);
    assert!(matches!(r, Err(Error::ParseSecret(_))));
}

#[test]
fn parse_rejects_non_string_name() {
    let r = Secret::parse(r#"{"name":7,"hash":"h"}"#);
    assert!(matches!(r, Err(Error::ParseSecret(_))));
}

#[test]
fn parse_rejects_non_object() {
    let r = Secret::parse(r#"["name","hash"]"#);
    assert!(matches!(r, Err(Error::ParseSecret(_))));
}

#[test]
fn parse_rejects_malformed_json() {
    let r = Secret::parse(r#"{"name":"n""#);
    assert!(matches!(r, Err(Error::ParseSecret(_))));
}

#[test]
fn parse_u8_reads_decimal_tags() {
    assert_eq!(parse_u8("0"), Some(0));
    assert_eq!(parse_u8("255"), Some(255));
    assert_eq!(parse_u8("+17"), Some(17));
    assert_eq!(parse_u8("007"), Some(7));
    assert_eq!(parse_u8("256"), None);
    assert_eq!(parse_u8(""), None);
    assert_eq!(parse_u8("+"), None);
    assert_eq!(parse_u8("1x"), None);
    assert_eq!(parse_u8("-1"), None);
}

#[test]
fn tagged_error_parses_tag_and_keeps_message() {
    let t = nixstore::try_parse_tagged_error("2", "no such key").expect("valid tag");
    assert_eq!(t.tag, 2);
    assert_eq!(t.msg, "no such key");
    assert!(nixstore::try_parse_tagged_error("two", "m").is_none());
}

#[test]
fn store_error_mapping_by_tag() {
    let e = nixstore::error_from_what("0,cannot query");
    assert!(matches!(e, nixstore::Error::GetVersion(m) if m == "cannot query"));
    let e = nixstore::error_from_what("1,is not valid");
    assert!(matches!(e, nixstore::Error::StorePath(m) if m == "is not valid"));
    let e = nixstore::error_from_what("2,requiredSecrets");
    assert!(matches!(e, nixstore::Error::EnvKeyDoesNotExist(m) if m == "requiredSecrets"));
}

#[test]
fn store_error_unknown_tag_stays_generic() {
    let e = nixstore::error_from_what("9,something new");
    assert!(matches!(e, nixstore::Error::GenericNixError(m) if m == "something new"));
}

#[test]
fn store_error_without_tag_stays_whole() {
    let e = nixstore::error_from_what("plain failure text");
    assert!(matches!(e, nixstore::Error::GenericNixError(m) if m == "plain failure text"));
    let e = nixstore::error_from_what("x,msg");
    assert!(matches!(e, nixstore::Error::GenericNixError(m) if m == "x,msg"));
}

#[test]
fn store_error_message_texts() {
    assert_eq!(
        nixstore::error_from_what("2,requiredSecrets").message(),
        "while reading derivation: requiredSecrets"
    );
    assert_eq!(
        nixstore::error_from_what("1,bad path").message(),
        "store path not valid: bad path"
    );
}

#[test]
fn env_val_outcome_treats_missing_key_as_absent() {
    let out = nixstore::env_val_outcome(Ok("value".to_string()));
    assert!(matches!(out, Ok(Some(v)) if v == "value"));
    let out = nixstore::env_val_outcome(Err(nixstore::Error::EnvKeyDoesNotExist("k".to_string())));
    assert!(matches!(out, Ok(None)));
    let out = nixstore::env_val_outcome(Err(nixstore::Error::StorePath("bad".to_string())));
    assert!(matches!(out, Err(nixstore::Error::StorePath(m)) if m == "bad"));
}

#[test]
fn split_on_spaces() {
    let t = split_str("a b c", ' ');
    assert_eq!(t, vec!["a".to_string(), "b".to_string(), "c".to_string()]);
    let t = split_str("solo", ' ');
    assert_eq!(t, vec!["solo".to_string()]);
    let t = split_str("a  b", ' ');
    assert_eq!(t, vec!["a".to_string(), "".to_string(), "b".to_string()]);
    let t = split_str("", ' ');
    assert_eq!(t, vec!["".to_string()]);
}

#[test]
fn secrets_are_equal_by_all_three_fields() {
    let a = Secret {
        name: "n".to_string(),
        hash: "h".to_string(),
        backend_hint: Some(BackendKind::Sops),
    };
    let b = a.clone();
    assert!(a == b);
    let c = Secret { hash: "other".to_string(), ..b };
    assert!(a != c);
}
