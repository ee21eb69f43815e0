//! Secret declarations, resolved content, and the committed record.

use vstd::prelude::*;

use crate::backend::BackendKind;
use crate::error::Error;
use crate::json::{assoc_of, parse_json, parsed_json, JsonDoc, JsonDocV, JsonField, JsonFieldV};
use crate::json::assoc_get;

verus! {

/// One declared secret: its name, an advisory content hash, and an optional
/// preferred backend. The hash is carried through but not checked against
/// resolved content.
#[derive(Debug)]
pub struct Secret {
    pub name: String,
    pub hash: String,
    pub backend_hint: Option<BackendKind>,
}

/// The mathematical value of a [`Secret`].
pub struct SecretV {
    pub name: Seq<char>,
    pub hash: Seq<char>,
    pub backend_hint: Option<BackendKind>,
}

impl View for Secret {
    type V = SecretV;

    open spec fn view(&self) -> SecretV {
        SecretV { name: self.name@, hash: self.hash@, backend_hint: self.backend_hint }
    }
}

impl Clone for Secret {
    fn clone(&self) -> (res: Self)
        ensures
            res == *self,
    {
        Secret {
            name: self.name.clone(),
            hash: self.hash.clone(),
            backend_hint: self.backend_hint,
        }
    }
}

impl PartialEq for Secret {
    /// Secrets are equal by all three fields.
    fn eq(&self, other: &Secret) -> (r: bool) {
        let hints_equal = match (self.backend_hint, other.backend_hint) {
            (None, None) => true,
            (Some(a), Some(b)) => a == b,
            _ => false,
        };
        self.name == other.name && self.hash == other.hash && hints_equal
    }
}

impl vstd::std_specs::cmp::PartialEqSpecImpl for Secret {
    open spec fn obeys_eq_spec() -> bool {
        true
    }

    open spec fn eq_spec(&self, other: &Secret) -> bool {
        self@ == other@
    }
}

/// Resolved plaintext: exactly the bytes a backend produced, with no
/// transformation.
#[derive(Debug)]
pub struct SecretContent(pub Vec<u8>);

impl View for SecretContent {
    type V = Seq<u8>;

    open spec fn view(&self) -> Seq<u8> {
        self.0@
    }
}

impl SecretContent {
    /// Wraps a backend's output bytes unchanged.
    pub fn new(bytes: Vec<u8>) -> (r: Self)
        ensures
            r@ == bytes@,
    {
        SecretContent(bytes)
    }
}

impl Clone for SecretContent {
    fn clone(&self) -> (res: Self)
        ensures
            res@ == self@,
    {
        let bytes = self.0.clone();
        proof {
            assert(bytes@ =~= self.0@);
        }
        SecretContent(bytes)
    }
}

/// The committed result of one successful resolution: the declaration, the
/// resolved bytes, and the path the bytes are written to.
#[derive(Debug)]
pub struct ProvisionedSecret {
    pub secret: Secret,
    pub content: SecretContent,
    pub path: String,
}

/// The mathematical value of a [`ProvisionedSecret`].
pub struct ProvisionedSecretV {
    pub secret: SecretV,
    pub content: Seq<u8>,
    pub path: Seq<char>,
}

impl View for ProvisionedSecret {
    type V = ProvisionedSecretV;

    open spec fn view(&self) -> ProvisionedSecretV {
        ProvisionedSecretV { secret: self.secret@, content: self.content@, path: self.path@ }
    }
}

/// How a `backendHint` field reads as a hint: absent or null means no
/// preference, a backend's lowercase name selects it, and anything else
/// makes the declaration malformed (the outer `None`).
pub open spec fn hint_of_field(f: Option<JsonFieldV>) -> Option<Option<BackendKind>> {
    match f {
        None => Some(None),
        Some(JsonFieldV::Null) => Some(None),
        Some(JsonFieldV::Text(t)) => if t == "sops"@ {
            Some(Some(BackendKind::Sops))
        } else if t == "executable"@ {
            Some(Some(BackendKind::Executable))
        } else {
            None
        },
        Some(_) => None,
    }
}

/// The secret a parsed declaration denotes: an object with string fields
/// `name` and `hash` and a well-formed optional `backendHint`. Other fields
/// are ignored.
pub open spec fn secret_of_doc(d: JsonDocV) -> Option<SecretV> {
    match d {
        JsonDocV::NotObject => None,
        JsonDocV::Object(fields) => match (
            assoc_of(fields, "name"@),
            assoc_of(fields, "hash"@),
            hint_of_field(assoc_of(fields, "backendHint"@)),
        ) {
            (
                Some(JsonFieldV::Text(name)),
                Some(JsonFieldV::Text(hash)),
                Some(hint),
            ) => Some(SecretV { name: name, hash: hash, backend_hint: hint }),
            _ => None,
        },
    }
}

/// The secret one serialized declaration denotes, if it is well-formed.
pub open spec fn parsed_secret(s: Seq<char>) -> Option<SecretV> {
    match parsed_json(s) {
        None => None,
        Some(d) => secret_of_doc(d),
    }
}

impl Secret {
    /// Parses one serialized secret declaration. A malformed declaration is
    /// rejected with the offending text, never repaired.
    pub fn parse(s: &str) -> (r: Result<Secret, Error>)
        ensures
            match r {
                Ok(sec) => parsed_secret(s@) == Some(sec@),
                Err(e) => parsed_secret(s@) is None && e@ == crate::error::ErrorV::ParseSecret(
                    s@,
                ),
            },
    {
        let doc = match parse_json(s) {
            Some(d) => d,
            None => {
                return Err(Error::ParseSecret(s.to_owned()));
            },
        };
        let fields = match doc {
            JsonDoc::Object(fields) => fields,
            JsonDoc::NotObject => {
                return Err(Error::ParseSecret(s.to_owned()));
            },
        };
        let name: String = match assoc_get(&fields, "name") {
            Some(JsonField::Text(t)) => t.clone(),
            _ => {
                return Err(Error::ParseSecret(s.to_owned()));
            },
        };
        let hash: String = match assoc_get(&fields, "hash") {
            Some(JsonField::Text(t)) => t.clone(),
            _ => {
                return Err(Error::ParseSecret(s.to_owned()));
            },
        };
        let backend_hint: Option<BackendKind> = match assoc_get(&fields, "backendHint") {
            None => None,
            Some(JsonField::Null) => None,
            Some(JsonField::Text(t)) => {
                let sops_name: String = "sops".to_owned();
                let executable_name: String = "executable".to_owned();
                if *t == sops_name {
                    Some(BackendKind::Sops)
                } else if *t == executable_name {
                    Some(BackendKind::Executable)
                } else {
                    return Err(Error::ParseSecret(s.to_owned()));
                }
            },
            Some(_) => {
                return Err(Error::ParseSecret(s.to_owned()));
            },
        };
        Ok(Secret { name, hash, backend_hint })
    }
}

} // verus!
