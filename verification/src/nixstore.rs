//! The store collaborator's error model.
//!
//! The store binding reports failures across a native boundary as a single
//! string: a numeric tag, a comma, and a message. The functions here parse
//! that protocol and map each tag to its error kind, with every unrecognized
//! tag kept apart as a generic failure rather than folded into a known kind.

use vstd::prelude::*;
use vstd::string::*;

use crate::text::{find_char, find_char_from, parse_u8, parse_u8_spec};

verus! {

/// A failure reported by the store collaborator.
#[derive(Debug)]
pub enum Error {
    /// A failure whose tag was missing or not recognized.
    GenericNixError(String),
    /// The store's version could not be read.
    GetVersion(String),
    /// A store path did not validate.
    StorePath(String),
    /// The requested key is not in the target's environment.
    EnvKeyDoesNotExist(String),
}

/// The mathematical value of an [`Error`].
pub enum ErrorV {
    GenericNixError(Seq<char>),
    GetVersion(Seq<char>),
    StorePath(Seq<char>),
    EnvKeyDoesNotExist(Seq<char>),
}

impl View for Error {
    type V = ErrorV;

    open spec fn view(&self) -> ErrorV {
        match self {
            Error::GenericNixError(m) => ErrorV::GenericNixError(m@),
            Error::GetVersion(m) => ErrorV::GetVersion(m@),
            Error::StorePath(m) => ErrorV::StorePath(m@),
            Error::EnvKeyDoesNotExist(m) => ErrorV::EnvKeyDoesNotExist(m@),
        }
    }
}

/// The text of an [`Error`], as a value.
pub open spec fn message_spec(e: ErrorV) -> Seq<char> {
    match e {
        ErrorV::GenericNixError(m) => m,
        ErrorV::GetVersion(m) => "failed to get nix version from store: "@ + m,
        ErrorV::StorePath(m) => "store path not valid: "@ + m,
        ErrorV::EnvKeyDoesNotExist(m) => "while reading derivation: "@ + m,
    }
}

impl Error {
    /// The human-readable description of this failure.
    pub fn message(&self) -> (r: String)
        ensures
            r@ == message_spec(self@),
    {
        match self {
            Error::GenericNixError(m) => m.clone(),
            Error::GetVersion(m) => {
                let mut r: String = "failed to get nix version from store: ".to_owned();
                r.append(m.as_str());
                r
            },
            Error::StorePath(m) => {
                let mut r: String = "store path not valid: ".to_owned();
                r.append(m.as_str());
                r
            },
            Error::EnvKeyDoesNotExist(m) => {
                let mut r: String = "while reading derivation: ".to_owned();
                r.append(m.as_str());
                r
            },
        }
    }
}

/// A tagged failure as it crosses the native boundary: the numeric tag and
/// the message after it.
#[derive(Debug)]
pub struct TaggedError {
    pub tag: u8,
    pub msg: String,
}

/// Reads a tag/message pair: the tag must be a decimal `u8`.
pub fn try_parse_tagged_error(tag: &str, msg: &str) -> (r: Option<TaggedError>)
    ensures
        match r {
            Some(t) => parse_u8_spec(tag@) == Some(t.tag) && t.msg@ == msg@,
            None => parse_u8_spec(tag@) is None,
        },
{
    match parse_u8(tag) {
        Some(t) => Some(TaggedError { tag: t, msg: msg.to_owned() }),
        None => None,
    }
}

/// The error a reported failure string denotes: the text before the first
/// comma read as a decimal tag selecting the kind, the text after it as the
/// message; without a readable tag, the whole string as a generic failure.
pub open spec fn error_of_what(w: Seq<char>) -> ErrorV {
    match find_char(w, ',') {
        None => ErrorV::GenericNixError(w),
        Some(i) => {
            let tag = parse_u8_spec(w.take(i));
            let msg = w.skip(i + 1);
            match tag {
                None => ErrorV::GenericNixError(w),
                Some(t) => if t == 0 {
                    ErrorV::GetVersion(msg)
                } else if t == 1 {
                    ErrorV::StorePath(msg)
                } else if t == 2 {
                    ErrorV::EnvKeyDoesNotExist(msg)
                } else {
                    ErrorV::GenericNixError(msg)
                },
            }
        },
    }
}

/// Maps a failure string reported across the native boundary to its error.
pub fn error_from_what(what: &str) -> (r: Error)
    ensures
        r@ == error_of_what(what@),
{
    let n = what.unicode_len();
    proof {
        assert(what@.skip(0) =~= what@);
    }
    match find_char_from(what, 0, ',') {
        None => Error::GenericNixError(what.to_owned()),
        Some(i) => {
            let tag_text = what.substring_char(0, i);
            let msg: String = what.substring_char(i + 1, n).to_owned();
            proof {
                assert(what@.subrange(0, i as int) =~= what@.take(i as int));
                assert(what@.subrange(i + 1, n as int) =~= what@.skip(i + 1));
            }
            match try_parse_tagged_error(tag_text, msg.as_str()) {
                None => Error::GenericNixError(what.to_owned()),
                Some(t) => {
                    if t.tag == 0 {
                        Error::GetVersion(t.msg)
                    } else if t.tag == 1 {
                        Error::StorePath(t.msg)
                    } else if t.tag == 2 {
                        Error::EnvKeyDoesNotExist(t.msg)
                    } else {
                        Error::GenericNixError(t.msg)
                    }
                },
            }
        },
    }
}

/// How a raw environment lookup from the store reads as an optional value:
/// a missing key is no value, not a failure; everything else is passed on.
pub open spec fn env_val_outcome_spec(r: Result<Seq<char>, ErrorV>) -> Result<
    Option<Seq<char>>,
    ErrorV,
> {
    match r {
        Ok(v) => Ok(Some(v)),
        Err(ErrorV::EnvKeyDoesNotExist(_)) => Ok(None),
        Err(e) => Err(e),
    }
}

/// Turns a raw environment lookup result from the store into an optional
/// value, treating a missing key as absence rather than failure.
pub fn env_val_outcome(r: Result<String, Error>) -> (out: Result<Option<String>, Error>)
    ensures
        match (out, env_val_outcome_spec(
            match r {
                Ok(ref v) => Ok(v@),
                Err(ref e) => Err(e@),
            },
        )) {
            (Ok(Some(v)), Ok(Some(sv))) => v@ == sv,
            (Ok(None), Ok(None)) => true,
            (Err(e), Err(se)) => e@ == se,
            _ => false,
        },
{
    match r {
        Ok(v) => Ok(Some(v)),
        Err(Error::EnvKeyDoesNotExist(_)) => Ok(None),
        Err(e) => Err(e),
    }
}

} // verus!
