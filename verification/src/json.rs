//! A shallow model of parsed JSON documents.
//!
//! The library reads JSON at two places: secret declarations and per-backend
//! configuration entries. Both are objects whose interesting fields are
//! strings, except for one nested object of strings (a backend's environment
//! overlay). The model below keeps exactly that much structure: the fields of
//! the top-level object, with nested objects reduced to their string-valued
//! entries. Parsing itself is delegated to `serde_json` behind one trusted
//! wrapper; every structural decision on the parsed document is verified.

use serde_json::Value;
use vstd::prelude::*;

verus! {

/// One field value of a parsed JSON object.
///
/// Numbers and arrays are never read by this library, so only their presence
/// is recorded. A nested object keeps, for each of its entries, the string
/// value when the entry is a JSON string and `None` otherwise.
#[derive(Debug)]
pub enum JsonField {
    Null,
    Bool(bool),
    Number,
    Text(String),
    List,
    Object(Vec<(String, Option<String>)>),
}

/// A parsed JSON document: either an object with its fields in key order,
/// or some other well-formed JSON value.
#[derive(Debug)]
pub enum JsonDoc {
    NotObject,
    Object(Vec<(String, JsonField)>),
}

/// The mathematical value of a [`JsonField`].
pub enum JsonFieldV {
    Null,
    Bool(bool),
    Number,
    Text(Seq<char>),
    List,
    Object(Seq<(Seq<char>, Option<Seq<char>>)>),
}

/// The mathematical value of a [`JsonDoc`].
pub enum JsonDocV {
    NotObject,
    Object(Seq<(Seq<char>, JsonFieldV)>),
}

impl View for JsonField {
    type V = JsonFieldV;

    open spec fn view(&self) -> JsonFieldV {
        match self {
            JsonField::Null => JsonFieldV::Null,
            JsonField::Bool(b) => JsonFieldV::Bool(*b),
            JsonField::Number => JsonFieldV::Number,
            JsonField::Text(t) => JsonFieldV::Text(t@),
            JsonField::List => JsonFieldV::List,
            JsonField::Object(entries) => JsonFieldV::Object(entries.deep_view()),
        }
    }
}

impl DeepView for JsonField {
    type V = JsonFieldV;

    open spec fn deep_view(&self) -> JsonFieldV {
        self.view()
    }
}

impl View for JsonDoc {
    type V = JsonDocV;

    open spec fn view(&self) -> JsonDocV {
        match self {
            JsonDoc::NotObject => JsonDocV::NotObject,
            JsonDoc::Object(fields) => JsonDocV::Object(fields.deep_view()),
        }
    }
}

impl DeepView for JsonDoc {
    type V = JsonDocV;

    open spec fn deep_view(&self) -> JsonDocV {
        self.view()
    }
}

/// What `serde_json` parses a document to, reduced to this library's model:
/// `None` where the text is not well-formed JSON.
pub uninterp spec fn parsed_json(s: Seq<char>) -> Option<JsonDocV>;

/// Relies on `serde_json::from_str`: parsing a JSON document is a function of
/// the text alone. Object fields come back with unique keys, in key order.
#[verifier::external_body]
pub(crate) fn parse_json(s: &str) -> (r: Option<JsonDoc>)
    ensures
        r matches Some(d) ==> parsed_json(s@) == Some(d@),
        r is None ==> parsed_json(s@) is None,
{
    let v: Value = serde_json::from_str(s).ok()?;
    let Value::Object(m) = v else { return Some(JsonDoc::NotObject) };
    Some(JsonDoc::Object(m.iter().map(|(k, f)| (k.clone(), match f {
        Value::Null => JsonField::Null,
        Value::Bool(b) => JsonField::Bool(*b),
        Value::Number(_) => JsonField::Number,
        Value::String(t) => JsonField::Text(t.clone()),
        Value::Array(_) => JsonField::List,
        Value::Object(o) => JsonField::Object(
            o.iter().map(|(k2, v2)| (k2.clone(), v2.as_str().map(str::to_owned))).collect(),
        ),
    })).collect()))
}

/// The value of the first entry named `key` in an association list, if any.
pub open spec fn assoc_of<T>(entries: Seq<(Seq<char>, T)>, key: Seq<char>) -> Option<T>
    decreases entries.len(),
{
    if entries.len() == 0 {
        None
    } else if entries.first().0 == key {
        Some(entries.first().1)
    } else {
        assoc_of(entries.drop_first(), key)
    }
}

proof fn lemma_assoc_of_found<T>(entries: Seq<(Seq<char>, T)>, key: Seq<char>, i: int)
    requires
        0 <= i < entries.len(),
        entries[i].0 == key,
        forall|j: int| 0 <= j < i ==> #[trigger] entries[j].0 != key,
    ensures
        assoc_of(entries, key) == Some(entries[i].1),
    decreases entries.len(),
{
    if i > 0 {
        lemma_assoc_of_found(entries.drop_first(), key, i - 1);
    }
}

proof fn lemma_assoc_of_none<T>(entries: Seq<(Seq<char>, T)>, key: Seq<char>)
    requires
        forall|j: int| 0 <= j < entries.len() ==> #[trigger] entries[j].0 != key,
    ensures
        assoc_of(entries, key) is None,
    decreases entries.len(),
{
    if entries.len() > 0 {
        lemma_assoc_of_none(entries.drop_first(), key);
    }
}

/// A nested object's entries read as a string-to-string mapping: `None`
/// as soon as any entry's value is not a JSON string.
pub open spec fn string_entries_of(entries: Seq<(Seq<char>, Option<Seq<char>>)>) -> Option<
    Seq<(Seq<char>, Seq<char>)>,
>
    decreases entries.len(),
{
    if entries.len() == 0 {
        Some(Seq::empty())
    } else {
        match entries.first().1 {
            None => None,
            Some(v) => match string_entries_of(entries.drop_first()) {
                None => None,
                Some(rest) => Some(seq![(entries.first().0, v)] + rest),
            },
        }
    }
}

/// Reads a nested object's entries as string pairs, refusing the object as
/// soon as any value is not a string.
pub fn string_entries(entries: &Vec<(String, Option<String>)>) -> (r: Option<
    Vec<(String, String)>,
>)
    ensures
        match r {
            Some(m) => string_entries_of(entries.deep_view()) == Some(m.deep_view()),
            None => string_entries_of(entries.deep_view()) is None,
        },
{
    let ghost all = entries.deep_view();
    let mut out: Vec<(String, String)> = Vec::new();
    let mut i: usize = 0;
    proof {
        assert(all.skip(0) =~= all);
    }
    while i < entries.len()
        invariant
            i <= entries.len(),
            all == entries.deep_view(),
            string_entries_of(all) == (match string_entries_of(all.skip(i as int)) {
                None => None::<Seq<(Seq<char>, Seq<char>)>>,
                Some(rest) => Some(out.deep_view() + rest),
            }),
        decreases entries.len() - i,
    {
        let ghost suffix = all.skip(i as int);
        proof {
            assert(suffix.first() == all[i as int]);
            assert(suffix.drop_first() =~= all.skip(i + 1));
        }
        match &entries[i].1 {
            Some(v) => {
                let ghost old_out = out.deep_view();
                out.push((entries[i].0.clone(), v.clone()));
                proof {
                    let ghost cur = all[i as int];
                    assert(out.deep_view() =~= old_out.push((cur.0, cur.1.unwrap())));
                    match string_entries_of(all.skip(i + 1)) {
                        None => {},
                        Some(rest) => {
                            assert((old_out + (seq![(suffix.first().0, suffix.first().1.unwrap())]
                                + rest)) =~= out.deep_view() + rest);
                        },
                    }
                }
            },
            None => {
                proof {
                    assert(all[i as int].1 is None);
                }
                return None;
            },
        }
        i = i + 1;
    }
    proof {
        assert(all.skip(all.len() as int) =~= Seq::<(Seq<char>, Option<Seq<char>>)>::empty());
        assert(out.deep_view() + Seq::<(Seq<char>, Seq<char>)>::empty() =~= out.deep_view());
    }
    Some(out)
}

/// Looks up the first entry named `key` of an association list.
pub fn assoc_get<'a, T: DeepView>(entries: &'a Vec<(String, T)>, key: &str) -> (r: Option<&'a T>)
    ensures
        match r {
            Some(f) => assoc_of(entries.deep_view(), key@) == Some(f.deep_view()),
            None => assoc_of(entries.deep_view(), key@) is None,
        },
{
    let key_owned: String = key.to_owned();
    let mut i: usize = 0;
    while i < entries.len()
        invariant
            i <= entries.len(),
            key_owned@ == key@,
            forall|j: int| 0 <= j < i ==> #[trigger] entries.deep_view()[j].0 != key@,
        decreases entries.len() - i,
    {
        if entries[i].0 == key_owned {
            proof {
                lemma_assoc_of_found(entries.deep_view(), key@, i as int);
            }
            return Some(&entries[i].1);
        }
        i = i + 1;
    }
    proof {
        lemma_assoc_of_none(entries.deep_view(), key@);
    }
    None
}

} // verus!
