//! JSON documents as values of the library's own, read by `serde_json`.

use crate::error::DecodeError;
use crate::text::same_text;
use vstd::prelude::*;

verus! {

/// A JSON document. A number is kept as text that writes it with every
/// digit, a string without its quotes and escapes, and the members of an
/// object as pairs of a name and a value.
#[derive(Debug, PartialEq)]
pub enum Json {
    Null,
    Bool(bool),
    Number(String),
    Text(String),
    Array(Vec<Json>),
    Object(Vec<(String, Json)>),
}

impl Clone for Json {
    fn clone(&self) -> (r: Json)
        ensures
            same_document(*self, r),
    {
        self.duplicate()
    }
}

/// `serde_json::Value`, of which nothing is known here but that it exists.
#[verifier::external_type_specification]
#[verifier::external_body]
pub struct ExValue(serde_json::Value);

/// The value of the first of `entries` whose name is `key`.
pub open spec fn lookup(entries: Seq<(String, Json)>, key: Seq<char>) -> Option<Json>
    decreases entries.len(),
{
    if entries.len() == 0 {
        None
    } else if entries[0].0@ == key {
        Some(entries[0].1)
    } else {
        lookup(entries.drop_first(), key)
    }
}

/// A member under another name does not change what is found under `key`,
/// wherever among the members it stands.
pub proof fn lemma_lookup_ignores_other_names(
    entries: Seq<(String, Json)>,
    at: int,
    extra: (String, Json),
    key: Seq<char>,
)
    requires
        0 <= at <= entries.len(),
        extra.0@ != key,
    ensures
        lookup(entries.insert(at, extra), key) == lookup(entries, key),
    decreases entries.len(),
{
    let more = entries.insert(at, extra);
    if at == 0 {
        assert(more.drop_first() =~= entries);
    } else {
        assert(more[0] == entries[0]);
        if entries[0].0@ != key {
            lemma_lookup_ignores_other_names(entries.drop_first(), at - 1, extra, key);
            assert(more.drop_first() =~= entries.drop_first().insert(at - 1, extra));
        }
    }
}

/// `a` and `b` are the same document: values of the same kind that hold
/// the same characters, elements and members, in the same order.
pub open spec fn same_document(a: Json, b: Json) -> bool
    decreases a,
{
    match (a, b) {
        (Json::Null, Json::Null) => true,
        (Json::Bool(x), Json::Bool(y)) => x == y,
        (Json::Number(x), Json::Number(y)) => x@ == y@,
        (Json::Text(x), Json::Text(y)) => x@ == y@,
        (Json::Array(x), Json::Array(y)) => {
            &&& x@.len() == y@.len()
            &&& forall|i: int|
                #![trigger x@[i]]
                #![trigger y@[i]]
                0 <= i < x@.len() ==> same_document(x@[i], y@[i])
        },
        (Json::Object(x), Json::Object(y)) => {
            &&& x@.len() == y@.len()
            &&& forall|i: int|
                #![trigger x@[i]]
                #![trigger y@[i]]
                0 <= i < x@.len() ==> x@[i].0@ == y@[i].0@ && same_document(x@[i].1, y@[i].1)
        },
        _ => false,
    }
}

/// What `serde_json::from_str` reads from `text` as a `serde_json::Value`,
/// rebuilt as a `Json`, or `None` where it reports an error. Nothing more is
/// claimed of it: the reading itself is `serde_json`'s and is not proved.
/// It is the document, not the text: the members of an object come sorted
/// by name, and of members with one name only the last is kept.
pub uninterp spec fn parsed_document(text: Seq<char>) -> Option<Json>;

/// What the text of a message decodes to: the document that it reads as,
/// decoded by `f`. A text that reads as no document is malformed.
pub open spec fn read_as<V>(text: Seq<char>, f: spec_fn(Json) -> Result<V, DecodeError>) -> Result<
    V,
    DecodeError,
> {
    match parsed_document(text) {
        Some(j) => f(j),
        None => Err(DecodeError::MalformedJson),
    }
}

/// Rebuilds a `serde_json::Value` as a `Json`, variant for variant: a string
/// moves over as it is, the elements of an array and the members of an
/// object are rebuilt in the order in which `serde_json` hands them out, and
/// a `serde_json::Number` becomes the text that its `Display` prints.
/// `serde_json` is built to keep numbers at their full precision, so that
/// text has every digit of the number; it need not be the document's own
/// spelling, since a whole number that fits 64 bits is printed afresh and
/// an exponent is written with `e` and a sign. No contract: it only serves
/// `read_document`.
#[verifier::external_body]
fn lift(value: serde_json::Value) -> Json {
    match value {
        serde_json::Value::Null => Json::Null,
        serde_json::Value::Bool(b) => Json::Bool(b),
        serde_json::Value::Number(n) => Json::Number(n.to_string()),
        serde_json::Value::String(s) => Json::Text(s),
        serde_json::Value::Array(a) => Json::Array(a.into_iter().map(lift).collect()),
        serde_json::Value::Object(o) => Json::Object(
            o.into_iter().map(|(k, v)| (k, lift(v))).collect(),
        ),
    }
}

/// Calls `serde_json::from_str` for a `serde_json::Value`. The contract only
/// gives the outcome its name, and so claims one thing: the same text
/// always reads as the same document, or always as none.
#[verifier::external_body]
fn read_document(text: &str) -> (r: Option<Json>)
    ensures
        r == parsed_document(text@),
{
    match serde_json::from_str::<serde_json::Value>(text) {
        Ok(value) => Some(lift(value)),
        Err(_) => None,
    }
}

impl Json {
    /// A copy of this document.
    #[verifier::loop_isolation(false)]
    pub fn duplicate(&self) -> (r: Json)
        ensures
            same_document(*self, r),
        decreases self,
    {
        match self {
            Json::Null => Json::Null,
            Json::Bool(b) => Json::Bool(*b),
            Json::Number(s) => Json::Number(s.clone()),
            Json::Text(s) => Json::Text(s.clone()),
            Json::Array(items) => {
                let mut out: Vec<Json> = Vec::new();
                let mut i: usize = 0;
                while i < items.len()
                    invariant
                        i <= items.len(),
                        out.len() == i,
                        forall|k: int| 0 <= k < i ==> same_document(items@[k], #[trigger] out@[k]),
                    decreases items.len() - i,
                {
                    proof {
                        vstd::std_specs::vec::axiom_vec_index_decreases(*items, i as int);
                        assert(decreases_to!(*items => items[i as int]));
                    }
                    out.push(items[i].duplicate());
                    i = i + 1;
                }
                Json::Array(out)
            },
            Json::Object(entries) => {
                let mut out: Vec<(String, Json)> = Vec::new();
                let mut i: usize = 0;
                while i < entries.len()
                    invariant
                        i <= entries.len(),
                        out.len() == i,
                        forall|k: int|
                            0 <= k < i ==> entries@[k].0@ == (#[trigger] out@[k]).0@
                                && same_document(entries@[k].1, out@[k].1),
                    decreases entries.len() - i,
                {
                    proof {
                        vstd::std_specs::vec::axiom_vec_index_decreases(*entries, i as int);
                        assert(decreases_to!(*entries => entries[i as int]));
                        assert(decreases_to!(entries[i as int] => entries[i as int].1));
                    }
                    out.push((entries[i].0.clone(), entries[i].1.duplicate()));
                    i = i + 1;
                }
                Json::Object(out)
            },
        }
    }

    /// The member of this object that is called `key`. Anything but an
    /// object has no members.
    pub open spec fn member(&self, key: Seq<char>) -> Option<Json> {
        match self {
            Json::Object(entries) => lookup(entries@, key),
            _ => None,
        }
    }

    /// This object is `other` with one more member, `extra`, at the place
    /// `at`.
    pub open spec fn extends(&self, other: Json, at: int, extra: (String, Json)) -> bool {
        &&& *self is Object
        &&& other is Object
        &&& 0 <= at <= other->Object_0@.len()
        &&& self->Object_0@ == other->Object_0@.insert(at, extra)
    }

    /// An object with one more member has the members of the other under
    /// every other name.
    pub proof fn lemma_member_ignores_other_names(
        &self,
        other: Json,
        at: int,
        extra: (String, Json),
        key: Seq<char>,
    )
        requires
            self.extends(other, at, extra),
            extra.0@ != key,
        ensures
            self.member(key) == other.member(key),
    {
        lemma_lookup_ignores_other_names(other->Object_0@, at, extra, key);
    }

    /// Reads a JSON document from its text. What comes back is the document
    /// as `serde_json` hands it out: the members of an object sorted by
    /// name, the last of those that share a name, numbers with every digit.
    pub fn parse(text: &str) -> (r: Result<Json, DecodeError>)
        ensures
            r == match parsed_document(text@) {
                Some(j) => Ok::<Json, DecodeError>(j),
                None => Err(DecodeError::MalformedJson),
            },
    {
        match read_document(text) {
            Some(j) => Ok(j),
            None => Err(DecodeError::MalformedJson),
        }
    }

    /// Whether this is an object.
    pub fn is_object(&self) -> (r: bool)
        ensures
            r == (self is Object),
    {
        match self {
            Json::Object(_) => true,
            _ => false,
        }
    }

    /// The member of this object that is called `key`.
    pub fn get(&self, key: &str) -> (r: Option<&Json>)
        ensures
            r matches Some(j) ==> self.member(key@) == Some(*j),
            r is None ==> self.member(key@) is None,
    {
        match self {
            Json::Object(entries) => {
                let mut i: usize = 0;
                proof {
                    assert(entries@.skip(0) =~= entries@);
                }
                while i < entries.len()
                    invariant
                        i <= entries.len(),
                        self.member(key@) == lookup(entries@, key@),
                        lookup(entries@, key@) == lookup(entries@.skip(i as int), key@),
                    decreases entries.len() - i,
                {
                    proof {
                        assert(entries@.skip(i as int)[0] == entries@[i as int]);
                    }
                    if same_text(entries[i].0.as_str(), key) {
                        return Some(&entries[i].1);
                    }
                    proof {
                        assert(entries@.skip(i as int).drop_first() =~= entries@.skip(i + 1));
                    }
                    i = i + 1;
                }
                None
            },
            _ => None,
        }
    }
}

} // verus!
