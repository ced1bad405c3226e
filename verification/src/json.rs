//! JSON documents: the mathematical model that the contracts of this crate
//! speak of, and the calls into `serde_json` that parse, inspect, build and
//! print them.

use vstd::prelude::*;

verus! {

/// The mathematical model of a JSON document.
///
/// A whole number is modelled by its value, any other number by the decimal
/// text that `serde_json` prints for it, an object by its members in the
/// order in which they were inserted.
pub ghost enum JsonValue {
    Null,
    Bool(bool),
    Integer(int),
    Float(Seq<char>),
    String(Seq<char>),
    Array(Seq<JsonValue>),
    Object(Seq<(Seq<char>, JsonValue)>),
}

/// The value of the first member named `key`, if there is one.
pub open spec fn lookup(members: Seq<(Seq<char>, JsonValue)>, key: Seq<char>) -> Option<JsonValue>
    decreases members.len(),
{
    if members.len() == 0 {
        None
    } else if members[0].0 == key {
        Some(members[0].1)
    } else {
        lookup(members.subrange(1, members.len() as int), key)
    }
}

/// No two members have the same name.
pub open spec fn distinct_keys(members: Seq<(Seq<char>, JsonValue)>) -> bool {
    forall|i: int, j: int|
        0 <= i < j < members.len() ==> (#[trigger] members[i]).0 != (#[trigger] members[j]).0
}

impl JsonValue {
    /// The member `key` of an object; `None` for a missing member and for
    /// every document that is not an object.
    pub open spec fn member(self, key: Seq<char>) -> Option<JsonValue> {
        match self {
            JsonValue::Object(members) => lookup(members, key),
            _ => None,
        }
    }
}

/// The members' names rise strictly under `rank`, and stay below `bound`.
pub open spec fn ranked_below(
    members: Seq<(Seq<char>, JsonValue)>,
    rank: spec_fn(Seq<char>) -> int,
    bound: int,
) -> bool {
    &&& forall|i: int| 0 <= i < members.len() ==> rank((#[trigger] members[i]).0) < bound
    &&& forall|i: int, j: int|
        0 <= i < j < members.len() ==> rank((#[trigger] members[i]).0) < rank(
            (#[trigger] members[j]).0,
        )
}

/// Appending at most one member whose name has rank `bound` keeps the names
/// rising.
pub proof fn lemma_ranked_extend(
    members: Seq<(Seq<char>, JsonValue)>,
    extra: Seq<(Seq<char>, JsonValue)>,
    rank: spec_fn(Seq<char>) -> int,
    bound: int,
)
    requires
        ranked_below(members, rank, bound),
        extra.len() <= 1,
        extra.len() == 1 ==> rank(extra[0].0) == bound,
    ensures
        ranked_below(members + extra, rank, bound + 1),
{
    let all = members + extra;
    assert forall|i: int| 0 <= i < all.len() implies rank((#[trigger] all[i]).0) < bound + 1 by {
        if i < members.len() {
            assert(all[i] == members[i]);
        } else {
            assert(all[i] == extra[0]);
        }
    }
    assert forall|i: int, j: int| 0 <= i < j < all.len() implies rank((#[trigger] all[i]).0) < rank(
        (#[trigger] all[j]).0,
    ) by {
        assert(all[i] == members[i]);
        if j < members.len() {
            assert(all[j] == members[j]);
        } else {
            assert(all[j] == extra[0]);
        }
    }
}

/// Names that rise strictly are distinct.
pub proof fn lemma_ranked_distinct(
    members: Seq<(Seq<char>, JsonValue)>,
    rank: spec_fn(Seq<char>) -> int,
    bound: int,
)
    requires
        ranked_below(members, rank, bound),
    ensures
        distinct_keys(members),
{
}

/// `serde_json::Value`, held as an opaque value.
#[verifier::external_type_specification]
#[verifier::external_body]
pub struct ExValue(serde_json::Value);

/// The document that a `serde_json::Value` holds.
pub uninterp spec fn json_model(v: serde_json::Value) -> JsonValue;

/// What `serde_json::from_str` makes of a text: the document that it reads
/// from it, or, where it rejects the text, the words of its error.
pub uninterp spec fn json_parse(text: Seq<char>) -> Result<JsonValue, Seq<char>>;

/// The compact text that `serde_json::to_string` prints for a document.
pub uninterp spec fn json_text(doc: JsonValue) -> Seq<char>;

/// The members of an object under construction, as the model sees them.
pub open spec fn members_model(
    members: Seq<(String, serde_json::Value)>,
) -> Seq<(Seq<char>, JsonValue)> {
    Seq::new(members.len(), |i: int| (members[i].0@, json_model(members[i].1)))
}

/// Calls `serde_json::from_str` for a `Value`. The result is what the
/// parser makes of `text`: the document that it reads, or the words of the
/// error with which it rejects the text.
#[verifier::external_body]
pub(crate) fn parse_value(text: &str) -> (r: Result<serde_json::Value, String>)
    ensures
        match r {
            Ok(v) => json_parse(text@) == Ok::<JsonValue, Seq<char>>(json_model(v)),
            Err(reason) => json_parse(text@) == Err::<JsonValue, Seq<char>>(reason@),
        },
{
    serde_json::from_str::<serde_json::Value>(text).map_err(|e| e.to_string())
}

/// Calls `serde_json::to_string` on a `Value`. The call succeeds on every
/// value: the printer writes into a buffer in memory, which takes every
/// write, a `Value` has only texts as names of members, and a number in it
/// is finite. The result is the compact text of the document; the compact
/// printer writes no line break, since it adds no white space and escapes
/// control characters in strings.
#[verifier::external_body]
pub(crate) fn value_to_text(v: &serde_json::Value) -> (r: Result<String, String>)
    ensures
        r is Ok,
        r matches Ok(s) ==> s@ == json_text(json_model(*v)) && !s@.contains('\n'),
{
    serde_json::to_string(v).map_err(|e| e.to_string())
}

/// Calls `Value::get` with a string index and clones what it finds: the
/// member of that name where the value is an object that has one, `None`
/// otherwise.
#[verifier::external_body]
pub(crate) fn value_member(v: &serde_json::Value, key: &str) -> (r: Option<serde_json::Value>)
    ensures
        match r {
            Some(m) => json_model(*v).member(key@) == Some(json_model(m)),
            None => json_model(*v).member(key@) is None,
        },
{
    v.get(key).cloned()
}

/// Calls `Value::as_str`: the text where the value is a string, `None`
/// otherwise.
#[verifier::external_body]
pub(crate) fn value_as_string(v: &serde_json::Value) -> (r: Option<String>)
    ensures
        match r {
            Some(s) => json_model(*v) == JsonValue::String(s@),
            None => !(json_model(*v) is String),
        },
{
    v.as_str().map(|s| s.to_owned())
}

/// Calls `Value::is_null`.
#[verifier::external_body]
pub(crate) fn value_is_null(v: &serde_json::Value) -> (r: bool)
    ensures
        r == (json_model(*v) is Null),
{
    v.is_null()
}

/// Calls `Value::clone`: the copy holds the same document.
#[verifier::external_body]
pub(crate) fn value_clone(v: &serde_json::Value) -> (r: serde_json::Value)
    ensures
        json_model(r) == json_model(*v),
{
    v.clone()
}

/// Builds `Value::Null`.
#[verifier::external_body]
pub(crate) fn value_null() -> (r: serde_json::Value)
    ensures
        json_model(r) is Null,
{
    serde_json::Value::Null
}

/// Calls `Value::from` on an `i32`, which gives the number of that value.
#[verifier::external_body]
pub(crate) fn value_from_i32(n: i32) -> (r: serde_json::Value)
    ensures
        json_model(r) == JsonValue::Integer(n as int),
{
    serde_json::Value::from(n)
}

/// Builds `Value::String` from a text.
#[verifier::external_body]
pub(crate) fn value_from_string(s: &str) -> (r: serde_json::Value)
    ensures
        json_model(r) == JsonValue::String(s@),
{
    serde_json::Value::String(s.to_owned())
}

/// Collects members into a `serde_json::Map`, which keeps the order of
/// insertion, and wraps it in `Value::Object`. With distinct names every
/// member is kept, in the order given.
#[verifier::external_body]
pub(crate) fn object_from_members(members: Vec<(String, serde_json::Value)>) -> (r: serde_json::Value)
    requires
        distinct_keys(members_model(members@)),
    ensures
        json_model(r) == JsonValue::Object(members_model(members@)),
{
    serde_json::Value::Object(members.into_iter().collect())
}

/// The members that an optional text contributes to an object: one member
/// where the text is present, none where it is absent.
pub open spec fn optional_text(key: Seq<char>, value: Option<String>) -> Seq<(Seq<char>, JsonValue)> {
    match value {
        Some(s) => seq![(key, JsonValue::String(s@))],
        None => Seq::empty(),
    }
}

/// Appends a member to an object under construction.
pub(crate) fn push_member(
    members: &mut Vec<(String, serde_json::Value)>,
    key: &str,
    value: serde_json::Value,
)
    ensures
        members_model(final(members)@) == members_model(old(members)@).push((key@, json_model(value))),
{
    members.push((key.to_owned(), value));
    assert(members_model(members@) =~= members_model(old(members)@).push((key@, json_model(value))));
}

/// Appends a member whose value is a text.
pub(crate) fn push_text(members: &mut Vec<(String, serde_json::Value)>, key: &str, value: &str)
    ensures
        members_model(final(members)@) == members_model(old(members)@).push(
            (key@, JsonValue::String(value@)),
        ),
{
    push_member(members, key, value_from_string(value));
}

/// Appends a member whose value is a text, where the text is present.
pub(crate) fn push_optional_text(
    members: &mut Vec<(String, serde_json::Value)>,
    key: &str,
    value: &Option<String>,
)
    ensures
        members_model(final(members)@) == members_model(old(members)@) + optional_text(key@, *value),
{
    match value {
        Some(s) => {
            push_text(members, key, s.as_str());
            assert(members_model(old(members)@).push((key@, JsonValue::String(s@)))
                =~= members_model(old(members)@) + optional_text(key@, *value));
        },
        None => {
            assert(members_model(old(members)@) =~=
                members_model(old(members)@) + optional_text(key@, *value));
        },
    }
}

} // verus!
