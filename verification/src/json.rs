//! An explicit JSON document tree.
//!
//! `Json` is the library's own representation of a parsed JSON document; the
//! schema codec works on this tree alone.  Its mathematical counterpart is
//! `JsonSpec`, reached through `deep_view`.  Object members keep the order in
//! which they were met, and lookup takes the first member with a given name.

use vstd::prelude::*;

verus! {

/// Mathematical model of a JSON document tree.
///
/// Every numeric field of the report schema is a non-negative integer, so a
/// number is kept exactly where it is an unsigned 64-bit integer; any other
/// number is `NumOther`, which matches the schema nowhere.
pub enum JsonSpec {
    Null,
    Bool(bool),
    UInt(u64),
    NumOther,
    Str(Seq<char>),
    Arr(Seq<JsonSpec>),
    Obj(Seq<(Seq<char>, JsonSpec)>),
}

/// A JSON document tree as a runtime value.
#[derive(Debug, PartialEq)]
pub enum Json {
    /// The JSON value `null`.
    Null,
    /// A JSON boolean.
    Bool(bool),
    /// A JSON number that is an unsigned 64-bit integer.
    UInt(u64),
    /// A JSON number that is not an unsigned 64-bit integer (negative or
    /// fractional); the report schema allows one nowhere.
    NumOther,
    /// A JSON string.
    Str(String),
    /// A JSON array.
    Arr(Vec<Json>),
    /// A JSON object: members in order of appearance.
    Obj(Vec<(String, Json)>),
}

impl DeepView for Json {
    type V = JsonSpec;

    open spec fn deep_view(&self) -> JsonSpec
        decreases self,
    {
        match self {
            Json::Null => JsonSpec::Null,
            Json::Bool(b) => JsonSpec::Bool(*b),
            Json::UInt(n) => JsonSpec::UInt(*n),
            Json::NumOther => JsonSpec::NumOther,
            Json::Str(s) => JsonSpec::Str(s@),
            Json::Arr(items) => JsonSpec::Arr(json_seq_view(items@)),
            Json::Obj(members) => JsonSpec::Obj(member_view(members@)),
        }
    }
}

/// The model of a sequence of JSON values, element by element.
pub open spec fn json_seq_view(s: Seq<Json>) -> Seq<JsonSpec>
    decreases s,
{
    if s.len() == 0 {
        Seq::empty()
    } else {
        seq![s[0].deep_view()] + json_seq_view(s.skip(1))
    }
}

/// The model of a sequence of object members, element by element.
pub open spec fn member_view(s: Seq<(String, Json)>) -> Seq<(Seq<char>, JsonSpec)>
    decreases s,
{
    if s.len() == 0 {
        Seq::empty()
    } else {
        seq![(s[0].0@, s[0].1.deep_view())] + member_view(s.skip(1))
    }
}

/// `json_seq_view` maps the sequence element by element.
pub proof fn lemma_json_seq_view(s: Seq<Json>)
    ensures
        json_seq_view(s).len() == s.len(),
        forall|i: int| 0 <= i < s.len() ==> json_seq_view(s)[i] == s[i].deep_view(),
    decreases s.len(),
{
    if s.len() > 0 {
        lemma_json_seq_view(s.skip(1));
        let head = seq![s[0].deep_view()];
        assert(json_seq_view(s) == head + json_seq_view(s.skip(1)));
        assert(head.len() == 1);
        assert(s.skip(1).len() == s.len() - 1);
        assert forall|i: int| 0 <= i < s.len() implies json_seq_view(s)[i] == s[i].deep_view() by {
            if i > 0 {
                assert((head + json_seq_view(s.skip(1)))[i] == json_seq_view(s.skip(1))[i - 1]);
                assert(s.skip(1)[i - 1] == s[i]);
            }
        }
    } else {
        assert(json_seq_view(s).len() == 0);
    }
}

/// `member_view` maps the sequence element by element.
pub proof fn lemma_member_view(s: Seq<(String, Json)>)
    ensures
        member_view(s).len() == s.len(),
        forall|i: int| 0 <= i < s.len() ==> member_view(s)[i] == (s[i].0@, s[i].1.deep_view()),
    decreases s.len(),
{
    if s.len() > 0 {
        lemma_member_view(s.skip(1));
        let head = seq![(s[0].0@, s[0].1.deep_view())];
        assert(member_view(s) == head + member_view(s.skip(1)));
        assert(head.len() == 1);
        assert(s.skip(1).len() == s.len() - 1);
        assert forall|i: int| 0 <= i < s.len() implies member_view(s)[i] == (
            s[i].0@,
            s[i].1.deep_view(),
        ) by {
            if i > 0 {
                assert((head + member_view(s.skip(1)))[i] == member_view(s.skip(1))[i - 1]);
                assert(s.skip(1)[i - 1] == s[i]);
            }
        }
    } else {
        assert(member_view(s).len() == 0);
    }
}

/// The first member of `members` named `key`, if any.
pub open spec fn obj_get_spec(members: Seq<(Seq<char>, JsonSpec)>, key: Seq<char>) -> Option<
    JsonSpec,
>
    decreases members.len(),
{
    if members.len() == 0 {
        None
    } else if members[0].0 == key {
        Some(members[0].1)
    } else {
        obj_get_spec(members.skip(1), key)
    }
}

/// Lookup distributes over concatenation: the left part wins where it has
/// the key.
pub proof fn lemma_obj_get_concat(
    a: Seq<(Seq<char>, JsonSpec)>,
    b: Seq<(Seq<char>, JsonSpec)>,
    key: Seq<char>,
)
    ensures
        obj_get_spec(a + b, key) == if obj_get_spec(a, key) is Some {
            obj_get_spec(a, key)
        } else {
            obj_get_spec(b, key)
        },
    decreases a.len(),
{
    if a.len() == 0 {
        assert(a + b =~= b);
    } else {
        assert((a + b).skip(1) =~= a.skip(1) + b);
        lemma_obj_get_concat(a.skip(1), b, key);
    }
}

/// Lookup in a singleton object.
pub proof fn lemma_obj_get_single(name: Seq<char>, v: JsonSpec, key: Seq<char>)
    ensures
        obj_get_spec(seq![(name, v)], key) == if key == name {
            Some(v)
        } else {
            None::<JsonSpec>
        },
{
    reveal_with_fuel(obj_get_spec, 2);
    assert(seq![(name, v)].skip(1) =~= Seq::<(Seq<char>, JsonSpec)>::empty());
}

impl Json {
    /// The first member of this object named `key`, or `None` where the value
    /// is not an object or has no such member.
    pub fn get<'a>(&'a self, key: &str) -> (r: Option<&'a Json>)
        ensures
            match self.deep_view() {
                JsonSpec::Obj(members) => match r {
                    Some(v) => obj_get_spec(members, key@) == Some(v.deep_view()),
                    None => obj_get_spec(members, key@) is None,
                },
                _ => r is None,
            },
    {
        match self {
            Json::Obj(members) => obj_get(members, key),
            _ => None,
        }
    }
}

/// The first member of `members` named `key`.
pub fn obj_get<'a>(members: &'a Vec<(String, Json)>, key: &str) -> (r: Option<&'a Json>)
    ensures
        match r {
            Some(v) => obj_get_spec(member_view(members@), key@) == Some(v.deep_view()),
            None => obj_get_spec(member_view(members@), key@) is None,
        },
{
    let ghost model = member_view(members@);
    proof {
        lemma_member_view(members@);
        assert(model.skip(0) =~= model);
    }
    for i in 0..members.len()
        invariant
            model == member_view(members@),
            model.len() == members@.len(),
            forall|k: int| 0 <= k < model.len() ==> model[k] == (members@[k].0@, members@[k].1.deep_view()),
            obj_get_spec(model, key@) == obj_get_spec(model.skip(i as int), key@),
    {
        proof {
            assert(model.skip(i as int).len() > 0);
            assert(model.skip(i as int)[0] == model[i as int]);
            assert(model.skip(i as int).skip(1) =~= model.skip(i + 1));
        }
        if string_eq_str(&members[i].0, key) {
            return Some(&members[i].1);
        }
    }
    proof {
        assert(model.skip(members@.len() as int) =~= Seq::<(Seq<char>, JsonSpec)>::empty());
    }
    None
}

/// Whether a `String` and a `&str` hold the same characters.
pub fn string_eq_str(a: &String, b: &str) -> (r: bool)
    ensures
        r == (a@ == b@),
{
    let bs = b.to_string();
    *a == bs
}

#[verifier::external_type_specification]
#[verifier::external_body]
pub struct ExValue(serde_json::Value);

/// The `Json` tree that a `serde_json::Value` holds: each variant read as the
/// matching `JsonSpec` variant, object members in the order the map iterates,
/// a number that is not an unsigned 64-bit integer read as `NumOther`.
pub uninterp spec fn value_model(v: serde_json::Value) -> JsonSpec;

/// What parsing a text as one JSON document yields: the parse depends on the
/// characters alone.
pub uninterp spec fn parsed_json(s: Seq<char>) -> Option<JsonSpec>;

/// The text that printing a JSON tree yields: it depends on the tree alone.
pub uninterp spec fn json_text(j: JsonSpec) -> Seq<char>;

/// The text that a byte sequence is read as: it depends on the bytes alone.
pub uninterp spec fn lossy_text(b: Seq<u8>) -> Seq<char>;

/// The message of a failed parse of `s` as one JSON document: the parser is
/// deterministic, so the message too depends on the characters alone.
pub uninterp spec fn parse_error_text(s: Seq<char>) -> Seq<char>;

/// Relies on `serde_json::from_str::<serde_json::Value>`: parses the text as
/// one JSON document, or fails with a message; both outcomes depend on the
/// text alone.
#[verifier::external_body]
fn value_from_text(s: &str) -> (r: Result<serde_json::Value, String>)
    ensures
        match r {
            Ok(v) => parsed_json(s@) == Some(value_model(v)),
            Err(e) => parsed_json(s@) is None && e@ == parse_error_text(s@),
        },
{
    serde_json::from_str::<serde_json::Value>(s).map_err(|e| e.to_string())
}

/// Relies on the variants of `serde_json::Value`: maps each to the matching
/// `Json` variant, element by element; `Number` through
/// `serde_json::Number::as_u64`, which is `None` exactly for a negative or
/// fractional number, read here as `NumOther`.
#[verifier::external_body]
fn json_of_value(v: &serde_json::Value) -> (r: Json)
    ensures
        r.deep_view() == value_model(*v),
{
    match v {
        serde_json::Value::Null => Json::Null,
        serde_json::Value::Bool(b) => Json::Bool(*b),
        serde_json::Value::Number(n) => n.as_u64().map_or(Json::NumOther, Json::UInt),
        serde_json::Value::String(s) => Json::Str(s.clone()),
        serde_json::Value::Array(a) => Json::Arr(a.iter().map(json_of_value).collect()),
        serde_json::Value::Object(m) => Json::Obj(
            m.iter().map(|(k, x)| (k.clone(), json_of_value(x))).collect(),
        ),
    }
}

/// Relies on the constructors of `serde_json::Value`: builds a value from the
/// tree, element by element; `UInt` through `serde_json::Number::from`,
/// `NumOther` as `Null`.  The map behind `Value::Object` sorts members by key
/// and keeps one member per name, so the built value does not in general read
/// back as the same tree, and nothing is claimed of it; it only feeds
/// `json_to_text` below.
#[verifier::external_body]
fn value_of_json(j: &Json) -> serde_json::Value {
    match j {
        Json::Null => serde_json::Value::Null,
        Json::Bool(b) => serde_json::Value::Bool(*b),
        Json::UInt(n) => serde_json::Value::Number(serde_json::Number::from(*n)),
        Json::NumOther => serde_json::Value::Null,
        Json::Str(s) => serde_json::Value::String(s.clone()),
        Json::Arr(a) => serde_json::Value::Array(a.iter().map(value_of_json).collect()),
        Json::Obj(ms) => serde_json::Value::Object(
            ms.iter().map(|(k, x)| (k.clone(), value_of_json(x))).collect(),
        ),
    }
}

/// Relies on `String::from_utf8_lossy`: reads bytes as UTF-8, replacing each
/// invalid sequence with U+FFFD; the result depends on the bytes alone.
#[verifier::external_body]
pub(crate) fn lossy_utf8(b: &[u8]) -> (r: String)
    ensures
        r@ == lossy_text(b@),
{
    String::from_utf8_lossy(b).into_owned()
}

/// Parse a text as one JSON document, or fail with the parser's message.
pub fn parse_json_text(s: &str) -> (r: Result<Json, String>)
    ensures
        match r {
            Ok(j) => parsed_json(s@) == Some(j.deep_view()),
            Err(e) => parsed_json(s@) is None && e@ == parse_error_text(s@),
        },
{
    match value_from_text(s) {
        Ok(v) => Ok(json_of_value(&v)),
        Err(e) => Err(e),
    }
}

/// Relies on `serde_json::to_string` over the value that `value_of_json`
/// builds: both steps are deterministic, so the text depends on the tree
/// alone, and printing a `Value` never fails (its serializer writes into a
/// byte buffer, and every variant built above serializes).  Object members
/// are printed in the order of serde_json's map, sorted by name.
#[verifier::external_body]
pub(crate) fn json_to_text(j: &Json) -> (r: Option<String>)
    ensures
        r is Some,
        r matches Some(t) ==> t@ == json_text(j.deep_view()),
{
    serde_json::to_string(&value_of_json(j)).ok()
}

} // verus!
