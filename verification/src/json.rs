//! A library-owned model of a decoded JSON document.
//!
//! The decoder that turns raw text into this tree lives outside the library;
//! everything in here operates on already-decoded values. A number keeps the
//! exact wire form it was decoded from: a signed integer, an unsigned
//! integer, or the bit pattern of a binary64 floating-point value.

use vstd::prelude::*;

verus! {

/// A JSON number, kept exactly as decoded. A non-integral number is carried
/// as the raw bit pattern of its binary64 representation, so the library
/// never computes with floating-point values.
#[derive(Debug, Clone, Copy, PartialEq, Eq, Structural)]
pub enum JsonNum {
    Int(i64),
    UInt(u64),
    FloatBits(u64),
}

/// A decoded JSON document. Object members keep their source order;
/// keys are not required to be unique, and lookups take the first match,
/// which is what a well-formed document's unique keys give anyway.
#[derive(Debug, PartialEq)]
pub enum JsonValue {
    Null,
    Boolean(bool),
    Number(JsonNum),
    Text(String),
    Array(Vec<JsonValue>),
    Object(Vec<(String, JsonValue)>),
}

/// The mathematical shape of a [`JsonValue`]: the same tree with sequences
/// in place of vectors and character sequences in place of strings.
pub enum GhostJson {
    Null,
    Boolean(bool),
    Number(JsonNum),
    Text(Seq<char>),
    Array(Seq<GhostJson>),
    Object(Seq<(Seq<char>, GhostJson)>),
}

/// The mathematical shape of a value.
pub open spec fn jview(v: JsonValue) -> GhostJson
    decreases v,
{
    match v {
        JsonValue::Null => GhostJson::Null,
        JsonValue::Boolean(b) => GhostJson::Boolean(b),
        JsonValue::Number(n) => GhostJson::Number(n),
        JsonValue::Text(s) => GhostJson::Text(s@),
        JsonValue::Array(items) => GhostJson::Array(jview_seq(items@)),
        JsonValue::Object(pairs) => GhostJson::Object(jview_members(pairs@)),
    }
}

/// The mathematical shape of each value in a list, in order.
pub open spec fn jview_seq(s: Seq<JsonValue>) -> Seq<GhostJson>
    decreases s,
{
    if s.len() == 0 {
        Seq::empty()
    } else {
        seq![jview(s[0])] + jview_seq(s.drop_first())
    }
}

/// The mathematical shape of each member of an object, in order.
pub open spec fn jview_members(s: Seq<(String, JsonValue)>) -> Seq<(Seq<char>, GhostJson)>
    decreases s,
{
    if s.len() == 0 {
        Seq::empty()
    } else {
        seq![(s[0].0@, jview(s[0].1))] + jview_members(s.drop_first())
    }
}

/// `jview_seq` maps the list elementwise.
pub proof fn lemma_jview_seq(s: Seq<JsonValue>)
    ensures
        jview_seq(s).len() == s.len(),
        forall|i: int| 0 <= i < s.len() ==> jview_seq(s)[i] == jview(s[i]),
    decreases s.len(),
{
    if s.len() > 0 {
        lemma_jview_seq(s.drop_first());
    }
}

/// `jview_members` maps the member list elementwise.
pub proof fn lemma_jview_members(s: Seq<(String, JsonValue)>)
    ensures
        jview_members(s).len() == s.len(),
        forall|i: int|
            0 <= i < s.len() ==> jview_members(s)[i] == (s[i].0@, jview(s[i].1)),
    decreases s.len(),
{
    if s.len() > 0 {
        lemma_jview_members(s.drop_first());
    }
}

/// First value stored under `key`, scanning members in source order.
pub open spec fn obj_get(pairs: Seq<(String, JsonValue)>, key: Seq<char>) -> Option<JsonValue>
    decreases pairs.len(),
{
    if pairs.len() == 0 {
        None
    } else if pairs[0].0@ == key {
        Some(pairs[0].1)
    } else {
        obj_get(pairs.drop_first(), key)
    }
}

/// Looks a key up in an object's member list, returning the first match.
pub fn obj_lookup<'a>(pairs: &'a Vec<(String, JsonValue)>, key: &String) -> (r: Option<
    &'a JsonValue,
>)
    ensures
        match r {
            Some(v) => obj_get(pairs@, key@) == Some(*v),
            None => obj_get(pairs@, key@) is None,
        },
{
    let n = pairs.len();
    let mut i: usize = 0;
    proof {
        assert(pairs@.skip(0) =~= pairs@);
    }
    while i < n
        invariant
            n == pairs@.len(),
            i <= n,
            obj_get(pairs@, key@) == obj_get(pairs@.skip(i as int), key@),
        decreases n - i,
    {
        proof {
            assert(pairs@.skip(i as int).drop_first() =~= pairs@.skip(i as int + 1));
        }
        if pairs[i].0 == *key {
            return Some(&pairs[i].1);
        }
        i = i + 1;
    }
    proof {
        assert(pairs@.skip(n as int) =~= Seq::<(String, JsonValue)>::empty());
    }
    None
}

/// Copies a value; the copy has the same mathematical shape as the source.
pub fn clone_json(v: &JsonValue) -> (r: JsonValue)
    ensures
        jview(r) == jview(*v),
    decreases *v,
{
    match v {
        JsonValue::Null => JsonValue::Null,
        JsonValue::Boolean(b) => JsonValue::Boolean(*b),
        JsonValue::Number(n) => JsonValue::Number(*n),
        JsonValue::Text(s) => JsonValue::Text(s.clone()),
        JsonValue::Array(items) => JsonValue::Array(clone_array(items)),
        JsonValue::Object(pairs) => JsonValue::Object(clone_members(pairs)),
    }
}

/// Copies a list of values, preserving each element's mathematical shape.
pub fn clone_array(items: &Vec<JsonValue>) -> (r: Vec<JsonValue>)
    ensures
        jview_seq(r@) == jview_seq(items@),
    decreases *items,
{
    let n = items.len();
    let mut out: Vec<JsonValue> = Vec::new();
    let mut i: usize = 0;
    while i < n
        invariant
            n == items@.len(),
            i <= n,
            out@.len() == i,
            forall|j: int| 0 <= j < i ==> jview(out@[j]) == jview(items@[j]),
        decreases n - i,
    {
        out.push(clone_json(&items[i]));
        i = i + 1;
    }
    proof {
        lemma_jview_seq(out@);
        lemma_jview_seq(items@);
        assert(jview_seq(out@) =~= jview_seq(items@));
    }
    out
}

/// Copies an object's member list, preserving keys, values, and order.
pub fn clone_members(pairs: &Vec<(String, JsonValue)>) -> (r: Vec<(String, JsonValue)>)
    ensures
        jview_members(r@) == jview_members(pairs@),
    decreases *pairs,
{
    let n = pairs.len();
    let mut out: Vec<(String, JsonValue)> = Vec::new();
    let mut i: usize = 0;
    while i < n
        invariant
            n == pairs@.len(),
            i <= n,
            out@.len() == i,
            forall|j: int|
                0 <= j < i ==> out@[j].0@ == pairs@[j].0@ && jview(out@[j].1) == jview(
                    pairs@[j].1,
                ),
        decreases n - i,
    {
        let key = pairs[i].0.clone();
        let val = clone_json(&pairs[i].1);
        out.push((key, val));
        i = i + 1;
    }
    proof {
        lemma_jview_members(out@);
        lemma_jview_members(pairs@);
        assert(jview_members(out@) =~= jview_members(pairs@));
    }
    out
}

} // verus!
