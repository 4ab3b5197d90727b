use vstd::prelude::*;

verus! {

/// A JSON value as the decoder sees it. A number keeps its value only where it
/// is a non-negative integer that fits `u64`; other numbers carry `None`.
#[derive(Debug)]
pub enum Json {
    Null,
    Bool(bool),
    Number(Option<u64>),
    Str(String),
    Array(Vec<Json>),
    Object(Vec<(String, Json)>),
}

/// `serde_json`'s value tree, carried through opaquely.
#[verifier::external_type_specification]
#[verifier::external_body]
pub struct ExValue(serde_json::Value);

/// The tree that `serde_json::from_str` reads from a text, or `None` where the
/// text is not JSON.
pub uninterp spec fn json_of(text: Seq<char>) -> Option<Json>;

/// Relies on `serde_json::from_str` to parse `text` into a `serde_json::Value`,
/// which is carried over node for node.
#[verifier::external_body]
pub(crate) fn parse_json(text: &str) -> (r: Option<Json>)
    ensures
        r == json_of(text@),
{
    match serde_json::from_str::<serde_json::Value>(text) {
        Ok(v) => Some(json_from_value(v)),
        Err(_) => None,
    }
}

/// Relies on the shape of `serde_json::Value`: each node becomes the matching
/// `Json` node, in the same order.
#[verifier::external_body]
fn json_from_value(v: serde_json::Value) -> Json {
    match v {
        serde_json::Value::Null => Json::Null,
        serde_json::Value::Bool(b) => Json::Bool(b),
        serde_json::Value::Number(n) => Json::Number(n.as_u64()),
        serde_json::Value::String(s) => Json::Str(s),
        serde_json::Value::Array(a) => Json::Array(a.into_iter().map(json_from_value).collect()),
        serde_json::Value::Object(o) => Json::Object(
            o.into_iter().map(|(k, x)| (k, json_from_value(x))).collect(),
        ),
    }
}

/// The members of a payload: those of an object, none for anything else.
pub open spec fn members_of(payload: Option<Json>) -> Seq<(String, Json)> {
    match payload {
        Some(Json::Object(m)) => m@,
        _ => Seq::empty(),
    }
}

/// The value of the first member named `key`.
pub open spec fn member(m: Seq<(String, Json)>, key: Seq<char>) -> Option<Json>
    decreases m.len(),
{
    if m.len() == 0 {
        None
    } else if m[0].0@ == key {
        Some(m[0].1)
    } else {
        member(m.drop_first(), key)
    }
}

/// Index of the first member named `key`.
pub fn find_member(m: &Vec<(String, Json)>, key: &str) -> (r: Option<usize>)
    ensures
        match r {
            Some(i) => i < m@.len() && member(m@, key@) == Some(m@[i as int].1),
            None => member(m@, key@) == None::<Json>,
        },
{
    let mut i: usize = 0;
    assert(m@.subrange(0, m@.len() as int) =~= m@);
    while i < m.len()
        invariant
            i <= m@.len(),
            member(m@, key@) == member(m@.subrange(i as int, m@.len() as int), key@),
        decreases m@.len() - i,
    {
        let ghost rest = m@.subrange(i as int, m@.len() as int);
        assert(rest.drop_first() =~= m@.subrange(i + 1, m@.len() as int));
        if crate::text::str_eq(m[i].0.as_str(), key) {
            return Some(i);
        }
        i = i + 1;
    }
    None
}

/// The members of a parsed payload, as an owned list.
pub fn members(payload: Option<Json>) -> (r: Vec<(String, Json)>)
    ensures
        r@ == members_of(payload),
{
    match payload {
        Some(Json::Object(m)) => m,
        _ => Vec::new(),
    }
}

} // verus!
