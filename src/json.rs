use vstd::prelude::*;

verus! {

/// A JSON value held as plain values. Object members keep their order.
#[derive(Debug)]
pub enum JsonValue {
    Null,
    Bool(bool),
    /// A number, as its decimal text.
    Number(String),
    Str(String),
    Array(Vec<JsonValue>),
    Object(Vec<(String, JsonValue)>),
}

#[verifier::external_type_specification]
#[verifier::external_body]
pub struct ExJsonValue(serde_json::Value);

/// The JSON value that a text holds, as read by `serde_json`; `None` where
/// `serde_json` refuses the text (not JSON, or nested too deeply).
pub uninterp spec fn json_of(s: Seq<char>) -> Option<JsonValue>;

/// Moves a `serde_json::Value` into the library's `JsonValue`, variant for
/// variant; numbers keep their `serde_json` text.
#[verifier::external_body]
fn json_from_value(v: serde_json::Value) -> JsonValue {
    match v {
        serde_json::Value::Null => JsonValue::Null,
        serde_json::Value::Bool(b) => JsonValue::Bool(b),
        serde_json::Value::Number(n) => JsonValue::Number(n.to_string()),
        serde_json::Value::String(t) => JsonValue::Str(t),
        serde_json::Value::Array(a) => JsonValue::Array(a.into_iter().map(json_from_value).collect()),
        serde_json::Value::Object(m) => JsonValue::Object(
            m.into_iter().map(|(k, x)| (k, json_from_value(x))).collect(),
        ),
    }
}

/// Relies on `serde_json::from_str::<Value>`: the value the text holds, or
/// `None` where it is refused; the answer depends on the text alone.
#[verifier::external_body]
pub fn parse_json(s: &str) -> (r: Option<JsonValue>)
    ensures
        r == json_of(s@),
{
    match serde_json::from_str::<serde_json::Value>(s) {
        Ok(v) => Some(json_from_value(v)),
        Err(_) => None,
    }
}

/// The value of the last member named `key`.
pub open spec fn member_in(m: Seq<(String, JsonValue)>, key: Seq<char>) -> Option<JsonValue>
    decreases m.len(),
{
    if m.len() == 0 {
        None
    } else if m.last().0@ == key {
        Some(m.last().1)
    } else {
        member_in(m.drop_last(), key)
    }
}

/// The member `key` of an object; `None` for a missing member or a value
/// that is no object.
pub open spec fn member_of(v: JsonValue, key: Seq<char>) -> Option<JsonValue> {
    match v {
        JsonValue::Object(m) => member_in(m@, key),
        _ => None,
    }
}

/// Takes the member `key` out of the members `m`.
pub fn take_member_in(members: Vec<(String, JsonValue)>, key: &str) -> (r: Option<JsonValue>)
    ensures
        r == member_in(members@, key@),
{
    let ghost orig = members@;
    let mut m = members;
    let name = String::from_str(key);
    while m.len() > 0
        invariant
            orig == members@,
            member_in(orig, key@) == member_in(m@, key@),
            name@ == key@,
        decreases m.len(),
    {
        let ghost before = m@;
        match m.pop() {
            Some((k, x)) => {
                assert(before.last() == (k, x));
                assert(m@ == before.drop_last());
                if k == name {
                    assert(member_in(before, key@) == Some(x));
                    return Some(x);
                }
            },
            None => {
                return None;
            },
        }
    }
    None
}

/// Takes the member `key` out of `v`.
pub fn take_member(v: JsonValue, key: &str) -> (r: Option<JsonValue>)
    ensures
        r == member_of(v, key@),
{
    match v {
        JsonValue::Object(m) => take_member_in(m, key),
        _ => None,
    }
}

/// The member `key` of the members `m`, borrowed.
pub fn member_ref<'a>(m: &'a Vec<(String, JsonValue)>, key: &str) -> (r: Option<&'a JsonValue>)
    ensures
        match r {
            Some(x) => member_in(m@, key@) == Some(*x),
            None => member_in(m@, key@) is None,
        },
{
    let name = String::from_str(key);
    let mut i: usize = m.len();
    assert(m@.subrange(0, i as int) =~= m@);
    while i > 0
        invariant
            i <= m.len(),
            name@ == key@,
            member_in(m@, key@) == member_in(m@.subrange(0, i as int), key@),
        decreases i,
    {
        let ghost q = m@.subrange(0, i as int);
        assert(q.last() == m@[i - 1]);
        if m[i - 1].0 == name {
            return Some(&m[i - 1].1);
        }
        assert(q.drop_last() =~= m@.subrange(0, i - 1));
        i = i - 1;
    }
    None
}

} // verus!
