use vstd::prelude::*;
use crate::util::text::str_equal;

verus! {

/// A JSON number as the parser classifies it: a non-negative integer, a
/// negative integer, or a number with a fraction or exponent.
#[derive(Debug, Clone, Copy, PartialEq, Eq, Structural)]
pub enum JsonNumber {
    PosInt(u64),
    NegInt(i64),
    Float,
}

/// A parsed JSON value. Object members keep the order in which the parser
/// hands them out.
#[derive(Debug)]
pub enum JsonValue {
    Null,
    Bool(bool),
    Number(JsonNumber),
    Str(String),
    Array(Vec<JsonNode>),
    Object(Vec<(String, JsonNode)>),
}

/// A JSON value together with its compact JSON text.
#[derive(Debug)]
pub struct JsonNode {
    pub value: JsonValue,
    pub text: String,
}

/// The parser's own value type, carried through the conversion below.
#[verifier::external_type_specification]
#[verifier::external_body]
pub struct ExJsonValue(serde_json::Value);

/// What `serde_json::from_slice` gives for `data`: the parsed value, or
/// the printed error where it refuses the bytes.
pub uninterp spec fn json_from_slice(data: Seq<u8>) -> Result<JsonNode, Seq<char>>;

/// Calls `serde_json::from_slice::<serde_json::Value>` on `data` and
/// converts the value, or prints the error with `to_string`. The contract
/// claims that this is what `json_from_slice` names for the same bytes.
#[verifier::external_body]
pub(crate) fn parse_json_slice(data: &[u8]) -> (res: Result<JsonNode, String>)
    ensures
        match (res, json_from_slice(data@)) {
            (Ok(v), Ok(w)) => v == w,
            (Err(m), Err(n)) => m@ == n,
            _ => false,
        },
{
    match serde_json::from_slice::<serde_json::Value>(data) {
        Ok(v) => Ok(json_node_of(&v)),
        Err(e) => Err(e.to_string()),
    }
}

/// Converts a `serde_json::Value` into the library's own form, one node for
/// one node; the text of each node is the value's `to_string`.
#[verifier::external_body]
fn json_node_of(v: &serde_json::Value) -> JsonNode {
    let value = match v {
        serde_json::Value::Null => JsonValue::Null,
        serde_json::Value::Bool(b) => JsonValue::Bool(*b),
        serde_json::Value::Number(n) => JsonValue::Number(json_number_of(n)),
        serde_json::Value::String(s) => JsonValue::Str(s.clone()),
        serde_json::Value::Array(a) => JsonValue::Array(a.iter().map(json_node_of).collect()),
        serde_json::Value::Object(m) => JsonValue::Object(m.iter().map(|(k, x)| (k.clone(), json_node_of(x))).collect()),
    };
    JsonNode { value, text: v.to_string() }
}

/// The parser's number type, carried through the conversion below.
#[verifier::external_type_specification]
#[verifier::external_body]
pub struct ExJsonNumber(serde_json::Number);

/// Classifies a `serde_json::Number` by `as_u64` and `as_i64`: a
/// non-negative integer, a negative integer, or neither.
#[verifier::external_body]
fn json_number_of(n: &serde_json::Number) -> JsonNumber {
    match (n.as_u64(), n.as_i64()) {
        (Some(u), _) => JsonNumber::PosInt(u),
        (None, Some(i)) => JsonNumber::NegInt(i),
        (None, None) => JsonNumber::Float,
    }
}

/// Whether `fields[i]` is the first member named `key`.
pub open spec fn is_first_key(fields: Seq<(String, JsonNode)>, key: Seq<char>, i: int) -> bool {
    &&& 0 <= i < fields.len()
    &&& fields[i].0@ == key
    &&& forall|j: int| 0 <= j < i ==> fields[j].0@ != key
}

/// The value of the first member named `key`, if there is one.
pub open spec fn member(fields: Seq<(String, JsonNode)>, key: Seq<char>) -> Option<JsonNode> {
    if exists|i: int| is_first_key(fields, key, i) {
        Some(fields[choose|i: int| is_first_key(fields, key, i)].1)
    } else {
        None
    }
}

/// What `Value::get(key)` gives: the member of an object, nothing otherwise.
pub open spec fn get_spec(n: JsonNode, key: Seq<char>) -> Option<JsonNode> {
    match n.value {
        JsonValue::Object(fields) => member(fields@, key),
        _ => None,
    }
}

/// What `Value::as_str` gives.
pub open spec fn as_str_spec(n: JsonNode) -> Option<Seq<char>> {
    match n.value {
        JsonValue::Str(s) => Some(s@),
        _ => None,
    }
}

/// What `Value::as_i64` gives.
pub open spec fn as_i64_spec(n: JsonNode) -> Option<i64> {
    match n.value {
        JsonValue::Number(JsonNumber::PosInt(u)) => if u <= i64::MAX as u64 { Some(u as i64) } else { None },
        JsonValue::Number(JsonNumber::NegInt(i)) => Some(i),
        _ => None,
    }
}

/// What `Value::as_array` gives.
pub open spec fn as_array_spec(n: JsonNode) -> Option<Seq<JsonNode>> {
    match n.value {
        JsonValue::Array(a) => Some(a@),
        _ => None,
    }
}

/// Whether the node is `null`.
pub open spec fn is_null_spec(n: JsonNode) -> bool {
    n.value is Null
}

/// The view of an optional string.
pub open spec fn opt_str(o: Option<String>) -> Option<Seq<char>> {
    match o {
        Some(s) => Some(s@),
        None => None,
    }
}

proof fn lemma_first_key_unique(fields: Seq<(String, JsonNode)>, key: Seq<char>, i: int, j: int)
    requires
        is_first_key(fields, key, i),
        is_first_key(fields, key, j),
    ensures
        i == j,
{
}

impl JsonNode {
    /// The member named `key`, where this node is an object that has one.
    pub fn get(&self, key: &str) -> (res: Option<&JsonNode>)
        ensures
            match res {
                Some(r) => get_spec(*self, key@) == Some(*r),
                None => get_spec(*self, key@) is None,
            },
    {
        match &self.value {
            JsonValue::Object(fields) => {
                let mut i: usize = 0;
                while i < fields.len()
                    invariant
                        self.value == JsonValue::Object(*fields),
                        i <= fields@.len(),
                        forall|j: int| 0 <= j < i ==> fields@[j].0@ != key@,
                    decreases fields@.len() - i,
                {
                    if str_equal(fields[i].0.as_str(), key) {
                        proof {
                            assert(is_first_key(fields@, key@, i as int));
                            let c = choose|k: int| is_first_key(fields@, key@, k);
                            lemma_first_key_unique(fields@, key@, i as int, c);
                            assert(member(fields@, key@) == Some(fields@[i as int].1));
                        }
                        return Some(&fields[i].1);
                    }
                    i = i + 1;
                }
                None
            },
            _ => None,
        }
    }

    /// The string, where this node is one.
    pub fn as_str(&self) -> (res: Option<&String>)
        ensures
            match res {
                Some(s) => as_str_spec(*self) == Some(s@),
                None => as_str_spec(*self) is None,
            },
    {
        match &self.value {
            JsonValue::Str(s) => Some(s),
            _ => None,
        }
    }

    /// The integer, where this node is one that fits an `i64`.
    pub fn as_i64(&self) -> (res: Option<i64>)
        ensures
            res == as_i64_spec(*self),
    {
        match &self.value {
            JsonValue::Number(JsonNumber::PosInt(u)) => if *u <= 9223372036854775807u64 { Some(*u as i64) } else { None },
            JsonValue::Number(JsonNumber::NegInt(i)) => Some(*i),
            _ => None,
        }
    }

    /// The elements, where this node is an array.
    pub fn as_array(&self) -> (res: Option<&Vec<JsonNode>>)
        ensures
            match res {
                Some(a) => as_array_spec(*self) == Some(a@),
                None => as_array_spec(*self) is None,
            },
    {
        match &self.value {
            JsonValue::Array(a) => Some(a),
            _ => None,
        }
    }

    /// Whether this node is `null`.
    pub fn is_null(&self) -> (res: bool)
        ensures
            res == is_null_spec(*self),
    {
        match &self.value {
            JsonValue::Null => true,
            _ => false,
        }
    }
}

} // verus!
