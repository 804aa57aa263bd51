use vstd::prelude::*;
use vstd::string::StringExecFns;

verus! {

/// A structured-data value tree: the model of a package manifest.
///
/// Objects keep their fields as an ordered list of key/value pairs; a
/// number keeps only its literal text, since the installer never
/// interprets numbers.
pub enum JsonValue {
    Null,
    Bool(bool),
    Number(String),
    Str(String),
    Array(Vec<JsonValue>),
    Object(Vec<(String, JsonValue)>),
}

/// The value of the first field named `key`, looking from position `i` on.
pub open spec fn lookup_from(fields: Seq<(String, JsonValue)>, key: Seq<char>, i: int) -> Option<
    JsonValue,
>
    decreases fields.len() - i,
{
    if i < 0 || i >= fields.len() {
        None
    } else if fields[i].0@ == key {
        Some(fields[i].1)
    } else {
        lookup_from(fields, key, i + 1)
    }
}

impl JsonValue {
    /// The value of field `key`, when `self` is an object that carries one.
    pub open spec fn spec_get(self, key: Seq<char>) -> Option<JsonValue> {
        match self {
            JsonValue::Object(fields) => lookup_from(fields@, key, 0),
            _ => None,
        }
    }

    /// The character sequence held, when `self` is a string value.
    pub open spec fn spec_as_str(self) -> Option<Seq<char>> {
        match self {
            JsonValue::Str(s) => Some(s@),
            _ => None,
        }
    }

    /// The elements held, when `self` is an array value.
    pub open spec fn spec_as_array(self) -> Option<Seq<JsonValue>> {
        match self {
            JsonValue::Array(elems) => Some(elems@),
            _ => None,
        }
    }

    #[verifier::loop_isolation(false)]
    pub fn get<'a>(&'a self, key: &str) -> (r: Option<&'a JsonValue>)
        ensures
            (match r {
                Some(v) => self.spec_get(key@) == Some(*v),
                None => self.spec_get(key@) is None,
            }),
    {
        match self {
            JsonValue::Object(fields) => {
                let key_string = String::from_str(key);
                let mut i: usize = 0;
                while i < fields.len()
                    invariant
                        i <= fields.len(),
                        key_string@ == key@,
                        lookup_from(fields@, key@, 0) == lookup_from(fields@, key@, i as int),
                    decreases fields.len() - i,
                {
                    if fields[i].0 == key_string {
                        return Some(&fields[i].1);
                    }
                    i = i + 1;
                }
                None
            },
            _ => None,
        }
    }

    pub fn as_str<'a>(&'a self) -> (r: Option<&'a String>)
        ensures
            (match r {
                Some(s) => self.spec_as_str() == Some(s@),
                None => self.spec_as_str() is None,
            }),
    {
        match self {
            JsonValue::Str(s) => Some(s),
            _ => None,
        }
    }

    pub fn as_array<'a>(&'a self) -> (r: Option<&'a Vec<JsonValue>>)
        ensures
            (match r {
                Some(elems) => self.spec_as_array() == Some(elems@),
                None => self.spec_as_array() is None,
            }),
    {
        match self {
            JsonValue::Array(elems) => Some(elems),
            _ => None,
        }
    }
}

#[verifier::external_type_specification]
#[verifier::external_body]
pub struct ExValue(serde_json::Value);

/// What decoding `bytes` as structured-data syntax yields: the decoded
/// value tree, or `None` when the bytes are not well-formed.
pub uninterp spec fn spec_parse_json(bytes: Seq<u8>) -> Option<JsonValue>;

/// Relies on serde_json::from_slice: decoding succeeds exactly on
/// well-formed input and yields its value tree.
#[verifier::external_body]
pub(crate) fn parse_json(bytes: &[u8]) -> (r: Option<JsonValue>)
    ensures
        r == spec_parse_json(bytes@),
{
    match serde_json::from_slice::<serde_json::Value>(bytes) {
        Ok(v) => Some(tree_of(&v)),
        Err(_) => None,
    }
}

/// Relies on serde_json::Value: the decoded tree is carried over variant by
/// variant, field by field. Used only by `parse_json` above.
#[verifier::external_body]
fn tree_of(v: &serde_json::Value) -> JsonValue {
    match v {
        serde_json::Value::Null => JsonValue::Null,
        serde_json::Value::Bool(b) => JsonValue::Bool(*b),
        serde_json::Value::Number(n) => JsonValue::Number(n.to_string()),
        serde_json::Value::String(s) => JsonValue::Str(s.clone()),
        serde_json::Value::Array(a) => JsonValue::Array(a.iter().map(tree_of).collect()),
        serde_json::Value::Object(m) => JsonValue::Object(
            m.iter().map(|(k, x)| (k.clone(), tree_of(x))).collect(),
        ),
    }
}

} // verus!
