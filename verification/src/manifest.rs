use vstd::prelude::*;
use vstd::string::StringExecFns;

use crate::json::JsonValue;

verus! {

/// The extension's canonical name: the manifest's `name` field when it is
/// a string, and the fallback identifier otherwise.
pub open spec fn spec_name(m: JsonValue) -> Seq<char> {
    match m.spec_get("name"@) {
        Some(v) => match v.spec_as_str() {
            Some(s) => s,
            None => "unknown"@,
        },
        None => "unknown"@,
    }
}

/// The name shown to users: the manifest's `displayName` field when it is
/// a string, and the canonical name otherwise.
pub open spec fn spec_display_name(m: JsonValue) -> Seq<char> {
    match m.spec_get("displayName"@) {
        Some(v) => match v.spec_as_str() {
            Some(s) => s,
            None => spec_name(m),
        },
        None => spec_name(m),
    }
}

/// The declared entries of one contribution category: the array under
/// `contributes.<category>`, and empty when any level is absent or not of
/// the expected shape.
pub open spec fn spec_category(m: JsonValue, category: Seq<char>) -> Seq<JsonValue> {
    match m.spec_get("contributes"@) {
        Some(c) => match c.spec_get(category) {
            Some(v) => match v.spec_as_array() {
                Some(elems) => elems,
                None => Seq::empty(),
            },
            None => Seq::empty(),
        },
        None => Seq::empty(),
    }
}

/// The asset path one declared entry carries: its `path` field when that
/// is a string, and nothing otherwise (such an entry is skipped).
pub open spec fn spec_entry_path(e: JsonValue) -> Option<Seq<char>> {
    match e.spec_get("path"@) {
        Some(v) => v.spec_as_str(),
        None => None,
    }
}

pub fn manifest_name(m: &JsonValue) -> (r: String)
    ensures
        r@ == spec_name(*m),
{
    match m.get("name") {
        Some(v) => match v.as_str() {
            Some(s) => s.clone(),
            None => String::from_str("unknown"),
        },
        None => String::from_str("unknown"),
    }
}

pub fn manifest_display_name(m: &JsonValue) -> (r: String)
    ensures
        r@ == spec_display_name(*m),
{
    match m.get("displayName") {
        Some(v) => match v.as_str() {
            Some(s) => s.clone(),
            None => manifest_name(m),
        },
        None => manifest_name(m),
    }
}

pub fn category_entries<'a>(m: &'a JsonValue, category: &str) -> (r: Option<&'a Vec<JsonValue>>)
    ensures
        (match r {
            Some(elems) => spec_category(*m, category@) == elems@,
            None => spec_category(*m, category@) == Seq::<JsonValue>::empty(),
        }),
{
    match m.get("contributes") {
        Some(c) => match c.get(category) {
            Some(v) => v.as_array(),
            None => None,
        },
        None => None,
    }
}

pub fn entry_path<'a>(e: &'a JsonValue) -> (r: Option<&'a String>)
    ensures
        (match r {
            Some(s) => spec_entry_path(*e) == Some(s@),
            None => spec_entry_path(*e) is None,
        }),
{
    match e.get("path") {
        Some(v) => v.as_str(),
        None => None,
    }
}

} // verus!
