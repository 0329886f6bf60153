//! Reading the JSON files and answers the importers look into.
use vstd::prelude::*;

verus! {

/// Whether `serde_json` reads the text as one JSON value.
pub uninterp spec fn json_parses(text: Seq<char>) -> bool;

/// The string that the JSON text's top-level object holds under `field`:
/// nothing when the value is no object, has no such field, or the field is
/// not a string.
pub uninterp spec fn json_str_field(text: Seq<char>, field: Seq<char>) -> Option<Seq<char>>;

/// The keys of the object that the JSON text's top-level object holds under
/// `field`, in the order `serde_json` gives them; none when there is no such
/// object.
pub uninterp spec fn json_object_keys(text: Seq<char>, field: Seq<char>) -> Seq<Seq<char>>;

/// `serde_json::from_str::<serde_json::Value>`, then `Value::get` with
/// `field` and `Value::as_str`. Parsing is named by `json_parses` and the
/// string by `json_str_field`; a parse error gives the error's text.
#[verifier::external_body]
pub(crate) fn json_string_field(text: &str, field: &str) -> (r: Result<Option<String>, String>)
    ensures
        r is Ok <==> json_parses(text@),
        r matches Ok(f) ==> f.deep_view() == json_str_field(text@, field@),
{
    match serde_json::from_str::<serde_json::Value>(text) {
        Ok(v) => Ok(v.get(field).and_then(|x| x.as_str()).map(|s| s.to_string())),
        Err(e) => Err(e.to_string()),
    }
}

/// `serde_json::from_str::<serde_json::Value>`, then `Value::get` with
/// `field`, `Value::as_object` and the keys of that map. Parsing is named by
/// `json_parses` and the keys by `json_object_keys`; a parse error gives the
/// error's text.
#[verifier::external_body]
pub(crate) fn json_keys(text: &str, field: &str) -> (r: Result<Vec<String>, String>)
    ensures
        r is Ok <==> json_parses(text@),
        r matches Ok(v) ==> v.deep_view() == json_object_keys(text@, field@),
{
    match serde_json::from_str::<serde_json::Value>(text) {
        Ok(v) => Ok(match v.get(field).and_then(|x| x.as_object()) {
            Some(m) => m.keys().cloned().collect(),
            None => Vec::new(),
        }),
        Err(e) => Err(e.to_string()),
    }
}

} // verus!
