//! Reading a text field out of a JSON document.

use vstd::prelude::*;

verus! {

/// The text that `document`, read as JSON, holds under `field`: `None`
/// where the document is no JSON, no object, has no such field, or holds
/// something other than a string there.
pub uninterp spec fn json_text_field_of(document: Seq<char>, field: Seq<char>) -> Option<Seq<char>>;

/// Parses `document` with `serde_json::from_str` into a `serde_json::Value`,
/// looks `field` up with `Value::get` and takes the string with
/// `Value::as_str`. The result depends on the two texts alone; the contract
/// gives it its name and claims nothing else of it.
#[verifier::external_body]
pub(crate) fn json_text_field(document: &str, field: &str) -> (text: Option<String>)
    ensures
        text.deep_view() == json_text_field_of(document@, field@),
{
    let value: serde_json::Value = serde_json::from_str(document).ok()?;
    value.get(field)?.as_str().map(|text| text.to_owned())
}

} // verus!
