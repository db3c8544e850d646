//! JSON values, which this crate carries without looking inside.

use vstd::prelude::*;

verus! {

/// A JSON value of the decoder's own type.
#[verifier::external_type_specification]
#[verifier::external_body]
pub struct ExJsonValue(serde_json::Value);

/// What a JSON value holds, written as compact JSON text: no whitespace
/// between tokens, object members in the order in which the value hands
/// them out.
pub uninterp spec fn json_text(value: serde_json::Value) -> Seq<char>;

/// `serde_json::Value`'s `clone`: the copy is equal to the value it was
/// made from.
pub assume_specification[ <serde_json::Value as Clone>::clone ](v: &serde_json::Value) -> (r:
    serde_json::Value)
    ensures
        r == *v,
;

/// `serde_json::Value`'s `Display`, through `to_string`: the value as
/// compact JSON text, which is what [`json_text`] names.
#[verifier::external_body]
pub(crate) fn to_text(value: &serde_json::Value) -> (r: String)
    ensures
        r@ == json_text(*value),
{
    value.to_string()
}

} // verus!
