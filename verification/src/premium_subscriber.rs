//! The encoding of a role's booster tag: the member is written as `null`
//! when the tag is set, and left out when it is not.
use vstd::prelude::*;
use crate::json::JsonValue;

verus! {

/// The booster tag's member held something other than `null`.
#[derive(Copy, Clone, Debug, PartialEq, Eq, Structural)]
pub struct ExpectedNull;

/// What a present member decodes to.
pub open spec fn spec_deserialize(value: JsonValue) -> Result<bool, ExpectedNull> {
    match value {
        JsonValue::Null => Ok(true),
        _ => Err(ExpectedNull),
    }
}

/// What the member decodes to, present or not: a missing member means the
/// tag is unset.
pub open spec fn spec_decode_member(member: Option<JsonValue>) -> Result<bool, ExpectedNull> {
    match member {
        Some(value) => spec_deserialize(value),
        None => Ok(false),
    }
}

/// Decodes a present member: `null` sets the tag, anything else is refused.
pub fn deserialize(value: &JsonValue) -> (r: Result<bool, ExpectedNull>)
    ensures
        r == spec_deserialize(*value),
{
    match value {
        JsonValue::Null => Ok(true),
        _ => Err(ExpectedNull),
    }
}

/// Encodes the tag as the member's value, which is always `null`.
pub fn serialize(_flag: &bool) -> (r: JsonValue)
    ensures
        r == JsonValue::Null,
{
    JsonValue::Null
}

/// A present member is accepted exactly when it is `null`, and then it sets
/// the tag.
pub proof fn lemma_only_null_accepted(value: JsonValue)
    ensures
        spec_deserialize(value) is Ok <==> value is Null,
        spec_deserialize(value) is Ok ==> spec_deserialize(value) == Ok::<bool, ExpectedNull>(true),
{
}

/// A tag written as the encoding writes it (left out when unset, so that
/// `is_false` holds of it, and as `null` otherwise) reads back as itself.
pub proof fn lemma_round_trip(flag: bool)
    ensures
        spec_decode_member(if !flag { None } else { Some(JsonValue::Null) }) == Ok::<bool, ExpectedNull>(flag),
{
}

} // verus!
