use vstd::prelude::*;

verus! {

#[verifier::external_type_specification]
#[verifier::external_body]
pub struct ExValue(serde_json::Value);

/// The shape of a parsed JSON document, as far as the interaction wire
/// format reads one: an object is the map from member name to member
/// shape (a repeated name keeping its last value), a string carries its
/// UTF-8 bytes, and a number that fits an unsigned 64-bit integer carries
/// that integer. Every other JSON value (null, booleans, arrays, negative
/// or fractional numbers) reads as `Opaque`.
pub enum JsonShape {
    Object { members: Map<Seq<char>, JsonShape> },
    Text { bytes: Seq<u8> },
    UInt { n: u64 },
    Opaque,
}

/// What `serde_json::from_slice::<Value>` makes of a byte string: `None`
/// where the bytes are not a well-formed JSON document, otherwise the
/// shape of the parsed document. Parsing is a pure function of the bytes.
pub uninterp spec fn json_of(bytes: Seq<u8>) -> Option<JsonShape>;

/// The shape of one parsed `serde_json::Value`.
pub uninterp spec fn shape_of(v: serde_json::Value) -> JsonShape;

/// Relies on serde_json::from_slice::<Value>: parses a JSON document, or
/// refuses the bytes.
#[verifier::external_body]
pub fn json_parse(bytes: &[u8]) -> (r: Option<serde_json::Value>)
    ensures
        match r {
            Some(v) => json_of(bytes@) == Some(shape_of(v)),
            None => json_of(bytes@) is None,
        },
{
    serde_json::from_slice::<serde_json::Value>(bytes).ok()
}

/// Relies on serde_json::Value::get with a string index: looks the member
/// name up in an object's map, and answers `None` on every other value.
#[verifier::external_body]
pub fn json_get<'a>(v: &'a serde_json::Value, key: &str) -> (r: Option<&'a serde_json::Value>)
    ensures
        match r {
            Some(m) => shape_of(*v) matches JsonShape::Object { members }
                && members.contains_key(key@) && shape_of(*m) == members[key@],
            None => !(shape_of(*v) matches JsonShape::Object { members }
                && members.contains_key(key@)),
        },
{
    v.get(key)
}

/// Relies on serde_json::Value::as_u64: the value of a JSON number that
/// fits an unsigned 64-bit integer.
#[verifier::external_body]
pub fn json_as_u64(v: &serde_json::Value) -> (r: Option<u64>)
    ensures
        match r {
            Some(n) => shape_of(*v) == (JsonShape::UInt { n }),
            None => !(shape_of(*v) is UInt),
        },
{
    v.as_u64()
}

/// Relies on serde_json::Value::as_str: the content of a JSON string,
/// handed over as its UTF-8 bytes.
#[verifier::external_body]
pub fn json_text_bytes(v: &serde_json::Value) -> (r: Option<Vec<u8>>)
    ensures
        match r {
            Some(b) => shape_of(*v) == (JsonShape::Text { bytes: b@ }),
            None => !(shape_of(*v) is Text),
        },
{
    v.as_str().map(|s| s.as_bytes().to_vec())
}

} // verus!
