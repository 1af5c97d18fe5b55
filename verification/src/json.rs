//! Extraction of one integer field from a JSON document: the text is parsed
//! by serde_json behind trusted wrappers, and the library's own logic walks
//! into the parsed value.
//!
//! The parsed value is opaque here, so what the logic reads of it is given
//! names: `value_fields` for the integer reading of each top-level field of
//! an object, `value_int` for the integer reading of a single value, and
//! `doc_fields` for what parsing a given text yields. The wrappers state how
//! serde_json's calls relate these names; everything after the calls is
//! verified against them.

use vstd::prelude::*;

verus! {

#[verifier::external_type_specification]
#[verifier::external_body]
pub struct ExValue(serde_json::Value);

#[verifier::external_type_specification]
#[verifier::external_body]
pub struct ExError(serde_json::Error);

/// The map from each top-level key of a JSON object to the signed 64-bit
/// integer reading of its field, `None` where the field is not such an
/// integer; the empty map where the value is not an object.
pub uninterp spec fn value_fields(v: serde_json::Value) -> Map<Seq<char>, Option<i64>>;

/// The signed 64-bit integer reading of a single JSON value: `Some` exactly
/// of an integer number that fits in an `i64`.
pub uninterp spec fn value_int(v: serde_json::Value) -> Option<i64>;

/// What parsing a text yields: `None` where the text is not one valid JSON
/// document, otherwise the field map of the resulting value.
pub uninterp spec fn doc_fields(s: Seq<char>) -> Option<Map<Seq<char>, Option<i64>>>;

/// Relies on serde_json::from_str: it returns `Ok` exactly on text that is
/// one valid JSON document, and the parse depends on the text alone.
#[verifier::external_body]
pub fn parse_input_to_json_value(input: &str) -> (r: Result<serde_json::Value, serde_json::Error>)
    ensures
        r is Ok <==> doc_fields(input@) is Some,
        (r matches Ok(v) ==> Some(value_fields(v)) == doc_fields(input@)),
{
    serde_json::from_str(input)
}

/// Relies on serde_json::Value::get: `Some` of the field of an object under
/// the given key, `None` where the key is absent or the value is no object.
#[verifier::external_body]
fn get_field<'a>(v: &'a serde_json::Value, key: &str) -> (r: Option<&'a serde_json::Value>)
    ensures
        (r matches Some(f) ==> value_fields(*v).dom().contains(key@)
            && value_int(*f) == value_fields(*v)[key@]),
        (r is None ==> !value_fields(*v).dom().contains(key@)),
{
    v.get(key)
}

/// Relies on serde_json::Value::as_i64: `Some` exactly of an integer number
/// that fits in an `i64`, depending on the value alone.
#[verifier::external_body]
fn field_as_i64(v: &serde_json::Value) -> (r: Option<i64>)
    ensures
        r == value_int(*v),
{
    v.as_i64()
}

/// The key whose field this library extracts.
pub open spec fn meaning_key() -> Seq<char> {
    "meaningOfLife"@
}

/// The integer at the field `"meaningOfLife"` of document text `s`: `Some`
/// exactly where the text parses, the key is present, and its field reads as
/// a signed 64-bit integer.
pub open spec fn meaning_of(s: Seq<char>) -> Option<i64> {
    match doc_fields(s) {
        Some(m) => if m.dom().contains(meaning_key()) {
            m[meaning_key()]
        } else {
            None
        },
        None => None,
    }
}

/// Why no integer could be extracted from a document.
pub enum ExtractError {
    /// The text is not one valid JSON document.
    Syntax(serde_json::Error),
    /// The document has no top-level field `"meaningOfLife"`.
    MissingField,
    /// The field `"meaningOfLife"` is not an `i64`-representable integer.
    NotAnInteger,
}

/// Parses `input` and hands out the integer at its field `"meaningOfLife"`;
/// a failed parse is passed through unchanged. A document without that
/// integer is treated as a caller error and excluded here, so an unverified
/// caller that passes one anyway aborts at the unwrap; callers that cannot
/// rule it out use `extract_meaning_of_life`.
pub fn get_meaning_of_life(input: &str) -> (r: Result<i64, serde_json::Error>)
    requires
        doc_fields(input@) is Some ==> meaning_of(input@) is Some,
    ensures
        r is Ok <==> doc_fields(input@) is Some,
        (r matches Ok(n) ==> Some(n) == meaning_of(input@)),
{
    match parse_input_to_json_value(input) {
        Ok(json) => Ok(field_as_i64(get_field(&json, "meaningOfLife").unwrap()).unwrap()),
        Err(e) => Err(e),
    }
}

/// Parses `input` and extracts the integer at its field `"meaningOfLife"`,
/// reporting a missing or non-integer field as a typed error instead of
/// excluding such documents.
pub fn extract_meaning_of_life(input: &str) -> (r: Result<i64, ExtractError>)
    ensures
        r is Ok <==> meaning_of(input@) is Some,
        (r matches Ok(n) ==> Some(n) == meaning_of(input@)),
        (r matches Err(e) ==> match e {
            ExtractError::Syntax(_) => doc_fields(input@) is None,
            ExtractError::MissingField => (doc_fields(input@) matches Some(m)
                && !m.dom().contains(meaning_key())),
            ExtractError::NotAnInteger => (doc_fields(input@) matches Some(m)
                && m.dom().contains(meaning_key()) && m[meaning_key()] is None),
        }),
{
    match parse_input_to_json_value(input) {
        Ok(json) => match get_field(&json, "meaningOfLife") {
            Some(f) => match field_as_i64(f) {
                Some(_) => match get_meaning_of_life(input) {
                    Ok(n) => Ok(n),
                    Err(_) => vstd::pervasive::unreached(),
                },
                None => Err(ExtractError::NotAnInteger),
            },
            None => Err(ExtractError::MissingField),
        },
        Err(e) => Err(ExtractError::Syntax(e)),
    }
}

} // verus!
