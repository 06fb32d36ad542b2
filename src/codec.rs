//! The outside codecs, each behind one trusted wrapper whose result is named.
//!
//! Decoded documents are carried as `serde_json::Value`, the representation
//! custom codecs exchange with the library. The library never looks inside a
//! value except through the wrappers below.
use vstd::prelude::*;
use serde::Deserialize;
use crate::error::FormatError;

verus! {

/// A decoded document, as `serde_json` represents it.
#[verifier::external_type_specification]
#[verifier::external_body]
pub struct ExValue(serde_json::Value);

/// Relies on `serde_json::Value`'s derived `Clone`: the copy equals the original.
pub assume_specification[ <serde_json::Value as Clone>::clone ](v: &serde_json::Value) -> (r: serde_json::Value)
    ensures
        r == *v,
;

/// What `serde_json::from_slice` makes of the bytes, if it accepts them.
pub uninterp spec fn json_of_bytes(b: Seq<u8>) -> Option<serde_json::Value>;

/// What `serde_json::from_str` makes of the text, if it accepts it.
pub uninterp spec fn json_of_text(s: Seq<char>) -> Option<serde_json::Value>;

/// What `serde_json::to_vec_pretty` makes of the value, if it succeeds.
pub uninterp spec fn json_pretty_of(v: serde_json::Value) -> Option<Seq<u8>>;

/// The documents that `serde_json`'s stream deserializer yields from the bytes:
/// each one decoded, or `None` for the failure that ends the stream.
pub uninterp spec fn json_stream_of(b: Seq<u8>) -> Seq<Option<serde_json::Value>>;

/// What `serde_yaml::from_slice` makes of the bytes, if it accepts them.
pub uninterp spec fn yaml_of_bytes(b: Seq<u8>) -> Option<serde_json::Value>;

/// What `serde_yaml::from_str` makes of the text, if it accepts it.
pub uninterp spec fn yaml_of_text(s: Seq<char>) -> Option<serde_json::Value>;

/// The bytes of what `serde_yaml::to_string` makes of the value, if it succeeds.
pub uninterp spec fn yaml_bytes_of(v: serde_json::Value) -> Option<Seq<u8>>;

/// The documents of a `---`-separated YAML stream, as `serde_yaml::Deserializer` yields them.
pub uninterp spec fn yaml_stream_of(b: Seq<u8>) -> Seq<Option<serde_json::Value>>;

/// What `serde_ini::from_str` makes of the text, if it accepts it.
pub uninterp spec fn ini_of_text(s: Seq<char>) -> Option<serde_json::Value>;

/// The bytes of what `serde_ini::to_string` makes of the value, if it succeeds.
pub uninterp spec fn ini_bytes_of(v: serde_json::Value) -> Option<Seq<u8>>;

/// What `quick_xml::de::from_str` makes of the text, if it accepts it.
pub uninterp spec fn xml_of_text(s: Seq<char>) -> Option<serde_json::Value>;

/// The bytes of what `quick_xml::se::to_string` makes of the value, if it succeeds.
pub uninterp spec fn xml_bytes_of(v: serde_json::Value) -> Option<Seq<u8>>;

/// The text that `String::from_utf8_lossy` makes of the bytes.
pub uninterp spec fn lossy_text(b: Seq<u8>) -> Seq<char>;

/// The string value holding the text, as a string deserializer produces it.
pub uninterp spec fn text_value(s: Seq<char>) -> serde_json::Value;

/// Whether a decode outcome agrees with a named result: the value on success,
/// a codec error on failure.
pub open spec fn decoded_as(r: Result<serde_json::Value, FormatError>, named: Option<serde_json::Value>) -> bool {
    match r {
        Ok(v) => named == Some(v),
        Err(e) => named is None && e@ is Serde,
    }
}

/// Whether an encode outcome agrees with a named result: the bytes on success,
/// a codec error on failure.
pub open spec fn encoded_as(r: Result<Vec<u8>, FormatError>, named: Option<Seq<u8>>) -> bool {
    match r {
        Ok(b) => named == Some(b@),
        Err(e) => named is None && e@ is Serde,
    }
}

/// Whether the items of a decoded stream agree one by one with the named results.
pub open spec fn stream_as(
    r: Seq<Result<serde_json::Value, FormatError>>,
    named: Seq<Option<serde_json::Value>>,
) -> bool {
    r.len() == named.len() && forall|i: int| 0 <= i < r.len() ==> decoded_as(#[trigger] r[i], named[i])
}

/// Relies on `serde_json::from_slice`, decoding one JSON document.
#[verifier::external_body]
pub(crate) fn json_from_bytes(b: &[u8]) -> (r: Result<serde_json::Value, FormatError>)
    ensures
        decoded_as(r, json_of_bytes(b@)),
{
    serde_json::from_slice::<serde_json::Value>(b).map_err(|e| FormatError::Serde(e.to_string()))
}

/// Relies on `serde_json::from_str`, decoding one JSON document.
#[verifier::external_body]
pub(crate) fn json_from_text(s: &str) -> (r: Result<serde_json::Value, FormatError>)
    ensures
        decoded_as(r, json_of_text(s@)),
{
    serde_json::from_str::<serde_json::Value>(s).map_err(|e| FormatError::Serde(e.to_string()))
}

/// Relies on `serde_json::to_vec_pretty`, encoding a value as indented JSON.
#[verifier::external_body]
pub(crate) fn json_pretty(v: &serde_json::Value) -> (r: Result<Vec<u8>, FormatError>)
    ensures
        encoded_as(r, json_pretty_of(*v)),
{
    serde_json::to_vec_pretty(v).map_err(|e| FormatError::Serde(e.to_string()))
}

/// Relies on `serde_json::Deserializer::into_iter`, decoding concatenated JSON
/// documents; the items end with the first failure.
#[verifier::external_body]
pub(crate) fn json_stream(b: &[u8]) -> (r: Vec<Result<serde_json::Value, FormatError>>)
    ensures
        stream_as(r@, json_stream_of(b@)),
{
    let mut out = Vec::new();
    for item in serde_json::Deserializer::from_slice(b).into_iter::<serde_json::Value>() {
        let failed = item.is_err();
        out.push(item.map_err(|e| FormatError::Serde(e.to_string())));
        if failed {
            break;
        }
    }
    out
}

/// Relies on `serde_yaml::from_slice`, decoding one YAML document.
#[verifier::external_body]
pub(crate) fn yaml_from_bytes(b: &[u8]) -> (r: Result<serde_json::Value, FormatError>)
    ensures
        decoded_as(r, yaml_of_bytes(b@)),
{
    serde_yaml::from_slice::<serde_json::Value>(b).map_err(|e| FormatError::Serde(e.to_string()))
}

/// Relies on `serde_yaml::from_str`, decoding one YAML document.
#[verifier::external_body]
pub(crate) fn yaml_from_text(s: &str) -> (r: Result<serde_json::Value, FormatError>)
    ensures
        decoded_as(r, yaml_of_text(s@)),
{
    serde_yaml::from_str::<serde_json::Value>(s).map_err(|e| FormatError::Serde(e.to_string()))
}

/// Relies on `serde_yaml::to_string`, encoding a value as YAML.
#[verifier::external_body]
pub(crate) fn yaml_bytes(v: &serde_json::Value) -> (r: Result<Vec<u8>, FormatError>)
    ensures
        encoded_as(r, yaml_bytes_of(*v)),
{
    serde_yaml::to_string(v).map(|s| s.into_bytes()).map_err(|e| FormatError::Serde(e.to_string()))
}

/// Relies on `serde_yaml::Deserializer` as an iterator of documents, decoding a
/// multi-document stream; the items end with the first failure.
#[verifier::external_body]
pub(crate) fn yaml_stream(b: &[u8]) -> (r: Vec<Result<serde_json::Value, FormatError>>)
    ensures
        stream_as(r@, yaml_stream_of(b@)),
{
    let mut out = Vec::new();
    for doc in serde_yaml::Deserializer::from_slice(b) {
        let item = serde_json::Value::deserialize(doc).map_err(|e| FormatError::Serde(e.to_string()));
        let failed = item.is_err();
        out.push(item);
        if failed {
            break;
        }
    }
    out
}

/// Relies on `serde_ini::from_str`, decoding an INI document.
#[verifier::external_body]
pub(crate) fn ini_from_text(s: &str) -> (r: Result<serde_json::Value, FormatError>)
    ensures
        decoded_as(r, ini_of_text(s@)),
{
    serde_ini::from_str::<serde_json::Value>(s).map_err(|e| FormatError::Serde(e.to_string()))
}

/// Relies on `serde_ini::to_string`, encoding a value as INI.
#[verifier::external_body]
pub(crate) fn ini_bytes(v: &serde_json::Value) -> (r: Result<Vec<u8>, FormatError>)
    ensures
        encoded_as(r, ini_bytes_of(*v)),
{
    serde_ini::to_string(v).map(|s| s.into_bytes()).map_err(|e| FormatError::Serde(e.to_string()))
}

/// Relies on `quick_xml::de::from_str`, decoding an XML document.
#[verifier::external_body]
pub(crate) fn xml_from_text(s: &str) -> (r: Result<serde_json::Value, FormatError>)
    ensures
        decoded_as(r, xml_of_text(s@)),
{
    quick_xml::de::from_str::<serde_json::Value>(s).map_err(|e| FormatError::Serde(e.to_string()))
}

/// Relies on `quick_xml::se::to_string`, encoding a value as XML.
#[verifier::external_body]
pub(crate) fn xml_bytes(v: &serde_json::Value) -> (r: Result<Vec<u8>, FormatError>)
    ensures
        encoded_as(r, xml_bytes_of(*v)),
{
    quick_xml::se::to_string(v).map(|s| s.into_bytes()).map_err(|e| FormatError::Serde(e.to_string()))
}

/// Relies on `String::from_utf8_lossy`: the text of the bytes, invalid sequences
/// replaced; valid UTF-8, ASCII in particular, is kept as it is.
#[verifier::external_body]
pub(crate) fn utf8_lossy(b: &[u8]) -> (r: String)
    ensures
        r@ == lossy_text(b@),
        (forall|i: int| 0 <= i < b@.len() ==> #[trigger] b@[i] < 128) ==> r@ == b@.map_values(|x: u8| x as char),
{
    String::from_utf8_lossy(b).into_owned()
}

/// Relies on `serde_json::Value::String`, the value that a string deserializer
/// yields for the text when the target is a `serde_json::Value`.
#[verifier::external_body]
pub(crate) fn string_value(s: String) -> (r: serde_json::Value)
    ensures
        r == text_value(s@),
{
    serde_json::Value::String(s)
}

} // verus!
