//! Decoding and encoding through the codec that a kind names, and the
//! registry operations that resolve a kind first.
use vstd::prelude::*;
use crate::codec::{
    decoded_as, encoded_as, ini_bytes, ini_bytes_of, ini_from_text, ini_of_text, json_from_bytes,
    json_of_bytes, json_pretty, json_pretty_of, json_stream, json_stream_of, lossy_text,
    stream_as, utf8_lossy, xml_bytes, xml_bytes_of, xml_from_text, xml_of_text, yaml_bytes,
    yaml_bytes_of, yaml_from_bytes, yaml_of_bytes, yaml_stream, yaml_stream_of,
};
use crate::csv::{csv_bytes_of, csv_records, csv_rows, csv_value, decode_csv, decode_csv_records, encode_csv};
use crate::error::{FormatError, FormatErrorModel};
use crate::kind::{FormatKind, KindModel};
use crate::markdown::{decode_markdown, encode_markdown, markdown_bytes_of, markdown_value};
use crate::plaintext::{decode_plaintext, decode_plaintext_lines, plaintext_records, plaintext_value};
use crate::registry::{
    CustomFormat, FormatRegistry, RegistryModel, first_custom_named, lemma_custom_named,
    spec_resolve,
};

verus! {

/// The handlers of a caller's custom formats, looked up by format name.
///
/// Callers implement this; the library promises nothing about what a handler
/// returns and states, for each operation, what holds whatever came back.
pub trait CustomCodec {
    /// Decodes a whole buffer.
    fn decode(&self, format: &str, bytes: &[u8]) -> Result<serde_json::Value, FormatError>;

    /// Encodes a value.
    fn encode(&self, format: &str, value: &serde_json::Value) -> Result<Vec<u8>, FormatError>;

    /// Decodes a buffer record by record.
    fn decode_stream(&self, format: &str, bytes: &[u8]) -> Vec<Result<serde_json::Value, FormatError>>;
}

/// For callers without custom formats: every handler reports that it is missing.
pub struct NoCustomCodecs;

impl CustomCodec for NoCustomCodecs {
    fn decode(&self, format: &str, bytes: &[u8]) -> Result<serde_json::Value, FormatError> {
        Err(FormatError::Other(String::from_str("no handler for custom format ").concat(format)))
    }

    fn encode(&self, format: &str, value: &serde_json::Value) -> Result<Vec<u8>, FormatError> {
        Err(FormatError::Other(String::from_str("no handler for custom format ").concat(format)))
    }

    fn decode_stream(&self, format: &str, bytes: &[u8]) -> Vec<Result<serde_json::Value, FormatError>> {
        let mut out = Vec::new();
        out.push(Err(FormatError::Other(String::from_str("no handler for custom format ").concat(format))));
        out
    }
}

/// Whether the kind is a built-in kind whose codec is part of this build.
pub open spec fn builtin_enabled(k: KindModel) -> bool {
    !(k is Toml) && !(k is Custom)
}

/// What the built-in codec of `k` decodes the bytes to, if it accepts them.
pub open spec fn builtin_value(k: KindModel, b: Seq<u8>) -> Option<serde_json::Value> {
    match k {
        KindModel::Json => json_of_bytes(b),
        KindModel::Yaml => yaml_of_bytes(b),
        KindModel::Ini => ini_of_text(lossy_text(b)),
        KindModel::Csv => csv_value(b),
        KindModel::Xml => xml_of_text(lossy_text(b)),
        KindModel::Markdown => markdown_value(lossy_text(b)),
        KindModel::Plaintext => Some(plaintext_value(lossy_text(b))),
        _ => None,
    }
}

/// What the built-in codec of `k` encodes the value to, if it succeeds
/// (CSV is stated by its rows, see `builtin_encoded`).
pub open spec fn builtin_bytes(k: KindModel, v: serde_json::Value) -> Option<Seq<u8>> {
    match k {
        KindModel::Json => json_pretty_of(v),
        KindModel::Yaml => yaml_bytes_of(v),
        KindModel::Ini => ini_bytes_of(v),
        KindModel::Xml => xml_bytes_of(v),
        KindModel::Markdown => markdown_bytes_of(v),
        KindModel::Plaintext => json_pretty_of(v),
        _ => None,
    }
}

/// Whether a decode outcome is what the built-in codec of `k` gives: a
/// `NotEnabled` error for a kind without one, else the named result.
pub open spec fn builtin_decoded(r: Result<serde_json::Value, FormatError>, k: KindModel, b: Seq<u8>) -> bool {
    if builtin_enabled(k) {
        decoded_as(r, builtin_value(k, b))
    } else {
        r matches Err(e) && e@ == FormatErrorModel::NotEnabled(k)
    }
}

/// Whether an encode outcome is what the built-in codec of `k` gives.
pub open spec fn builtin_encoded(r: Result<Vec<u8>, FormatError>, k: KindModel, v: serde_json::Value) -> bool {
    if !builtin_enabled(k) {
        r matches Err(e) && e@ == FormatErrorModel::NotEnabled(k)
    } else if k is Csv {
        match csv_rows(v) {
            Some(rows) => encoded_as(r, csv_bytes_of(rows)),
            None => r matches Err(e) && e@ is Other,
        }
    } else {
        encoded_as(r, builtin_bytes(k, v))
    }
}

/// Decodes bytes with the built-in codec of a kind.
pub fn deserialize(kind: &FormatKind, bytes: &[u8]) -> (r: Result<serde_json::Value, FormatError>)
    ensures
        builtin_decoded(r, kind@, bytes@),
{
    match kind {
        FormatKind::Json => json_from_bytes(bytes),
        FormatKind::Yaml => yaml_from_bytes(bytes),
        FormatKind::Ini => ini_from_text(utf8_lossy(bytes).as_str()),
        FormatKind::Csv => decode_csv(bytes),
        FormatKind::Xml => xml_from_text(utf8_lossy(bytes).as_str()),
        FormatKind::Markdown => decode_markdown(bytes),
        FormatKind::Plaintext => Ok(decode_plaintext(bytes)),
        _ => Err(FormatError::NotEnabled(kind.duplicate())),
    }
}

/// Encodes a value with the built-in codec of a kind.
pub fn serialize(kind: &FormatKind, value: &serde_json::Value) -> (r: Result<Vec<u8>, FormatError>)
    ensures
        builtin_encoded(r, kind@, *value),
{
    match kind {
        FormatKind::Json => json_pretty(value),
        FormatKind::Yaml => yaml_bytes(value),
        FormatKind::Ini => ini_bytes(value),
        FormatKind::Csv => encode_csv(value),
        FormatKind::Xml => xml_bytes(value),
        FormatKind::Markdown => encode_markdown(value),
        FormatKind::Plaintext => json_pretty(value),
        _ => Err(FormatError::NotEnabled(kind.duplicate())),
    }
}

/// Whether the built-in codec of `k` decodes record by record.
pub open spec fn streams_natively(k: KindModel) -> bool {
    k is Json || k is Yaml || k is Csv || k is Plaintext
}

/// The records that the built-in codec of `k` yields, or `None` when a codec
/// without record streaming rejects the bytes as a whole: native streams yield
/// their records; the others yield their single decoded document.
pub open spec fn builtin_records(k: KindModel, b: Seq<u8>) -> Option<Seq<Option<serde_json::Value>>> {
    match k {
        KindModel::Json => Some(json_stream_of(b)),
        KindModel::Yaml => Some(yaml_stream_of(b)),
        KindModel::Csv => Some(csv_records(b)),
        KindModel::Plaintext => Some(plaintext_records(b).map_values(|v: serde_json::Value| Some(v))),
        _ => match builtin_value(k, b) {
            Some(v) => Some(seq![Some(v)]),
            None => None,
        },
    }
}

/// Whether a record-stream outcome is what the built-in codec of `k` gives.
pub open spec fn builtin_streamed(
    r: Result<Vec<Result<serde_json::Value, FormatError>>, FormatError>,
    k: KindModel,
    b: Seq<u8>,
) -> bool {
    if !builtin_enabled(k) {
        r matches Err(e) && e@ == FormatErrorModel::NotEnabled(k)
    } else {
        match builtin_records(k, b) {
            Some(items) => r matches Ok(v) && stream_as(v@, items),
            None => r matches Err(e) && e@ is Serde,
        }
    }
}

/// Decodes bytes record by record with the built-in codec of a kind; a codec
/// without record streaming yields its one document.
pub fn stream_deserialize(kind: &FormatKind, bytes: &[u8]) -> (r: Result<Vec<Result<serde_json::Value, FormatError>>, FormatError>)
    ensures
        builtin_streamed(r, kind@, bytes@),
{
    match kind {
        FormatKind::Json => Ok(json_stream(bytes)),
        FormatKind::Yaml => Ok(yaml_stream(bytes)),
        FormatKind::Csv => Ok(decode_csv_records(bytes)),
        FormatKind::Plaintext => {
            let vals = decode_plaintext_lines(bytes);
            let mut out: Vec<Result<serde_json::Value, FormatError>> = Vec::new();
            let mut i: usize = 0;
            while i < vals.len()
                invariant
                    i <= vals@.len(),
                    out@.len() == i,
                    forall|j: int| 0 <= j < i ==> #[trigger] out@[j] == Ok::<serde_json::Value, FormatError>(vals@[j]),
                decreases vals.len() - i,
            {
                out.push(Ok(vals[i].clone()));
                i = i + 1;
            }
            Ok(out)
        },
        _ => {
            let v = deserialize(kind, bytes)?;
            let mut out = Vec::new();
            out.push(Ok(v));
            Ok(out)
        },
    }
}

/// The CSV codec as a value.
#[derive(Debug, Clone, Copy, Default)]
pub struct CsvFormat;

impl CsvFormat {
    /// The kind it implements.
    pub fn kind(&self) -> (r: FormatKind)
        ensures
            r@ == KindModel::Csv,
    {
        FormatKind::Csv
    }

    /// Its file extensions.
    pub fn extensions(&self) -> (r: Vec<&'static str>)
        ensures
            r@.map_values(|e: &str| e@) == crate::kind::spec_extensions(KindModel::Csv),
    {
        FormatKind::Csv.extensions()
    }

    /// Decodes a CSV document.
    pub fn deserialize(&self, bytes: &[u8]) -> (r: Result<serde_json::Value, FormatError>)
        ensures
            builtin_decoded(r, KindModel::Csv, bytes@),
    {
        deserialize(&FormatKind::Csv, bytes)
    }

    /// Encodes a value as CSV.
    pub fn serialize(&self, value: &serde_json::Value) -> (r: Result<Vec<u8>, FormatError>)
        ensures
            builtin_encoded(r, KindModel::Csv, *value),
    {
        serialize(&FormatKind::Csv, value)
    }
}

/// The XML codec as a value.
#[derive(Debug, Clone, Copy, Default)]
pub struct XmlFormat;

impl XmlFormat {
    /// The kind it implements.
    pub fn kind(&self) -> (r: FormatKind)
        ensures
            r@ == KindModel::Xml,
    {
        FormatKind::Xml
    }

    /// Its file extensions.
    pub fn extensions(&self) -> (r: Vec<&'static str>)
        ensures
            r@.map_values(|e: &str| e@) == crate::kind::spec_extensions(KindModel::Xml),
    {
        FormatKind::Xml.extensions()
    }

    /// Decodes an XML document.
    pub fn deserialize(&self, bytes: &[u8]) -> (r: Result<serde_json::Value, FormatError>)
        ensures
            builtin_decoded(r, KindModel::Xml, bytes@),
    {
        deserialize(&FormatKind::Xml, bytes)
    }

    /// Encodes a value as XML.
    pub fn serialize(&self, value: &serde_json::Value) -> (r: Result<Vec<u8>, FormatError>)
        ensures
            builtin_encoded(r, KindModel::Xml, *value),
    {
        serialize(&FormatKind::Xml, value)
    }
}

/// Whether a record stream is the one document of a whole-buffer decode:
/// exactly that document when it decoded, its error otherwise.
pub open spec fn one_document_of(
    r: Result<Vec<Result<serde_json::Value, FormatError>>, FormatError>,
    d: Result<serde_json::Value, FormatError>,
) -> bool {
    match d {
        Ok(v) => r matches Ok(items) && items@ == seq![Ok::<serde_json::Value, FormatError>(v)],
        Err(e) => r matches Err(x) && x@ == e@,
    }
}

/// The record stream of a format without record streaming: the one document
/// that decoding the whole buffer gave, or its error.
pub fn single_document(d: Result<serde_json::Value, FormatError>) -> (r: Result<Vec<Result<serde_json::Value, FormatError>>, FormatError>)
    ensures
        one_document_of(r, d),
{
    match d {
        Ok(v) => {
            let mut out: Vec<Result<serde_json::Value, FormatError>> = Vec::new();
            out.push(Ok(v));
            assert(out@ =~= seq![Ok::<serde_json::Value, FormatError>(v)]);
            Ok(out)
        },
        Err(e) => Err(e),
    }
}

/// Message of a custom format that lacks the decode handler.
pub open spec fn no_decoder_message(name: Seq<char>) -> Seq<char> {
    "Custom format '"@ + name + "' does not support deserialization"@
}

/// Message of a custom format that lacks the encode handler.
pub open spec fn no_encoder_message(name: Seq<char>) -> Seq<char> {
    "Custom format '"@ + name + "' does not support serialization"@
}

impl CustomFormat {
    /// Decodes through this format's handler; without one, an error saying so.
    pub fn deserialize<C: CustomCodec>(&self, codecs: &C, bytes: &[u8]) -> (r: Result<serde_json::Value, FormatError>)
        ensures
            !self@.decodes ==> (r matches Err(e) && e@ == FormatErrorModel::Other(no_decoder_message(self@.name))),
    {
        if !self.decodes {
            return Err(FormatError::Other(String::from_str("Custom format '").concat(self.name.as_str()).concat("' does not support deserialization")));
        }
        codecs.decode(self.name.as_str(), bytes)
    }

    /// Encodes through this format's handler; without one, an error saying so.
    pub fn serialize<C: CustomCodec>(&self, codecs: &C, value: &serde_json::Value) -> (r: Result<Vec<u8>, FormatError>)
        ensures
            !self@.encodes ==> (r matches Err(e) && e@ == FormatErrorModel::Other(no_encoder_message(self@.name))),
    {
        if !self.encodes {
            return Err(FormatError::Other(String::from_str("Custom format '").concat(self.name.as_str()).concat("' does not support serialization")));
        }
        codecs.encode(self.name.as_str(), value)
    }
}

/// Model of an optional explicit kind.
pub open spec fn explicit_view(e: Option<&FormatKind>) -> Option<KindModel> {
    match e {
        Some(k) => Some(k@),
        None => None,
    }
}

/// Models of candidate kinds.
pub open spec fn cands_view(c: &[FormatKind]) -> Seq<KindModel> {
    c@.map_values(|k: FormatKind| k@)
}

/// Whether a decode through a registry went as resolution and the resolved
/// codec dictate. A custom format's handler decides its own outcome; everything
/// else is fixed.
pub open spec fn registry_decoded(
    r: Result<serde_json::Value, FormatError>,
    reg: RegistryModel,
    explicit: Option<KindModel>,
    cands: Seq<KindModel>,
    b: Seq<u8>,
) -> bool {
    match spec_resolve(reg.formats, explicit, cands) {
        Err(e) => r matches Err(x) && x@ == e,
        Ok(KindModel::Custom(name)) => match first_custom_named(reg.customs, name, 0) {
            None => r matches Err(x) && x@ == FormatErrorModel::UnknownFormat(KindModel::Custom(name)),
            Some(c) => !c.decodes ==> (r matches Err(x) && x@ == FormatErrorModel::Other(no_decoder_message(name))),
        },
        Ok(k) => builtin_decoded(r, k, b),
    }
}

/// Whether an encode through a registry went as resolution and the resolved codec dictate.
pub open spec fn registry_encoded(
    r: Result<Vec<u8>, FormatError>,
    reg: RegistryModel,
    explicit: Option<KindModel>,
    cands: Seq<KindModel>,
    v: serde_json::Value,
) -> bool {
    match spec_resolve(reg.formats, explicit, cands) {
        Err(e) => r matches Err(x) && x@ == e,
        Ok(KindModel::Custom(name)) => match first_custom_named(reg.customs, name, 0) {
            None => r matches Err(x) && x@ == FormatErrorModel::UnknownFormat(KindModel::Custom(name)),
            Some(c) => !c.encodes ==> (r matches Err(x) && x@ == FormatErrorModel::Other(no_encoder_message(name))),
        },
        Ok(k) => builtin_encoded(r, k, v),
    }
}

/// Whether a record-stream decode through a registry went as resolution and the
/// resolved codec dictate. A custom format without a streaming handler yields
/// the one document its decode handler returns.
pub open spec fn registry_streamed(
    r: Result<Vec<Result<serde_json::Value, FormatError>>, FormatError>,
    reg: RegistryModel,
    explicit: Option<KindModel>,
    cands: Seq<KindModel>,
    b: Seq<u8>,
) -> bool {
    match spec_resolve(reg.formats, explicit, cands) {
        Err(e) => r matches Err(x) && x@ == e,
        Ok(KindModel::Custom(name)) => match first_custom_named(reg.customs, name, 0) {
            None => r matches Err(x) && x@ == FormatErrorModel::UnknownFormat(KindModel::Custom(name)),
            Some(c) => !c.streams ==> exists|d: Result<serde_json::Value, FormatError>|
                (!c.decodes ==> (d matches Err(x) && x@ == FormatErrorModel::Other(no_decoder_message(name))))
                    && #[trigger] one_document_of(r, d),
        },
        Ok(k) => builtin_streamed(r, k, b),
    }
}

impl FormatRegistry {
    /// Resolves a kind, then decodes with its codec.
    pub fn deserialize_value<C: CustomCodec>(
        &self,
        codecs: &C,
        explicit: Option<&FormatKind>,
        candidates: &[FormatKind],
        bytes: &[u8],
    ) -> (r: Result<serde_json::Value, FormatError>)
        ensures
            registry_decoded(r, self@, explicit_view(explicit), cands_view(candidates), bytes@),
    {
        let kind = self.resolve(explicit, candidates)?;
        if let FormatKind::Custom(name) = &kind {
            return match self.get_custom(name.as_str()) {
                None => Err(FormatError::UnknownFormat(kind.duplicate())),
                Some(custom) => {
                    proof {
                        lemma_custom_named(self@.customs, name@, 0);
                    }
                    custom.deserialize(codecs, bytes)
                },
            };
        }
        deserialize(&kind, bytes)
    }

    /// Resolves a kind, then encodes with its codec.
    pub fn serialize_value<C: CustomCodec>(
        &self,
        codecs: &C,
        explicit: Option<&FormatKind>,
        candidates: &[FormatKind],
        value: &serde_json::Value,
    ) -> (r: Result<Vec<u8>, FormatError>)
        ensures
            registry_encoded(r, self@, explicit_view(explicit), cands_view(candidates), *value),
    {
        let kind = self.resolve(explicit, candidates)?;
        if let FormatKind::Custom(name) = &kind {
            return match self.get_custom(name.as_str()) {
                None => Err(FormatError::UnknownFormat(kind.duplicate())),
                Some(custom) => {
                    proof {
                        lemma_custom_named(self@.customs, name@, 0);
                    }
                    custom.serialize(codecs, value)
                },
            };
        }
        serialize(&kind, value)
    }

    /// Resolves a kind, then decodes record by record: natively where the
    /// codec streams, through a custom streaming handler where one exists, and
    /// otherwise as exactly one record holding the whole decoded document.
    pub fn stream_deserialize_into<C: CustomCodec>(
        &self,
        codecs: &C,
        explicit: Option<&FormatKind>,
        candidates: &[FormatKind],
        bytes: &[u8],
    ) -> (r: Result<Vec<Result<serde_json::Value, FormatError>>, FormatError>)
        ensures
            registry_streamed(r, self@, explicit_view(explicit), cands_view(candidates), bytes@),
    {
        let kind = self.resolve(explicit, candidates)?;
        if let FormatKind::Custom(name) = &kind {
            return match self.get_custom(name.as_str()) {
                None => Err(FormatError::UnknownFormat(kind.duplicate())),
                Some(custom) => {
                    proof {
                        lemma_custom_named(self@.customs, name@, 0);
                    }
                    if custom.streams {
                        Ok(codecs.decode_stream(name.as_str(), bytes))
                    } else {
                        let d = custom.deserialize(codecs, bytes);
                        let ghost dg = d;
                        let r = single_document(d);
                        assert(one_document_of(r, dg));
                        r
                    }
                },
            };
        }
        stream_deserialize(&kind, bytes)
    }
}

/// A built-in format without record streaming, given a buffer its codec
/// accepts as one document, streams exactly one record: the document that
/// whole-buffer decoding gives for the same bytes.
pub proof fn law_stream_fallback_is_one_document(
    reg: FormatRegistry,
    explicit: Option<KindModel>,
    cands: Seq<KindModel>,
    b: Seq<u8>,
    v: serde_json::Value,
    r_whole: Result<serde_json::Value, FormatError>,
    r_stream: Result<Vec<Result<serde_json::Value, FormatError>>, FormatError>,
)
    requires
        spec_resolve(reg@.formats, explicit, cands) matches Ok(k) && builtin_enabled(k)
            && !streams_natively(k) && builtin_value(k, b) == Some(v),
        registry_decoded(r_whole, reg@, explicit, cands, b),
        registry_streamed(r_stream, reg@, explicit, cands, b),
    ensures
        r_whole == Ok::<serde_json::Value, FormatError>(v),
        r_stream matches Ok(items) && items@.len() == 1 && items@[0] == r_whole,
{
    let k = spec_resolve(reg@.formats, explicit, cands)->Ok_0;
    let items = r_stream->Ok_0;
    assert(decoded_as(items@[0], Some(v)));
}

} // verus!
