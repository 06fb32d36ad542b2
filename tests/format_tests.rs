use multiio::csv::{decode_csv, encode_csv};
use multiio::format::{deserialize, serialize, stream_deserialize};
use multiio::markdown::{decode_markdown, encode_markdown, extract_code_block};
use multiio::plaintext::{decode_plaintext, decode_plaintext_lines, looks_like_structured};
use multiio::{
    CustomCodec, CustomFormat, FormatError, FormatKind, FormatRegistry, NoCustomCodecs,
    default_registry,
};
use serde_json::Value;

fn record(name: &str, value: i64) -> Value {
    let mut m = serde_json::Map::new();
    m.insert("name".to_string(), Value::String(name.to_string()));
    m.insert("value".to_string(), Value::from(value));
    Value::Object(m)
}

struct TestCodecs;

impl CustomCodec for TestCodecs {
    fn decode(&self, format: &str, bytes: &[u8]) -> Result<Value, FormatError> {
        match format {
            "bracket" => {
                let s = String::from_utf8_lossy(bytes);
                let inner = s.trim_start_matches('[').trim_end_matches(']');
                serde_json::from_str(inner).map_err(|e| FormatError::Serde(e.to_string()))
            }
            _ => serde_json::from_slice(bytes).map_err(|e| FormatError::Serde(e.to_string())),
        }
    }

    fn encode(&self, format: &str, value: &Value) -> Result<Vec<u8>, FormatError> {
        let json = serde_json::to_string(value).map_err(|e| FormatError::Serde(e.to_string()))?;
        match format {
            "bracket" => Ok(format!("[{}]", json).into_bytes()),
            _ => Ok(json.into_bytes()),
        }
    }

    fn decode_stream(&self, _format: &str, bytes: &[u8]) -> Vec<Result<Value, FormatError>> {
        String::from_utf8_lossy(bytes)
            .lines()
            .map(|l| serde_json::from_str(l).map_err(|e| FormatError::Serde(e.to_string())))
            .collect()
    }
}

fn strings(values: Vec<Value>) -> Vec<String> {
    values.into_iter().map(|v| serde_json::from_value::<String>(v).expect("string")).collect()
}

#[test]
fn plaintext_stream_yields_lines_as_strings() {
    let input = "alpha\nbeta\n\ngamma\n";
    let lines = strings(decode_plaintext_lines(input.as_bytes()));
    assert_eq!(
        lines,
        vec!["alpha".to_string(), "beta".to_string(), "".to_string(), "gamma".to_string()]
    );
}

#[test]
fn plaintext_stream_empty_input_yields_no_items() {
    let lines = decode_plaintext_lines(b"");
    assert!(lines.is_empty());
}

#[test]
fn plaintext_stream_via_registry_yields_lines() {
    let registry = default_registry();
    let items = registry
        .stream_deserialize_into(&NoCustomCodecs, Some(&FormatKind::Plaintext), &[], b"one\ntwo\n")
        .expect("plaintext streaming should be supported");
    let lines: Vec<Value> = items.into_iter().collect::<Result<_, _>>().expect("lines should parse");
    assert_eq!(strings(lines), vec!["one".to_string(), "two".to_string()]);
}

#[test]
fn plaintext_stream_via_registry_empty_input_yields_no_items() {
    let registry = default_registry();
    let items = registry
        .stream_deserialize_into(&NoCustomCodecs, Some(&FormatKind::Plaintext), &[], b"")
        .expect("plaintext streaming should be supported");
    assert!(items.is_empty());
}

#[test]
fn yaml_stream_reads_multiple_documents() {
    let multi_doc = b"---\nname: a\nvalue: 1\nflag: true\n---\nname: b\nvalue: 2\nflag: false\n";
    let docs: Vec<Value> = stream_deserialize(&FormatKind::Yaml, &multi_doc[..])
        .expect("yaml streaming")
        .into_iter()
        .collect::<Result<_, _>>()
        .expect("yaml docs should parse");
    assert_eq!(docs.len(), 2);
    assert_eq!(docs[0]["name"], "a");
    assert_eq!(docs[1]["name"], "b");
}

#[test]
fn yaml_handles_multiple_documents_error() {
    let multi_doc = b"---\nname: a\nvalue: 1\n---\nname: b\nvalue: 2\n";
    assert!(deserialize(&FormatKind::Yaml, multi_doc).is_err());
}

#[test]
fn plaintext_sniffs_mapping_line_like_json_object() {
    let from_line = decode_plaintext(b"name: a");
    let from_json: Value = serde_json::from_str(r#"{"name":"a"}"#).unwrap();
    assert_eq!(from_line, from_json);
    assert_eq!(decode_plaintext(b"just text"), Value::String("just text".to_string()));
    assert!(looks_like_structured("key=value"));
    assert!(!looks_like_structured("key= "));
    assert!(looks_like_structured("  - item"));
    assert!(!looks_like_structured("just text"));
}

#[test]
fn resolve_explicit_unknown_format_returns_unknown_error() {
    let mut registry = FormatRegistry::new();
    registry.register(FormatKind::Json);
    match registry.resolve(Some(&FormatKind::Yaml), &[]) {
        Err(FormatError::UnknownFormat(kind)) => assert_eq!(kind, FormatKind::Yaml),
        other => panic!("expected UnknownFormat, got: {other:?}"),
    }
}

#[test]
fn resolve_with_candidates_but_no_match_returns_no_format_matched() {
    let mut registry = FormatRegistry::new();
    registry.register(FormatKind::Json);
    let err = registry.resolve(None, &[FormatKind::Yaml, FormatKind::Plaintext]).unwrap_err();
    assert!(matches!(err, FormatError::NoFormatMatched));
}

#[test]
fn resolve_uses_first_registered_candidate() {
    let mut registry = FormatRegistry::new();
    registry.register(FormatKind::Json);
    let kind = registry.resolve(None, &[FormatKind::Yaml, FormatKind::Json]).unwrap();
    assert_eq!(kind, FormatKind::Json);
}

#[test]
fn resolve_prefers_first_of_two_registered_candidates() {
    let registry = default_registry();
    assert_eq!(registry.resolve(None, &[FormatKind::Yaml, FormatKind::Json]).unwrap(), FormatKind::Yaml);
    assert!(registry.resolve(Some(&FormatKind::Toml), &[FormatKind::Json]).is_err());
}

#[test]
fn kind_for_extension_prefers_builtin_and_custom() {
    let mut registry = FormatRegistry::new();
    registry.register(FormatKind::Json);
    assert_eq!(registry.kind_for_extension("json"), Some(FormatKind::Json));
    registry.register_custom(CustomFormat::new("toml", &["toml"]).with_deserialize());
    assert_eq!(registry.kind_for_extension("toml"), Some(FormatKind::Custom("toml".to_string())));
}

#[test]
fn kind_for_extension_builtin_wins_over_custom() {
    let mut registry = default_registry();
    registry.register_custom(CustomFormat::new("jsonish", &["JSON"]).with_deserialize());
    assert_eq!(registry.kind_for_extension("Json"), Some(FormatKind::Json));
}

#[test]
fn kind_for_extension_unknown_returns_none() {
    let mut registry = FormatRegistry::new();
    registry.register(FormatKind::Json);
    assert_eq!(registry.kind_for_extension("unknown_ext"), None);
}

#[test]
fn deserialize_value_with_missing_custom_format_returns_unknown() {
    let registry = FormatRegistry::new();
    let kind = FormatKind::Custom("missing-format".to_string());
    match registry.deserialize_value(&NoCustomCodecs, Some(&kind), &[], b"{}") {
        Err(FormatError::UnknownFormat(k)) => assert_eq!(k, FormatKind::Custom("missing-format".to_string())),
        other => panic!("expected UnknownFormat, got: {other:?}"),
    }
}

#[test]
fn test_custom_format_registration() {
    let mut registry = FormatRegistry::new();
    registry.register_custom(CustomFormat::new("test-format", &["tf"]).with_deserialize().with_serialize());
    assert!(registry.has_format(&FormatKind::Custom("test-format".to_string())));
    assert!(registry.get_custom("test-format").is_some());
}

#[test]
fn test_custom_format_extension_lookup() {
    let mut registry = FormatRegistry::new();
    registry.register_custom(CustomFormat::new("my-format", &["myf", "myfmt"]).with_deserialize().with_serialize());
    assert_eq!(registry.kind_for_extension("myf"), Some(FormatKind::Custom("my-format".to_string())));
    assert_eq!(registry.kind_for_extension("myfmt"), Some(FormatKind::Custom("my-format".to_string())));
}

#[test]
fn test_custom_format_serialize_deserialize() {
    let mut registry = FormatRegistry::new();
    registry.register_custom(CustomFormat::new("bracket", &["brk"]).with_deserialize().with_serialize());
    let kind = FormatKind::Custom("bracket".to_string());
    let data = record("test", 42);
    let bytes = registry.serialize_value(&TestCodecs, Some(&kind), &[], &data).unwrap();
    let output = String::from_utf8(bytes).unwrap();
    assert!(output.starts_with('['));
    assert!(output.ends_with(']'));
    let back = registry.deserialize_value(&TestCodecs, Some(&kind), &[], output.as_bytes()).unwrap();
    assert_eq!(back, data);
}

#[test]
fn custom_format_without_deserialize_errors() {
    let fmt = CustomFormat::new("no-deser", &["and"]).with_serialize();
    match fmt.deserialize(&TestCodecs, b"{}") {
        Err(FormatError::Other(msg)) => assert!(msg.contains("does not support deserialization"), "unexpected message: {}", msg),
        other => panic!("expected FormatError::Other, got: {other:?}"),
    }
}

#[test]
fn custom_format_without_serialize_errors() {
    let fmt = CustomFormat::new("no-serial", &["ns"]).with_deserialize();
    match fmt.serialize(&TestCodecs, &record("x", 1)) {
        Err(FormatError::Other(msg)) => assert!(msg.contains("does not support serialization"), "unexpected message: {}", msg),
        other => panic!("expected FormatError::Other, got: {other:?}"),
    }
}

#[test]
fn custom_streaming_deserialize_via_registry() {
    let mut registry = FormatRegistry::new();
    registry.register_custom(
        CustomFormat::new("ndjson", &["ndjson"]).with_deserialize().with_serialize().with_stream_deserialize(),
    );
    let input = "{\"name\":\"foo\",\"value\":1}\n{\"name\":\"bar\",\"value\":2}\n";
    let items = registry
        .stream_deserialize_into(&TestCodecs, Some(&FormatKind::Custom("ndjson".to_string())), &[], input.as_bytes())
        .expect("streaming should be supported");
    let rows: Vec<Value> = items.into_iter().collect::<Result<_, _>>().expect("rows should parse");
    assert_eq!(rows, vec![record("foo", 1), record("bar", 2)]);
}

#[test]
fn stream_fallback_yields_one_document_equal_to_whole_decode() {
    let registry = default_registry();
    let bytes = b"\n# Title\n\n```json\n{\"name\": \"x\", \"value\": 42}\n```\n";
    let whole = registry.deserialize_value(&NoCustomCodecs, Some(&FormatKind::Markdown), &[], bytes).unwrap();
    let items = registry.stream_deserialize_into(&NoCustomCodecs, Some(&FormatKind::Markdown), &[], bytes).unwrap();
    assert_eq!(items.len(), 1);
    assert_eq!(items[0].as_ref().unwrap(), &whole);
    assert_eq!(whole, record("x", 42));
}

#[test]
fn custom_without_stream_handler_falls_back_to_one_document() {
    let mut registry = FormatRegistry::new();
    registry.register_custom(CustomFormat::new("bracket", &["brk"]).with_deserialize());
    let kind = FormatKind::Custom("bracket".to_string());
    let items = registry.stream_deserialize_into(&TestCodecs, Some(&kind), &[], b"[{\"name\":\"a\",\"value\":1}]").unwrap();
    assert_eq!(items.len(), 1);
    assert_eq!(items[0].as_ref().unwrap(), &record("a", 1));
}

#[test]
fn test_json_roundtrip() {
    let data = record("test", 42);
    let bytes = serialize(&FormatKind::Json, &data).unwrap();
    assert_eq!(deserialize(&FormatKind::Json, &bytes).unwrap(), data);
}

#[test]
fn test_json_deserialize_string() {
    let v = deserialize(&FormatKind::Json, br#"{"name": "hello", "value": 123}"#).unwrap();
    assert_eq!(v, record("hello", 123));
}

#[test]
fn yaml_roundtrip_simple_struct() {
    let data = record("test", 42);
    let bytes = serialize(&FormatKind::Yaml, &data).unwrap();
    assert!(!bytes.is_empty());
    assert_eq!(deserialize(&FormatKind::Yaml, &bytes).unwrap(), data);
}

#[test]
fn csv_roundtrip_array_of_objects() {
    let data = Value::Array(vec![record("a", 1), record("b", 2)]);
    let bytes = encode_csv(&data).expect("serialize csv");
    assert_eq!(String::from_utf8(bytes.clone()).unwrap(), "name,value\na,1\nb,2\n");
    let back = decode_csv(&bytes).expect("deserialize csv");
    let mut a = serde_json::Map::new();
    a.insert("name".to_string(), Value::String("a".to_string()));
    a.insert("value".to_string(), Value::String("1".to_string()));
    assert_eq!(back[0], Value::Object(a));
    assert_eq!(back.as_array().unwrap().len(), 2);
}

#[test]
fn csv_roundtrip_single_object() {
    let bytes = encode_csv(&record("single", 10)).expect("serialize csv single");
    let back = decode_csv(&bytes).expect("deserialize csv single as array");
    assert_eq!(back.as_array().unwrap().len(), 1);
    assert_eq!(back[0]["value"], "10");
}

#[test]
fn csv_errors_on_non_object() {
    assert!(matches!(encode_csv(&Value::from(5)), Err(FormatError::Other(_))));
}

#[test]
fn markdown_roundtrip_json_code_block() {
    let data = record("x", 42);
    let bytes = encode_markdown(&data).expect("serialize markdown");
    let text = String::from_utf8(bytes.clone()).expect("utf8 markdown");
    assert!(text.starts_with("```json"));
    assert_eq!(decode_markdown(&bytes).expect("deserialize markdown"), data);
}

#[test]
fn markdown_deserialize_from_existing_json_block() {
    let md = "\n# Title\n\nSome text.\n\n```json\n{\"name\": \"x\", \"value\": 42}\n```\n";
    assert_eq!(decode_markdown(md.as_bytes()).expect("deserialize markdown"), record("x", 42));
    assert_eq!(extract_code_block("a```yaml\nk: v  \n```", "yaml"), Some("k: v".to_string()));
    assert_eq!(extract_code_block("no fence", "json"), None);
}

#[test]
fn toml_is_not_enabled() {
    assert!(matches!(deserialize(&FormatKind::Toml, b"a = 1"), Err(FormatError::NotEnabled(FormatKind::Toml))));
}

#[test]
fn ini_and_xml_encode_and_decode() {
    let mut m = serde_json::Map::new();
    m.insert("name".to_string(), Value::String("ini".to_string()));
    let data = Value::Object(m);
    let bytes = serialize(&FormatKind::Ini, &data).expect("serialize ini");
    assert_eq!(deserialize(&FormatKind::Ini, &bytes).expect("deserialize ini"), data);
    let xml = deserialize(&FormatKind::Xml, b"<root><name>xml</name></root>").expect("deserialize xml");
    assert_eq!(xml["name"]["$text"], "xml");
}

#[test]
fn yaml_stream_via_registry_reads_multiple_documents() {
    let multi_doc = b"---\nname: a\nvalue: 1\nflag: true\n---\nname: b\nvalue: 2\nflag: false\n";
    let registry = default_registry();
    let docs: Vec<Value> = registry
        .stream_deserialize_into(&NoCustomCodecs, Some(&FormatKind::Yaml), &[], &multi_doc[..])
        .expect("yaml streaming should be supported")
        .into_iter()
        .collect::<Result<_, _>>()
        .expect("yaml docs should parse");
    assert_eq!(docs.len(), 2);
    assert_eq!(docs[0]["name"], "a");
    assert_eq!(docs[1]["name"], "b");
}

#[test]
fn ini_roundtrip_simple_struct() {
    let mut m = serde_json::Map::new();
    m.insert("name".to_string(), Value::String("ini".to_string()));
    m.insert("value".to_string(), Value::String("10".to_string()));
    let data = Value::Object(m);
    let bytes = serialize(&FormatKind::Ini, &data).expect("serialize ini");
    assert_eq!(deserialize(&FormatKind::Ini, &bytes).expect("deserialize ini"), data);
}

#[test]
fn round_trip_through_every_configured_codec() {
    let one = record("a", 1);
    let list = Value::Array(vec![record("a", 1), record("b", 2)]);
    for kind in [FormatKind::Json, FormatKind::Yaml, FormatKind::Markdown, FormatKind::Plaintext] {
        for v in [&one, &list] {
            let bytes = serialize(&kind, v).expect("encode");
            assert_eq!(&deserialize(&kind, &bytes).expect("decode"), v, "{kind:?}");
        }
    }
    let mut registry = FormatRegistry::new();
    registry.register_custom(CustomFormat::new("bracket", &["brk"]).with_deserialize().with_serialize());
    let kind = FormatKind::Custom("bracket".to_string());
    let bytes = registry.serialize_value(&TestCodecs, Some(&kind), &[], &one).unwrap();
    assert_eq!(registry.deserialize_value(&TestCodecs, Some(&kind), &[], &bytes).unwrap(), one);
}
