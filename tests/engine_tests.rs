use multiio::{
    EndpointIo, ErrorPolicy, FileExistsPolicy, FormatKind, InMemorySink, InMemorySource, InputSource,
    InputSpec, IoEngine, MemoryIo, NoCustomCodecs, OutputDest, OutputSpec, Stage, WriteOutcome,
    default_registry, parse_format,
};
use serde_json::Value;

fn record(name: &str, value: i64) -> Value {
    let mut m = serde_json::Map::new();
    m.insert("name".to_string(), Value::String(name.to_string()));
    m.insert("value".to_string(), Value::from(value));
    Value::Object(m)
}

fn json_input(raw: &str, body: &str) -> InputSpec {
    InputSpec::new(raw, InputSource::Memory(InMemorySource::from_string(raw, body)))
        .with_format(FormatKind::Json)
        .with_candidates(vec![FormatKind::Json])
}

fn json_output(raw: &str) -> OutputSpec {
    OutputSpec::new(raw, OutputDest::Memory(InMemorySink::new(raw)))
        .with_format(FormatKind::Json)
        .with_candidates(vec![FormatKind::Json])
        .with_file_exists_policy(FileExistsPolicy::Overwrite)
}

/// In-memory I/O that also counts the inputs it opened.
struct CountingIo {
    inner: MemoryIo,
    opened: Vec<String>,
}

impl EndpointIo for CountingIo {
    fn open_input(&mut self, spec: &InputSpec) -> Result<Vec<u8>, String> {
        self.opened.push(spec.raw.clone());
        match &spec.provider {
            InputSource::Other(id) => Err(format!("simulated network timeout on {id}")),
            _ => self.inner.open_input(spec),
        }
    }

    fn write_output(&mut self, spec: &OutputSpec, append: bool, bytes: &[u8]) -> WriteOutcome {
        self.inner.write_output(spec, append, bytes)
    }
}

fn counting() -> CountingIo {
    CountingIo { inner: MemoryIo::new(), opened: Vec::new() }
}

#[test]
fn sync_engine_read_write_inmemory_ok() {
    let engine = IoEngine::new(
        default_registry(),
        ErrorPolicy::FastFail,
        vec![json_input("in", r#"{"name": "a", "value": 1}"#)],
        vec![json_output("out")],
    );
    let mut io = MemoryIo::new();
    let values = engine.read_all(&NoCustomCodecs, &mut io).expect("read_all should succeed");
    assert_eq!(values, vec![record("a", 1)]);
    engine.write_all(&NoCustomCodecs, &mut io, &values).expect("write_all should succeed");
    let out = io.contents("out").expect("written");
    let decoded: Vec<Value> = serde_json::from_slice(&out).expect("output must be valid json");
    assert_eq!(decoded, values);
}

#[test]
fn sync_engine_fast_fail_on_open_error() {
    let input = InputSpec::new("net://example", InputSource::Other("net://example".to_string()))
        .with_format(FormatKind::Json)
        .with_candidates(vec![FormatKind::Json]);
    let engine = IoEngine::new(default_registry(), ErrorPolicy::FastFail, vec![input], vec![json_output("out")]);
    let mut io = counting();
    let err = engine.read_all(&NoCustomCodecs, &mut io).expect_err("expected failure due to open error");
    assert_eq!(err.errors.len(), 1);
    assert_eq!(err.errors[0].stage, Stage::Open);
    assert_eq!(err.errors[0].target, "net://example");
}

#[test]
fn sync_engine_accumulate_parse_errors() {
    let engine = IoEngine::new(
        default_registry(),
        ErrorPolicy::Accumulate,
        vec![
            json_input("ok", r#"{"name": "ok", "value": 1}"#),
            json_input("bad1", "{not-json"),
            json_input("bad2", "[1,2,,]"),
        ],
        vec![json_output("out")],
    );
    let mut io = MemoryIo::new();
    let agg = engine.read_all(&NoCustomCodecs, &mut io).expect_err("expected aggregate error in accumulate mode");
    assert_eq!(agg.errors.len(), 2);
    assert!(agg.errors.iter().all(|e| e.stage == Stage::Parse));
    let targets: Vec<&str> = agg.errors.iter().map(|e| e.target.as_str()).collect();
    assert_eq!(targets, vec!["bad1", "bad2"]);
}

#[test]
fn fast_fail_opens_nothing_after_the_failing_input() {
    let engine = IoEngine::new(
        default_registry(),
        ErrorPolicy::FastFail,
        vec![
            json_input("one", r#"{"name": "a", "value": 1}"#),
            json_input("two", "{broken"),
            json_input("three", r#"{"name": "c", "value": 3}"#),
        ],
        vec![],
    );
    let mut io = counting();
    let err = engine.read_all(&NoCustomCodecs, &mut io).unwrap_err();
    assert_eq!(err.len(), 1);
    assert_eq!(err.errors[0].target, "two");
    assert_eq!(io.opened, vec!["one".to_string(), "two".to_string()]);
}

#[test]
fn accumulate_reports_every_failure_and_keeps_order_on_success() {
    let inputs = vec![
        json_input("a", r#"{"name": "a", "value": 1}"#),
        json_input("b", "nope"),
        json_input("c", r#"{"name": "c", "value": 3}"#),
        json_input("d", "[1,,]"),
    ];
    let engine = IoEngine::new(default_registry(), ErrorPolicy::Accumulate, inputs, vec![]);
    let mut io = counting();
    let err = engine.read_all(&NoCustomCodecs, &mut io).unwrap_err();
    assert_eq!(err.len(), 2);
    assert_eq!(io.opened.len(), 4);
    let stream = engine.read_stream(&NoCustomCodecs, &mut MemoryIo::new());
    assert_eq!(stream.iter().filter(|r| r.is_ok()).count(), 2);

    let good = IoEngine::new(
        default_registry(),
        ErrorPolicy::Accumulate,
        vec![json_input("x", r#"{"name": "x", "value": 7}"#), json_input("y", r#"{"name": "y", "value": 8}"#)],
        vec![],
    );
    let values = good.read_all(&NoCustomCodecs, &mut MemoryIo::new()).unwrap();
    assert_eq!(values, vec![record("x", 7), record("y", 8)]);
}

#[test]
fn fan_out_two_json_inputs_to_two_json_outputs() {
    let engine = IoEngine::new(
        default_registry(),
        ErrorPolicy::Accumulate,
        vec![json_input("in1", r#"{"name":"a","value":1}"#), json_input("in2", r#"{"name":"b","value":2}"#)],
        vec![json_output("out1"), json_output("out2")],
    );
    let mut io = MemoryIo::new();
    let values = engine.read_all(&NoCustomCodecs, &mut io).unwrap();
    assert_eq!(values, vec![record("a", 1), record("b", 2)]);
    engine.write_all(&NoCustomCodecs, &mut io, &values).unwrap();
    let out1 = io.contents("out1").unwrap();
    let out2 = io.contents("out2").unwrap();
    assert_eq!(out1, out2);
    let decoded: Vec<Value> = serde_json::from_slice(&out1).unwrap();
    assert_eq!(decoded, vec![record("a", 1), record("b", 2)]);
}

#[test]
fn unknown_custom_format_is_one_error_beside_a_good_input() {
    let missing = parse_format("custom:missing").unwrap();
    let bad = InputSpec::new("bad", InputSource::Memory(InMemorySource::from_string("bad", "{}"))).with_format(missing);
    let engine = IoEngine::new(
        default_registry(),
        ErrorPolicy::Accumulate,
        vec![json_input("good", r#"{"name":"good","value":1}"#), bad],
        vec![],
    );
    let mut io = MemoryIo::new();
    let err = engine.read_all(&NoCustomCodecs, &mut io).unwrap_err();
    assert_eq!(err.len(), 1);
    assert_eq!(err.errors[0].stage, Stage::Parse);
    let msg = err.errors[0].message();
    assert!(msg.contains("Unknown format"));
    assert!(msg.contains("missing"));
    let stream = engine.read_stream(&NoCustomCodecs, &mut io);
    assert_eq!(stream[0].as_ref().unwrap(), &record("good", 1));
}

#[test]
fn write_one_value_sends_the_same_value_everywhere() {
    let engine = IoEngine::new(default_registry(), ErrorPolicy::FastFail, vec![], vec![json_output("o1"), json_output("o2")]);
    let mut io = MemoryIo::new();
    engine.write_one_value(&NoCustomCodecs, &mut io, &record("z", 9)).unwrap();
    let v: Value = serde_json::from_slice(&io.contents("o1").unwrap()).unwrap();
    assert_eq!(v, record("z", 9));
    assert_eq!(io.contents("o1"), io.contents("o2"));
}

#[test]
fn json_row_stream_reads_all_records() {
    let input = InputSpec::new(
        "rows",
        InputSource::Memory(InMemorySource::from_string("rows", "{\"name\":\"foo\",\"value\":1}\n{\"name\":\"bar\",\"value\":2}\n")),
    )
    .with_format(FormatKind::Json);
    let engine = IoEngine::new(default_registry(), ErrorPolicy::Accumulate, vec![input], vec![]);
    let rows: Vec<Value> = engine.read_json_records(&mut MemoryIo::new()).into_iter().collect::<Result<_, _>>().expect("json rows should parse");
    assert_eq!(rows, vec![record("foo", 1), record("bar", 2)]);
}

#[test]
fn json_row_stream_reports_errors_for_non_json_format() {
    let input = InputSpec::new("csv", InputSource::Memory(InMemorySource::from_string("csv", "name,value\nfoo,1\n")))
        .with_format(FormatKind::Csv);
    let engine = IoEngine::new(default_registry(), ErrorPolicy::Accumulate, vec![input], vec![]);
    let mut io = counting();
    let items = engine.read_json_records(&mut io);
    assert_eq!(items.len(), 1);
    assert_eq!(items[0].as_ref().unwrap_err().stage, Stage::ResolveInput);
    assert!(io.opened.is_empty());
}

#[test]
fn csv_row_stream_reads_all_records() {
    let input = InputSpec::new("csv", InputSource::Memory(InMemorySource::from_string("csv", "name,value\nfoo,1\nbar,2\n")))
        .with_format(FormatKind::Csv);
    let engine = IoEngine::new(default_registry(), ErrorPolicy::Accumulate, vec![input], vec![]);
    let rows: Vec<Value> = engine.read_csv_records(&mut MemoryIo::new()).into_iter().collect::<Result<_, _>>().expect("csv rows should parse");
    assert_eq!(rows.len(), 2);
    assert_eq!(rows[0]["name"], "foo");
    assert_eq!(rows[1]["name"], "bar");
}

#[test]
fn read_records_streams_yaml_documents_and_plaintext_lines() {
    let yaml = InputSpec::new("docs", InputSource::Memory(InMemorySource::from_string("docs", "---\nname: foo\nvalue: 1\n---\nname: bar\nvalue: 2\n")))
        .with_format(FormatKind::Yaml);
    let text = InputSpec::new("lines", InputSource::Memory(InMemorySource::from_string("lines", "alpha\nbeta\n")))
        .with_format(FormatKind::Plaintext);
    let engine = IoEngine::new(default_registry(), ErrorPolicy::Accumulate, vec![yaml, text], vec![]);
    let items: Vec<Value> = engine.read_records(&NoCustomCodecs, &mut MemoryIo::new()).into_iter().collect::<Result<_, _>>().unwrap();
    assert_eq!(items, vec![record("foo", 1), record("bar", 2), Value::from("alpha"), Value::from("beta")]);
}

#[test]
fn sync_read_stream_returns_per_input_results() {
    let engine = IoEngine::new(
        default_registry(),
        ErrorPolicy::Accumulate,
        vec![json_input("ok", r#"{"name": "ok", "value": 1}"#), json_input("bad1", "{not-json"), json_input("bad2", "[1,2,,]")],
        vec![],
    );
    let results = engine.read_stream(&NoCustomCodecs, &mut MemoryIo::new());
    assert_eq!(results.len(), 3);
    assert_eq!(results[0].as_ref().unwrap()["name"], "ok");
    assert_eq!(results[1].as_ref().unwrap_err().target, "bad1");
    assert_eq!(results[2].as_ref().unwrap_err().stage, Stage::Parse);
}

#[test]
fn csv_row_stream_reports_errors_for_non_csv_format() {
    let input = InputSpec::new("json", InputSource::Memory(InMemorySource::from_string("json", "{not-csv}")))
        .with_format(FormatKind::Json);
    let engine = IoEngine::new(default_registry(), ErrorPolicy::Accumulate, vec![input], vec![]);
    let items = engine.read_csv_records(&mut MemoryIo::new());
    assert_eq!(items.len(), 1);
    assert!(items[0].is_err(), "expected error for non-csv input");
}

#[test]
fn records_of_kind_for_decodes_exactly_the_opened_bytes() {
    let input = InputSpec::new("rows", InputSource::Other("rows".to_string())).with_format(FormatKind::Json);
    let engine = IoEngine::new(default_registry(), ErrorPolicy::Accumulate, vec![input], vec![]);
    let items = engine.records_of_kind_for(0, &FormatKind::Json, Ok(b"{\"name\":\"a\",\"value\":1} {\"name\":\"b\",\"value\":2}".to_vec()));
    let rows: Vec<Value> = items.into_iter().collect::<Result<_, _>>().unwrap();
    assert_eq!(rows, vec![record("a", 1), record("b", 2)]);
    let failed = engine.records_of_kind_for(0, &FormatKind::Json, Err("gone".to_string()));
    assert_eq!(failed.len(), 1);
    assert_eq!(failed[0].as_ref().unwrap_err().stage, Stage::Open);
    let wrong = engine.records_of_kind_for(0, &FormatKind::Csv, Ok(b"a\n1\n".to_vec()));
    assert_eq!(wrong[0].as_ref().unwrap_err().stage, Stage::ResolveInput);
}

#[test]
fn csv_stream_keeps_good_rows_around_a_bad_one() {
    let input = InputSpec::new("csv", InputSource::Memory(InMemorySource::from_string("csv", "name,value\nfoo,1\nbad\nbar,2\n")))
        .with_format(FormatKind::Csv);
    let engine = IoEngine::new(default_registry(), ErrorPolicy::Accumulate, vec![input], vec![]);
    let items = engine.read_csv_records(&mut MemoryIo::new());
    assert_eq!(items.len(), 3);
    assert_eq!(items[0].as_ref().unwrap()["name"], "foo");
    assert_eq!(items[1].as_ref().unwrap_err().stage, Stage::Parse);
    assert_eq!(items[2].as_ref().unwrap()["name"], "bar");
    let whole = engine.read_all(&NoCustomCodecs, &mut MemoryIo::new());
    assert!(whole.is_err());
}
