use multiio::{
    AggregateError, AsyncIoEngine, ErrorPolicy, FormatError, FormatKind, InMemorySource, InputConfig,
    InputSource, InputSpec, MultiioBuilder, NoCustomCodecs, OutputConfig, OutputDest, PipelineConfig, Stage,
    default_async_registry, default_format_order, default_registry,
};

fn stdout_output(id: &str) -> OutputConfig {
    OutputConfig { id: id.to_string(), kind: "stdout".to_string(), path: None, format: None, file_exists_policy: None }
}

#[test]
fn builder_defaults_match_default_format_order() {
    let builder = MultiioBuilder::new(default_registry());
    assert_eq!(builder.default_input_formats, default_format_order());
    assert_eq!(builder.default_output_formats, default_format_order());
}

#[test]
fn builder_resolve_single_input_supports_stdin_alias_and_inline_content() {
    let builder = MultiioBuilder::new(default_registry());

    let stdin = builder.resolve_single_input("stdin").expect("stdin spec");
    assert_eq!(stdin.raw, "-");
    assert!(matches!(&stdin.provider, InputSource::Stdin(s) if s.id == "-"));
    assert!(stdin.explicit_format.is_none());

    let inline = builder.resolve_single_input("=hello").expect("inline spec");
    assert!(inline.raw.starts_with("inline:"));
    assert!(matches!(&inline.provider, InputSource::Memory(_)));
    assert!(inline.explicit_format.is_none());

    let forced_path = builder.resolve_single_input("@file.txt").expect("forced path spec");
    assert_eq!(forced_path.raw, "file.txt");
    assert!(matches!(&forced_path.provider, InputSource::File(f) if f.id == "file.txt"));
    assert_eq!(forced_path.explicit_format, Some(FormatKind::Plaintext));
}

#[test]
fn builder_resolve_single_output_supports_stdout_alias_stderr_and_forced_path() {
    let builder = MultiioBuilder::new(default_registry());

    let stdout = builder.resolve_single_output("stdout").expect("stdout spec");
    assert_eq!(stdout.raw, "-");
    assert!(matches!(&stdout.target, OutputDest::Stdout(s) if s.id == "-"));
    assert!(stdout.explicit_format.is_none());

    let stderr = builder.resolve_single_output("stderr").expect("stderr spec");
    assert_eq!(stderr.raw, "stderr");
    assert!(matches!(&stderr.target, OutputDest::Stderr(s) if s.id == "stderr"));
    assert!(stderr.explicit_format.is_none());

    let forced_path = builder.resolve_single_output("@out.txt").expect("forced path spec");
    assert_eq!(forced_path.raw, "out.txt");
    assert!(matches!(&forced_path.target, OutputDest::File(f) if f.id == "out.txt"));
    assert_eq!(forced_path.explicit_format, Some(FormatKind::Plaintext));
}

#[test]
fn builder_rejects_bare_at_sign_and_fails_fast() {
    let builder = MultiioBuilder::new(default_registry()).with_mode(ErrorPolicy::FastFail).add_input("@").add_input("@");
    let err = builder.build().err().expect("bare @ is an error");
    assert_eq!(err.len(), 1);
    assert_eq!(err.errors[0].stage, Stage::ResolveInput);

    let acc = MultiioBuilder::new(default_registry()).add_input("@").add_input(" @ ").add_output("@");
    assert_eq!(acc.build().err().expect("errors").len(), 2);
}

#[test]
fn builder_builds_engine_with_token_and_prepared_inputs() {
    let prepared = InputSpec::new("mem", InputSource::Memory(InMemorySource::from_string("mem", "{}")));
    let engine = MultiioBuilder::new(default_registry())
        .add_input("data.yaml")
        .add_input("-")
        .add_input_spec(prepared)
        .add_output("out.csv")
        .build()
        .expect("engine");
    assert_eq!(engine.inputs().len(), 3);
    assert_eq!(engine.inputs()[0].explicit_format, Some(FormatKind::Yaml));
    assert_eq!(engine.inputs()[2].raw, "mem");
    assert_eq!(engine.outputs()[0].explicit_format, Some(FormatKind::Csv));
}

#[test]
fn pipeline_unknown_input_kind_produces_resolve_error() {
    let pipeline = PipelineConfig::new()
        .add_input(InputConfig {
            id: "net1".to_string(),
            kind: "http".to_string(),
            path: None,
            url: Some("https://example.com/data.json".to_string()),
            format: None,
        })
        .add_output(stdout_output("out"));
    let result = MultiioBuilder::from_pipeline_config(pipeline, default_registry());
    let err: AggregateError = match result {
        Err(e) => e,
        Ok(_) => panic!("expected failure due to unknown input kind"),
    };
    assert_eq!(err.errors.len(), 1);
    assert_eq!(err.errors[0].stage, Stage::ResolveInput);
    assert_eq!(err.errors[0].target, "net1");
}

#[test]
fn pipeline_missing_file_path_for_file_input() {
    let pipeline = PipelineConfig::new()
        .add_input(InputConfig { id: "in".to_string(), kind: "file".to_string(), path: None, url: None, format: None })
        .add_output(stdout_output("out"));
    let result = MultiioBuilder::from_pipeline_config(pipeline, default_registry());
    let err: AggregateError = match result {
        Err(e) => e,
        Ok(_) => panic!("expected failure due to missing file path"),
    };
    assert_eq!(err.errors.len(), 1);
    assert_eq!(err.errors[0].stage, Stage::ResolveInput);
    assert_eq!(err.errors[0].target, "in");
}

#[test]
fn pipeline_config_sets_policy_order_and_output_policy() {
    let pipeline = PipelineConfig::new()
        .with_error_policy("fast_fail")
        .with_format_order(vec!["yaml".to_string(), "nope".to_string(), "json".to_string()])
        .add_input(InputConfig { id: "in".to_string(), kind: "file".to_string(), path: Some("a.json".to_string()), url: None, format: Some("custom:missing".to_string()) })
        .add_output(OutputConfig { id: "out".to_string(), kind: "file".to_string(), path: Some("o.json".to_string()), format: None, file_exists_policy: Some("append".to_string()) });
    let builder = MultiioBuilder::from_pipeline_config(pipeline, default_registry()).expect("builder");
    assert_eq!(builder.error_policy, ErrorPolicy::FastFail);
    assert_eq!(builder.default_input_formats, vec![FormatKind::Yaml, FormatKind::Json]);
    assert_eq!(builder.input_specs[0].explicit_format, Some(FormatKind::Custom("missing".to_string())));
    assert_eq!(builder.output_specs[0].file_exists_policy, multiio::FileExistsPolicy::Append);
}

#[test]
fn async_engine_classifies_resolution_failures() {
    let spec = InputSpec::new("bad", InputSource::Memory(InMemorySource::from_string("bad", "{}")))
        .with_format(FormatKind::Custom("missing".to_string()));
    let plain = AsyncIoEngine::new(default_async_registry(), ErrorPolicy::Accumulate, vec![spec.clone()], vec![]);
    let err = plain.read_input(&NoCustomCodecs, 0, Ok(b"{}".to_vec())).unwrap_err();
    assert_eq!(err.stage, Stage::ResolveInput);
    let bridged = AsyncIoEngine::new_with_sync_registry(default_async_registry(), default_registry(), ErrorPolicy::Accumulate, vec![spec], vec![]);
    let err = bridged.read_input(&NoCustomCodecs, 0, Ok(b"{}".to_vec())).unwrap_err();
    assert_eq!(err.stage, Stage::ResolveInput);
    assert!(matches!(err.error, FormatError::UnknownFormat(_)));
    let records = bridged.records_for(&NoCustomCodecs, 0, Ok(b"{}".to_vec()));
    assert_eq!(records.len(), 1);
    assert_eq!(records[0].as_ref().unwrap_err().stage, Stage::Parse);
}

#[test]
fn async_engine_streams_records_from_buffered_bytes() {
    let spec = InputSpec::new("rows", InputSource::Other("rows".to_string())).with_format(FormatKind::Json);
    let engine = AsyncIoEngine::new(default_async_registry(), ErrorPolicy::Accumulate, vec![spec], vec![]);
    let items = engine.records_for(&NoCustomCodecs, 0, Ok(b"{\"name\":\"foo\",\"value\":1}\n{\"name\":\"bar\",\"value\":2}\n".to_vec()));
    assert_eq!(items.len(), 2);
    assert_eq!(items[1].as_ref().unwrap()["name"], "bar");
    let failed = engine.records_for(&NoCustomCodecs, 0, Err("gone".to_string()));
    assert_eq!(failed[0].as_ref().unwrap_err().stage, Stage::Open);
}

#[test]
fn async_builder_defaults_match_default_format_order() {
    let builder = multiio::MultiioAsyncBuilder::new(default_async_registry());
    assert_eq!(builder.core.default_input_formats, default_format_order());
    assert_eq!(builder.core.default_output_formats, default_format_order());
}

#[test]
fn builder_async_resolve_single_input_supports_stdin_alias_and_inline_content() {
    let builder = multiio::MultiioAsyncBuilder::new(default_async_registry());

    let stdin = builder.core.resolve_single_input("stdin").expect("stdin spec");
    assert_eq!(stdin.raw, "-");
    assert!(stdin.explicit_format.is_none());

    let inline = builder.core.resolve_single_input("=hello").expect("inline spec");
    assert!(inline.raw.starts_with("inline:"));
    assert!(inline.explicit_format.is_none());

    let forced_path = builder.core.resolve_single_input("@file.txt").expect("forced path spec");
    assert_eq!(forced_path.raw, "file.txt");
    assert_eq!(forced_path.explicit_format, Some(FormatKind::Plaintext));
}

#[test]
fn builder_async_resolve_single_output_supports_stdout_alias_stderr_and_forced_path() {
    let builder = multiio::MultiioAsyncBuilder::new(default_async_registry());

    let stdout = builder.core.resolve_single_output("stdout").expect("stdout spec");
    assert_eq!(stdout.raw, "-");
    assert!(stdout.explicit_format.is_none());

    let stderr = builder.core.resolve_single_output("stderr").expect("stderr spec");
    assert_eq!(stderr.raw, "stderr");
    assert!(stderr.explicit_format.is_none());

    let forced_path = builder.core.resolve_single_output("@out.txt").expect("forced path spec");
    assert_eq!(forced_path.raw, "out.txt");
    assert_eq!(forced_path.explicit_format, Some(FormatKind::Plaintext));
}

#[test]
fn async_builder_builds_engine_with_sync_registry() {
    let engine = multiio::MultiioAsyncBuilder::new(default_async_registry())
        .with_custom_format(multiio::CustomFormat::new("brk", &["brk"]).with_deserialize())
        .add_input("rows.brk")
        .with_mode(ErrorPolicy::FastFail)
        .build()
        .expect("engine");
    assert_eq!(engine.inputs()[0].explicit_format, Some(FormatKind::Custom("brk".to_string())));
    assert!(engine.registry().has_format(&FormatKind::Custom("brk".to_string())));
    assert_eq!(engine.error_policy(), ErrorPolicy::FastFail);
}

#[test]
fn build_engine_from_pipeline_with_customizes_the_builder() {
    let pipeline = PipelineConfig::new().add_output(stdout_output("out"));
    let engine = multiio::build_engine_from_pipeline_with(pipeline, |b| b.with_mode(ErrorPolicy::FastFail)).expect("engine");
    assert_eq!(engine.error_policy(), ErrorPolicy::FastFail);
    assert_eq!(engine.outputs().len(), 1);
}

/// Serves file inputs from memory, keyed by path.
struct PathIo {
    files: Vec<(String, Vec<u8>)>,
}

impl multiio::EndpointIo for PathIo {
    fn open_input(&mut self, spec: &InputSpec) -> Result<Vec<u8>, String> {
        match &spec.provider {
            InputSource::File(f) => self
                .files
                .iter()
                .find(|(p, _)| *p == f.path)
                .map(|(_, b)| b.clone())
                .ok_or_else(|| format!("no such file: {}", f.path)),
            _ => Err("not a file".to_string()),
        }
    }

    fn write_output(&mut self, _spec: &multiio::OutputSpec, _append: bool, _bytes: &[u8]) -> multiio::WriteOutcome {
        multiio::WriteOutcome::Written
    }
}

#[test]
fn pipeline_unknown_custom_format_accumulates_errors() {
    let body = br#"{"name": "good", "value": 1}"#.to_vec();
    let mut io = PathIo { files: vec![("good.json".to_string(), body.clone()), ("bad.json".to_string(), body)] };
    let file_input = |id: &str, path: &str, format: &str| InputConfig {
        id: id.to_string(),
        kind: "file".to_string(),
        path: Some(path.to_string()),
        url: None,
        format: Some(format.to_string()),
    };
    let pipeline = PipelineConfig::new()
        .add_input(file_input("good", "good.json", "json"))
        .add_input(file_input("bad", "bad.json", "custom:missing-format"))
        .add_output(stdout_output("out"))
        .with_error_policy("accumulate")
        .with_format_order(vec!["json".to_string()]);

    let builder = MultiioBuilder::from_pipeline_config(pipeline, default_registry()).expect("from_pipeline_config should succeed");
    let engine = builder.with_mode(ErrorPolicy::Accumulate).build().expect("build engine");

    let agg = engine.read_all(&NoCustomCodecs, &mut io).expect_err("expected aggregate error due to unknown custom format");
    assert_eq!(agg.errors.len(), 1);
    let e = &agg.errors[0];
    assert_eq!(e.stage, Stage::Parse);
    assert_eq!(e.target, "bad");
    let msg = e.error.message();
    assert!(msg.contains("Unknown format"));
    assert!(msg.contains("missing-format"));
}

#[test]
fn inline_content_ids_are_hash_hex() {
    let builder = MultiioBuilder::new(default_registry());
    let a = builder.resolve_single_input("=hello").unwrap();
    let b = builder.resolve_single_input("=hello").unwrap();
    assert_eq!(a.raw, b.raw);
    let hex = a.raw.strip_prefix("inline:").expect("prefix");
    assert_eq!(hex.len(), 16);
    assert!(hex.chars().all(|c| c.is_ascii_digit() || ('a'..='f').contains(&c)));
}

#[test]
fn re_registering_a_custom_format_replaces_its_capabilities() {
    let mut registry = multiio::FormatRegistry::new();
    registry.register_custom(multiio::CustomFormat::new("x", &["x1"]).with_deserialize());
    registry.register_custom(multiio::CustomFormat::new("x", &["x2"]).with_serialize());
    let kind = FormatKind::Custom("x".to_string());
    assert_eq!(registry.formats().iter().filter(|k| **k == kind).count(), 1);
    assert_eq!(registry.custom_formats().len(), 1);
    let c = registry.get_custom("x").unwrap();
    assert!(c.encodes && !c.decodes);
    assert_eq!(registry.kind_for_extension("x2"), Some(kind));
    assert_eq!(registry.kind_for_extension("x1"), None);
}
