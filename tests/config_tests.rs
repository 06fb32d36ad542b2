use multiio::{
    FileExistsPolicy, FormatKind, InMemorySink, InMemorySource, InputSource, InputSpec,
    OutputDest, OutputSpec, PipelineConfig,
};

#[test]
fn input_spec_with_format_and_candidates() {
    let src = InputSource::Memory(InMemorySource::from_string("id", "{}"));
    let spec = InputSpec::new("raw", src)
        .with_format(FormatKind::Json)
        .with_candidates(vec![FormatKind::Json, FormatKind::Yaml]);

    assert_eq!(spec.raw, "raw");
    assert_eq!(spec.explicit_format, Some(FormatKind::Json));
    assert_eq!(spec.format_candidates.len(), 2);
}

#[test]
fn output_spec_with_policy_and_format() {
    let sink = OutputDest::Memory(InMemorySink::new("id"));
    let spec = OutputSpec::new("raw", sink)
        .with_format(FormatKind::Json)
        .with_candidates(vec![FormatKind::Json])
        .with_file_exists_policy(FileExistsPolicy::Overwrite);

    assert_eq!(spec.raw, "raw");
    assert_eq!(spec.explicit_format, Some(FormatKind::Json));
    assert_eq!(spec.file_exists_policy, FileExistsPolicy::Overwrite);
}

#[test]
fn file_exists_policy_parses_names_ignoring_case() {
    assert_eq!(FileExistsPolicy::from_str("Append"), Some(FileExistsPolicy::Append));
    assert_eq!(FileExistsPolicy::from_str("overwrite"), Some(FileExistsPolicy::Overwrite));
    assert_eq!(FileExistsPolicy::from_str("ERROR"), Some(FileExistsPolicy::Error));
    assert_eq!(FileExistsPolicy::from_str("keep"), None);
    assert_eq!(FileExistsPolicy::default(), FileExistsPolicy::Error);
}

#[test]
fn pipeline_config_builders() {
    let cfg = PipelineConfig::new()
        .with_error_policy("fast_fail")
        .with_format_order(vec!["json".to_string()]);
    assert_eq!(cfg.error_policy.as_deref(), Some("fast_fail"));
    assert_eq!(cfg.format_order, Some(vec!["json".to_string()]));
    assert!(cfg.inputs.is_empty());
}

#[test]
fn in_memory_sink_writes_and_reads_back() {
    let mut sink = InMemorySink::new("out");
    sink.open_overwrite().unwrap();
    sink.write(b"abc").unwrap();
    sink.open_append().unwrap();
    sink.write(b"def").unwrap();
    assert_eq!(sink.contents(), b"abcdef".to_vec());
    assert_eq!(sink.contents_string(), "abcdef");
    sink.clear();
    assert!(sink.contents().is_empty());
}

#[test]
fn in_memory_source_reads_data() {
    let src = InMemorySource::from_string("id", "hello");
    assert_eq!(src.open().unwrap(), b"hello".to_vec());
    assert_eq!(src.id(), "id");
}
