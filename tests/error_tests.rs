use multiio::{AggregateError, ErrorPolicy, FormatError, FormatKind, SingleIoError, Stage};

#[test]
fn aggregate_error_display_includes_count() {
    let e1 = SingleIoError {
        stage: Stage::Open,
        target: "a".to_string(),
        error: FormatError::Io("e1".to_string()),
    };
    let e2 = SingleIoError {
        stage: Stage::Parse,
        target: "b".to_string(),
        error: FormatError::Io("e2".to_string()),
    };

    let agg = AggregateError { errors: vec![e1, e2] };

    let s = agg.report();
    assert!(s.contains("2 error(s)"));
}

#[test]
fn aggregate_report_lists_each_error() {
    let e = SingleIoError::new(Stage::Parse, "in", FormatError::UnknownFormat(FormatKind::Custom("missing".to_string())));
    let agg = AggregateError::single(e);
    assert_eq!(
        agg.report(),
        "I/O encountered 1 error(s):\n  #1: [Parse] in: Unknown format: missing\n"
    );
}

#[test]
fn error_policy_default_is_accumulate() {
    let policy = ErrorPolicy::default();
    assert_eq!(policy, ErrorPolicy::Accumulate);
}

#[test]
fn aggregate_error_single_and_len() {
    let err = SingleIoError {
        stage: Stage::Open,
        target: "test".to_string(),
        error: FormatError::Io("oops".to_string()),
    };

    let agg = AggregateError::single(err);
    assert_eq!(agg.len(), 1);
    assert!(!agg.is_empty());
}

#[test]
fn aggregate_error_from_single() {
    let err = SingleIoError {
        stage: Stage::Parse,
        target: "input".to_string(),
        error: FormatError::Io("bad".to_string()),
    };

    let agg: AggregateError = err.into();
    assert_eq!(agg.len(), 1);
}

#[test]
fn format_error_messages() {
    assert_eq!(FormatError::NoFormatMatched.message(), "No format matched the input");
    assert_eq!(FormatError::NotEnabled(FormatKind::Toml).message(), "Format 'toml' is not enabled");
    assert_eq!(Stage::ResolveOutput.name(), "ResolveOutput");
}
