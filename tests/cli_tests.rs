use multiio::cli::{InputArgs, OutputArgs, split_repeatable_values};

#[test]
fn input_args_autodetects_path_vs_inline_content() {
    let existing = "/data/in.txt".to_string();
    let known = vec![existing.clone()];
    let parsed = InputArgs::from_value(Some(&existing), &known);
    assert_eq!(parsed.as_slice(), &[existing.clone()]);

    let missing = "/data/missing.txt".to_string();
    let parsed = InputArgs::from_value(Some(&missing), &known);
    assert_eq!(parsed.as_slice(), &[format!("={missing}")]);
}

#[test]
fn output_args_normalizes_stdout_stderr_and_forced_path() {
    let stdout = OutputArgs::from_value(Some("stdout"));
    assert_eq!(stdout.as_slice(), &["-".to_string()]);

    let stderr = OutputArgs::from_value(Some("stderr"));
    assert_eq!(stderr.as_slice(), &["stderr".to_string()]);

    let forced_path = OutputArgs::from_value(Some("@stderr"));
    assert_eq!(forced_path.as_slice(), &["@stderr".to_string()]);
}

#[test]
fn input_args_repeatable_split_allows_inline_json_with_commas() {
    let merged = r#"{"a":1,"b":2},{"c":3}"#;
    let parsed = InputArgs::from_value(Some(merged), &vec![]);
    assert_eq!(
        parsed.as_slice(),
        &[r#"={"a":1,"b":2}"#.to_string(), r#"={"c":3}"#.to_string()]
    );
}

#[test]
fn input_args_repeatable_split_allows_inline_yaml_flow_mapping_with_commas() {
    let merged = r#"{a:1,b:2},{c:3}"#;
    let parsed = InputArgs::from_value(Some(merged), &vec![]);
    assert_eq!(
        parsed.as_slice(),
        &[r#"={a:1,b:2}"#.to_string(), r#"={c:3}"#.to_string()]
    );
}

#[test]
fn input_args_repeatable_split_allows_inline_toml_inline_table_with_commas() {
    let merged = r#"{a=1,b=2},{c=3}"#;
    let parsed = InputArgs::from_value(Some(merged), &vec![]);
    assert_eq!(
        parsed.as_slice(),
        &[r#"={a=1,b=2}"#.to_string(), r#"={c=3}"#.to_string()]
    );
}

#[test]
fn input_args_repeatable_split_allows_inline_xml_with_commas_in_quoted_attrs() {
    let merged = r#"<root a="1,2"/>,<root a="3"/>"#;
    let parsed = InputArgs::from_value(Some(merged), &vec![]);
    assert_eq!(
        parsed.as_slice(),
        &[r#"=<root a="1,2"/>"#.to_string(), r#"=<root a="3"/>"#.to_string()]
    );
}

#[test]
fn input_args_repeatable_split_supports_escaped_commas_for_plaintext_like_tokens() {
    let merged = r#"=a\,b,=c"#;
    let parsed = InputArgs::from_value(Some(merged), &vec![]);
    assert_eq!(parsed.as_slice(), &[r#"=a,b"#.to_string(), r#"=c"#.to_string()]);
}

#[test]
fn output_args_repeatable_split_allows_escaped_commas() {
    let merged = r#"@a\,b.txt,stderr"#;
    let parsed = OutputArgs::from_value(Some(merged));
    assert_eq!(parsed.as_slice(), &["@a,b.txt".to_string(), "stderr".to_string()]);
}

#[test]
fn absent_values_mean_standard_streams() {
    assert_eq!(InputArgs::from_value(None, &vec![]).as_slice(), &["-".to_string()]);
    assert_eq!(OutputArgs::from_value(None).as_slice(), &["-".to_string()]);
    assert_eq!(InputArgs::from_value(Some("STDIN"), &vec![]).as_slice(), &["-".to_string()]);
}

#[test]
fn split_drops_empty_tokens_and_trims() {
    assert_eq!(split_repeatable_values(" a , ,b,"), vec!["a".to_string(), "b".to_string()]);
    assert_eq!(split_repeatable_values("(x,y),'p,q'"), vec!["(x,y)".to_string(), "'p,q'".to_string()]);
}

#[test]
fn args_builders_and_queries() {
    let inputs = InputArgs::new().with_input("a.json").with_input("stdin");
    assert!(inputs.is_stdin());
    let outputs = OutputArgs::new().with_output("-").with_output("StdErr");
    assert!(outputs.is_stdout());
    assert!(outputs.is_stderr());
    assert!(!OutputArgs::new().with_output("x").is_stdout());
}
