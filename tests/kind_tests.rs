use multiio::cli::infer_format_from_path;
use multiio::{FormatKind, default_format_order, parse_format, structured_text_formats};

#[test]
fn default_format_order_is_expected() {
    assert_eq!(
        default_format_order(),
        vec![
            FormatKind::Json,
            FormatKind::Yaml,
            FormatKind::Toml,
            FormatKind::Ini,
            FormatKind::Csv,
            FormatKind::Xml,
            FormatKind::Markdown,
            FormatKind::Plaintext,
        ],
    );
}

#[test]
fn structured_text_formats_are_prefix_of_default_order() {
    let structured = structured_text_formats();
    assert_eq!(structured, default_format_order()[..structured.len()].to_vec());
}

#[test]
fn test_parse_format() {
    assert_eq!(parse_format("json"), Some(FormatKind::Json));
    assert_eq!(parse_format("JSON"), Some(FormatKind::Json));
    assert_eq!(parse_format("yaml"), Some(FormatKind::Yaml));
    assert_eq!(parse_format("yml"), Some(FormatKind::Yaml));
    assert_eq!(parse_format("unknown"), None);
}

#[test]
fn test_infer_format_from_path() {
    assert_eq!(infer_format_from_path("config.json"), Some(FormatKind::Json));
    assert_eq!(infer_format_from_path("data.yaml"), Some(FormatKind::Yaml));
    assert_eq!(infer_format_from_path("file.unknown"), None);
}

#[test]
fn parse_format_custom_prefix_names_lowercased_custom_kind() {
    assert_eq!(parse_format("Custom:Missing"), Some(FormatKind::Custom("missing".to_string())));
    assert_eq!(parse_format("MD"), Some(FormatKind::Markdown));
    assert_eq!(parse_format("txt"), Some(FormatKind::Plaintext));
}

#[test]
fn extensions_and_availability_of_kinds() {
    assert_eq!(FormatKind::Yaml.extensions(), vec!["yaml", "yml"]);
    assert!(FormatKind::Custom("x".to_string()).extensions().is_empty());
    assert!(!FormatKind::Toml.is_available());
    assert!(FormatKind::Json.is_available());
    assert!(FormatKind::Custom("x".to_string()).is_available());
    assert_eq!(FormatKind::Markdown.name(), "markdown");
}
