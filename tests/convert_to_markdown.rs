use markdown_tool::{ConvertTo, ConvertToMarkdown, InputFormat, MarkdownConfig, OutputFormat};

fn to_markdown(from: InputFormat, config: MarkdownConfig, input: &str) -> String {
    ConvertTo { from, output: OutputFormat::Markdown(ConvertToMarkdown { config }) }
        .run(input)
        .map_err(|e| e.message())
        .unwrap()
}

#[test]
fn test_convert_to_markdown_basic() {
    let stdout = to_markdown(InputFormat::Markdown, MarkdownConfig::new(), "# Hello World\n\nThis is **bold** text.");
    assert!(stdout.contains("# Hello World"));
    assert!(stdout.contains("**bold**"));
}

#[test]
fn test_convert_to_markdown_with_width() {
    let input = "This is a very long line that should be wrapped when using a specific width setting for the markdown output format.";
    let stdout = to_markdown(InputFormat::Markdown, MarkdownConfig::compose(Some(50), None, false), input);
    let lines: Vec<&str> = stdout.lines().collect();
    let has_wrapped = lines.iter().any(|line| line.len() <= 60);
    assert!(has_wrapped, "Text should be wrapped to specified width");
}

#[test]
fn test_convert_to_markdown_with_list_options() {
    let config = MarkdownConfig::compose(None, Some(2), true);
    let stdout = to_markdown(InputFormat::Markdown, config, "- First item\n- Second item");
    assert!(stdout.contains("First item"));
    assert!(stdout.contains("Second item"));
}

#[test]
fn test_convert_ast_json_to_markdown() {
    let input = r#"{"blocks":[{"Paragraph":[{"Text":"Hello world"}]}]}"#;
    let stdout = to_markdown(InputFormat::AstJson, MarkdownConfig::new(), input);
    assert!(stdout.contains("Hello world"));
}

#[test]
fn test_convert_markdown_roundtrip() {
    let result = to_markdown(InputFormat::Markdown, MarkdownConfig::new(), "# Test\n\n**Bold** and *italic* text.");
    assert!(result.contains("# Test"));
    assert!(result.contains("**Bold**"));
    assert!(result.contains("*italic*"));
}

#[test]
fn test_empty_input() {
    let stdout = to_markdown(InputFormat::Markdown, MarkdownConfig::new(), "");
    // the command adds one line feed when it prints
    assert!(stdout.len() + 1 <= 10);
}
