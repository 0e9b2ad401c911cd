use markdown_tool::format::normalize_trailing_newline;
use markdown_tool::{
    Application, AtomicWrite, CodeStyle, CommandLine, CommandOutput, Convert, ConvertTo, ConvertToAstJson,
    ConvertToAstYaml, ConvertToHtml, DocumentFormat, FileAction, Format, FormatSummary, FsAction, HtmlConfig,
    InputFormat, IoStep, LatexConfig, MarkdownConfig, OutputFormat, TableStyle, ToolError, WriteStage,
};

fn formatter(dry_run: bool) -> Format {
    Format { config: MarkdownConfig::new(), dry_run, files: vec!["a.md".to_string()] }
}

#[test]
fn json_round_trip_keeps_the_document() {
    let doc = InputFormat::Markdown.parse("# Title\n\nSome *text* and a [link](http://x.org).\n\n- a\n- b\n").unwrap();
    let json = ConvertToAstJson.run(&doc).unwrap();
    let back = InputFormat::AstJson.parse(&json).unwrap();
    assert_eq!(back, doc);
}

#[test]
fn yaml_round_trip_keeps_the_document() {
    let doc = InputFormat::Markdown.parse("## Sub\n\n```rust\nfn f() {}\n```\n\n| A | B |\n|---|---|\n| 1 | 2 |\n").unwrap();
    let yaml = ConvertToAstYaml.run(&doc).unwrap();
    let back = InputFormat::AstYaml.parse(&yaml).unwrap();
    assert_eq!(back, doc);
}

#[test]
fn formatting_twice_equals_formatting_once() {
    let f = formatter(false);
    for input in ["#   Title\n\nSome   **bold**   text.\n", "* a\n* b\n\n1. one\n2. two", "Para one\nstill one\n\n> quote\n"] {
        let once = f.format_content(input).unwrap();
        let twice = f.format_content(&once).unwrap();
        assert_eq!(once, twice);
    }
}

#[test]
fn dry_run_flags_exactly_what_a_run_rewrites() {
    let original = "#   Title\n";
    let preview = formatter(true).plan_file(original).unwrap();
    let applied = formatter(false).plan_file(original).unwrap();
    assert!(matches!(preview, FileAction::NeedsFormatting));
    match applied {
        FileAction::Rewrite(c) => assert_eq!(c, "# Title\n"),
        other => panic!("expected a rewrite, got {:?}", other),
    }
}

#[test]
fn canonical_file_is_clean_in_a_dry_run() {
    let f = formatter(true);
    let canonical = formatter(false).format_content("Some   text\n").unwrap();
    let plan = f.plan_file(&canonical).unwrap();
    assert!(matches!(plan, FileAction::Unchanged));
    let summary = FormatSummary::new(true);
    assert!(summary.all_clean());
    assert_eq!(summary.exit_code(), 0);
}

#[test]
fn rewritten_file_is_clean_afterwards() {
    let plan = formatter(false).plan_file("#   Heading\n\ntext   here\n").unwrap();
    let rewritten = match plan {
        FileAction::Rewrite(c) => c,
        other => panic!("expected a rewrite, got {:?}", other),
    };
    assert!(matches!(formatter(true).plan_file(&rewritten).unwrap(), FileAction::Unchanged));
}

#[test]
fn dry_run_with_a_flagged_file_exits_one() {
    let mut summary = FormatSummary::new(true);
    summary.record_flagged("a.md".to_string());
    assert_eq!(summary.exit_code(), 1);
    assert!(!summary.all_clean());
}

#[test]
fn failures_do_not_change_the_exit_code() {
    let mut summary = FormatSummary::new(false);
    summary.record_failure(
        "missing.md".to_string(),
        ToolError::IoError { path: "missing.md".to_string(), step: IoStep::Read, message: "not found".to_string() },
    );
    summary.record_flagged("b.md".to_string());
    assert_eq!(summary.exit_code(), 0);
    assert_eq!(summary.failed.len(), 1);
    assert!(summary.failed[0].1.message().contains("missing.md"));
}

#[test]
fn newline_is_added_once_when_the_original_had_one() {
    assert_eq!(normalize_trailing_newline("a\n", "b".to_string()), "b\n");
    assert_eq!(normalize_trailing_newline("a\n", "b\n".to_string()), "b\n");
    assert_eq!(normalize_trailing_newline("a", "b".to_string()), "b");
    assert_eq!(normalize_trailing_newline("", "b".to_string()), "b");
}

#[test]
fn formatter_keeps_the_final_newline() {
    let f = formatter(false);
    let with = f.format_content("Hello world\n").unwrap();
    assert!(with.ends_with('\n') && !with.ends_with("\n\n"));
    let without = f.format_content("Hello world").unwrap();
    assert_eq!(without, "Hello world");
}

#[test]
fn failed_temporary_write_aborts_before_rename() {
    let mut w = AtomicWrite::new("doc.md".to_string(), "doc.md.tmp".to_string(), "new".to_string()).unwrap();
    match w.action() {
        FsAction::WriteFile { path, content } => {
            assert_eq!(path, "doc.md.tmp");
            assert_eq!(content, "new");
        },
        other => panic!("unexpected {:?}", other),
    }
    let err = w.on_result(Err("disk full".to_string())).unwrap();
    assert!(matches!(err, ToolError::IoError { step: IoStep::WriteTemporary, .. }));
    assert!(err.message().contains("Failed to write temporary file: doc.md.tmp"));
    assert_eq!(w.stage, WriteStage::Failed(IoStep::WriteTemporary));
    assert!(matches!(w.action(), FsAction::Abort(IoStep::WriteTemporary)));
}

#[test]
fn failed_rename_is_reported_as_such() {
    let mut w = AtomicWrite::new("doc.md".to_string(), "doc.md.tmp".to_string(), "new".to_string()).unwrap();
    assert!(w.on_result(Ok(())).is_none());
    match w.action() {
        FsAction::Rename { from, to } => {
            assert_eq!(from, "doc.md.tmp");
            assert_eq!(to, "doc.md");
        },
        other => panic!("unexpected {:?}", other),
    }
    let err = w.on_result(Err("busy".to_string())).unwrap();
    assert!(matches!(err, ToolError::IoError { step: IoStep::Rename, .. }));
}

#[test]
fn successful_write_finishes() {
    let mut w = AtomicWrite::new("doc.md".to_string(), "doc.md.tmp".to_string(), "new".to_string()).unwrap();
    assert!(w.on_result(Ok(())).is_none());
    assert!(w.on_result(Ok(())).is_none());
    assert_eq!(w.stage, WriteStage::Done);
    assert!(matches!(w.action(), FsAction::Finish));
}

#[test]
fn temporary_path_must_differ_from_the_target() {
    assert!(AtomicWrite::new("doc.md".to_string(), "doc.md".to_string(), "x".to_string()).is_err());
}

#[test]
fn html_of_bold_heading() {
    let out = ConvertTo { from: InputFormat::Markdown, output: OutputFormat::Html(ConvertToHtml { config: HtmlConfig::new() }) }
        .run("# Hello World\n\nThis is **bold** text.")
        .unwrap();
    assert!(out.contains("<h1>Hello World</h1>"));
    assert!(out.contains("<b>bold</b>"));
}

#[test]
fn json_of_one_heading_has_one_block() {
    let out = ConvertTo { from: InputFormat::Markdown, output: OutputFormat::AstJson(ConvertToAstJson) }
        .run("# Hello World")
        .unwrap();
    let v: serde_json::Value = serde_json::from_str(&out).unwrap();
    assert_eq!(v.get("blocks").unwrap().as_array().unwrap().len(), 1);
}

#[test]
fn unsupported_input_token_is_named_with_the_accepted_ones() {
    let err = InputFormat::from_str("xml").unwrap_err();
    let m = err.message();
    assert!(m.contains("xml"));
    assert!(m.contains("markdown") && m.contains("ast-json") && m.contains("ast-yaml"));
    assert!(matches!(err, ToolError::UnsupportedFormat { .. }));
}

#[test]
fn invalid_table_style_is_refused_before_any_decoding() {
    let err = LatexConfig::compose(None, Some("fancy"), Some("minted")).unwrap_err();
    match &err {
        ToolError::InvalidOption { field, value, accepted } => {
            assert_eq!(field, "table style");
            assert_eq!(value, "fancy");
            assert!(accepted.contains("booktabs"));
        },
        other => panic!("unexpected {:?}", other),
    }
    let err = LatexConfig::compose(None, None, Some("Fancy")).unwrap_err();
    assert!(matches!(err, ToolError::InvalidOption { .. }));
    assert!(err.message().contains("Fancy"));
}

#[test]
fn tokens_ignore_case() {
    assert_eq!(InputFormat::from_str("MarkDown").unwrap(), InputFormat::Markdown);
    assert_eq!(InputFormat::from_str("AST-JSON").unwrap(), InputFormat::AstJson);
    assert_eq!(InputFormat::from_str("ast-yaml").unwrap(), InputFormat::AstYaml);
    assert_eq!(TableStyle::from_str("BookTabs").unwrap(), TableStyle::Booktabs);
    assert_eq!(CodeStyle::from_str("LISTINGS").unwrap(), CodeStyle::Listings);
    assert!(matches!(OutputFormat::from_str("HTML").unwrap(), OutputFormat::Html(_)));
    assert!(matches!(OutputFormat::from_str("ast-yaml").unwrap(), OutputFormat::AstYaml(_)));
    assert!(OutputFormat::from_str("pdf").is_err());
    assert_eq!(DocumentFormat::from_str("Ast-Yaml").unwrap(), DocumentFormat::AstYaml);
    assert!(DocumentFormat::from_str("html").is_err());
}

#[test]
fn defaults_of_each_target() {
    let m = MarkdownConfig::new();
    assert_eq!((m.width, m.spaces_before_list_item, m.no_empty_line_before_list), (80, 1, false));
    let m = MarkdownConfig::compose(Some(40), Some(3), true);
    assert_eq!((m.width, m.spaces_before_list_item, m.no_empty_line_before_list), (40, 3, true));
    let h = HtmlConfig::new();
    assert_eq!(h.width, 80);
    assert!(h.anchor_prefix.is_none());
    assert_eq!(h.prefix_text(), "");
    assert_eq!(HtmlConfig::compose(Some(10), Some("p-".to_string())).prefix_text(), "p-");
    let l = LatexConfig::compose(None, None, None).unwrap();
    assert_eq!((l.width, l.table_style, l.code_style), (80, TableStyle::Tabular, CodeStyle::Verbatim));
    let l = LatexConfig::compose(Some(70), Some("longtabu"), Some("listings")).unwrap();
    assert_eq!((l.width, l.table_style, l.code_style), (70, TableStyle::Longtabu, CodeStyle::Listings));
}

#[test]
fn invalid_markdown_free_json_is_a_decode_error() {
    let err = ConvertTo { from: InputFormat::AstJson, output: OutputFormat::AstJson(ConvertToAstJson) }
        .run("[1, 2")
        .unwrap_err();
    assert!(matches!(err, ToolError::DecodeError { .. }));
}

#[test]
fn convert_between_markdown_and_trees() {
    let json = Convert { from: DocumentFormat::Markdown, to: DocumentFormat::AstJson }.run("# T\n\nbody").unwrap();
    assert!(json.contains("Heading"));
    let yaml = Convert { from: DocumentFormat::AstJson, to: DocumentFormat::AstYaml }.run(&json).unwrap();
    assert!(yaml.contains("blocks:"));
    let md = Convert { from: DocumentFormat::AstYaml, to: DocumentFormat::Markdown }.run(&yaml).unwrap();
    assert!(md.contains("# T") && md.contains("body"));
    assert!(Convert { from: DocumentFormat::AstYaml, to: DocumentFormat::Markdown }.run("a: [").is_err());
}

#[test]
fn application_dispatches_its_command() {
    let app = Application {
        command: CommandLine::ConvertTo(ConvertTo {
            from: InputFormat::Markdown,
            output: OutputFormat::from_str("latex").unwrap(),
        }),
    };
    assert!(app.reads_input());
    match app.run_command("# Hi").unwrap() {
        CommandOutput::Converted(s) => assert!(s.contains("\\section{Hi}")),
        other => panic!("unexpected {:?}", other),
    }
    let app = Application { command: CommandLine::Format(formatter(true)) };
    assert!(!app.reads_input());
    assert!(matches!(app.run_command("").unwrap(), CommandOutput::FormatFiles));
}

#[test]
fn json_table_without_rows_is_refused_only_by_html() {
    let input = r#"{"blocks":[{"Table":{"rows":[],"alignments":[]}}]}"#;
    let err = ConvertTo { from: InputFormat::AstJson, output: OutputFormat::Html(ConvertToHtml { config: HtmlConfig::new() }) }
        .run(input)
        .unwrap_err();
    assert!(matches!(err, ToolError::InternalError { .. }));
    let doc = InputFormat::AstJson.parse(input).unwrap();
    let json = ConvertToAstJson.run(&doc).unwrap();
    assert_eq!(InputFormat::AstJson.parse(&json).unwrap(), doc);
    let md = ConvertTo {
        from: InputFormat::AstJson,
        output: OutputFormat::Markdown(markdown_tool::ConvertToMarkdown { config: MarkdownConfig::new() }),
    }
    .run(input);
    assert!(md.is_ok());
}

#[test]
fn json_row_longer_than_header_is_refused_only_by_markdown() {
    let input = r#"{"blocks":[{"BlockQuote":[{"Table":{"rows":[[[{"Text":"a"}]],[[{"Text":"b"}],[{"Text":"a long cell"}]]],"alignments":["None"]}}]}]}"#;
    let result = ConvertTo {
        from: InputFormat::AstJson,
        output: OutputFormat::Markdown(markdown_tool::ConvertToMarkdown { config: MarkdownConfig::new() }),
    }
    .run(input);
    assert!(matches!(result, Err(ToolError::InternalError { .. })));
    let html = ConvertTo { from: InputFormat::AstJson, output: OutputFormat::Html(ConvertToHtml { config: HtmlConfig::new() }) }
        .run(input)
        .unwrap();
    assert!(html.contains("a long cell"));
    let yaml = Convert { from: DocumentFormat::AstJson, to: DocumentFormat::AstYaml }.run(input).unwrap();
    assert!(yaml.contains("a long cell"));
}

#[test]
fn ordered_list_numbers_that_overflow_are_refused_by_markdown() {
    for input in [
        r#"{"blocks":[{"List":{"kind":{"Ordered":{"start":0}},"items":[]}}]}"#,
        r#"{"blocks":[{"List":{"kind":{"Ordered":{"start":18446744073709551615}},"items":[{"task":null,"blocks":[]}]}}]}"#,
    ] {
        let md = Convert { from: DocumentFormat::AstJson, to: DocumentFormat::Markdown }.run(input);
        assert!(matches!(md, Err(ToolError::InternalError { .. })));
        let json = Convert { from: DocumentFormat::AstJson, to: DocumentFormat::AstJson }.run(input);
        assert!(json.is_ok());
    }
    let ok = r#"{"blocks":[{"List":{"kind":{"Ordered":{"start":3}},"items":[{"task":null,"blocks":[{"Paragraph":[{"Text":"x"}]}]}]}}]}"#;
    let md = Convert { from: DocumentFormat::AstJson, to: DocumentFormat::Markdown }.run(ok).unwrap();
    assert!(md.contains("3."));
}

#[test]
fn narrow_width_with_a_quote_is_refused_by_the_formatter() {
    let f = Format { config: MarkdownConfig::compose(Some(1), None, false), dry_run: false, files: vec![] };
    assert!(matches!(f.format_content("> quoted\n"), Err(ToolError::InternalError { .. })));
    let g = Format { config: MarkdownConfig::compose(Some(1), None, false), dry_run: false, files: vec![] };
    assert!(g.format_content("plain text\n").is_ok());
    assert!(formatter(false).format_content("- item\n\n  > quoted\n").is_ok());
}

#[test]
fn json_table_with_a_header_is_printed() {
    let input = r#"{"blocks":[{"Table":{"rows":[[[{"Text":"h"}]],[[{"Text":"c"}]]],"alignments":["None"]}}]}"#;
    let out = ConvertTo { from: InputFormat::AstJson, output: OutputFormat::Html(ConvertToHtml { config: HtmlConfig::new() }) }
        .run(input)
        .unwrap();
    assert!(out.contains("<table>"));
}

#[test]
fn malformed_markdown_is_accepted() {
    assert!(InputFormat::Markdown.parse("# Unclosed [link\n\n**Unclosed bold\n\n```\nUnclosed code block").is_ok());
}

#[test]
fn setext_heading_is_written_as_yaml() {
    let out = ConvertTo { from: InputFormat::Markdown, output: OutputFormat::AstYaml(ConvertToAstYaml) }
        .run("Title\n=====\n\n- [x] done\n")
        .unwrap();
    assert!(out.contains("blocks:"));
    let back = InputFormat::AstYaml.parse(&out).unwrap();
    assert_eq!(back, InputFormat::Markdown.parse("Title\n=====\n\n- [x] done\n").unwrap());
}

#[test]
fn decode_error_carries_the_engine_message() {
    let expected = serde_json::from_str::<markdown_ppp::ast::Document>("{invalid json}").unwrap_err().to_string();
    match InputFormat::AstJson.parse("{invalid json}").unwrap_err() {
        ToolError::DecodeError { message } => assert_eq!(message, expected),
        other => panic!("unexpected {:?}", other),
    }
}

#[test]
fn style_errors_name_field_value_and_accepted_values() {
    match TableStyle::from_str("invalid-style").unwrap_err() {
        ToolError::InvalidOption { field, value, accepted } => {
            assert_eq!(field, "table style");
            assert_eq!(value, "invalid-style");
            assert_eq!(accepted, "tabular, longtabu, booktabs");
        },
        other => panic!("unexpected {:?}", other),
    }
    let m = CodeStyle::from_str("invalid-style").unwrap_err().message();
    assert_eq!(m, "Invalid code style: invalid-style. Supported: verbatim, listings, minted");
}

#[test]
fn format_errors_list_the_accepted_tokens() {
    match DocumentFormat::from_str("xml").unwrap_err() {
        ToolError::UnsupportedFormat { token, accepted } => {
            assert_eq!(token, "xml");
            assert_eq!(accepted, "markdown, ast-json, ast-yaml");
        },
        other => panic!("unexpected {:?}", other),
    }
    match OutputFormat::from_str("pdf").unwrap_err() {
        ToolError::UnsupportedFormat { accepted, .. } => assert_eq!(accepted, "markdown, html, latex, ast-json, ast-yaml"),
        other => panic!("unexpected {:?}", other),
    }
}
