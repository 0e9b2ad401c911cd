//! Conversion of one document from an input encoding to an output encoding.
use vstd::prelude::*;
use crate::config::{HtmlConfig, LatexConfig, MarkdownConfig};
use crate::engine::{
    html_text_of, json_text_of, latex_text_of, markdown_text_of, render_html_text, render_latex_text,
    render_markdown_text, write_json_text, write_yaml_text, yaml_text_of,
};
use crate::error::ToolError;
use crate::input::{is_unsupported_format, InputFormat};
use crate::text::{lower_of, lowercase, same_text};
use crate::tree::{html_printable, html_printable_check, markdown_printable, markdown_printable_check};

verus! {

/// Output as markdown.
#[derive(Clone, Debug)]
pub struct ConvertToMarkdown {
    pub config: MarkdownConfig,
}

/// Output as HTML.
#[derive(Clone, Debug)]
pub struct ConvertToHtml {
    pub config: HtmlConfig,
}

/// Output as LaTeX.
#[derive(Clone, Debug)]
pub struct ConvertToLatex {
    pub config: LatexConfig,
}

/// Output as the syntax tree in JSON.
#[derive(Clone, Copy, Debug)]
pub struct ConvertToAstJson;

/// Output as the syntax tree in YAML.
#[derive(Clone, Copy, Debug)]
pub struct ConvertToAstYaml;

impl ConvertToMarkdown {
    /// The markdown text of a document under this target's options.
    pub open spec fn text_of(&self, doc: markdown_ppp::ast::Document) -> Seq<char> {
        markdown_text_of(
            doc,
            self.config.width as nat,
            self.config.spaces_before_list_item as nat,
            self.config.empty_line_before_list(),
        )
    }

    /// Whether the markdown printer renders a document under this target's options.
    pub open spec fn printable(&self, doc: markdown_ppp::ast::Document) -> bool {
        markdown_printable(doc, self.config.width as nat, self.config.spaces_before_list_item as nat)
    }

    /// Decides whether the markdown printer renders a document under this target's options.
    pub fn can_render(&self, ast: &markdown_ppp::ast::Document) -> (r: bool)
        ensures
            r == self.printable(*ast),
    {
        markdown_printable_check(ast, self.config.width, self.config.spaces_before_list_item)
    }

    /// Renders a document as markdown.
    pub fn run(&self, ast: &markdown_ppp::ast::Document) -> (r: String)
        requires
            self.printable(*ast),
        ensures
            r@ == self.text_of(*ast),
    {
        render_markdown_text(
            ast,
            self.config.width,
            self.config.spaces_before_list_item,
            !self.config.no_empty_line_before_list,
        )
    }
}

impl ConvertToHtml {
    /// The HTML of a document under this target's options.
    pub open spec fn text_of(&self, doc: markdown_ppp::ast::Document) -> Seq<char> {
        html_text_of(doc, self.config.width as nat, self.config.prefix())
    }

    /// Renders a document as HTML.
    pub fn run(&self, ast: &markdown_ppp::ast::Document) -> (r: String)
        requires
            html_printable(*ast),
        ensures
            r@ == self.text_of(*ast),
    {
        render_html_text(ast, self.config.width, self.config.prefix_text())
    }
}

impl ConvertToLatex {
    /// The LaTeX of a document under this target's options.
    pub open spec fn text_of(&self, doc: markdown_ppp::ast::Document) -> Seq<char> {
        latex_text_of(doc, self.config.width as nat, self.config.table_style, self.config.code_style)
    }

    /// Renders a document as LaTeX.
    pub fn run(&self, ast: &markdown_ppp::ast::Document) -> (r: String)
        ensures
            r@ == self.text_of(*ast),
    {
        render_latex_text(ast, self.config.width, self.config.table_style, self.config.code_style)
    }
}

impl ConvertToAstJson {
    /// Writes a document's tree as JSON; a failure of the encoder is an internal error.
    pub fn run(&self, ast: &markdown_ppp::ast::Document) -> (r: Result<String, ToolError>)
        ensures
            r is Ok,
            r is Ok ==> r->Ok_0@ == json_text_of(*ast),
    {
        match write_json_text(ast) {
            Ok(s) => Ok(s),
            Err(message) => Err(ToolError::InternalError { message }),
        }
    }
}

impl ConvertToAstYaml {
    /// Writes a document's tree as YAML; a failure of the encoder is an internal error.
    pub fn run(&self, ast: &markdown_ppp::ast::Document) -> (r: Result<String, ToolError>)
        ensures
            r is Ok,
            r is Ok ==> r->Ok_0@ == yaml_text_of(*ast),
    {
        match write_yaml_text(ast) {
            Ok(s) => Ok(s),
            Err(message) => Err(ToolError::InternalError { message }),
        }
    }
}

/// An output encoding with its options.
#[derive(Clone, Debug)]
pub enum OutputFormat {
    Markdown(ConvertToMarkdown),
    Html(ConvertToHtml),
    Latex(ConvertToLatex),
    AstJson(ConvertToAstJson),
    AstYaml(ConvertToAstYaml),
}

/// The output encoding, at default options, that a lower-case token names.
pub open spec fn output_kind_named(s: Seq<char>) -> Option<int> {
    if s == "markdown"@ {
        Some(0)
    } else if s == "html"@ {
        Some(1)
    } else if s == "latex"@ {
        Some(2)
    } else if s == "ast-json"@ {
        Some(3)
    } else if s == "ast-yaml"@ {
        Some(4)
    } else {
        None
    }
}

impl OutputFormat {
    /// The position of this encoding in the order markdown, html, latex, ast-json, ast-yaml.
    pub open spec fn kind(&self) -> int {
        match self {
            OutputFormat::Markdown(_) => 0,
            OutputFormat::Html(_) => 1,
            OutputFormat::Latex(_) => 2,
            OutputFormat::AstJson(_) => 3,
            OutputFormat::AstYaml(_) => 4,
        }
    }

    /// Whether this target's printer renders a document.
    pub open spec fn printable(&self, doc: markdown_ppp::ast::Document) -> bool {
        match self {
            OutputFormat::Markdown(c) => c.printable(doc),
            OutputFormat::Html(_) => html_printable(doc),
            _ => true,
        }
    }

    /// The text a document is encoded to in this target.
    pub open spec fn text_of(&self, doc: markdown_ppp::ast::Document) -> Seq<char> {
        match self {
            OutputFormat::Markdown(c) => c.text_of(doc),
            OutputFormat::Html(c) => c.text_of(doc),
            OutputFormat::Latex(c) => c.text_of(doc),
            OutputFormat::AstJson(_) => json_text_of(doc),
            OutputFormat::AstYaml(_) => yaml_text_of(doc),
        }
    }

    /// The target, at default options, that a lower-case token names, if any.
    pub fn from_lowercase(s: &str) -> (r: Option<OutputFormat>)
        ensures
            r is Some <==> output_kind_named(s@) is Some,
            r is Some ==> output_kind_named(s@) == Some(r->Some_0.kind()),
            r matches Some(OutputFormat::Markdown(c)) ==> c.config.width == crate::config::DEFAULT_WIDTH
                && c.config.spaces_before_list_item == crate::config::DEFAULT_SPACES_BEFORE_LIST_ITEM
                && c.config.empty_line_before_list(),
            r matches Some(OutputFormat::Html(c)) ==> c.config.width == crate::config::DEFAULT_WIDTH && c.config.anchor_prefix is None,
            r matches Some(OutputFormat::Latex(c)) ==> c.config.width == crate::config::DEFAULT_WIDTH
                && c.config.table_style == crate::config::TableStyle::Tabular
                && c.config.code_style == crate::config::CodeStyle::Verbatim,
    {
        if same_text(s, "markdown") {
            Some(OutputFormat::Markdown(ConvertToMarkdown { config: MarkdownConfig::new() }))
        } else if same_text(s, "html") {
            Some(OutputFormat::Html(ConvertToHtml { config: HtmlConfig::new() }))
        } else if same_text(s, "latex") {
            Some(OutputFormat::Latex(ConvertToLatex { config: LatexConfig::new() }))
        } else if same_text(s, "ast-json") {
            Some(OutputFormat::AstJson(ConvertToAstJson))
        } else if same_text(s, "ast-yaml") {
            Some(OutputFormat::AstYaml(ConvertToAstYaml))
        } else {
            None
        }
    }

    /// The target, at default options, that a token names, ignoring case.
    pub fn from_str(s: &str) -> (r: Result<OutputFormat, ToolError>)
        ensures
            r is Ok <==> output_kind_named(lower_of(s@)) is Some,
            r is Ok ==> output_kind_named(lower_of(s@)) == Some(r->Ok_0.kind()),
            r matches Ok(OutputFormat::Markdown(c)) ==> c.config.width == crate::config::DEFAULT_WIDTH
                && c.config.spaces_before_list_item == crate::config::DEFAULT_SPACES_BEFORE_LIST_ITEM
                && c.config.empty_line_before_list(),
            r matches Ok(OutputFormat::Html(c)) ==> c.config.width == crate::config::DEFAULT_WIDTH && c.config.anchor_prefix is None,
            r matches Ok(OutputFormat::Latex(c)) ==> c.config.width == crate::config::DEFAULT_WIDTH
                && c.config.table_style == crate::config::TableStyle::Tabular
                && c.config.code_style == crate::config::CodeStyle::Verbatim,
            r is Err ==> is_unsupported_format(r->Err_0, s@, "markdown, html, latex, ast-json, ast-yaml"@),
    {
        let lower = lowercase(s);
        match OutputFormat::from_lowercase(lower.as_str()) {
            Some(f) => Ok(f),
            None => Err(ToolError::UnsupportedFormat {
                token: String::from_str(s),
                accepted: String::from_str("markdown, html, latex, ast-json, ast-yaml"),
            }),
        }
    }

    /// Encodes a document in this target. A document that the printer cannot render
    /// is an internal error, reported before the printer is called.
    pub fn render(&self, ast: &markdown_ppp::ast::Document) -> (r: Result<String, ToolError>)
        ensures
            r is Ok <==> self.printable(*ast),
            r is Ok ==> r->Ok_0@ == self.text_of(*ast),
            r is Err ==> r->Err_0 is InternalError,
    {
        match self {
            OutputFormat::Markdown(cmd) => if cmd.can_render(ast) {
                Ok(cmd.run(ast))
            } else {
                Err(ToolError::InternalError { message: String::from_str("the document cannot be printed in this target with these options") })
            },
            OutputFormat::Html(cmd) => if html_printable_check(ast) {
                Ok(cmd.run(ast))
            } else {
                Err(ToolError::InternalError { message: String::from_str("the document cannot be printed in this target with these options") })
            },
            OutputFormat::Latex(cmd) => Ok(cmd.run(ast)),
            OutputFormat::AstJson(cmd) => cmd.run(ast),
            OutputFormat::AstYaml(cmd) => cmd.run(ast),
        }
    }
}

/// A conversion request: where the input comes from and where it goes.
#[derive(Clone, Debug)]
pub struct ConvertTo {
    pub from: InputFormat,
    pub output: OutputFormat,
}

impl ConvertTo {
    /// Decodes the input and encodes the document in the chosen target. The output
    /// is the encoder's text, unchanged.
    pub fn run(&self, input: &str) -> (r: Result<String, ToolError>)
        ensures
            r is Ok <==> self.from.decoded(input@) is Some && self.output.printable(self.from.decoded(input@)->Some_0),
            r is Ok ==> r->Ok_0@ == self.output.text_of(self.from.decoded(input@)->Some_0),
            self.from.decoded(input@) is None ==> (r matches Err(ToolError::DecodeError { message })
                && message@ == self.from.decode_message(input@)),
            self.from.decoded(input@) is Some && r is Err ==> r->Err_0 is InternalError,
    {
        let ast = self.from.parse(input)?;
        self.output.render(&ast)
    }
}

} // verus!
