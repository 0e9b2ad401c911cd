//! Conversion between the three encodings that can be both read and written:
//! markdown, and the syntax tree in JSON or YAML.
use vstd::prelude::*;
use crate::config::MarkdownConfig;
use crate::convert_to::{ConvertToAstJson, ConvertToAstYaml, ConvertToMarkdown};
use crate::engine::{json_text_of, markdown_text_of, yaml_text_of};
use crate::error::ToolError;
use crate::input::{input_format_named, input_tokens, is_unsupported_format, InputFormat};
use crate::text::{lower_of, lowercase};
use crate::tree::{markdown_printable, markdown_printable_check};

verus! {

/// An encoding that can be both read and written.
#[derive(Clone, Copy, Debug, PartialEq, Eq, Structural)]
pub enum DocumentFormat {
    Markdown,
    AstJson,
    AstYaml,
}

impl DocumentFormat {
    /// The same encoding as an input encoding.
    pub open spec fn as_input(self) -> InputFormat {
        match self {
            DocumentFormat::Markdown => InputFormat::Markdown,
            DocumentFormat::AstJson => InputFormat::AstJson,
            DocumentFormat::AstYaml => InputFormat::AstYaml,
        }
    }

    /// Whether a document can be written in this encoding: markdown at the printer's
    /// defaults must be able to render it.
    pub open spec fn printable(self, doc: markdown_ppp::ast::Document) -> bool {
        self == DocumentFormat::Markdown ==> markdown_printable(doc, 80, 1)
    }

    /// The text of a document in this encoding; markdown at the printer's defaults.
    pub open spec fn text_of(self, doc: markdown_ppp::ast::Document) -> Seq<char> {
        match self {
            DocumentFormat::Markdown => markdown_text_of(doc, 80, 1, true),
            DocumentFormat::AstJson => json_text_of(doc),
            DocumentFormat::AstYaml => yaml_text_of(doc),
        }
    }

    /// The encoding that a token names, ignoring case.
    pub fn from_str(s: &str) -> (r: Result<DocumentFormat, ToolError>)
        ensures
            r is Ok <==> input_format_named(lower_of(s@)) is Some,
            r is Ok ==> input_format_named(lower_of(s@)) == Some(r->Ok_0.as_input()),
            r is Err ==> is_unsupported_format(r->Err_0, s@, input_tokens()),
    {
        let lower = lowercase(s);
        match InputFormat::from_lowercase(lower.as_str()) {
            Some(InputFormat::Markdown) => Ok(DocumentFormat::Markdown),
            Some(InputFormat::AstJson) => Ok(DocumentFormat::AstJson),
            Some(InputFormat::AstYaml) => Ok(DocumentFormat::AstYaml),
            None => Err(ToolError::UnsupportedFormat {
                token: String::from_str(s),
                accepted: String::from_str("markdown, ast-json, ast-yaml"),
            }),
        }
    }

    /// The same encoding as an input encoding.
    pub fn to_input(self) -> (r: InputFormat)
        ensures
            r == self.as_input(),
    {
        match self {
            DocumentFormat::Markdown => InputFormat::Markdown,
            DocumentFormat::AstJson => InputFormat::AstJson,
            DocumentFormat::AstYaml => InputFormat::AstYaml,
        }
    }

    /// Writes a document in this encoding.
    pub fn render(self, doc: &markdown_ppp::ast::Document) -> (r: Result<String, ToolError>)
        ensures
            r is Ok <==> self.printable(*doc),
            r is Ok ==> r->Ok_0@ == self.text_of(*doc),
            r is Err ==> r->Err_0 is InternalError,
    {
        match self {
            DocumentFormat::Markdown => if markdown_printable_check(doc, 80, 1) {
                Ok(ConvertToMarkdown { config: MarkdownConfig::new() }.run(doc))
            } else {
                Err(ToolError::InternalError { message: String::from_str("the document cannot be printed in this target with these options") })
            },
            DocumentFormat::AstJson => ConvertToAstJson.run(doc),
            DocumentFormat::AstYaml => ConvertToAstYaml.run(doc),
        }
    }
}

/// A conversion from one of these encodings to another.
#[derive(Clone, Copy, Debug)]
pub struct Convert {
    pub from: DocumentFormat,
    pub to: DocumentFormat,
}

impl Convert {
    /// Decodes the input and writes the document in the target encoding.
    pub fn run(&self, input: &str) -> (r: Result<String, ToolError>)
        ensures
            r is Ok <==> self.from.as_input().decoded(input@) is Some
                && self.to.printable(self.from.as_input().decoded(input@)->Some_0),
            r is Ok ==> r->Ok_0@ == self.to.text_of(self.from.as_input().decoded(input@)->Some_0),
            self.from.as_input().decoded(input@) is None ==> (r matches Err(ToolError::DecodeError { message })
                && message@ == self.from.as_input().decode_message(input@)),
            self.from.as_input().decoded(input@) is Some && r is Err ==> r->Err_0 is InternalError,
    {
        let ast = self.from.to_input().parse(input)?;
        self.to.render(&ast)
    }
}

} // verus!
