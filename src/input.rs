//! The encodings a document can be read from.
use vstd::prelude::*;
use crate::engine::{parse_json_text, parse_markdown_text, parse_yaml_text, parsed_json, parsed_markdown, parsed_yaml};
use crate::error::ToolError;
use crate::text::{lower_of, lowercase, same_text};

verus! {

/// An input encoding.
#[derive(Clone, Copy, Debug, PartialEq, Eq, Structural)]
pub enum InputFormat {
    Markdown,
    AstJson,
    AstYaml,
}

/// The input encoding that a lower-case token names.
pub open spec fn input_format_named(s: Seq<char>) -> Option<InputFormat> {
    if s == "markdown"@ {
        Some(InputFormat::Markdown)
    } else if s == "ast-json"@ {
        Some(InputFormat::AstJson)
    } else if s == "ast-yaml"@ {
        Some(InputFormat::AstYaml)
    } else {
        None
    }
}

/// The error for a format token outside the closed set: it names the token and the
/// tokens accepted.
pub open spec fn is_unsupported_format(e: ToolError, token: Seq<char>, accepted: Seq<char>) -> bool {
    e matches ToolError::UnsupportedFormat { token: t, accepted: a } && t@ == token && a@ == accepted
}

/// The input tokens, as an error lists them.
pub open spec fn input_tokens() -> Seq<char> {
    "markdown, ast-json, ast-yaml"@
}

impl InputFormat {
    /// What the engine's decoder for this encoding makes of a text: a tree or an error message.
    pub open spec fn decoding(self, text: Seq<char>) -> Result<markdown_ppp::ast::Document, Seq<char>> {
        match self {
            InputFormat::Markdown => parsed_markdown(text),
            InputFormat::AstJson => parsed_json(text),
            InputFormat::AstYaml => parsed_yaml(text),
        }
    }

    /// The document that a text decodes to in this encoding, if the engine accepts it.
    pub open spec fn decoded(self, text: Seq<char>) -> Option<markdown_ppp::ast::Document> {
        match self.decoding(text) {
            Ok(d) => Some(d),
            Err(_) => None,
        }
    }

    /// The engine's message when it refuses a text.
    pub open spec fn decode_message(self, text: Seq<char>) -> Seq<char> {
        match self.decoding(text) {
            Ok(_) => Seq::empty(),
            Err(m) => m,
        }
    }

    /// The encoding that a lower-case token names, if any.
    pub fn from_lowercase(s: &str) -> (r: Option<InputFormat>)
        ensures
            r == input_format_named(s@),
    {
        if same_text(s, "markdown") {
            Some(InputFormat::Markdown)
        } else if same_text(s, "ast-json") {
            Some(InputFormat::AstJson)
        } else if same_text(s, "ast-yaml") {
            Some(InputFormat::AstYaml)
        } else {
            None
        }
    }

    /// The encoding that a token names, ignoring case.
    pub fn from_str(s: &str) -> (r: Result<InputFormat, ToolError>)
        ensures
            r is Ok <==> input_format_named(lower_of(s@)) is Some,
            r is Ok ==> input_format_named(lower_of(s@)) == Some(r->Ok_0),
            r is Err ==> is_unsupported_format(r->Err_0, s@, input_tokens()),
    {
        let lower = lowercase(s);
        match InputFormat::from_lowercase(lower.as_str()) {
            Some(f) => Ok(f),
            None => Err(ToolError::UnsupportedFormat {
                token: String::from_str(s),
                accepted: String::from_str("markdown, ast-json, ast-yaml"),
            }),
        }
    }

    /// Decodes a text in this encoding, as the engine does.
    pub fn parse(&self, input: &str) -> (r: Result<markdown_ppp::ast::Document, ToolError>)
        ensures
            r is Ok <==> self.decoded(input@) is Some,
            r is Ok ==> self.decoded(input@) == Some(r->Ok_0),
            r is Err ==> (r->Err_0 matches ToolError::DecodeError { message }
                && message@ == self.decode_message(input@)),
    {
        let decoded = match self {
            InputFormat::Markdown => parse_markdown_text(input),
            InputFormat::AstJson => parse_json_text(input),
            InputFormat::AstYaml => parse_yaml_text(input),
        };
        match decoded {
            Ok(doc) => Ok(doc),
            Err(message) => Err(ToolError::DecodeError { message }),
        }
    }
}

} // verus!
