//! A document converter built around markdown-ppp: it reads markdown or a serialised
//! syntax tree, and writes markdown, HTML, LaTeX or a serialised tree; it also rewrites
//! markdown files in place into their canonical form.
use vstd::prelude::*;

pub mod atomic;
pub mod command;
pub mod config;
pub mod convert;
pub mod convert_to;
pub mod engine;
pub mod error;
pub mod format;
pub mod input;
pub mod text;
pub mod tree;

pub use atomic::{AtomicWrite, FsAction, WriteStage};
pub use command::{Application, CommandLine, CommandOutput};
pub use config::{CodeStyle, HtmlConfig, LatexConfig, MarkdownConfig, TableStyle};
pub use convert::{Convert, DocumentFormat};
pub use convert_to::{
    ConvertTo, ConvertToAstJson, ConvertToAstYaml, ConvertToHtml, ConvertToLatex, ConvertToMarkdown, OutputFormat,
};
pub use error::{IoStep, ToolError};
pub use format::{FileAction, Format, FormatSummary};
pub use input::InputFormat;

verus! {

} // verus!
