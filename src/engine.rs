//! The document engine: markdown-ppp's parser and printers and the serde codecs
//! of its syntax tree. The tree is carried through the library as an opaque value.
use vstd::prelude::*;
use crate::config::{CodeStyle, TableStyle};
use markdown_ppp::latex_printer::config as latex;
use crate::tree::{document_regular, html_printable, markdown_printable};

verus! {

/// The tree that markdown-ppp's parser builds from a text, or the message of its error.
pub uninterp spec fn parsed_markdown(text: Seq<char>) -> Result<markdown_ppp::ast::Document, Seq<char>>;

/// The tree that serde_json reads from a text, or the message of its error.
pub uninterp spec fn parsed_json(text: Seq<char>) -> Result<markdown_ppp::ast::Document, Seq<char>>;

/// The tree that serde_yaml reads from a text, or the message of its error.
pub uninterp spec fn parsed_yaml(text: Seq<char>) -> Result<markdown_ppp::ast::Document, Seq<char>>;

/// The decoder's result as a tree or the text of its error.
pub open spec fn decoding_matches(
    r: Result<markdown_ppp::ast::Document, String>,
    named: Result<markdown_ppp::ast::Document, Seq<char>>,
) -> bool {
    match r {
        Ok(d) => named == Ok::<markdown_ppp::ast::Document, Seq<char>>(d),
        Err(m) => named == Err::<markdown_ppp::ast::Document, Seq<char>>(m@),
    }
}

/// The markdown text that markdown-ppp's printer writes for a tree.
pub uninterp spec fn markdown_text_of(
    doc: markdown_ppp::ast::Document,
    width: nat,
    spaces_before_list_item: nat,
    empty_line_before_list: bool,
) -> Seq<char>;

/// The HTML that markdown-ppp's HTML printer writes for a tree.
pub uninterp spec fn html_text_of(
    doc: markdown_ppp::ast::Document,
    width: nat,
    anchor_prefix: Seq<char>,
) -> Seq<char>;

/// The LaTeX that markdown-ppp's LaTeX printer writes for a tree.
pub uninterp spec fn latex_text_of(
    doc: markdown_ppp::ast::Document,
    width: nat,
    table_style: TableStyle,
    code_style: CodeStyle,
) -> Seq<char>;

/// The JSON text that serde_json writes for a tree.
pub uninterp spec fn json_text_of(doc: markdown_ppp::ast::Document) -> Seq<char>;

/// The YAML text that serde_yaml writes for a tree.
pub uninterp spec fn yaml_text_of(doc: markdown_ppp::ast::Document) -> Seq<char>;

/// Relies on markdown_ppp::parser::parse_markdown with the default parser state:
/// a function of the text alone; on failure its error is rendered by `Display`. Its
/// table parser pads or truncates every row to the header row, and the default state
/// stops nesting at 32 levels, so the trees it builds are regular.
#[verifier::external_body]
pub(crate) fn parse_markdown_text(text: &str) -> (r: Result<markdown_ppp::ast::Document, String>)
    ensures
        decoding_matches(r, parsed_markdown(text@)),
        r is Ok ==> document_regular(r->Ok_0),
{
    let state = markdown_ppp::parser::MarkdownParserState::default();
    markdown_ppp::parser::parse_markdown(state, text).map_err(|e| e.to_string())
}

/// Relies on serde_json::from_str for markdown-ppp's tree: a function of the text alone,
/// as is the `Display` text of its error.
#[verifier::external_body]
pub(crate) fn parse_json_text(text: &str) -> (r: Result<markdown_ppp::ast::Document, String>)
    ensures
        decoding_matches(r, parsed_json(text@)),
{
    serde_json::from_str::<markdown_ppp::ast::Document>(text).map_err(|e| e.to_string())
}

/// Relies on serde_yaml::from_str for markdown-ppp's tree: a function of the text alone,
/// as is the `Display` text of its error.
#[verifier::external_body]
pub(crate) fn parse_yaml_text(text: &str) -> (r: Result<markdown_ppp::ast::Document, String>)
    ensures
        decoding_matches(r, parsed_yaml(text@)),
{
    serde_yaml::from_str::<markdown_ppp::ast::Document>(text).map_err(|e| e.to_string())
}

/// Relies on markdown_ppp::printer::render_markdown, given a printer config built
/// from the default by `with_width`, `with_spaces_before_list_item` and
/// `with_empty_line_before_list`: the text depends on the tree and these three values.
/// It fails on a table row with more cells than the header (printer/table.rs), on a
/// block quote that starts less than two columns before the width (printer/blockquote.rs),
/// on an ordered list whose numbers leave `u64` and on list-marker widths that leave
/// `usize` (printer/list.rs), hence the requirement.
#[verifier::external_body]
pub(crate) fn render_markdown_text(
    doc: &markdown_ppp::ast::Document,
    width: usize,
    spaces_before_list_item: usize,
    empty_line_before_list: bool,
) -> (r: String)
    requires
        markdown_printable(*doc, width as nat, spaces_before_list_item as nat),
    ensures
        r@ == markdown_text_of(*doc, width as nat, spaces_before_list_item as nat, empty_line_before_list),
{
    let config = markdown_ppp::printer::config::Config::default()
        .with_width(width)
        .with_spaces_before_list_item(spaces_before_list_item)
        .with_empty_line_before_list(empty_line_before_list);
    markdown_ppp::printer::render_markdown(doc, config)
}

/// Relies on markdown_ppp::html_printer::render_html, given a config built from the
/// default by `with_width` and `with_anchor_prefix` (whose default is the empty prefix).
/// Its table printer takes the first row as the header and fails on a table without
/// rows, hence the requirement.
#[verifier::external_body]
pub(crate) fn render_html_text(doc: &markdown_ppp::ast::Document, width: usize, anchor_prefix: &str) -> (r: String)
    requires
        html_printable(*doc),
    ensures
        r@ == html_text_of(*doc, width as nat, anchor_prefix@),
{
    let config = markdown_ppp::html_printer::config::Config::default()
        .with_width(width)
        .with_anchor_prefix(anchor_prefix.to_string());
    markdown_ppp::html_printer::render_html(doc, config)
}

/// Relies on markdown_ppp::latex_printer::render_latex, given a config built from the
/// default by `with_width`, `with_table_style` and `with_code_block_style`.
#[verifier::external_body]
pub(crate) fn render_latex_text(
    doc: &markdown_ppp::ast::Document,
    width: usize,
    table_style: TableStyle,
    code_style: CodeStyle,
) -> (r: String)
    ensures
        r@ == latex_text_of(*doc, width as nat, table_style, code_style),
{
    let table = match table_style {
        TableStyle::Tabular => latex::TableStyle::Tabular,
        TableStyle::Longtabu => latex::TableStyle::Longtabu,
        TableStyle::Booktabs => latex::TableStyle::Booktabs,
    };
    let code = match code_style {
        CodeStyle::Verbatim => latex::CodeBlockStyle::Verbatim,
        CodeStyle::Listings => latex::CodeBlockStyle::Listings,
        CodeStyle::Minted => latex::CodeBlockStyle::Minted,
    };
    let config = latex::Config::default().with_width(width).with_table_style(table).with_code_block_style(code);
    markdown_ppp::latex_printer::render_latex(doc, config)
}

/// Relies on serde_json::to_string for markdown-ppp's tree: it fails only on a failing
/// `Serialize` impl or a map with non-string keys, and the tree's derived impls have
/// neither; the text depends on the tree alone.
#[verifier::external_body]
pub(crate) fn write_json_text(doc: &markdown_ppp::ast::Document) -> (r: Result<String, String>)
    ensures
        r is Ok,
        r is Ok ==> r->Ok_0@ == json_text_of(*doc),
{
    serde_json::to_string(doc).map_err(|e| e.to_string())
}

/// Relies on serde_yaml::to_string for markdown-ppp's tree: it fails only on an enum
/// variant whose value is itself a non-unit enum variant, and the tree's types hold
/// none; the text depends on the tree alone.
#[verifier::external_body]
pub(crate) fn write_yaml_text(doc: &markdown_ppp::ast::Document) -> (r: Result<String, String>)
    ensures
        r is Ok,
        r is Ok ==> r->Ok_0@ == yaml_text_of(*doc),
{
    serde_yaml::to_string(doc).map_err(|e| e.to_string())
}

} // verus!
