//! Render options for each output target, with their defaults.
use vstd::prelude::*;
use crate::error::ToolError;
use crate::text::{lower_of, lowercase, same_text};

verus! {

/// The width that every printer wraps at unless told otherwise.
pub const DEFAULT_WIDTH: usize = 80;

/// The spaces before a list marker unless told otherwise.
pub const DEFAULT_SPACES_BEFORE_LIST_ITEM: usize = 1;

/// How the LaTeX printer typesets tables.
#[derive(Clone, Copy, Debug, PartialEq, Eq, Structural)]
pub enum TableStyle {
    Tabular,
    Longtabu,
    Booktabs,
}

/// How the LaTeX printer typesets code blocks.
#[derive(Clone, Copy, Debug, PartialEq, Eq, Structural)]
pub enum CodeStyle {
    Verbatim,
    Listings,
    Minted,
}

/// The table style that a lower-case token names.
pub open spec fn table_style_named(s: Seq<char>) -> Option<TableStyle> {
    if s == "tabular"@ {
        Some(TableStyle::Tabular)
    } else if s == "longtabu"@ {
        Some(TableStyle::Longtabu)
    } else if s == "booktabs"@ {
        Some(TableStyle::Booktabs)
    } else {
        None
    }
}

/// The code style that a lower-case token names.
pub open spec fn code_style_named(s: Seq<char>) -> Option<CodeStyle> {
    if s == "verbatim"@ {
        Some(CodeStyle::Verbatim)
    } else if s == "listings"@ {
        Some(CodeStyle::Listings)
    } else if s == "minted"@ {
        Some(CodeStyle::Minted)
    } else {
        None
    }
}

/// The error for a value outside an option's set of values: it names the option, the
/// value, and the values accepted.
pub open spec fn is_invalid_option(e: ToolError, field: Seq<char>, value: Seq<char>, accepted: Seq<char>) -> bool {
    e matches ToolError::InvalidOption { field: f, value: v, accepted: a } && f@ == field && v@ == value
        && a@ == accepted
}

/// The error for a table style outside its set.
pub open spec fn is_invalid_table_style(e: ToolError, value: Seq<char>) -> bool {
    is_invalid_option(e, "table style"@, value, "tabular, longtabu, booktabs"@)
}

/// The error for a code style outside its set.
pub open spec fn is_invalid_code_style(e: ToolError, value: Seq<char>) -> bool {
    is_invalid_option(e, "code style"@, value, "verbatim, listings, minted"@)
}

impl TableStyle {
    /// The style that a lower-case token names, if any.
    pub fn from_lowercase(s: &str) -> (r: Option<TableStyle>)
        ensures
            r == table_style_named(s@),
    {
        if same_text(s, "tabular") {
            Some(TableStyle::Tabular)
        } else if same_text(s, "longtabu") {
            Some(TableStyle::Longtabu)
        } else if same_text(s, "booktabs") {
            Some(TableStyle::Booktabs)
        } else {
            None
        }
    }

    /// The style that a token names, ignoring case.
    pub fn from_str(s: &str) -> (r: Result<TableStyle, ToolError>)
        ensures
            r is Ok <==> table_style_named(lower_of(s@)) is Some,
            r is Ok ==> table_style_named(lower_of(s@)) == Some(r->Ok_0),
            r is Err ==> is_invalid_table_style(r->Err_0, s@),
    {
        let lower = lowercase(s);
        match TableStyle::from_lowercase(lower.as_str()) {
            Some(t) => Ok(t),
            None => Err(ToolError::InvalidOption {
                field: String::from_str("table style"),
                value: String::from_str(s),
                accepted: String::from_str("tabular, longtabu, booktabs"),
            }),
        }
    }
}

impl CodeStyle {
    /// The style that a lower-case token names, if any.
    pub fn from_lowercase(s: &str) -> (r: Option<CodeStyle>)
        ensures
            r == code_style_named(s@),
    {
        if same_text(s, "verbatim") {
            Some(CodeStyle::Verbatim)
        } else if same_text(s, "listings") {
            Some(CodeStyle::Listings)
        } else if same_text(s, "minted") {
            Some(CodeStyle::Minted)
        } else {
            None
        }
    }

    /// The style that a token names, ignoring case.
    pub fn from_str(s: &str) -> (r: Result<CodeStyle, ToolError>)
        ensures
            r is Ok <==> code_style_named(lower_of(s@)) is Some,
            r is Ok ==> code_style_named(lower_of(s@)) == Some(r->Ok_0),
            r is Err ==> is_invalid_code_style(r->Err_0, s@),
    {
        let lower = lowercase(s);
        match CodeStyle::from_lowercase(lower.as_str()) {
            Some(c) => Ok(c),
            None => Err(ToolError::InvalidOption {
                field: String::from_str("code style"),
                value: String::from_str(s),
                accepted: String::from_str("verbatim, listings, minted"),
            }),
        }
    }
}

/// The value of an optional setting, or its default.
pub open spec fn or_default(v: Option<usize>, default: usize) -> usize {
    match v {
        Some(x) => x,
        None => default,
    }
}

/// Options of the markdown printer.
#[derive(Clone, Debug)]
pub struct MarkdownConfig {
    pub width: usize,
    pub spaces_before_list_item: usize,
    pub no_empty_line_before_list: bool,
}

impl MarkdownConfig {
    /// Whether the printer puts an empty line before a list.
    pub open spec fn empty_line_before_list(&self) -> bool {
        !self.no_empty_line_before_list
    }

    /// The options given, with the defaults for those left out.
    pub fn compose(width: Option<usize>, spaces_before_list_item: Option<usize>, no_empty_line_before_list: bool) -> (r: MarkdownConfig)
        ensures
            r.width == or_default(width, DEFAULT_WIDTH),
            r.spaces_before_list_item == or_default(spaces_before_list_item, DEFAULT_SPACES_BEFORE_LIST_ITEM),
            r.no_empty_line_before_list == no_empty_line_before_list,
    {
        MarkdownConfig {
            width: match width { Some(w) => w, None => DEFAULT_WIDTH },
            spaces_before_list_item: match spaces_before_list_item {
                Some(s) => s,
                None => DEFAULT_SPACES_BEFORE_LIST_ITEM,
            },
            no_empty_line_before_list,
        }
    }

    /// All options at their defaults.
    pub fn new() -> (r: MarkdownConfig)
        ensures
            r.width == DEFAULT_WIDTH,
            r.spaces_before_list_item == DEFAULT_SPACES_BEFORE_LIST_ITEM,
            r.empty_line_before_list(),
    {
        MarkdownConfig::compose(None, None, false)
    }
}

/// Options of the HTML printer.
#[derive(Clone, Debug)]
pub struct HtmlConfig {
    pub width: usize,
    pub anchor_prefix: Option<String>,
}

impl HtmlConfig {
    /// The prefix of heading anchors; none given is the empty prefix.
    pub open spec fn prefix(&self) -> Seq<char> {
        match self.anchor_prefix {
            Some(p) => p@,
            None => Seq::empty(),
        }
    }

    /// The prefix of heading anchors as text.
    pub fn prefix_text(&self) -> (r: &str)
        ensures
            r@ == self.prefix(),
    {
        match &self.anchor_prefix {
            Some(p) => p.as_str(),
            None => {
                proof {
                    reveal_strlit("");
                }
                ""
            },
        }
    }

    /// The options given, with the defaults for those left out.
    pub fn compose(width: Option<usize>, anchor_prefix: Option<String>) -> (r: HtmlConfig)
        ensures
            r.width == or_default(width, DEFAULT_WIDTH),
            r.anchor_prefix == anchor_prefix,
    {
        HtmlConfig { width: match width { Some(w) => w, None => DEFAULT_WIDTH }, anchor_prefix }
    }

    /// All options at their defaults.
    pub fn new() -> (r: HtmlConfig)
        ensures
            r.width == DEFAULT_WIDTH,
            r.anchor_prefix is None,
    {
        HtmlConfig::compose(None, None)
    }
}

/// Options of the LaTeX printer.
#[derive(Clone, Debug)]
pub struct LatexConfig {
    pub width: usize,
    pub table_style: TableStyle,
    pub code_style: CodeStyle,
}

impl LatexConfig {
    /// The options given, with the defaults for those left out. A style token outside
    /// its set is refused, the table style first.
    pub fn compose(width: Option<usize>, table_style: Option<&str>, code_style: Option<&str>) -> (r: Result<LatexConfig, ToolError>)
        ensures
            r is Ok <==> (match table_style {
                Some(t) => table_style_named(lower_of(t@)) is Some,
                None => true,
            }) && (match code_style {
                Some(c) => code_style_named(lower_of(c@)) is Some,
                None => true,
            }),
            r is Ok ==> r->Ok_0.width == or_default(width, DEFAULT_WIDTH),
            r is Ok ==> Some(r->Ok_0.table_style) == match table_style {
                Some(t) => table_style_named(lower_of(t@)),
                None => Some(TableStyle::Tabular),
            },
            r is Ok ==> Some(r->Ok_0.code_style) == match code_style {
                Some(c) => code_style_named(lower_of(c@)),
                None => Some(CodeStyle::Verbatim),
            },
            r is Err ==> match table_style {
                Some(t) if table_style_named(lower_of(t@)) is None => is_invalid_table_style(r->Err_0, t@),
                _ => match code_style {
                    Some(c) => is_invalid_code_style(r->Err_0, c@),
                    None => false,
                },
            },
    {
        let table = match table_style {
            Some(t) => TableStyle::from_str(t)?,
            None => TableStyle::Tabular,
        };
        let code = match code_style {
            Some(c) => CodeStyle::from_str(c)?,
            None => CodeStyle::Verbatim,
        };
        Ok(LatexConfig {
            width: match width { Some(w) => w, None => DEFAULT_WIDTH },
            table_style: table,
            code_style: code,
        })
    }

    /// All options at their defaults.
    pub fn new() -> (r: LatexConfig)
        ensures
            r.width == DEFAULT_WIDTH,
            r.table_style == TableStyle::Tabular,
            r.code_style == CodeStyle::Verbatim,
    {
        LatexConfig { width: DEFAULT_WIDTH, table_style: TableStyle::Tabular, code_style: CodeStyle::Verbatim }
    }
}

} // verus!
