//! The parts of markdown-ppp's syntax tree that the printers depend on: tables,
//! and the blocks that hold other blocks.
use vstd::prelude::*;
use markdown_ppp::ast::{Block, Document, FootnoteDefinition, GitHubAlert, List, ListItem, ListKind, ListOrderedKindOptions, Table};

verus! {

/// markdown-ppp's syntax tree of a document: its top-level blocks.
#[verifier::external_type_specification]
pub struct ExDocument(Document);

/// A block of markdown-ppp's tree.
#[verifier::external_type_specification]
pub struct ExBlock(Block);

/// A list: its kind and its items.
#[verifier::external_type_specification]
pub struct ExList(List);

/// A list item: its task marker and its blocks.
#[verifier::external_type_specification]
pub struct ExListItem(ListItem);

/// A table: rows of cells, the first row being the header, and column alignments.
#[verifier::external_type_specification]
pub struct ExTable(Table);

/// A footnote definition: its label and its blocks.
#[verifier::external_type_specification]
pub struct ExFootnoteDefinition(FootnoteDefinition);

/// A GitHub alert: its type and its blocks.
#[verifier::external_type_specification]
pub struct ExGitHubAlert(GitHubAlert);

/// Inline content, held opaque.
#[verifier::external_type_specification]
#[verifier::external_body]
pub struct ExInline(markdown_ppp::ast::Inline);

/// A heading, held opaque.
#[verifier::external_type_specification]
#[verifier::external_body]
pub struct ExHeading(markdown_ppp::ast::Heading);

/// A code block, held opaque.
#[verifier::external_type_specification]
#[verifier::external_body]
pub struct ExCodeBlock(markdown_ppp::ast::CodeBlock);

/// A link reference definition, held opaque.
#[verifier::external_type_specification]
#[verifier::external_body]
pub struct ExLinkDefinition(markdown_ppp::ast::LinkDefinition);

/// The kind of a list: ordered, with its first number, or bulleted.
#[verifier::external_type_specification]
pub struct ExListKind(ListKind);

/// The options of an ordered list: its first number.
#[verifier::external_type_specification]
pub struct ExListOrderedKindOptions(ListOrderedKindOptions);

/// The bullet of a list, held opaque.
#[verifier::external_type_specification]
#[verifier::external_body]
pub struct ExListBulletKind(markdown_ppp::ast::ListBulletKind);

/// The task marker of a list item, held opaque.
#[verifier::external_type_specification]
#[verifier::external_body]
pub struct ExTaskState(markdown_ppp::ast::TaskState);

/// A column alignment, held opaque.
#[verifier::external_type_specification]
#[verifier::external_body]
pub struct ExAlignment(markdown_ppp::ast::Alignment);

/// The type of a GitHub alert, held opaque.
#[verifier::external_type_specification]
#[verifier::external_body]
pub struct ExGitHubAlertType(markdown_ppp::ast::GitHubAlertType);

/// How deep blocks may nest inside blocks in a document that is printed.
pub const MAX_BLOCK_NESTING: usize = 1024;

/// A table has a header row, and no row has more cells than the header.
pub open spec fn table_regular(t: Table) -> bool {
    &&& t.rows@.len() > 0
    &&& forall|i: int| 0 <= i < t.rows@.len() ==> #[trigger] t.rows@[i]@.len() <= t.rows@[0]@.len()
}

/// Every table in a block is regular, and blocks nest inside it at most `depth` deep.
pub open spec fn block_regular(b: Block, depth: nat) -> bool
    decreases depth,
{
    match b {
        Block::Table(t) => table_regular(t),
        Block::BlockQuote(v) => depth > 0 && forall|i: int|
            0 <= i < v@.len() ==> block_regular(#[trigger] v@[i], (depth - 1) as nat),
        Block::List(l) => depth > 0 && forall|j: int, i: int|
            0 <= j < l.items@.len() && 0 <= i < l.items@[j].blocks@.len()
                ==> block_regular(#[trigger] l.items@[j].blocks@[i], (depth - 1) as nat),
        Block::FootnoteDefinition(f) => depth > 0 && forall|i: int|
            0 <= i < f.blocks@.len() ==> block_regular(#[trigger] f.blocks@[i], (depth - 1) as nat),
        Block::GitHubAlert(g) => depth > 0 && forall|i: int|
            0 <= i < g.blocks@.len() ==> block_regular(#[trigger] g.blocks@[i], (depth - 1) as nat),
        _ => true,
    }
}

/// A document whose tables all have a header row no shorter than their other rows,
/// and whose blocks nest at most `MAX_BLOCK_NESTING` deep: what markdown-ppp's parser builds.
pub open spec fn document_regular(d: Document) -> bool {
    forall|i: int| 0 <= i < d.blocks@.len() ==> block_regular(#[trigger] d.blocks@[i], MAX_BLOCK_NESTING as nat)
}

/// Every table in a block has a header row, and blocks nest inside it at most `depth` deep.
pub open spec fn block_has_headers(b: Block, depth: nat) -> bool
    decreases depth,
{
    match b {
        Block::Table(t) => t.rows@.len() > 0,
        Block::BlockQuote(v) => depth > 0 && forall|i: int|
            0 <= i < v@.len() ==> block_has_headers(#[trigger] v@[i], (depth - 1) as nat),
        Block::List(l) => depth > 0 && forall|j: int, i: int|
            0 <= j < l.items@.len() && 0 <= i < l.items@[j].blocks@.len()
                ==> block_has_headers(#[trigger] l.items@[j].blocks@[i], (depth - 1) as nat),
        Block::FootnoteDefinition(f) => depth > 0 && forall|i: int|
            0 <= i < f.blocks@.len() ==> block_has_headers(#[trigger] f.blocks@[i], (depth - 1) as nat),
        Block::GitHubAlert(g) => depth > 0 && forall|i: int|
            0 <= i < g.blocks@.len() ==> block_has_headers(#[trigger] g.blocks@[i], (depth - 1) as nat),
        _ => true,
    }
}

/// A document that markdown-ppp's HTML printer renders: every table has a header row
/// (blocks nesting at most `MAX_BLOCK_NESTING` deep).
pub open spec fn html_printable(d: Document) -> bool {
    forall|i: int| 0 <= i < d.blocks@.len() ==> block_has_headers(#[trigger] d.blocks@[i], MAX_BLOCK_NESTING as nat)
}

/// A column bound, held at `width` once it passes it: past `width - 2` no block quote fits.
pub open spec fn capped(x: nat, width: nat) -> nat {
    if x > width {
        width
    } else {
        x
    }
}

/// The most a list adds to the column where an item's blocks start: the indent, a
/// marker of at most 20 digits and a dot, a space, and a task box of four characters.
pub open spec fn list_item_column(col: nat, width: nat, spaces: nat) -> nat {
    capped(col + spaces + 26, width)
}

/// The column bound inside a footnote definition, whose first block follows
/// `[^label]: ` (at most four bytes a character).
pub open spec fn footnote_column(col: nat, width: nat, label_len: nat) -> nat {
    capped(col + 5 + 4 * label_len, width)
}

/// An ordered list's numbers, from its first number to one past its last, fit in a `u64`,
/// and the list has a last number.
pub open spec fn list_numbers_fit(l: List) -> bool {
    match l.kind {
        ListKind::Ordered(o) => o.start + l.items@.len() >= 1 && o.start + l.items@.len() <= u64::MAX,
        _ => true,
    }
}

/// A block that markdown-ppp's markdown printer renders at a column at most `col`, with
/// line width `width` and `spaces` before list markers: no table row is longer than its
/// header, a block quote starts at least two columns before the width, an ordered list
/// has numbers that fit, and a list's marker width fits in a `usize`.
pub open spec fn block_printable(b: Block, depth: nat, col: nat, width: nat, spaces: nat) -> bool
    decreases depth,
{
    match b {
        Block::Table(t) => forall|i: int|
            0 <= i < t.rows@.len() ==> #[trigger] t.rows@[i]@.len() <= t.rows@[0]@.len(),
        Block::BlockQuote(v) => depth > 0 && col + 2 <= width && forall|i: int|
            0 <= i < v@.len() ==> block_printable(#[trigger] v@[i], (depth - 1) as nat, 0, width, spaces),
        Block::List(l) => depth > 0 && list_numbers_fit(l) && spaces + 22 <= usize::MAX && forall|j: int, i: int|
            0 <= j < l.items@.len() && 0 <= i < l.items@[j].blocks@.len() ==> block_printable(
                #[trigger] l.items@[j].blocks@[i],
                (depth - 1) as nat,
                list_item_column(col, width, spaces),
                width,
                spaces,
            ),
        Block::FootnoteDefinition(f) => depth > 0 && forall|i: int|
            0 <= i < f.blocks@.len() ==> block_printable(
                #[trigger] f.blocks@[i],
                (depth - 1) as nat,
                footnote_column(col, width, f.label@.len()),
                width,
                spaces,
            ),
        Block::GitHubAlert(g) => depth > 0 && forall|i: int|
            0 <= i < g.blocks@.len() ==> block_printable(#[trigger] g.blocks@[i], (depth - 1) as nat, 0, width, spaces),
        _ => true,
    }
}

/// A document that markdown-ppp's markdown printer renders with this width and these
/// spaces before list markers (blocks nesting at most `MAX_BLOCK_NESTING` deep).
pub open spec fn markdown_printable(d: Document, width: nat, spaces: nat) -> bool {
    forall|i: int| 0 <= i < d.blocks@.len()
        ==> block_printable(#[trigger] d.blocks@[i], MAX_BLOCK_NESTING as nat, 0, width, spaces)
}

/// Decides whether every table in a sequence of blocks has a header row.
pub fn blocks_have_headers(bs: &Vec<Block>, depth: usize) -> (r: bool)
    ensures
        r == forall|i: int| 0 <= i < bs@.len() ==> block_has_headers(#[trigger] bs@[i], depth as nat),
    decreases depth, 1nat,
{
    let mut i: usize = 0;
    while i < bs.len()
        invariant
            i <= bs@.len(),
            forall|k: int| 0 <= k < i ==> block_has_headers(#[trigger] bs@[k], depth as nat),
        decreases bs@.len() - i,
    {
        if !block_has_headers_check(&bs[i], depth) {
            return false;
        }
        i = i + 1;
    }
    true
}

/// Decides whether every table in a block has a header row.
pub fn block_has_headers_check(b: &Block, depth: usize) -> (r: bool)
    ensures
        r == block_has_headers(*b, depth as nat),
    decreases depth, 0nat,
{
    match b {
        Block::Table(t) => t.rows.len() > 0,
        Block::BlockQuote(v) => depth > 0 && blocks_have_headers(v, depth - 1),
        Block::List(l) => {
            if depth == 0 {
                return false;
            }
            let mut j: usize = 0;
            while j < l.items.len()
                invariant
                    depth > 0,
                    *b == Block::List(*l),
                    j <= l.items@.len(),
                    forall|jj: int, i: int| 0 <= jj < j && 0 <= i < l.items@[jj].blocks@.len()
                        ==> block_has_headers(#[trigger] l.items@[jj].blocks@[i], (depth - 1) as nat),
                decreases l.items@.len() - j,
            {
                if !blocks_have_headers(&l.items[j].blocks, depth - 1) {
                    return false;
                }
                j = j + 1;
            }
            true
        },
        Block::FootnoteDefinition(f) => depth > 0 && blocks_have_headers(&f.blocks, depth - 1),
        Block::GitHubAlert(g) => depth > 0 && blocks_have_headers(&g.blocks, depth - 1),
        _ => true,
    }
}

/// Decides whether a document is one that the HTML printer renders.
pub fn html_printable_check(d: &Document) -> (r: bool)
    ensures
        r == html_printable(*d),
{
    blocks_have_headers(&d.blocks, MAX_BLOCK_NESTING)
}

/// `capped(col + extra, width)`, computed without overflow.
fn add_capped(col: usize, extra: u128, width: usize) -> (r: usize)
    requires
        extra <= 0x1_0000_0000_0000_0000_0000_0000_0000,
    ensures
        r == capped(col as nat + extra as nat, width as nat),
{
    let sum: u128 = col as u128 + extra;
    if sum > width as u128 {
        width
    } else {
        sum as usize
    }
}

/// Decides whether no row of a table is longer than its first row.
fn rows_within_header(t: &Table) -> (r: bool)
    ensures
        r == forall|i: int| 0 <= i < t.rows@.len() ==> #[trigger] t.rows@[i]@.len() <= t.rows@[0]@.len(),
{
    let n = t.rows.len();
    if n == 0 {
        return true;
    }
    let header = t.rows[0].len();
    let mut i: usize = 0;
    while i < n
        invariant
            n == t.rows@.len(),
            n > 0,
            header == t.rows@[0]@.len(),
            i <= n,
            forall|k: int| 0 <= k < i ==> #[trigger] t.rows@[k]@.len() <= header,
        decreases n - i,
    {
        if t.rows[i].len() > header {
            return false;
        }
        i = i + 1;
    }
    true
}

/// Decides whether an ordered list's numbers fit.
fn list_numbers_fit_check(l: &List) -> (r: bool)
    ensures
        r == list_numbers_fit(*l),
{
    match &l.kind {
        ListKind::Ordered(o) => {
            let end: u128 = o.start as u128 + l.items.len() as u128;
            end >= 1 && end <= u64::MAX as u128
        },
        _ => true,
    }
}

/// Decides whether every block of a sequence is printable as markdown.
pub fn blocks_printable(bs: &Vec<Block>, depth: usize, col: usize, width: usize, spaces: usize) -> (r: bool)
    ensures
        r == forall|i: int| 0 <= i < bs@.len()
            ==> block_printable(#[trigger] bs@[i], depth as nat, col as nat, width as nat, spaces as nat),
    decreases depth, 1nat,
{
    let mut i: usize = 0;
    while i < bs.len()
        invariant
            i <= bs@.len(),
            forall|k: int| 0 <= k < i
                ==> block_printable(#[trigger] bs@[k], depth as nat, col as nat, width as nat, spaces as nat),
        decreases bs@.len() - i,
    {
        if !block_printable_check(&bs[i], depth, col, width, spaces) {
            return false;
        }
        i = i + 1;
    }
    true
}

/// Decides whether a block is printable as markdown.
pub fn block_printable_check(b: &Block, depth: usize, col: usize, width: usize, spaces: usize) -> (r: bool)
    ensures
        r == block_printable(*b, depth as nat, col as nat, width as nat, spaces as nat),
    decreases depth, 0nat,
{
    match b {
        Block::Table(t) => rows_within_header(t),
        Block::BlockQuote(v) => depth > 0 && (col as u128) + 2 <= width as u128
            && blocks_printable(v, depth - 1, 0, width, spaces),
        Block::List(l) => {
            if depth == 0 || !list_numbers_fit_check(l) || spaces as u128 + 22 > usize::MAX as u128 {
                return false;
            }
            let inner = add_capped(col, spaces as u128 + 26, width);
            let mut j: usize = 0;
            while j < l.items.len()
                invariant
                    depth > 0,
                    *b == Block::List(*l),
                    inner == list_item_column(col as nat, width as nat, spaces as nat),
                    j <= l.items@.len(),
                    forall|jj: int, i: int| 0 <= jj < j && 0 <= i < l.items@[jj].blocks@.len()
                        ==> block_printable(
                            #[trigger] l.items@[jj].blocks@[i],
                            (depth - 1) as nat,
                            inner as nat,
                            width as nat,
                            spaces as nat,
                        ),
                decreases l.items@.len() - j,
            {
                if !blocks_printable(&l.items[j].blocks, depth - 1, inner, width, spaces) {
                    return false;
                }
                j = j + 1;
            }
            true
        },
        Block::FootnoteDefinition(f) => {
            if depth == 0 {
                return false;
            }
            let label_len = f.label.unicode_len();
            let inner = add_capped(col, 5 + 4 * (label_len as u128), width);
            blocks_printable(&f.blocks, depth - 1, inner, width, spaces)
        },
        Block::GitHubAlert(g) => depth > 0 && blocks_printable(&g.blocks, depth - 1, 0, width, spaces),
        _ => true,
    }
}

/// Decides whether a document is one that the markdown printer renders with this width
/// and these spaces before list markers.
pub fn markdown_printable_check(d: &Document, width: usize, spaces: usize) -> (r: bool)
    ensures
        r == markdown_printable(*d, width as nat, spaces as nat),
{
    blocks_printable(&d.blocks, MAX_BLOCK_NESTING, 0, width, spaces)
}

} // verus!
