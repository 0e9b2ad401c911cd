//! In-place formatting of markdown files: the canonical rendering of each file,
//! the decision whether to rewrite it, and the steps of an atomic rewrite.
use vstd::prelude::*;
use crate::config::MarkdownConfig;
use crate::engine::{markdown_text_of, render_markdown_text};
use crate::input::InputFormat;
use crate::tree::{markdown_printable, markdown_printable_check};
use crate::error::ToolError;
use crate::text::{ends_with_newline, has_final_newline, same_text};

verus! {

/// The rendering, with a line feed added when the original ended with one and the
/// rendering does not.
pub open spec fn with_trailing_newline(original: Seq<char>, rendered: Seq<char>) -> Seq<char> {
    if ends_with_newline(original) && !ends_with_newline(rendered) {
        rendered.push('\n')
    } else {
        rendered
    }
}

/// The canonical form of a markdown text under a printer configuration, if it parses
/// and the printer renders it with that configuration.
pub open spec fn canonical_text(config: MarkdownConfig, original: Seq<char>) -> Option<Seq<char>> {
    match InputFormat::Markdown.decoded(original) {
        Some(doc) => if !markdown_printable(doc, config.width as nat, config.spaces_before_list_item as nat) {
            None
        } else {
            Some(
            with_trailing_newline(
                original,
                markdown_text_of(
                    doc,
                    config.width as nat,
                    config.spaces_before_list_item as nat,
                    config.empty_line_before_list(),
                ),
            ),
        )},
        None => None,
    }
}

/// Adds the final line feed that the original had and the rendering lacks.
pub fn normalize_trailing_newline(original: &str, rendered: String) -> (r: String)
    ensures
        r@ == with_trailing_newline(original@, rendered@),
{
    let mut out = rendered;
    if has_final_newline(original) && !has_final_newline(out.as_str()) {
        proof {
            reveal_strlit("\n");
        }
        out.append("\n");
        assert(out@ =~= with_trailing_newline(original@, rendered@));
    }
    out
}

/// A text that ends with a line feed keeps exactly one more line feed than a
/// rendering that lacks it, and a text without one gets none added.
pub proof fn lemma_newline_preservation(original: Seq<char>, rendered: Seq<char>)
    ensures
        ends_with_newline(original) && !ends_with_newline(rendered) ==> {
            let r = with_trailing_newline(original, rendered);
            &&& ends_with_newline(r)
            &&& r.drop_last() == rendered
            &&& !ends_with_newline(r.drop_last())
        },
        ends_with_newline(original) ==> ends_with_newline(with_trailing_newline(original, rendered)),
        !ends_with_newline(original) ==> with_trailing_newline(original, rendered) == rendered,
{
    if ends_with_newline(original) && !ends_with_newline(rendered) {
        assert(rendered.push('\n').drop_last() =~= rendered);
    }
}

/// What to do with one file after comparing it with its canonical form.
#[derive(Clone, Debug)]
pub enum FileAction {
    /// The file is already canonical.
    Unchanged,
    /// The file differs from its canonical form; nothing is written.
    NeedsFormatting,
    /// The file is to be replaced by this text.
    Rewrite(String),
}

/// Whether a file with this content and this canonical form needs formatting.
pub open spec fn needs_formatting(original: Seq<char>, canonical: Seq<char>) -> bool {
    original != canonical
}

/// Whether an action writes to the file.
pub open spec fn writes(a: FileAction) -> bool {
    a is Rewrite
}

/// Whether an action reports the file as needing formatting.
pub open spec fn flags(a: FileAction) -> bool {
    a is NeedsFormatting || a is Rewrite
}

/// The action taken on a file: the exact meaning of `Format::decide`.
pub open spec fn action_fits(dry_run: bool, original: Seq<char>, canonical: Seq<char>, a: FileAction) -> bool {
    if !needs_formatting(original, canonical) {
        a is Unchanged
    } else if dry_run {
        a is NeedsFormatting
    } else {
        a matches FileAction::Rewrite(c) && c@ == canonical
    }
}

/// A dry run never writes, and it reports a file exactly when a run that writes, on the
/// same content, rewrites it; such a run writes the canonical form and nothing else.
pub proof fn lemma_dry_run_matches_run(
    original: Seq<char>,
    canonical: Seq<char>,
    preview: FileAction,
    applied: FileAction,
)
    requires
        action_fits(true, original, canonical, preview),
        action_fits(false, original, canonical, applied),
    ensures
        !writes(preview),
        flags(preview) <==> writes(applied),
        flags(preview) <==> flags(applied),
        applied matches FileAction::Rewrite(c) ==> c@ == canonical && c@ != original,
{
}

/// A run of the formatter over a list of files.
#[derive(Clone, Debug)]
pub struct Format {
    pub config: MarkdownConfig,
    pub dry_run: bool,
    pub files: Vec<String>,
}

impl Format {
    /// The canonical form of a file's content.
    pub fn format_content(&self, original: &str) -> (r: Result<String, ToolError>)
        ensures
            r is Ok <==> canonical_text(self.config, original@) is Some,
            r is Ok ==> canonical_text(self.config, original@) == Some(r->Ok_0@),
            InputFormat::Markdown.decoded(original@) is None ==> (r matches Err(ToolError::DecodeError { message })
                && message@ == InputFormat::Markdown.decode_message(original@)),
            InputFormat::Markdown.decoded(original@) is Some && r is Err ==> r->Err_0 is InternalError,
    {
        let doc = InputFormat::Markdown.parse(original)?;
        if !markdown_printable_check(&doc, self.config.width, self.config.spaces_before_list_item) {
            return Err(ToolError::InternalError { message: String::from_str("the document cannot be printed in this target with these options") });
        }
        let rendered = render_markdown_text(
            &doc,
            self.config.width,
            self.config.spaces_before_list_item,
            !self.config.no_empty_line_before_list,
        );
        Ok(normalize_trailing_newline(original, rendered))
    }

    /// Compares a file's content with its canonical form and decides what to do.
    pub fn decide(&self, original: &str, canonical: String) -> (r: FileAction)
        ensures
            action_fits(self.dry_run, original@, canonical@, r),
    {
        if same_text(original, canonical.as_str()) {
            FileAction::Unchanged
        } else if self.dry_run {
            FileAction::NeedsFormatting
        } else {
            FileAction::Rewrite(canonical)
        }
    }

    /// Formats a file's content and decides what to do with the file.
    pub fn plan_file(&self, original: &str) -> (r: Result<FileAction, ToolError>)
        ensures
            r is Ok <==> canonical_text(self.config, original@) is Some,
            r is Ok ==> action_fits(self.dry_run, original@, canonical_text(self.config, original@)->Some_0, r->Ok_0),
            InputFormat::Markdown.decoded(original@) is None ==> (r matches Err(ToolError::DecodeError { message })
                && message@ == InputFormat::Markdown.decode_message(original@)),
            InputFormat::Markdown.decoded(original@) is Some && r is Err ==> r->Err_0 is InternalError,
    {
        let canonical = self.format_content(original)?;
        Ok(self.decide(original, canonical))
    }
}

/// The tally of a formatting run.
#[derive(Clone, Debug)]
pub struct FormatSummary {
    pub dry_run: bool,
    /// The files reported as needing formatting (in a dry run) or rewritten.
    pub flagged: Vec<String>,
    /// The files that could not be processed, with the reason.
    pub failed: Vec<(String, ToolError)>,
}

impl FormatSummary {
    /// An empty tally.
    pub fn new(dry_run: bool) -> (r: FormatSummary)
        ensures
            r.dry_run == dry_run,
            r.flagged@.len() == 0,
            r.failed@.len() == 0,
    {
        FormatSummary { dry_run, flagged: Vec::new(), failed: Vec::new() }
    }

    /// Records a file that was reported or rewritten.
    pub fn record_flagged(&mut self, path: String)
        ensures
            final(self).dry_run == old(self).dry_run,
            final(self).flagged@ == old(self).flagged@.push(path),
            final(self).failed@ == old(self).failed@,
    {
        self.flagged.push(path);
    }

    /// Records a file that could not be processed; the run goes on.
    pub fn record_failure(&mut self, path: String, error: ToolError)
        ensures
            final(self).dry_run == old(self).dry_run,
            final(self).flagged@ == old(self).flagged@,
            final(self).failed@ == old(self).failed@.push((path, error)),
    {
        self.failed.push((path, error));
    }

    /// The exit status of the run: 1 when a dry run found a file to format, else 0.
    /// Failures of single files do not change it.
    pub fn exit_code(&self) -> (r: i32)
        ensures
            r == (if self.dry_run && self.flagged@.len() > 0 { 1i32 } else { 0i32 }),
    {
        if self.dry_run && self.flagged.len() > 0 {
            1
        } else {
            0
        }
    }

    /// Whether a dry run found every file already canonical.
    pub fn all_clean(&self) -> (r: bool)
        ensures
            r == (self.dry_run && self.flagged@.len() == 0),
    {
        self.dry_run && self.flagged.len() == 0
    }
}

} // verus!
