//! The atomic replacement of a file's content: the new content is written to a
//! temporary sibling, which is then renamed onto the file. The steps are decided
//! here; the caller performs each one and reports whether it succeeded.
use vstd::prelude::*;
use crate::error::{IoStep, ToolError};

verus! {

/// Where an atomic replacement stands.
#[derive(Clone, Copy, Debug, PartialEq, Eq, Structural)]
pub enum WriteStage {
    /// The temporary file is to be written.
    WritingTemporary,
    /// The temporary file holds the new content and is to be renamed onto the target.
    Renaming,
    /// The target holds the new content.
    Done,
    /// A step failed; nothing more is done.
    Failed(IoStep),
}

/// The next file operation to perform.
#[derive(Clone, Debug)]
pub enum FsAction {
    WriteFile { path: String, content: String },
    Rename { from: String, to: String },
    Finish,
    Abort(IoStep),
}

/// The stage that follows a stage once its step succeeded or failed.
pub open spec fn next_stage(stage: WriteStage, ok: bool) -> WriteStage {
    match stage {
        WriteStage::WritingTemporary => if ok {
            WriteStage::Renaming
        } else {
            WriteStage::Failed(IoStep::WriteTemporary)
        },
        WriteStage::Renaming => if ok {
            WriteStage::Done
        } else {
            WriteStage::Failed(IoStep::Rename)
        },
        other => other,
    }
}

/// A file system as a map from paths to contents.
pub type Files = Map<Seq<char>, Seq<char>>;

/// What a stage's step does to the file system. A failed write may leave anything
/// (`partial`) in the file it wrote; a rename is atomic: it happens whole or not at all.
pub open spec fn effect(
    stage: WriteStage,
    target: Seq<char>,
    temporary: Seq<char>,
    content: Seq<char>,
    fs: Files,
    ok: bool,
    partial: Seq<char>,
) -> Files {
    match stage {
        WriteStage::WritingTemporary => if ok {
            fs.insert(temporary, content)
        } else {
            fs.insert(temporary, partial)
        },
        WriteStage::Renaming => if ok && fs.dom().contains(temporary) {
            fs.insert(target, fs[temporary]).remove(temporary)
        } else {
            fs
        },
        _ => fs,
    }
}

/// The stage and the file system after a sequence of step outcomes, each a success
/// flag and what a failed write left behind.
pub open spec fn run_steps(
    stage: WriteStage,
    target: Seq<char>,
    temporary: Seq<char>,
    content: Seq<char>,
    fs: Files,
    outcomes: Seq<(bool, Seq<char>)>,
) -> (WriteStage, Files)
    decreases outcomes.len(),
{
    if outcomes.len() == 0 {
        (stage, fs)
    } else {
        run_steps(
            next_stage(stage, outcomes[0].0),
            target,
            temporary,
            content,
            effect(stage, target, temporary, content, fs, outcomes[0].0, outcomes[0].1),
            outcomes.drop_first(),
        )
    }
}

/// What holds of the file system at each stage of a replacement of `old` by `content`.
pub open spec fn stage_invariant(
    stage: WriteStage,
    target: Seq<char>,
    temporary: Seq<char>,
    content: Seq<char>,
    old_content: Seq<char>,
    fs: Files,
) -> bool {
    &&& fs.dom().contains(target)
    &&& match stage {
        WriteStage::WritingTemporary => fs[target] == old_content,
        WriteStage::Renaming => fs[target] == old_content && fs.dom().contains(temporary)
            && fs[temporary] == content,
        WriteStage::Done => fs[target] == content,
        WriteStage::Failed(_) => fs[target] == old_content,
    }
}

proof fn lemma_steps_keep_invariant(
    stage: WriteStage,
    target: Seq<char>,
    temporary: Seq<char>,
    content: Seq<char>,
    old_content: Seq<char>,
    fs: Files,
    outcomes: Seq<(bool, Seq<char>)>,
)
    requires
        target != temporary,
        stage_invariant(stage, target, temporary, content, old_content, fs),
    ensures
        ({
            let (s, f) = run_steps(stage, target, temporary, content, fs, outcomes);
            stage_invariant(s, target, temporary, content, old_content, f)
        }),
    decreases outcomes.len(),
{
    if outcomes.len() > 0 {
        let fs2 = effect(stage, target, temporary, content, fs, outcomes[0].0, outcomes[0].1);
        let stage2 = next_stage(stage, outcomes[0].0);
        assert(stage_invariant(stage2, target, temporary, content, old_content, fs2));
        lemma_steps_keep_invariant(stage2, target, temporary, content, old_content, fs2, outcomes.drop_first());
    }
}

/// Whatever each step's outcome, the target holds either its old content or the
/// whole new content after every step: the new content once the replacement is
/// done, and the old content whenever a step failed or the replacement is unfinished.
pub proof fn lemma_target_never_partial(
    target: Seq<char>,
    temporary: Seq<char>,
    content: Seq<char>,
    fs: Files,
    outcomes: Seq<(bool, Seq<char>)>,
)
    requires
        target != temporary,
        fs.dom().contains(target),
    ensures
        ({
            let (s, f) = run_steps(WriteStage::WritingTemporary, target, temporary, content, fs, outcomes);
            &&& f.dom().contains(target)
            &&& s == WriteStage::Done ==> f[target] == content
            &&& s != WriteStage::Done ==> f[target] == fs[target]
            &&& s is Failed ==> f[target] == fs[target]
        }),
{
    lemma_steps_keep_invariant(WriteStage::WritingTemporary, target, temporary, content, fs[target], fs, outcomes);
}

/// An atomic replacement of a target file's content in progress.
#[derive(Clone, Debug)]
pub struct AtomicWrite {
    pub target: String,
    pub temporary: String,
    pub content: String,
    pub stage: WriteStage,
}

impl AtomicWrite {
    /// Whether the temporary file is distinct from the target.
    pub open spec fn wf(&self) -> bool {
        self.target@ != self.temporary@
    }

    /// Starts a replacement. A temporary path equal to the target is refused, since
    /// writing it would not leave the target intact.
    pub fn new(target: String, temporary: String, content: String) -> (r: Result<AtomicWrite, ToolError>)
        ensures
            r is Ok <==> target@ != temporary@,
            r matches Ok(w) ==> w.wf() && w.target@ == target@ && w.temporary@ == temporary@
                && w.content@ == content@ && w.stage == WriteStage::WritingTemporary,
            r matches Err(e) ==> e matches ToolError::IoError { path, step, .. }
                && path@ == target@ && step == IoStep::WriteTemporary,
    {
        if crate::text::same_text(target.as_str(), temporary.as_str()) {
            Err(ToolError::IoError {
                path: target,
                step: IoStep::WriteTemporary,
                message: String::from_str("the temporary path is the file itself"),
            })
        } else {
            Ok(AtomicWrite { target, temporary, content, stage: WriteStage::WritingTemporary })
        }
    }

    /// The operation to perform at the current stage.
    pub fn action(&self) -> (r: FsAction)
        ensures
            self.stage == WriteStage::WritingTemporary ==> (r matches FsAction::WriteFile { path, content }
                && path@ == self.temporary@ && content@ == self.content@),
            self.stage == WriteStage::Renaming ==> (r matches FsAction::Rename { from, to }
                && from@ == self.temporary@ && to@ == self.target@),
            self.stage == WriteStage::Done ==> r is Finish,
            self.stage matches WriteStage::Failed(s) ==> (r matches FsAction::Abort(t) && t == s),
    {
        match self.stage {
            WriteStage::WritingTemporary => FsAction::WriteFile {
                path: self.temporary.clone(),
                content: self.content.clone(),
            },
            WriteStage::Renaming => FsAction::Rename { from: self.temporary.clone(), to: self.target.clone() },
            WriteStage::Done => FsAction::Finish,
            WriteStage::Failed(s) => FsAction::Abort(s),
        }
    }

    /// Takes in the outcome of the current step. A failure ends the replacement and
    /// yields an error naming the step that failed and its file: the temporary file for
    /// the write, the target for the rename.
    pub fn on_result(&mut self, outcome: Result<(), String>) -> (r: Option<ToolError>)
        ensures
            final(self).stage == next_stage(old(self).stage, outcome is Ok),
            final(self).target == old(self).target,
            final(self).temporary == old(self).temporary,
            final(self).content == old(self).content,
            r is Some <==> (outcome is Err && (old(self).stage == WriteStage::WritingTemporary
                || old(self).stage == WriteStage::Renaming)),
            r matches Some(ToolError::IoError { path, step, .. }) ==> final(self).stage == WriteStage::Failed(step)
                && (step == IoStep::WriteTemporary ==> path@ == old(self).temporary@)
                && (step == IoStep::Rename ==> path@ == old(self).target@),
            r is Some ==> r->Some_0 is IoError,
    {
        match (self.stage, outcome) {
            (WriteStage::WritingTemporary, Ok(())) => {
                self.stage = WriteStage::Renaming;
                None
            },
            (WriteStage::Renaming, Ok(())) => {
                self.stage = WriteStage::Done;
                None
            },
            (WriteStage::WritingTemporary, Err(message)) => {
                self.stage = WriteStage::Failed(IoStep::WriteTemporary);
                Some(ToolError::IoError { path: self.temporary.clone(), step: IoStep::WriteTemporary, message })
            },
            (WriteStage::Renaming, Err(message)) => {
                self.stage = WriteStage::Failed(IoStep::Rename);
                Some(ToolError::IoError { path: self.target.clone(), step: IoStep::Rename, message })
            },
            _ => None,
        }
    }
}

} // verus!
