use vstd::prelude::*;
use crate::context::VariableContext;
use crate::filters::FilterScripts;
use crate::render::{
    render_string_gracefully, substitute_filename, template_syntax_error, RenderMode,
};

verus! {

/// The verdict of the inclusion rules on a relative path.
#[derive(PartialEq, Eq, Structural, Clone, Copy, Debug)]
pub enum ShouldInclude {
    Include,
    Exclude,
    Ignore,
}

/// What the walk does with an entry, before any file is read.
#[derive(PartialEq, Eq, Structural, Clone, Copy, Debug)]
pub enum EntryStep {
    /// The entry is a script already used as a filter: it is left alone.
    SkipFilterScript,
    /// An included file: its content is rendered.
    RenderFile,
    /// An included directory: its name is rendered.
    RenameDir,
    /// An excluded entry: its name is rendered, its content is not.
    RelocateExcluded,
    /// An ignored entry: nothing happens.
    Ignore,
}

/// The step for an entry: a recorded filter script is skipped whatever the
/// rules say; otherwise the verdict and the entry's kind decide.
pub open spec fn step_for(is_filter_script: bool, is_file: bool, verdict: ShouldInclude) -> EntryStep {
    if is_filter_script {
        EntryStep::SkipFilterScript
    } else {
        match verdict {
            ShouldInclude::Include => if is_file {
                EntryStep::RenderFile
            } else {
                EntryStep::RenameDir
            },
            ShouldInclude::Exclude => EntryStep::RelocateExcluded,
            ShouldInclude::Ignore => EntryStep::Ignore,
        }
    }
}

/// Chooses the step for the entry at `relative` (a path relative to the
/// generation root).
pub fn plan_entry(
    relative: &str,
    is_file: bool,
    verdict: ShouldInclude,
    filter_scripts: &FilterScripts,
) -> (r: EntryStep)
    ensures
        r == step_for(filter_scripts@.contains(relative@), is_file, verdict),
{
    if filter_scripts.contains(relative) {
        EntryStep::SkipFilterScript
    } else {
        match verdict {
            ShouldInclude::Include => if is_file {
                EntryStep::RenderFile
            } else {
                EntryStep::RenameDir
            },
            ShouldInclude::Exclude => EntryStep::RelocateExcluded,
            ShouldInclude::Ignore => EntryStep::Ignore,
        }
    }
}

/// The files whose content did not render, each with its message, in the
/// order the walk met them.
#[derive(Debug)]
pub struct FileErrors {
    entries: Vec<(String, String)>,
}

impl View for FileErrors {
    type V = Seq<(Seq<char>, Seq<char>)>;

    closed spec fn view(&self) -> Seq<(Seq<char>, Seq<char>)> {
        self.entries@.map_values(|e: (String, String)| (e.0@, e.1@))
    }
}

impl FileErrors {
    /// No error yet.
    pub fn new() -> (r: Self)
        ensures
            r@ == Seq::<(Seq<char>, Seq<char>)>::empty(),
    {
        FileErrors { entries: Vec::new() }
    }

    /// Records a file and its message.
    pub fn push(&mut self, relative: &str, message: String)
        ensures
            final(self)@ == old(self)@.push((relative@, message@)),
    {
        self.entries.push((String::from_str(relative), message));
        proof {
            assert(final(self)@ =~= old(self)@.push((relative@, message@)));
        }
    }

    /// The number of files recorded.
    pub fn len(&self) -> (r: usize)
        ensures
            r == self@.len(),
    {
        self.entries.len()
    }

    /// Whether no file is recorded.
    pub fn is_empty(&self) -> (r: bool)
        ensures
            r == (self@.len() == 0),
    {
        self.entries.len() == 0
    }

    /// The path of the `i`-th file recorded.
    pub fn path(&self, i: usize) -> (r: &str)
        requires
            i < self@.len(),
        ensures
            r@ == self@[i as int].0,
    {
        self.entries[i].0.as_str()
    }

    /// The message of the `i`-th file recorded.
    pub fn message(&self, i: usize) -> (r: &str)
        requires
            i < self@.len(),
        ensures
            r@ == self@[i as int].1,
    {
        self.entries[i].1.as_str()
    }
}

/// What happens to an included file.
#[derive(Debug)]
pub enum FileOutcome {
    /// Its content did not render: it stays where it is, and nothing is written.
    Failed,
    /// The rendered content is written at `dest`; the source is removed where
    /// `dest` differs from it.
    Write { dest: String, content: String, remove_source: bool },
}

/// What becomes of an included file at `relative` whose content rendered to
/// `content` and whose path rendered to `dest`: `content` is written at
/// `dest`, and the source is removed where `dest` differs from it.
pub fn file_outcome(relative: &str, dest: String, content: String) -> (r: FileOutcome)
    ensures
        r == (FileOutcome::Write { dest, content, remove_source: dest@ != relative@ }),
{
    let same = String::from_str(relative).eq(&dest);
    FileOutcome::Write { dest, content, remove_source: !same }
}

/// Renders an included file at `relative` with content `content`. A syntax
/// error adds exactly one record, for `relative`, and writes nothing;
/// otherwise the rendered content goes to the rendered path.
pub fn process_file<F: Fn(String) -> String + Send + Sync + Clone + 'static>(
    context: &VariableContext,
    errors: &mut FileErrors,
    relative: &str,
    content: &str,
    preserve_whitespace: bool,
    script_filter: &F,
) -> (r: FileOutcome)
    requires
        context.wf(),
    ensures
        template_syntax_error(content@) is Some ==> r is Failed && final(errors)@ == old(errors)@.push(
            (relative@, template_syntax_error(content@)->Some_0),
        ),
        template_syntax_error(content@) is None ==> final(errors)@ == old(errors)@ && r is Write
            && r->Write_remove_source == (r->Write_dest@ != relative@),
        template_syntax_error(content@) is None && template_syntax_error(relative@) is Some
            ==> r->Write_dest@ == relative@,
{
    match render_string_gracefully(
        context,
        content,
        preserve_whitespace,
        script_filter,
        RenderMode::CollectErrors,
    ) {
        Err(e) => {
            errors.push(relative, e.message);
            FileOutcome::Failed
        },
        Ok(rendered) => {
            let dest = substitute_filename(context, relative, preserve_whitespace, script_filter);
            file_outcome(relative, dest, rendered)
        },
    }
}

/// What happens to a directory or an excluded file once its name is rendered.
#[derive(Debug)]
pub enum MoveOutcome {
    /// The name is unchanged: nothing happens.
    Stay,
    /// The name changed to `dest`: an excluded file is copied there byte for
    /// byte and removed; a directory, already emptied, is removed.
    Move { dest: String },
}

/// What a rename to `rendered` does to the entry at `relative`: nothing where
/// the name is unchanged, else a move to `rendered`.
pub fn rename_outcome(relative: &str, rendered: String) -> (r: MoveOutcome)
    ensures
        r is Stay <==> rendered@ == relative@,
        r is Move ==> r->Move_dest@ == rendered@,
{
    if String::from_str(relative).eq(&rendered) {
        MoveOutcome::Stay
    } else {
        MoveOutcome::Move { dest: rendered }
    }
}

/// Renders the name of an included directory or of an excluded file at
/// `relative`, and decides whether it moves.
pub fn process_rename<F: Fn(String) -> String + Send + Sync + Clone + 'static>(
    context: &VariableContext,
    relative: &str,
    preserve_whitespace: bool,
    script_filter: &F,
) -> (r: MoveOutcome)
    requires
        context.wf(),
    ensures
        r is Move ==> r->Move_dest@ != relative@,
        template_syntax_error(relative@) is Some ==> r is Stay,
{
    rename_outcome(relative, substitute_filename(context, relative, preserve_whitespace, script_filter))
}

/// The list of files with errors: one line per file, a tab and its path.
pub open spec fn error_list_text(errors: Seq<(Seq<char>, Seq<char>)>) -> Seq<char>
    decreases errors.len(),
{
    if errors.len() == 0 {
        Seq::empty()
    } else {
        error_list_text(errors.drop_last()) + "\t"@ + errors.last().0 + "\n"@
    }
}

/// The end of a walk: success where no file failed, else the list of the
/// files that did.
pub fn finish_walk(errors: &FileErrors) -> (r: Result<(), String>)
    ensures
        r is Ok <==> errors@.len() == 0,
        r is Err ==> r->Err_0@ == error_list_text(errors@),
{
    if errors.is_empty() {
        return Ok(());
    }
    let mut text = String::new();
    let mut i: usize = 0;
    while i < errors.len()
        invariant
            i <= errors@.len(),
            text@ == error_list_text(errors@.subrange(0, i as int)),
        decreases errors@.len() - i,
    {
        text.append("\t");
        text.append(errors.path(i));
        text.append("\n");
        i = i + 1;
        proof {
            assert(errors@.subrange(0, i as int).drop_last() =~= errors@.subrange(0, i - 1));
        }
    }
    proof {
        assert(errors@.subrange(0, i as int) =~= errors@);
    }
    Err(text)
}

} // verus!
