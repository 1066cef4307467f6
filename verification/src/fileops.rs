//! The project file commands: new, open, save and save-as.
//!
//! [`Delegate::handle_fileops`] decides, for one command, what the
//! application does next: which dialogs or commands it raises, where the
//! project is written, and how the project's file state changes. The shell
//! performs the returned [`FileEffect`]s in order.

use vstd::prelude::*;
use std::path::PathBuf;
use std::rc::Rc;

verus! {

/// A file system path, carried opaquely.
#[verifier::external_type_specification]
#[verifier::external_body]
pub struct ExPathBuf(PathBuf);

/// Calls `Rc::clone`, which returns a second pointer to the same value.
#[verifier::external_body]
fn share_path(p: &Rc<PathBuf>) -> (r: Rc<PathBuf>)
    ensures
        r == *p,
{
    Rc::clone(p)
}

/// A project operation that replaces the open project.
#[derive(Clone, Copy, Debug, PartialEq, Eq, Structural)]
pub enum ProjectOp {
    /// Start a new, empty project.
    New,
    /// Pick a project file and open it.
    Open,
}

/// The part of the application state that records where the project lives.
#[derive(Clone, Debug, PartialEq)]
pub struct ProjectFile {
    /// The project has no changes that are not saved.
    pub up_to_date: bool,
    /// The file the project was last saved to or opened from.
    pub save_path: Option<Rc<PathBuf>>,
}

/// The commands that [`Delegate::handle_fileops`] reacts to.
#[derive(Clone, Debug, PartialEq)]
pub enum FileCommand {
    /// The user asked for a new project.
    ProjectNew,
    /// The user asked to open a project.
    ProjectOpen,
    /// The user asked to save the project under a new name.
    ProjectSaveAs,
    /// The user asked to save the project.
    ProjectSave,
    /// Replace the project by a new one, whose file state is `fresh`.
    ImplProjectNew { fresh: ProjectFile },
    /// Show the dialog that picks the project file to open.
    ImplProjectOpen,
    /// The save dialog was closed, with the chosen file, if any.
    SaveFile(Option<Rc<PathBuf>>),
    /// The open dialog picked `path`; `loaded` tells whether the file was read
    /// and holds a project.
    OpenFile { path: Rc<PathBuf>, loaded: bool },
    /// Any other command.
    Other,
}

/// What the shell does on behalf of [`Delegate::handle_fileops`].
#[derive(Clone, Debug, PartialEq)]
pub enum FileEffect {
    /// Submit the command that carries out `op` at once.
    Submit(ProjectOp),
    /// Show the "save changes?" dialog in the main window; `op` follows it.
    AskToSave(ProjectOp),
    /// Show the save dialog for project files; with `default_type` the
    /// project file type is preselected.
    ShowSavePanel { default_type: bool },
    /// Show the open dialog for project files.
    ShowOpenPanel,
    /// Serialise the project and write it to the file.
    WriteProject(Rc<PathBuf>),
    /// Replace the application state by a new project, keeping the main window.
    ResetProject,
    /// Load the project that was read from the chosen file into the editors.
    ApplyLoadedProject,
}

/// The part of the application delegate that handles file commands.
#[derive(Clone, Debug, PartialEq)]
pub struct Delegate {
    /// The operation to carry out once the project has been saved.
    pub after_save: Option<ProjectOp>,
}

/// What the pending operation `after`, if any, submits once a save is done.
pub open spec fn run_after_save(after: Option<ProjectOp>) -> Seq<FileEffect> {
    match after {
        Some(op) => seq![FileEffect::Submit(op)],
        None => seq![],
    }
}

/// An operation that replaces the project: at once if nothing is unsaved,
/// else after asking to save.
pub open spec fn replace_effects(op: ProjectOp, data: ProjectFile) -> Seq<FileEffect> {
    if data.up_to_date {
        seq![FileEffect::Submit(op)]
    } else {
        seq![FileEffect::AskToSave(op)]
    }
}

/// The effects of `cmd`, in the order the shell performs them.
pub open spec fn fileops_effects(
    after: Option<ProjectOp>,
    cmd: FileCommand,
    data: ProjectFile,
) -> Seq<FileEffect> {
    match cmd {
        FileCommand::ProjectNew => replace_effects(ProjectOp::New, data),
        FileCommand::ProjectOpen => replace_effects(ProjectOp::Open, data),
        FileCommand::ProjectSaveAs => seq![FileEffect::ShowSavePanel { default_type: false }],
        FileCommand::ProjectSave => match data.save_path {
            Some(path) => seq![FileEffect::WriteProject(path)] + run_after_save(after),
            None => seq![FileEffect::ShowSavePanel { default_type: true }],
        },
        FileCommand::ImplProjectNew { .. } => seq![FileEffect::ResetProject],
        FileCommand::ImplProjectOpen => seq![FileEffect::ShowOpenPanel],
        FileCommand::SaveFile(Some(path)) => seq![FileEffect::WriteProject(path)] + run_after_save(after),
        FileCommand::OpenFile { loaded: true, .. } => seq![FileEffect::ApplyLoadedProject],
        _ => seq![],
    }
}

/// The pending operation after `cmd`.
pub open spec fn fileops_after_save(
    after: Option<ProjectOp>,
    cmd: FileCommand,
    data: ProjectFile,
) -> Option<ProjectOp> {
    match cmd {
        FileCommand::ProjectNew => if data.up_to_date { after } else { Some(ProjectOp::New) },
        FileCommand::ProjectOpen => if data.up_to_date { after } else { Some(ProjectOp::Open) },
        FileCommand::ProjectSave => if data.save_path is Some { None } else { after },
        FileCommand::ImplProjectNew { .. } => None,
        FileCommand::ImplProjectOpen => None,
        FileCommand::SaveFile(Some(_)) => None,
        _ => after,
    }
}

/// The project's file state after `cmd`.
pub open spec fn fileops_data(cmd: FileCommand, data: ProjectFile) -> ProjectFile {
    match cmd {
        FileCommand::ImplProjectNew { fresh } => fresh,
        FileCommand::SaveFile(Some(path)) => ProjectFile { up_to_date: true, save_path: Some(path) },
        FileCommand::OpenFile { path, loaded: true } => ProjectFile {
            up_to_date: true,
            save_path: Some(path),
        },
        _ => data,
    }
}

/// `cmd` replaces the project that the editors show.
pub open spec fn fileops_changes_project(cmd: FileCommand) -> bool {
    match cmd {
        FileCommand::ImplProjectNew { .. } => true,
        FileCommand::OpenFile { loaded, .. } => loaded,
        _ => false,
    }
}

/// `cmd` is left for the other command handlers to see as well: every command
/// but the user's project commands and the two that carry them out.
pub open spec fn fileops_propagates(cmd: FileCommand) -> bool {
    match cmd {
        FileCommand::SaveFile(_) => true,
        FileCommand::OpenFile { .. } => true,
        FileCommand::Other => true,
        _ => false,
    }
}

/// The user command that asks for `op`.
pub open spec fn request(op: ProjectOp) -> FileCommand {
    match op {
        ProjectOp::New => FileCommand::ProjectNew,
        ProjectOp::Open => FileCommand::ProjectOpen,
    }
}

/// A project with no unsaved changes is replaced at once: the operation is
/// submitted, no save is asked for, and nothing is left waiting.
pub proof fn lemma_clean_project_is_replaced_at_once(
    after: Option<ProjectOp>,
    op: ProjectOp,
    data: ProjectFile,
)
    requires
        data.up_to_date,
    ensures
        fileops_effects(after, request(op), data) == seq![FileEffect::Submit(op)],
        fileops_after_save(after, request(op), data) == after,
        fileops_data(request(op), data) == data,
{
}

/// Asking for a new or another project while changes are unsaved asks to save
/// first; once the save dialog has chosen a file, the project is written there
/// and then the operation is submitted, exactly once.
pub proof fn lemma_replacing_waits_for_the_save(
    after: Option<ProjectOp>,
    op: ProjectOp,
    data: ProjectFile,
    path: Rc<PathBuf>,
)
    requires
        !data.up_to_date,
    ensures
        ({
            let cmd = request(op);
            let after1 = fileops_after_save(after, cmd, data);
            let data1 = fileops_data(cmd, data);
            let save = FileCommand::SaveFile(Some(path));
            let after2 = fileops_after_save(after1, save, data1);
            let data2 = fileops_data(save, data1);
            &&& fileops_effects(after, cmd, data) == seq![FileEffect::AskToSave(op)]
            &&& fileops_effects(after1, save, data1) == seq![
                FileEffect::WriteProject(path),
                FileEffect::Submit(op),
            ]
            &&& after2 is None
            &&& data2 == (ProjectFile { up_to_date: true, save_path: Some(path) })
            &&& fileops_effects(after2, save, data2) == seq![FileEffect::WriteProject(path)]
        }),
{
    let cmd = request(op);
    let after1 = fileops_after_save(after, cmd, data);
    let save = FileCommand::SaveFile(Some(path));
    assert(fileops_effects(after1, save, fileops_data(cmd, data)) =~= seq![
        FileEffect::WriteProject(path),
        FileEffect::Submit(op),
    ]);
    assert(fileops_effects(None, save, fileops_data(save, fileops_data(cmd, data)))
        =~= seq![FileEffect::WriteProject(path)]);
}

/// A project that has a file is saved to that file without a dialog, and an
/// operation that waited for the save is submitted after the write.
pub proof fn lemma_save_writes_to_the_known_file(
    after: Option<ProjectOp>,
    data: ProjectFile,
    path: Rc<PathBuf>,
)
    requires
        data.save_path == Some(path),
    ensures
        fileops_effects(after, FileCommand::ProjectSave, data)
            == seq![FileEffect::WriteProject(path)] + run_after_save(after),
        fileops_after_save(after, FileCommand::ProjectSave, data) is None,
        fileops_data(FileCommand::ProjectSave, data) == data,
{
}

/// The file chosen in the save dialog, and the file a project was opened
/// from, becomes the file that the next save writes to.
pub proof fn lemma_chosen_file_is_remembered(
    after: Option<ProjectOp>,
    data: ProjectFile,
    cmd: FileCommand,
    path: Rc<PathBuf>,
)
    requires
        cmd == FileCommand::SaveFile(Some(path)) || cmd == (FileCommand::OpenFile { path, loaded: true }),
    ensures
        fileops_data(cmd, data).up_to_date,
        fileops_effects(
            fileops_after_save(after, cmd, data),
            FileCommand::ProjectSave,
            fileops_data(cmd, data),
        ) == seq![FileEffect::WriteProject(path)] + run_after_save(fileops_after_save(after, cmd, data)),
{
}

/// A project file that could not be read or parsed changes nothing.
pub proof fn lemma_failed_open_changes_nothing(
    after: Option<ProjectOp>,
    data: ProjectFile,
    path: Rc<PathBuf>,
)
    ensures
        ({
            let cmd = FileCommand::OpenFile { path, loaded: false };
            &&& fileops_effects(after, cmd, data) == Seq::<FileEffect>::empty()
            &&& fileops_after_save(after, cmd, data) == after
            &&& fileops_data(cmd, data) == data
            &&& !fileops_changes_project(cmd)
        }),
{
}

/// Asking for a new or another project never changes the project's file
/// state, unsaved or not: a clean project is replaced at once and nothing
/// waits; a project with unsaved changes asks to save, and the operation waits.
pub proof fn lemma_requests_keep_the_file_state(after: Option<ProjectOp>, op: ProjectOp, data: ProjectFile)
    ensures
        fileops_data(request(op), data) == data,
        !fileops_changes_project(request(op)),
        !fileops_propagates(request(op)),
        data.up_to_date ==> fileops_effects(after, request(op), data) == seq![FileEffect::Submit(op)]
            && fileops_after_save(after, request(op), data) == after,
        !data.up_to_date ==> fileops_effects(after, request(op), data) == seq![FileEffect::AskToSave(op)]
            && fileops_after_save(after, request(op), data) == Some(op),
{
}

/// Unsaved changes become saved only by writing the project to a chosen
/// file, by opening a project file, or by starting a fresh project; the
/// project's file changes only in the same three ways.
pub proof fn lemma_saved_only_by_save_or_open(cmd: FileCommand, data: ProjectFile)
    ensures
        (!data.up_to_date && fileops_data(cmd, data).up_to_date) ==> {
            ||| cmd matches FileCommand::SaveFile(Some(_))
            ||| cmd matches FileCommand::OpenFile { loaded: true, .. }
            ||| cmd matches FileCommand::ImplProjectNew { fresh } && fresh.up_to_date
        },
        fileops_data(cmd, data).save_path != data.save_path ==> {
            ||| cmd matches FileCommand::SaveFile(Some(p)) && fileops_data(cmd, data).save_path == Some(p)
            ||| cmd matches FileCommand::OpenFile { path, loaded: true }
                && fileops_data(cmd, data).save_path == Some(path)
            ||| cmd matches FileCommand::ImplProjectNew { fresh } && fileops_data(cmd, data) == fresh
        },
{
}

/// A waiting operation is submitted only after the project was written, and
/// a new or another project is submitted at once only when nothing is unsaved.
pub proof fn lemma_submit_only_when_safe(after: Option<ProjectOp>, cmd: FileCommand, data: ProjectFile, op: ProjectOp)
    ensures
        fileops_effects(after, cmd, data).contains(FileEffect::Submit(op)) ==> {
            ||| cmd == request(op) && data.up_to_date
            ||| after == Some(op) && fileops_effects(after, cmd, data)[0] is WriteProject
        },
{
    let effects = fileops_effects(after, cmd, data);
    if effects.contains(FileEffect::Submit(op)) {
        let i = choose|i: int| 0 <= i < effects.len() && effects[i] == FileEffect::Submit(op);
        match cmd {
            FileCommand::ProjectNew => {},
            FileCommand::ProjectOpen => {},
            FileCommand::ProjectSave => {},
            FileCommand::SaveFile(Some(_)) => {},
            _ => {
                assert(effects[i] == FileEffect::Submit(op));
            },
        }
    }
}

/// The dialogs: save-as always shows the save dialog; save without a known
/// file shows it with the project type preselected and keeps the waiting
/// operation; the open step shows the open dialog and drops the waiting
/// operation; none of them changes the file state.
pub proof fn lemma_dialogs(after: Option<ProjectOp>, data: ProjectFile)
    ensures
        fileops_effects(after, FileCommand::ProjectSaveAs, data)
            == seq![FileEffect::ShowSavePanel { default_type: false }],
        fileops_after_save(after, FileCommand::ProjectSaveAs, data) == after,
        fileops_data(FileCommand::ProjectSaveAs, data) == data,
        data.save_path is None ==> fileops_effects(after, FileCommand::ProjectSave, data)
            == seq![FileEffect::ShowSavePanel { default_type: true }]
            && fileops_after_save(after, FileCommand::ProjectSave, data) == after,
        fileops_data(FileCommand::ProjectSave, data) == data,
        fileops_effects(after, FileCommand::ImplProjectOpen, data) == seq![FileEffect::ShowOpenPanel],
        fileops_after_save(after, FileCommand::ImplProjectOpen, data) is None,
        fileops_data(FileCommand::ImplProjectOpen, data) == data,
{
}

/// Starting a fresh project resets the project and its file state, drops the
/// waiting operation, and reports that the editors show another project.
pub proof fn lemma_new_project_resets(after: Option<ProjectOp>, data: ProjectFile, fresh: ProjectFile)
    ensures
        fileops_effects(after, FileCommand::ImplProjectNew { fresh }, data) == seq![FileEffect::ResetProject],
        fileops_data(FileCommand::ImplProjectNew { fresh }, data) == fresh,
        fileops_after_save(after, FileCommand::ImplProjectNew { fresh }, data) is None,
        fileops_changes_project(FileCommand::ImplProjectNew { fresh }),
{
}

/// Which commands the editors see change: only a fresh project and an opened
/// project file. Which commands are left for other handlers: the dialog
/// results and every command that is not a project file command.
pub proof fn lemma_command_classes(cmd: FileCommand)
    ensures
        fileops_changes_project(cmd) == (cmd is ImplProjectNew || cmd matches FileCommand::OpenFile {
            loaded: true,
            ..
        }),
        fileops_propagates(cmd) == (cmd is SaveFile || cmd is OpenFile || cmd is Other),
{
}

/// A project file that was read and parsed is loaded into the editors,
/// which now show another project; the waiting operation is kept.
pub proof fn lemma_opened_project_is_loaded(after: Option<ProjectOp>, data: ProjectFile, path: Rc<PathBuf>)
    ensures
        ({
            let cmd = FileCommand::OpenFile { path, loaded: true };
            &&& fileops_effects(after, cmd, data) == seq![FileEffect::ApplyLoadedProject]
            &&& fileops_after_save(after, cmd, data) == after
            &&& fileops_data(cmd, data) == (ProjectFile { up_to_date: true, save_path: Some(path) })
            &&& fileops_changes_project(cmd)
        }),
{
}

impl Delegate {
    /// Handles one project file command.
    ///
    /// The effects are appended to `ctx` in the order the shell performs them;
    /// `data` and `self.after_save` are updated; `project_changed` is set when
    /// the editors now show another project. Returns whether the command is
    /// left for the other handlers.
    pub fn handle_fileops(
        &mut self,
        ctx: &mut Vec<FileEffect>,
        cmd: FileCommand,
        data: &mut ProjectFile,
        project_changed: &mut bool,
    ) -> (propagate: bool)
        ensures
            final(ctx)@ == old(ctx)@ + fileops_effects(old(self).after_save, cmd, *old(data)),
            final(self).after_save == fileops_after_save(old(self).after_save, cmd, *old(data)),
            *final(data) == fileops_data(cmd, *old(data)),
            *final(project_changed) == (*old(project_changed) || fileops_changes_project(cmd)),
            propagate == fileops_propagates(cmd),
    {
        match cmd {
            FileCommand::ProjectNew => {
                self.ask_before_replacing(ctx, ProjectOp::New, data);
                false
            },
            FileCommand::ProjectOpen => {
                self.ask_before_replacing(ctx, ProjectOp::Open, data);
                false
            },
            FileCommand::ProjectSaveAs => {
                ctx.push(FileEffect::ShowSavePanel { default_type: false });
                false
            },
            FileCommand::ProjectSave => {
                match &data.save_path {
                    Some(path) => {
                        ctx.push(FileEffect::WriteProject(share_path(path)));
                        self.finish_save(ctx);
                    },
                    None => {
                        ctx.push(FileEffect::ShowSavePanel { default_type: true });
                    },
                }
                false
            },
            FileCommand::ImplProjectNew { fresh } => {
                ctx.push(FileEffect::ResetProject);
                *data = fresh;
                *project_changed = true;
                self.after_save = None;
                false
            },
            FileCommand::ImplProjectOpen => {
                ctx.push(FileEffect::ShowOpenPanel);
                self.after_save = None;
                false
            },
            FileCommand::SaveFile(chosen) => {
                if let Some(path) = chosen {
                    data.up_to_date = true;
                    data.save_path = Some(share_path(&path));
                    ctx.push(FileEffect::WriteProject(path));
                    self.finish_save(ctx);
                }
                true
            },
            FileCommand::OpenFile { path, loaded } => {
                if loaded {
                    ctx.push(FileEffect::ApplyLoadedProject);
                    data.up_to_date = true;
                    data.save_path = Some(path);
                    *project_changed = true;
                }
                true
            },
            FileCommand::Other => true,
        }
    }

    /// Replaces the project by `op`, asking first to save unsaved changes; in
    /// that case `op` waits for the save.
    fn ask_before_replacing(&mut self, ctx: &mut Vec<FileEffect>, op: ProjectOp, data: &ProjectFile)
        ensures
            final(ctx)@ == old(ctx)@ + replace_effects(op, *data),
            final(self).after_save == if data.up_to_date { old(self).after_save } else { Some(op) },
    {
        if data.up_to_date {
            ctx.push(FileEffect::Submit(op));
        } else {
            ctx.push(FileEffect::AskToSave(op));
            self.after_save = Some(op);
        }
    }

    /// Runs, once, the operation that waited for the save.
    fn finish_save(&mut self, ctx: &mut Vec<FileEffect>)
        ensures
            final(ctx)@ == old(ctx)@ + run_after_save(old(self).after_save),
            final(self).after_save is None,
    {
        if let Some(op) = self.after_save.take() {
            ctx.push(FileEffect::Submit(op));
        }
    }
}

} // verus!
