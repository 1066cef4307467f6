use harmoxen::fileops::{Delegate, FileCommand, FileEffect, ProjectFile, ProjectOp};
use std::path::PathBuf;
use std::rc::Rc;

fn path(p: &str) -> Rc<PathBuf> {
    Rc::new(PathBuf::from(p))
}

fn run(
    delegate: &mut Delegate,
    cmd: FileCommand,
    data: &mut ProjectFile,
) -> (Vec<FileEffect>, bool, bool) {
    let mut ctx = Vec::new();
    let mut changed = false;
    let propagate = delegate.handle_fileops(&mut ctx, cmd, data, &mut changed);
    (ctx, changed, propagate)
}

fn clean() -> ProjectFile {
    ProjectFile { up_to_date: true, save_path: None }
}

fn dirty() -> ProjectFile {
    ProjectFile { up_to_date: false, save_path: None }
}

#[test]
fn new_project_on_a_clean_project_starts_at_once() {
    let mut d = Delegate { after_save: None };
    let mut data = clean();
    let (fx, changed, propagate) = run(&mut d, FileCommand::ProjectNew, &mut data);
    assert_eq!(fx, vec![FileEffect::Submit(ProjectOp::New)]);
    assert!(!changed);
    assert!(!propagate);
    assert_eq!(d.after_save, None);
    assert_eq!(data, clean());
}

#[test]
fn open_project_with_unsaved_changes_asks_to_save_first() {
    let mut d = Delegate { after_save: None };
    let mut data = dirty();
    let (fx, _, propagate) = run(&mut d, FileCommand::ProjectOpen, &mut data);
    assert_eq!(fx, vec![FileEffect::AskToSave(ProjectOp::Open)]);
    assert_eq!(d.after_save, Some(ProjectOp::Open));
    assert!(!propagate);
}

#[test]
fn deferred_new_runs_once_after_the_save_dialog() {
    let mut d = Delegate { after_save: None };
    let mut data = dirty();
    run(&mut d, FileCommand::ProjectNew, &mut data);
    let p = path("/tmp/song.hxp");
    let (fx, changed, propagate) = run(&mut d, FileCommand::SaveFile(Some(p.clone())), &mut data);
    assert_eq!(fx, vec![FileEffect::WriteProject(p.clone()), FileEffect::Submit(ProjectOp::New)]);
    assert!(!changed);
    assert!(propagate);
    assert_eq!(d.after_save, None);
    assert_eq!(data, ProjectFile { up_to_date: true, save_path: Some(p.clone()) });
    let (fx, _, _) = run(&mut d, FileCommand::SaveFile(Some(p.clone())), &mut data);
    assert_eq!(fx, vec![FileEffect::WriteProject(p)]);
}

#[test]
fn save_with_a_known_file_writes_there_and_runs_the_deferred_open() {
    let p = path("/music/a.hxp");
    let mut d = Delegate { after_save: Some(ProjectOp::Open) };
    let mut data = ProjectFile { up_to_date: false, save_path: Some(p.clone()) };
    let (fx, changed, propagate) = run(&mut d, FileCommand::ProjectSave, &mut data);
    assert_eq!(fx, vec![FileEffect::WriteProject(p.clone()), FileEffect::Submit(ProjectOp::Open)]);
    assert!(!changed);
    assert!(!propagate);
    assert_eq!(d.after_save, None);
    // saving to the known file does not mark the project as saved
    assert_eq!(data, ProjectFile { up_to_date: false, save_path: Some(p) });
}

#[test]
fn save_writes_to_the_same_file_it_holds() {
    let p = path("/music/b.hxp");
    let mut d = Delegate { after_save: None };
    let mut data = ProjectFile { up_to_date: true, save_path: Some(p.clone()) };
    let (fx, _, _) = run(&mut d, FileCommand::ProjectSave, &mut data);
    match &fx[..] {
        [FileEffect::WriteProject(written)] => assert!(Rc::ptr_eq(written, &p)),
        other => panic!("unexpected effects {:?}", other),
    }
}

#[test]
fn save_without_a_file_shows_the_save_dialog_with_the_default_type() {
    let mut d = Delegate { after_save: Some(ProjectOp::New) };
    let mut data = dirty();
    let (fx, _, propagate) = run(&mut d, FileCommand::ProjectSave, &mut data);
    assert_eq!(fx, vec![FileEffect::ShowSavePanel { default_type: true }]);
    assert_eq!(d.after_save, Some(ProjectOp::New));
    assert!(!propagate);
}

#[test]
fn save_as_shows_the_save_dialog() {
    let mut d = Delegate { after_save: None };
    let mut data = clean();
    let (fx, _, propagate) = run(&mut d, FileCommand::ProjectSaveAs, &mut data);
    assert_eq!(fx, vec![FileEffect::ShowSavePanel { default_type: false }]);
    assert!(!propagate);
}

#[test]
fn new_project_resets_the_file_state_and_forgets_the_deferred_operation() {
    let mut d = Delegate { after_save: Some(ProjectOp::Open) };
    let mut data = ProjectFile { up_to_date: false, save_path: Some(path("/x.hxp")) };
    let (fx, changed, propagate) =
        run(&mut d, FileCommand::ImplProjectNew { fresh: clean() }, &mut data);
    assert_eq!(fx, vec![FileEffect::ResetProject]);
    assert!(changed);
    assert!(!propagate);
    assert_eq!(d.after_save, None);
    assert_eq!(data, clean());
}

#[test]
fn open_dialog_forgets_the_deferred_operation() {
    let mut d = Delegate { after_save: Some(ProjectOp::New) };
    let mut data = dirty();
    let (fx, changed, propagate) = run(&mut d, FileCommand::ImplProjectOpen, &mut data);
    assert_eq!(fx, vec![FileEffect::ShowOpenPanel]);
    assert!(!changed);
    assert!(!propagate);
    assert_eq!(d.after_save, None);
}

#[test]
fn cancelled_save_dialog_changes_nothing() {
    let mut d = Delegate { after_save: Some(ProjectOp::New) };
    let mut data = dirty();
    let (fx, changed, propagate) = run(&mut d, FileCommand::SaveFile(None), &mut data);
    assert!(fx.is_empty());
    assert!(!changed);
    assert!(propagate);
    assert_eq!(d.after_save, Some(ProjectOp::New));
    assert_eq!(data, dirty());
}

#[test]
fn opening_a_project_file_loads_it_and_remembers_the_file() {
    let p = path("/music/c.hxp");
    let mut d = Delegate { after_save: Some(ProjectOp::Open) };
    let mut data = dirty();
    let (fx, changed, propagate) =
        run(&mut d, FileCommand::OpenFile { path: p.clone(), loaded: true }, &mut data);
    assert_eq!(fx, vec![FileEffect::ApplyLoadedProject]);
    assert!(changed);
    assert!(propagate);
    assert_eq!(data, ProjectFile { up_to_date: true, save_path: Some(p.clone()) });
    assert_eq!(d.after_save, Some(ProjectOp::Open));
    let (fx, _, _) = run(&mut d, FileCommand::ProjectSave, &mut data);
    assert_eq!(fx, vec![FileEffect::WriteProject(p), FileEffect::Submit(ProjectOp::Open)]);
}

#[test]
fn unreadable_project_file_changes_nothing() {
    let mut d = Delegate { after_save: None };
    let mut data = dirty();
    let (fx, changed, propagate) =
        run(&mut d, FileCommand::OpenFile { path: path("/bad"), loaded: false }, &mut data);
    assert!(fx.is_empty());
    assert!(!changed);
    assert!(propagate);
    assert_eq!(data, dirty());
}

#[test]
fn project_changed_flag_is_never_cleared() {
    let mut d = Delegate { after_save: None };
    let mut data = clean();
    let mut ctx = Vec::new();
    let mut changed = true;
    let propagate = d.handle_fileops(&mut ctx, FileCommand::Other, &mut data, &mut changed);
    assert!(changed);
    assert!(propagate);
    assert!(ctx.is_empty());
}

#[test]
fn effects_are_appended_after_earlier_ones() {
    let mut d = Delegate { after_save: None };
    let mut data = clean();
    let mut ctx = vec![FileEffect::ShowOpenPanel];
    let mut changed = false;
    d.handle_fileops(&mut ctx, FileCommand::ProjectNew, &mut data, &mut changed);
    assert_eq!(ctx, vec![FileEffect::ShowOpenPanel, FileEffect::Submit(ProjectOp::New)]);
}
