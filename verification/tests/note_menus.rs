use harmoxen::note_id::NoteId;
use harmoxen::note_menu::{make_note_context_menu, NoteMenuCommand};
use harmoxen::sheet_editor::SheetEvent;

#[test]
fn note_menu_has_add_relative_and_delete() {
    let id = NoteId { index: 5, generation: 1 };
    let menu = make_note_context_menu(id, 3.5f64);
    assert_eq!(menu.len(), 2);
    assert_eq!(menu[0].label, "Add relative note");
    assert_eq!(menu[0].command, NoteMenuCommand::AddRelativeNote { root: id, time: 3.5 });
    assert_eq!(menu[1].label, "Delete note");
    assert_eq!(menu[1].command, NoteMenuCommand::DeleteNote(id));
}

#[test]
fn note_menu_commands_become_editor_events() {
    let id = NoteId { index: 5, generation: 1 };
    let add: SheetEvent<f64, (f64, f64)> =
        NoteMenuCommand::AddRelativeNote { root: id, time: 2.0 }.into_event(true);
    assert_eq!(add, SheetEvent::AddRelativeNote { root: id, time: 2.0, playing: true });
    let delete: SheetEvent<f64, (f64, f64)> = NoteMenuCommand::<f64>::DeleteNote(id).into_event(false);
    assert_eq!(delete, SheetEvent::DeleteNote(id));
}
