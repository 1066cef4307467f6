//! The menu that a double click on a note opens.

use vstd::prelude::*;
use crate::note_id::NoteId;
use crate::sheet_editor::{EditorEffect, SheetEditor, SheetEvent, sheet_changed_effects};

verus! {

/// The command a note menu entry sends to the sheet editor.
#[derive(Clone, Copy, Debug, PartialEq)]
pub enum NoteMenuCommand<X> {
    /// Add a note whose pitch is relative to `root`, starting at `time`.
    AddRelativeNote { root: NoteId, time: X },
    /// Delete the note.
    DeleteNote(NoteId),
}

/// An entry of the note menu.
#[derive(Clone, Debug, PartialEq)]
pub struct NoteMenuItem<X> {
    /// The text of the entry.
    pub label: String,
    /// The command it sends.
    pub command: NoteMenuCommand<X>,
}

/// The editor event that a menu command becomes when it reaches the editor.
pub open spec fn command_event<X, P>(command: NoteMenuCommand<X>, playing: bool) -> SheetEvent<X, P> {
    match command {
        NoteMenuCommand::AddRelativeNote { root, time } => SheetEvent::AddRelativeNote { root, time, playing },
        NoteMenuCommand::DeleteNote(id) => SheetEvent::DeleteNote(id),
    }
}

impl<X: Copy> NoteMenuCommand<X> {
    /// The editor event this command becomes; `playing` tells whether the
    /// sheet is being played back.
    pub fn into_event<P>(self, playing: bool) -> (ev: SheetEvent<X, P>)
        ensures
            ev == command_event::<X, P>(self, playing),
    {
        match self {
            NoteMenuCommand::AddRelativeNote { root, time } => SheetEvent::AddRelativeNote { root, time, playing },
            NoteMenuCommand::DeleteNote(id) => SheetEvent::DeleteNote(id),
        }
    }
}

/// The menu of the note `id`, opened at `time` on the sheet: an entry that
/// adds a note relative to it at that time, and an entry that deletes it.
pub fn make_note_context_menu<X: Copy>(id: NoteId, time: X) -> (menu: Vec<NoteMenuItem<X>>)
    ensures
        menu@.len() == 2,
        menu@[0].label@ == "Add relative note"@,
        menu@[0].command == (NoteMenuCommand::AddRelativeNote { root: id, time }),
        menu@[1].label@ == "Delete note"@,
        menu@[1].command == NoteMenuCommand::<X>::DeleteNote(id),
{
    let mut menu: Vec<NoteMenuItem<X>> = Vec::new();
    menu.push(NoteMenuItem {
        label: "Add relative note".to_owned(),
        command: NoteMenuCommand::AddRelativeNote { root: id, time },
    });
    menu.push(NoteMenuItem { label: "Delete note".to_owned(), command: NoteMenuCommand::DeleteNote(id) });
    menu
}

/// The entries of a note's menu act on that note: the first adds, at the
/// menu's time, a note of the editor's note length a fifth (3/2) above it, and
/// changes the sheet; the second removes it.
pub proof fn lemma_menu_acts_on_its_note<X, P>(
    editor: SheetEditor<X, P>,
    id: NoteId,
    time: X,
    playing: bool,
)
    ensures
        editor.effects(command_event::<X, P>(NoteMenuCommand::AddRelativeNote { root: id, time }, playing))
            == seq![
                EditorEffect::AddRelativeNote {
                    root: id,
                    time,
                    length: editor.note_len,
                    numerator: 3,
                    denominator: 2,
                },
            ]
            + sheet_changed_effects::<X, P>(playing),
        editor.effects(command_event::<X, P>(NoteMenuCommand::DeleteNote(id), playing))
            == seq![EditorEffect::<X, P>::RemoveNote(id)],
{
}

} // verus!
