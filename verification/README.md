# harmoxen

The decision logic of the Harmoxen sheet editor and of its project file
commands, as a Verus-verified library, with the druid shell around it.

- `src/note_id.rs` — `NoteId`, the plain-value form of the sheet's
  `generational_arena::Index` handles, and the conversions both ways.
- `src/edit_action.rs` — `EditAction` (idle, moving, scaling a note),
  `note_id`, and `get_action`, which turns the note under the cursor into the
  edit a press starts.
- `src/sheet_editor.rs` — `SheetEditor::event`, the editor's step from state
  and input event to next state and an ordered list of effects, specified by
  `SheetEditor::after` and `SheetEditor::effects`. Two effects ask the shell a
  question (`AddNote`, `ObserveHover`); the shell answers with the next event.
- `src/editor_laws.rs` — properties of the editor over several events.
- `src/note_menu.rs` — the menu of a note and the events its entries send.
- `src/fileops.rs` — `Delegate::handle_fileops`: new, open, save and save-as,
  with the operation that waits for a save, and its laws.
- `app/` — the druid widget and delegate that perform the effects, read and
  write project files, and do the floating-point geometry.
- `tests/` — scenarios on concrete values.

Positions and lengths on the sheet are floating-point numbers in the
application; the library is generic in their types (`X` for positions along
the time axis, `P` for points) and only carries them.
