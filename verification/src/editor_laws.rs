//! Properties of the sheet editor that span several events.

use vstd::prelude::*;
use crate::edit_action::{action_for, action_note, EditAction, NoteHit};
use crate::note_id::NoteId;
use crate::sheet_editor::{
    grab_effects, hover_differs, sheet_changed_effects, EditorEffect, Pending, Resize, SheetEditor,
    SheetEvent,
};

verus! {

/// The editor waits for an answer only right after asking its question: from
/// an editor that waits for nothing, an event leaves it waiting for a new note
/// exactly when its last effect asks for one, and waiting for the hover
/// exactly when its last effect asks for that.
pub proof fn lemma_waits_only_after_asking<X, P>(editor: SheetEditor<X, P>, ev: SheetEvent<X, P>)
    requires
        editor.pending is Nothing,
    ensures
        ({
            let effects = editor.effects(ev);
            let next = editor.after(ev);
            &&& (next.pending is NewNote) == (effects.len() > 0 && effects.last() is AddNote)
            &&& (next.pending is Hover) == (effects.len() > 0 && effects.last() is ObserveHover)
        }),
{
    let effects = editor.effects(ev);
    match ev {
        SheetEvent::LeftDown { pos, double_click, hit, playing } => {
            if double_click {
                if hit is Some {
                    assert(effects.last() is ShowNoteMenu);
                }
            } else if hit is Some {
                assert(effects.last() == grab_effects::<X, P>(action_for(hit), hit->0.relative, false, playing).last());
            }
        },
        SheetEvent::RightDown { note, playing, .. } => {
            if playing {
                assert(sheet_changed_effects::<X, P>(playing).last() is SubmitSheetChanged);
            }
        },
        SheetEvent::RightMove { pos, playing } => {
            if playing {
                assert(sheet_changed_effects::<X, P>(playing).last() is SubmitSheetChanged);
            }
        },
        SheetEvent::AddRelativeNote { root, time, playing } => {
            if playing {
                assert(sheet_changed_effects::<X, P>(playing).last() is SubmitSheetChanged);
            }
        },
        _ => {},
    }
}

/// An answer that the editor did not ask for changes nothing.
pub proof fn lemma_unasked_answer_is_ignored<X, P>(editor: SheetEditor<X, P>, ev: SheetEvent<X, P>)
    requires
        editor.pending is Nothing,
        ev is NoteAdded || ev is Hovered,
    ensures
        editor.after(ev) == editor,
        editor.effects(ev) == Seq::<EditorEffect<X, P>>::empty(),
{
}

/// A press on empty space asks for a note there, of the editor's note length;
/// once it is added, the editor drags it, holding it at the given grab
/// distance, makes its length the length of new notes, sounds it, captures
/// the mouse, and reports the change of the sheet.
pub proof fn lemma_press_on_empty_space_adds_and_drags_a_note<X, P>(
    editor: SheetEditor<X, P>,
    pos: P,
    playing: bool,
    id: NoteId,
    anchor: X,
    length: X,
    relative: bool,
)
    ensures
        ({
            let press = SheetEvent::LeftDown { pos, double_click: false, hit: None, playing };
            let added = SheetEvent::NoteAdded { id, anchor, length, relative };
            let mid = editor.after(press);
            let last = mid.after(added);
            &&& editor.effects(press) == seq![
                EditorEffect::RequestFocus,
                EditorEffect::AddNote { pos, length: editor.note_len },
            ]
            &&& last.state == EditAction::Moving(id, anchor)
            &&& last.note_len == length
            &&& last.pending is Nothing
            &&& mid.effects(added)[0] == EditorEffect::<X, P>::PlayNote(id)
            &&& mid.effects(added).contains(EditorEffect::SetActive(true))
            &&& mid.effects(added).contains(EditorEffect::UpdateBounds)
            &&& (relative ==> last.interval_input == Some(id))
        }),
{
    let press = SheetEvent::LeftDown { pos, double_click: false, hit: None, playing };
    let added = SheetEvent::NoteAdded { id, anchor, length, relative };
    let mid = editor.after(press);
    let effects = mid.effects(added);
    let head = seq![EditorEffect::<X, P>::PlayNote(id)] + if relative {
        seq![
            EditorEffect::OpenIntervalInput(id),
            EditorEffect::ChildrenChanged,
            EditorEffect::RequestLayout,
        ]
    } else {
        Seq::<EditorEffect<X, P>>::empty()
    };
    assert(effects == head + seq![EditorEffect::SetActive(true)] + sheet_changed_effects::<X, P>(playing));
    assert(effects[head.len() as int] == EditorEffect::<X, P>::SetActive(true));
    assert(effects[head.len() + 2int] == EditorEffect::<X, P>::UpdateBounds);
}

/// A press on a note takes hold of it as the sheet reported it: scaling from
/// its knob or moving it at the grab distance, with its length as the length
/// of new notes; a drag that follows moves that note by that distance.
pub proof fn lemma_press_on_note_grabs_it<X, P>(
    editor: SheetEditor<X, P>,
    pos: P,
    hit: NoteHit<X>,
    playing: bool,
    to: P,
    resize: Option<Resize<X>>,
)
    ensures
        ({
            let press = SheetEvent::LeftDown { pos, double_click: false, hit: Some(hit), playing };
            let held = editor.after(press);
            let drag = SheetEvent::Move { pos: to, left: true, resize, playing };
            &&& held.state == action_for(Some(hit))
            &&& held.note_len == hit.length
            &&& held.pending is Nothing
            &&& (!hit.on_scale_knob ==> held.effects(drag) == seq![
                EditorEffect::SetHandled,
                EditorEffect::MoveNote { id: hit.id, anchor: hit.anchor, pos: to },
                EditorEffect::ObserveHover(to),
            ])
        }),
{
}

/// A double click never starts or changes an edit: it only opens the menu of
/// the note under the cursor.
pub proof fn lemma_double_click_keeps_the_edit<X, P>(
    editor: SheetEditor<X, P>,
    pos: P,
    hit: Option<NoteHit<X>>,
    playing: bool,
)
    ensures
        ({
            let click = SheetEvent::LeftDown { pos, double_click: true, hit, playing };
            let next = editor.after(click);
            &&& next.state == editor.state
            &&& next.hover == editor.hover
            &&& next.note_len == editor.note_len
            &&& next.interval_input == editor.interval_input
            &&& next.prev_mouse_b_pos == editor.prev_mouse_b_pos
            &&& editor.effects(click) == seq![EditorEffect::RequestFocus] + match hit {
                Some(h) => seq![EditorEffect::ShowNoteMenu { id: h.id, pos }],
                None => Seq::<EditorEffect<X, P>>::empty(),
            }
        }),
{
}

/// Releasing the left button ends any edit and any erasing stroke, and stops
/// the sounding note, whatever was under way.
pub proof fn lemma_release_ends_the_edit<X, P>(editor: SheetEditor<X, P>)
    ensures
        editor.after(SheetEvent::LeftUp).state is Idle,
        editor.after(SheetEvent::LeftUp).prev_mouse_b_pos is None,
        editor.effects(SheetEvent::LeftUp).contains(EditorEffect::StopNote),
{
    assert(editor.effects(SheetEvent::LeftUp)[2] == EditorEffect::<X, P>::StopNote);
}

/// After a mouse move and the answer to its question, the hover is the edit a
/// press on the observed note under the cursor would start, and a repaint is
/// asked for when that hover differs from the previous one. A move without
/// the left button changes neither the sheet, the edit, nor the note length.
pub proof fn lemma_move_tracks_the_hover<X, P>(
    editor: SheetEditor<X, P>,
    pos: P,
    left: bool,
    resize: Option<Resize<X>>,
    playing: bool,
    hit: Option<NoteHit<X>>,
    same_anchor: bool,
    moved_relative: bool,
)
    ensures
        ({
            let mv = SheetEvent::Move { pos, left, resize, playing };
            let answer = SheetEvent::Hovered { hit, same_anchor, moved_relative };
            let mid = editor.after(mv);
            let last = mid.after(answer);
            &&& last.hover == action_for(hit)
            &&& last.pending is Nothing
            &&& last.state == editor.state
            &&& (!left ==> editor.effects(mv) == seq![EditorEffect::<X, P>::ObserveHover(pos)])
            &&& (!left ==> last.note_len == editor.note_len)
            &&& (hover_differs(editor.hover, action_for(hit), same_anchor) ==> mid.effects(answer).contains(
                EditorEffect::RequestPaint,
            ))
            &&& (!left ==> mid.effects(answer) == if hover_differs(editor.hover, action_for(hit), same_anchor) {
                seq![EditorEffect::<X, P>::RequestPaint]
            } else {
                Seq::<EditorEffect<X, P>>::empty()
            })
        }),
{
    let mv = SheetEvent::Move { pos, left, resize, playing };
    let answer = SheetEvent::Hovered { hit, same_anchor, moved_relative };
    let mid = editor.after(mv);
    if let Pending::Hover { sheet_changed, moved, playing } = mid.pending {
        let head = match moved {
            Some(id) => seq![EditorEffect::<X, P>::ChangeNoteFreq(id)] + if moved_relative {
                seq![EditorEffect::<X, P>::RequestLayout]
            } else {
                Seq::<EditorEffect<X, P>>::empty()
            },
            None => Seq::<EditorEffect<X, P>>::empty(),
        };
        if hover_differs(editor.hover, action_for(hit), same_anchor) {
            assert(mid.effects(answer)[head.len() as int] == EditorEffect::<X, P>::RequestPaint);
        }
        if !left {
            assert(mid.effects(answer) =~= if hover_differs(editor.hover, action_for(hit), same_anchor) {
                seq![EditorEffect::<X, P>::RequestPaint]
            } else {
                Seq::<EditorEffect<X, P>>::empty()
            });
        }
    }
}

/// A right press closes the interval box and erases the note under it; on
/// empty space it starts an erasing stroke, and a move with the button held
/// erases along the segment from the press and continues from the new point.
pub proof fn lemma_right_button_erases<X, P>(
    editor: SheetEditor<X, P>,
    pos: P,
    to: P,
    playing: bool,
)
    ensures
        ({
            let press = SheetEvent::RightDown { pos, note: None, playing };
            let stroke = SheetEvent::RightMove { pos: to, playing };
            let mid = editor.after(press);
            &&& mid.interval_input is None
            &&& mid.effects(stroke) == seq![EditorEffect::RemoveNotesAlong { from: pos, to }]
                + sheet_changed_effects::<X, P>(playing)
            &&& mid.after(stroke).prev_mouse_b_pos == Some(to)
        }),
{
}

/// A right press on a note removes that note and closes the interval box.
pub proof fn lemma_right_press_removes_the_note<X, P>(
    editor: SheetEditor<X, P>,
    pos: P,
    id: NoteId,
    playing: bool,
)
    ensures
        ({
            let press = SheetEvent::RightDown { pos, note: Some(id), playing };
            &&& editor.after(press).interval_input is None
            &&& editor.effects(press).contains(EditorEffect::RemoveNote(id))
            &&& editor.after(press).prev_mouse_b_pos == editor.prev_mouse_b_pos
        }),
{
    let press = SheetEvent::RightDown { pos, note: Some(id), playing };
    assert(editor.effects(press)[1] == EditorEffect::<X, P>::RemoveNote(id));
}

/// The edit under way changes only when the left button takes hold of a note
/// (a press on a note, or the note added by a press on empty space) or is
/// released.
pub proof fn lemma_edit_changes_only_by_press_or_release<X, P>(
    editor: SheetEditor<X, P>,
    ev: SheetEvent<X, P>,
)
    requires
        editor.after(ev).state != editor.state,
    ensures
        (ev matches SheetEvent::LeftDown { double_click: false, hit: Some(_), .. })
            || (ev is NoteAdded && editor.pending is NewNote)
            || ev is LeftUp,
{
}

/// The length given to new notes changes only when a note is taken hold of
/// (it becomes that note's length) or stretched (it becomes the stretched
/// length).
pub proof fn lemma_note_length_follows_the_held_note<X, P>(
    editor: SheetEditor<X, P>,
    ev: SheetEvent<X, P>,
)
    requires
        editor.after(ev).note_len != editor.note_len,
    ensures
        match ev {
            SheetEvent::LeftDown { double_click, hit, .. } => !double_click && hit is Some
                && editor.after(ev).note_len == hit->0.length,
            SheetEvent::NoteAdded { length, .. } => editor.pending is NewNote
                && editor.after(ev).note_len == length,
            SheetEvent::Move { left, resize, .. } => left && editor.state is Scaling && resize is Some
                && editor.after(ev).note_len == resize->0.length,
            _ => false,
        },
{
}

/// A press that takes hold of a note away from its scale knob sounds that
/// note, whether or not its pitch is relative; a relative note also gets its
/// interval box. A press on the scale knob stretches the note and sounds
/// nothing.
pub proof fn lemma_press_on_a_note_sounds_it<X, P>(
    editor: SheetEditor<X, P>,
    pos: P,
    h: NoteHit<X>,
    playing: bool,
)
    ensures
        ({
            let press = SheetEvent::LeftDown { pos, double_click: false, hit: Some(h), playing };
            let effects = editor.effects(press);
            let next = editor.after(press);
            &&& !h.on_scale_knob ==> effects.contains(EditorEffect::PlayNote(h.id))
            &&& !h.on_scale_knob ==> next.state == EditAction::Moving(h.id, h.anchor)
            &&& (!h.on_scale_knob && h.relative) ==> effects.contains(EditorEffect::OpenIntervalInput(h.id))
                && next.interval_input == Some(h.id)
            &&& h.on_scale_knob ==> next.state == EditAction::<X>::Scaling(h.id)
                && next.interval_input == editor.interval_input
                && forall|i: int| 0 <= i < effects.len() ==> !(effects[i] is PlayNote)
            &&& effects.contains(EditorEffect::SetActive(true))
        }),
{
    let press = SheetEvent::LeftDown { pos, double_click: false, hit: Some(h), playing };
    let effects = editor.effects(press);
    if !h.on_scale_knob {
        assert(effects[1] == EditorEffect::<X, P>::PlayNote(h.id));
        if h.relative {
            assert(effects[2] == EditorEffect::<X, P>::OpenIntervalInput(h.id));
            assert(effects[5] == EditorEffect::<X, P>::SetActive(true));
        } else {
            assert(effects[2] == EditorEffect::<X, P>::SetActive(true));
        }
    } else {
        assert(effects =~= seq![EditorEffect::<X, P>::RequestFocus, EditorEffect::SetActive(true)]);
        assert(effects[1] == EditorEffect::<X, P>::SetActive(true));
    }
}

/// Whether the edit under the cursor changed is judged after every mouse
/// move: a hover that works on another note, or is another kind of edit, is
/// repainted, and so is a move of the same note at another grab distance;
/// without the left button held and with the same hover, nothing is done.
pub proof fn lemma_hover_change_repaints<X, P>(
    editor: SheetEditor<X, P>,
    pos: P,
    left: bool,
    resize: Option<Resize<X>>,
    playing: bool,
    hit: Option<NoteHit<X>>,
    same_anchor: bool,
    moved_relative: bool,
)
    ensures
        ({
            let old = editor.hover;
            let new = action_for(hit);
            let mid = editor.after(SheetEvent::Move { pos, left, resize, playing });
            let effects = mid.effects(SheetEvent::Hovered { hit, same_anchor, moved_relative });
            &&& (action_note(old) != action_note(new) || (old is Idle) != (new is Idle)
                || (old is Scaling) != (new is Scaling) || (old is Moving && new is Moving && !same_anchor))
                ==> effects.contains(EditorEffect::RequestPaint)
            &&& (!left && old == new && same_anchor) ==> effects.len() == 0
        }),
{
    let old = editor.hover;
    let new = action_for(hit);
    let mid = editor.after(SheetEvent::Move { pos, left, resize, playing });
    let answer = SheetEvent::Hovered { hit, same_anchor, moved_relative };
    let effects = mid.effects(answer);
    if let Pending::Hover { sheet_changed, moved, playing } = mid.pending {
        let head = match moved {
            Some(id) => seq![EditorEffect::<X, P>::ChangeNoteFreq(id)] + if moved_relative {
                seq![EditorEffect::<X, P>::RequestLayout]
            } else {
                Seq::<EditorEffect<X, P>>::empty()
            },
            None => Seq::<EditorEffect<X, P>>::empty(),
        };
        if hover_differs(old, new, same_anchor) {
            assert(effects[head.len() as int] == EditorEffect::<X, P>::RequestPaint);
        }
    }
}

/// Erasing a note with a right press changes the sheet: a repaint and a new
/// scroll range follow, and the player is told exactly when it is playing.
pub proof fn lemma_right_press_reports_the_erase<X, P>(
    editor: SheetEditor<X, P>,
    pos: P,
    id: NoteId,
    playing: bool,
)
    ensures
        ({
            let effects = editor.effects(SheetEvent::RightDown { pos, note: Some(id), playing });
            &&& effects.contains(EditorEffect::RemoveNote(id))
            &&& effects.contains(EditorEffect::RequestPaint)
            &&& effects.contains(EditorEffect::UpdateBounds)
            &&& effects.contains(EditorEffect::SubmitSheetChanged) == playing
        }),
{
    let effects = editor.effects(SheetEvent::<X, P>::RightDown { pos, note: Some(id), playing });
    assert(effects[1] == EditorEffect::<X, P>::RemoveNote(id));
    assert(effects[3] == EditorEffect::<X, P>::RequestPaint);
    assert(effects[4] == EditorEffect::<X, P>::UpdateBounds);
    if playing {
        assert(effects[5] == EditorEffect::<X, P>::SubmitSheetChanged);
    } else {
        assert(effects =~= seq![
            EditorEffect::<X, P>::CloseIntervalInput,
            EditorEffect::RemoveNote(id),
            EditorEffect::RequestFocus,
            EditorEffect::RequestPaint,
            EditorEffect::UpdateBounds,
        ]);
    }
}

/// Erasing along a right-button stroke changes the sheet: a repaint and a
/// new scroll range follow, and the player is told exactly when it is playing.
pub proof fn lemma_right_stroke_reports_the_erase<X, P>(
    editor: SheetEditor<X, P>,
    from: P,
    to: P,
    playing: bool,
)
    requires
        editor.prev_mouse_b_pos == Some(from),
    ensures
        ({
            let effects = editor.effects(SheetEvent::RightMove { pos: to, playing });
            &&& effects.contains(EditorEffect::RemoveNotesAlong { from, to })
            &&& effects.contains(EditorEffect::RequestPaint)
            &&& effects.contains(EditorEffect::UpdateBounds)
            &&& effects.contains(EditorEffect::SubmitSheetChanged) == playing
        }),
{
    let effects = editor.effects(SheetEvent::<X, P>::RightMove { pos: to, playing });
    assert(effects[0] == EditorEffect::<X, P>::RemoveNotesAlong { from, to });
    assert(effects[1] == EditorEffect::<X, P>::RequestPaint);
    assert(effects[2] == EditorEffect::<X, P>::UpdateBounds);
    if playing {
        assert(effects[3] == EditorEffect::<X, P>::SubmitSheetChanged);
    } else {
        assert(effects =~= seq![
            EditorEffect::<X, P>::RemoveNotesAlong { from, to },
            EditorEffect::RequestPaint,
            EditorEffect::UpdateBounds,
        ]);
    }
}

/// Adding a relative note from the menu changes the sheet: the note is a
/// fifth above its root, of the editor's note length, and a repaint, a new
/// scroll range and, exactly when playing, a message to the player follow.
pub proof fn lemma_relative_note_is_reported<X, P>(
    editor: SheetEditor<X, P>,
    root: NoteId,
    time: X,
    playing: bool,
)
    ensures
        ({
            let effects = editor.effects(SheetEvent::AddRelativeNote { root, time, playing });
            &&& effects.contains(EditorEffect::AddRelativeNote {
                root,
                time,
                length: editor.note_len,
                numerator: 3,
                denominator: 2,
            })
            &&& effects.contains(EditorEffect::RequestPaint)
            &&& effects.contains(EditorEffect::UpdateBounds)
            &&& effects.contains(EditorEffect::SubmitSheetChanged) == playing
        }),
{
    let effects = editor.effects(SheetEvent::<X, P>::AddRelativeNote { root, time, playing });
    let add = EditorEffect::<X, P>::AddRelativeNote {
        root,
        time,
        length: editor.note_len,
        numerator: 3,
        denominator: 2,
    };
    assert(effects[0] == add);
    assert(effects[1] == EditorEffect::<X, P>::RequestPaint);
    assert(effects[2] == EditorEffect::<X, P>::UpdateBounds);
    if playing {
        assert(effects[3] == EditorEffect::<X, P>::SubmitSheetChanged);
    } else {
        assert(effects =~= seq![add, EditorEffect::RequestPaint, EditorEffect::UpdateBounds]);
    }
}

/// The interval box closes only on a right press, and opens only on the
/// relative note taken hold of by a left press: releasing the button or any
/// other event leaves it as it was.
pub proof fn lemma_interval_box_changes_only_by_press<X, P>(
    editor: SheetEditor<X, P>,
    ev: SheetEvent<X, P>,
)
    ensures
        editor.after(ev).interval_input != editor.interval_input ==> {
            ||| ev is RightDown && editor.after(ev).interval_input is None
            ||| (ev matches SheetEvent::LeftDown { double_click: false, hit: Some(h), .. }
                && h.relative && !h.on_scale_knob && editor.after(ev).interval_input == Some(h.id))
            ||| (ev matches SheetEvent::NoteAdded { id, relative: true, .. }
                && editor.pending is NewNote && editor.after(ev).interval_input == Some(id))
        },
        editor.after(SheetEvent::LeftUp).interval_input == editor.interval_input,
{
}

/// The interval box of a relative note stays open after the press that
/// opened it is released, and Return then gives the typed interval to that
/// note.
pub proof fn lemma_return_commits_the_interval_after_release<X, P>(
    editor: SheetEditor<X, P>,
    pos: P,
    h: NoteHit<X>,
    playing: bool,
)
    requires
        h.relative,
        !h.on_scale_knob,
    ensures
        ({
            let pressed = editor.after(SheetEvent::LeftDown { pos, double_click: false, hit: Some(h), playing });
            let released = pressed.after(SheetEvent::LeftUp);
            let effects = released.effects(SheetEvent::KeyReturn);
            &&& released.interval_input == Some(h.id)
            &&& effects.contains(EditorEffect::CommitInterval(h.id))
            &&& effects.contains(EditorEffect::SetHandled)
        }),
{
    let pressed = editor.after(SheetEvent::<X, P>::LeftDown { pos, double_click: false, hit: Some(h), playing });
    let released = pressed.after(SheetEvent::LeftUp);
    let effects = released.effects(SheetEvent::KeyReturn);
    assert(effects[0] == EditorEffect::<X, P>::CommitInterval(h.id));
    assert(effects[3] == EditorEffect::<X, P>::SetHandled);
}

/// Return without an open interval box does nothing.
pub proof fn lemma_return_without_box_does_nothing<X, P>(editor: SheetEditor<X, P>)
    requires
        editor.interval_input is None,
    ensures
        editor.effects(SheetEvent::KeyReturn).len() == 0,
        editor.after(SheetEvent::KeyReturn).state == editor.state,
{
}

/// Releasing the left button ends the edit, releases the mouse, repaints and
/// stops the sounding note.
pub proof fn lemma_release_stops_everything<X, P>(editor: SheetEditor<X, P>)
    ensures
        editor.effects(SheetEvent::LeftUp).contains(EditorEffect::SetActive(false)),
        editor.effects(SheetEvent::LeftUp).contains(EditorEffect::RequestPaint),
        editor.effects(SheetEvent::LeftUp).contains(EditorEffect::StopNote),
        editor.after(SheetEvent::LeftUp).state is Idle,
        editor.after(SheetEvent::LeftUp).hover == editor.hover,
        editor.after(SheetEvent::LeftUp).note_len == editor.note_len,
{
    let effects = editor.effects(SheetEvent::<X, P>::LeftUp);
    assert(effects[0] == EditorEffect::<X, P>::SetActive(false));
    assert(effects[1] == EditorEffect::<X, P>::RequestPaint);
    assert(effects[2] == EditorEffect::<X, P>::StopNote);
}

/// The space bar starts playback when the sheet is not playing and stops it
/// when it is.
pub proof fn lemma_space_toggles_playback<X, P>(editor: SheetEditor<X, P>, playing: bool)
    ensures
        editor.effects(SheetEvent::KeySpace { playing }).contains(EditorEffect::SubmitPlayback(!playing)),
        !editor.effects(SheetEvent::KeySpace { playing }).contains(EditorEffect::SubmitPlayback(playing)),
        editor.after(SheetEvent::KeySpace { playing }).state == editor.state,
{
    let effects = editor.effects(SheetEvent::<X, P>::KeySpace { playing });
    assert(effects =~= seq![EditorEffect::<X, P>::SubmitPlayback(!playing)]);
    assert(effects[0] == EditorEffect::<X, P>::SubmitPlayback(!playing));
}

/// A drag with the left button moves the held note so that it stays held at
/// its grab distance, or stretches the stretched note to the new end and
/// takes the new length as the length of new notes; a drag with nothing held
/// changes no note. Once the hover is observed, a moved note sounds at its
/// new pitch.
pub proof fn lemma_drag_acts_on_the_held_note<X, P>(
    editor: SheetEditor<X, P>,
    pos: P,
    resize: Option<Resize<X>>,
    playing: bool,
    hit: Option<NoteHit<X>>,
    same_anchor: bool,
    moved_relative: bool,
)
    ensures
        ({
            let mv = SheetEvent::Move { pos, left: true, resize, playing };
            let effects = editor.effects(mv);
            let mid = editor.after(mv);
            let answer = mid.effects(SheetEvent::Hovered { hit, same_anchor, moved_relative });
            &&& effects.contains(EditorEffect::SetHandled)
            &&& mid.state == editor.state
            &&& (editor.state matches EditAction::Moving(id, anchor) ==> effects.contains(
                EditorEffect::MoveNote { id, anchor, pos },
            ) && answer.contains(EditorEffect::ChangeNoteFreq(id)) && answer.contains(
                EditorEffect::UpdateBounds,
            ))
            &&& (editor.state matches EditAction::Scaling(id) ==> (resize matches Some(r) ==> effects.contains(
                EditorEffect::ResizeNote { id, time: r.time },
            ) && mid.note_len == r.length && answer.contains(EditorEffect::UpdateBounds)))
            &&& (editor.state is Idle || (editor.state is Scaling && resize is None)) ==> mid.note_len
                == editor.note_len && forall|i: int|
                0 <= i < effects.len() ==> !(effects[i] is MoveNote || effects[i] is ResizeNote)
        }),
{
    let mv = SheetEvent::<X, P>::Move { pos, left: true, resize, playing };
    let effects = editor.effects(mv);
    let mid = editor.after(mv);
    let answer = mid.effects(SheetEvent::Hovered { hit, same_anchor, moved_relative });
    assert(effects[0] == EditorEffect::<X, P>::SetHandled);
    match editor.state {
        EditAction::Moving(id, anchor) => {
            assert(effects[1] == EditorEffect::<X, P>::MoveNote { id, anchor, pos });
            let front = seq![EditorEffect::<X, P>::ChangeNoteFreq(id)] + (if moved_relative {
                seq![EditorEffect::<X, P>::RequestLayout]
            } else {
                Seq::<EditorEffect<X, P>>::empty()
            }) + (if hover_differs(mid.hover, action_for(hit), same_anchor) {
                seq![EditorEffect::<X, P>::RequestPaint]
            } else {
                Seq::<EditorEffect<X, P>>::empty()
            });
            assert(answer =~= front + sheet_changed_effects::<X, P>(playing));
            assert(answer[0] == EditorEffect::<X, P>::ChangeNoteFreq(id));
            assert(answer[front.len() + 1int] == EditorEffect::<X, P>::UpdateBounds);
        },
        EditAction::Scaling(id) => {
            if let Some(r) = resize {
                assert(effects[1] == EditorEffect::<X, P>::ResizeNote { id, time: r.time });
                let front = if hover_differs(mid.hover, action_for(hit), same_anchor) {
                    seq![EditorEffect::<X, P>::RequestPaint]
                } else {
                    Seq::<EditorEffect<X, P>>::empty()
                };
                assert(answer =~= front + sheet_changed_effects::<X, P>(playing));
                assert(answer[front.len() + 1int] == EditorEffect::<X, P>::UpdateBounds);
            } else {
                assert(effects =~= seq![EditorEffect::<X, P>::SetHandled, EditorEffect::ObserveHover(pos)]);
            }
        },
        EditAction::Idle => {
            assert(effects =~= seq![EditorEffect::<X, P>::SetHandled, EditorEffect::ObserveHover(pos)]);
        },
    }
}

/// The note added by a press on empty space changes the sheet: the player is
/// told exactly when the sheet was playing at the press, and a relative note
/// gets its interval box.
pub proof fn lemma_added_note_is_reported<X, P>(
    editor: SheetEditor<X, P>,
    pos: P,
    playing: bool,
    id: NoteId,
    anchor: X,
    length: X,
    relative: bool,
)
    ensures
        ({
            let mid = editor.after(SheetEvent::LeftDown { pos, double_click: false, hit: None, playing });
            let effects = mid.effects(SheetEvent::NoteAdded { id, anchor, length, relative });
            &&& effects.contains(EditorEffect::RequestPaint)
            &&& effects.contains(EditorEffect::SubmitSheetChanged) == playing
            &&& relative ==> effects.contains(EditorEffect::OpenIntervalInput(id))
        }),
{
    let mid = editor.after(SheetEvent::<X, P>::LeftDown { pos, double_click: false, hit: None, playing });
    let effects = mid.effects(SheetEvent::NoteAdded { id, anchor, length, relative });
    let head = seq![EditorEffect::<X, P>::PlayNote(id)] + if relative {
        seq![
            EditorEffect::<X, P>::OpenIntervalInput(id),
            EditorEffect::ChildrenChanged,
            EditorEffect::RequestLayout,
        ]
    } else {
        Seq::<EditorEffect<X, P>>::empty()
    };
    assert(effects =~= head + seq![EditorEffect::<X, P>::SetActive(true)] + sheet_changed_effects::<X, P>(playing));
    assert(effects[head.len() + 1int] == EditorEffect::<X, P>::RequestPaint);
    if relative {
        assert(effects[1] == EditorEffect::<X, P>::OpenIntervalInput(id));
    }
    if playing {
        assert(effects[head.len() + 3int] == EditorEffect::<X, P>::SubmitSheetChanged);
    } else {
        assert forall|i: int| 0 <= i < effects.len() implies effects[i] != EditorEffect::<X, P>::SubmitSheetChanged by {
            if i < head.len() {
                assert(effects[i] == head[i]);
            }
        }
    }
}

/// After dragging a note, the hover answer sounds the note at its new pitch
/// and, when the note's pitch is relative, lays the widget out again so that
/// its interval box follows it.
pub proof fn lemma_moved_note_sounds_and_relayouts<X, P>(
    editor: SheetEditor<X, P>,
    id: NoteId,
    anchor: X,
    pos: P,
    resize: Option<Resize<X>>,
    playing: bool,
    hit: Option<NoteHit<X>>,
    same_anchor: bool,
    moved_relative: bool,
)
    requires
        editor.state == EditAction::Moving(id, anchor),
    ensures
        ({
            let mid = editor.after(SheetEvent::Move { pos, left: true, resize, playing });
            let answer = mid.effects(SheetEvent::Hovered { hit, same_anchor, moved_relative });
            &&& answer[0] == EditorEffect::<X, P>::ChangeNoteFreq(id)
            &&& moved_relative ==> answer[1] == EditorEffect::<X, P>::RequestLayout
        }),
{
}

/// A right press on empty space only closes the interval box, takes the
/// focus and starts an erasing stroke there; a right-button move with no
/// stroke started erases nothing.
pub proof fn lemma_right_press_on_empty_space_starts_a_stroke<X, P>(
    editor: SheetEditor<X, P>,
    pos: P,
    to: P,
    playing: bool,
)
    ensures
        editor.effects(SheetEvent::RightDown { pos, note: None, playing }) == seq![
            EditorEffect::<X, P>::CloseIntervalInput,
            EditorEffect::RequestFocus,
        ],
        editor.after(SheetEvent::RightDown { pos, note: None, playing }).prev_mouse_b_pos == Some(pos),
        editor.after(SheetEvent::RightDown { pos, note: None, playing }).state == editor.state,
        editor.prev_mouse_b_pos is None ==> editor.effects(SheetEvent::RightMove { pos: to, playing }).len() == 0
            && editor.after(SheetEvent::RightMove { pos: to, playing }).prev_mouse_b_pos is None,
{
}

/// A resized window and a redraw request lay the widget out and paint it
/// again, and change nothing else.
pub proof fn lemma_redraw_relayouts_and_repaints<X, P>(editor: SheetEditor<X, P>)
    ensures
        editor.effects(SheetEvent::WindowResized) == seq![
            EditorEffect::<X, P>::RequestLayout,
            EditorEffect::RequestPaint,
        ],
        editor.effects(SheetEvent::Redraw) == seq![EditorEffect::<X, P>::RequestLayout, EditorEffect::RequestPaint],
        editor.after(SheetEvent::WindowResized).state == editor.state,
        editor.after(SheetEvent::Redraw).state == editor.state,
        editor.after(SheetEvent::Redraw).interval_input == editor.interval_input,
{
}

} // verus!
