//! What a press of the left mouse button does to the note under the cursor.

use vstd::prelude::*;
use crate::note_id::NoteId;

verus! {

/// The edit that a left press starts, or that a drag performs.
///
/// `X` is the type of positions along the time axis of the sheet: a move
/// keeps the distance between the cursor and the start of the note it drags.
#[derive(Clone, Copy, Debug, PartialEq)]
pub enum EditAction<X> {
    /// Nothing under the cursor.
    Idle,
    /// Dragging a note; the second field is the distance from the note's
    /// start to the point where it was grabbed.
    Moving(NoteId, X),
    /// Stretching a note from its end.
    Scaling(NoteId),
}

/// The note under the cursor, as the sheet reports it.
#[derive(Clone, Copy, Debug, PartialEq)]
pub struct NoteHit<X> {
    /// The note.
    pub id: NoteId,
    /// The cursor is on the part of the note that resizes it: within the scale
    /// knob at its end, and past sixty percent of its length.
    pub on_scale_knob: bool,
    /// The distance from the note's start to the cursor.
    pub anchor: X,
    /// The note's length.
    pub length: X,
    /// The note's pitch is given relative to another note.
    pub relative: bool,
}

/// The note an edit action works on.
pub open spec fn action_note<X>(action: EditAction<X>) -> Option<NoteId> {
    match action {
        EditAction::Idle => None,
        EditAction::Moving(id, _) => Some(id),
        EditAction::Scaling(id) => Some(id),
    }
}

/// The edit a left press on `hit` starts.
pub open spec fn action_for<X>(hit: Option<NoteHit<X>>) -> EditAction<X> {
    match hit {
        None => EditAction::Idle,
        Some(h) => if h.on_scale_knob {
            EditAction::Scaling(h.id)
        } else {
            EditAction::Moving(h.id, h.anchor)
        },
    }
}

impl<X: Copy> EditAction<X> {
    /// The note this edit works on, if any.
    pub fn note_id(&self) -> (r: Option<NoteId>)
        ensures
            r == action_note(*self),
    {
        match self {
            EditAction::Idle => None,
            EditAction::Moving(id, _) => Some(*id),
            EditAction::Scaling(id) => Some(*id),
        }
    }

    /// This is the idle action.
    pub fn is_idle(&self) -> (r: bool)
        ensures
            r == (*self is Idle),
    {
        match self {
            EditAction::Idle => true,
            _ => false,
        }
    }
}

/// The edit that a left press starts on the note under the cursor: scaling
/// when the cursor is on the note's scale knob, else moving the note, holding
/// it where it was grabbed.
pub fn get_action<X: Copy>(hit: Option<NoteHit<X>>) -> (action: EditAction<X>)
    ensures
        action == action_for(hit),
        action_note(action) == (match hit {
            Some(h) => Some(h.id),
            None => None::<NoteId>,
        }),
{
    match hit {
        None => EditAction::Idle,
        Some(h) => if h.on_scale_knob {
            EditAction::Scaling(h.id)
        } else {
            EditAction::Moving(h.id, h.anchor)
        },
    }
}

/// An edit works on a note exactly when it is not the idle action.
pub proof fn lemma_note_exactly_when_busy<X>(action: EditAction<X>)
    ensures
        (action_note(action) is None) == (action is Idle),
{
}

/// A press on the scale knob of a note stretches that note; a press elsewhere
/// on a note moves it, held at the distance from its start to the cursor; a
/// press on no note starts no edit.
pub proof fn lemma_press_edit_follows_the_hit<X>(hit: Option<NoteHit<X>>)
    ensures
        hit is None ==> action_for(hit) is Idle,
        hit matches Some(h) ==> (h.on_scale_knob ==> action_for(hit) == EditAction::<X>::Scaling(h.id)),
        hit matches Some(h) ==> (!h.on_scale_knob ==> action_for(hit) == EditAction::Moving(h.id, h.anchor)),
        forall|id: NoteId, a: X| action_note(EditAction::Moving(id, a)) == Some(id),
        forall|id: NoteId| action_note(EditAction::<X>::Scaling(id)) == Some(id),
        action_note(EditAction::<X>::Idle) is None,
{
}

} // verus!
