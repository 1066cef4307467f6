//! The sheet editor: the widget on which notes are placed, moved, stretched
//! and erased with the mouse.
//!
//! [`SheetEditor::event`] is the editor's decision step. It takes one input
//! event, with the facts about the sheet that the shell observed for it, and
//! appends to the context the effects the shell performs, in order. Two
//! effects ask the shell a question whose answer is the next event:
//! [`EditorEffect::AddNote`] is answered by [`SheetEvent::NoteAdded`], and
//! [`EditorEffect::ObserveHover`] by [`SheetEvent::Hovered`].
//!
//! `X` is the type of positions and lengths along the time axis of the sheet,
//! `P` the type of points on the sheet.

use vstd::prelude::*;
use crate::edit_action::{action_for, get_action, EditAction, NoteHit};
use crate::note_id::NoteId;

verus! {

/// A question the editor has asked the shell and waits to have answered.
#[derive(Clone, Copy, Debug, PartialEq, Eq, Structural)]
pub enum Pending {
    /// No question is open.
    Nothing,
    /// A note was asked for at the press position.
    NewNote { playing: bool },
    /// The note under the cursor was asked for after a mouse move.
    Hover { sheet_changed: bool, moved: Option<NoteId>, playing: bool },
}

/// The stretch a drag of the scale knob gives to a note.
#[derive(Clone, Copy, Debug, PartialEq)]
pub struct Resize<X> {
    /// The new end of the note.
    pub time: X,
    /// The new length of the note.
    pub length: X,
}

/// An input event, with what the shell observed on the sheet for it.
/// `playing` tells whether the sheet is being played back.
#[derive(Clone, Copy, Debug, PartialEq)]
pub enum SheetEvent<X, P> {
    /// The left button was pressed at `pos`; `hit` is the note under it.
    LeftDown { pos: P, double_click: bool, hit: Option<NoteHit<X>>, playing: bool },
    /// The note asked for by [`EditorEffect::AddNote`] was added: its id, the
    /// grab distance of a note grabbed at its start, its length, and whether its
    /// pitch is relative.
    NoteAdded { id: NoteId, anchor: X, length: X, relative: bool },
    /// The mouse moved to `pos` without the right button held; `left` tells
    /// whether the left button is held. When the editor is stretching a note,
    /// `resize` is the stretch to `pos` if that ends the note after its start.
    Move { pos: P, left: bool, resize: Option<Resize<X>>, playing: bool },
    /// The answer to [`EditorEffect::ObserveHover`]: the note under the
    /// cursor, on the sheet as the drag left it; whether the grab distance of
    /// the edit a press there would start equals that of the editor's current
    /// hover (when both move the same note); and whether the note moved by the
    /// drag, if any, now has a relative pitch.
    Hovered { hit: Option<NoteHit<X>>, same_anchor: bool, moved_relative: bool },
    /// The left button was released.
    LeftUp,
    /// The right button was pressed at `pos`; `note` is the note under it.
    RightDown { pos: P, note: Option<NoteId>, playing: bool },
    /// The mouse moved to `pos` with the right button held.
    RightMove { pos: P, playing: bool },
    /// The return key was pressed.
    KeyReturn,
    /// The space bar was pressed.
    KeySpace { playing: bool },
    /// The window was resized.
    WindowResized,
    /// The sheet asked to be redrawn, or its layout changed.
    Redraw,
    /// The note menu asked for a note relative to `root`, starting at `time`.
    AddRelativeNote { root: NoteId, time: X, playing: bool },
    /// The note menu asked to delete a note.
    DeleteNote(NoteId),
    /// Any other event.
    Other,
}

/// What the shell does on behalf of the editor.
#[derive(Clone, Copy, Debug, PartialEq)]
pub enum EditorEffect<X, P> {
    /// Take the keyboard focus.
    RequestFocus,
    /// Lay the widget out again.
    RequestLayout,
    /// Paint the widget again.
    RequestPaint,
    /// Mark the event as handled.
    SetHandled,
    /// Capture the mouse (`true`) or release it (`false`).
    SetActive(bool),
    /// The widget's children changed.
    ChildrenChanged,
    /// Show the note menu of `id` at `pos`.
    ShowNoteMenu { id: NoteId, pos: P },
    /// Add a note of `length` at `pos`, quantised to the layout; answer with
    /// [`SheetEvent::NoteAdded`].
    AddNote { pos: P, length: X },
    /// Start sounding the note `id`.
    PlayNote(NoteId),
    /// Change the sounding note to the frequency of `id`.
    ChangeNoteFreq(NoteId),
    /// Stop the sounding note.
    StopNote,
    /// Open the interval box of `id`, filled with that note's interval.
    OpenIntervalInput(NoteId),
    /// Close the interval box.
    CloseIntervalInput,
    /// Give the note `id` the interval typed in the interval box.
    CommitInterval(NoteId),
    /// Let the note `id` end at `time`.
    ResizeNote { id: NoteId, time: X },
    /// Move the note `id` so that it is held `anchor` after its start at
    /// `pos`, quantised to the layout.
    MoveNote { id: NoteId, anchor: X, pos: P },
    /// Find the note under `pos`; answer with [`SheetEvent::Hovered`].
    ObserveHover(P),
    /// Remove the note `id`.
    RemoveNote(NoteId),
    /// Remove the notes that the segment from `from` to `to` crosses.
    RemoveNotesAlong { from: P, to: P },
    /// Add a note at `time`, of `length`, whose pitch is `root`'s times the
    /// ratio `numerator / denominator`.
    AddRelativeNote { root: NoteId, time: X, length: X, numerator: u32, denominator: u32 },
    /// Start (`true`) or stop (`false`) playback.
    SubmitPlayback(bool),
    /// Extend the scrollable range of the sheet to its notes.
    UpdateBounds,
    /// Tell the player that the sheet changed.
    SubmitSheetChanged,
}

/// The state of the sheet editor.
#[derive(Clone, Copy, Debug, PartialEq)]
pub struct SheetEditor<X, P> {
    /// The edit a press at the cursor would start.
    pub hover: EditAction<X>,
    /// The edit under way.
    pub state: EditAction<X>,
    /// The length given to new notes.
    pub note_len: X,
    /// Where the right button last erased, while it is held.
    pub prev_mouse_b_pos: Option<P>,
    /// The note whose interval box is open.
    pub interval_input: Option<NoteId>,
    /// The question waiting for the shell's answer.
    pub pending: Pending,
}

/// The effects that follow a change of the sheet.
pub open spec fn sheet_changed_effects<X, P>(playing: bool) -> Seq<EditorEffect<X, P>> {
    seq![EditorEffect::RequestPaint, EditorEffect::UpdateBounds] + if playing {
        seq![EditorEffect::SubmitSheetChanged]
    } else {
        Seq::<EditorEffect<X, P>>::empty()
    }
}

/// The effects that follow a change of the sheet, if there was one.
pub open spec fn changed_effects<X, P>(changed: bool, playing: bool) -> Seq<EditorEffect<X, P>> {
    if changed {
        sheet_changed_effects(playing)
    } else {
        Seq::<EditorEffect<X, P>>::empty()
    }
}

/// The hover changed in a way that shows: another kind of edit, another note,
/// or another grab distance.
pub open spec fn hover_differs<X>(old: EditAction<X>, new: EditAction<X>, same_anchor: bool) -> bool {
    match (old, new) {
        (EditAction::Idle, EditAction::Idle) => false,
        (EditAction::Scaling(a), EditAction::Scaling(b)) => a != b,
        (EditAction::Moving(a, _), EditAction::Moving(b, _)) => a != b || !same_anchor,
        _ => true,
    }
}

/// The effects of taking hold of a note with `action`.
pub open spec fn grab_effects<X, P>(
    action: EditAction<X>,
    relative: bool,
    changed: bool,
    playing: bool,
) -> Seq<EditorEffect<X, P>> {
    (match action {
        EditAction::Moving(id, _) => seq![EditorEffect::PlayNote(id)] + if relative {
            seq![
                EditorEffect::OpenIntervalInput(id),
                EditorEffect::ChildrenChanged,
                EditorEffect::RequestLayout,
            ]
        } else {
            Seq::<EditorEffect<X, P>>::empty()
        },
        _ => Seq::<EditorEffect<X, P>>::empty(),
    }) + seq![EditorEffect::SetActive(true)] + changed_effects(changed, playing)
}

/// The effects of a mouse move with the left button held, before the hover
/// is observed.
pub open spec fn drag_effects<X, P>(state: EditAction<X>, pos: P, resize: Option<Resize<X>>) -> Seq<
    EditorEffect<X, P>,
> {
    seq![EditorEffect::SetHandled] + match state {
        EditAction::Scaling(id) => match resize {
            Some(r) => seq![EditorEffect::ResizeNote { id, time: r.time }],
            None => Seq::<EditorEffect<X, P>>::empty(),
        },
        EditAction::Moving(id, anchor) => seq![EditorEffect::MoveNote { id, anchor, pos }],
        EditAction::Idle => Seq::<EditorEffect<X, P>>::empty(),
    }
}

/// The sheet changes under a drag in `state`.
pub open spec fn drag_changes_sheet<X>(state: EditAction<X>, resize: Option<Resize<X>>) -> bool {
    match state {
        EditAction::Scaling(_) => resize is Some,
        EditAction::Moving(_, _) => true,
        EditAction::Idle => false,
    }
}

/// The note a drag in `state` moves.
pub open spec fn dragged_note<X>(state: EditAction<X>) -> Option<NoteId> {
    match state {
        EditAction::Moving(id, _) => Some(id),
        _ => None,
    }
}

/// The effects of the answer to [`EditorEffect::ObserveHover`].
pub open spec fn hovered_effects<X, P>(
    old_hover: EditAction<X>,
    hover: EditAction<X>,
    same_anchor: bool,
    moved_relative: bool,
    sheet_changed: bool,
    moved: Option<NoteId>,
    playing: bool,
) -> Seq<EditorEffect<X, P>> {
    (match moved {
        Some(id) => seq![EditorEffect::ChangeNoteFreq(id)] + if moved_relative {
            seq![EditorEffect::RequestLayout]
        } else {
            Seq::<EditorEffect<X, P>>::empty()
        },
        None => Seq::<EditorEffect<X, P>>::empty(),
    }) + (if hover_differs(old_hover, hover, same_anchor) {
        seq![EditorEffect::RequestPaint]
    } else {
        Seq::<EditorEffect<X, P>>::empty()
    }) + changed_effects(sheet_changed, playing)
}

impl<X, P> SheetEditor<X, P> {
    /// The editor after taking hold of a note with `action`.
    pub open spec fn grabbed(self, action: EditAction<X>, length: X, relative: bool) -> Self {
        SheetEditor {
            state: action,
            note_len: length,
            interval_input: match action {
                EditAction::Moving(id, _) => if relative {
                    Some(id)
                } else {
                    self.interval_input
                },
                _ => self.interval_input,
            },
            pending: Pending::Nothing,
            ..self
        }
    }

    /// The editor after `ev`.
    pub open spec fn after(self, ev: SheetEvent<X, P>) -> Self {
        let idle = SheetEditor { pending: Pending::Nothing, ..self };
        match ev {
            SheetEvent::LeftDown { pos, double_click, hit, playing } => if double_click {
                idle
            } else if hit is None {
                SheetEditor { pending: Pending::NewNote { playing }, ..self }
            } else {
                self.grabbed(action_for(hit), hit->0.length, hit->0.relative)
            },
            SheetEvent::NoteAdded { id, anchor, length, relative } => match self.pending {
                Pending::NewNote { .. } => self.grabbed(EditAction::Moving(id, anchor), length, relative),
                _ => self,
            },
            SheetEvent::Move { pos, left, resize, playing } => SheetEditor {
                note_len: if left && self.state is Scaling && resize is Some {
                    resize->0.length
                } else {
                    self.note_len
                },
                pending: Pending::Hover {
                    sheet_changed: left && drag_changes_sheet(self.state, resize),
                    moved: if left { dragged_note(self.state) } else { None },
                    playing,
                },
                ..self
            },
            SheetEvent::Hovered { hit, .. } => match self.pending {
                Pending::Hover { .. } => SheetEditor {
                    hover: action_for(hit),
                    pending: Pending::Nothing,
                    ..self
                },
                _ => self,
            },
            SheetEvent::LeftUp => SheetEditor {
                state: EditAction::Idle,
                prev_mouse_b_pos: None,
                pending: Pending::Nothing,
                ..self
            },
            SheetEvent::RightDown { pos, note, .. } => SheetEditor {
                interval_input: None,
                prev_mouse_b_pos: if note is None {
                    Some(pos)
                } else {
                    self.prev_mouse_b_pos
                },
                pending: Pending::Nothing,
                ..self
            },
            SheetEvent::RightMove { pos, .. } => SheetEditor {
                prev_mouse_b_pos: if self.prev_mouse_b_pos is Some {
                    Some(pos)
                } else {
                    None
                },
                pending: Pending::Nothing,
                ..self
            },
            _ => idle,
        }
    }

    /// The effects of `ev`, in the order the shell performs them.
    pub open spec fn effects(self, ev: SheetEvent<X, P>) -> Seq<EditorEffect<X, P>> {
        match ev {
            SheetEvent::LeftDown { pos, double_click, hit, playing } => seq![
                EditorEffect::RequestFocus,
            ] + if double_click {
                match hit {
                    Some(h) => seq![EditorEffect::ShowNoteMenu { id: h.id, pos }],
                    None => Seq::<EditorEffect<X, P>>::empty(),
                }
            } else {
                match hit {
                    None => seq![EditorEffect::AddNote { pos, length: self.note_len }],
                    Some(h) => grab_effects(action_for(hit), h.relative, false, playing),
                }
            },
            SheetEvent::NoteAdded { id, anchor, relative, .. } => match self.pending {
                Pending::NewNote { playing } => grab_effects(
                    EditAction::Moving(id, anchor),
                    relative,
                    true,
                    playing,
                ),
                _ => Seq::<EditorEffect<X, P>>::empty(),
            },
            SheetEvent::Move { pos, left, resize, .. } => (if left {
                drag_effects(self.state, pos, resize)
            } else {
                Seq::<EditorEffect<X, P>>::empty()
            }) + seq![EditorEffect::ObserveHover(pos)],
            SheetEvent::Hovered { hit, same_anchor, moved_relative } => match self.pending {
                Pending::Hover { sheet_changed, moved, playing } => hovered_effects(
                    self.hover,
                    action_for(hit),
                    same_anchor,
                    moved_relative,
                    sheet_changed,
                    moved,
                    playing,
                ),
                _ => Seq::<EditorEffect<X, P>>::empty(),
            },
            SheetEvent::LeftUp => seq![
                EditorEffect::SetActive(false),
                EditorEffect::RequestPaint,
                EditorEffect::StopNote,
            ],
            SheetEvent::RightDown { note, playing, .. } => seq![EditorEffect::CloseIntervalInput]
                + match note {
                Some(id) => seq![EditorEffect::RemoveNote(id), EditorEffect::RequestFocus]
                    + sheet_changed_effects(playing),
                None => seq![EditorEffect::RequestFocus],
            },
            SheetEvent::RightMove { pos, playing } => match self.prev_mouse_b_pos {
                Some(from) => seq![EditorEffect::RemoveNotesAlong { from, to: pos }]
                    + sheet_changed_effects(playing),
                None => Seq::<EditorEffect<X, P>>::empty(),
            },
            SheetEvent::KeyReturn => match self.interval_input {
                Some(id) => seq![
                    EditorEffect::CommitInterval(id),
                    EditorEffect::RequestLayout,
                    EditorEffect::RequestPaint,
                    EditorEffect::SetHandled,
                ],
                None => Seq::<EditorEffect<X, P>>::empty(),
            },
            SheetEvent::KeySpace { playing } => seq![EditorEffect::SubmitPlayback(!playing)],
            SheetEvent::WindowResized => seq![
                EditorEffect::RequestLayout,
                EditorEffect::RequestPaint,
            ],
            SheetEvent::Redraw => seq![EditorEffect::RequestLayout, EditorEffect::RequestPaint],
            SheetEvent::AddRelativeNote { root, time, playing } => seq![
                EditorEffect::AddRelativeNote {
                    root,
                    time,
                    length: self.note_len,
                    numerator: 3,
                    denominator: 2,
                },
            ] + sheet_changed_effects(playing),
            SheetEvent::DeleteNote(id) => seq![EditorEffect::RemoveNote(id)],
            SheetEvent::Other => Seq::<EditorEffect<X, P>>::empty(),
        }
    }
}

impl<X: Copy, P: Copy> SheetEditor<X, P> {
    /// A new editor: nothing hovered or under way, new notes of
    /// `note_len`, no erasing stroke and no interval box.
    pub fn new(note_len: X) -> (r: Self)
        ensures
            r.hover is Idle,
            r.state is Idle,
            r.note_len == note_len,
            r.prev_mouse_b_pos is None,
            r.interval_input is None,
            r.pending is Nothing,
    {
        SheetEditor {
            hover: EditAction::Idle,
            state: EditAction::Idle,
            note_len,
            prev_mouse_b_pos: None,
            interval_input: None,
            pending: Pending::Nothing,
        }
    }

    /// Handles one event: appends its effects to `ctx` and moves to the
    /// editor's next state.
    pub fn event(&mut self, ctx: &mut Vec<EditorEffect<X, P>>, ev: SheetEvent<X, P>)
        ensures
            final(ctx)@ == old(ctx)@ + old(self).effects(ev),
            *final(self) == old(self).after(ev),
    {
        match ev {
            SheetEvent::LeftDown { pos, double_click, hit, playing } => {
                ctx.push(EditorEffect::RequestFocus);
                if double_click {
                    if let Some(h) = hit {
                        ctx.push(EditorEffect::ShowNoteMenu { id: h.id, pos });
                    }
                    self.pending = Pending::Nothing;
                } else {
                    match hit {
                        None => {
                            ctx.push(EditorEffect::AddNote { pos, length: self.note_len });
                            self.pending = Pending::NewNote { playing };
                        },
                        Some(h) => {
                            let action = get_action(hit);
                            self.grab(ctx, action, h.length, h.relative, false, playing);
                        },
                    }
                }
            },
            SheetEvent::NoteAdded { id, anchor, length, relative } => {
                if let Pending::NewNote { playing } = self.pending {
                    self.grab(ctx, EditAction::Moving(id, anchor), length, relative, true, playing);
                }
            },
            SheetEvent::Move { pos, left, resize, playing } => {
                let mut sheet_changed = false;
                let mut moved: Option<NoteId> = None;
                if left {
                    ctx.push(EditorEffect::SetHandled);
                    match self.state {
                        EditAction::Scaling(id) => {
                            if let Some(r) = resize {
                                ctx.push(EditorEffect::ResizeNote { id, time: r.time });
                                self.note_len = r.length;
                                sheet_changed = true;
                            }
                        },
                        EditAction::Moving(id, anchor) => {
                            ctx.push(EditorEffect::MoveNote { id, anchor, pos });
                            sheet_changed = true;
                            moved = Some(id);
                        },
                        EditAction::Idle => {},
                    }
                }
                ctx.push(EditorEffect::ObserveHover(pos));
                self.pending = Pending::Hover { sheet_changed, moved, playing };
            },
            SheetEvent::Hovered { hit, same_anchor, moved_relative } => {
                if let Pending::Hover { sheet_changed, moved, playing } = self.pending {
                    let hover = get_action(hit);
                    if let Some(id) = moved {
                        ctx.push(EditorEffect::ChangeNoteFreq(id));
                        if moved_relative {
                            ctx.push(EditorEffect::RequestLayout);
                        }
                    }
                    if Self::hover_changed(&self.hover, &hover, same_anchor) {
                        ctx.push(EditorEffect::RequestPaint);
                    }
                    self.hover = hover;
                    self.pending = Pending::Nothing;
                    if sheet_changed {
                        Self::sheet_changed(ctx, playing);
                    }
                }
            },
            SheetEvent::LeftUp => {
                self.state = EditAction::Idle;
                ctx.push(EditorEffect::SetActive(false));
                self.prev_mouse_b_pos = None;
                ctx.push(EditorEffect::RequestPaint);
                ctx.push(EditorEffect::StopNote);
                self.pending = Pending::Nothing;
            },
            SheetEvent::RightDown { pos, note, playing } => {
                self.interval_input = None;
                ctx.push(EditorEffect::CloseIntervalInput);
                match note {
                    Some(id) => {
                        ctx.push(EditorEffect::RemoveNote(id));
                        ctx.push(EditorEffect::RequestFocus);
                        Self::sheet_changed(ctx, playing);
                    },
                    None => {
                        self.prev_mouse_b_pos = Some(pos);
                        ctx.push(EditorEffect::RequestFocus);
                    },
                }
                self.pending = Pending::Nothing;
            },
            SheetEvent::RightMove { pos, playing } => {
                if let Some(from) = self.prev_mouse_b_pos {
                    ctx.push(EditorEffect::RemoveNotesAlong { from, to: pos });
                    self.prev_mouse_b_pos = Some(pos);
                    Self::sheet_changed(ctx, playing);
                }
                self.pending = Pending::Nothing;
            },
            SheetEvent::KeyReturn => {
                if let Some(id) = self.interval_input {
                    ctx.push(EditorEffect::CommitInterval(id));
                    ctx.push(EditorEffect::RequestLayout);
                    ctx.push(EditorEffect::RequestPaint);
                    ctx.push(EditorEffect::SetHandled);
                }
                self.pending = Pending::Nothing;
            },
            SheetEvent::KeySpace { playing } => {
                ctx.push(EditorEffect::SubmitPlayback(!playing));
                self.pending = Pending::Nothing;
            },
            SheetEvent::WindowResized => {
                ctx.push(EditorEffect::RequestLayout);
                ctx.push(EditorEffect::RequestPaint);
                self.pending = Pending::Nothing;
            },
            SheetEvent::Redraw => {
                ctx.push(EditorEffect::RequestLayout);
                ctx.push(EditorEffect::RequestPaint);
                self.pending = Pending::Nothing;
            },
            SheetEvent::AddRelativeNote { root, time, playing } => {
                ctx.push(
                    EditorEffect::AddRelativeNote {
                        root,
                        time,
                        length: self.note_len,
                        numerator: 3,
                        denominator: 2,
                    },
                );
                Self::sheet_changed(ctx, playing);
                self.pending = Pending::Nothing;
            },
            SheetEvent::DeleteNote(id) => {
                ctx.push(EditorEffect::RemoveNote(id));
                self.pending = Pending::Nothing;
            },
            SheetEvent::Other => {
                self.pending = Pending::Nothing;
            },
        }
    }

    /// Takes hold of a note with `action`, which became the edit under way.
    fn grab(
        &mut self,
        ctx: &mut Vec<EditorEffect<X, P>>,
        action: EditAction<X>,
        length: X,
        relative: bool,
        changed: bool,
        playing: bool,
    )
        ensures
            final(ctx)@ == old(ctx)@ + grab_effects(action, relative, changed, playing),
            *final(self) == old(self).grabbed(action, length, relative),
    {
        self.state = action;
        self.note_len = length;
        if let EditAction::Moving(id, _) = action {
            ctx.push(EditorEffect::PlayNote(id));
            if relative {
                ctx.push(EditorEffect::OpenIntervalInput(id));
                self.interval_input = Some(id);
                ctx.push(EditorEffect::ChildrenChanged);
                ctx.push(EditorEffect::RequestLayout);
            }
        }
        ctx.push(EditorEffect::SetActive(true));
        self.pending = Pending::Nothing;
        if changed {
            Self::sheet_changed(ctx, playing);
        }
    }

    /// Appends the effects that follow a change of the sheet.
    fn sheet_changed(ctx: &mut Vec<EditorEffect<X, P>>, playing: bool)
        ensures
            final(ctx)@ == old(ctx)@ + sheet_changed_effects::<X, P>(playing),
    {
        ctx.push(EditorEffect::RequestPaint);
        ctx.push(EditorEffect::UpdateBounds);
        if playing {
            ctx.push(EditorEffect::SubmitSheetChanged);
        }
    }

    /// The hover changed in a way that shows.
    fn hover_changed(old: &EditAction<X>, new: &EditAction<X>, same_anchor: bool) -> (r: bool)
        ensures
            r == hover_differs(*old, *new, same_anchor),
    {
        match (old, new) {
            (EditAction::Idle, EditAction::Idle) => false,
            (EditAction::Scaling(a), EditAction::Scaling(b)) => *a != *b,
            (EditAction::Moving(a, _), EditAction::Moving(b, _)) => *a != *b || !same_anchor,
            _ => true,
        }
    }
}

} // verus!
