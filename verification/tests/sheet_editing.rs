use harmoxen::edit_action::{EditAction, NoteHit};
use harmoxen::note_id::NoteId;
use harmoxen::sheet_editor::{EditorEffect, Pending, Resize, SheetEditor, SheetEvent};

type P = (f64, f64);
type Editor = SheetEditor<f64, P>;
type Effect = EditorEffect<f64, P>;
type Event = SheetEvent<f64, P>;

fn id(n: usize) -> NoteId {
    NoteId { index: n, generation: 0 }
}

fn step(editor: &mut Editor, ev: Event) -> Vec<Effect> {
    let mut ctx = Vec::new();
    editor.event(&mut ctx, ev);
    ctx
}

fn hit(n: usize, on_scale_knob: bool, relative: bool) -> NoteHit<f64> {
    NoteHit { id: id(n), on_scale_knob, anchor: 0.5, length: 2.0, relative }
}

fn hit_at(n: usize, anchor: f64) -> NoteHit<f64> {
    NoteHit { id: id(n), on_scale_knob: false, anchor, length: 1.0, relative: false }
}

const CHANGED: [Effect; 2] = [EditorEffect::RequestPaint, EditorEffect::UpdateBounds];

#[test]
fn new_editor_is_idle() {
    let e = Editor::new(1.0);
    assert_eq!(e.hover, EditAction::Idle);
    assert_eq!(e.state, EditAction::Idle);
    assert_eq!(e.note_len, 1.0);
    assert_eq!(e.prev_mouse_b_pos, None);
    assert_eq!(e.interval_input, None);
    assert_eq!(e.pending, Pending::Nothing);
}

#[test]
fn press_on_empty_space_adds_a_note_and_drags_it() {
    let mut e = Editor::new(1.0);
    let fx = step(&mut e, SheetEvent::LeftDown { pos: (3.0, 0.2), double_click: false, hit: None, playing: false });
    assert_eq!(fx, vec![EditorEffect::RequestFocus, EditorEffect::AddNote { pos: (3.0, 0.2), length: 1.0 }]);
    assert_eq!(e.pending, Pending::NewNote { playing: false });
    let fx = step(&mut e, SheetEvent::NoteAdded { id: id(7), anchor: 0.0, length: 0.5, relative: false });
    assert_eq!(
        fx,
        vec![
            EditorEffect::PlayNote(id(7)),
            EditorEffect::SetActive(true),
            EditorEffect::RequestPaint,
            EditorEffect::UpdateBounds,
        ]
    );
    assert_eq!(e.state, EditAction::Moving(id(7), 0.0));
    assert_eq!(e.note_len, 0.5);
    assert_eq!(e.pending, Pending::Nothing);
}

#[test]
fn added_note_while_playing_tells_the_player() {
    let mut e = Editor::new(1.0);
    step(&mut e, SheetEvent::LeftDown { pos: (0.0, 0.0), double_click: false, hit: None, playing: true });
    let fx = step(&mut e, SheetEvent::NoteAdded { id: id(1), anchor: 0.0, length: 1.0, relative: false });
    assert_eq!(fx.last(), Some(&EditorEffect::SubmitSheetChanged));
}

#[test]
fn press_on_a_relative_note_opens_its_interval_box() {
    let mut e = Editor::new(1.0);
    let fx = step(
        &mut e,
        SheetEvent::LeftDown { pos: (1.0, 0.0), double_click: false, hit: Some(hit(3, false, true)), playing: false },
    );
    assert_eq!(
        fx,
        vec![
            EditorEffect::RequestFocus,
            EditorEffect::PlayNote(id(3)),
            EditorEffect::OpenIntervalInput(id(3)),
            EditorEffect::ChildrenChanged,
            EditorEffect::RequestLayout,
            EditorEffect::SetActive(true),
        ]
    );
    assert_eq!(e.state, EditAction::Moving(id(3), 0.5));
    assert_eq!(e.note_len, 2.0);
    assert_eq!(e.interval_input, Some(id(3)));
}

#[test]
fn press_on_the_scale_knob_starts_scaling_without_sound() {
    let mut e = Editor::new(1.0);
    let fx = step(
        &mut e,
        SheetEvent::LeftDown { pos: (1.0, 0.0), double_click: false, hit: Some(hit(3, true, true)), playing: false },
    );
    assert_eq!(fx, vec![EditorEffect::RequestFocus, EditorEffect::SetActive(true)]);
    assert_eq!(e.state, EditAction::Scaling(id(3)));
    assert_eq!(e.note_len, 2.0);
    assert_eq!(e.interval_input, None);
}

#[test]
fn double_click_on_a_note_opens_its_menu_only() {
    let mut e = Editor::new(1.0);
    let fx = step(
        &mut e,
        SheetEvent::LeftDown { pos: (4.0, 0.1), double_click: true, hit: Some(hit(2, false, false)), playing: false },
    );
    assert_eq!(fx, vec![EditorEffect::RequestFocus, EditorEffect::ShowNoteMenu { id: id(2), pos: (4.0, 0.1) }]);
    assert_eq!(e, Editor::new(1.0));
}

#[test]
fn double_click_on_empty_space_only_takes_focus() {
    let mut e = Editor::new(1.0);
    let fx = step(&mut e, SheetEvent::LeftDown { pos: (4.0, 0.1), double_click: true, hit: None, playing: false });
    assert_eq!(fx, vec![EditorEffect::RequestFocus]);
}

#[test]
fn drag_moves_the_note_then_asks_for_the_hover() {
    let mut e = Editor::new(1.0);
    step(&mut e, SheetEvent::LeftDown { pos: (1.0, 0.0), double_click: false, hit: Some(hit(3, false, false)), playing: false });
    let fx = step(&mut e, SheetEvent::Move { pos: (2.0, 0.3), left: true, resize: None, playing: false });
    assert_eq!(
        fx,
        vec![
            EditorEffect::SetHandled,
            EditorEffect::MoveNote { id: id(3), anchor: 0.5, pos: (2.0, 0.3) },
            EditorEffect::ObserveHover((2.0, 0.3)),
        ]
    );
    let fx = step(
        &mut e,
        SheetEvent::Hovered { hit: Some(hit(3, false, false)), same_anchor: false, moved_relative: true },
    );
    assert_eq!(
        fx,
        vec![
            EditorEffect::ChangeNoteFreq(id(3)),
            EditorEffect::RequestLayout,
            EditorEffect::RequestPaint,
            EditorEffect::RequestPaint,
            EditorEffect::UpdateBounds,
        ]
    );
    assert_eq!(e.hover, EditAction::Moving(id(3), 0.5));
}

#[test]
fn scaling_drag_stretches_the_note_when_it_grows_past_its_start() {
    let mut e = Editor::new(1.0);
    step(&mut e, SheetEvent::LeftDown { pos: (1.0, 0.0), double_click: false, hit: Some(hit(3, true, false)), playing: false });
    let fx = step(
        &mut e,
        SheetEvent::Move { pos: (5.0, 0.0), left: true, resize: Some(Resize { time: 5.0, length: 4.0 }), playing: true },
    );
    assert_eq!(
        fx,
        vec![EditorEffect::SetHandled, EditorEffect::ResizeNote { id: id(3), time: 5.0 }, EditorEffect::ObserveHover((5.0, 0.0))]
    );
    assert_eq!(e.note_len, 4.0);
    // the hover stays idle, so only the change of the sheet repaints
    let fx = step(&mut e, SheetEvent::Hovered { hit: None, same_anchor: true, moved_relative: false });
    assert_eq!(
        fx,
        vec![EditorEffect::RequestPaint, EditorEffect::UpdateBounds, EditorEffect::SubmitSheetChanged]
    );
}

#[test]
fn scaling_drag_before_the_note_start_changes_nothing() {
    let mut e = Editor::new(1.0);
    step(&mut e, SheetEvent::LeftDown { pos: (1.0, 0.0), double_click: false, hit: Some(hit(3, true, false)), playing: false });
    let fx = step(&mut e, SheetEvent::Move { pos: (0.0, 0.0), left: true, resize: None, playing: false });
    assert_eq!(fx, vec![EditorEffect::SetHandled, EditorEffect::ObserveHover((0.0, 0.0))]);
    assert_eq!(e.note_len, 2.0);
    let fx = step(&mut e, SheetEvent::Hovered { hit: None, same_anchor: true, moved_relative: false });
    assert!(fx.is_empty());
}

#[test]
fn hover_over_the_same_note_at_the_same_distance_does_not_repaint() {
    let mut e = Editor::new(1.0);
    step(&mut e, SheetEvent::Move { pos: (1.0, 0.0), left: false, resize: None, playing: false });
    let fx = step(&mut e, SheetEvent::Hovered { hit: Some(hit_at(1, 0.25)), same_anchor: true, moved_relative: false });
    assert_eq!(fx, vec![EditorEffect::RequestPaint]);
    step(&mut e, SheetEvent::Move { pos: (1.0, 0.0), left: false, resize: None, playing: false });
    let fx = step(&mut e, SheetEvent::Hovered { hit: Some(hit_at(1, 0.25)), same_anchor: true, moved_relative: false });
    assert!(fx.is_empty());
    step(&mut e, SheetEvent::Move { pos: (1.1, 0.0), left: false, resize: None, playing: false });
    let fx = step(&mut e, SheetEvent::Hovered { hit: Some(hit_at(1, 0.35)), same_anchor: false, moved_relative: false });
    assert_eq!(fx, vec![EditorEffect::RequestPaint]);
}

#[test]
fn unasked_answers_are_ignored() {
    let mut e = Editor::new(1.0);
    let fx = step(&mut e, SheetEvent::Hovered { hit: Some(hit(1, true, false)), same_anchor: true, moved_relative: false });
    assert!(fx.is_empty());
    let fx = step(&mut e, SheetEvent::NoteAdded { id: id(1), anchor: 0.0, length: 1.0, relative: false });
    assert!(fx.is_empty());
    assert_eq!(e, Editor::new(1.0));
}

#[test]
fn release_ends_the_edit_and_stops_the_sound() {
    let mut e = Editor::new(1.0);
    step(&mut e, SheetEvent::LeftDown { pos: (1.0, 0.0), double_click: false, hit: Some(hit(3, false, false)), playing: false });
    let fx = step(&mut e, SheetEvent::LeftUp);
    assert_eq!(fx, vec![EditorEffect::SetActive(false), EditorEffect::RequestPaint, EditorEffect::StopNote]);
    assert_eq!(e.state, EditAction::Idle);
}

#[test]
fn right_press_on_a_note_removes_it() {
    let mut e = Editor::new(1.0);
    e.interval_input = Some(id(4));
    let fx = step(&mut e, SheetEvent::RightDown { pos: (1.0, 1.0), note: Some(id(4)), playing: false });
    let mut expected = vec![EditorEffect::CloseIntervalInput, EditorEffect::RemoveNote(id(4)), EditorEffect::RequestFocus];
    expected.extend(CHANGED);
    assert_eq!(fx, expected);
    assert_eq!(e.interval_input, None);
    assert_eq!(e.prev_mouse_b_pos, None);
}

#[test]
fn right_drag_erases_along_the_stroke() {
    let mut e = Editor::new(1.0);
    let fx = step(&mut e, SheetEvent::RightDown { pos: (1.0, 1.0), note: None, playing: false });
    assert_eq!(fx, vec![EditorEffect::CloseIntervalInput, EditorEffect::RequestFocus]);
    assert_eq!(e.prev_mouse_b_pos, Some((1.0, 1.0)));
    let fx = step(&mut e, SheetEvent::RightMove { pos: (2.0, 1.5), playing: true });
    assert_eq!(
        fx,
        vec![
            EditorEffect::RemoveNotesAlong { from: (1.0, 1.0), to: (2.0, 1.5) },
            EditorEffect::RequestPaint,
            EditorEffect::UpdateBounds,
            EditorEffect::SubmitSheetChanged,
        ]
    );
    assert_eq!(e.prev_mouse_b_pos, Some((2.0, 1.5)));
    step(&mut e, SheetEvent::LeftUp);
    let fx = step(&mut e, SheetEvent::RightMove { pos: (3.0, 1.5), playing: true });
    assert!(fx.is_empty());
}

#[test]
fn return_commits_the_interval_box() {
    let mut e = Editor::new(1.0);
    assert!(step(&mut e, SheetEvent::KeyReturn).is_empty());
    e.interval_input = Some(id(6));
    let fx = step(&mut e, SheetEvent::KeyReturn);
    assert_eq!(
        fx,
        vec![
            EditorEffect::CommitInterval(id(6)),
            EditorEffect::RequestLayout,
            EditorEffect::RequestPaint,
            EditorEffect::SetHandled,
        ]
    );
    assert_eq!(e.interval_input, Some(id(6)));
}

#[test]
fn space_toggles_playback() {
    let mut e = Editor::new(1.0);
    assert_eq!(step(&mut e, SheetEvent::KeySpace { playing: false }), vec![EditorEffect::SubmitPlayback(true)]);
    assert_eq!(step(&mut e, SheetEvent::KeySpace { playing: true }), vec![EditorEffect::SubmitPlayback(false)]);
}

#[test]
fn resize_and_redraw_relayout_and_repaint() {
    let mut e = Editor::new(1.0);
    let both = vec![EditorEffect::RequestLayout, EditorEffect::RequestPaint];
    assert_eq!(step(&mut e, SheetEvent::WindowResized), both);
    assert_eq!(step(&mut e, SheetEvent::Redraw), both);
    assert!(step(&mut e, SheetEvent::Other).is_empty());
}

#[test]
fn menu_commands_add_and_delete_notes() {
    let mut e = Editor::new(1.5);
    let fx = step(&mut e, SheetEvent::AddRelativeNote { root: id(2), time: 8.0, playing: false });
    let mut expected = vec![EditorEffect::AddRelativeNote { root: id(2), time: 8.0, length: 1.5, numerator: 3, denominator: 2 }];
    expected.extend(CHANGED);
    assert_eq!(fx, expected);
    // deleting from the menu does not report a change of the sheet
    assert_eq!(step(&mut e, SheetEvent::DeleteNote(id(2))), vec![EditorEffect::RemoveNote(id(2))]);
}

#[test]
fn hover_is_the_edit_for_the_observed_note() {
    let mut e = Editor::new(1.0);
    step(&mut e, SheetEvent::Move { pos: (1.0, 0.0), left: false, resize: None, playing: false });
    step(&mut e, SheetEvent::Hovered { hit: Some(hit(5, true, false)), same_anchor: true, moved_relative: false });
    assert_eq!(e.hover, EditAction::Scaling(id(5)));
    step(&mut e, SheetEvent::Move { pos: (1.0, 0.0), left: false, resize: None, playing: false });
    step(&mut e, SheetEvent::Hovered { hit: Some(hit_at(5, 0.75)), same_anchor: true, moved_relative: false });
    assert_eq!(e.hover, EditAction::Moving(id(5), 0.75));
    step(&mut e, SheetEvent::Move { pos: (9.0, 0.0), left: false, resize: None, playing: false });
    let fx = step(&mut e, SheetEvent::Hovered { hit: None, same_anchor: true, moved_relative: false });
    assert_eq!(e.hover, EditAction::Idle);
    assert_eq!(fx, vec![EditorEffect::RequestPaint]);
}
