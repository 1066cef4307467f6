use harmoxen::edit_action::{get_action, EditAction, NoteHit};
use harmoxen::note_id::NoteId;

fn id(n: usize) -> NoteId {
    NoteId { index: n, generation: 0 }
}

fn hit(n: usize, on_scale_knob: bool, anchor: f64) -> NoteHit<f64> {
    NoteHit { id: id(n), on_scale_knob, anchor, length: 2.0, relative: false }
}

#[test]
fn note_id_of_each_action() {
    assert_eq!(EditAction::<f64>::Idle.note_id(), None);
    assert_eq!(EditAction::Moving(id(4), 0.5).note_id(), Some(id(4)));
    assert_eq!(EditAction::<f64>::Scaling(id(9)).note_id(), Some(id(9)));
}

#[test]
fn is_idle_only_for_idle() {
    assert!(EditAction::<f64>::Idle.is_idle());
    assert!(!EditAction::Moving(id(1), 0.0).is_idle());
    assert!(!EditAction::<f64>::Scaling(id(1)).is_idle());
}

#[test]
fn get_action_without_a_note_is_idle() {
    assert_eq!(get_action::<f64>(None), EditAction::Idle);
}

#[test]
fn get_action_on_the_scale_knob_scales() {
    assert_eq!(get_action(Some(hit(2, true, 1.75))), EditAction::Scaling(id(2)));
}

#[test]
fn get_action_elsewhere_on_a_note_moves_it_at_the_grab_distance() {
    assert_eq!(get_action(Some(hit(2, false, 0.25))), EditAction::Moving(id(2), 0.25));
}
