use generational_arena::{Arena, Index};
use harmoxen::note_id::NoteId;

#[test]
fn note_id_takes_the_parts_of_an_arena_index() {
    let id = NoteId::from_index(Index::from_raw_parts(3, 7));
    assert_eq!(id, NoteId { index: 3, generation: 7 });
}

#[test]
fn note_id_round_trips_through_an_arena_index() {
    let id = NoteId { index: 12, generation: 5 };
    let index = id.to_index();
    assert_eq!(index, Index::from_raw_parts(12, 5));
    assert_eq!(NoteId::from_index(index), id);
}

#[test]
fn note_id_of_an_arena_handle_finds_the_note_again() {
    let mut arena = Arena::new();
    let first = arena.insert("first");
    let second = arena.insert("second");
    let id = NoteId::from_index(second);
    assert_ne!(id, NoteId::from_index(first));
    assert_eq!(arena[id.to_index()], "second");
    arena.remove(second);
    let third = arena.insert("third");
    // the slot is reused with a new generation: the old id no longer matches
    assert_eq!(NoteId::from_index(third).index, id.index);
    assert_ne!(NoteId::from_index(third), id);
    assert!(arena.get(id.to_index()).is_none());
}
