//! Identifiers of notes on the sheet.
//!
//! The sheet stores its notes in a `generational_arena::Arena`, whose handles
//! are `generational_arena::Index` values: a slot number and the generation of
//! that slot. The editor logic works on [`NoteId`], which holds the same two
//! numbers as plain values.

use vstd::prelude::*;
use generational_arena::Index;

verus! {

/// The arena handle type, carried opaquely.
#[verifier::external_type_specification]
#[verifier::external_body]
pub struct ExIndex(Index);

/// The handle that `Index::from_raw_parts` builds from a slot number and a
/// generation.
pub uninterp spec fn arena_index(index: usize, generation: u64) -> Index;

/// A note of the sheet, identified by its arena slot and that slot's generation.
#[derive(Clone, Copy, Debug, PartialEq, Eq, Structural, Hash)]
pub struct NoteId {
    pub index: usize,
    pub generation: u64,
}

/// Calls `Index::from_raw_parts`, which builds the handle whose parts are the
/// two arguments. The contract names that handle `arena_index(index, generation)`.
#[verifier::external_body]
fn index_from_raw_parts(index: usize, generation: u64) -> (r: Index)
    ensures
        r == arena_index(index, generation),
{
    Index::from_raw_parts(index, generation)
}

/// Calls `Index::into_raw_parts`, which returns the two fields of the handle.
/// The contract states that these parts rebuild the handle, and that they are
/// the parts of every `arena_index(a, b)` equal to it (the handle is a plain
/// pair, so its parts are determined by it).
#[verifier::external_body]
fn index_into_raw_parts(i: Index) -> (r: (usize, u64))
    ensures
        arena_index(r.0, r.1) == i,
        forall|a: usize, b: u64| #[trigger] arena_index(a, b) == i ==> r.0 == a && r.1 == b,
{
    i.into_raw_parts()
}

impl NoteId {
    /// The identifier of the note behind an arena handle. For a handle made
    /// by [`NoteId::to_index`] this is the identifier it was made from.
    pub fn from_index(i: Index) -> (r: NoteId)
        ensures
            arena_index(r.index, r.generation) == i,
            forall|a: usize, b: u64| #[trigger] arena_index(a, b) == i ==> r == (NoteId { index: a, generation: b }),
    {
        let (index, generation) = index_into_raw_parts(i);
        NoteId { index, generation }
    }

    /// The arena handle of this note.
    pub fn to_index(&self) -> (r: Index)
        ensures
            r == arena_index(self.index, self.generation),
    {
        index_from_raw_parts(self.index, self.generation)
    }
}

} // verus!
