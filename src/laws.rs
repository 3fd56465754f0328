use vstd::prelude::*;

use crate::pool::{after_extract, after_pick, all_present, chosen, extracted, picked};

verus! {

/// A selection that points at position `i` of the values offered yields the
/// value given at `i` itself: the very value, not a copy of it.
pub proof fn lemma_pick_returns_input<T>(items: Seq<T>, selected: Seq<Option<usize>>, i: usize)
    requires
        i < items.len(),
        chosen(selected) == Some(i),
    ensures
        picked(all_present(items), selected) == Some(items[i as int]),
{
}

/// With no value offered, no selection yields anything.
pub proof fn lemma_empty_input_picks_nothing<T>(selected: Seq<Option<usize>>)
    ensures
        picked(all_present(Seq::<T>::empty()), selected) is None,
{
}

/// A session that selected nothing yields nothing, and takes nothing.
pub proof fn lemma_no_selection_picks_nothing<T>(cells: Seq<Option<T>>)
    ensures
        picked(cells, Seq::empty()) is None,
        after_pick(cells, Seq::empty()) == cells,
{
}

/// A value is taken at most once: taking again from the same cell, or
/// picking the same selection again, yields nothing; the cell is left absent,
/// so it renders as the empty string.
pub proof fn lemma_taken_once<T>(cells: Seq<Option<T>>, index: int, selected: Seq<Option<usize>>)
    ensures
        extracted(after_extract(cells, index), index) is None,
        0 <= index < cells.len() ==> after_extract(cells, index)[index] is None,
        picked(after_pick(cells, selected), selected) is None,
{
}

/// Taking from one cell leaves every other cell as it was.
pub proof fn lemma_extract_leaves_others<T>(cells: Seq<Option<T>>, index: int, other: int)
    requires
        0 <= other < cells.len(),
        other != index,
    ensures
        after_extract(cells, index)[other] == cells[other],
{
}

} // verus!
