use vstd::prelude::*;

use crate::candidate::Candidate;

verus! {

/// The values of one pick, each in its own cell, in the order they were
/// given. A selection names a cell by its position.
pub struct Candidates<T> {
    cells: Vec<Candidate<T>>,
}

/// What is left of `items` once they are all put in cells: every one present.
pub open spec fn all_present<T>(items: Seq<T>) -> Seq<Option<T>> {
    items.map_values(|v: T| Some(v))
}

/// What taking from the cell at `index` gives: its value, if the position
/// exists and the cell still holds one.
pub open spec fn extracted<T>(cells: Seq<Option<T>>, index: int) -> Option<T> {
    if 0 <= index < cells.len() {
        cells[index]
    } else {
        None
    }
}

/// The cells after taking from the one at `index`: that one is absent, the
/// others are as they were.
pub open spec fn after_extract<T>(cells: Seq<Option<T>>, index: int) -> Seq<Option<T>> {
    if 0 <= index < cells.len() {
        cells.update(index, None)
    } else {
        cells
    }
}

/// The position that a session's selection points at. The session hands back
/// its selected handles in order, each as the position it stands for, or as
/// `None` where the handle is not one of this pick's. Only the first counts;
/// no handle, or a foreign first one, points nowhere.
pub open spec fn chosen(selected: Seq<Option<usize>>) -> Option<usize> {
    if selected.len() == 0 {
        None
    } else {
        selected[0]
    }
}

/// The value a selection yields from `cells`.
pub open spec fn picked<T>(cells: Seq<Option<T>>, selected: Seq<Option<usize>>) -> Option<T> {
    match chosen(selected) {
        Some(i) => extracted(cells, i as int),
        None => None,
    }
}

/// The cells after a selection has been taken from them.
pub open spec fn after_pick<T>(cells: Seq<Option<T>>, selected: Seq<Option<usize>>) -> Seq<
    Option<T>,
> {
    match chosen(selected) {
        Some(i) => after_extract(cells, i as int),
        None => cells,
    }
}

impl<T> Candidates<T> {
    /// Cell by cell, the value still held.
    pub closed spec fn view(&self) -> Seq<Option<T>> {
        self.cells@.map_values(|c: Candidate<T>| c.value())
    }

    /// One present cell for each of `items`, in their order; no value is
    /// copied.
    pub fn from_values(items: Vec<T>) -> (r: Self)
        ensures
            r@ == all_present(items@),
    {
        let ghost given = items@;
        let mut cells: Vec<Candidate<T>> = Vec::new();
        for v in it: items
            invariant
                it.seq() == given,
                cells@.len() == it.index(),
                forall|k: int| 0 <= k < cells@.len() ==> (#[trigger] cells@[k]).value() == Some(given[k]),
        {
            cells.push(Candidate::new(v));
        }
        let r = Candidates { cells };
        assert(r@ =~= all_present(given));
        r
    }

    /// How many cells there are, taken or not.
    pub fn len(&self) -> (r: usize)
        ensures
            r == self@.len(),
    {
        self.cells.len()
    }

    /// Whether there is no cell at all.
    pub fn is_empty(&self) -> (r: bool)
        ensures
            r == (self@.len() == 0),
    {
        self.cells.len() == 0
    }

    /// The text of the cell at `index`: empty once its value has been taken.
    pub fn text(&self, index: usize) -> (r: String) where T: ToString
        requires
            index < self@.len(),
        ensures
            self@[index as int] is None ==> r@ == Seq::<char>::empty(),
    {
        self.cells[index].text()
    }

    /// Takes the value out of the cell at `index`. A position past the end,
    /// or a cell already taken, gives `None`; nothing else changes.
    pub fn extract(&mut self, index: usize) -> (r: Option<T>)
        ensures
            r == extracted(old(self)@, index as int),
            final(self)@ == after_extract(old(self)@, index as int),
    {
        if index < self.cells.len() {
            let r = self.cells[index].take();
            assert(self@ =~= old(self)@.update(index as int, None));
            r
        } else {
            None
        }
    }

    /// Takes out the value that a session's selection points at (see
    /// [`chosen`]): `None` when nothing was selected, when the first handle is
    /// foreign or out of range, or when that value was already taken.
    pub fn take_selection(&mut self, selected: &Vec<Option<usize>>) -> (r: Option<T>)
        ensures
            r == picked(old(self)@, selected@),
            final(self)@ == after_pick(old(self)@, selected@),
    {
        if selected.len() == 0 {
            return None;
        }
        match selected[0] {
            Some(i) => self.extract(i),
            None => None,
        }
    }
}

} // verus!
