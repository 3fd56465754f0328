use vstd::prelude::*;

use skim::SkimOptions;

use crate::pool::{after_pick, all_present, picked, Candidates};

verus! {

/// One pick made ready for its search session: the finished configuration,
/// and the values, each in its own cell. The session itself (the terminal,
/// the matching) is run by the caller, who feeds it the cells' handles and
/// hands back what it selected.
pub struct Picking<'a, T> {
    options: SkimOptions<'a>,
    candidates: Candidates<T>,
}

impl<'a, T> Picking<'a, T> {
    /// Cell by cell, the values not yet taken.
    pub closed spec fn cells(&self) -> Seq<Option<T>> {
        self.candidates@
    }

    /// The configuration the session is to run with.
    pub closed spec fn config(&self) -> SkimOptions<'a> {
        self.options
    }

    /// A pick of `items` under `options`; every value is present.
    pub fn new(options: SkimOptions<'a>, items: Vec<T>) -> (r: Self)
        ensures
            r.cells() == all_present(items@),
            r.config() == options,
    {
        Picking { options, candidates: Candidates::from_values(items) }
    }

    /// The configuration the session is to run with.
    pub fn options(&self) -> (r: &SkimOptions<'a>)
        ensures
            *r == self.config(),
    {
        &self.options
    }

    /// How many values were offered.
    pub fn len(&self) -> (r: usize)
        ensures
            r == self.cells().len(),
    {
        self.candidates.len()
    }

    /// Whether a session is worth starting: not when there is nothing to
    /// pick from, since an empty session could only wait on the user.
    pub fn needs_session(&self) -> (r: bool)
        ensures
            r == (self.cells().len() > 0),
    {
        !self.candidates.is_empty()
    }

    /// The text to show for the value at `index`; empty once it was taken.
    pub fn text(&self, index: usize) -> (r: String) where T: ToString
        requires
            index < self.cells().len(),
        ensures
            self.cells()[index as int] is None ==> r@ == Seq::<char>::empty(),
    {
        self.candidates.text(index)
    }

    /// Ends the pick with what the session selected: the value the first
    /// selected handle stands for, taken out of its cell, or `None`.
    pub fn finish(&mut self, selected: &Vec<Option<usize>>) -> (r: Option<T>)
        ensures
            r == picked(old(self).cells(), selected@),
            final(self).cells() == after_pick(old(self).cells(), selected@),
            final(self).config() == old(self).config(),
    {
        self.candidates.take_selection(selected)
    }
}

} // verus!
