use vstd::prelude::*;

verus! {

/// The cell that holds one value offered to the picker: present from the
/// moment it is made until the value is taken out, absent after.
pub struct Candidate<T> {
    slot: Option<T>,
}

impl<T> Candidate<T> {
    /// The value the cell still holds, if any.
    pub closed spec fn value(&self) -> Option<T> {
        self.slot
    }

    /// A cell holding `v`.
    pub fn new(v: T) -> (r: Self)
        ensures
            r.value() == Some(v),
    {
        Candidate { slot: Some(v) }
    }

    /// Whether the value is still in the cell.
    pub fn is_present(&self) -> (r: bool)
        ensures
            r == self.value() is Some,
    {
        self.slot.is_some()
    }

    /// Takes the value out, leaving the cell absent; on a cell already taken
    /// it gives `None` and changes nothing.
    pub fn take(&mut self) -> (r: Option<T>)
        ensures
            r == old(self).value(),
            final(self).value() is None,
    {
        match self.slot {
            Some(_) => {
                let mut out = None;
                std::mem::swap(&mut out, &mut self.slot);
                out
            },
            None => None,
        }
    }

    /// The text the search session shows and matches for this cell: the
    /// value's string form while it is present, the empty string once it
    /// has been taken.
    pub fn text(&self) -> (r: String) where T: ToString
        ensures
            self.value() is None ==> r@ == Seq::<char>::empty(),
    {
        match &self.slot {
            Some(v) => render(v),
            None => String::new(),
        }
    }
}

/// Relies on `ToString::to_string` of std to give the string form of a
/// value; nothing is claimed of its characters.
#[verifier::external_body]
fn render<T: ToString>(v: &T) -> (r: String) {
    v.to_string()
}

} // verus!
