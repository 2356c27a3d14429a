//! The single-slot cell through which a runner hands its result to whoever awaits it.

use vstd::prelude::*;

verus! {

/// A cell that is empty until its runner fills it, once.
///
/// The cell is lent to the runner on every poll and read by the awaiting side
/// after the runner has reported completion, so the two never touch it at the
/// same time.
pub struct Output<T> {
    slot: Option<T>,
}

impl<T> View for Output<T> {
    type V = Option<T>;

    closed spec fn view(&self) -> Option<T> {
        self.slot
    }
}

impl<T> Output<T> {
    /// The cell that holds `content`.
    pub closed spec fn holding(content: Option<T>) -> Self {
        Output { slot: content }
    }

    /// A cell is what it holds: two cells with the same content are the same cell.
    pub proof fn lemma_view_decides(self, other: Self)
        ensures
            self@ == other@ <==> self == other,
            self == Self::holding(self@),
            Self::holding(self@)@ == self@,
    {
    }

    /// The content of `holding(content)` is `content`.
    pub proof fn lemma_holding_view(content: Option<T>)
        ensures
            Self::holding(content)@ == content,
    {
    }

    /// Creates an empty cell.
    pub fn new() -> (cell: Self)
        ensures
            cell@ is None,
            cell == Self::holding(None),
    {
        Output { slot: None }
    }

    /// Fills the cell.
    ///
    /// A cell is written once: the cell must be empty.
    pub fn set(&mut self, value: T)
        requires
            old(self)@ is None,
        ensures
            final(self)@ == Some(value),
    {
        self.slot = Some(value);
    }

    /// Tells whether the cell has been filled, without consuming it.
    pub fn is_filled(&self) -> (filled: bool)
        ensures
            filled == (self@ is Some),
    {
        self.slot.is_some()
    }

    /// Tells whether the cell has been filled.
    pub fn is_some(&self) -> (filled: bool)
        ensures
            filled == (self@ is Some),
    {
        self.slot.is_some()
    }

    /// Tells whether the cell is still empty.
    pub fn is_none(&self) -> (empty: bool)
        ensures
            empty == (self@ is None),
    {
        self.slot.is_none()
    }

    /// Looks at the value without consuming the cell.
    pub fn peek(&self) -> (value: Option<&T>)
        ensures
            value == match self@ {
                Some(v) => Some(&v),
                None => None,
            },
    {
        self.slot.as_ref()
    }

    /// Extracts the value; the cell is gone afterwards.
    pub fn take(self) -> (value: Option<T>)
        ensures
            value == self@,
    {
        self.slot
    }
}

impl<T> Default for Output<T> {
    fn default() -> (cell: Self)
        ensures
            cell@ is None,
    {
        Output { slot: None }
    }
}

} // verus!
