//! Which result is highlighted, and where it sits on the screen.
//!
//! The list is drawn with one blank row between consecutive results, so the
//! rows on screen and the results behind them are counted differently. The
//! selection is always a position among the results; rows only appear through
//! the two conversions at the end of this file.

use vstd::prelude::*;

verus! {

/// One step of navigation through the results.
#[derive(Clone, Copy, Debug, PartialEq, Eq)]
pub enum Motion {
    /// To the result after the current one.
    Next,
    /// To the result before the current one.
    Previous,
    /// To the first result.
    First,
    /// To the last result.
    Last,
}

/// The position that `motion` leads to from `index` among `item_count`
/// results. Nothing moves in an empty list; otherwise the target is the
/// nearest position inside the list.
pub open spec fn moved(index: nat, motion: Motion, item_count: nat) -> nat {
    if item_count == 0 {
        index
    } else {
        match motion {
            Motion::Next => if index + 1 < item_count {
                index + 1
            } else {
                (item_count - 1) as nat
            },
            Motion::Previous => if index == 0 {
                0
            } else if index - 1 < item_count {
                (index - 1) as nat
            } else {
                (item_count - 1) as nat
            },
            Motion::First => 0,
            Motion::Last => (item_count - 1) as nat,
        }
    }
}

/// The position reached from `index` after every motion of `motions`, in order.
pub open spec fn moved_all(index: nat, motions: Seq<Motion>, item_count: nat) -> nat
    decreases motions.len(),
{
    if motions.len() == 0 {
        index
    } else {
        moved(moved_all(index, motions.drop_last(), item_count), motions.last(), item_count)
    }
}

/// Whether `index` is a legal selection among `item_count` results: inside
/// the list when there is one, unconstrained when the list is empty.
pub open spec fn in_range(index: nat, item_count: nat) -> bool {
    item_count > 0 ==> index < item_count
}

/// The highlighted position among the results.
#[derive(Clone, Copy, Debug, PartialEq, Eq)]
pub struct SelectionState {
    /// Position of the highlighted result, counted from zero.
    pub index: usize,
}

impl View for SelectionState {
    type V = nat;

    open spec fn view(&self) -> nat {
        self.index as nat
    }
}

impl SelectionState {
    /// A selection on the first result.
    pub fn new() -> (selection: Self)
        ensures
            selection@ == 0,
    {
        SelectionState { index: 0 }
    }

    /// The highlighted position, if it names one of `item_count` results.
    pub fn selected(&self, item_count: usize) -> (position: Option<usize>)
        ensures
            position == if self@ < item_count {
                Some(self.index)
            } else {
                None
            },
    {
        if self.index < item_count {
            Some(self.index)
        } else {
            None
        }
    }

    /// Moves one result down, stopping at the last one.
    pub fn next(&mut self, item_count: usize)
        ensures
            final(self)@ == moved(old(self)@, Motion::Next, item_count as nat),
    {
        if item_count > 0 {
            if self.index < item_count - 1 {
                self.index = self.index + 1;
            } else {
                self.index = item_count - 1;
            }
        }
    }

    /// Moves one result up, stopping at the first one.
    pub fn previous(&mut self, item_count: usize)
        ensures
            final(self)@ == moved(old(self)@, Motion::Previous, item_count as nat),
    {
        if item_count > 0 {
            if self.index == 0 {
            } else if self.index - 1 < item_count {
                self.index = self.index - 1;
            } else {
                self.index = item_count - 1;
            }
        }
    }

    /// Jumps to the first result.
    pub fn first(&mut self, item_count: usize)
        ensures
            final(self)@ == moved(old(self)@, Motion::First, item_count as nat),
    {
        if item_count > 0 {
            self.index = 0;
        }
    }

    /// Jumps to the last result.
    pub fn last(&mut self, item_count: usize)
        ensures
            final(self)@ == moved(old(self)@, Motion::Last, item_count as nat),
    {
        if item_count > 0 {
            self.index = item_count - 1;
        }
    }

    /// Carries out `motion` among `item_count` results.
    pub fn apply(&mut self, motion: Motion, item_count: usize)
        ensures
            final(self)@ == moved(old(self)@, motion, item_count as nat),
    {
        match motion {
            Motion::Next => self.next(item_count),
            Motion::Previous => self.previous(item_count),
            Motion::First => self.first(item_count),
            Motion::Last => self.last(item_count),
        }
    }
}

/// A single motion in a non-empty list always lands inside the list, wherever
/// it started; in an empty list it changes nothing.
pub proof fn lemma_moved_in_range(index: nat, motion: Motion, item_count: nat)
    ensures
        item_count > 0 ==> moved(index, motion, item_count) < item_count,
        item_count == 0 ==> moved(index, motion, item_count) == index,
{
}

/// A selection that is legal for a list stays legal under any sequence of
/// motions: inside the list when there are results, and untouched when there
/// are none.
pub proof fn lemma_moved_all_in_range(index: nat, motions: Seq<Motion>, item_count: nat)
    requires
        in_range(index, item_count),
    ensures
        in_range(moved_all(index, motions, item_count), item_count),
        item_count == 0 ==> moved_all(index, motions, item_count) == index,
    decreases motions.len(),
{
    if motions.len() > 0 {
        lemma_moved_all_in_range(index, motions.drop_last(), item_count);
    }
}

/// Number of rows that a list of `item_count` results takes on screen: one
/// per result and one blank row between each two.
pub open spec fn row_count(item_count: nat) -> nat {
    if item_count == 0 {
        0
    } else {
        (2 * item_count - 1) as nat
    }
}

/// The row on which the result at `index` is drawn.
pub open spec fn row_of(index: nat) -> nat {
    2 * index
}

/// The result that the row `row` belongs to: the one drawn there, or, for a
/// blank row, the one just above it.
pub open spec fn item_of(row: nat) -> nat {
    row / 2
}

/// Whether the row `row` is one of the blank rows between results.
pub open spec fn is_gap(row: nat) -> bool {
    row % 2 == 1
}

/// The row on which the result at `index` is drawn.
pub fn logical_to_visual(index: usize) -> (row: usize)
    requires
        2 * index <= usize::MAX,
    ensures
        row == row_of(index as nat),
{
    2 * index
}

/// The result that a row on screen belongs to.
pub fn visual_to_logical(row: usize) -> (index: usize)
    ensures
        index == item_of(row as nat),
{
    row / 2
}

/// Number of rows needed to draw `item_count` results.
pub fn visual_row_count(item_count: usize) -> (rows: usize)
    requires
        2 * item_count <= usize::MAX,
    ensures
        rows == row_count(item_count as nat),
{
    if item_count == 0 {
        0
    } else {
        2 * item_count - 1
    }
}

/// Going from a result to its row and back gives the same result, the row
/// is never a blank one, and it lies on screen whenever the result exists.
pub proof fn lemma_row_round_trip(index: nat, item_count: nat)
    ensures
        item_of(row_of(index)) == index,
        !is_gap(row_of(index)),
        index < item_count ==> row_of(index) < row_count(item_count),
        row_of(0) == 0,
{
}

/// Every row on screen belongs to an existing result, and the rows that are
/// not blank are exactly the rows of results.
pub proof fn lemma_rows_belong_to_items(row: nat, item_count: nat)
    requires
        row < row_count(item_count),
    ensures
        item_of(row) < item_count,
        !is_gap(row) <==> row == row_of(item_of(row)),
{
}

} // verus!
