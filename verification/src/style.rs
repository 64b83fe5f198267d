//! Flow directions of a flex container.

use vstd::prelude::*;

verus! {

/// The direction in which a container lays out its children.
///
/// The two row variants make the horizontal axis the main axis, the two
/// column variants the vertical one. Whether a direction is reversed has no
/// bearing on which physical axis is the main one.
#[derive(Debug, Clone, Copy, PartialEq, Eq, Structural)]
pub enum FlexDirection {
    /// Left to right.
    Row,
    /// Right to left.
    RowReverse,
    /// Top to bottom.
    Column,
    /// Bottom to top.
    ColumnReverse,
}

impl FlexDirection {
    /// The main axis is horizontal.
    pub open spec fn spec_is_row(self) -> bool {
        self == FlexDirection::Row || self == FlexDirection::RowReverse
    }

    /// The main axis is vertical.
    pub open spec fn spec_is_column(self) -> bool {
        self == FlexDirection::Column || self == FlexDirection::ColumnReverse
    }

    /// Tells whether the main axis is the horizontal one.
    #[verifier::when_used_as_spec(spec_is_row)]
    pub fn is_row(self) -> (r: bool)
        ensures
            r == self.spec_is_row(),
    {
        match self {
            FlexDirection::Row | FlexDirection::RowReverse => true,
            FlexDirection::Column | FlexDirection::ColumnReverse => false,
        }
    }

    /// Tells whether the main axis is the vertical one.
    #[verifier::when_used_as_spec(spec_is_column)]
    pub fn is_column(self) -> (r: bool)
        ensures
            r == self.spec_is_column(),
    {
        !self.is_row()
    }
}

/// Every direction has exactly one main axis: it is a row or a column, and
/// never both.
pub proof fn lemma_row_or_column(direction: FlexDirection)
    ensures
        direction.is_row() != direction.is_column(),
{
}

} // verus!
