//! Why a declaration gets no accessors.

use vstd::prelude::*;

verus! {

/// The reasons for which accessor generation is abandoned. Each of them is
/// fatal for the declaration at hand: there is no partial result.
#[derive(Clone, Copy, Debug, PartialEq, Eq, Structural)]
pub enum GettersError {
    /// The declaration is neither a supported struct nor a supported enum.
    UnsupportedShape,
    /// A variant carries an explicit discriminant.
    UnsupportedDiscriminant,
    /// A positional field lies beyond what ordinal names can reach.
    PositionOutOfRange,
}

} // verus!
