//! The capability token that seals the extension trait: only types this
//! crate vouches for can carry the four DF operations.

use vstd::prelude::*;

verus! {

/// Marker supertrait of the DF extension trait. The module holding it is
/// not exported, so no outside type can satisfy the extension trait.
pub trait Sealed {
}

} // verus!
