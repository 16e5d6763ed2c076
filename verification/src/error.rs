//! Why a call was refused.

use vstd::prelude::*;

verus! {

/// The failures that a handler reports to its caller. None of them changes
/// the store.
#[derive(Debug, Clone, Copy, PartialEq, Eq, Structural)]
pub enum ContractError {
    /// The store holds no owner record: nothing was instantiated yet.
    Uninitialized {},
    /// The caller is not the recorded owner.
    Unauthorized {},
}

} // verus!
