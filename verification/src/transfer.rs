//! Movements of native tokens that a transition asks the ledger for.

use crate::address::Address;
use vstd::prelude::*;

verus! {

/// An order to move `lamports` of the native token, in its smallest unit, from
/// the account `from`, which signs for it, to the account `to`.
#[derive(Clone, Copy, Debug, PartialEq, Eq)]
pub struct LamportTransfer {
    pub from: Address,
    pub to: Address,
    pub lamports: u64,
}

} // verus!
