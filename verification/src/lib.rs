//! State transitions of two ledger programs: one mints strategy records for a
//! fee, the other holds pooled funds and pays out shares of the profit.
//!
//! Each transition takes the records it works on as plain values, decides, and
//! hands back the new records, the effects that the ledger has to carry out and
//! the notification to publish. A transition that fails changes nothing.

pub mod address;
pub mod meta_nft;
pub mod meta_treasury;
pub mod transfer;
