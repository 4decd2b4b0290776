//! A token-incentivized staking ledger: holders lock a non-fungible asset
//! into a custody pool, accrue one reward unit per full day staked, and later
//! withdraw the accrued reward subject to eligibility and authorization
//! checks. A secondary facility registers metadata for a time-bounded
//! community event.
//!
//! Custody transfers, the wall clock and notification delivery are external
//! collaborators: the functions here take the current time and the ledger
//! record as plain values and return the record, notification or reward
//! amount that the hosting environment is to persist, emit or pay out.

pub mod identity;
pub mod records;
pub mod rewards;
pub mod staking;
pub mod events;
