use vstd::prelude::*;
use crate::identity::Pubkey;

verus! {

/// The durable ledger record of one staked asset: owner, asset identifier,
/// stake timestamp and the staked flag.
///
/// A record is created only as the side effect of a successful custody
/// transfer into the pool ([`crate::staking::stake_nft`]); a claim reads it
/// and never mutates it.
#[derive(Clone, Copy, PartialEq, Eq, Structural, Debug)]
pub struct StakedNft {
    /// Identity of the staker; set at creation and immutable thereafter.
    pub staker: Pubkey,
    /// Identifier of the specific asset unit staked; immutable.
    pub nft_mint: Pubkey,
    /// Timestamp of stake creation, in seconds since the epoch; set once.
    pub stake_time: i64,
    /// True from creation on; a claim must fail when this is false.
    pub is_staked: bool,
}

impl StakedNft {
    /// A record is well formed when its stake timestamp is a valid
    /// seconds-since-epoch value, i.e. non-negative.
    pub open spec fn wf(self) -> bool {
        0 <= self.stake_time
    }
}

/// The notification emitted to external observers on every successful stake.
/// Fire-and-forget; it carries the same owner, asset and timestamp that the
/// new ledger record holds.
#[derive(Clone, Copy, PartialEq, Eq, Structural, Debug)]
pub struct NftStaked {
    pub staker: Pubkey,
    pub nft_mint: Pubkey,
    pub stake_time: i64,
}

} // verus!
