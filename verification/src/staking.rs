use vstd::prelude::*;
use crate::identity::Pubkey;
use crate::records::NftStaked;
use crate::records::StakedNft;

verus! {

/// Build the ledger record and the observer notification for a stake of one
/// unit of `nft_mint` by `staker` at time `now`.
///
/// The hosting environment performs the custody transfer of the asset into
/// the pool first and persists the returned record only on success, so that
/// transfer and record creation act as one atomic unit; it then emits the
/// returned notification. Record and notification carry the same owner,
/// asset and timestamp, and the record is created staked.
pub fn stake_nft(staker: Pubkey, nft_mint: Pubkey, now: i64) -> (staked: (StakedNft, NftStaked))
    requires
        0 <= now,
    ensures
        staked.0.staker == staker,
        staked.0.nft_mint == nft_mint,
        staked.0.stake_time == now,
        staked.0.is_staked,
        staked.0.wf(),
        staked.1.staker == staker,
        staked.1.nft_mint == nft_mint,
        staked.1.stake_time == now,
{
    let staked_nft = StakedNft {
        staker,
        nft_mint,
        stake_time: now,
        is_staked: true,
    };
    let notification = NftStaked {
        staker,
        nft_mint,
        stake_time: now,
    };
    (staked_nft, notification)
}

} // verus!
