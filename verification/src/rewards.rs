use vstd::prelude::*;
use vstd::arithmetic::div_mod::lemma_div_is_ordered;
use vstd::arithmetic::div_mod::lemma_div_nonincreasing;
use vstd::arithmetic::div_mod::lemma_div_pos_is_pos;
use crate::identity::Pubkey;
use crate::records::StakedNft;

verus! {

/// Seconds in one day. One reward unit accrues per full day staked;
/// fractional days are truncated, never rounded up.
pub const SECONDS_PER_DAY: i64 = 86400;

/// Minimum elapsed time after staking, in seconds, before a claim is
/// permitted: seven days. Fixed at build time; not runtime-configurable.
pub const MIN_STAKING_PERIOD: i64 = 604800;

/// Why a claim was rejected. All three are terminal for the call and
/// non-retriable without a state or timing change on the caller's side.
#[derive(Clone, Copy, PartialEq, Eq, Structural, Debug)]
pub enum ErrorCode {
    /// The asset is not staked.
    NftNotStaked,
    /// The minimum staking period has not elapsed yet.
    StakingPeriodNotMet,
    /// The claimant is not the owner of the staked asset.
    Unauthorized,
}

impl ErrorCode {
    /// The human-readable message for this error.
    pub fn message(&self) -> (msg: &'static str)
        ensures
            *self is NftNotStaked ==> msg@ == "The NFT is not staked."@,
            *self is StakingPeriodNotMet ==> msg@ == "The staking period has not been met."@,
            *self is Unauthorized ==> msg@ == "Unauthorized claim attempt."@,
    {
        match self {
            ErrorCode::NftNotStaked => "The NFT is not staked.",
            ErrorCode::StakingPeriodNotMet => "The staking period has not been met.",
            ErrorCode::Unauthorized => "Unauthorized claim attempt.",
        }
    }
}

/// The reward accrued over the window from `stake_time` to `now`: the number
/// of full days elapsed, fractional days truncated.
pub open spec fn spec_reward(stake_time: int, now: int) -> int {
    (now - stake_time) / (SECONDS_PER_DAY as int)
}

/// A claim is eligible exactly when the asset is staked, the minimum staking
/// period has elapsed, and the claimant is the record's owner.
pub open spec fn spec_eligible(claimant: Pubkey, record: StakedNft, now: int) -> bool {
    &&& record.is_staked
    &&& now - record.stake_time >= MIN_STAKING_PERIOD
    &&& claimant == record.staker
}

/// The outcome of a claim: the three eligibility checks in order, each with
/// its own error, then the accrued reward on success.
pub open spec fn spec_claim(claimant: Pubkey, record: StakedNft, now: int) -> Result<u64, ErrorCode> {
    if !record.is_staked {
        Err(ErrorCode::NftNotStaked)
    } else if now - record.stake_time < MIN_STAKING_PERIOD {
        Err(ErrorCode::StakingPeriodNotMet)
    } else if claimant != record.staker {
        Err(ErrorCode::Unauthorized)
    } else {
        Ok(spec_reward(record.stake_time as int, now) as u64)
    }
}

/// The reward accrued by `staked_nft` as of `now`: one unit per full day
/// staked. Pure, deterministic and side-effect free; safe to call repeatedly
/// for auditing or estimation.
pub fn calculate_reward(staked_nft: &StakedNft, now: i64) -> (reward: u64)
    requires
        staked_nft.wf(),
        staked_nft.stake_time <= now,
    ensures
        reward == spec_reward(staked_nft.stake_time as int, now as int),
{
    let staking_duration: i64 = now - staked_nft.stake_time;
    (staking_duration as u64) / (SECONDS_PER_DAY as u64)
}

/// Evaluate a reward claim by `claimant` against `staked_nft` at time `now`.
///
/// The eligibility checks run before any payout is considered (fail-fast): the
/// asset must be staked, the minimum staking period must have elapsed, and
/// the claimant must be the record's owner, each failure with its own error,
/// in that order. On success the result is the accrued reward amount, which
/// the hosting environment pays out from the rewards pool; zero is a valid,
/// non-error amount. The record itself is never mutated: claiming does not
/// unstake.
pub fn claim_rewards(claimant: Pubkey, staked_nft: &StakedNft, now: i64) -> (result: Result<u64, ErrorCode>)
    requires
        staked_nft.wf(),
        0 <= now,
    ensures
        result == spec_claim(claimant, *staked_nft, now as int),
        result is Ok <==> spec_eligible(claimant, *staked_nft, now as int),
        result is Ok ==> result->Ok_0 == spec_reward(staked_nft.stake_time as int, now as int),
        !staked_nft.is_staked ==> result == Err::<u64, ErrorCode>(ErrorCode::NftNotStaked),
        staked_nft.is_staked && now - staked_nft.stake_time < MIN_STAKING_PERIOD
            ==> result == Err::<u64, ErrorCode>(ErrorCode::StakingPeriodNotMet),
        staked_nft.is_staked && now - staked_nft.stake_time >= MIN_STAKING_PERIOD
            && claimant != staked_nft.staker
            ==> result == Err::<u64, ErrorCode>(ErrorCode::Unauthorized),
{
    if !staked_nft.is_staked {
        return Err(ErrorCode::NftNotStaked);
    }
    if now - staked_nft.stake_time < MIN_STAKING_PERIOD {
        return Err(ErrorCode::StakingPeriodNotMet);
    }
    if claimant != staked_nft.staker {
        return Err(ErrorCode::Unauthorized);
    }
    Ok(calculate_reward(staked_nft, now))
}

/// The reward is monotonically non-decreasing in elapsed time: evaluated at a
/// later time against the same record, it never shrinks.
pub proof fn lemma_reward_monotonic(stake_time: int, t1: int, t2: int)
    requires
        t1 <= t2,
    ensures
        spec_reward(stake_time, t1) <= spec_reward(stake_time, t2),
{
    lemma_div_is_ordered(t1 - stake_time, t2 - stake_time, SECONDS_PER_DAY as int);
}

/// A claim never changes the record, so no state transition removes
/// eligibility: a claim that succeeds succeeds again on the same record at
/// the same or any later time, for at least the same reward amount. In
/// particular, repeated claims at one timestamp all return the same amount.
pub proof fn lemma_claim_repeatable(claimant: Pubkey, record: StakedNft, now: int, later: int)
    requires
        record.wf(),
        spec_claim(claimant, record, now) is Ok,
        now <= later <= i64::MAX,
    ensures
        spec_claim(claimant, record, later) is Ok,
        spec_claim(claimant, record, later)->Ok_0 >= spec_claim(claimant, record, now)->Ok_0,
{
    let day = SECONDS_PER_DAY as int;
    lemma_div_is_ordered(now - record.stake_time, later - record.stake_time, day);
    lemma_div_pos_is_pos(now - record.stake_time, day);
    lemma_div_nonincreasing(later - record.stake_time, day);
}

} // verus!
