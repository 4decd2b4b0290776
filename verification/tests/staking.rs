use konn3ct::identity::Pubkey;
use konn3ct::records::StakedNft;
use konn3ct::staking::stake_nft;

fn key(hi: u128, lo: u128) -> Pubkey {
    Pubkey { hi, lo }
}

#[test]
fn stake_then_read_record() {
    let staker = key(7, 11);
    let mint = key(100, 200);
    let now: i64 = 1_700_000_000;
    let (record, _notification) = stake_nft(staker, mint, now);
    assert!(record.is_staked);
    assert_eq!(record.staker, staker);
    assert_eq!(record.nft_mint, mint);
    assert_eq!(record.stake_time, now);
}

#[test]
fn stake_notification_matches_record() {
    let staker = key(1, 2);
    let mint = key(3, 4);
    let now: i64 = 42;
    let (record, notification) = stake_nft(staker, mint, now);
    assert_eq!(notification.staker, record.staker);
    assert_eq!(notification.nft_mint, record.nft_mint);
    assert_eq!(notification.stake_time, record.stake_time);
}

#[test]
fn stake_at_epoch_start() {
    let staker = key(0, 0);
    let mint = key(0, 1);
    let (record, _notification) = stake_nft(staker, mint, 0);
    assert!(record.is_staked);
    assert_eq!(record.stake_time, 0);
}

#[test]
fn records_with_equal_fields_are_equal() {
    let a = StakedNft { staker: key(1, 1), nft_mint: key(2, 2), stake_time: 5, is_staked: true };
    let b = StakedNft { staker: key(1, 1), nft_mint: key(2, 2), stake_time: 5, is_staked: true };
    assert_eq!(a, b);
    let c = StakedNft { is_staked: false, ..a };
    assert_ne!(a, c);
}
