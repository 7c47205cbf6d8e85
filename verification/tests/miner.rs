use minta::effect::Outcome;
use minta::error::RpcFailure;
use minta::message::{AutoBlockMessage, BitcoinMessage};
use minta::miner::{AutoBlockMiner, MinerAction};

#[test]
fn miner_waits_until_the_cadence_has_passed() {
    let mut miner = AutoBlockMiner::new(1_000, 50);
    assert!(!miner.is_due(50));
    assert!(!miner.is_due(1_049));
    assert!(miner.is_due(1_050));
    assert_eq!(miner.poll(None, 50), MinerAction::Wait);
    assert_eq!(miner.poll(None, 1_049), MinerAction::Wait);
    assert!(!miner.is_stopped());
}

#[test]
fn miner_mines_one_block_per_tick() {
    let mut miner = AutoBlockMiner::new(1_000, 0);
    assert_eq!(
        miner.poll_with(None, 1_000, "bcrt1qa".to_string()),
        MinerAction::Mine { address: "bcrt1qa".to_string() }
    );
    assert_eq!(miner.poll_with(None, 1_000, "bcrt1qb".to_string()), MinerAction::Wait);
    assert_eq!(miner.poll_with(None, 1_999, "bcrt1qb".to_string()), MinerAction::Wait);
    assert_eq!(
        miner.poll_with(None, 2_000, "bcrt1qb".to_string()),
        MinerAction::Mine { address: "bcrt1qb".to_string() }
    );
}

#[test]
fn miner_mines_to_fresh_addresses() {
    let mut miner = AutoBlockMiner::new(10, 0);
    let first = match miner.poll(None, 10) {
        MinerAction::Mine { address } => address,
        other => panic!("unexpected action {:?}", other),
    };
    let second = match miner.poll(None, 20) {
        MinerAction::Mine { address } => address,
        other => panic!("unexpected action {:?}", other),
    };
    assert!(!first.is_empty());
    assert_ne!(first, second);
}

#[test]
fn miner_ignores_a_clock_that_ran_backwards() {
    let mut miner = AutoBlockMiner::new(10, 500);
    assert_eq!(miner.poll(None, 100), MinerAction::Wait);
}

#[test]
fn miner_exits_once_on_a_stop_signal() {
    let mut miner = AutoBlockMiner::new(1_000, 0);
    assert_eq!(miner.poll(Some(AutoBlockMessage::Stop), 5_000), MinerAction::Exit);
    assert!(miner.is_stopped());
    assert_eq!(miner.poll(None, 9_000), MinerAction::Halted);
    assert_eq!(miner.poll(Some(AutoBlockMessage::Stop), 9_000), MinerAction::Halted);
    assert_eq!(AutoBlockMiner::farewell(), BitcoinMessage::MinerStopped);
}

#[test]
fn miner_reports_what_came_of_a_block() {
    assert_eq!(AutoBlockMiner::report(Outcome::Done), BitcoinMessage::BlockMined);
    assert_eq!(
        AutoBlockMiner::report(Outcome::Failed(RpcFailure {
            code: Some(-1),
            message: "node is busy".to_string(),
        })),
        BitcoinMessage::FailMineBlock("node is busy".to_string())
    );
}

#[test]
fn miner_keeps_running_after_a_failed_block() {
    let mut miner = AutoBlockMiner::new(100, 0);
    assert!(matches!(miner.poll(None, 100), MinerAction::Mine { .. }));
    let _ = AutoBlockMiner::report(Outcome::Failed(RpcFailure {
        code: None,
        message: "timeout".to_string(),
    }));
    assert!(!miner.is_stopped());
    assert_eq!(miner.poll(None, 150), MinerAction::Wait);
    assert!(matches!(miner.poll(None, 200), MinerAction::Mine { .. }));
}
