use ckb_scenarios::case::rfc0221::networking::{NetworkingPhase, NetworkingRun, RFC0221Networking};
use ckb_scenarios::chain::{CellDep, LiveCell, OutPoint, Script};
use ckb_scenarios::config::Config;
use ckb_scenarios::nodes::Nodes;
use ckb_scenarios::script::{Action, ErrorKind, Event, Failure, Outcome};

const NEW: usize = 0;
const OLD: usize = 1;
const SENTINEL: &str = "BlockIsInvalid(401)";

fn cell(block_number: Option<u64>) -> LiveCell {
    LiveCell {
        out_point: OutPoint { tx_hash: [7u8; 32], index: 0 },
        capacity: 5_000_000_000,
        lock: Script { code_hash: [1u8; 32], hash_type: 0, args: vec![] },
        type_: None,
        block_number,
    }
}

fn cell_dep() -> CellDep {
    CellDep { out_point: OutPoint { tx_hash: [9u8; 32], index: 0 }, dep_type: 0 }
}

fn timestamp(number: u64) -> u64 {
    1_600_000_000_000 + 1000 * number
}

fn median(number: u64) -> u64 {
    timestamp(number.saturating_sub(18))
}

/// Two nodes on one chain until the pre-fork node packs the transaction.
struct Network {
    height: u64,
    old_height: u64,
    input_block: u64,
    split: bool,
    verdicts: Vec<(usize, bool)>,
}

impl Network {
    fn answer(&mut self, action: Action) -> Event {
        match action {
            Action::GetCurrentEpoch { node: NEW } => Event::Epoch(self.height / 10),
            Action::Mine { node: NEW, blocks } => {
                self.height += blocks;
                self.old_height = self.height;
                Event::Done
            }
            Action::Mine { node: OLD, blocks } => {
                self.old_height += blocks;
                self.split = true;
                Event::Done
            }
            Action::Sleep { .. } => Event::Done,
            Action::GetLiveCells { node: NEW } => Event::LiveCells(vec![cell(Some(self.height))]),
            Action::GetCommittedTimestamp { node: NEW, block_number } => {
                self.input_block = block_number;
                Event::Timestamp(timestamp(block_number))
            }
            Action::GetMedianTimestamp { node: NEW, block_number } => {
                Event::Timestamp(median(block_number))
            }
            Action::GetCellDep { node: NEW } => Event::CellDep(cell_dep()),
            Action::GetTipBlockNumber { node: NEW } => Event::BlockNumber(self.height),
            Action::WaitForSync => Event::SyncResult { synced: !self.split },
            Action::SendTransaction { node } => {
                let start = if node == NEW {
                    timestamp(self.input_block)
                } else {
                    median(self.input_block)
                };
                let accepted = start + 2000 <= median(self.height);
                self.verdicts.push((node, accepted));
                Event::TransactionResult { accepted }
            }
            Action::GetProposalWindow { node: OLD } => Event::ProposalWindow { closest: 2 },
            Action::GetBannedAddresses { node: NEW } => Event::BannedAddresses(if self.split {
                vec!["bad peer: BlockIsInvalid(401)".to_string()]
            } else {
                vec![]
            }),
            other => panic!("the scenario asked for {:?}", other),
        }
    }
}

#[test]
fn networking_divergence() {
    let mut network =
        Network { height: 20, old_height: 20, input_block: 0, split: false, verdicts: vec![] };
    let mut run = NetworkingRun::new(OLD, NEW, SENTINEL);
    let mut mined_on_old = Vec::new();
    let outcome = loop {
        match run.action() {
            Action::Finish(outcome) => break outcome,
            action => {
                if let Action::Mine { node: OLD, blocks } = action {
                    mined_on_old.push(blocks);
                }
                run = run.on_event(network.answer(action));
            }
        }
    };
    assert_eq!(outcome, Outcome::Passed);
    // The input is confirmed at height 67; two blocks later the old rule's lock has run out.
    assert_eq!(network.input_block, 67);
    assert_eq!(network.height, 69);
    assert_eq!(network.verdicts, vec![(NEW, false), (OLD, true)]);
    assert_eq!(mined_on_old, vec![3]);
    assert_eq!(network.old_height, 72);
}

fn at_tip_median(start_new: u64, start_old: u64) -> NetworkingRun {
    NetworkingRun::with_parameters(OLD, NEW, 2, SENTINEL, 0, 5)
        .on_event(Event::Epoch(3))
        .on_event(Event::LiveCells(vec![cell(Some(50))]))
        .on_event(Event::Timestamp(start_new))
        .on_event(Event::Timestamp(start_old))
        .on_event(Event::CellDep(cell_dep()))
        .on_event(Event::BlockNumber(60))
}

fn after_submissions() -> NetworkingRun {
    at_tip_median(30_000, 10_000)
        .on_event(Event::Timestamp(12_000))
        .on_event(Event::SyncResult { synced: true })
        .on_event(Event::TransactionResult { accepted: false })
        .on_event(Event::TransactionResult { accepted: true })
}

#[test]
fn networking_asks_both_start_times_of_the_post_fork_node() {
    let run = NetworkingRun::with_parameters(OLD, NEW, 2, SENTINEL, 0, 5)
        .on_event(Event::Epoch(3))
        .on_event(Event::LiveCells(vec![cell(Some(50))]));
    assert_eq!(run.action(), Action::GetCommittedTimestamp { node: NEW, block_number: 50 });
    let run = run.on_event(Event::Timestamp(30_000));
    assert_eq!(run.action(), Action::GetMedianTimestamp { node: NEW, block_number: 50 });
}

#[test]
fn networking_start_times_must_be_ordered() {
    let equal = NetworkingRun::with_parameters(OLD, NEW, 2, SENTINEL, 0, 5)
        .on_event(Event::Epoch(3))
        .on_event(Event::LiveCells(vec![cell(Some(50))]))
        .on_event(Event::Timestamp(30_000))
        .on_event(Event::Timestamp(30_000));
    assert_eq!(equal.outcome(), Some(Outcome::Failed(Failure::StartTimesNotOrdered)));
    assert_eq!(Failure::StartTimesNotOrdered.kind(), ErrorKind::AssertionFailure);
}

#[test]
fn networking_window_bounds() {
    // Below the old rule's end: mine on.
    let below = at_tip_median(30_000, 10_000).on_event(Event::Timestamp(11_999));
    assert_eq!(below.phase(), NetworkingPhase::MineToWindow);
    assert_eq!(below.action(), Action::Mine { node: NEW, blocks: 1 });
    assert_eq!(below.on_event(Event::Done).action(), Action::GetTipBlockNumber { node: NEW });
    // From the old rule's end to just before the new rule's end: the window.
    let lower = at_tip_median(30_000, 10_000).on_event(Event::Timestamp(12_000));
    assert_eq!(lower.phase(), NetworkingPhase::SyncBeforeSend);
    let upper = at_tip_median(30_000, 10_000).on_event(Event::Timestamp(31_999));
    assert_eq!(upper.phase(), NetworkingPhase::SyncBeforeSend);
    assert_eq!(upper.action(), Action::WaitForSync);
    // At the new rule's end the window is missed.
    let missed = at_tip_median(30_000, 10_000).on_event(Event::Timestamp(32_000));
    assert_eq!(missed.outcome(), Some(Outcome::Failed(Failure::WindowMissed)));
    assert_eq!(Failure::WindowMissed.kind(), ErrorKind::AssertionFailure);
}

#[test]
fn networking_gives_up_after_its_attempts() {
    let mut run = at_tip_median(30_000, 10_000);
    for _ in 0..5 {
        run = run.on_event(Event::Timestamp(11_000));
        assert_eq!(run.phase(), NetworkingPhase::MineToWindow);
        run = run.on_event(Event::Done).on_event(Event::BlockNumber(61));
    }
    run = run.on_event(Event::Timestamp(11_000));
    assert_eq!(run.outcome(), Some(Outcome::Failed(Failure::AttemptsExhausted)));
}

#[test]
fn networking_verdicts() {
    let run = at_tip_median(30_000, 10_000).on_event(Event::Timestamp(12_000));
    let unsynced = run.on_event(Event::SyncResult { synced: false });
    assert_eq!(unsynced.outcome(), Some(Outcome::Failed(Failure::SyncTimedOut)));
    assert_eq!(Failure::SyncTimedOut.kind(), ErrorKind::Timeout);
    assert_eq!(Failure::SyncTimedOut.message(), "nodes can sync before rfc0221 block");

    let synced = at_tip_median(30_000, 10_000)
        .on_event(Event::Timestamp(12_000))
        .on_event(Event::SyncResult { synced: true });
    assert_eq!(synced.action(), Action::SendTransaction { node: NEW });
    assert!(synced.transaction().is_some());
    let accepted_by_new = synced.on_event(Event::TransactionResult { accepted: true });
    assert_eq!(accepted_by_new.outcome(), Some(Outcome::Failed(Failure::AcceptedTooEarly)));

    let to_old = at_tip_median(30_000, 10_000)
        .on_event(Event::Timestamp(12_000))
        .on_event(Event::SyncResult { synced: true })
        .on_event(Event::TransactionResult { accepted: false });
    assert_eq!(to_old.action(), Action::SendTransaction { node: OLD });
    let rejected_by_old = to_old.on_event(Event::TransactionResult { accepted: false });
    assert_eq!(rejected_by_old.outcome(), Some(Outcome::Failed(Failure::RejectedWhenDue)));
}

#[test]
fn networking_mines_one_past_the_proposal_window() {
    let run = after_submissions();
    assert_eq!(run.action(), Action::GetProposalWindow { node: OLD });
    let run = run.on_event(Event::ProposalWindow { closest: 2 });
    assert_eq!(run.action(), Action::Mine { node: OLD, blocks: 3 });
    let far = after_submissions().on_event(Event::ProposalWindow { closest: u64::MAX - 1 });
    assert_eq!(far.action(), Action::Mine { node: OLD, blocks: u64::MAX });
    let too_far = after_submissions().on_event(Event::ProposalWindow { closest: u64::MAX });
    assert_eq!(too_far.outcome(), Some(Outcome::Failed(Failure::ProposalWindowTooLarge)));
    assert_eq!(Failure::ProposalWindowTooLarge.kind(), ErrorKind::Rpc);
}

#[test]
fn networking_expects_the_split_and_the_ban() {
    let mined = after_submissions()
        .on_event(Event::ProposalWindow { closest: 2 })
        .on_event(Event::Done);
    assert_eq!(mined.action(), Action::WaitForSync);
    let synced = mined.on_event(Event::SyncResult { synced: true });
    assert_eq!(synced.outcome(), Some(Outcome::Failed(Failure::UnexpectedSync)));
    assert_eq!(Failure::UnexpectedSync.message(), "nodes cannot sync after rfc0221 block");

    let split = after_submissions()
        .on_event(Event::ProposalWindow { closest: 2 })
        .on_event(Event::Done)
        .on_event(Event::SyncResult { synced: false });
    assert_eq!(split.action(), Action::GetBannedAddresses { node: NEW });
    let unbanned = split.on_event(Event::BannedAddresses(vec!["BlockIsInvalid(400)".to_string()]));
    assert_eq!(unbanned.outcome(), Some(Outcome::Failed(Failure::PeerNotBanned)));
    assert_eq!(Failure::PeerNotBanned.kind(), ErrorKind::AssertionFailure);

    let banned = after_submissions()
        .on_event(Event::ProposalWindow { closest: 2 })
        .on_event(Event::Done)
        .on_event(Event::SyncResult { synced: false })
        .on_event(Event::BannedAddresses(vec![
            "spam".to_string(),
            "Verification failed: BlockIsInvalid(401)".to_string(),
        ]));
    assert_eq!(banned.outcome(), Some(Outcome::Passed));
}

#[test]
fn networking_sentinel_is_configurable() {
    let run = NetworkingRun::with_parameters(OLD, NEW, 2, "Invalid(77)", 0, 5)
        .on_event(Event::Epoch(3))
        .on_event(Event::LiveCells(vec![cell(Some(50))]))
        .on_event(Event::Timestamp(30_000))
        .on_event(Event::Timestamp(10_000))
        .on_event(Event::CellDep(cell_dep()))
        .on_event(Event::BlockNumber(60))
        .on_event(Event::Timestamp(12_000))
        .on_event(Event::SyncResult { synced: true })
        .on_event(Event::TransactionResult { accepted: false })
        .on_event(Event::TransactionResult { accepted: true })
        .on_event(Event::ProposalWindow { closest: 2 })
        .on_event(Event::Done)
        .on_event(Event::SyncResult { synced: false })
        .on_event(Event::BannedAddresses(vec!["BlockIsInvalid(401)".to_string()]));
    assert_eq!(run.outcome(), Some(Outcome::Failed(Failure::PeerNotBanned)));
}

#[test]
fn networking_case_options() {
    let config = Config::new(Some("/opt/old".to_string()), Some("/opt/new".to_string()), None);
    let options = RFC0221Networking.case_options(&config).unwrap();
    assert!(options.make_all_nodes_connected);
    assert!(options.make_all_nodes_synced);
    assert!(options.make_all_nodes_connected_and_synced);
    assert_eq!(options.node_options.len(), 2);
    let new = &options.node_options[0];
    assert_eq!(new.node_name, "node2021");
    assert_eq!(new.ckb_binary, "/opt/new");
    assert_eq!(new.initial_database, "db/empty");
    assert_eq!(new.chain_spec, "spec/ckb2021");
    assert_eq!(new.app_config, "config/ckb2021");
    let old = &options.node_options[1];
    assert_eq!(old.node_name, "node2019");
    assert_eq!(old.ckb_binary, "/opt/old");
    assert_eq!(old.initial_database, "db/Epoch2V1TestData");
    assert_eq!(old.chain_spec, "spec/ckb2021");
    assert_eq!(old.app_config, "config/ckb2021");
    assert_eq!(RFC0221Networking.case_name(), "RFC0221Networking");

    let nodes = Nodes::new(&options).unwrap();
    assert_eq!(nodes.get_node("node2021"), Ok(0));
    assert_eq!(nodes.get_node("node2019"), Ok(1));
    let run = RFC0221Networking.run(&nodes, &config).unwrap();
    assert_eq!(run.action(), Action::GetCurrentEpoch { node: 0 });
}

#[test]
fn networking_missing_binary() {
    let only_old = Config::new(Some("/opt/old".to_string()), None, Some("/opt/fork".to_string()));
    assert_eq!(RFC0221Networking.case_options(&only_old), Err(Failure::MissingBinary));
    let only_new = Config::new(None, Some("/opt/new".to_string()), None);
    assert_eq!(RFC0221Networking.case_options(&only_new), Err(Failure::MissingBinary));
}
