use ckb_scenarios::case::rfc0221::after_switch::RFC0221AfterSwitch;
use ckb_scenarios::case::rfc0221::networking::RFC0221Networking;
use ckb_scenarios::case::{
    all_cases, enabled_cases, exit_code, find_case, optional_cases, run_case, Case, RunnerPhase,
};
use ckb_scenarios::chain::{CellDep, LiveCell, OutPoint, Script};
use ckb_scenarios::config::{
    Config, DEFAULT_BAN_SENTINEL, ENV_CKB2019, ENV_CKB2021, ENV_CKB_FORK2021_BINARY,
};
use ckb_scenarios::script::{Action, ErrorKind, Event, Failure, Outcome};
use ckb_scenarios::testdata::epoch2::{Epoch2V1TestData, Epoch2V2TestData, TestdataPhase};

fn config() -> Config {
    Config::new(
        Some("/opt/ckb2019".to_string()),
        Some("/opt/ckb2021".to_string()),
        Some("/opt/ckb-fork2021".to_string()),
    )
}

fn cell(block_number: u64) -> LiveCell {
    LiveCell {
        out_point: OutPoint { tx_hash: [7u8; 32], index: 0 },
        capacity: 5_000_000_000,
        lock: Script { code_hash: [1u8; 32], hash_type: 0, args: vec![] },
        type_: None,
        block_number: Some(block_number),
    }
}

#[test]
fn registry_holds_the_after_switch_scenario() {
    assert_eq!(all_cases(), vec![Case::AfterSwitch(RFC0221AfterSwitch)]);
    assert_eq!(optional_cases(), vec![Case::Networking(RFC0221Networking)]);
    let mut wanted = config();
    assert_eq!(enabled_cases(&wanted), all_cases());
    wanted.include_optional = true;
    assert_eq!(
        enabled_cases(&wanted),
        vec![Case::AfterSwitch(RFC0221AfterSwitch), Case::Networking(RFC0221Networking)]
    );
}

#[test]
fn case_names_are_distinct_and_not_empty() {
    let names: Vec<&str> = enabled_cases(&Config { include_optional: true, ..config() })
        .iter()
        .map(|case| case.case_name())
        .collect();
    assert_eq!(names, vec!["RFC0221AfterSwitch", "RFC0221Networking"]);
    assert!(names.iter().all(|name| !name.is_empty()));
    assert_eq!(find_case("RFC0221AfterSwitch"), Some(Case::AfterSwitch(RFC0221AfterSwitch)));
    assert_eq!(find_case("RFC0221Networking"), Some(Case::Networking(RFC0221Networking)));
    assert_eq!(find_case("RFC0221BeforeSwitch"), None);
    assert_eq!(find_case(""), None);
}

#[test]
fn configuration_defaults() {
    let config = config();
    assert_eq!(config.ban_sentinel, "BlockIsInvalid(401)");
    assert_eq!(DEFAULT_BAN_SENTINEL, "BlockIsInvalid(401)");
    assert!(!config.include_optional);
    assert_eq!(ENV_CKB_FORK2021_BINARY, "CKB_FORK2021_BINARY");
    assert_eq!(ENV_CKB2019, "CKB2019");
    assert_eq!(ENV_CKB2021, "CKB2021");
}

#[test]
fn exit_code_is_zero_only_if_all_passed() {
    assert_eq!(exit_code(&vec![]), 0);
    assert_eq!(exit_code(&vec![Outcome::Passed, Outcome::Passed]), 0);
    assert_eq!(exit_code(&vec![Outcome::Passed, Outcome::Failed(Failure::NoLiveCell)]), 1);
    assert_eq!(exit_code(&vec![Outcome::Failed(Failure::SyncTimedOut)]), 1);
}

#[test]
fn missing_binary_is_announced_reported_and_released() {
    let config = Config::new(None, None, None);
    let failed = Outcome::Failed(Failure::MissingBinary);
    let mut run = run_case(Case::AfterSwitch(RFC0221AfterSwitch), &config);
    assert_eq!(run.phase(), RunnerPhase::Announce);
    assert_eq!(run.action(), Action::LogStart);
    run = run.on_event(Event::Done);
    assert_eq!(run.action(), Action::LogFailure(Failure::MissingBinary));
    assert_eq!(run.outcome(), None);
    run = run.on_event(Event::Done);
    assert_eq!(run.action(), Action::StopNodes);
    assert_eq!(run.outcome(), None);
    run = run.on_event(Event::Done);
    assert_eq!(run.action(), Action::Finish(failed));
    assert_eq!(run.outcome(), Some(failed));
    assert_eq!(Failure::MissingBinary.kind(), ErrorKind::Environment);
    assert_eq!(exit_code(&vec![failed]), 1);
    assert!(run.transaction().is_none());
}

#[test]
fn run_builds_the_nodes_before_the_scenario() {
    let mut run = run_case(Case::Networking(RFC0221Networking), &config());
    let mut asked = Vec::new();
    for _ in 0..9 {
        asked.push(run.action());
        let event = match run.action() {
            Action::WaitForSync => Event::SyncResult { synced: true },
            _ => Event::Done,
        };
        run = run.on_event(event);
    }
    assert_eq!(
        asked,
        vec![
            Action::LogStart,
            Action::InitNode { node: 0 },
            Action::StartNode { node: 0 },
            Action::InitNode { node: 1 },
            Action::StartNode { node: 1 },
            Action::Connect { from: 0, to: 1 },
            Action::WaitForSync,
            Action::Connect { from: 0, to: 1 },
            Action::WaitForSync,
        ]
    );
    assert_eq!(run.phase(), RunnerPhase::Running);
    assert_eq!(run.action(), Action::GetCurrentEpoch { node: 0 });
}

#[test]
fn a_fault_during_setup_still_stops_the_nodes() {
    let run = run_case(Case::AfterSwitch(RFC0221AfterSwitch), &config())
        .on_event(Event::Done)
        .on_event(Event::Done);
    assert_eq!(run.action(), Action::StartNode { node: 0 });
    let failure = Failure::Fault(ErrorKind::NodeStartup);
    let run = run.on_event(Event::Fault(ErrorKind::NodeStartup));
    assert_eq!(run.action(), Action::LogFailure(failure));
    let run = run.on_event(Event::Done);
    assert_eq!(run.action(), Action::StopNodes);
    let run = run.on_event(Event::Fault(ErrorKind::Io));
    assert_eq!(run.outcome(), Some(Outcome::Failed(failure)));
    assert_eq!(failure.kind(), ErrorKind::NodeStartup);
}

#[test]
fn setup_that_does_not_sync_fails() {
    let run = run_case(Case::AfterSwitch(RFC0221AfterSwitch), &config())
        .on_event(Event::Done)
        .on_event(Event::Done)
        .on_event(Event::Done);
    assert_eq!(run.action(), Action::WaitForSync);
    let run = run.on_event(Event::SyncResult { synced: false });
    assert_eq!(run.action(), Action::LogFailure(Failure::SyncTimedOut));
}

#[test]
fn passing_run_logs_its_end_and_stops_the_nodes() {
    let mut run = run_case(Case::AfterSwitch(RFC0221AfterSwitch), &config());
    let mut height = 30u64;
    let mut asked = Vec::new();
    let outcome = loop {
        let action = run.action();
        let event = match action {
            Action::Finish(outcome) => break outcome,
            Action::WaitForSync => Event::SyncResult { synced: true },
            Action::GetCurrentEpoch { .. } => Event::Epoch(3),
            Action::Mine { blocks, .. } => {
                height += blocks;
                Event::Done
            }
            Action::GetLiveCells { .. } => Event::LiveCells(vec![cell(height)]),
            Action::GetCommittedTimestamp { block_number, .. } => Event::Timestamp(1000 * block_number),
            Action::GetCellDep { .. } => Event::CellDep(CellDep {
                out_point: OutPoint { tx_hash: [9u8; 32], index: 0 },
                dep_type: 0,
            }),
            Action::GetTipBlockNumber { .. } => Event::BlockNumber(height),
            Action::GetMedianTimestamp { block_number, .. } => {
                Event::Timestamp(1000 * (block_number - 1))
            }
            Action::SendTransaction { .. } => {
                assert!(run.transaction().is_some());
                Event::TransactionResult { accepted: height >= 67 + 3 }
            }
            _ => Event::Done,
        };
        asked.push(action);
        run = run.on_event(event);
    };
    assert_eq!(outcome, Outcome::Passed);
    assert_eq!(asked[0], Action::LogStart);
    assert_eq!(asked[1..5], [
        Action::InitNode { node: 0 },
        Action::StartNode { node: 0 },
        Action::WaitForSync,
        Action::WaitForSync,
    ]);
    let n = asked.len();
    assert_eq!(asked[n - 3..], [Action::SendTransaction { node: 0 }, Action::LogEnd, Action::StopNodes]);
    let sends = asked.iter().filter(|a| matches!(a, Action::SendTransaction { .. })).count();
    assert_eq!(sends, 4);
    assert_eq!(exit_code(&vec![outcome]), 0);
}

#[test]
fn failing_scenario_is_reported_and_released() {
    let mut run = run_case(Case::AfterSwitch(RFC0221AfterSwitch), &config());
    for _ in 0..3 {
        run = run.on_event(Event::Done);
    }
    run = run.on_event(Event::SyncResult { synced: true });
    run = run.on_event(Event::SyncResult { synced: true });
    assert_eq!(run.phase(), RunnerPhase::Running);
    run = run.on_event(Event::Fault(ErrorKind::Rpc));
    let failure = Failure::Fault(ErrorKind::Rpc);
    assert_eq!(run.phase(), RunnerPhase::Conclude(Outcome::Failed(failure)));
    assert_eq!(run.action(), Action::LogFailure(failure));
    run = run.on_event(Event::Done);
    assert_eq!(run.phase(), RunnerPhase::Teardown(Outcome::Failed(failure)));
    run = run.on_event(Event::Done);
    assert_eq!(run.phase(), RunnerPhase::Finished(Outcome::Failed(failure)));
    run = run.on_event(Event::Epoch(3));
    assert_eq!(run.outcome(), Some(Outcome::Failed(failure)));
}

#[test]
fn snapshots_are_named_after_their_makers() {
    assert_eq!(Epoch2V1TestData.testdata_name(), "Epoch2V1TestData");
    assert_eq!(Epoch2V2TestData.testdata_name(), "Epoch2V2TestData");
    assert_eq!(Epoch2V1TestData.database(), "db/Epoch2V1TestData");
    assert_eq!(Epoch2V2TestData.database(), "db/Epoch2V2TestData");
    let v1 = Epoch2V1TestData.node_options(&config()).unwrap();
    assert_eq!(v1.node_name, "node2019");
    assert_eq!(v1.ckb_binary, "/opt/ckb2019");
    assert_eq!(v1.initial_database, "db/empty");
    assert_eq!(v1.chain_spec, "spec/ckb2021");
    assert_eq!(v1.app_config, "config/ckb2021");
    let v2 = Epoch2V2TestData.node_options(&config()).unwrap();
    assert_eq!(v2.node_name, "node2021");
    assert_eq!(v2.ckb_binary, "/opt/ckb2021");
    assert_eq!(v2.initial_database, "db/empty");
    let none = Config::new(None, None, None);
    assert_eq!(Epoch2V1TestData.node_options(&none), Err(Failure::MissingBinary));
    assert_eq!(Epoch2V2TestData.node_options(&none), Err(Failure::MissingBinary));
}

#[test]
fn snapshot_is_dumped_at_epoch_two() {
    let mut run = Epoch2V2TestData.generate();
    assert_eq!(run.action(), Action::InitNode { node: 0 });
    run = run.on_event(&Event::Done);
    assert_eq!(run.action(), Action::StartNode { node: 0 });
    run = run.on_event(&Event::Done);
    for epoch in [0u64, 1, 1] {
        assert_eq!(run.action(), Action::Mine { node: 0, blocks: 1 });
        run = run.on_event(&Event::Done);
        assert_eq!(run.action(), Action::GetCurrentEpoch { node: 0 });
        run = run.on_event(&Event::Epoch(epoch));
    }
    run = run.on_event(&Event::Done).on_event(&Event::Epoch(2));
    assert_eq!(run.action(), Action::DumpTestdata { node: 0 });
    run = run.on_event(&Event::Done);
    assert_eq!(run.action(), Action::StopNodes);
    run = run.on_event(&Event::Done);
    assert_eq!(run.action(), Action::Finish(Outcome::Passed));
    assert_eq!(run.on_event(&Event::Done).phase, TestdataPhase::Finished(Outcome::Passed));
}

#[test]
fn snapshot_of_the_pre_fork_binary_reads_the_tip_block() {
    let run = Epoch2V1TestData
        .generate()
        .on_event(&Event::Done)
        .on_event(&Event::Done)
        .on_event(&Event::Done);
    assert_eq!(run.action(), Action::GetTipEpoch { node: 0 });
    let failed = run.on_event(&Event::Fault(ErrorKind::Rpc));
    assert_eq!(failed.action(), Action::StopNodes);
    let failed = failed.on_event(&Event::Done);
    assert_eq!(failed.action(), Action::Finish(Outcome::Failed(Failure::Fault(ErrorKind::Rpc))));
}

#[test]
fn every_failure_has_a_kind_and_a_message() {
    let kinds = [
        ErrorKind::Environment,
        ErrorKind::Io,
        ErrorKind::NodeStartup,
        ErrorKind::Rpc,
        ErrorKind::Timeout,
        ErrorKind::AssertionFailure,
        ErrorKind::UnknownNode,
    ];
    for kind in kinds {
        assert_eq!(Failure::Fault(kind).kind(), kind);
        assert!(!Failure::Fault(kind).message().is_empty());
    }
    let failures = [
        (Failure::UnexpectedEvent, ErrorKind::Rpc),
        (Failure::MissingBinary, ErrorKind::Environment),
        (Failure::UnknownNode, ErrorKind::UnknownNode),
        (Failure::DuplicateNodeName, ErrorKind::AssertionFailure),
        (Failure::NoLiveCell, ErrorKind::AssertionFailure),
        (Failure::NoTransactionInfo, ErrorKind::AssertionFailure),
        (Failure::AcceptedTooEarly, ErrorKind::AssertionFailure),
        (Failure::RejectedWhenDue, ErrorKind::AssertionFailure),
        (Failure::AttemptsExhausted, ErrorKind::Timeout),
        (Failure::StartTimesNotOrdered, ErrorKind::AssertionFailure),
        (Failure::WindowMissed, ErrorKind::AssertionFailure),
        (Failure::SyncTimedOut, ErrorKind::Timeout),
        (Failure::UnexpectedSync, ErrorKind::AssertionFailure),
        (Failure::PeerNotBanned, ErrorKind::AssertionFailure),
        (Failure::ProposalWindowTooLarge, ErrorKind::Rpc),
    ];
    for (failure, kind) in failures {
        assert_eq!(failure.kind(), kind);
        assert!(!failure.message().is_empty());
    }
    assert_eq!(Failure::NoLiveCell.message(), "no live cell available");
    assert_eq!(
        Failure::PeerNotBanned.message(),
        "the node should ban its peer after rfc0221 block"
    );
}
