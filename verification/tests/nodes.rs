use ckb_scenarios::case::case_options::CaseOptions;
use ckb_scenarios::node::{
    working_directory, BoundedWait, MineGoal, NodeOptions, NodeState, WaitStep, STARTUP_RETRIES,
};
use ckb_scenarios::nodes::{all_synced, are_connected, leader, setup_plan, Nodes, Tip};
use ckb_scenarios::script::{Action, Failure};

fn options(names: &[&str], connected: bool, synced: bool, both: bool) -> CaseOptions {
    CaseOptions {
        make_all_nodes_connected: connected,
        make_all_nodes_synced: synced,
        make_all_nodes_connected_and_synced: both,
        node_options: names
            .iter()
            .map(|name| NodeOptions::new(name, "/opt/ckb", "db/empty", "spec/x", "config/x"))
            .collect(),
    }
}

fn tip(number: u64, hash: u8) -> Tip {
    Tip { number, hash: [hash; 32] }
}

#[test]
fn node_set_finds_nodes_by_name() {
    let nodes = Nodes::new(&options(&["a", "b", "c"], false, false, false)).unwrap();
    assert_eq!(nodes.len(), 3);
    assert_eq!(nodes.get_node("a"), Ok(0));
    assert_eq!(nodes.get_node("c"), Ok(2));
    assert_eq!(nodes.get_node("d"), Err(Failure::UnknownNode));
    assert_eq!(nodes.get_node(""), Err(Failure::UnknownNode));
}

#[test]
fn node_set_refuses_shared_names() {
    let shared = Nodes::new(&options(&["a", "b", "a"], false, false, false));
    assert_eq!(shared.err(), Some(Failure::DuplicateNodeName));
    assert!(Nodes::new(&options(&[], true, true, true)).is_ok());
}

#[test]
fn setup_plan_of_one_node() {
    let plan = setup_plan(&options(&["a"], true, true, true));
    assert_eq!(
        plan,
        vec![
            Action::InitNode { node: 0 },
            Action::StartNode { node: 0 },
            Action::WaitForSync,
            Action::WaitForSync,
        ]
    );
}

#[test]
fn setup_plan_connects_all_pairs() {
    let plan = setup_plan(&options(&["a", "b", "c"], true, false, false));
    assert_eq!(
        plan,
        vec![
            Action::InitNode { node: 0 },
            Action::StartNode { node: 0 },
            Action::InitNode { node: 1 },
            Action::StartNode { node: 1 },
            Action::InitNode { node: 2 },
            Action::StartNode { node: 2 },
            Action::Connect { from: 0, to: 1 },
            Action::Connect { from: 0, to: 2 },
            Action::Connect { from: 1, to: 2 },
        ]
    );
}

#[test]
fn setup_plan_follows_the_toggles_in_order() {
    let none = setup_plan(&options(&["a", "b"], false, false, false));
    assert_eq!(
        none,
        vec![
            Action::InitNode { node: 0 },
            Action::StartNode { node: 0 },
            Action::InitNode { node: 1 },
            Action::StartNode { node: 1 },
        ]
    );
    let synced = setup_plan(&options(&["a", "b"], false, true, false));
    assert_eq!(synced[4..], [Action::WaitForSync]);
    let all = setup_plan(&options(&["a", "b"], true, true, true));
    assert_eq!(
        all[4..],
        [
            Action::Connect { from: 0, to: 1 },
            Action::WaitForSync,
            Action::Connect { from: 0, to: 1 },
            Action::WaitForSync,
        ]
    );
    let four = setup_plan(&options(&["a", "b", "c", "d"], true, false, false));
    assert_eq!(four.len(), 8 + 6);
}

#[test]
fn leader_is_the_first_highest_tip() {
    assert_eq!(leader(&vec![]), None);
    assert_eq!(leader(&vec![tip(5, 1)]), Some(0));
    assert_eq!(leader(&vec![tip(5, 1), tip(9, 2), tip(9, 3), tip(2, 4)]), Some(1));
}

#[test]
fn sync_means_one_tip_hash() {
    assert!(all_synced(&vec![]));
    assert!(all_synced(&vec![tip(5, 1)]));
    assert!(all_synced(&vec![tip(5, 1), tip(5, 1)]));
    assert!(!all_synced(&vec![tip(5, 1), tip(5, 2)]));
    let mut almost = tip(5, 1);
    almost.hash[31] = 0;
    assert!(!all_synced(&vec![tip(5, 1), tip(5, 1), almost]));
}

#[test]
fn waiting_for_sync_is_bounded() {
    let nodes = Nodes::new(&options(&["a", "b"], false, false, false)).unwrap();
    let apart = vec![tip(5, 1), tip(6, 2)];
    let (step, wait) = nodes.waiting_for_sync(BoundedWait::new(2), &apart);
    assert_eq!((step, wait.retries_left), (WaitStep::Retry, 1));
    let (step, wait) = nodes.waiting_for_sync(wait, &apart);
    assert_eq!((step, wait.retries_left), (WaitStep::Retry, 0));
    let (step, wait) = nodes.waiting_for_sync(wait, &apart);
    assert_eq!((step, wait.retries_left), (WaitStep::Exhausted, 0));
    let together = vec![tip(6, 2), tip(6, 2)];
    let (step, _) = nodes.waiting_for_sync(wait, &together);
    assert_eq!(step, WaitStep::Satisfied);
    // One tip for each node, or the nodes are not known to agree.
    let (step, _) = nodes.waiting_for_sync(BoundedWait::new(1), &vec![tip(6, 2)]);
    assert_eq!(step, WaitStep::Retry);
}

#[test]
fn bounded_wait_counts_down() {
    assert_eq!(STARTUP_RETRIES, 60);
    let mut wait = BoundedWait::new(STARTUP_RETRIES);
    for _ in 0..60 {
        let (step, next) = wait.observe(false);
        assert_eq!(step, WaitStep::Retry);
        wait = next;
    }
    assert_eq!(wait.observe(false), (WaitStep::Exhausted, BoundedWait { retries_left: 0 }));
    assert_eq!(wait.observe(true), (WaitStep::Satisfied, BoundedWait { retries_left: 0 }));
}

#[test]
fn node_life() {
    let state = NodeState::Uninitialized;
    assert!(!state.is_usable());
    assert_eq!(state.start(), None);
    let state = state.init().unwrap();
    assert_eq!(state, NodeState::Initialized);
    assert_eq!(state.init(), None);
    assert!(!state.is_usable());
    let state = state.start().unwrap();
    assert_eq!(state, NodeState::Running);
    assert!(state.is_usable());
    assert_eq!(state.start(), None);
    let state = state.stop();
    assert_eq!(state, NodeState::Stopped);
    assert_eq!(state.stop(), NodeState::Stopped);
    assert!(!state.is_usable());
    assert_eq!(state.start(), None);
    assert_eq!(NodeState::Uninitialized.stop(), NodeState::Stopped);
}

#[test]
fn working_directory_joins_scenario_and_node() {
    assert_eq!(working_directory("RFC0221AfterSwitch", "node-fork2021"), "RFC0221AfterSwitch/node-fork2021");
    assert_eq!(working_directory("", ""), "/");
}

#[test]
fn mine_goal() {
    let goal = MineGoal::new(10, 3).unwrap();
    assert_eq!(goal.target, 13);
    assert_eq!(goal.blocks_left(10), 3);
    assert_eq!(goal.blocks_left(12), 1);
    assert_eq!(goal.blocks_left(13), 0);
    assert_eq!(goal.blocks_left(20), 0);
    assert_eq!(MineGoal::new(u64::MAX, 1), None);
    assert_eq!(MineGoal::new(u64::MAX, 0), Some(MineGoal { target: u64::MAX }));
}

#[test]
fn connected_means_each_lists_the_other() {
    let a_peers = vec!["QmB".to_string(), "QmC".to_string()];
    let b_peers = vec!["QmA".to_string()];
    assert!(are_connected(&a_peers, "QmA", &b_peers, "QmB"));
    assert!(!are_connected(&a_peers, "QmA", &vec![], "QmB"));
    assert!(!are_connected(&vec!["QmC".to_string()], "QmA", &b_peers, "QmB"));
    assert!(!are_connected(&vec![], "QmA", &vec![], "QmB"));
}
