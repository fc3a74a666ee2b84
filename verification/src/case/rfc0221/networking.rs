//! Across the activation, on two nodes: a transaction that the old rule allows and the new
//! rule forbids is rejected by the post-fork node and accepted by the pre-fork node; once
//! the pre-fork node has packed it into a block the chains split, and the post-fork node
//! bans its peer.

use crate::case::case_options::{CaseOptions, CaseOptionsModel};
use crate::case::rfc0221::{
    ATTEMPT_BUDGET, BLOCKS_PAST_SWITCH, RELATIVE_SECS, RFC0221_EPOCH_NUMBER, is_rfc0221_switched,
};
use crate::chain::{CellDep, CellDepModel, LiveCell, LiveCellModel};
use crate::config::Config;
use crate::node::{NodeOptions, NodeOptionsModel};
use crate::nodes::Nodes;
use crate::script::{Action, Event, EventModel, Failure, Outcome};
use crate::transaction::{TransactionModel, serializes, spend_model, spend_transaction};
use crate::util::{
    any_cites, cited, is_lock_elapsed, lock_elapsed, relative_timestamp_since,
    since_from_relative_timestamp,
};
use vstd::prelude::*;

verus! {

/// The name of the pre-fork node.
pub const OLD_NODE_NAME: &'static str = "node2019";

/// The name of the post-fork node, which drives the scenario.
pub const NEW_NODE_NAME: &'static str = "node2021";

/// Where a run of the scenario stands: what it has asked for and waits to hear of.
#[derive(Clone, Copy, Debug, PartialEq, Eq, Structural)]
pub enum NetworkingPhase {
    /// Asked the post-fork node for the current epoch.
    AwaitEpoch,
    /// Mining a block because the activation has not been reached.
    MineToSwitch,
    /// Mining one of the blocks past the activation.
    MinePastSwitch,
    /// Letting a second pass after a block past the activation.
    PaceAfterMine,
    /// Asked the post-fork node for its live cells.
    AwaitLiveCells,
    /// Asked for the committed timestamp of the input's block: the start under the new rule.
    AwaitNewStart,
    /// Asked for the median timestamp of the input's block: the start under the old rule.
    AwaitOldStart,
    /// Asked for the cell dependency.
    AwaitCellDep,
    /// Asked for the number of the tip block.
    AwaitTip,
    /// Asked for the median timestamp of the tip block.
    AwaitTipMedian,
    /// Mining a block because the lock is still running under both rules.
    MineToWindow,
    /// Waiting for the nodes to agree on the tip before the transaction is submitted.
    SyncBeforeSend,
    /// Submitted the transaction to the post-fork node.
    SendToNew,
    /// Submitted the transaction to the pre-fork node.
    SendToOld,
    /// Asked the pre-fork node for its proposal window.
    AwaitProposalWindow,
    /// Mining on the pre-fork node until it has packed the transaction.
    MineOnOld,
    /// Waiting for the nodes to agree on the tip, in expectation that they do not.
    SyncAfterMine,
    /// Asked the post-fork node for its bans.
    AwaitBans,
    /// The scenario passed.
    Passed,
    /// The scenario failed.
    Failed(Failure),
}

/// The state of a run, as mathematics.
pub struct NetworkingState {
    pub phase: NetworkingPhase,
    /// The pre-fork node.
    pub old_node: usize,
    /// The post-fork node.
    pub new_node: usize,
    /// The length of the lock, in seconds.
    pub relative_secs: u64,
    /// The text that marks a ban for an invalid block.
    pub ban_sentinel: Seq<char>,
    /// The blocks past the activation that are still to be mined.
    pub blocks_left: u64,
    /// How often the lock may still be found running under both rules.
    pub attempts_left: u64,
    /// The cell that the transaction spends, once chosen.
    pub input: Option<LiveCellModel>,
    /// The number of the block that confirmed the input.
    pub input_block: u64,
    /// The committed timestamp of that block.
    pub start_new: u64,
    /// The median timestamp of that block.
    pub start_old: u64,
    /// The cell dependency of the transaction, once known.
    pub cell_dep: Option<CellDepModel>,
    /// The number of the tip block when last asked.
    pub tip: u64,
    /// The median timestamp of the tip block when last asked.
    pub tip_median: u64,
    /// The blocks that the pre-fork node mines to pack the transaction.
    pub blocks_to_pack: u64,
}

impl NetworkingState {
    /// This state in another phase.
    pub open spec fn at(self, phase: NetworkingPhase) -> NetworkingState {
        NetworkingState { phase, ..self }
    }

    /// Whether the run has ended.
    pub open spec fn ended(self) -> bool {
        self.phase is Passed || self.phase is Failed
    }

    /// The transaction under test, once its input and its cell dependency are known: it
    /// spends the input under a relative timestamp lock of the run's seconds.
    pub open spec fn transaction(self) -> Option<TransactionModel> {
        match (self.input, self.cell_dep) {
            (Some(cell), Some(cell_dep)) => Some(
                spend_model(cell, relative_timestamp_since(self.relative_secs), cell_dep),
            ),
            _ => None,
        }
    }

    /// Whether the run has found the time at which the two rules disagree.
    pub open spec fn past_window(self) -> bool {
        match self.phase {
            NetworkingPhase::SyncBeforeSend => true,
            NetworkingPhase::SendToNew => true,
            NetworkingPhase::SendToOld => true,
            NetworkingPhase::AwaitProposalWindow => true,
            NetworkingPhase::MineOnOld => true,
            NetworkingPhase::SyncAfterMine => true,
            NetworkingPhase::AwaitBans => true,
            NetworkingPhase::Passed => true,
            _ => false,
        }
    }

    /// At the tip's median timestamp the lock has run out under the old rule and is still
    /// running under the new rule, and the old rule's start is before the new rule's.
    pub open spec fn in_window(self) -> bool {
        &&& self.start_old < self.start_new
        &&& lock_elapsed(self.start_old, self.relative_secs, self.tip_median)
        &&& !lock_elapsed(self.start_new, self.relative_secs, self.tip_median)
    }

    /// Whether the run is at a point at which the transaction under test can be built and
    /// the input's block is known.
    pub open spec fn prepared(self) -> bool {
        let chosen = self.input matches Some(cell) && cell.block_number == Some(self.input_block);
        match self.phase {
            NetworkingPhase::AwaitEpoch => true,
            NetworkingPhase::MineToSwitch => true,
            NetworkingPhase::MinePastSwitch => true,
            NetworkingPhase::PaceAfterMine => true,
            NetworkingPhase::AwaitLiveCells => true,
            NetworkingPhase::AwaitNewStart => chosen,
            NetworkingPhase::AwaitOldStart => chosen,
            NetworkingPhase::AwaitCellDep => chosen,
            NetworkingPhase::Passed => true,
            NetworkingPhase::Failed(_) => true,
            _ => chosen && self.cell_dep is Some,
        }
    }
}

/// The state in which a run starts.
pub open spec fn initial_state(
    old_node: usize,
    new_node: usize,
    relative_secs: u64,
    ban_sentinel: Seq<char>,
    blocks: u64,
    attempts: u64,
) -> NetworkingState {
    NetworkingState {
        phase: NetworkingPhase::AwaitEpoch,
        old_node,
        new_node,
        relative_secs,
        ban_sentinel,
        blocks_left: blocks,
        attempts_left: attempts,
        input: None,
        input_block: 0,
        start_new: 0,
        start_old: 0,
        cell_dep: None,
        tip: 0,
        tip_median: 0,
        blocks_to_pack: 0,
    }
}

/// What a run in state `s` asks its driver to do.
pub open spec fn next_action(s: NetworkingState) -> Action {
    match s.phase {
        NetworkingPhase::AwaitEpoch => Action::GetCurrentEpoch { node: s.new_node },
        NetworkingPhase::MineToSwitch => Action::Mine { node: s.new_node, blocks: 1 },
        NetworkingPhase::MinePastSwitch => Action::Mine { node: s.new_node, blocks: 1 },
        NetworkingPhase::PaceAfterMine => Action::Sleep { seconds: 1 },
        NetworkingPhase::AwaitLiveCells => Action::GetLiveCells { node: s.new_node },
        NetworkingPhase::AwaitNewStart => Action::GetCommittedTimestamp {
            node: s.new_node,
            block_number: s.input_block,
        },
        NetworkingPhase::AwaitOldStart => Action::GetMedianTimestamp {
            node: s.new_node,
            block_number: s.input_block,
        },
        NetworkingPhase::AwaitCellDep => Action::GetCellDep { node: s.new_node },
        NetworkingPhase::AwaitTip => Action::GetTipBlockNumber { node: s.new_node },
        NetworkingPhase::AwaitTipMedian => Action::GetMedianTimestamp {
            node: s.new_node,
            block_number: s.tip,
        },
        NetworkingPhase::MineToWindow => Action::Mine { node: s.new_node, blocks: 1 },
        NetworkingPhase::SyncBeforeSend => Action::WaitForSync,
        NetworkingPhase::SendToNew => Action::SendTransaction { node: s.new_node },
        NetworkingPhase::SendToOld => Action::SendTransaction { node: s.old_node },
        NetworkingPhase::AwaitProposalWindow => Action::GetProposalWindow { node: s.old_node },
        NetworkingPhase::MineOnOld => Action::Mine { node: s.old_node, blocks: s.blocks_to_pack },
        NetworkingPhase::SyncAfterMine => Action::WaitForSync,
        NetworkingPhase::AwaitBans => Action::GetBannedAddresses { node: s.new_node },
        NetworkingPhase::Passed => Action::Finish(Outcome::Passed),
        NetworkingPhase::Failed(failure) => Action::Finish(Outcome::Failed(failure)),
    }
}

/// The state that follows `s` when the driver answers its action with `e`.
///
/// A run that has ended stays as it is. A fault ends the run with that fault, and so does an
/// answer of the wrong kind. The chain is advanced past the activation as in the
/// single-node scenario, and the last live cell of the post-fork node becomes the input.
/// The start under the old rule must be before the start under the new rule. Blocks are
/// mined until the tip's median timestamp lets the lock run out under the old rule; it must
/// not have run out under the new rule by then. The nodes must agree on the tip; the
/// post-fork node must reject the transaction and the pre-fork node accept it. The pre-fork
/// node mines one block more than its proposal window's closest end; the nodes must then
/// fail to agree, and one ban of the post-fork node must cite the sentinel.
pub open spec fn step(s: NetworkingState, e: EventModel) -> NetworkingState {
    if s.ended() {
        s
    } else if let EventModel::Fault(kind) = e {
        s.at(NetworkingPhase::Failed(Failure::Fault(kind)))
    } else {
        match (s.phase, e) {
            (NetworkingPhase::AwaitEpoch, EventModel::Epoch(number)) => {
                if number < RFC0221_EPOCH_NUMBER {
                    s.at(NetworkingPhase::MineToSwitch)
                } else if s.blocks_left > 0 {
                    NetworkingState {
                        phase: NetworkingPhase::MinePastSwitch,
                        blocks_left: (s.blocks_left - 1) as u64,
                        ..s
                    }
                } else {
                    s.at(NetworkingPhase::AwaitLiveCells)
                }
            },
            (NetworkingPhase::MineToSwitch, EventModel::Done) => s.at(NetworkingPhase::AwaitEpoch),
            (NetworkingPhase::MinePastSwitch, EventModel::Done) => s.at(
                NetworkingPhase::PaceAfterMine,
            ),
            (NetworkingPhase::PaceAfterMine, EventModel::Done) => s.at(NetworkingPhase::AwaitEpoch),
            (NetworkingPhase::AwaitLiveCells, EventModel::LiveCells(cells)) => {
                if cells.len() == 0 {
                    s.at(NetworkingPhase::Failed(Failure::NoLiveCell))
                } else {
                    match cells.last().block_number {
                        None => s.at(NetworkingPhase::Failed(Failure::NoTransactionInfo)),
                        Some(block_number) => NetworkingState {
                            phase: NetworkingPhase::AwaitNewStart,
                            input: Some(cells.last()),
                            input_block: block_number,
                            ..s
                        },
                    }
                }
            },
            (NetworkingPhase::AwaitNewStart, EventModel::Timestamp(millis)) => NetworkingState {
                phase: NetworkingPhase::AwaitOldStart,
                start_new: millis,
                ..s
            },
            (NetworkingPhase::AwaitOldStart, EventModel::Timestamp(millis)) => {
                if millis < s.start_new {
                    NetworkingState { phase: NetworkingPhase::AwaitCellDep, start_old: millis, ..s }
                } else {
                    s.at(NetworkingPhase::Failed(Failure::StartTimesNotOrdered))
                }
            },
            (NetworkingPhase::AwaitCellDep, EventModel::CellDep(cell_dep)) => NetworkingState {
                phase: NetworkingPhase::AwaitTip,
                cell_dep: Some(cell_dep),
                ..s
            },
            (NetworkingPhase::AwaitTip, EventModel::BlockNumber(number)) => NetworkingState {
                phase: NetworkingPhase::AwaitTipMedian,
                tip: number,
                ..s
            },
            (NetworkingPhase::AwaitTipMedian, EventModel::Timestamp(now)) => {
                if lock_elapsed(s.start_new, s.relative_secs, now) {
                    s.at(NetworkingPhase::Failed(Failure::WindowMissed))
                } else if lock_elapsed(s.start_old, s.relative_secs, now) {
                    NetworkingState { phase: NetworkingPhase::SyncBeforeSend, tip_median: now, ..s }
                } else if s.attempts_left > 0 {
                    NetworkingState {
                        phase: NetworkingPhase::MineToWindow,
                        attempts_left: (s.attempts_left - 1) as u64,
                        ..s
                    }
                } else {
                    s.at(NetworkingPhase::Failed(Failure::AttemptsExhausted))
                }
            },
            (NetworkingPhase::MineToWindow, EventModel::Done) => s.at(NetworkingPhase::AwaitTip),
            (NetworkingPhase::SyncBeforeSend, EventModel::SyncResult { synced }) => {
                if synced {
                    s.at(NetworkingPhase::SendToNew)
                } else {
                    s.at(NetworkingPhase::Failed(Failure::SyncTimedOut))
                }
            },
            (NetworkingPhase::SendToNew, EventModel::TransactionResult { accepted }) => {
                if accepted {
                    s.at(NetworkingPhase::Failed(Failure::AcceptedTooEarly))
                } else {
                    s.at(NetworkingPhase::SendToOld)
                }
            },
            (NetworkingPhase::SendToOld, EventModel::TransactionResult { accepted }) => {
                if accepted {
                    s.at(NetworkingPhase::AwaitProposalWindow)
                } else {
                    s.at(NetworkingPhase::Failed(Failure::RejectedWhenDue))
                }
            },
            (NetworkingPhase::AwaitProposalWindow, EventModel::ProposalWindow { closest }) => {
                if closest < u64::MAX {
                    NetworkingState {
                        phase: NetworkingPhase::MineOnOld,
                        blocks_to_pack: (closest + 1) as u64,
                        ..s
                    }
                } else {
                    s.at(NetworkingPhase::Failed(Failure::ProposalWindowTooLarge))
                }
            },
            (NetworkingPhase::MineOnOld, EventModel::Done) => s.at(NetworkingPhase::SyncAfterMine),
            (NetworkingPhase::SyncAfterMine, EventModel::SyncResult { synced }) => {
                if synced {
                    s.at(NetworkingPhase::Failed(Failure::UnexpectedSync))
                } else {
                    s.at(NetworkingPhase::AwaitBans)
                }
            },
            (NetworkingPhase::AwaitBans, EventModel::BannedAddresses(reasons)) => {
                if cited(reasons, s.ban_sentinel) {
                    s.at(NetworkingPhase::Passed)
                } else {
                    s.at(NetworkingPhase::Failed(Failure::PeerNotBanned))
                }
            },
            _ => s.at(NetworkingPhase::Failed(Failure::UnexpectedEvent)),
        }
    }
}

/// The state after the events of `events` have been consumed in order, from `s` on.
pub open spec fn run_from(s: NetworkingState, events: Seq<EventModel>) -> NetworkingState
    decreases events.len(),
{
    if events.len() == 0 {
        s
    } else {
        step(run_from(s, events.drop_last()), events.last())
    }
}

/// The options of the scenario, given the paths of the two node binaries. The post-fork
/// node, which drives the scenario, comes first and starts from an empty database; the
/// pre-fork node starts from the snapshot of epoch 2; the two are connected and synced before
/// the scenario runs.
pub open spec fn networking_options(ckb2019: Seq<char>, ckb2021: Seq<char>) -> CaseOptionsModel {
    CaseOptionsModel {
        make_all_nodes_connected: true,
        make_all_nodes_synced: true,
        make_all_nodes_connected_and_synced: true,
        node_options: seq![
            NodeOptionsModel {
                node_name: NEW_NODE_NAME@,
                ckb_binary: ckb2021,
                initial_database: "db/empty"@,
                chain_spec: "spec/ckb2021"@,
                app_config: "config/ckb2021"@,
            },
            NodeOptionsModel {
                node_name: OLD_NODE_NAME@,
                ckb_binary: ckb2019,
                initial_database: "db/Epoch2V1TestData"@,
                chain_spec: "spec/ckb2021"@,
                app_config: "config/ckb2021"@,
            },
        ],
    }
}

/// A run of the scenario.
#[derive(Debug)]
pub struct NetworkingRun {
    phase: NetworkingPhase,
    old_node: usize,
    new_node: usize,
    relative_secs: u64,
    ban_sentinel: String,
    blocks_left: u64,
    attempts_left: u64,
    input: Option<LiveCell>,
    input_block: u64,
    start_new: u64,
    start_old: u64,
    cell_dep: Option<CellDep>,
    tip: u64,
    tip_median: u64,
    blocks_to_pack: u64,
}

impl View for NetworkingRun {
    type V = NetworkingState;

    closed spec fn view(&self) -> NetworkingState {
        NetworkingState {
            phase: self.phase,
            old_node: self.old_node,
            new_node: self.new_node,
            relative_secs: self.relative_secs,
            ban_sentinel: self.ban_sentinel@,
            blocks_left: self.blocks_left,
            attempts_left: self.attempts_left,
            input: match self.input {
                Some(cell) => Some(cell@),
                None => None,
            },
            input_block: self.input_block,
            start_new: self.start_new,
            start_old: self.start_old,
            cell_dep: match self.cell_dep {
                Some(cell_dep) => Some(cell_dep@),
                None => None,
            },
            tip: self.tip,
            tip_median: self.tip_median,
            blocks_to_pack: self.blocks_to_pack,
        }
    }
}

impl NetworkingRun {
    /// A run against the pre-fork node at position `old_node` and the post-fork node at
    /// position `new_node`, with the scenario's own lock of two seconds, 37 blocks past the
    /// activation and 120 attempts.
    pub fn new(old_node: usize, new_node: usize, ban_sentinel: &str) -> (run: NetworkingRun)
        ensures
            run@ == initial_state(
                old_node,
                new_node,
                RELATIVE_SECS,
                ban_sentinel@,
                BLOCKS_PAST_SWITCH,
                ATTEMPT_BUDGET,
            ),
    {
        NetworkingRun::with_parameters(
            old_node,
            new_node,
            RELATIVE_SECS,
            ban_sentinel,
            BLOCKS_PAST_SWITCH,
            ATTEMPT_BUDGET,
        )
    }

    /// A run with a lock of `relative_secs` seconds, `blocks` blocks past the activation
    /// and `attempts` attempts.
    pub fn with_parameters(
        old_node: usize,
        new_node: usize,
        relative_secs: u64,
        ban_sentinel: &str,
        blocks: u64,
        attempts: u64,
    ) -> (run: NetworkingRun)
        ensures
            run@ == initial_state(old_node, new_node, relative_secs, ban_sentinel@, blocks, attempts),
    {
        NetworkingRun {
            phase: NetworkingPhase::AwaitEpoch,
            old_node,
            new_node,
            relative_secs,
            ban_sentinel: String::from_str(ban_sentinel),
            blocks_left: blocks,
            attempts_left: attempts,
            input: None,
            input_block: 0,
            start_new: 0,
            start_old: 0,
            cell_dep: None,
            tip: 0,
            tip_median: 0,
            blocks_to_pack: 0,
        }
    }

    /// Where the run stands.
    pub fn phase(&self) -> (phase: NetworkingPhase)
        ensures
            phase == self@.phase,
    {
        self.phase
    }

    /// How the run ended, once it has.
    pub fn outcome(&self) -> (outcome: Option<Outcome>)
        ensures
            outcome == match self@.phase {
                NetworkingPhase::Passed => Some(Outcome::Passed),
                NetworkingPhase::Failed(failure) => Some(Outcome::Failed(failure)),
                _ => None,
            },
    {
        match self.phase {
            NetworkingPhase::Passed => Some(Outcome::Passed),
            NetworkingPhase::Failed(failure) => Some(Outcome::Failed(failure)),
            _ => None,
        }
    }

    /// What the driver is to do next.
    pub fn action(&self) -> (action: Action)
        ensures
            action == next_action(self@),
    {
        match self.phase {
            NetworkingPhase::AwaitEpoch => Action::GetCurrentEpoch { node: self.new_node },
            NetworkingPhase::MineToSwitch => Action::Mine { node: self.new_node, blocks: 1 },
            NetworkingPhase::MinePastSwitch => Action::Mine { node: self.new_node, blocks: 1 },
            NetworkingPhase::PaceAfterMine => Action::Sleep { seconds: 1 },
            NetworkingPhase::AwaitLiveCells => Action::GetLiveCells { node: self.new_node },
            NetworkingPhase::AwaitNewStart => Action::GetCommittedTimestamp {
                node: self.new_node,
                block_number: self.input_block,
            },
            NetworkingPhase::AwaitOldStart => Action::GetMedianTimestamp {
                node: self.new_node,
                block_number: self.input_block,
            },
            NetworkingPhase::AwaitCellDep => Action::GetCellDep { node: self.new_node },
            NetworkingPhase::AwaitTip => Action::GetTipBlockNumber { node: self.new_node },
            NetworkingPhase::AwaitTipMedian => Action::GetMedianTimestamp {
                node: self.new_node,
                block_number: self.tip,
            },
            NetworkingPhase::MineToWindow => Action::Mine { node: self.new_node, blocks: 1 },
            NetworkingPhase::SyncBeforeSend => Action::WaitForSync,
            NetworkingPhase::SendToNew => Action::SendTransaction { node: self.new_node },
            NetworkingPhase::SendToOld => Action::SendTransaction { node: self.old_node },
            NetworkingPhase::AwaitProposalWindow => Action::GetProposalWindow {
                node: self.old_node,
            },
            NetworkingPhase::MineOnOld => Action::Mine {
                node: self.old_node,
                blocks: self.blocks_to_pack,
            },
            NetworkingPhase::SyncAfterMine => Action::WaitForSync,
            NetworkingPhase::AwaitBans => Action::GetBannedAddresses { node: self.new_node },
            NetworkingPhase::Passed => Action::Finish(Outcome::Passed),
            NetworkingPhase::Failed(failure) => Action::Finish(Outcome::Failed(failure)),
        }
    }

    /// The serialized transaction under test, once its input and its cell dependency are
    /// known: it spends the input under a relative timestamp lock of the run's seconds.
    pub fn transaction(&self) -> (bytes: Option<Vec<u8>>)
        ensures
            serializes(bytes, self@.transaction()),
    {
        match (&self.input, &self.cell_dep) {
            (Some(cell), Some(cell_dep)) => {
                let since = since_from_relative_timestamp(self.relative_secs);
                Some(spend_transaction(cell, since, cell_dep))
            },
            _ => None,
        }
    }

    /// Consumes the driver's answer to the last action.
    pub fn on_event(self, event: Event) -> (next: NetworkingRun)
        ensures
            next@ == step(self@, event@),
    {
        let mut run = self;
        match run.phase {
            NetworkingPhase::Passed => {
                return run;
            },
            NetworkingPhase::Failed(_) => {
                return run;
            },
            _ => {},
        }
        match (run.phase, event) {
            (_, Event::Fault(kind)) => {
                run.phase = NetworkingPhase::Failed(Failure::Fault(kind));
            },
            (NetworkingPhase::AwaitEpoch, Event::Epoch(number)) => {
                if !is_rfc0221_switched(number) {
                    run.phase = NetworkingPhase::MineToSwitch;
                } else if run.blocks_left > 0 {
                    run.blocks_left = run.blocks_left - 1;
                    run.phase = NetworkingPhase::MinePastSwitch;
                } else {
                    run.phase = NetworkingPhase::AwaitLiveCells;
                }
            },
            (NetworkingPhase::MineToSwitch, Event::Done) => {
                run.phase = NetworkingPhase::AwaitEpoch;
            },
            (NetworkingPhase::MinePastSwitch, Event::Done) => {
                run.phase = NetworkingPhase::PaceAfterMine;
            },
            (NetworkingPhase::PaceAfterMine, Event::Done) => {
                run.phase = NetworkingPhase::AwaitEpoch;
            },
            (NetworkingPhase::AwaitLiveCells, Event::LiveCells(cells)) => {
                let mut cells = cells;
                match cells.pop() {
                    None => {
                        run.phase = NetworkingPhase::Failed(Failure::NoLiveCell);
                    },
                    Some(cell) => match cell.block_number {
                        None => {
                            run.phase = NetworkingPhase::Failed(Failure::NoTransactionInfo);
                        },
                        Some(block_number) => {
                            run.input_block = block_number;
                            run.input = Some(cell);
                            run.phase = NetworkingPhase::AwaitNewStart;
                        },
                    },
                }
            },
            (NetworkingPhase::AwaitNewStart, Event::Timestamp(millis)) => {
                run.start_new = millis;
                run.phase = NetworkingPhase::AwaitOldStart;
            },
            (NetworkingPhase::AwaitOldStart, Event::Timestamp(millis)) => {
                if millis < run.start_new {
                    run.start_old = millis;
                    run.phase = NetworkingPhase::AwaitCellDep;
                } else {
                    run.phase = NetworkingPhase::Failed(Failure::StartTimesNotOrdered);
                }
            },
            (NetworkingPhase::AwaitCellDep, Event::CellDep(cell_dep)) => {
                run.cell_dep = Some(cell_dep);
                run.phase = NetworkingPhase::AwaitTip;
            },
            (NetworkingPhase::AwaitTip, Event::BlockNumber(number)) => {
                run.tip = number;
                run.phase = NetworkingPhase::AwaitTipMedian;
            },
            (NetworkingPhase::AwaitTipMedian, Event::Timestamp(now)) => {
                if is_lock_elapsed(run.start_new, run.relative_secs, now) {
                    run.phase = NetworkingPhase::Failed(Failure::WindowMissed);
                } else if is_lock_elapsed(run.start_old, run.relative_secs, now) {
                    run.tip_median = now;
                    run.phase = NetworkingPhase::SyncBeforeSend;
                } else if run.attempts_left > 0 {
                    run.attempts_left = run.attempts_left - 1;
                    run.phase = NetworkingPhase::MineToWindow;
                } else {
                    run.phase = NetworkingPhase::Failed(Failure::AttemptsExhausted);
                }
            },
            (NetworkingPhase::MineToWindow, Event::Done) => {
                run.phase = NetworkingPhase::AwaitTip;
            },
            (NetworkingPhase::SyncBeforeSend, Event::SyncResult { synced }) => {
                if synced {
                    run.phase = NetworkingPhase::SendToNew;
                } else {
                    run.phase = NetworkingPhase::Failed(Failure::SyncTimedOut);
                }
            },
            (NetworkingPhase::SendToNew, Event::TransactionResult { accepted }) => {
                if accepted {
                    run.phase = NetworkingPhase::Failed(Failure::AcceptedTooEarly);
                } else {
                    run.phase = NetworkingPhase::SendToOld;
                }
            },
            (NetworkingPhase::SendToOld, Event::TransactionResult { accepted }) => {
                if accepted {
                    run.phase = NetworkingPhase::AwaitProposalWindow;
                } else {
                    run.phase = NetworkingPhase::Failed(Failure::RejectedWhenDue);
                }
            },
            (NetworkingPhase::AwaitProposalWindow, Event::ProposalWindow { closest }) => {
                if closest < u64::MAX {
                    run.blocks_to_pack = closest + 1;
                    run.phase = NetworkingPhase::MineOnOld;
                } else {
                    run.phase = NetworkingPhase::Failed(Failure::ProposalWindowTooLarge);
                }
            },
            (NetworkingPhase::MineOnOld, Event::Done) => {
                run.phase = NetworkingPhase::SyncAfterMine;
            },
            (NetworkingPhase::SyncAfterMine, Event::SyncResult { synced }) => {
                if synced {
                    run.phase = NetworkingPhase::Failed(Failure::UnexpectedSync);
                } else {
                    run.phase = NetworkingPhase::AwaitBans;
                }
            },
            (NetworkingPhase::AwaitBans, Event::BannedAddresses(reasons)) => {
                if any_cites(&reasons, run.ban_sentinel.as_str()) {
                    run.phase = NetworkingPhase::Passed;
                } else {
                    run.phase = NetworkingPhase::Failed(Failure::PeerNotBanned);
                }
            },
            _ => {
                run.phase = NetworkingPhase::Failed(Failure::UnexpectedEvent);
            },
        }
        run
    }
}

/// The scenario: across the activation, a pre-fork and a post-fork node disagree on one
/// transaction, and part ways.
#[derive(Clone, Copy, Debug, PartialEq, Eq, Structural)]
pub struct RFC0221Networking;

impl RFC0221Networking {
    /// The name under which the scenario is logged and selected.
    pub fn case_name(&self) -> (name: &'static str)
        ensures
            name@ == "RFC0221Networking"@,
    {
        "RFC0221Networking"
    }

    /// The node set that the scenario needs: the post-fork node, which drives, and after
    /// it the pre-fork node, connected and synced. Fails where the path of either binary is
    /// not configured.
    pub fn case_options(&self, config: &Config) -> (options: Result<CaseOptions, Failure>)
        ensures
            match options {
                Ok(options) => config@.ckb2019 is Some && config@.ckb2021 is Some && options@
                    == networking_options(config@.ckb2019->0, config@.ckb2021->0),
                Err(failure) => (config@.ckb2019 is None || config@.ckb2021 is None) && failure
                    == Failure::MissingBinary,
            },
    {
        match (&config.ckb2019, &config.ckb2021) {
            (Some(old_path), Some(new_path)) => {
                let old_node = NodeOptions::new(
                    OLD_NODE_NAME,
                    old_path.as_str(),
                    "db/Epoch2V1TestData",
                    "spec/ckb2021",
                    "config/ckb2021",
                );
                let new_node = NodeOptions::new(
                    NEW_NODE_NAME,
                    new_path.as_str(),
                    "db/empty",
                    "spec/ckb2021",
                    "config/ckb2021",
                );
                let mut node_options: Vec<NodeOptions> = Vec::new();
                node_options.push(new_node);
                node_options.push(old_node);
                let options = CaseOptions {
                    make_all_nodes_connected: true,
                    make_all_nodes_synced: true,
                    make_all_nodes_connected_and_synced: true,
                    node_options,
                };
                assert(options@.node_options =~= networking_options(
                    old_path@,
                    new_path@,
                ).node_options);
                Ok(options)
            },
            _ => Err(Failure::MissingBinary),
        }
    }

    /// Starts a run against `nodes`, with the ban text of `config`. Fails where one of the
    /// scenario's nodes is not among them.
    pub fn run(&self, nodes: &Nodes, config: &Config) -> (run: Result<NetworkingRun, Failure>)
        ensures
            match run {
                Ok(run) => {
                    &&& run@.old_node < nodes@.len()
                    &&& nodes@[run@.old_node as int] == OLD_NODE_NAME@
                    &&& run@.new_node < nodes@.len()
                    &&& nodes@[run@.new_node as int] == NEW_NODE_NAME@
                    &&& run@ == initial_state(
                        run@.old_node,
                        run@.new_node,
                        RELATIVE_SECS,
                        config@.ban_sentinel,
                        BLOCKS_PAST_SWITCH,
                        ATTEMPT_BUDGET,
                    )
                },
                Err(failure) => (!nodes@.contains(OLD_NODE_NAME@) || !nodes@.contains(
                    NEW_NODE_NAME@,
                )) && failure == Failure::UnknownNode,
            },
    {
        let old_node = match nodes.get_node(OLD_NODE_NAME) {
            Ok(node) => node,
            Err(failure) => {
                return Err(failure);
            },
        };
        let new_node = match nodes.get_node(NEW_NODE_NAME) {
            Ok(node) => node,
            Err(failure) => {
                return Err(failure);
            },
        };
        Ok(NetworkingRun::new(old_node, new_node, config.ban_sentinel.as_str()))
    }
}

/// A run that has ended takes no further step: whatever the driver reports, the state and
/// with it the outcome stay.
pub proof fn lemma_ended_run_stays(s: NetworkingState, events: Seq<EventModel>)
    requires
        s.ended(),
    ensures
        run_from(s, events) == s,
    decreases events.len(),
{
    if events.len() > 0 {
        lemma_ended_run_stays(s, events.drop_last());
    }
}

/// From the moment the transaction is submitted on, the tip's median timestamp that the
/// run acted on lies at or after the end of the lock under the old rule and before its end
/// under the new rule: every state past the window that a run reaches from one that is not
/// past it, or from one in the window, is in the window.
pub proof fn lemma_submission_is_in_window(s: NetworkingState, events: Seq<EventModel>)
    requires
        s.past_window() ==> s.in_window(),
    ensures
        run_from(s, events).past_window() ==> run_from(s, events).in_window(),
    decreases events.len(),
{
    if events.len() > 0 {
        lemma_submission_is_in_window(s, events.drop_last());
    }
}

/// In a run that has not failed, the nodes agreed before the submission, the post-fork
/// node rejected the transaction, the pre-fork node accepted it, the nodes did not agree
/// after the pre-fork node had mined, and a ban of the post-fork node cited the sentinel.
pub proof fn lemma_verdicts_were_as_expected(s: NetworkingState, events: Seq<EventModel>)
    requires
        !(run_from(s, events).phase is Failed),
    ensures
        forall|i: int|
            0 <= i < events.len() ==> {
                let before = #[trigger] run_from(s, events.take(i));
                &&& before.phase == NetworkingPhase::SyncBeforeSend ==> events[i]
                    == (EventModel::SyncResult { synced: true })
                &&& before.phase == NetworkingPhase::SendToNew ==> events[i]
                    == (EventModel::TransactionResult { accepted: false })
                &&& before.phase == NetworkingPhase::SendToOld ==> events[i]
                    == (EventModel::TransactionResult { accepted: true })
                &&& before.phase == NetworkingPhase::SyncAfterMine ==> events[i]
                    == (EventModel::SyncResult { synced: false })
                &&& before.phase == NetworkingPhase::AwaitBans ==> (events[i] matches EventModel::BannedAddresses(
                    reasons,
                ) && cited(reasons, s.ban_sentinel))
            },
        run_from(s, events).ban_sentinel == s.ban_sentinel,
    decreases events.len(),
{
    if events.len() > 0 {
        let front = events.drop_last();
        lemma_verdicts_were_as_expected(s, front);
        assert forall|i: int| 0 <= i < events.len() implies {
            let before = #[trigger] run_from(s, events.take(i));
            &&& before.phase == NetworkingPhase::SyncBeforeSend ==> events[i]
                == (EventModel::SyncResult { synced: true })
            &&& before.phase == NetworkingPhase::SendToNew ==> events[i]
                == (EventModel::TransactionResult { accepted: false })
            &&& before.phase == NetworkingPhase::SendToOld ==> events[i]
                == (EventModel::TransactionResult { accepted: true })
            &&& before.phase == NetworkingPhase::SyncAfterMine ==> events[i]
                == (EventModel::SyncResult { synced: false })
            &&& before.phase == NetworkingPhase::AwaitBans ==> (events[i] matches EventModel::BannedAddresses(
                reasons,
            ) && cited(reasons, s.ban_sentinel))
        } by {
            if i < events.len() - 1 {
                assert(events.take(i) =~= front.take(i));
            } else {
                assert(events.take(i) =~= front);
            }
        }
    }
}

/// A run passes only on the bans: from the state in which it has asked for them, on an
/// answer of which one reason cites the sentinel. The pre-fork node is asked to mine one
/// block more than the closest end of its proposal window.
pub proof fn lemma_pass_needs_ban(s: NetworkingState, e: EventModel)
    ensures
        step(s, e).phase == NetworkingPhase::Passed && s.phase != NetworkingPhase::Passed
            ==> s.phase == NetworkingPhase::AwaitBans && (e matches EventModel::BannedAddresses(
            reasons,
        ) && cited(reasons, s.ban_sentinel)),
        step(s, e).phase == NetworkingPhase::MineOnOld && s.phase != NetworkingPhase::MineOnOld
            ==> s.phase == NetworkingPhase::AwaitProposalWindow && (e matches EventModel::ProposalWindow {
            closest,
        } && next_action(step(s, e)) == (Action::Mine { node: s.old_node, blocks: (closest + 1) as u64 })),
{
}

/// From its start on, a run is prepared in every state it reaches: whenever it asks for the
/// transaction to be submitted, the input and the cell dependency are known.
pub proof fn lemma_run_stays_prepared(s: NetworkingState, events: Seq<EventModel>)
    requires
        s.prepared(),
    ensures
        run_from(s, events).prepared(),
        next_action(run_from(s, events)) is SendTransaction ==> run_from(
            s,
            events,
        ).transaction() is Some,
    decreases events.len(),
{
    if events.len() > 0 {
        lemma_run_stays_prepared(s, events.drop_last());
    }
}

} // verus!
