//! After the activation, on one node: a transaction under a relative timestamp lock is
//! rejected until the lock, measured from the committed timestamp of the input's block, has
//! run out, and accepted from then on.

use crate::case::case_options::{CaseOptions, CaseOptionsModel};
use crate::case::rfc0221::{
    ATTEMPT_BUDGET, BLOCKS_PAST_SWITCH, RELATIVE_SECS, RFC0221_EPOCH_NUMBER, is_rfc0221_switched,
};
use crate::chain::{CellDep, CellDepModel, LiveCell, LiveCellModel};
use crate::config::Config;
use crate::node::{NodeOptions, NodeOptionsModel};
use crate::nodes::Nodes;
use crate::script::{Action, Event, EventModel, Failure, Outcome};
use crate::transaction::{TransactionModel, serializes, spend_model, spend_transaction};
use crate::util::{is_lock_elapsed, lock_elapsed, relative_timestamp_since, since_from_relative_timestamp};
use vstd::prelude::*;

verus! {

/// The name of the scenario's only node.
pub const NODE_NAME: &'static str = "node-fork2021";

/// Where a run of the scenario stands: what it has asked for and waits to hear of.
#[derive(Clone, Copy, Debug, PartialEq, Eq, Structural)]
pub enum AfterSwitchPhase {
    /// Asked for the current epoch.
    AwaitEpoch,
    /// Mining a block because the activation has not been reached.
    MineToSwitch,
    /// Mining one of the blocks past the activation.
    MinePastSwitch,
    /// Letting a second pass after a block past the activation.
    PaceAfterMine,
    /// Asked for the live cells.
    AwaitLiveCells,
    /// Asked for the committed timestamp of the input's block.
    AwaitStartTime,
    /// Asked for the cell dependency.
    AwaitCellDep,
    /// Asked for the number of the tip block.
    AwaitTip,
    /// Asked for the median timestamp of the tip block.
    AwaitTipMedian,
    /// Submitted the transaction while the lock is running.
    SendEarly,
    /// Letting a second pass after a rejection.
    PaceAfterReject,
    /// Mining a block after a rejection.
    MineAfterReject,
    /// Submitted the transaction after the lock has run out.
    SendDue,
    /// The scenario passed.
    Passed,
    /// The scenario failed.
    Failed(Failure),
}

/// The state of a run, as mathematics.
pub struct AfterSwitchState {
    pub phase: AfterSwitchPhase,
    /// The node that the scenario drives.
    pub node: usize,
    /// The length of the lock, in seconds.
    pub relative_secs: u64,
    /// The blocks past the activation that are still to be mined.
    pub blocks_left: u64,
    /// How often the lock may still be found running.
    pub attempts_left: u64,
    /// The cell that the transaction spends, once chosen.
    pub input: Option<LiveCellModel>,
    /// The number of the block that confirmed the input.
    pub input_block: u64,
    /// The committed timestamp of that block.
    pub start_time: u64,
    /// The cell dependency of the transaction, once known.
    pub cell_dep: Option<CellDepModel>,
    /// The number of the tip block when last asked.
    pub tip: u64,
}

impl AfterSwitchState {
    /// This state in another phase.
    pub open spec fn at(self, phase: AfterSwitchPhase) -> AfterSwitchState {
        AfterSwitchState { phase, ..self }
    }

    /// Whether the run has ended.
    pub open spec fn ended(self) -> bool {
        self.phase is Passed || self.phase is Failed
    }

    /// The transaction under test, once its input and its cell dependency are known: it
    /// spends the input under a relative timestamp lock of the run's seconds.
    pub open spec fn transaction(self) -> Option<TransactionModel> {
        match (self.input, self.cell_dep) {
            (Some(cell), Some(cell_dep)) => Some(
                spend_model(cell, relative_timestamp_since(self.relative_secs), cell_dep),
            ),
            _ => None,
        }
    }
}

/// The state in which a run starts.
pub open spec fn initial_state(node: usize, relative_secs: u64, blocks: u64, attempts: u64)
    -> AfterSwitchState {
    AfterSwitchState {
        phase: AfterSwitchPhase::AwaitEpoch,
        node,
        relative_secs,
        blocks_left: blocks,
        attempts_left: attempts,
        input: None,
        input_block: 0,
        start_time: 0,
        cell_dep: None,
        tip: 0,
    }
}

/// What a run in state `s` asks its driver to do.
pub open spec fn next_action(s: AfterSwitchState) -> Action {
    match s.phase {
        AfterSwitchPhase::AwaitEpoch => Action::GetCurrentEpoch { node: s.node },
        AfterSwitchPhase::MineToSwitch => Action::Mine { node: s.node, blocks: 1 },
        AfterSwitchPhase::MinePastSwitch => Action::Mine { node: s.node, blocks: 1 },
        AfterSwitchPhase::PaceAfterMine => Action::Sleep { seconds: 1 },
        AfterSwitchPhase::AwaitLiveCells => Action::GetLiveCells { node: s.node },
        AfterSwitchPhase::AwaitStartTime => Action::GetCommittedTimestamp {
            node: s.node,
            block_number: s.input_block,
        },
        AfterSwitchPhase::AwaitCellDep => Action::GetCellDep { node: s.node },
        AfterSwitchPhase::AwaitTip => Action::GetTipBlockNumber { node: s.node },
        AfterSwitchPhase::AwaitTipMedian => Action::GetMedianTimestamp {
            node: s.node,
            block_number: s.tip,
        },
        AfterSwitchPhase::SendEarly => Action::SendTransaction { node: s.node },
        AfterSwitchPhase::PaceAfterReject => Action::Sleep { seconds: 1 },
        AfterSwitchPhase::MineAfterReject => Action::Mine { node: s.node, blocks: 1 },
        AfterSwitchPhase::SendDue => Action::SendTransaction { node: s.node },
        AfterSwitchPhase::Passed => Action::Finish(Outcome::Passed),
        AfterSwitchPhase::Failed(failure) => Action::Finish(Outcome::Failed(failure)),
    }
}

/// The state that follows `s` when the driver answers its action with `e`.
///
/// A run that has ended stays as it is. A fault ends the run with that fault, and so does an
/// answer of the wrong kind. Before the activation every epoch answer leads to one more
/// block; after it, to one more block and a second of rest while blocks are left to mine.
/// The last live cell becomes the input. Each median timestamp of the tip decides: where
/// the lock has run out the transaction is submitted and must be accepted; where it has not,
/// the transaction is submitted and must be rejected, a second passes and a block is mined,
/// as long as attempts are left.
pub open spec fn step(s: AfterSwitchState, e: EventModel) -> AfterSwitchState {
    if s.ended() {
        s
    } else if let EventModel::Fault(kind) = e {
        s.at(AfterSwitchPhase::Failed(Failure::Fault(kind)))
    } else {
        match (s.phase, e) {
            (AfterSwitchPhase::AwaitEpoch, EventModel::Epoch(number)) => {
                if number < RFC0221_EPOCH_NUMBER {
                    s.at(AfterSwitchPhase::MineToSwitch)
                } else if s.blocks_left > 0 {
                    AfterSwitchState {
                        phase: AfterSwitchPhase::MinePastSwitch,
                        blocks_left: (s.blocks_left - 1) as u64,
                        ..s
                    }
                } else {
                    s.at(AfterSwitchPhase::AwaitLiveCells)
                }
            },
            (AfterSwitchPhase::MineToSwitch, EventModel::Done) => s.at(AfterSwitchPhase::AwaitEpoch),
            (AfterSwitchPhase::MinePastSwitch, EventModel::Done) => s.at(
                AfterSwitchPhase::PaceAfterMine,
            ),
            (AfterSwitchPhase::PaceAfterMine, EventModel::Done) => s.at(AfterSwitchPhase::AwaitEpoch),
            (AfterSwitchPhase::AwaitLiveCells, EventModel::LiveCells(cells)) => {
                if cells.len() == 0 {
                    s.at(AfterSwitchPhase::Failed(Failure::NoLiveCell))
                } else {
                    match cells.last().block_number {
                        None => s.at(AfterSwitchPhase::Failed(Failure::NoTransactionInfo)),
                        Some(block_number) => AfterSwitchState {
                            phase: AfterSwitchPhase::AwaitStartTime,
                            input: Some(cells.last()),
                            input_block: block_number,
                            ..s
                        },
                    }
                }
            },
            (AfterSwitchPhase::AwaitStartTime, EventModel::Timestamp(millis)) => AfterSwitchState {
                phase: AfterSwitchPhase::AwaitCellDep,
                start_time: millis,
                ..s
            },
            (AfterSwitchPhase::AwaitCellDep, EventModel::CellDep(cell_dep)) => AfterSwitchState {
                phase: AfterSwitchPhase::AwaitTip,
                cell_dep: Some(cell_dep),
                ..s
            },
            (AfterSwitchPhase::AwaitTip, EventModel::BlockNumber(number)) => AfterSwitchState {
                phase: AfterSwitchPhase::AwaitTipMedian,
                tip: number,
                ..s
            },
            (AfterSwitchPhase::AwaitTipMedian, EventModel::Timestamp(now)) => {
                if lock_elapsed(s.start_time, s.relative_secs, now) {
                    s.at(AfterSwitchPhase::SendDue)
                } else if s.attempts_left > 0 {
                    AfterSwitchState {
                        phase: AfterSwitchPhase::SendEarly,
                        attempts_left: (s.attempts_left - 1) as u64,
                        ..s
                    }
                } else {
                    s.at(AfterSwitchPhase::Failed(Failure::AttemptsExhausted))
                }
            },
            (AfterSwitchPhase::SendEarly, EventModel::TransactionResult { accepted }) => {
                if accepted {
                    s.at(AfterSwitchPhase::Failed(Failure::AcceptedTooEarly))
                } else {
                    s.at(AfterSwitchPhase::PaceAfterReject)
                }
            },
            (AfterSwitchPhase::PaceAfterReject, EventModel::Done) => s.at(
                AfterSwitchPhase::MineAfterReject,
            ),
            (AfterSwitchPhase::MineAfterReject, EventModel::Done) => s.at(AfterSwitchPhase::AwaitTip),
            (AfterSwitchPhase::SendDue, EventModel::TransactionResult { accepted }) => {
                if accepted {
                    s.at(AfterSwitchPhase::Passed)
                } else {
                    s.at(AfterSwitchPhase::Failed(Failure::RejectedWhenDue))
                }
            },
            _ => s.at(AfterSwitchPhase::Failed(Failure::UnexpectedEvent)),
        }
    }
}

/// The state after the events of `events` have been consumed in order, from `s` on.
pub open spec fn run_from(s: AfterSwitchState, events: Seq<EventModel>) -> AfterSwitchState
    decreases events.len(),
{
    if events.len() == 0 {
        s
    } else {
        step(run_from(s, events.drop_last()), events.last())
    }
}

/// The options of the scenario, given the path of the node binary.
pub open spec fn after_switch_options(ckb_binary: Seq<char>) -> CaseOptionsModel {
    CaseOptionsModel {
        make_all_nodes_connected: true,
        make_all_nodes_synced: true,
        make_all_nodes_connected_and_synced: true,
        node_options: seq![
            NodeOptionsModel {
                node_name: NODE_NAME@,
                ckb_binary,
                initial_database: "db/Epoch2V2TestData"@,
                chain_spec: "spec/fork2021"@,
                app_config: "config/fork2021"@,
            },
        ],
    }
}

/// A run of the scenario.
#[derive(Debug)]
pub struct AfterSwitchRun {
    phase: AfterSwitchPhase,
    node: usize,
    relative_secs: u64,
    blocks_left: u64,
    attempts_left: u64,
    input: Option<LiveCell>,
    input_block: u64,
    start_time: u64,
    cell_dep: Option<CellDep>,
    tip: u64,
}

impl View for AfterSwitchRun {
    type V = AfterSwitchState;

    closed spec fn view(&self) -> AfterSwitchState {
        AfterSwitchState {
            phase: self.phase,
            node: self.node,
            relative_secs: self.relative_secs,
            blocks_left: self.blocks_left,
            attempts_left: self.attempts_left,
            input: match self.input {
                Some(cell) => Some(cell@),
                None => None,
            },
            input_block: self.input_block,
            start_time: self.start_time,
            cell_dep: match self.cell_dep {
                Some(cell_dep) => Some(cell_dep@),
                None => None,
            },
            tip: self.tip,
        }
    }
}

impl AfterSwitchRun {
    /// A run against the node at position `node`, with the scenario's own lock of two
    /// seconds, 37 blocks past the activation and 120 attempts.
    pub fn new(node: usize) -> (run: AfterSwitchRun)
        ensures
            run@ == initial_state(node, RELATIVE_SECS, BLOCKS_PAST_SWITCH, ATTEMPT_BUDGET),
    {
        AfterSwitchRun::with_parameters(node, RELATIVE_SECS, BLOCKS_PAST_SWITCH, ATTEMPT_BUDGET)
    }

    /// A run against the node at position `node` with a lock of `relative_secs` seconds,
    /// `blocks` blocks past the activation and `attempts` attempts.
    pub fn with_parameters(node: usize, relative_secs: u64, blocks: u64, attempts: u64) -> (run:
        AfterSwitchRun)
        ensures
            run@ == initial_state(node, relative_secs, blocks, attempts),
    {
        AfterSwitchRun {
            phase: AfterSwitchPhase::AwaitEpoch,
            node,
            relative_secs,
            blocks_left: blocks,
            attempts_left: attempts,
            input: None,
            input_block: 0,
            start_time: 0,
            cell_dep: None,
            tip: 0,
        }
    }

    /// Where the run stands.
    pub fn phase(&self) -> (phase: AfterSwitchPhase)
        ensures
            phase == self@.phase,
    {
        self.phase
    }

    /// How the run ended, once it has.
    pub fn outcome(&self) -> (outcome: Option<Outcome>)
        ensures
            outcome == match self@.phase {
                AfterSwitchPhase::Passed => Some(Outcome::Passed),
                AfterSwitchPhase::Failed(failure) => Some(Outcome::Failed(failure)),
                _ => None,
            },
    {
        match self.phase {
            AfterSwitchPhase::Passed => Some(Outcome::Passed),
            AfterSwitchPhase::Failed(failure) => Some(Outcome::Failed(failure)),
            _ => None,
        }
    }

    /// What the driver is to do next.
    pub fn action(&self) -> (action: Action)
        ensures
            action == next_action(self@),
    {
        match self.phase {
            AfterSwitchPhase::AwaitEpoch => Action::GetCurrentEpoch { node: self.node },
            AfterSwitchPhase::MineToSwitch => Action::Mine { node: self.node, blocks: 1 },
            AfterSwitchPhase::MinePastSwitch => Action::Mine { node: self.node, blocks: 1 },
            AfterSwitchPhase::PaceAfterMine => Action::Sleep { seconds: 1 },
            AfterSwitchPhase::AwaitLiveCells => Action::GetLiveCells { node: self.node },
            AfterSwitchPhase::AwaitStartTime => Action::GetCommittedTimestamp {
                node: self.node,
                block_number: self.input_block,
            },
            AfterSwitchPhase::AwaitCellDep => Action::GetCellDep { node: self.node },
            AfterSwitchPhase::AwaitTip => Action::GetTipBlockNumber { node: self.node },
            AfterSwitchPhase::AwaitTipMedian => Action::GetMedianTimestamp {
                node: self.node,
                block_number: self.tip,
            },
            AfterSwitchPhase::SendEarly => Action::SendTransaction { node: self.node },
            AfterSwitchPhase::PaceAfterReject => Action::Sleep { seconds: 1 },
            AfterSwitchPhase::MineAfterReject => Action::Mine { node: self.node, blocks: 1 },
            AfterSwitchPhase::SendDue => Action::SendTransaction { node: self.node },
            AfterSwitchPhase::Passed => Action::Finish(Outcome::Passed),
            AfterSwitchPhase::Failed(failure) => Action::Finish(Outcome::Failed(failure)),
        }
    }

    /// The serialized transaction under test, once its input and its cell dependency are
    /// known: it spends the input under a relative timestamp lock of the run's seconds.
    pub fn transaction(&self) -> (bytes: Option<Vec<u8>>)
        ensures
            serializes(bytes, self@.transaction()),
    {
        match (&self.input, &self.cell_dep) {
            (Some(cell), Some(cell_dep)) => {
                let since = since_from_relative_timestamp(self.relative_secs);
                Some(spend_transaction(cell, since, cell_dep))
            },
            _ => None,
        }
    }

    /// Consumes the driver's answer to the last action.
    pub fn on_event(self, event: Event) -> (next: AfterSwitchRun)
        ensures
            next@ == step(self@, event@),
    {
        let mut run = self;
        match run.phase {
            AfterSwitchPhase::Passed => {
                return run;
            },
            AfterSwitchPhase::Failed(_) => {
                return run;
            },
            _ => {},
        }
        match (run.phase, event) {
            (_, Event::Fault(kind)) => {
                run.phase = AfterSwitchPhase::Failed(Failure::Fault(kind));
            },
            (AfterSwitchPhase::AwaitEpoch, Event::Epoch(number)) => {
                if !is_rfc0221_switched(number) {
                    run.phase = AfterSwitchPhase::MineToSwitch;
                } else if run.blocks_left > 0 {
                    run.blocks_left = run.blocks_left - 1;
                    run.phase = AfterSwitchPhase::MinePastSwitch;
                } else {
                    run.phase = AfterSwitchPhase::AwaitLiveCells;
                }
            },
            (AfterSwitchPhase::MineToSwitch, Event::Done) => {
                run.phase = AfterSwitchPhase::AwaitEpoch;
            },
            (AfterSwitchPhase::MinePastSwitch, Event::Done) => {
                run.phase = AfterSwitchPhase::PaceAfterMine;
            },
            (AfterSwitchPhase::PaceAfterMine, Event::Done) => {
                run.phase = AfterSwitchPhase::AwaitEpoch;
            },
            (AfterSwitchPhase::AwaitLiveCells, Event::LiveCells(cells)) => {
                let mut cells = cells;
                match cells.pop() {
                    None => {
                        run.phase = AfterSwitchPhase::Failed(Failure::NoLiveCell);
                    },
                    Some(cell) => match cell.block_number {
                        None => {
                            run.phase = AfterSwitchPhase::Failed(Failure::NoTransactionInfo);
                        },
                        Some(block_number) => {
                            run.input_block = block_number;
                            run.input = Some(cell);
                            run.phase = AfterSwitchPhase::AwaitStartTime;
                        },
                    },
                }
            },
            (AfterSwitchPhase::AwaitStartTime, Event::Timestamp(millis)) => {
                run.start_time = millis;
                run.phase = AfterSwitchPhase::AwaitCellDep;
            },
            (AfterSwitchPhase::AwaitCellDep, Event::CellDep(cell_dep)) => {
                run.cell_dep = Some(cell_dep);
                run.phase = AfterSwitchPhase::AwaitTip;
            },
            (AfterSwitchPhase::AwaitTip, Event::BlockNumber(number)) => {
                run.tip = number;
                run.phase = AfterSwitchPhase::AwaitTipMedian;
            },
            (AfterSwitchPhase::AwaitTipMedian, Event::Timestamp(now)) => {
                if is_lock_elapsed(run.start_time, run.relative_secs, now) {
                    run.phase = AfterSwitchPhase::SendDue;
                } else if run.attempts_left > 0 {
                    run.attempts_left = run.attempts_left - 1;
                    run.phase = AfterSwitchPhase::SendEarly;
                } else {
                    run.phase = AfterSwitchPhase::Failed(Failure::AttemptsExhausted);
                }
            },
            (AfterSwitchPhase::SendEarly, Event::TransactionResult { accepted }) => {
                if accepted {
                    run.phase = AfterSwitchPhase::Failed(Failure::AcceptedTooEarly);
                } else {
                    run.phase = AfterSwitchPhase::PaceAfterReject;
                }
            },
            (AfterSwitchPhase::PaceAfterReject, Event::Done) => {
                run.phase = AfterSwitchPhase::MineAfterReject;
            },
            (AfterSwitchPhase::MineAfterReject, Event::Done) => {
                run.phase = AfterSwitchPhase::AwaitTip;
            },
            (AfterSwitchPhase::SendDue, Event::TransactionResult { accepted }) => {
                if accepted {
                    run.phase = AfterSwitchPhase::Passed;
                } else {
                    run.phase = AfterSwitchPhase::Failed(Failure::RejectedWhenDue);
                }
            },
            _ => {
                run.phase = AfterSwitchPhase::Failed(Failure::UnexpectedEvent);
            },
        }
        run
    }
}

/// The scenario: after the activation, a single node enforces the lock from the committed
/// timestamp on.
#[derive(Clone, Copy, Debug, PartialEq, Eq, Structural)]
pub struct RFC0221AfterSwitch;

impl RFC0221AfterSwitch {
    /// The name under which the scenario is logged and selected.
    pub fn case_name(&self) -> (name: &'static str)
        ensures
            name@ == "RFC0221AfterSwitch"@,
    {
        "RFC0221AfterSwitch"
    }

    /// The node set that the scenario needs: one post-fork node, seeded with the snapshot
    /// of epoch 2. Fails where the path of the post-fork binary is not configured.
    pub fn case_options(&self, config: &Config) -> (options: Result<CaseOptions, Failure>)
        ensures
            match options {
                Ok(options) => config@.ckb_fork2021 matches Some(path) && options@
                    == after_switch_options(path),
                Err(failure) => config@.ckb_fork2021 is None && failure == Failure::MissingBinary,
            },
    {
        match &config.ckb_fork2021 {
            None => Err(Failure::MissingBinary),
            Some(path) => {
                let node = NodeOptions::new(
                    NODE_NAME,
                    path.as_str(),
                    "db/Epoch2V2TestData",
                    "spec/fork2021",
                    "config/fork2021",
                );
                let mut node_options: Vec<NodeOptions> = Vec::new();
                node_options.push(node);
                let options = CaseOptions {
                    make_all_nodes_connected: true,
                    make_all_nodes_synced: true,
                    make_all_nodes_connected_and_synced: true,
                    node_options,
                };
                assert(options@.node_options =~= after_switch_options(path@).node_options);
                Ok(options)
            },
        }
    }

    /// Starts a run against `nodes`. Fails where the scenario's node is not among them.
    pub fn run(&self, nodes: &Nodes) -> (run: Result<AfterSwitchRun, Failure>)
        ensures
            match run {
                Ok(run) => run@.node < nodes@.len() && nodes@[run@.node as int] == NODE_NAME@
                    && run@ == initial_state(
                    run@.node,
                    RELATIVE_SECS,
                    BLOCKS_PAST_SWITCH,
                    ATTEMPT_BUDGET,
                ),
                Err(failure) => !nodes@.contains(NODE_NAME@) && failure == Failure::UnknownNode,
            },
    {
        match nodes.get_node(NODE_NAME) {
            Ok(node) => Ok(AfterSwitchRun::new(node)),
            Err(failure) => Err(failure),
        }
    }
}

impl AfterSwitchState {
    /// Whether the run is at a point at which the transaction under test can be built and
    /// the input's block is known.
    pub open spec fn prepared(self) -> bool {
        let chosen = self.input matches Some(cell) && cell.block_number == Some(self.input_block);
        match self.phase {
            AfterSwitchPhase::AwaitStartTime => chosen,
            AfterSwitchPhase::AwaitCellDep => chosen,
            AfterSwitchPhase::AwaitTip => chosen && self.cell_dep is Some,
            AfterSwitchPhase::AwaitTipMedian => chosen && self.cell_dep is Some,
            AfterSwitchPhase::SendEarly => chosen && self.cell_dep is Some,
            AfterSwitchPhase::PaceAfterReject => chosen && self.cell_dep is Some,
            AfterSwitchPhase::MineAfterReject => chosen && self.cell_dep is Some,
            AfterSwitchPhase::SendDue => chosen && self.cell_dep is Some,
            _ => true,
        }
    }
}

/// How often, while `events` were consumed from `s` on, the transaction was submitted with
/// the lock still running.
pub open spec fn early_sends(s: AfterSwitchState, events: Seq<EventModel>) -> nat
    decreases events.len(),
{
    if events.len() == 0 {
        0
    } else {
        let before = run_from(s, events.drop_last());
        let entered: nat = if before.phase == AfterSwitchPhase::AwaitTipMedian && run_from(
            s,
            events,
        ).phase == AfterSwitchPhase::SendEarly {
            1
        } else {
            0
        };
        early_sends(s, events.drop_last()) + entered
    }
}

/// A run that has ended takes no further step: whatever the driver reports, the state and
/// with it the outcome stay.
pub proof fn lemma_ended_run_stays(s: AfterSwitchState, events: Seq<EventModel>)
    requires
        s.ended(),
    ensures
        run_from(s, events) == s,
    decreases events.len(),
{
    if events.len() > 0 {
        lemma_ended_run_stays(s, events.drop_last());
    }
}

/// A run that has ended after some of the events is in the same state after all of them.
pub proof fn lemma_outcome_is_final(s: AfterSwitchState, events: Seq<EventModel>, i: int)
    requires
        0 <= i <= events.len(),
        run_from(s, events.take(i)).ended(),
    ensures
        run_from(s, events) == run_from(s, events.take(i)),
    decreases events.len() - i,
{
    if i == events.len() {
        assert(events.take(i) =~= events);
    } else {
        assert(events.take(i + 1).drop_last() =~= events.take(i));
        lemma_outcome_is_final(s, events, i + 1);
    }
}

/// The transaction is submitted in expectation of a rejection only after a median
/// timestamp of the tip at which the lock was still running, and in expectation of
/// acceptance only after one at which it had run out. The live cells are asked for only once
/// the activation is reached and no block past it is left to mine.
pub proof fn lemma_sends_follow_the_clock(s: AfterSwitchState, e: EventModel)
    ensures
        step(s, e).phase == AfterSwitchPhase::SendEarly && s.phase != AfterSwitchPhase::SendEarly
            ==> s.phase == AfterSwitchPhase::AwaitTipMedian && s.attempts_left > 0 && (e matches EventModel::Timestamp(
            now,
        ) && !lock_elapsed(s.start_time, s.relative_secs, now)),
        step(s, e).phase == AfterSwitchPhase::SendDue && s.phase != AfterSwitchPhase::SendDue
            ==> s.phase == AfterSwitchPhase::AwaitTipMedian && (e matches EventModel::Timestamp(now)
            && lock_elapsed(s.start_time, s.relative_secs, now)),
        step(s, e).phase == AfterSwitchPhase::AwaitLiveCells && s.phase
            != AfterSwitchPhase::AwaitLiveCells ==> s.phase == AfterSwitchPhase::AwaitEpoch
            && s.blocks_left == 0 && (e matches EventModel::Epoch(number) && number
            >= RFC0221_EPOCH_NUMBER),
        step(s, e).phase == AfterSwitchPhase::Passed && s.phase != AfterSwitchPhase::Passed
            ==> s.phase == AfterSwitchPhase::SendDue && e == (EventModel::TransactionResult {
            accepted: true,
        }),
{
}

/// In a run that has not failed, every submission made while the lock was running was
/// rejected, and the submission made after it had run out was accepted.
pub proof fn lemma_verdicts_were_as_expected(s: AfterSwitchState, events: Seq<EventModel>)
    requires
        !(run_from(s, events).phase is Failed),
    ensures
        forall|i: int|
            0 <= i < events.len() ==> {
                let before = #[trigger] run_from(s, events.take(i));
                &&& before.phase == AfterSwitchPhase::SendEarly ==> events[i]
                    == (EventModel::TransactionResult { accepted: false })
                &&& before.phase == AfterSwitchPhase::SendDue ==> events[i]
                    == (EventModel::TransactionResult { accepted: true })
            },
    decreases events.len(),
{
    if events.len() > 0 {
        let front = events.drop_last();
        lemma_verdicts_were_as_expected(s, front);
        assert forall|i: int| 0 <= i < events.len() implies {
            let before = #[trigger] run_from(s, events.take(i));
            &&& before.phase == AfterSwitchPhase::SendEarly ==> events[i]
                == (EventModel::TransactionResult { accepted: false })
            &&& before.phase == AfterSwitchPhase::SendDue ==> events[i]
                == (EventModel::TransactionResult { accepted: true })
        } by {
            if i < events.len() - 1 {
                assert(events.take(i) =~= front.take(i));
            } else {
                assert(events.take(i) =~= front);
            }
        }
    }
}

/// From its start on, a run is prepared in every state it reaches: whenever it asks for the
/// transaction to be submitted, the input and the cell dependency are known.
pub proof fn lemma_run_stays_prepared(s: AfterSwitchState, events: Seq<EventModel>)
    requires
        s.prepared(),
    ensures
        run_from(s, events).prepared(),
        initial_state(s.node, s.relative_secs, s.blocks_left, s.attempts_left).prepared(),
        next_action(run_from(s, events)) is SendTransaction ==> run_from(
            s,
            events,
        ).transaction() is Some,
    decreases events.len(),
{
    if events.len() > 0 {
        lemma_run_stays_prepared(s, events.drop_last());
    }
}

/// Every submission made while the lock is running uses up one attempt: together with the
/// attempts that are left they make the attempts that the run started with, so that there
/// are never more such submissions than that.
pub proof fn lemma_attempts_are_bounded(s: AfterSwitchState, events: Seq<EventModel>)
    ensures
        early_sends(s, events) + run_from(s, events).attempts_left == s.attempts_left,
        early_sends(s, events) <= s.attempts_left,
    decreases events.len(),
{
    if events.len() > 0 {
        lemma_attempts_are_bounded(s, events.drop_last());
    }
}

/// A lock of zero seconds has run out as soon as the tip's median timestamp has reached
/// the start time: the transaction is then submitted in expectation of acceptance at once.
pub proof fn lemma_zero_lock_is_due_at_once(s: AfterSwitchState, now: u64)
    requires
        s.phase == AfterSwitchPhase::AwaitTipMedian,
        s.relative_secs == 0,
        s.start_time <= now,
    ensures
        step(s, EventModel::Timestamp(now)).phase == AfterSwitchPhase::SendDue,
{
}

/// While no median timestamp of the tip reaches the end of the lock, the run never
/// expects an acceptance and never passes; once its attempts are used up, the next such
/// timestamp ends it with a timeout.
pub proof fn lemma_running_lock_never_passes(s: AfterSwitchState, events: Seq<EventModel>)
    requires
        s.phase != AfterSwitchPhase::SendDue,
        s.phase != AfterSwitchPhase::Passed,
        forall|i: int|
            0 <= i < events.len() ==> {
                let before = #[trigger] run_from(s, events.take(i));
                events[i] matches EventModel::Timestamp(now) ==> !lock_elapsed(
                    before.start_time,
                    before.relative_secs,
                    now,
                )
            },
    ensures
        run_from(s, events).phase != AfterSwitchPhase::SendDue,
        run_from(s, events).phase != AfterSwitchPhase::Passed,
        forall|now: u64|
            run_from(s, events).phase == AfterSwitchPhase::AwaitTipMedian && run_from(
                s,
                events,
            ).attempts_left == 0 && !lock_elapsed(
                run_from(s, events).start_time,
                run_from(s, events).relative_secs,
                now,
            ) ==> #[trigger] step(run_from(s, events), EventModel::Timestamp(now)).phase
                == AfterSwitchPhase::Failed(Failure::AttemptsExhausted),
    decreases events.len(),
{
    if events.len() > 0 {
        let front = events.drop_last();
        assert forall|i: int| 0 <= i < front.len() implies {
            let before = #[trigger] run_from(s, front.take(i));
            front[i] matches EventModel::Timestamp(now) ==> !lock_elapsed(
                before.start_time,
                before.relative_secs,
                now,
            )
        } by {
            assert(events.take(i) =~= front.take(i));
        }
        lemma_running_lock_never_passes(s, front);
        assert(events.take(events.len() - 1) =~= front);
    }
}

} // verus!
