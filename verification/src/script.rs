//! The vocabulary that scenarios and their driver share: the actions a scenario asks for,
//! the events that answer them, and the ways a scenario can fail.

use crate::chain::{CellDep, CellDepModel, LiveCell, LiveCellModel, live_cell_models};
use vstd::prelude::*;

verus! {

/// The kinds of error that end a scenario.
#[derive(Clone, Copy, Debug, PartialEq, Eq, Structural)]
pub enum ErrorKind {
    /// A binary path, a fixture or a template is missing.
    Environment,
    /// Staging a working directory failed.
    Io,
    /// A node did not become responsive in time.
    NodeStartup,
    /// A call to a node failed in transport, or its answer could not be read.
    Rpc,
    /// A bounded wait ran out.
    Timeout,
    /// An expectation of the scenario did not hold.
    AssertionFailure,
    /// A node was asked for under a name that the node set does not hold.
    UnknownNode,
}

/// Why a scenario failed.
#[derive(Clone, Copy, Debug, PartialEq, Eq, Structural)]
pub enum Failure {
    /// The driver could not carry out an action, and reports the kind of error.
    Fault(ErrorKind),
    /// The driver answered an action with an event of another kind.
    UnexpectedEvent,
    /// The path of a node binary that the scenario needs is not configured.
    MissingBinary,
    /// The scenario asked for a node that the node set does not hold.
    UnknownNode,
    /// Two nodes of one scenario share a name.
    DuplicateNodeName,
    /// The driver node has no live cell to spend.
    NoLiveCell,
    /// The chosen live cell does not say which block confirmed it.
    NoTransactionInfo,
    /// A node accepted the transaction although the rule it runs forbids it.
    AcceptedTooEarly,
    /// A node rejected the transaction although the rule it runs allows it.
    RejectedWhenDue,
    /// The lock did not run out within the allowed number of attempts.
    AttemptsExhausted,
    /// The start time under the old rule is not before the start time under the new rule.
    StartTimesNotOrdered,
    /// The chain moved past the time at which the two rules disagree.
    WindowMissed,
    /// The nodes did not reach a common tip although they should have.
    SyncTimedOut,
    /// The nodes reached a common tip although the chain should have split.
    UnexpectedSync,
    /// The node under the new rule did not ban its peer for an invalid block.
    PeerNotBanned,
    /// The proposal window reported by the node leaves no room to count past it.
    ProposalWindowTooLarge,
}

/// How a scenario ended.
#[derive(Clone, Copy, Debug, PartialEq, Eq, Structural)]
pub enum Outcome {
    Passed,
    Failed(Failure),
}

/// What a scenario asks its driver to do next. Nodes are named by their position in the
/// scenario's node options.
#[derive(Clone, Copy, Debug, PartialEq, Eq, Structural)]
pub enum Action {
    /// Name the scenario in the log and log its start; answered by `Event::Done`.
    LogStart,
    /// Log the end of the scenario; answered by `Event::Done`.
    LogEnd,
    /// Log why the scenario failed; answered by `Event::Done`.
    LogFailure(Failure),
    /// Stage the node's working directory; answered by `Event::Done`.
    InitNode { node: usize },
    /// Spawn the node's process and wait until it answers; answered by `Event::Done`.
    StartNode { node: usize },
    /// Make `from` add `to` as a peer and wait until each lists the other; answered by
    /// `Event::Done`.
    Connect { from: usize, to: usize },
    /// Stop every node that was started; answered by `Event::Done`.
    StopNodes,
    /// Ask the node for its current epoch; answered by `Event::Epoch`.
    GetCurrentEpoch { node: usize },
    /// Ask the node for the epoch of its tip block; answered by `Event::Epoch`.
    GetTipEpoch { node: usize },
    /// Ask the node for the number of its tip block; answered by `Event::BlockNumber`.
    GetTipBlockNumber { node: usize },
    /// Ask the node for the median timestamp of a block; answered by `Event::Timestamp`.
    GetMedianTimestamp { node: usize, block_number: u64 },
    /// Ask the node for the committed timestamp of a block; answered by `Event::Timestamp`.
    GetCommittedTimestamp { node: usize, block_number: u64 },
    /// Ask the node for its live always-success cells; answered by `Event::LiveCells`.
    GetLiveCells { node: usize },
    /// Ask the node for the always-success cell dependency; answered by `Event::CellDep`.
    GetCellDep { node: usize },
    /// Ask the node for the closest end of its proposal window; answered by
    /// `Event::ProposalWindow`.
    GetProposalWindow { node: usize },
    /// Ask the node for the reasons of its bans; answered by `Event::BannedAddresses`.
    GetBannedAddresses { node: usize },
    /// Advance the node's chain by `blocks` blocks; answered by `Event::Done`.
    Mine { node: usize, blocks: u64 },
    /// Let `seconds` seconds of wall time pass; answered by `Event::Done`.
    Sleep { seconds: u64 },
    /// Submit the scenario's transaction to the node; answered by
    /// `Event::TransactionResult`.
    SendTransaction { node: usize },
    /// Wait until all nodes report the same tip, or give up; answered by
    /// `Event::SyncResult`.
    WaitForSync,
    /// Dump the node's data directory as a fixture; answered by `Event::Done`.
    DumpTestdata { node: usize },
    /// Nothing is left to do: the scenario has ended.
    Finish(Outcome),
}

/// What the driver observed when it carried out an action.
#[derive(Clone, Debug, PartialEq, Eq)]
pub enum Event {
    /// The action could not be carried out.
    Fault(ErrorKind),
    /// The action was carried out and has nothing to report.
    Done,
    Epoch(u64),
    BlockNumber(u64),
    Timestamp(u64),
    /// The node's inventory in chain order, oldest first.
    LiveCells(Vec<LiveCell>),
    CellDep(CellDep),
    TransactionResult { accepted: bool },
    SyncResult { synced: bool },
    ProposalWindow { closest: u64 },
    /// The reason of each ban that the node holds.
    BannedAddresses(Vec<String>),
}

/// An event, as mathematics.
pub enum EventModel {
    Fault(ErrorKind),
    Done,
    Epoch(u64),
    BlockNumber(u64),
    Timestamp(u64),
    LiveCells(Seq<LiveCellModel>),
    CellDep(CellDepModel),
    TransactionResult { accepted: bool },
    SyncResult { synced: bool },
    ProposalWindow { closest: u64 },
    BannedAddresses(Seq<Seq<char>>),
}

/// The texts of a list of strings, in order.
pub open spec fn texts(strings: Seq<String>) -> Seq<Seq<char>> {
    strings.map_values(|s: String| s@)
}

impl View for Event {
    type V = EventModel;

    open spec fn view(&self) -> EventModel {
        match *self {
            Event::Fault(kind) => EventModel::Fault(kind),
            Event::Done => EventModel::Done,
            Event::Epoch(number) => EventModel::Epoch(number),
            Event::BlockNumber(number) => EventModel::BlockNumber(number),
            Event::Timestamp(millis) => EventModel::Timestamp(millis),
            Event::LiveCells(cells) => EventModel::LiveCells(live_cell_models(cells@)),
            Event::CellDep(cell_dep) => EventModel::CellDep(cell_dep@),
            Event::TransactionResult { accepted } => EventModel::TransactionResult { accepted },
            Event::SyncResult { synced } => EventModel::SyncResult { synced },
            Event::ProposalWindow { closest } => EventModel::ProposalWindow { closest },
            Event::BannedAddresses(reasons) => EventModel::BannedAddresses(texts(reasons@)),
        }
    }
}

impl Failure {
    /// The kind of error that this failure is reported as.
    pub open spec fn spec_kind(self) -> ErrorKind {
        match self {
            Failure::Fault(kind) => kind,
            Failure::UnexpectedEvent => ErrorKind::Rpc,
            Failure::MissingBinary => ErrorKind::Environment,
            Failure::UnknownNode => ErrorKind::UnknownNode,
            Failure::DuplicateNodeName => ErrorKind::AssertionFailure,
            Failure::NoLiveCell => ErrorKind::AssertionFailure,
            Failure::NoTransactionInfo => ErrorKind::AssertionFailure,
            Failure::AcceptedTooEarly => ErrorKind::AssertionFailure,
            Failure::RejectedWhenDue => ErrorKind::AssertionFailure,
            Failure::AttemptsExhausted => ErrorKind::Timeout,
            Failure::StartTimesNotOrdered => ErrorKind::AssertionFailure,
            Failure::WindowMissed => ErrorKind::AssertionFailure,
            Failure::SyncTimedOut => ErrorKind::Timeout,
            Failure::UnexpectedSync => ErrorKind::AssertionFailure,
            Failure::PeerNotBanned => ErrorKind::AssertionFailure,
            Failure::ProposalWindowTooLarge => ErrorKind::Rpc,
        }
    }

    /// The message that this failure is reported with.
    pub open spec fn spec_message(self) -> Seq<char> {
        match self {
            Failure::Fault(kind) => match kind {
                ErrorKind::Environment => "a binary, fixture or template is missing"@,
                ErrorKind::Io => "staging the working directory failed"@,
                ErrorKind::NodeStartup => "the node did not become responsive"@,
                ErrorKind::Rpc => "a call to the node failed"@,
                ErrorKind::Timeout => "a bounded wait ran out"@,
                ErrorKind::AssertionFailure => "an expectation did not hold"@,
                ErrorKind::UnknownNode => "no node of that name"@,
            },
            Failure::UnexpectedEvent => "the node's answer does not fit the question"@,
            Failure::MissingBinary => "the path of a node binary is not configured"@,
            Failure::UnknownNode => "the scenario names a node that the node set lacks"@,
            Failure::DuplicateNodeName => "node names within a scenario must be unique"@,
            Failure::NoLiveCell => "no live cell available"@,
            Failure::NoTransactionInfo => "live cell should have transaction info"@,
            Failure::AcceptedTooEarly => "the node should reject the transaction, but accepted it"@,
            Failure::RejectedWhenDue => "the node should accept the transaction, but rejected it"@,
            Failure::AttemptsExhausted => "the lock did not run out within the allowed attempts"@,
            Failure::StartTimesNotOrdered =>
                "the old rule's start time should precede the new rule's"@,
            Failure::WindowMissed => "the chain moved past the time at which the rules disagree"@,
            Failure::SyncTimedOut => "nodes can sync before rfc0221 block"@,
            Failure::UnexpectedSync => "nodes cannot sync after rfc0221 block"@,
            Failure::PeerNotBanned => "the node should ban its peer after rfc0221 block"@,
            Failure::ProposalWindowTooLarge => "the proposal window is too large"@,
        }
    }

    /// The kind of error that this failure is reported as.
    #[verifier::when_used_as_spec(spec_kind)]
    pub fn kind(self) -> (kind: ErrorKind)
        ensures
            kind == self.spec_kind(),
    {
        match self {
            Failure::Fault(kind) => kind,
            Failure::UnexpectedEvent => ErrorKind::Rpc,
            Failure::MissingBinary => ErrorKind::Environment,
            Failure::UnknownNode => ErrorKind::UnknownNode,
            Failure::AttemptsExhausted => ErrorKind::Timeout,
            Failure::SyncTimedOut => ErrorKind::Timeout,
            Failure::ProposalWindowTooLarge => ErrorKind::Rpc,
            _ => ErrorKind::AssertionFailure,
        }
    }

    /// The message that this failure is reported with.
    pub fn message(self) -> (message: &'static str)
        ensures
            message@ == self.spec_message(),
    {
        match self {
            Failure::Fault(kind) => match kind {
                ErrorKind::Environment => "a binary, fixture or template is missing",
                ErrorKind::Io => "staging the working directory failed",
                ErrorKind::NodeStartup => "the node did not become responsive",
                ErrorKind::Rpc => "a call to the node failed",
                ErrorKind::Timeout => "a bounded wait ran out",
                ErrorKind::AssertionFailure => "an expectation did not hold",
                ErrorKind::UnknownNode => "no node of that name",
            },
            Failure::UnexpectedEvent => "the node's answer does not fit the question",
            Failure::MissingBinary => "the path of a node binary is not configured",
            Failure::UnknownNode => "the scenario names a node that the node set lacks",
            Failure::DuplicateNodeName => "node names within a scenario must be unique",
            Failure::NoLiveCell => "no live cell available",
            Failure::NoTransactionInfo => "live cell should have transaction info",
            Failure::AcceptedTooEarly => "the node should reject the transaction, but accepted it",
            Failure::RejectedWhenDue => "the node should accept the transaction, but rejected it",
            Failure::AttemptsExhausted => "the lock did not run out within the allowed attempts",
            Failure::StartTimesNotOrdered =>
                "the old rule's start time should precede the new rule's",
            Failure::WindowMissed => "the chain moved past the time at which the rules disagree",
            Failure::SyncTimedOut => "nodes can sync before rfc0221 block",
            Failure::UnexpectedSync => "nodes cannot sync after rfc0221 block",
            Failure::PeerNotBanned => "the node should ban its peer after rfc0221 block",
            Failure::ProposalWindowTooLarge => "the proposal window is too large",
        }
    }
}

impl Outcome {
    /// Whether the scenario passed.
    pub fn passed(self) -> (passed: bool)
        ensures
            passed == (self == Outcome::Passed),
    {
        match self {
            Outcome::Passed => true,
            Outcome::Failed(_) => false,
        }
    }
}

} // verus!
