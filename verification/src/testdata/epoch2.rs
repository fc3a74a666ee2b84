//! The snapshots of a chain that has reached epoch 2, one made by each node binary.

use crate::config::Config;
use crate::node::{NodeOptions, NodeOptionsModel};
use crate::script::{Action, Event, EventModel, Failure, Outcome};
use vstd::prelude::*;

verus! {

/// The epoch that the chain of a snapshot has reached.
pub const SNAPSHOT_EPOCH: u64 = 2;

/// Where the making of a snapshot stands.
#[derive(Clone, Copy, Debug, PartialEq, Eq, Structural)]
pub enum TestdataPhase {
    /// Staging the node.
    Init,
    /// Starting the node.
    Start,
    /// Mining one block.
    Mine,
    /// Asked for the epoch that the chain is in.
    AwaitEpoch,
    /// Dumping the node's data directory.
    Dump,
    /// Stopping the node.
    Stop(Outcome),
    /// Nothing is left to do.
    Finished(Outcome),
}

/// The making of a snapshot: a node is started on an empty database and mines, block by
/// block, until its chain is in epoch 2; its data directory is then dumped.
#[derive(Clone, Copy, Debug, PartialEq, Eq, Structural)]
pub struct TestdataRun {
    pub phase: TestdataPhase,
    /// Whether the epoch is read off the tip block; if not, the node is asked for its
    /// current epoch.
    pub by_tip_block: bool,
}

impl TestdataRun {
    /// What the run asks its driver to do.
    pub open spec fn spec_action(self) -> Action {
        match self.phase {
            TestdataPhase::Init => Action::InitNode { node: 0 },
            TestdataPhase::Start => Action::StartNode { node: 0 },
            TestdataPhase::Mine => Action::Mine { node: 0, blocks: 1 },
            TestdataPhase::AwaitEpoch => if self.by_tip_block {
                Action::GetTipEpoch { node: 0 }
            } else {
                Action::GetCurrentEpoch { node: 0 }
            },
            TestdataPhase::Dump => Action::DumpTestdata { node: 0 },
            TestdataPhase::Stop(_) => Action::StopNodes,
            TestdataPhase::Finished(outcome) => Action::Finish(outcome),
        }
    }

    /// This run in another phase.
    pub open spec fn at(self, phase: TestdataPhase) -> TestdataRun {
        TestdataRun { phase, ..self }
    }

    /// The run after the driver has answered its action with `e`.
    ///
    /// A fault, or an answer of the wrong kind, fails the run; the node is still stopped.
    /// After each block the epoch is asked for: from epoch 2 on the data directory is dumped,
    /// before that another block is mined.
    pub open spec fn spec_on_event(self, e: EventModel) -> TestdataRun {
        match self.phase {
            TestdataPhase::Finished(_) => self,
            TestdataPhase::Stop(outcome) => self.at(TestdataPhase::Finished(outcome)),
            _ => if let EventModel::Fault(kind) = e {
                self.at(TestdataPhase::Stop(Outcome::Failed(Failure::Fault(kind))))
            } else {
                match (self.phase, e) {
                    (TestdataPhase::Init, EventModel::Done) => self.at(TestdataPhase::Start),
                    (TestdataPhase::Start, EventModel::Done) => self.at(TestdataPhase::Mine),
                    (TestdataPhase::Mine, EventModel::Done) => self.at(TestdataPhase::AwaitEpoch),
                    (TestdataPhase::AwaitEpoch, EventModel::Epoch(number)) => if number
                        >= SNAPSHOT_EPOCH {
                        self.at(TestdataPhase::Dump)
                    } else {
                        self.at(TestdataPhase::Mine)
                    },
                    (TestdataPhase::Dump, EventModel::Done) => self.at(
                        TestdataPhase::Stop(Outcome::Passed),
                    ),
                    _ => self.at(TestdataPhase::Stop(Outcome::Failed(Failure::UnexpectedEvent))),
                }
            },
        }
    }

    /// A run that has not begun.
    pub fn new(by_tip_block: bool) -> (run: TestdataRun)
        ensures
            run == (TestdataRun { phase: TestdataPhase::Init, by_tip_block }),
    {
        TestdataRun { phase: TestdataPhase::Init, by_tip_block }
    }

    /// What the driver is to do next.
    #[verifier::when_used_as_spec(spec_action)]
    pub fn action(self) -> (action: Action)
        ensures
            action == self.spec_action(),
    {
        match self.phase {
            TestdataPhase::Init => Action::InitNode { node: 0 },
            TestdataPhase::Start => Action::StartNode { node: 0 },
            TestdataPhase::Mine => Action::Mine { node: 0, blocks: 1 },
            TestdataPhase::AwaitEpoch => if self.by_tip_block {
                Action::GetTipEpoch { node: 0 }
            } else {
                Action::GetCurrentEpoch { node: 0 }
            },
            TestdataPhase::Dump => Action::DumpTestdata { node: 0 },
            TestdataPhase::Stop(_) => Action::StopNodes,
            TestdataPhase::Finished(outcome) => Action::Finish(outcome),
        }
    }

    /// Consumes the driver's answer to the last action.
    pub fn on_event(self, event: &Event) -> (next: TestdataRun)
        ensures
            next == self.spec_on_event(event@),
    {
        let phase = match self.phase {
            TestdataPhase::Finished(outcome) => TestdataPhase::Finished(outcome),
            TestdataPhase::Stop(outcome) => TestdataPhase::Finished(outcome),
            current => match (current, event) {
                (_, Event::Fault(kind)) => TestdataPhase::Stop(
                    Outcome::Failed(Failure::Fault(*kind)),
                ),
                (TestdataPhase::Init, Event::Done) => TestdataPhase::Start,
                (TestdataPhase::Start, Event::Done) => TestdataPhase::Mine,
                (TestdataPhase::Mine, Event::Done) => TestdataPhase::AwaitEpoch,
                (TestdataPhase::AwaitEpoch, Event::Epoch(number)) => if *number >= SNAPSHOT_EPOCH {
                    TestdataPhase::Dump
                } else {
                    TestdataPhase::Mine
                },
                (TestdataPhase::Dump, Event::Done) => TestdataPhase::Stop(Outcome::Passed),
                _ => TestdataPhase::Stop(Outcome::Failed(Failure::UnexpectedEvent)),
            },
        };
        TestdataRun { phase, by_tip_block: self.by_tip_block }
    }
}

/// The data directory is dumped only once the chain is in epoch 2, and a run ends only
/// after the node has been asked to stop.
pub proof fn lemma_dump_waits_for_epoch(run: TestdataRun, e: EventModel)
    ensures
        run.spec_on_event(e).phase == TestdataPhase::Dump && run.phase != TestdataPhase::Dump
            ==> run.phase == TestdataPhase::AwaitEpoch && (e matches EventModel::Epoch(number)
            && number >= SNAPSHOT_EPOCH),
        run.spec_on_event(e).phase is Finished && !(run.phase is Finished) ==> run.phase
            == TestdataPhase::Stop(run.spec_on_event(e).phase->Finished_0)
            && run.spec_action() == Action::StopNodes,
        run.spec_on_event(e).phase == TestdataPhase::Stop(Outcome::Passed) && run.phase
            != TestdataPhase::Stop(Outcome::Passed) ==> run.phase == TestdataPhase::Dump,
{
}

/// The name of the database that holds the snapshot called `name`.
pub open spec fn database_of(name: Seq<char>) -> Seq<char> {
    "db/"@ + name
}

/// The options of a node that makes a snapshot: it starts from the empty database.
pub open spec fn generator_options(node_name: Seq<char>, ckb_binary: Seq<char>) -> NodeOptionsModel {
    NodeOptionsModel {
        node_name,
        ckb_binary,
        initial_database: "db/empty"@,
        chain_spec: "spec/ckb2021"@,
        app_config: "config/ckb2021"@,
    }
}

/// The snapshot of epoch 2 that the pre-fork binary makes.
#[derive(Clone, Copy, Debug, PartialEq, Eq, Structural)]
pub struct Epoch2V1TestData;

/// The snapshot of epoch 2 that the post-fork binary makes.
#[derive(Clone, Copy, Debug, PartialEq, Eq, Structural)]
pub struct Epoch2V2TestData;

impl Epoch2V1TestData {
    /// The name of the snapshot.
    pub fn testdata_name(&self) -> (name: &'static str)
        ensures
            name@ == "Epoch2V1TestData"@,
    {
        "Epoch2V1TestData"
    }

    /// The name of the database that holds the snapshot.
    pub fn database(&self) -> (database: String)
        ensures
            database@ == database_of("Epoch2V1TestData"@),
            database@ == "db/Epoch2V1TestData"@,
    {
        proof {
            reveal_strlit("db/");
            reveal_strlit("Epoch2V1TestData");
            reveal_strlit("db/Epoch2V1TestData");
        }
        let mut database = String::from_str("db/");
        database.append(self.testdata_name());
        assert(database@ =~= "db/Epoch2V1TestData"@);
        database
    }

    /// The options of the node that makes the snapshot. Fails where the path of the
    /// pre-fork binary is not configured.
    pub fn node_options(&self, config: &Config) -> (options: Result<NodeOptions, Failure>)
        ensures
            match options {
                Ok(options) => config@.ckb2019 matches Some(path) && options@
                    == generator_options("node2019"@, path),
                Err(failure) => config@.ckb2019 is None && failure == Failure::MissingBinary,
            },
    {
        match &config.ckb2019 {
            Some(path) => Ok(
                NodeOptions::new(
                    "node2019",
                    path.as_str(),
                    "db/empty",
                    "spec/ckb2021",
                    "config/ckb2021",
                ),
            ),
            None => Err(Failure::MissingBinary),
        }
    }

    /// Starts the making of the snapshot; the epoch is read off the tip block.
    pub fn generate(&self) -> (run: TestdataRun)
        ensures
            run == (TestdataRun { phase: TestdataPhase::Init, by_tip_block: true }),
    {
        TestdataRun::new(true)
    }
}

impl Epoch2V2TestData {
    /// The name of the snapshot.
    pub fn testdata_name(&self) -> (name: &'static str)
        ensures
            name@ == "Epoch2V2TestData"@,
    {
        "Epoch2V2TestData"
    }

    /// The name of the database that holds the snapshot.
    pub fn database(&self) -> (database: String)
        ensures
            database@ == database_of("Epoch2V2TestData"@),
            database@ == "db/Epoch2V2TestData"@,
    {
        proof {
            reveal_strlit("db/");
            reveal_strlit("Epoch2V2TestData");
            reveal_strlit("db/Epoch2V2TestData");
        }
        let mut database = String::from_str("db/");
        database.append(self.testdata_name());
        assert(database@ =~= "db/Epoch2V2TestData"@);
        database
    }

    /// The options of the node that makes the snapshot. Fails where the path of the
    /// post-fork binary is not configured.
    pub fn node_options(&self, config: &Config) -> (options: Result<NodeOptions, Failure>)
        ensures
            match options {
                Ok(options) => config@.ckb2021 matches Some(path) && options@
                    == generator_options("node2021"@, path),
                Err(failure) => config@.ckb2021 is None && failure == Failure::MissingBinary,
            },
    {
        match &config.ckb2021 {
            Some(path) => Ok(
                NodeOptions::new(
                    "node2021",
                    path.as_str(),
                    "db/empty",
                    "spec/ckb2021",
                    "config/ckb2021",
                ),
            ),
            None => Err(Failure::MissingBinary),
        }
    }

    /// Starts the making of the snapshot; the node is asked for its current epoch.
    pub fn generate(&self) -> (run: TestdataRun)
        ensures
            run == (TestdataRun { phase: TestdataPhase::Init, by_tip_block: false }),
    {
        TestdataRun::new(false)
    }
}

} // verus!
