//! What a node is started with, and the life of a node's process.

use vstd::prelude::*;

verus! {

/// What one node of a scenario is started with.
#[derive(Clone, Debug, PartialEq, Eq)]
pub struct NodeOptions {
    /// The name of the node, unique within its scenario.
    pub node_name: String,
    /// The path of the node's executable.
    pub ckb_binary: String,
    /// The database snapshot that the node's data directory is seeded with.
    pub initial_database: String,
    /// The template of the node's chain specification.
    pub chain_spec: String,
    /// The template of the node's application configuration.
    pub app_config: String,
}

/// Node options, as mathematics.
pub struct NodeOptionsModel {
    pub node_name: Seq<char>,
    pub ckb_binary: Seq<char>,
    pub initial_database: Seq<char>,
    pub chain_spec: Seq<char>,
    pub app_config: Seq<char>,
}

impl View for NodeOptions {
    type V = NodeOptionsModel;

    open spec fn view(&self) -> NodeOptionsModel {
        NodeOptionsModel {
            node_name: self.node_name@,
            ckb_binary: self.ckb_binary@,
            initial_database: self.initial_database@,
            chain_spec: self.chain_spec@,
            app_config: self.app_config@,
        }
    }
}

impl NodeOptions {
    /// Options made of the given texts.
    pub fn new(
        node_name: &str,
        ckb_binary: &str,
        initial_database: &str,
        chain_spec: &str,
        app_config: &str,
    ) -> (options: NodeOptions)
        ensures
            options@ == (NodeOptionsModel {
                node_name: node_name@,
                ckb_binary: ckb_binary@,
                initial_database: initial_database@,
                chain_spec: chain_spec@,
                app_config: app_config@,
            }),
    {
        NodeOptions {
            node_name: String::from_str(node_name),
            ckb_binary: String::from_str(ckb_binary),
            initial_database: String::from_str(initial_database),
            chain_spec: String::from_str(chain_spec),
            app_config: String::from_str(app_config),
        }
    }
}

/// The life of a node's process.
#[derive(Clone, Copy, Debug, PartialEq, Eq, Structural)]
pub enum NodeState {
    Uninitialized,
    Initialized,
    Running,
    Stopped,
}

impl NodeState {
    /// The state after the working directory has been staged: only a node that has not
    /// been initialized can be.
    pub open spec fn spec_init(self) -> Option<NodeState> {
        if self == NodeState::Uninitialized {
            Some(NodeState::Initialized)
        } else {
            None
        }
    }

    /// The state after the process has been spawned: only an initialized node that is not
    /// running can be started.
    pub open spec fn spec_start(self) -> Option<NodeState> {
        if self == NodeState::Initialized {
            Some(NodeState::Running)
        } else {
            None
        }
    }

    /// The state after a stop: stopped, whatever it was.
    pub open spec fn spec_stop(self) -> NodeState {
        NodeState::Stopped
    }

    /// Stages the node; `None` where the node has been initialized before.
    #[verifier::when_used_as_spec(spec_init)]
    pub fn init(self) -> (next: Option<NodeState>)
        ensures
            next == self.spec_init(),
    {
        match self {
            NodeState::Uninitialized => Some(NodeState::Initialized),
            _ => None,
        }
    }

    /// Starts the node; `None` where the node is not initialized, runs or has stopped.
    #[verifier::when_used_as_spec(spec_start)]
    pub fn start(self) -> (next: Option<NodeState>)
        ensures
            next == self.spec_start(),
    {
        match self {
            NodeState::Initialized => Some(NodeState::Running),
            _ => None,
        }
    }

    /// Stops the node. Stopping a stopped node changes nothing.
    #[verifier::when_used_as_spec(spec_stop)]
    pub fn stop(self) -> (next: NodeState)
        ensures
            next == self.spec_stop(),
    {
        NodeState::Stopped
    }

    /// Whether a scenario may use the node: only while it runs.
    pub fn is_usable(self) -> (usable: bool)
        ensures
            usable == (self == NodeState::Running),
    {
        match self {
            NodeState::Running => true,
            _ => false,
        }
    }
}

/// Stopping is idempotent, and a node can only be used between its start and its stop:
/// the one path to `Running` is `init` and then `start`, and every path ends in `Stopped`.
pub proof fn lemma_lifecycle(state: NodeState)
    ensures
        state.spec_stop().spec_stop() == state.spec_stop(),
        state.spec_stop().spec_start() is None,
        state.spec_stop().spec_init() is None,
        state.spec_start() == Some(NodeState::Running) <==> state == NodeState::Initialized,
        state.spec_init() == Some(NodeState::Initialized) <==> state == NodeState::Uninitialized,
{
}

/// The name of a node's working directory: the scenario's name, a slash, the node's name.
pub open spec fn working_directory_name(scenario: Seq<char>, node_name: Seq<char>) -> Seq<char> {
    scenario + seq!['/'] + node_name
}

/// The name of the working directory of the node `node_name` of the scenario `scenario`.
pub fn working_directory(scenario: &str, node_name: &str) -> (directory: String)
    ensures
        directory@ == working_directory_name(scenario@, node_name@),
{
    proof {
        reveal_strlit("/");
    }
    let mut directory = String::from_str(scenario);
    directory.append("/");
    directory.append(node_name);
    assert(directory@ =~= working_directory_name(scenario@, node_name@));
    directory
}

/// What a bounded wait does after a look at what it waits for.
#[derive(Clone, Copy, Debug, PartialEq, Eq, Structural)]
pub enum WaitStep {
    /// What was waited for has come.
    Satisfied,
    /// It has not; look again after a pause.
    Retry,
    /// It has not, and no look is left.
    Exhausted,
}

/// A wait that looks again no more than a fixed number of times.
#[derive(Clone, Copy, Debug, PartialEq, Eq, Structural)]
pub struct BoundedWait {
    /// How often the wait may still look again.
    pub retries_left: u64,
}

/// The seconds that a node is given to answer after its start, one look per second.
pub const STARTUP_RETRIES: u64 = 60;

impl BoundedWait {
    /// What the wait does after a look, and the wait that remains.
    pub open spec fn spec_observe(self, satisfied: bool) -> (WaitStep, BoundedWait) {
        if satisfied {
            (WaitStep::Satisfied, self)
        } else if self.retries_left > 0 {
            (WaitStep::Retry, BoundedWait { retries_left: (self.retries_left - 1) as u64 })
        } else {
            (WaitStep::Exhausted, self)
        }
    }

    /// A wait that may look again `retries` times.
    pub fn new(retries: u64) -> (wait: BoundedWait)
        ensures
            wait.retries_left == retries,
    {
        BoundedWait { retries_left: retries }
    }

    /// Takes note of a look: `satisfied` says whether what is waited for has come.
    #[verifier::when_used_as_spec(spec_observe)]
    pub fn observe(self, satisfied: bool) -> (next: (WaitStep, BoundedWait))
        ensures
            next == self.spec_observe(satisfied),
    {
        if satisfied {
            (WaitStep::Satisfied, self)
        } else if self.retries_left > 0 {
            (WaitStep::Retry, BoundedWait { retries_left: self.retries_left - 1 })
        } else {
            (WaitStep::Exhausted, self)
        }
    }
}

/// The step of a wait after a run of looks, each of which found nothing.
pub open spec fn after_misses(wait: BoundedWait, misses: nat) -> (WaitStep, BoundedWait)
    decreases misses,
{
    if misses == 0 {
        (WaitStep::Retry, wait)
    } else {
        let earlier = after_misses(wait, (misses - 1) as nat);
        if earlier.0 == WaitStep::Retry {
            earlier.1.spec_observe(false)
        } else {
            earlier
        }
    }
}

/// A bounded wait ends: a wait of `n` retries asks for another look after each of its
/// first `n` fruitless looks and is exhausted by the one after them.
pub proof fn lemma_wait_is_bounded(wait: BoundedWait, misses: nat)
    ensures
        misses <= wait.retries_left ==> after_misses(wait, misses) == (
            WaitStep::Retry,
            BoundedWait { retries_left: (wait.retries_left - misses) as u64 },
        ),
        misses > wait.retries_left ==> after_misses(wait, misses) == (
            WaitStep::Exhausted,
            BoundedWait { retries_left: 0 },
        ),
    decreases misses,
{
    if misses > 0 {
        lemma_wait_is_bounded(wait, (misses - 1) as nat);
    }
}

/// The height that a node's chain is to reach by mining.
#[derive(Clone, Copy, Debug, PartialEq, Eq, Structural)]
pub struct MineGoal {
    pub target: u64,
}

impl MineGoal {
    /// The goal of mining `blocks` blocks on a chain whose tip is `tip`; `None` where no
    /// block number is that high.
    pub fn new(tip: u64, blocks: u64) -> (goal: Option<MineGoal>)
        ensures
            goal == if tip + blocks <= u64::MAX {
                Some(MineGoal { target: (tip + blocks) as u64 })
            } else {
                None
            },
    {
        match tip.checked_add(blocks) {
            Some(target) => Some(MineGoal { target }),
            None => None,
        }
    }

    /// How many blocks are still to be mined when the tip is `tip`: none once the tip has
    /// reached the target.
    pub fn blocks_left(&self, tip: u64) -> (left: u64)
        ensures
            left == if tip >= self.target {
                0
            } else {
                self.target - tip
            },
    {
        if tip >= self.target {
            0
        } else {
            self.target - tip
        }
    }
}

} // verus!
