//! The scenarios, their registry, and the run of one scenario from its announcement to the
//! release of its nodes.

pub mod case_options;
pub mod rfc0221;

use crate::case::case_options::{CaseOptions, CaseOptionsModel};
use crate::case::rfc0221::after_switch::{
    AfterSwitchRun, AfterSwitchState, RFC0221AfterSwitch, after_switch_options,
};
use crate::case::rfc0221::networking::{
    NetworkingRun, NetworkingState, RFC0221Networking, networking_options,
};
use crate::case::rfc0221::{ATTEMPT_BUDGET, BLOCKS_PAST_SWITCH, RELATIVE_SECS};
use crate::config::{Config, ConfigModel};
use crate::nodes::{Nodes, setup_plan, setup_steps};
use crate::script::{Action, Event, EventModel, Failure, Outcome};
use crate::transaction::{TransactionModel, serializes};
use vstd::prelude::*;

verus! {

/// A scenario of the registry.
#[derive(Clone, Copy, Debug, PartialEq, Eq, Structural)]
pub enum Case {
    AfterSwitch(RFC0221AfterSwitch),
    Networking(RFC0221Networking),
}

/// The state of a scenario's run, as mathematics.
pub enum ScenarioState {
    AfterSwitch(AfterSwitchState),
    Networking(NetworkingState),
}

/// A scenario's run.
#[derive(Debug)]
pub enum ScenarioRun {
    AfterSwitch(AfterSwitchRun),
    Networking(NetworkingRun),
}

impl View for ScenarioRun {
    type V = ScenarioState;

    open spec fn view(&self) -> ScenarioState {
        match self {
            ScenarioRun::AfterSwitch(run) => ScenarioState::AfterSwitch(run@),
            ScenarioRun::Networking(run) => ScenarioState::Networking(run@),
        }
    }
}

impl ScenarioState {
    /// What the run asks its driver to do.
    pub open spec fn action(self) -> Action {
        match self {
            ScenarioState::AfterSwitch(s) => crate::case::rfc0221::after_switch::next_action(s),
            ScenarioState::Networking(s) => crate::case::rfc0221::networking::next_action(s),
        }
    }

    /// The state after the driver has answered with `e`.
    pub open spec fn step(self, e: EventModel) -> ScenarioState {
        match self {
            ScenarioState::AfterSwitch(s) => ScenarioState::AfterSwitch(
                crate::case::rfc0221::after_switch::step(s, e),
            ),
            ScenarioState::Networking(s) => ScenarioState::Networking(
                crate::case::rfc0221::networking::step(s, e),
            ),
        }
    }

    /// How the run ended, once it has.
    pub open spec fn outcome(self) -> Option<Outcome> {
        match self.action() {
            Action::Finish(outcome) => Some(outcome),
            _ => None,
        }
    }

    /// The transaction under test, once the run can build it.
    pub open spec fn transaction(self) -> Option<TransactionModel> {
        match self {
            ScenarioState::AfterSwitch(s) => s.transaction(),
            ScenarioState::Networking(s) => s.transaction(),
        }
    }
}

impl ScenarioRun {
    /// What the driver is to do next.
    pub fn action(&self) -> (action: Action)
        ensures
            action == self@.action(),
    {
        match self {
            ScenarioRun::AfterSwitch(run) => run.action(),
            ScenarioRun::Networking(run) => run.action(),
        }
    }

    /// How the run ended, once it has.
    pub fn outcome(&self) -> (outcome: Option<Outcome>)
        ensures
            outcome == self@.outcome(),
    {
        match self {
            ScenarioRun::AfterSwitch(run) => run.outcome(),
            ScenarioRun::Networking(run) => run.outcome(),
        }
    }

    /// The serialized transaction under test, once the run can build it.
    pub fn transaction(&self) -> (bytes: Option<Vec<u8>>)
        ensures
            serializes(bytes, self@.transaction()),
    {
        match self {
            ScenarioRun::AfterSwitch(run) => run.transaction(),
            ScenarioRun::Networking(run) => run.transaction(),
        }
    }

    /// Consumes the driver's answer to the last action.
    pub fn on_event(self, event: Event) -> (next: ScenarioRun)
        ensures
            next@ == self@.step(event@),
    {
        match self {
            ScenarioRun::AfterSwitch(run) => ScenarioRun::AfterSwitch(run.on_event(event)),
            ScenarioRun::Networking(run) => ScenarioRun::Networking(run.on_event(event)),
        }
    }
}

impl Case {
    /// The name under which the scenario is logged and selected.
    pub open spec fn spec_case_name(self) -> Seq<char> {
        match self {
            Case::AfterSwitch(_) => "RFC0221AfterSwitch"@,
            Case::Networking(_) => "RFC0221Networking"@,
        }
    }

    /// The node set that the scenario needs under `config`, where the binaries it needs
    /// are configured.
    pub open spec fn options_under(self, config: ConfigModel) -> Result<CaseOptionsModel, Failure> {
        match self {
            Case::AfterSwitch(_) => match config.ckb_fork2021 {
                Some(path) => Ok(after_switch_options(path)),
                None => Err(Failure::MissingBinary),
            },
            Case::Networking(_) => match (config.ckb2019, config.ckb2021) {
                (Some(old_path), Some(new_path)) => Ok(networking_options(old_path, new_path)),
                _ => Err(Failure::MissingBinary),
            },
        }
    }

    /// The state in which a run of the scenario starts on its own node set: the nodes are
    /// named by their positions in the scenario's options, the driver by the first.
    pub open spec fn first_state(self, config: ConfigModel) -> ScenarioState {
        match self {
            Case::AfterSwitch(_) => ScenarioState::AfterSwitch(
                crate::case::rfc0221::after_switch::initial_state(
                    0,
                    RELATIVE_SECS,
                    BLOCKS_PAST_SWITCH,
                    ATTEMPT_BUDGET,
                ),
            ),
            Case::Networking(_) => ScenarioState::Networking(
                crate::case::rfc0221::networking::initial_state(
                    1,
                    0,
                    RELATIVE_SECS,
                    config.ban_sentinel,
                    BLOCKS_PAST_SWITCH,
                    ATTEMPT_BUDGET,
                ),
            ),
        }
    }

    /// The name under which the scenario is logged and selected.
    pub fn case_name(&self) -> (name: &'static str)
        ensures
            name@ == self.spec_case_name(),
    {
        match self {
            Case::AfterSwitch(case) => case.case_name(),
            Case::Networking(case) => case.case_name(),
        }
    }

    /// The node set that the scenario needs. Fails where the path of a binary that it
    /// needs is not configured.
    pub fn case_options(&self, config: &Config) -> (options: Result<CaseOptions, Failure>)
        ensures
            match options {
                Ok(options) => self.options_under(config@) == Ok::<CaseOptionsModel, Failure>(
                    options@,
                ),
                Err(failure) => self.options_under(config@) == Err::<CaseOptionsModel, Failure>(
                    failure,
                ),
            },
    {
        match self {
            Case::AfterSwitch(case) => case.case_options(config),
            Case::Networking(case) => case.case_options(config),
        }
    }
}

/// The scenarios that are run by default, in the order in which they are run.
pub fn all_cases() -> (cases: Vec<Case>)
    ensures
        cases@ == seq![Case::AfterSwitch(RFC0221AfterSwitch)],
{
    let mut cases: Vec<Case> = Vec::new();
    cases.push(Case::AfterSwitch(RFC0221AfterSwitch));
    assert(cases@ =~= seq![Case::AfterSwitch(RFC0221AfterSwitch)]);
    cases
}

/// The scenarios that are run only on request.
pub fn optional_cases() -> (cases: Vec<Case>)
    ensures
        cases@ == seq![Case::Networking(RFC0221Networking)],
{
    let mut cases: Vec<Case> = Vec::new();
    cases.push(Case::Networking(RFC0221Networking));
    assert(cases@ =~= seq![Case::Networking(RFC0221Networking)]);
    cases
}

/// The scenarios that a run of the harness under `config` holds: those run by default,
/// followed by the optional ones where the configuration asks for them.
pub fn enabled_cases(config: &Config) -> (cases: Vec<Case>)
    ensures
        cases@ == if config@.include_optional {
            seq![Case::AfterSwitch(RFC0221AfterSwitch), Case::Networking(RFC0221Networking)]
        } else {
            seq![Case::AfterSwitch(RFC0221AfterSwitch)]
        },
{
    let mut cases = all_cases();
    if config.include_optional {
        cases.push(Case::Networking(RFC0221Networking));
        assert(cases@ =~= seq![
            Case::AfterSwitch(RFC0221AfterSwitch),
            Case::Networking(RFC0221Networking),
        ]);
    }
    cases
}

/// The scenario called `name`, by default or optional; `None` where no scenario has that
/// name.
pub fn find_case(name: &str) -> (case: Option<Case>)
    ensures
        match case {
            Some(case) => case.spec_case_name() == name@,
            None => forall|case: Case| case.spec_case_name() != name@,
        },
{
    let wanted = String::from_str(name);
    let after_switch = Case::AfterSwitch(RFC0221AfterSwitch);
    let networking = Case::Networking(RFC0221Networking);
    if String::from_str(after_switch.case_name()) == wanted {
        Some(after_switch)
    } else if String::from_str(networking.case_name()) == wanted {
        Some(networking)
    } else {
        None
    }
}

/// Every scenario has a name, and no two scenarios share one.
pub proof fn lemma_case_names_identify(a: Case, b: Case)
    ensures
        a.spec_case_name().len() > 0,
        a.spec_case_name() == b.spec_case_name() ==> a == b,
{
    reveal_strlit("RFC0221AfterSwitch");
    reveal_strlit("RFC0221Networking");
    assert("RFC0221AfterSwitch"@[7] != "RFC0221Networking"@[7]);
}

/// The exit code of a run of the harness: zero where every scenario passed, one where any
/// failed.
pub fn exit_code(outcomes: &Vec<Outcome>) -> (code: i32)
    ensures
        code == if forall|i: int| 0 <= i < outcomes@.len() ==> outcomes@[i] == Outcome::Passed {
            0i32
        } else {
            1i32
        },
{
    let mut i: usize = 0;
    while i < outcomes.len()
        invariant
            i <= outcomes.len(),
            forall|k: int| 0 <= k < i ==> outcomes@[k] == Outcome::Passed,
        decreases outcomes.len() - i,
    {
        if !outcomes[i].passed() {
            return 1;
        }
        i += 1;
    }
    0
}

/// Where the run of a scenario stands.
#[derive(Clone, Copy, Debug, PartialEq, Eq, Structural)]
pub enum RunnerPhase {
    /// Naming the scenario in the log and logging its start.
    Announce,
    /// Building the node set, step by step.
    Setup,
    /// The scenario is running.
    Running,
    /// Logging how the scenario ended.
    Conclude(Outcome),
    /// Stopping the nodes.
    Teardown(Outcome),
    /// Nothing is left to do.
    Finished(Outcome),
}

/// The state of the run of a scenario, as mathematics.
pub struct CaseRunState {
    pub phase: RunnerPhase,
    /// The steps that build the node set.
    pub plan: Seq<Action>,
    /// The number of steps of the plan that have been taken.
    pub cursor: int,
    /// The scenario's run, or why it cannot be run.
    pub scenario: Result<ScenarioState, Failure>,
}

impl CaseRunState {
    /// The state is one that a run can be in.
    pub open spec fn wf(self) -> bool {
        &&& 0 <= self.cursor <= self.plan.len()
        &&& self.phase == RunnerPhase::Setup ==> self.cursor < self.plan.len()
        &&& self.phase == RunnerPhase::Setup || self.phase == RunnerPhase::Running
            ==> self.scenario is Ok
    }

    /// This state in another phase.
    pub open spec fn at(self, phase: RunnerPhase) -> CaseRunState {
        CaseRunState { phase, ..self }
    }

    /// The transaction that the scenario wants submitted, once it can be built.
    pub open spec fn transaction(self) -> Option<TransactionModel> {
        match self.scenario {
            Ok(scenario) => scenario.transaction(),
            Err(_) => None,
        }
    }

    /// What the run asks its driver to do.
    pub open spec fn action(self) -> Action {
        match self.phase {
            RunnerPhase::Announce => Action::LogStart,
            RunnerPhase::Setup => self.plan[self.cursor],
            RunnerPhase::Running => match self.scenario {
                Ok(scenario) => scenario.action(),
                Err(failure) => Action::LogFailure(failure),
            },
            RunnerPhase::Conclude(Outcome::Passed) => Action::LogEnd,
            RunnerPhase::Conclude(Outcome::Failed(failure)) => Action::LogFailure(failure),
            RunnerPhase::Teardown(_) => Action::StopNodes,
            RunnerPhase::Finished(outcome) => Action::Finish(outcome),
        }
    }

    /// The state after the announcement: the first step of the plan, or the scenario
    /// itself where the plan is empty; the end where the scenario cannot be run.
    pub open spec fn begun(self) -> CaseRunState {
        match self.scenario {
            Err(failure) => self.at(RunnerPhase::Conclude(Outcome::Failed(failure))),
            Ok(_) => if self.plan.len() > 0 {
                CaseRunState { phase: RunnerPhase::Setup, cursor: 0, ..self }
            } else {
                self.at(RunnerPhase::Running)
            },
        }
    }

    /// The state after one more step of the plan has been taken.
    pub open spec fn advanced(self) -> CaseRunState {
        if self.cursor + 1 < self.plan.len() {
            CaseRunState { cursor: self.cursor + 1, ..self }
        } else {
            CaseRunState { phase: RunnerPhase::Running, cursor: self.plan.len() as int, ..self }
        }
    }

    /// The state after the driver has answered with `e`.
    ///
    /// The scenario is announced, its node set is built, it runs, its end is logged, its
    /// nodes are stopped. A fault, an answer of the wrong kind or nodes that do not reach a
    /// common tip while the node set is built end the run as failed; so does a scenario
    /// that cannot be run. However the run ends, its end is logged and the nodes are
    /// stopped before it is over.
    pub open spec fn step(self, e: EventModel) -> CaseRunState {
        match self.phase {
            RunnerPhase::Finished(_) => self,
            RunnerPhase::Teardown(outcome) => self.at(RunnerPhase::Finished(outcome)),
            RunnerPhase::Conclude(outcome) => self.at(RunnerPhase::Teardown(outcome)),
            RunnerPhase::Announce => match e {
                EventModel::Done => self.begun(),
                EventModel::Fault(kind) => self.at(
                    RunnerPhase::Conclude(Outcome::Failed(Failure::Fault(kind))),
                ),
                _ => self.at(RunnerPhase::Conclude(Outcome::Failed(Failure::UnexpectedEvent))),
            },
            RunnerPhase::Setup => {
                let waits = self.plan[self.cursor] == Action::WaitForSync;
                match e {
                    EventModel::Fault(kind) => self.at(
                        RunnerPhase::Conclude(Outcome::Failed(Failure::Fault(kind))),
                    ),
                    EventModel::Done => if waits {
                        self.at(RunnerPhase::Conclude(Outcome::Failed(Failure::UnexpectedEvent)))
                    } else {
                        self.advanced()
                    },
                    EventModel::SyncResult { synced } => if !waits {
                        self.at(RunnerPhase::Conclude(Outcome::Failed(Failure::UnexpectedEvent)))
                    } else if synced {
                        self.advanced()
                    } else {
                        self.at(RunnerPhase::Conclude(Outcome::Failed(Failure::SyncTimedOut)))
                    },
                    _ => self.at(
                        RunnerPhase::Conclude(Outcome::Failed(Failure::UnexpectedEvent)),
                    ),
                }
            },
            RunnerPhase::Running => match self.scenario {
                Err(failure) => self.at(RunnerPhase::Conclude(Outcome::Failed(failure))),
                Ok(scenario) => {
                    let next = scenario.step(e);
                    match next.outcome() {
                        Some(outcome) => CaseRunState {
                            phase: RunnerPhase::Conclude(outcome),
                            scenario: Ok(next),
                            ..self
                        },
                        None => CaseRunState { scenario: Ok(next), ..self },
                    }
                },
            },
        }
    }
}

/// The state in which the run of `case` under `config` starts: the plan builds the node
/// set that the scenario asks for, and the scenario's run addresses its nodes by their
/// positions in that set. Where a binary is missing there is no plan and no run.
pub open spec fn planned(case: Case, config: ConfigModel) -> CaseRunState {
    match case.options_under(config) {
        Err(failure) => CaseRunState {
            phase: RunnerPhase::Announce,
            plan: Seq::empty(),
            cursor: 0,
            scenario: Err(failure),
        },
        Ok(options) => CaseRunState {
            phase: RunnerPhase::Announce,
            plan: setup_steps(options),
            cursor: 0,
            scenario: Ok(case.first_state(config)),
        },
    }
}

/// The state after the events of `events` have been consumed in order, from `s` on.
pub open spec fn run_from(s: CaseRunState, events: Seq<EventModel>) -> CaseRunState
    decreases events.len(),
{
    if events.len() == 0 {
        s
    } else {
        run_from(s, events.drop_last()).step(events.last())
    }
}

/// The run of one scenario, from its announcement to the release of its nodes.
#[derive(Debug)]
pub struct CaseRun {
    phase: RunnerPhase,
    plan: Vec<Action>,
    cursor: usize,
    scenario: Result<ScenarioRun, Failure>,
}

impl View for CaseRun {
    type V = CaseRunState;

    closed spec fn view(&self) -> CaseRunState {
        CaseRunState {
            phase: self.phase,
            plan: self.plan@,
            cursor: self.cursor as int,
            scenario: match self.scenario {
                Ok(run) => Ok(run@),
                Err(failure) => Err(failure),
            },
        }
    }
}

impl CaseRun {
    #[verifier::type_invariant]
    spec fn well_formed(self) -> bool {
        self@.wf()
    }

    /// A run that cannot take place: it is announced, its failure is logged, and it ends.
    fn refused(failure: Failure) -> (run: CaseRun)
        ensures
            run@ == (CaseRunState {
                phase: RunnerPhase::Announce,
                plan: Seq::empty(),
                cursor: 0,
                scenario: Err(failure),
            }),
    {
        CaseRun { phase: RunnerPhase::Announce, plan: Vec::new(), cursor: 0, scenario: Err(failure) }
    }

    /// Where the run stands.
    pub fn phase(&self) -> (phase: RunnerPhase)
        ensures
            phase == self@.phase,
            self@.wf(),
    {
        proof {
            use_type_invariant(self);
        }
        self.phase
    }

    /// How the run ended, once its nodes have been stopped.
    pub fn outcome(&self) -> (outcome: Option<Outcome>)
        ensures
            outcome == match self@.phase {
                RunnerPhase::Finished(outcome) => Some(outcome),
                _ => None,
            },
    {
        match self.phase {
            RunnerPhase::Finished(outcome) => Some(outcome),
            _ => None,
        }
    }

    /// What the driver is to do next.
    pub fn action(&self) -> (action: Action)
        ensures
            action == self@.action(),
    {
        proof {
            use_type_invariant(self);
        }
        match self.phase {
            RunnerPhase::Announce => Action::LogStart,
            RunnerPhase::Setup => self.plan[self.cursor],
            RunnerPhase::Running => match &self.scenario {
                Ok(scenario) => scenario.action(),
                Err(failure) => Action::LogFailure(*failure),
            },
            RunnerPhase::Conclude(Outcome::Passed) => Action::LogEnd,
            RunnerPhase::Conclude(Outcome::Failed(failure)) => Action::LogFailure(failure),
            RunnerPhase::Teardown(_) => Action::StopNodes,
            RunnerPhase::Finished(outcome) => Action::Finish(outcome),
        }
    }

    /// The serialized transaction that the scenario wants submitted, once it can be built.
    pub fn transaction(&self) -> (bytes: Option<Vec<u8>>)
        ensures
            serializes(bytes, self@.transaction()),
    {
        match &self.scenario {
            Ok(scenario) => scenario.transaction(),
            Err(_) => None,
        }
    }

    /// Consumes the driver's answer to the last action.
    pub fn on_event(self, event: Event) -> (next: CaseRun)
        ensures
            next@ == self@.step(event@),
    {
        proof {
            use_type_invariant(&self);
        }
        let CaseRun { phase, plan, cursor, scenario } = self;
        let failed_unexpected = RunnerPhase::Conclude(Outcome::Failed(Failure::UnexpectedEvent));
        match phase {
            RunnerPhase::Finished(_) => CaseRun { phase, plan, cursor, scenario },
            RunnerPhase::Teardown(outcome) => CaseRun {
                phase: RunnerPhase::Finished(outcome),
                plan,
                cursor,
                scenario,
            },
            RunnerPhase::Conclude(outcome) => CaseRun {
                phase: RunnerPhase::Teardown(outcome),
                plan,
                cursor,
                scenario,
            },
            RunnerPhase::Announce => match event {
                Event::Done => match scenario {
                    Err(failure) => CaseRun {
                        phase: RunnerPhase::Conclude(Outcome::Failed(failure)),
                        plan,
                        cursor,
                        scenario: Err(failure),
                    },
                    Ok(run) => if plan.len() > 0 {
                        CaseRun { phase: RunnerPhase::Setup, plan, cursor: 0, scenario: Ok(run) }
                    } else {
                        CaseRun { phase: RunnerPhase::Running, plan, cursor, scenario: Ok(run) }
                    },
                },
                Event::Fault(kind) => CaseRun {
                    phase: RunnerPhase::Conclude(Outcome::Failed(Failure::Fault(kind))),
                    plan,
                    cursor,
                    scenario,
                },
                _ => CaseRun { phase: failed_unexpected, plan, cursor, scenario },
            },
            RunnerPhase::Setup => {
                let waits = match plan[cursor] {
                    Action::WaitForSync => true,
                    _ => false,
                };
                let advance = match event {
                    Event::Fault(kind) => Err(Failure::Fault(kind)),
                    Event::Done => if waits {
                        Err(Failure::UnexpectedEvent)
                    } else {
                        Ok(())
                    },
                    Event::SyncResult { synced } => if !waits {
                        Err(Failure::UnexpectedEvent)
                    } else if synced {
                        Ok(())
                    } else {
                        Err(Failure::SyncTimedOut)
                    },
                    _ => Err(Failure::UnexpectedEvent),
                };
                match advance {
                    Err(failure) => CaseRun {
                        phase: RunnerPhase::Conclude(Outcome::Failed(failure)),
                        plan,
                        cursor,
                        scenario,
                    },
                    Ok(()) => {
                        let steps = plan.len();
                        if cursor + 1 < steps {
                            CaseRun { phase, plan, cursor: cursor + 1, scenario }
                        } else {
                            CaseRun { phase: RunnerPhase::Running, plan, cursor: steps, scenario }
                        }
                    },
                }
            },
            RunnerPhase::Running => match scenario {
                Err(failure) => CaseRun {
                    phase: RunnerPhase::Conclude(Outcome::Failed(failure)),
                    plan,
                    cursor,
                    scenario: Err(failure),
                },
                Ok(run) => {
                    let next = run.on_event(event);
                    match next.outcome() {
                        Some(outcome) => CaseRun {
                            phase: RunnerPhase::Conclude(outcome),
                            plan,
                            cursor,
                            scenario: Ok(next),
                        },
                        None => CaseRun { phase, plan, cursor, scenario: Ok(next) },
                    }
                },
            },
        }
    }
}

/// Prepares the run of `case` under `config`: the plan that builds its node set and the
/// scenario's own run.
pub fn run_case(case: Case, config: &Config) -> (run: CaseRun)
    ensures
        run@ == planned(case, config@),
{
    let options = match case.case_options(config) {
        Ok(options) => options,
        Err(failure) => {
            return CaseRun::refused(failure);
        },
    };
    proof {
        reveal_strlit("node2019");
        reveal_strlit("node2021");
        let names = options@.names();
        if names.len() == 2 {
            assert("node2019"@[6] != "node2021"@[6]);
            assert(names[0] != names[1]);
        }
        assert(options@.names_unique()) by {
            assert forall|i: int, j: int| 0 <= i < j < options@.node_options.len() implies options@.node_options[i].node_name
                != options@.node_options[j].node_name by {
                assert(names[i] == options@.node_options[i].node_name);
                assert(names[j] == options@.node_options[j].node_name);
            }
        }
    }
    let nodes = match Nodes::new(&options) {
        Ok(nodes) => nodes,
        Err(failure) => {
            return CaseRun::refused(failure);
        },
    };
    let plan = setup_plan(&options);
    let scenario = match case {
        Case::AfterSwitch(case) => {
            proof {
                assert(nodes@[0] == crate::case::rfc0221::after_switch::NODE_NAME@);
            }
            match case.run(&nodes) {
                Ok(run) => ScenarioRun::AfterSwitch(run),
                Err(failure) => {
                    return CaseRun::refused(failure);
                },
            }
        },
        Case::Networking(case) => {
            proof {
                assert(nodes@[0] == crate::case::rfc0221::networking::NEW_NODE_NAME@);
                assert(nodes@[1] == crate::case::rfc0221::networking::OLD_NODE_NAME@);
            }
            match case.run(&nodes, config) {
                Ok(run) => ScenarioRun::Networking(run),
                Err(failure) => {
                    return CaseRun::refused(failure);
                },
            }
        },
    };
    CaseRun { phase: RunnerPhase::Announce, plan, cursor: 0, scenario: Ok(scenario) }
}

impl CaseRunState {
    /// The state is one that a run reaches from its start: the scenario runs only once
    /// every step of the plan has been taken.
    pub open spec fn orderly(self) -> bool {
        &&& self.wf()
        &&& self.phase == RunnerPhase::Announce ==> self.cursor == 0
        &&& self.phase == RunnerPhase::Running ==> self.cursor == self.plan.len()
    }
}

/// A run starts in an orderly state, and every answer of the driver leads from an orderly
/// state to an orderly state, with the same plan.
pub proof fn lemma_run_is_orderly(case: Case, config: ConfigModel, events: Seq<EventModel>)
    ensures
        run_from(planned(case, config), events).orderly(),
        run_from(planned(case, config), events).plan == planned(case, config).plan,
    decreases events.len(),
{
    if events.len() > 0 {
        lemma_run_is_orderly(case, config, events.drop_last());
    }
}

/// The scenario is asked for its actions only after the node set has been built: the run
/// enters the scenario from the last step of the plan, or from the announcement where the
/// plan is empty, and only on an answer that is no fault.
pub proof fn lemma_scenario_waits_for_nodes(s: CaseRunState, e: EventModel)
    requires
        s.wf(),
        s.phase != RunnerPhase::Running,
        s.step(e).phase == RunnerPhase::Running,
    ensures
        s.step(e).cursor == s.plan.len(),
        s.phase == RunnerPhase::Setup && s.cursor == s.plan.len() - 1 || s.phase
            == RunnerPhase::Announce && s.plan.len() == 0,
        !(e is Fault),
{
}

/// The outcome that a run reports is the scenario's own: a run passes only if its
/// scenario has passed, and a scenario that has ended ends the run with its outcome.
pub proof fn lemma_outcome_is_the_scenarios(s: CaseRunState, e: EventModel)
    ensures
        s.phase == RunnerPhase::Running ==> (s.step(e).phase matches RunnerPhase::Conclude(outcome)
            ==> (s.scenario matches Ok(scenario) ==> scenario.step(e).outcome() == Some(
            outcome,
        ))),
        s.step(e).phase == RunnerPhase::Conclude(Outcome::Passed) && s.phase
            != RunnerPhase::Conclude(Outcome::Passed) ==> s.phase == RunnerPhase::Running && (
        s.scenario matches Ok(scenario) && scenario.step(e).outcome() == Some(Outcome::Passed)),
{
}

/// A run is over only after its nodes have been asked to stop: whether the scenario
/// passed or failed, and wherever it failed, the state before the last is the one that
/// stops the nodes, with the outcome that the run ends with.
pub proof fn lemma_nodes_are_stopped(s: CaseRunState, events: Seq<EventModel>)
    requires
        !(s.phase is Finished),
    ensures
        run_from(s, events).phase matches RunnerPhase::Finished(outcome) ==> exists|i: int|
            0 <= i < events.len() && (#[trigger] run_from(s, events.take(i))).phase
                == RunnerPhase::Teardown(outcome) && run_from(s, events.take(i)).action()
                == Action::StopNodes,
    decreases events.len(),
{
    if events.len() > 0 {
        let front = events.drop_last();
        lemma_nodes_are_stopped(s, front);
        let before = run_from(s, front);
        if let RunnerPhase::Finished(outcome) = run_from(s, events).phase {
            if before.phase is Finished {
                let i = choose|i: int|
                    0 <= i < front.len() && (#[trigger] run_from(s, front.take(i))).phase
                        == RunnerPhase::Teardown(outcome) && run_from(s, front.take(i)).action()
                        == Action::StopNodes;
                assert(front.take(i) =~= events.take(i));
            } else {
                assert(events.take(events.len() - 1) =~= front);
            }
        }
    }
}

/// Once a run has begun to end, it ends with that outcome after two more answers,
/// whatever they are: its end is logged, its nodes are stopped, and nothing changes after.
pub proof fn lemma_run_ends(s: CaseRunState, a: EventModel, b: EventModel, c: EventModel)
    ensures
        s.phase matches RunnerPhase::Conclude(outcome) ==> s.step(a).step(b).phase
            == RunnerPhase::Finished(outcome) && s.step(a).action() == Action::StopNodes,
        s.phase is Finished ==> s.step(c) == s,
{
}

/// The node that drives a scenario is the first of the scenario's node options: the first
/// action of every scenario's run addresses position 0, and in the scenario of two nodes
/// that position holds the post-fork node and the next the pre-fork node.
pub proof fn lemma_driver_comes_first(case: Case, config: ConfigModel)
    requires
        case.options_under(config) is Ok,
    ensures
        case.first_state(config).action() == (Action::GetCurrentEpoch { node: 0 }),
        case.options_under(config)->Ok_0.node_options.len() >= 1,
        case matches Case::Networking(_) ==> {
            let options = case.options_under(config)->Ok_0;
            &&& options.node_options.len() == 2
            &&& options.node_options[0].node_name
                == crate::case::rfc0221::networking::NEW_NODE_NAME@
            &&& options.node_options[1].node_name
                == crate::case::rfc0221::networking::OLD_NODE_NAME@
            &&& case.first_state(config) matches ScenarioState::Networking(s) && s.new_node == 0
                && s.old_node == 1
        },
{
}

} // verus!
