//! The set of nodes that a scenario runs against.

use crate::case::case_options::{CaseOptions, CaseOptionsModel};
use crate::node::{BoundedWait, WaitStep};
use crate::script::{Action, Failure, texts};
use vstd::prelude::*;

verus! {

/// The nodes of a scenario, by name, in the order of the scenario's node options.
#[derive(Debug)]
pub struct Nodes {
    names: Vec<String>,
}

impl View for Nodes {
    type V = Seq<Seq<char>>;

    /// The names of the nodes, in order.
    closed spec fn view(&self) -> Seq<Seq<char>> {
        texts(self.names@)
    }
}

/// No text occurs twice in `names`.
pub open spec fn all_distinct(names: Seq<Seq<char>>) -> bool {
    forall|i: int, j: int| 0 <= i < j < names.len() ==> names[i] != names[j]
}

impl Nodes {
    #[verifier::type_invariant]
    spec fn names_are_unique(self) -> bool {
        all_distinct(texts(self.names@))
    }

    /// The node set of a scenario: one node for each of its node options, under that
    /// option's name. Fails where two options share a name.
    pub fn new(options: &CaseOptions) -> (nodes: Result<Nodes, Failure>)
        ensures
            match nodes {
                Ok(nodes) => options@.names_unique() && nodes@ == options@.names(),
                Err(failure) => !options@.names_unique() && failure == Failure::DuplicateNodeName,
            },
    {
        let mut names: Vec<String> = Vec::new();
        let mut i: usize = 0;
        while i < options.node_options.len()
            invariant
                i <= options.node_options.len(),
                names@.len() == i,
                forall|k: int| 0 <= k < i ==> names@[k]@ == options.node_options@[k].node_name@,
                all_distinct(texts(names@)),
            decreases options.node_options.len() - i,
        {
            let name = options.node_options[i].node_name.clone();
            let mut j: usize = 0;
            while j < i
                invariant
                    j <= i,
                    i < options.node_options.len(),
                    names@.len() == i,
                    name@ == options.node_options@[i as int].node_name@,
                    forall|k: int| 0 <= k < i ==> names@[k]@ == options.node_options@[k].node_name@,
                    forall|k: int| 0 <= k < j ==> names@[k]@ != name@,
                decreases i - j,
            {
                if names[j] == name {
                    assert(options@.node_options[j as int].node_name
                        == options@.node_options[i as int].node_name);
                    return Err(Failure::DuplicateNodeName);
                }
                j += 1;
            }
            proof {
                let grown = names@.push(name);
                assert forall|a: int, b: int| 0 <= a < b < grown.len() implies texts(grown)[a]
                    != texts(grown)[b] by {
                    if b < i {
                        assert(texts(names@)[a] != texts(names@)[b]);
                    }
                }
            }
            names.push(name);
            i += 1;
        }
        assert(texts(names@) =~= options@.names());
        assert(options@.names_unique()) by {
            assert forall|a: int, b: int| 0 <= a < b < options@.node_options.len() implies options@.node_options[a].node_name
                != options@.node_options[b].node_name by {
                assert(texts(names@)[a] != texts(names@)[b]);
            }
        }
        Ok(Nodes { names })
    }

    /// The number of nodes.
    pub fn len(&self) -> (len: usize)
        ensures
            len == self@.len(),
    {
        self.names.len()
    }

    /// The position of the node called `name`. Fails where no node has that name.
    pub fn get_node(&self, name: &str) -> (node: Result<usize, Failure>)
        ensures
            match node {
                Ok(index) => index < self@.len() && self@[index as int] == name@,
                Err(failure) => !self@.contains(name@) && failure == Failure::UnknownNode,
            },
            all_distinct(self@),
    {
        proof {
            use_type_invariant(self);
        }
        let wanted = String::from_str(name);
        let mut i: usize = 0;
        while i < self.names.len()
            invariant
                i <= self.names.len(),
                wanted@ == name@,
                all_distinct(self@),
                forall|k: int| 0 <= k < i ==> self.names@[k]@ != name@,
            decreases self.names.len() - i,
        {
            if self.names[i] == wanted {
                return Ok(i);
            }
            i += 1;
        }
        assert(!self@.contains(name@)) by {
            if self@.contains(name@) {
                let k = choose|k: int| 0 <= k < self@.len() && self@[k] == name@;
                assert(self.names@[k]@ == name@);
            }
        }
        Err(Failure::UnknownNode)
    }
}

/// The steps that stage and start the first `n` nodes, one node after the other.
pub open spec fn start_steps(n: int) -> Seq<Action> {
    Seq::new(
        (2 * n) as nat,
        |k: int|
            if k % 2 == 0 {
                Action::InitNode { node: (k / 2) as usize }
            } else {
                Action::StartNode { node: (k / 2) as usize }
            },
    )
}

/// The step that connects the node at position `from` to the node at position `to`.
pub open spec fn connection(from: int, to: int) -> Action {
    Action::Connect { from: from as usize, to: to as usize }
}

/// The steps that connect the node `from` to each later one of `n` nodes, in order.
pub open spec fn connect_row(from: int, n: int) -> Seq<Action> {
    Seq::new((n - from - 1) as nat, |k: int| connection(from, from + 1 + k))
}

/// The steps that connect each of the first `bound` of `n` nodes to each later node.
pub open spec fn connect_steps_below(bound: int, n: int) -> Seq<Action>
    decreases bound,
{
    if bound <= 0 {
        Seq::empty()
    } else {
        connect_steps_below(bound - 1, n) + connect_row(bound - 1, n)
    }
}

/// The steps that connect all pairs of `n` nodes: each node to each later one, by the
/// earlier node first and the later node second.
pub open spec fn connect_steps(n: int) -> Seq<Action> {
    connect_steps_below(n, n)
}

/// The steps that build the node set of a scenario: every node is staged and started;
/// then, as far as the options ask for it, all pairs are connected, the nodes wait for a
/// common tip, and both once more together.
pub open spec fn setup_steps(options: CaseOptionsModel) -> Seq<Action> {
    let n = options.node_options.len() as int;
    start_steps(n) + (if options.make_all_nodes_connected {
        connect_steps(n)
    } else {
        Seq::empty()
    }) + (if options.make_all_nodes_synced {
        seq![Action::WaitForSync]
    } else {
        Seq::empty()
    }) + (if options.make_all_nodes_connected_and_synced {
        connect_steps(n) + seq![Action::WaitForSync]
    } else {
        Seq::empty()
    })
}

/// Appends to `plan` the steps that connect all pairs of `n` nodes.
fn push_connect_steps(plan: &mut Vec<Action>, n: usize)
    ensures
        final(plan)@ == old(plan)@ + connect_steps(n as int),
{
    let ghost before = plan@;
    let mut from: usize = 0;
    while from < n
        invariant
            from <= n,
            plan@ == before + connect_steps_below(from as int, n as int),
        decreases n - from,
    {
        let ghost rows = plan@;
        let mut to: usize = from + 1;
        while to < n
            invariant
                from < n,
                from < to <= n,
                plan@ == rows + connect_row(from as int, n as int).take(to - from - 1),
            decreases n - to,
        {
            plan.push(Action::Connect { from, to });
            to += 1;
            assert(plan@ =~= rows + connect_row(from as int, n as int).take(to - from - 1));
        }
        assert(connect_row(from as int, n as int).take(n - from - 1) =~= connect_row(
            from as int,
            n as int,
        ));
        from += 1;
        assert(plan@ =~= before + connect_steps_below(from as int, n as int));
    }
}

/// The steps that build the node set of a scenario, in the order in which the driver is
/// to take them.
pub fn setup_plan(options: &CaseOptions) -> (plan: Vec<Action>)
    ensures
        plan@ == setup_steps(options@),
{
    let n: usize = options.node_options.len();
    let mut plan: Vec<Action> = Vec::new();
    let mut node: usize = 0;
    while node < n
        invariant
            node <= n,
            plan@ == start_steps(node as int),
        decreases n - node,
    {
        plan.push(Action::InitNode { node });
        plan.push(Action::StartNode { node });
        node += 1;
        assert(plan@ =~= start_steps(node as int));
    }
    if options.make_all_nodes_connected {
        push_connect_steps(&mut plan, n);
    }
    if options.make_all_nodes_synced {
        plan.push(Action::WaitForSync);
    }
    if options.make_all_nodes_connected_and_synced {
        push_connect_steps(&mut plan, n);
        plan.push(Action::WaitForSync);
    }
    assert(plan@ =~= setup_steps(options@));
    plan
}

/// Connecting all pairs reaches every pair once: the steps are as many as there are pairs,
/// each of them connects an earlier node to a later one, and every such pair is among them.
pub proof fn lemma_connect_steps_cover_all_pairs(n: int)
    requires
        0 <= n <= usize::MAX,
    ensures
        2 * connect_steps(n).len() == n * (n - 1),
        forall|k: int|
            0 <= k < connect_steps(n).len() ==> (#[trigger] connect_steps(n)[k] matches Action::Connect {
                from,
                to,
            } && from < to < n),
        forall|a: int, b: int|
            0 <= a < b < n ==> connect_steps(n).contains(#[trigger] connection(a, b)),
{
    lemma_connect_steps_below(n, n);
    assert(2 * n * n - n * n - n == n * (n - 1)) by (nonlinear_arith);
}

/// What the steps that connect the first `bound` nodes hold.
proof fn lemma_connect_steps_below(bound: int, n: int)
    requires
        0 <= bound <= n <= usize::MAX,
    ensures
        2 * connect_steps_below(bound, n).len() == 2 * bound * n - bound * bound - bound,
        forall|k: int|
            0 <= k < connect_steps_below(bound, n).len() ==> (#[trigger] connect_steps_below(
                bound,
                n,
            )[k] matches Action::Connect { from, to } && from < bound && from < to < n),
        forall|a: int, b: int|
            0 <= a < bound && a < b < n ==> connect_steps_below(bound, n).contains(
                #[trigger] connection(a, b),
            ),
    decreases bound,
{
    if bound > 0 {
        lemma_connect_steps_below(bound - 1, n);
        let earlier = connect_steps_below(bound - 1, n);
        let row = connect_row(bound - 1, n);
        let all = connect_steps_below(bound, n);
        assert(all == earlier + row);
        assert(2 * (bound - 1) * n - (bound - 1) * (bound - 1) - (bound - 1) + 2 * (n - bound) == 2
            * bound * n - bound * bound - bound) by (nonlinear_arith);
        assert forall|a: int, b: int| 0 <= a < bound && a < b < n implies all.contains(
            #[trigger] connection(a, b),
        ) by {
            let wanted = connection(a, b);
            if a < bound - 1 {
                assert(earlier.contains(wanted));
                let k = choose|k: int| 0 <= k < earlier.len() && earlier[k] == wanted;
                assert(all[k] == wanted);
            } else {
                assert(row[b - a - 1] == wanted);
                assert(all[earlier.len() + (b - a - 1)] == wanted);
            }
        }
    }
}

/// The tip of a node's chain.
#[derive(Clone, Copy, Debug, PartialEq, Eq)]
pub struct Tip {
    pub number: u64,
    pub hash: [u8; 32],
}

/// A tip, as mathematics.
pub struct TipModel {
    pub number: u64,
    pub hash: Seq<u8>,
}

impl View for Tip {
    type V = TipModel;

    open spec fn view(&self) -> TipModel {
        TipModel { number: self.number, hash: self.hash@ }
    }
}

/// The models of a list of tips, in order.
pub open spec fn tip_models(tips: Seq<Tip>) -> Seq<TipModel> {
    tips.map_values(|tip: Tip| tip@)
}

/// Whether the node at position `i` leads: no tip is higher than its tip, and every
/// earlier tip is lower.
pub open spec fn leads(tips: Seq<TipModel>, i: int) -> bool {
    &&& 0 <= i < tips.len()
    &&& forall|j: int| 0 <= j < tips.len() ==> tips[j].number <= tips[i].number
    &&& forall|j: int| 0 <= j < i ==> tips[j].number < tips[i].number
}

/// Whether all nodes report the same tip.
pub open spec fn in_sync(tips: Seq<TipModel>) -> bool {
    forall|i: int, j: int| 0 <= i < tips.len() && 0 <= j < tips.len() ==> tips[i].hash == tips[j].hash
}

/// Decides whether two hashes are the same.
fn same_hash(a: &[u8; 32], b: &[u8; 32]) -> (same: bool)
    ensures
        same == (a@ == b@),
{
    let mut k: usize = 0;
    while k < 32
        invariant
            k <= 32,
            forall|m: int| 0 <= m < k ==> a@[m] == b@[m],
        decreases 32 - k,
    {
        if a[k] != b[k] {
            return false;
        }
        k += 1;
    }
    assert(a@ =~= b@);
    true
}

/// The position of the leader: the first of the nodes with the highest tip. `None` where
/// there is no node.
pub fn leader(tips: &Vec<Tip>) -> (leader: Option<usize>)
    ensures
        match leader {
            Some(i) => leads(tip_models(tips@), i as int),
            None => tips@.len() == 0,
        },
{
    if tips.len() == 0 {
        return None;
    }
    let mut best: usize = 0;
    let mut i: usize = 1;
    while i < tips.len()
        invariant
            1 <= i <= tips.len(),
            best < i,
            forall|j: int| 0 <= j < i ==> tips@[j].number <= tips@[best as int].number,
            forall|j: int| 0 <= j < best ==> tips@[j].number < tips@[best as int].number,
        decreases tips.len() - i,
    {
        if tips[i].number > tips[best].number {
            best = i;
        }
        i += 1;
    }
    Some(best)
}

/// Decides whether all nodes report the same tip, by holding each tip against the leader's.
pub fn all_synced(tips: &Vec<Tip>) -> (synced: bool)
    ensures
        synced == in_sync(tip_models(tips@)),
{
    let lead = match leader(tips) {
        Some(lead) => lead,
        None => {
            return true;
        },
    };
    let mut i: usize = 0;
    while i < tips.len()
        invariant
            i <= tips.len(),
            lead < tips.len(),
            forall|j: int| 0 <= j < i ==> tips@[j].hash@ == tips@[lead as int].hash@,
        decreases tips.len() - i,
    {
        if !same_hash(&tips[i].hash, &tips[lead].hash) {
            assert(tip_models(tips@)[i as int].hash != tip_models(tips@)[lead as int].hash);
            return false;
        }
        i += 1;
    }
    assert(in_sync(tip_models(tips@))) by {
        assert forall|a: int, b: int| 0 <= a < tips@.len() && 0 <= b < tips@.len() implies tip_models(
            tips@,
        )[a].hash == tip_models(tips@)[b].hash by {
            assert(tips@[a].hash@ == tips@[lead as int].hash@);
            assert(tips@[b].hash@ == tips@[lead as int].hash@);
        }
    }
    true
}

impl Nodes {
    /// One look of the wait for a common tip: the wait is over once there is one tip for
    /// each node and all tips are the same; it asks for another look while retries are
    /// left, and is exhausted after that. That the wait ran out is an answer, not a
    /// failure: a scenario may expect it.
    pub fn waiting_for_sync(&self, wait: BoundedWait, tips: &Vec<Tip>) -> (next: (
        WaitStep,
        BoundedWait,
    ))
        ensures
            next == wait.spec_observe(
                tips@.len() == self@.len() && in_sync(tip_models(tips@)),
            ),
    {
        let synced = tips.len() == self.len() && all_synced(tips);
        wait.observe(synced)
    }
}

/// Building a node set begins with its nodes: each node is staged and then started, one
/// node after the other, before any node is connected or waited for.
pub proof fn lemma_setup_starts_every_node(options: CaseOptionsModel, node: int)
    requires
        0 <= node < options.node_options.len(),
    ensures
        2 * options.node_options.len() <= setup_steps(options).len(),
        setup_steps(options)[2 * node] == (Action::InitNode { node: node as usize }),
        setup_steps(options)[2 * node + 1] == (Action::StartNode { node: node as usize }),
        forall|k: int|
            2 * options.node_options.len() <= k < setup_steps(options).len() ==> !(
            #[trigger] setup_steps(options)[k] is InitNode) && !(setup_steps(options)[k]
                is StartNode),
{
    let n = options.node_options.len() as int;
    let steps = setup_steps(options);
    assert(start_steps(n).len() == 2 * n);
    assert(steps[2 * node] == start_steps(n)[2 * node]);
    assert(steps[2 * node + 1] == start_steps(n)[2 * node + 1]);
    assert forall|k: int| 2 * n <= k < steps.len() implies !(#[trigger] steps[k] is InitNode) && !(
    steps[k] is StartNode) by {
        lemma_connect_steps_are_connections(n);
        let first: Seq<Action> = if options.make_all_nodes_connected {
            connect_steps(n)
        } else {
            Seq::empty()
        };
        let second: Seq<Action> = if options.make_all_nodes_synced {
            seq![Action::WaitForSync]
        } else {
            Seq::empty()
        };
        let third: Seq<Action> = if options.make_all_nodes_connected_and_synced {
            connect_steps(n) + seq![Action::WaitForSync]
        } else {
            Seq::empty()
        };
        assert(steps == start_steps(n) + first + second + third);
        let rest = k - 2 * n;
        if rest < first.len() {
            assert(steps[k] == first[rest]);
        } else if rest < first.len() + second.len() {
            assert(steps[k] == second[rest - first.len()]);
        } else {
            let at = rest - first.len() - second.len();
            assert(steps[k] == third[at]);
            if at < connect_steps(n).len() {
                assert(third[at] == connect_steps(n)[at]);
            }
        }
    }
}

/// Every step that connects is a connection.
proof fn lemma_connect_steps_are_connections(n: int)
    requires
        0 <= n,
    ensures
        forall|k: int| 0 <= k < connect_steps(n).len() ==> #[trigger] connect_steps(n)[k] is Connect,
{
    lemma_rows_are_connections(n, n);
}

/// Every step that connects one of the first `bound` nodes is a connection.
proof fn lemma_rows_are_connections(bound: int, n: int)
    requires
        0 <= bound <= n,
    ensures
        forall|k: int|
            0 <= k < connect_steps_below(bound, n).len() ==> #[trigger] connect_steps_below(
                bound,
                n,
            )[k] is Connect,
    decreases bound,
{
    if bound > 0 {
        lemma_rows_are_connections(bound - 1, n);
    }
}

/// Decides whether `id` is among `peers`.
fn lists(peers: &Vec<String>, id: &str) -> (listed: bool)
    ensures
        listed == texts(peers@).contains(id@),
{
    let wanted = String::from_str(id);
    let mut i: usize = 0;
    while i < peers.len()
        invariant
            i <= peers.len(),
            wanted@ == id@,
            forall|k: int| 0 <= k < i ==> texts(peers@)[k] != id@,
        decreases peers.len() - i,
    {
        if peers[i] == wanted {
            assert(texts(peers@)[i as int] == id@);
            return true;
        }
        i += 1;
    }
    false
}

/// Whether two nodes are connected: each lists the other among its peers.
pub open spec fn connected(
    peers_of_from: Seq<Seq<char>>,
    from_id: Seq<char>,
    peers_of_to: Seq<Seq<char>>,
    to_id: Seq<char>,
) -> bool {
    peers_of_from.contains(to_id) && peers_of_to.contains(from_id)
}

/// Decides whether the node `from_id`, whose peers are `peers_of_from`, and the node
/// `to_id`, whose peers are `peers_of_to`, are connected.
pub fn are_connected(
    peers_of_from: &Vec<String>,
    from_id: &str,
    peers_of_to: &Vec<String>,
    to_id: &str,
) -> (both: bool)
    ensures
        both == connected(texts(peers_of_from@), from_id@, texts(peers_of_to@), to_id@),
{
    lists(peers_of_from, to_id) && lists(peers_of_to, from_id)
}

} // verus!
