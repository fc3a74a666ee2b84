//! What a scenario asks of the node set it runs against.

use crate::node::{NodeOptions, NodeOptionsModel};
use vstd::prelude::*;

verus! {

/// The nodes that a scenario needs and how they are to be joined before it runs. The
/// first node is the one that drives a scenario of several nodes.
#[derive(Clone, Debug, PartialEq, Eq)]
pub struct CaseOptions {
    pub make_all_nodes_connected: bool,
    pub make_all_nodes_synced: bool,
    pub make_all_nodes_connected_and_synced: bool,
    pub node_options: Vec<NodeOptions>,
}

/// Case options, as mathematics.
pub struct CaseOptionsModel {
    pub make_all_nodes_connected: bool,
    pub make_all_nodes_synced: bool,
    pub make_all_nodes_connected_and_synced: bool,
    pub node_options: Seq<NodeOptionsModel>,
}

/// The models of a list of node options, in order.
pub open spec fn node_options_models(options: Seq<NodeOptions>) -> Seq<NodeOptionsModel> {
    options.map_values(|o: NodeOptions| o@)
}

impl View for CaseOptions {
    type V = CaseOptionsModel;

    open spec fn view(&self) -> CaseOptionsModel {
        CaseOptionsModel {
            make_all_nodes_connected: self.make_all_nodes_connected,
            make_all_nodes_synced: self.make_all_nodes_synced,
            make_all_nodes_connected_and_synced: self.make_all_nodes_connected_and_synced,
            node_options: node_options_models(self.node_options@),
        }
    }
}

impl CaseOptionsModel {
    /// The names of the nodes, in order.
    pub open spec fn names(self) -> Seq<Seq<char>> {
        self.node_options.map_values(|o: NodeOptionsModel| o.node_name)
    }

    /// No two nodes share a name.
    pub open spec fn names_unique(self) -> bool {
        forall|i: int, j: int|
            0 <= i < j < self.node_options.len() ==> self.node_options[i].node_name
                != self.node_options[j].node_name
    }
}

} // verus!
