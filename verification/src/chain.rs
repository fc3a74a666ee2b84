//! Plain models of the chain data that a scenario reads: cells, scripts and out points.

use vstd::prelude::*;

verus! {

/// A reference to one output of a transaction, as mathematics.
pub struct OutPointModel {
    pub tx_hash: Seq<u8>,
    pub index: u32,
}

/// A script, as mathematics.
pub struct ScriptModel {
    pub code_hash: Seq<u8>,
    pub hash_type: u8,
    pub args: Seq<u8>,
}

/// A cell dependency, as mathematics.
pub struct CellDepModel {
    pub out_point: OutPointModel,
    pub dep_type: u8,
}

/// A live cell, as mathematics.
pub struct LiveCellModel {
    pub out_point: OutPointModel,
    pub capacity: u64,
    pub lock: ScriptModel,
    pub type_: Option<ScriptModel>,
    pub block_number: Option<u64>,
}

/// A reference to one output of a transaction.
#[derive(Clone, Copy, Debug, PartialEq, Eq)]
pub struct OutPoint {
    pub tx_hash: [u8; 32],
    pub index: u32,
}

/// A script: the hash of its code, how that hash is to be read, and its arguments.
#[derive(Clone, Debug, PartialEq, Eq)]
pub struct Script {
    pub code_hash: [u8; 32],
    pub hash_type: u8,
    pub args: Vec<u8>,
}

/// A cell that a transaction depends on without consuming it.
#[derive(Clone, Copy, Debug, PartialEq, Eq)]
pub struct CellDep {
    pub out_point: OutPoint,
    pub dep_type: u8,
}

/// An unspent cell of the node's inventory. `block_number` is the number of the block that
/// confirmed it, where the node knows it.
#[derive(Clone, Debug, PartialEq, Eq)]
pub struct LiveCell {
    pub out_point: OutPoint,
    pub capacity: u64,
    pub lock: Script,
    pub type_: Option<Script>,
    pub block_number: Option<u64>,
}

impl View for OutPoint {
    type V = OutPointModel;

    open spec fn view(&self) -> OutPointModel {
        OutPointModel { tx_hash: self.tx_hash@, index: self.index }
    }
}

impl View for Script {
    type V = ScriptModel;

    open spec fn view(&self) -> ScriptModel {
        ScriptModel { code_hash: self.code_hash@, hash_type: self.hash_type, args: self.args@ }
    }
}

impl View for CellDep {
    type V = CellDepModel;

    open spec fn view(&self) -> CellDepModel {
        CellDepModel { out_point: self.out_point@, dep_type: self.dep_type }
    }
}

/// The model of an optional script.
pub open spec fn script_option_model(script: Option<Script>) -> Option<ScriptModel> {
    match script {
        Some(s) => Some(s@),
        None => None,
    }
}

impl View for LiveCell {
    type V = LiveCellModel;

    open spec fn view(&self) -> LiveCellModel {
        LiveCellModel {
            out_point: self.out_point@,
            capacity: self.capacity,
            lock: self.lock@,
            type_: script_option_model(self.type_),
            block_number: self.block_number,
        }
    }
}

/// The models of a list of cells, in order.
pub open spec fn live_cell_models(cells: Seq<LiveCell>) -> Seq<LiveCellModel> {
    cells.map_values(|cell: LiveCell| cell@)
}

} // verus!
