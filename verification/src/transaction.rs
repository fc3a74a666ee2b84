//! The transaction under test: one input under a time lock, one output that keeps what the
//! input held.

use crate::chain::{
    CellDep, CellDepModel, LiveCell, LiveCellModel, OutPoint, OutPointModel, Script, ScriptModel,
    script_option_model,
};
use ckb_types::packed;
use ckb_types::prelude::{Builder, Entity};
use vstd::prelude::*;

verus! {

/// An input of a transaction, as mathematics.
pub struct CellInputModel {
    pub previous_output: OutPointModel,
    pub since: u64,
}

/// An output of a transaction, as mathematics.
pub struct CellOutputModel {
    pub capacity: u64,
    pub lock: ScriptModel,
    pub type_: Option<ScriptModel>,
}

/// What a transaction holds, as mathematics.
#[verifier::ext_equal]
pub struct TransactionModel {
    pub version: u32,
    pub cell_deps: Seq<CellDepModel>,
    pub header_deps: Seq<Seq<u8>>,
    pub inputs: Seq<CellInputModel>,
    pub outputs: Seq<CellOutputModel>,
    pub outputs_data: Seq<Seq<u8>>,
    pub witnesses: Seq<Seq<u8>>,
}

/// The transaction of the given version that holds nothing.
pub open spec fn empty_transaction(version: u32) -> TransactionModel {
    TransactionModel {
        version,
        cell_deps: Seq::empty(),
        header_deps: Seq::empty(),
        inputs: Seq::empty(),
        outputs: Seq::empty(),
        outputs_data: Seq::empty(),
        witnesses: Seq::empty(),
    }
}

/// The transaction that spends `cell` under the lock `since`: its one output keeps the
/// cell's lock script, type script and capacity and carries no data, and its one
/// dependency is `cell_dep`.
pub open spec fn spend_model(cell: LiveCellModel, since: u64, cell_dep: CellDepModel)
    -> TransactionModel {
    TransactionModel {
        version: 0,
        cell_deps: seq![cell_dep],
        header_deps: Seq::empty(),
        inputs: seq![CellInputModel { previous_output: cell.out_point, since }],
        outputs: seq![
            CellOutputModel { capacity: cell.capacity, lock: cell.lock, type_: cell.type_ },
        ],
        outputs_data: seq![Seq::<u8>::empty()],
        witnesses: Seq::empty(),
    }
}

/// Whether `bytes` holds the serialization of `transaction`, or nothing where there is no
/// transaction.
pub open spec fn serializes(bytes: Option<Vec<u8>>, transaction: Option<TransactionModel>) -> bool {
    match transaction {
        Some(transaction) => bytes matches Some(b) && b@ == transaction_bytes(transaction),
        None => bytes is None,
    }
}

/// `ckb_types::core::TransactionBuilder`, carried from call to call as it is.
#[verifier::external_type_specification]
#[verifier::external_body]
pub struct ExTransactionBuilder(ckb_types::core::TransactionBuilder);

/// What a `ckb_types::core::TransactionBuilder` has been given so far: its version and its
/// six lists, each in the order in which the items were pushed.
pub uninterp spec fn builder_contents(
    builder: ckb_types::core::TransactionBuilder,
) -> TransactionModel;

/// The serialization of a transaction as `ckb_types` writes it: the bytes of the
/// `packed::Transaction` made of these parts.
pub uninterp spec fn transaction_bytes(transaction: TransactionModel) -> Seq<u8>;

/// `TransactionBuilder::default`: a builder of the current transaction version (zero) whose
/// lists are all empty.
#[verifier::external_body]
fn new_builder() -> (builder: ckb_types::core::TransactionBuilder)
    ensures
        builder_contents(builder) == empty_transaction(0),
{
    ckb_types::core::TransactionBuilder::default()
}

/// `TransactionBuilder::input`, on a `packed::CellInput` made of the out point and the
/// lock: the input is pushed to the end of the inputs; nothing else changes.
#[verifier::external_body]
fn push_input(
    builder: ckb_types::core::TransactionBuilder,
    previous_output: &OutPoint,
    since: u64,
) -> (out: ckb_types::core::TransactionBuilder)
    ensures
        builder_contents(out) == (TransactionModel {
            inputs: builder_contents(builder).inputs.push(
                CellInputModel { previous_output: previous_output@, since },
            ),
            ..builder_contents(builder)
        }),
{
    let tx_hash = packed::Byte32::new(previous_output.tx_hash);
    let out_point = packed::OutPoint::new(tx_hash, previous_output.index);
    builder.input(packed::CellInput::new(out_point, since))
}

/// `TransactionBuilder::output`, on a `packed::CellOutput` made of the capacity and the
/// two scripts: the output is pushed to the end of the outputs; nothing else changes.
#[verifier::external_body]
fn push_output(
    builder: ckb_types::core::TransactionBuilder,
    capacity: u64,
    lock: &Script,
    type_: &Option<Script>,
) -> (out: ckb_types::core::TransactionBuilder)
    ensures
        builder_contents(out) == (TransactionModel {
            outputs: builder_contents(builder).outputs.push(
                CellOutputModel { capacity, lock: lock@, type_: script_option_model(*type_) },
            ),
            ..builder_contents(builder)
        }),
{
    let lock = packed::Script::new_builder()
        .code_hash(packed::Byte32::new(lock.code_hash))
        .hash_type(lock.hash_type)
        .args(lock.args.as_slice())
        .build();
    let type_ = type_.as_ref().map(|t| packed::Script::new_builder()
        .code_hash(packed::Byte32::new(t.code_hash))
        .hash_type(t.hash_type)
        .args(t.args.as_slice())
        .build());
    let output = packed::CellOutput::new_builder().capacity(capacity).lock(lock).type_(type_);
    builder.output(output.build())
}

/// `TransactionBuilder::output_data`: the data is pushed to the end of the outputs' data;
/// nothing else changes.
#[verifier::external_body]
fn push_output_data(builder: ckb_types::core::TransactionBuilder, data: &[u8]) -> (out:
    ckb_types::core::TransactionBuilder)
    ensures
        builder_contents(out) == (TransactionModel {
            outputs_data: builder_contents(builder).outputs_data.push(data@),
            ..builder_contents(builder)
        }),
{
    builder.output_data(data)
}

/// `TransactionBuilder::cell_dep`, on a `packed::CellDep` made of the out point and the
/// kind of dependency: it is pushed to the end of the dependencies; nothing else changes.
#[verifier::external_body]
fn push_cell_dep(builder: ckb_types::core::TransactionBuilder, cell_dep: &CellDep) -> (out:
    ckb_types::core::TransactionBuilder)
    ensures
        builder_contents(out) == (TransactionModel {
            cell_deps: builder_contents(builder).cell_deps.push(cell_dep@),
            ..builder_contents(builder)
        }),
{
    let tx_hash = packed::Byte32::new(cell_dep.out_point.tx_hash);
    let out_point = packed::OutPoint::new(tx_hash, cell_dep.out_point.index);
    let cell_dep = packed::CellDep::new_builder().out_point(out_point).dep_type(cell_dep.dep_type);
    builder.cell_dep(cell_dep.build())
}

/// `TransactionBuilder::build`, then the bytes of the view's `packed::Transaction`: the
/// serialization of exactly what the builder was given.
#[verifier::external_body]
fn build_bytes(builder: ckb_types::core::TransactionBuilder) -> (bytes: Vec<u8>)
    ensures
        bytes@ == transaction_bytes(builder_contents(builder)),
{
    builder.build().data().as_slice().to_vec()
}

/// Builds and serializes the transaction that spends `cell` under the lock `since`.
pub fn spend_transaction(cell: &LiveCell, since: u64, cell_dep: &CellDep) -> (bytes: Vec<u8>)
    ensures
        bytes@ == transaction_bytes(spend_model(cell@, since, cell_dep@)),
{
    let no_data: Vec<u8> = Vec::new();
    let builder = new_builder();
    let builder = push_input(builder, &cell.out_point, since);
    let builder = push_output(builder, cell.capacity, &cell.lock, &cell.type_);
    let builder = push_output_data(builder, no_data.as_slice());
    let builder = push_cell_dep(builder, cell_dep);
    assert(builder_contents(builder) =~= spend_model(cell@, since, cell_dep@));
    build_bytes(builder)
}

} // verus!
