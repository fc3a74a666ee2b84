use ckb_scenarios::case::rfc0221::after_switch::AfterSwitchRun;
use ckb_scenarios::chain::{CellDep, LiveCell, OutPoint, Script};
use ckb_scenarios::script::Event;
use ckb_scenarios::transaction::spend_transaction;
use ckb_scenarios::util::since_from_relative_timestamp;
use ckb_types::packed;
use ckb_types::prelude::Entity;

fn typed_cell() -> LiveCell {
    LiveCell {
        out_point: OutPoint { tx_hash: [0xab; 32], index: 3 },
        capacity: 123_456_789,
        lock: Script { code_hash: [0x11; 32], hash_type: 1, args: vec![1, 2, 3] },
        type_: Some(Script { code_hash: [0x22; 32], hash_type: 0, args: vec![] }),
        block_number: Some(70),
    }
}

fn dep() -> CellDep {
    CellDep { out_point: OutPoint { tx_hash: [0xcd; 32], index: 5 }, dep_type: 1 }
}

#[test]
fn spend_transaction_holds_what_it_was_given() {
    let cell = typed_cell();
    let since = since_from_relative_timestamp(2);
    let bytes = spend_transaction(&cell, since, &dep());
    let tx = packed::Transaction::from_slice(&bytes).expect("a transaction");
    let raw = tx.raw();
    assert_eq!(raw.version().as_slice(), &0u32.to_le_bytes()[..]);
    assert_eq!(raw.header_deps().len(), 0);
    assert_eq!(tx.witnesses().len(), 0);

    assert_eq!(raw.inputs().len(), 1);
    let input = raw.inputs().get(0).unwrap();
    assert_eq!(input.since().as_slice(), &0xc000_0000_0000_0002u64.to_le_bytes()[..]);
    assert_eq!(input.previous_output().tx_hash().as_slice(), &[0xab; 32][..]);
    assert_eq!(input.previous_output().index().as_slice(), &3u32.to_le_bytes()[..]);

    assert_eq!(raw.outputs().len(), 1);
    let output = raw.outputs().get(0).unwrap();
    assert_eq!(output.capacity().as_slice(), &123_456_789u64.to_le_bytes()[..]);
    assert_eq!(output.lock().code_hash().as_slice(), &[0x11; 32][..]);
    assert_eq!(output.lock().hash_type().as_slice(), &[1u8][..]);
    assert_eq!(output.lock().args().raw_data().as_ref(), &[1u8, 2, 3][..]);
    let type_ = output.type_().to_opt().expect("a type script");
    assert_eq!(type_.code_hash().as_slice(), &[0x22; 32][..]);
    assert_eq!(type_.hash_type().as_slice(), &[0u8][..]);
    assert_eq!(type_.args().raw_data().len(), 0);

    assert_eq!(raw.outputs_data().len(), 1);
    assert_eq!(raw.outputs_data().get(0).unwrap().raw_data().len(), 0);

    assert_eq!(raw.cell_deps().len(), 1);
    let cell_dep = raw.cell_deps().get(0).unwrap();
    assert_eq!(cell_dep.out_point().tx_hash().as_slice(), &[0xcd; 32][..]);
    assert_eq!(cell_dep.out_point().index().as_slice(), &5u32.to_le_bytes()[..]);
    assert_eq!(cell_dep.dep_type().as_slice(), &[1u8][..]);
}

#[test]
fn spend_transaction_without_type_script() {
    let mut cell = typed_cell();
    cell.type_ = None;
    let bytes = spend_transaction(&cell, 0, &dep());
    let tx = packed::Transaction::from_slice(&bytes).expect("a transaction");
    let output = tx.raw().outputs().get(0).unwrap();
    assert!(output.type_().to_opt().is_none());
    assert_eq!(tx.raw().inputs().get(0).unwrap().since().as_slice(), &[0u8; 8][..]);
}

#[test]
fn spend_transaction_is_a_function_of_its_parts() {
    let cell = typed_cell();
    let first = spend_transaction(&cell, 7, &dep());
    let second = spend_transaction(&cell, 7, &dep());
    assert_eq!(first, second);
    let other = spend_transaction(&cell, 8, &dep());
    assert_ne!(first, other);
}

#[test]
fn run_builds_the_transaction_of_its_input() {
    let cell = typed_cell();
    let run = AfterSwitchRun::new(0)
        .on_event(Event::Epoch(3))
        .on_event(Event::Done)
        .on_event(Event::Done)
        .on_event(Event::Epoch(3));
    assert!(run.transaction().is_none());
    let run = AfterSwitchRun::with_parameters(0, 2, 0, 120)
        .on_event(Event::Epoch(3))
        .on_event(Event::LiveCells(vec![cell.clone()]))
        .on_event(Event::Timestamp(1000));
    assert!(run.transaction().is_none());
    let run = run.on_event(Event::CellDep(dep()));
    let expected = spend_transaction(&cell, since_from_relative_timestamp(2), &dep());
    assert_eq!(run.transaction(), Some(expected));
}
