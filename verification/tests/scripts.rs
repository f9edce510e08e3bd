#![allow(dead_code)]
use tai_contracts::error::{Error, Halt, ScriptError};
use tai_contracts::tx::out_point_to_bytes;
use tai_contracts::{always_success, auction, burn_lock, config, dao_info, debt, index, sys_debt, token, type_lock, udt_owner};
use tai_contracts::tx::{Cell, OutPoint, Tx};

fn h(b: u8) -> Vec<u8> {
    vec![b; 32]
}

fn cell(lock: u8, ty: Option<u8>, data: Vec<u8>) -> Cell {
    Cell {
        capacity: 0,
        lock_hash: h(lock),
        type_hash: ty.map(h),
        data,
        out_point: OutPoint { tx_hash: h(0xaa), index: 0 },
        header_timestamp: None,
    }
}

fn le128(v: u128) -> Vec<u8> {
    v.to_le_bytes().to_vec()
}

fn cat(parts: &[&[u8]]) -> Vec<u8> {
    let mut v = Vec::new();
    for p in parts {
        v.extend_from_slice(p);
    }
    v
}

/// A configuration entry of the configuration whose type hash is `h(0xcf)`.
fn entry(id: u32, value: Vec<u8>) -> Cell {
    cell(0x01, Some(0xcf), cat(&[&id.to_le_bytes(), &value]))
}

fn empty_tx(args: Vec<u8>) -> Tx {
    Tx {
        script_args: args,
        inputs: vec![],
        outputs: vec![],
        cell_deps: vec![],
        group_inputs: vec![],
        group_outputs: vec![],
    }
}

fn code(r: Result<(), Halt<Error>>) -> Option<u32> {
    match r {
        Ok(()) => Some(0),
        Err(Halt::Fail(e)) => Some(e.err),
        Err(Halt::Abort) => None,
    }
}

fn named(r: Result<(), Halt<ScriptError>>) -> Option<Option<ScriptError>> {
    match r {
        Ok(()) => Some(None),
        Err(Halt::Fail(e)) => Some(Some(e)),
        Err(Halt::Abort) => None,
    }
}

const OK: Option<Option<ScriptError>> = Some(None);

fn fails(e: ScriptError) -> Option<Option<ScriptError>> {
    Some(Some(e))
}

const CAP: u64 = 10_000;

fn dao_deps() -> Vec<Cell> {
    vec![entry(14, h(0x14)), entry(16, h(0x16)), entry(13, h(0x13))]
}

fn dao_deposit_tx() -> Tx {
    let mut tx = empty_tx(h(0xcf));
    tx.cell_deps = dao_deps();
    let info = cell(0x01, Some(0x0f), le128(CAP as u128));
    tx.group_outputs = vec![info.clone()];
    tx.inputs = vec![cell(0x44, None, vec![])];
    let mut dao = cell(0x13, Some(0x14), vec![0; 8]);
    dao.capacity = CAP;
    tx.outputs = vec![dao, cell(0x44, Some(0x16), le128(CAP as u128)), info];
    tx
}

fn dao_withdrawal_tx() -> Tx {
    let mut tx = empty_tx(h(0xcf));
    tx.cell_deps = dao_deps();
    let info = cell(0x01, Some(0x0f), le128(CAP as u128));
    tx.group_inputs = vec![info.clone()];
    let mut dao = cell(0x13, Some(0x14), vec![0; 8]);
    dao.capacity = CAP;
    tx.inputs = vec![dao, info, cell(0x44, Some(0x16), le128(CAP as u128))];
    tx.outputs = vec![cell(0x44, Some(0x14), vec![1; 8])];
    tx
}

#[test]
fn dao_deposit_is_accepted() {
    assert_eq!(code(dao_info::main(&dao_deposit_tx())), Some(0));
}

#[test]
fn dao_deposit_error_cases() {
    let mut tx = dao_deposit_tx();
    tx.cell_deps[0] = entry(14, vec![0x14; 31]);
    assert_eq!(code(dao_info::main(&tx)), Some(65));
    let mut tx = dao_deposit_tx();
    tx.inputs.push(cell(0x45, Some(0x16), le128(CAP as u128)));
    assert_eq!(code(dao_info::main(&tx)), Some(72));
    let mut tx = dao_deposit_tx();
    tx.outputs[0].capacity = CAP + 1;
    assert_eq!(code(dao_info::main(&tx)), Some(75));
    let mut tx = dao_deposit_tx();
    tx.group_outputs[0].data = le128(1);
    assert_eq!(code(dao_info::main(&tx)), Some(80));
    let mut tx = dao_deposit_tx();
    tx.outputs[0].type_hash = None;
    assert_eq!(code(dao_info::main(&tx)), Some(83));
    let mut tx = dao_deposit_tx();
    tx.outputs[0].data = vec![0, 0, 0, 0, 0, 0, 0, 1];
    assert_eq!(code(dao_info::main(&tx)), Some(90));
    let mut tx = dao_deposit_tx();
    tx.outputs[0].lock_hash = h(0x12);
    assert_eq!(code(dao_info::main(&tx)), Some(94));
    let mut tx = dao_deposit_tx();
    tx.group_outputs[0].data = vec![1];
    assert_eq!(code(dao_info::main(&tx)), None);
    let mut tx = dao_deposit_tx();
    tx.script_args = vec![];
    assert_eq!(code(dao_info::main(&tx)), Some(147));
}

#[test]
fn dao_withdrawal_is_accepted() {
    assert_eq!(code(dao_info::main(&dao_withdrawal_tx())), Some(0));
}

#[test]
fn dao_withdrawal_error_cases() {
    let mut tx = dao_withdrawal_tx();
    tx.inputs[2].data = le128(0);
    assert_eq!(code(dao_info::main(&tx)), Some(115));
    let mut tx = dao_withdrawal_tx();
    tx.inputs[0].capacity = 1;
    assert_eq!(code(dao_info::main(&tx)), Some(118));
    let mut tx = dao_withdrawal_tx();
    tx.group_inputs[0].data = le128(3);
    assert_eq!(code(dao_info::main(&tx)), Some(123));
    let mut tx = dao_withdrawal_tx();
    tx.inputs[0].type_hash = Some(h(0x15));
    assert_eq!(code(dao_info::main(&tx)), Some(127));
    let mut tx = dao_withdrawal_tx();
    tx.outputs[0].type_hash = Some(h(0x15));
    assert_eq!(code(dao_info::main(&tx)), Some(129));
    let mut tx = dao_withdrawal_tx();
    tx.group_inputs[0].out_point.tx_hash = h(0x01);
    assert_eq!(code(dao_info::main(&tx)), Some(136));
    let mut tx = dao_withdrawal_tx();
    tx.cell_deps[0] = entry(14, vec![0x14; 33]);
    assert_eq!(code(dao_info::main(&tx)), Some(108));
    let mut tx = dao_withdrawal_tx();
    tx.group_inputs.push(cell(0x01, None, vec![]));
    assert_eq!(code(dao_info::main(&tx)), None);
}

const DEBT: u128 = 400;

fn offset_tx() -> Tx {
    let mut tx = empty_tx(h(0xcf));
    tx.cell_deps = vec![entry(5, h(0x05)), entry(2, h(0x02))];
    tx.group_inputs = vec![cell(0x07, Some(0x0a), le128(DEBT))];
    tx.inputs = vec![cell(0x33, Some(0x05), le128(DEBT))];
    tx.outputs = vec![cell(0x02, Some(0x05), le128(DEBT))];
    tx
}

fn new_sys_debt_tx() -> Tx {
    let mut tx = empty_tx(h(0xcf));
    tx.cell_deps = vec![entry(9, h(0x09)), entry(7, h(0x07))];
    let d = cell(0x07, Some(0x0a), le128(DEBT));
    tx.group_outputs = vec![d.clone()];
    tx.inputs = vec![cell(0x33, None, vec![]), cell(0x12, Some(0x09), vec![])];
    tx.outputs = vec![cell(0x33, None, vec![]), d];
    tx
}

#[test]
fn system_debt_offset() {
    assert_eq!(code(sys_debt::main(&offset_tx())), Some(0));
    let mut tx = offset_tx();
    tx.group_inputs[0].data = vec![1; 15];
    assert_eq!(code(sys_debt::main(&tx)), Some(39));
    let mut tx = offset_tx();
    tx.outputs[0].type_hash = Some(h(0x06));
    assert_eq!(code(sys_debt::main(&tx)), Some(46));
    let mut tx = offset_tx();
    tx.outputs[0].lock_hash = h(0x03);
    assert_eq!(code(sys_debt::main(&tx)), Some(50));
    let mut tx = offset_tx();
    tx.outputs[0].data = vec![1];
    assert_eq!(code(sys_debt::main(&tx)), Some(53));
    let mut tx = offset_tx();
    tx.outputs[0].data = le128(DEBT - 1);
    assert_eq!(code(sys_debt::main(&tx)), Some(57));
    let mut tx = offset_tx();
    tx.inputs.push(cell(0x02, Some(0x05), le128(1)));
    assert_eq!(code(sys_debt::main(&tx)), Some(65));
    let mut tx = offset_tx();
    tx.cell_deps[0] = entry(5, vec![5; 31]);
    assert_eq!(code(sys_debt::main(&tx)), None);
    let mut tx = offset_tx();
    tx.script_args = vec![];
    assert_eq!(code(sys_debt::main(&tx)), Some(95));
}

#[test]
fn system_debt_creation() {
    assert_eq!(code(sys_debt::main(&new_sys_debt_tx())), Some(0));
    let mut tx = new_sys_debt_tx();
    tx.group_outputs[0].data = vec![];
    assert_eq!(code(sys_debt::main(&tx)), Some(73));
    let mut tx = new_sys_debt_tx();
    tx.inputs[1].type_hash = None;
    assert_eq!(code(sys_debt::main(&tx)), Some(77));
    let mut tx = new_sys_debt_tx();
    tx.group_outputs[0].lock_hash = h(0x08);
    assert_eq!(code(sys_debt::main(&tx)), Some(81));
    let mut tx = new_sys_debt_tx();
    tx.outputs[1].type_hash = Some(h(0x0b));
    assert_eq!(code(sys_debt::main(&tx)), Some(85));
    let mut tx = new_sys_debt_tx();
    tx.inputs.truncate(1);
    assert_eq!(code(sys_debt::main(&tx)), Some(1));
    let mut tx = new_sys_debt_tx();
    tx.group_outputs.push(cell(0x07, None, vec![]));
    assert_eq!(code(sys_debt::main(&tx)), None);
}

#[test]
fn owner_lock_opens_with_owner_type() {
    let mut tx = empty_tx(h(0x77));
    tx.inputs = vec![cell(0x01, Some(0x77), vec![])];
    assert_eq!(code(udt_owner::main(&tx)), Some(0));
    let mut tx = empty_tx(h(0x77));
    tx.outputs = vec![cell(0x01, None, vec![]), cell(0x01, Some(0x77), vec![])];
    assert_eq!(code(udt_owner::main(&tx)), Some(0));
    let mut tx = empty_tx(h(0x77));
    tx.inputs = vec![cell(0x77, None, vec![])];
    assert_eq!(code(udt_owner::main(&tx)), Some(1));
    assert_eq!(code(udt_owner::main(&empty_tx(vec![]))), Some(22));
    assert_eq!(code(udt_owner::main(&empty_tx(vec![1; 33]))), None);
    let mut tx = empty_tx(h(0x77));
    tx.inputs = vec![cell(0x01, Some(0x77), vec![])];
    tx.group_inputs = vec![cell(0x02, None, vec![]), cell(0x02, None, vec![])];
    assert_eq!(code(udt_owner::main(&tx)), None);
}

#[test]
fn owner_lock_reads_owner_from_configuration() {
    let mut args = h(0xcf);
    args.extend_from_slice(&30u32.to_le_bytes());
    let mut tx = empty_tx(args.clone());
    tx.cell_deps = vec![entry(30, h(0x78))];
    tx.outputs = vec![cell(0x01, Some(0x78), vec![])];
    assert_eq!(code(udt_owner::main(&tx)), Some(0));
    tx.outputs = vec![cell(0x01, Some(0x77), vec![])];
    assert_eq!(code(udt_owner::main(&tx)), Some(1));
    tx.cell_deps = vec![];
    assert_eq!(code(udt_owner::main(&tx)), Some(1));
    tx.cell_deps = vec![entry(30, vec![0x78; 20])];
    assert_eq!(code(udt_owner::main(&tx)), None);
}

fn id_cell(id: u32) -> Cell {
    cell(0x01, Some(0x1c), id.to_le_bytes().to_vec())
}

#[test]
fn configuration_cells_keep_their_identifier() {
    let mut tx = empty_tx(h(0x1d));
    tx.group_inputs = vec![id_cell(7)];
    tx.group_outputs = vec![id_cell(7)];
    assert_eq!(named(config::main(&tx)), OK);
    tx.group_outputs = vec![id_cell(8)];
    assert_eq!(named(config::main(&tx)), fails(ScriptError::ErrIndex));
    tx.group_outputs = vec![];
    assert_eq!(named(config::main(&tx)), fails(ScriptError::ErrOutputData));
    tx.group_outputs = vec![id_cell(7), id_cell(7)];
    assert_eq!(named(config::main(&tx)), fails(ScriptError::ErrMoreOneCell));
    tx.group_inputs = vec![id_cell(7), id_cell(7)];
    assert_eq!(named(config::main(&tx)), fails(ScriptError::ErrMoreOneCell));
    tx.group_inputs = vec![id_cell(0)];
    assert_eq!(named(config::main(&tx)), fails(ScriptError::ErrZero));
    tx.group_inputs = vec![cell(0x01, None, vec![1, 2])];
    assert_eq!(named(config::main(&tx)), None);
}

#[test]
fn new_configuration_cells_take_the_index() {
    let mut tx = empty_tx(h(0x1d));
    tx.group_outputs = vec![id_cell(7), id_cell(7)];
    tx.inputs = vec![cell(0x02, None, vec![]), cell(0x02, Some(0x1d), 7u32.to_le_bytes().to_vec())];
    assert_eq!(named(config::main(&tx)), OK);
    assert!(matches!(config::get_id_from_index_script(&tx, &h(0x1d)), Ok(7)));
    tx.group_outputs = vec![id_cell(7), id_cell(8)];
    assert_eq!(named(config::main(&tx)), fails(ScriptError::ErrDifferenceData));
    tx.group_outputs = vec![id_cell(8)];
    assert_eq!(named(config::main(&tx)), fails(ScriptError::ErrArgs));
    tx.inputs.push(cell(0x02, Some(0x1d), 8u32.to_le_bytes().to_vec()));
    assert_eq!(named(config::main(&tx)), fails(ScriptError::ErrMoreOneCell));
    tx.script_args = vec![];
    assert_eq!(named(config::main(&tx)), fails(ScriptError::MyError));
}

fn index_tx(in_id: Option<u32>, out_id: u32) -> Tx {
    let mut tx = empty_tx(vec![]);
    tx.inputs = vec![cell(0x02, None, vec![])];
    tx.inputs[0].out_point.index = 3;
    tx.script_args = out_point_to_bytes(&tx.inputs[0].out_point);
    if let Some(i) = in_id {
        tx.group_inputs = vec![cell(0x01, Some(0x1e), i.to_le_bytes().to_vec())];
    }
    tx.group_outputs = vec![cell(0x01, Some(0x1e), out_id.to_le_bytes().to_vec())];
    tx
}

#[test]
fn index_counts_up_by_one() {
    assert_eq!(named(index::main(&index_tx(None, 1))), OK);
    assert_eq!(named(index::main(&index_tx(Some(1), 2))), OK);
    assert_eq!(named(index::main(&index_tx(Some(41), 42))), OK);
    assert_eq!(named(index::main(&index_tx(Some(1), 3))), fails(ScriptError::ErrIndex));
    assert_eq!(named(index::main(&index_tx(None, 2))), fails(ScriptError::ErrIndex));
    assert_eq!(named(index::main(&index_tx(Some(u32::MAX), 1))), None);
    let mut tx = index_tx(None, 1);
    tx.script_args[0] ^= 1;
    assert_eq!(named(index::main(&tx)), fails(ScriptError::ErrArgs));
    let mut tx = index_tx(None, 1);
    tx.inputs.clear();
    assert_eq!(named(index::main(&tx)), fails(ScriptError::IndexOutOfBound));
    let mut tx = index_tx(Some(1), 2);
    tx.group_outputs.clear();
    assert_eq!(named(index::main(&tx)), fails(ScriptError::ErrOutputData));
    let mut tx = index_tx(Some(1), 2);
    tx.group_outputs[0].data.push(0);
    assert_eq!(named(index::main(&tx)), None);
    let mut tx = index_tx(Some(1), 2);
    tx.group_outputs.push(cell(0x01, None, vec![]));
    assert_eq!(named(index::main(&tx)), fails(ScriptError::ErrMoreOneCell));
    let mut tx = index_tx(Some(1), 2);
    tx.script_args = vec![];
    assert_eq!(named(index::main(&tx)), fails(ScriptError::MyError));
}

fn burn_tx(input: u128, output: u128) -> Tx {
    let mut tx = empty_tx(h(0x05));
    tx.group_inputs = vec![cell(0x0b, Some(0x05), le128(input))];
    tx.outputs = vec![cell(0x0c, Some(0x06), vec![]), cell(0x0b, Some(0x05), le128(output))];
    tx
}

#[test]
fn burn_lock_only_grows() {
    assert_eq!(named(burn_lock::main(&burn_tx(10, 11))), OK);
    assert_eq!(named(burn_lock::main(&burn_tx(10, 10))), fails(ScriptError::ErrAmount));
    assert_eq!(named(burn_lock::main(&burn_tx(10, 9))), fails(ScriptError::ErrAmount));
    let mut tx = burn_tx(10, 11);
    tx.outputs[1].type_hash = Some(h(0x06));
    assert_eq!(named(burn_lock::main(&tx)), None);
    let mut tx = burn_tx(10, 11);
    tx.group_inputs[0].type_hash = None;
    assert_eq!(named(burn_lock::main(&tx)), None);
    let mut tx = burn_tx(10, 11);
    tx.group_inputs.clear();
    assert_eq!(named(burn_lock::main(&tx)), fails(ScriptError::IndexOutOfBound));
    let mut tx = burn_tx(10, 11);
    tx.script_args = vec![5; 31];
    assert_eq!(named(burn_lock::main(&tx)), None);
    let mut tx = burn_tx(10, 11);
    tx.script_args = vec![];
    assert_eq!(named(burn_lock::main(&tx)), fails(ScriptError::ErrArgs));
    let mut tx = burn_tx(u128::MAX, 11);
    tx.group_inputs.push(cell(0x0b, Some(0x05), le128(1)));
    assert_eq!(named(burn_lock::main(&tx)), None);
}

#[test]
fn type_lock_modes() {
    let mut tx = empty_tx(h(0x66));
    tx.inputs = vec![cell(0x01, Some(0x66), vec![])];
    assert_eq!(named(type_lock::main(&tx)), OK);
    tx.inputs = vec![];
    tx.outputs = vec![cell(0x01, Some(0x66), vec![])];
    assert_eq!(named(type_lock::main(&tx)), OK);
    let mut mode1 = vec![1u8];
    mode1.extend(h(0x66));
    tx.script_args = mode1;
    assert_eq!(named(type_lock::main(&tx)), fails(ScriptError::ErrNotExist));
    let mut mode2 = vec![2u8];
    mode2.extend(h(0x66));
    tx.script_args = mode2;
    assert_eq!(named(type_lock::main(&tx)), OK);
    tx.outputs = vec![];
    assert_eq!(named(type_lock::main(&tx)), fails(ScriptError::ErrNotExist));
    tx.script_args = vec![];
    assert_eq!(named(type_lock::main(&tx)), fails(ScriptError::ErrArgs));
    tx.script_args = vec![9, 1, 2];
    tx.inputs = vec![cell(0x01, None, vec![])];
    assert_eq!(named(type_lock::main(&tx)), fails(ScriptError::ErrNotExist));
}

fn token_tx(ins: &[u128], outs: &[u128]) -> Tx {
    let mut tx = empty_tx(h(0x0f));
    tx.group_inputs = ins.iter().map(|v| cell(0x01, Some(0x0d), le128(*v))).collect();
    tx.group_outputs = outs.iter().map(|v| cell(0x01, Some(0x0d), le128(*v))).collect();
    tx
}

#[test]
fn token_amounts_are_conserved() {
    assert_eq!(named(token::main(&token_tx(&[10, 20], &[30]))), OK);
    assert_eq!(named(token::main(&token_tx(&[], &[]))), OK);
    assert_eq!(named(token::main(&token_tx(&[10, 20], &[31]))), fails(ScriptError::ErrorMode));
    let mut tx = token_tx(&[10, 20], &[31]);
    tx.script_args = vec![];
    assert_eq!(named(token::main(&tx)), fails(ScriptError::ErrorArgs));
    assert_eq!(named(token::main(&token_tx(&[10, 0], &[10]))), None);
    assert_eq!(named(token::main(&token_tx(&[u128::MAX, 1], &[1]))), None);
    let mut tx = token_tx(&[10], &[10]);
    tx.group_outputs[0].data = vec![1];
    assert_eq!(named(token::main(&tx)), None);
}

#[test]
fn token_owner_mode() {
    let mut tx = token_tx(&[], &[1000]);
    tx.inputs = vec![cell(0x0f, None, vec![])];
    assert_eq!(named(token::main(&tx)), OK);
    tx.inputs = vec![cell(0x01, Some(0x0f), vec![])];
    assert_eq!(named(token::main(&tx)), OK);
    tx.inputs = vec![];
    tx.outputs = vec![cell(0x01, Some(0x0f), vec![])];
    assert_eq!(named(token::main(&tx)), OK);
    tx.outputs = vec![cell(0x0f, None, vec![])];
    assert_eq!(named(token::main(&tx)), fails(ScriptError::ErrorMode));
    tx.script_args = vec![1; 10];
    assert_eq!(named(token::main(&tx)), None);
}

fn debt_record() -> Vec<u8> {
    cat(&[&le128(1000), &le128(4750), &20u32.to_le_bytes(), &h(0x0e)])
}

fn debt_liquidation_tx() -> Tx {
    let mut tx = empty_tx(h(0xcf));
    tx.cell_deps = vec![entry(4, h(0x04))];
    let d = cell(0x17, Some(0x08), debt_record());
    tx.group_outputs = vec![d.clone()];
    tx.inputs = vec![cell(0x03, Some(0x20), vec![]), cell(0x03, Some(0x04), vec![])];
    tx.outputs = vec![cell(0x17, Some(0x20), vec![]), d];
    tx
}

fn debt_auction_tx() -> Tx {
    let mut tx = empty_tx(h(0xcf));
    tx.cell_deps = vec![entry(20, h(0x20)), entry(9, h(0x09))];
    tx.group_inputs = vec![cell(0x17, Some(0x08), debt_record())];
    tx.inputs = vec![cell(0x17, Some(0x20), le128(4750))];
    tx.outputs = vec![cell(0x12, Some(0x09), debt_record()), cell(0x12, Some(0x20), le128(4750))];
    tx
}

#[test]
fn debt_creation_by_liquidation() {
    assert_eq!(named(debt::main(&debt_liquidation_tx())), OK);
    let mut tx = debt_liquidation_tx();
    tx.inputs[1].type_hash = Some(h(0x05));
    assert_eq!(named(debt::main(&tx)), fails(ScriptError::ErrCDP));
    let mut tx = debt_liquidation_tx();
    tx.outputs[1].type_hash = None;
    assert_eq!(named(debt::main(&tx)), fails(ScriptError::ErrIndex));
    let mut tx = debt_liquidation_tx();
    tx.inputs.truncate(1);
    assert_eq!(named(debt::main(&tx)), fails(ScriptError::IndexOutOfBound));
    let mut tx = debt_liquidation_tx();
    tx.group_inputs = vec![cell(0x17, None, vec![])];
    assert_eq!(named(debt::main(&tx)), None);
    let mut tx = debt_liquidation_tx();
    tx.script_args = vec![];
    assert_eq!(named(debt::main(&tx)), fails(ScriptError::ErrArgs));
}

#[test]
fn debt_turns_into_auction() {
    assert_eq!(named(debt::main(&debt_auction_tx())), OK);
    let mut tx = debt_auction_tx();
    tx.outputs[1].data = le128(4749);
    assert_eq!(named(debt::main(&tx)), None);
    let mut tx = debt_auction_tx();
    tx.outputs[0].data = le128(1);
    assert_eq!(named(debt::main(&tx)), None);
    let mut tx = debt_auction_tx();
    tx.outputs.swap(0, 1);
    assert_eq!(named(debt::main(&tx)), None);
    let mut tx = debt_auction_tx();
    tx.inputs[0].type_hash = None;
    assert_eq!(named(debt::main(&tx)), None);
    let mut tx = debt_auction_tx();
    tx.group_inputs[0].data = vec![0; 35];
    assert_eq!(named(debt::main(&tx)), None);
    let mut tx = debt_auction_tx();
    tx.cell_deps.remove(1);
    assert_eq!(named(debt::main(&tx)), fails(ScriptError::IndexOutOfBound));
    let mut tx = debt_auction_tx();
    tx.outputs.truncate(1);
    assert_eq!(named(debt::main(&tx)), fails(ScriptError::IndexOutOfBound));
    assert_eq!(debt::parse_data(&debt_record()), (4750, 1000, 20));
}

#[test]
fn always_success_accepts() {
    assert_eq!(named(always_success::main(&empty_tx(vec![]))), OK);
}

#[test]
fn token_amounts_are_collected() {
    let tx = token_tx(&[10, 20, 5], &[]);
    assert_eq!(token::collect_amount(&tx.group_inputs), 35);
    let tx = token_tx(&[u128::MAX - 1, 1], &[]);
    assert_eq!(token::collect_amount(&tx.group_inputs), u128::MAX);
    assert_eq!(token::collect_amount(&Vec::new()), 0);
}

/// One transaction turning a debt into an auction, seen by the auction
/// script (its cell is the first output) and by the debt script (its cell
/// is the second input).
fn debt_to_auction_views() -> (Tx, Tx) {
    let mut tx = empty_tx(h(0xcf));
    tx.cell_deps = vec![entry(20, h(0x20)), entry(9, h(0x09)), entry(8, h(0x08)), entry(12, h(0x12))];
    tx.inputs = vec![
        cell(0x17, Some(0x20), le128(4750)),
        cell(0x17, Some(0x08), debt_record()),
        cell(0x55, None, vec![]),
    ];
    tx.outputs = vec![cell(0x12, Some(0x09), debt_record()), cell(0x12, Some(0x20), le128(4750))];
    let mut auction_view = tx.clone();
    auction_view.group_outputs = vec![tx.outputs[0].clone()];
    let mut debt_view = tx.clone();
    debt_view.group_inputs = vec![tx.inputs[1].clone()];
    (auction_view, debt_view)
}

#[test]
fn debt_and_auction_accept_one_transaction() {
    let (a, d) = debt_to_auction_views();
    assert_eq!(code(auction::main(&a)), Some(0));
    assert_eq!(named(debt::main(&d)), OK);
    let (mut a, mut d) = debt_to_auction_views();
    a.outputs.swap(0, 1);
    d.outputs.swap(0, 1);
    assert_eq!(code(auction::main(&a)), Some(291));
    assert_eq!(named(debt::main(&d)), None);
    let (mut a, mut d) = debt_to_auction_views();
    a.outputs[1].data = le128(4751);
    d.outputs[1].data = le128(4751);
    assert_eq!(code(auction::main(&a)), Some(297));
    assert_eq!(named(debt::main(&d)), None);
}
