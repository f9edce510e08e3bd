#![allow(dead_code)]
use tai_contracts::auction::{
    self, do_auction, get_time, get_udt_amount, new_auction, parse_data, tai_req, MAX_AUCTION_TIME,
    PUBLICITY_TIME,
};
use tai_contracts::error::{Error, Halt};
use tai_contracts::tx::Source;
use tai_contracts::tx::{Cell, OutPoint, Tx};

fn h(b: u8) -> Vec<u8> {
    vec![b; 32]
}

fn cell(lock: u8, ty: Option<u8>, data: Vec<u8>) -> Cell {
    Cell {
        capacity: 0,
        lock_hash: h(lock),
        type_hash: ty.map(h),
        data,
        out_point: OutPoint { tx_hash: h(0xaa), index: 0 },
        header_timestamp: None,
    }
}

fn le128(v: u128) -> Vec<u8> {
    v.to_le_bytes().to_vec()
}

fn cat(parts: &[&[u8]]) -> Vec<u8> {
    let mut v = Vec::new();
    for p in parts {
        v.extend_from_slice(p);
    }
    v
}

/// A configuration entry of the configuration whose type hash is `h(0xcf)`.
fn entry(id: u32, value: Vec<u8>) -> Cell {
    cell(0x01, Some(0xcf), cat(&[&id.to_le_bytes(), &value]))
}

fn empty_tx(args: Vec<u8>) -> Tx {
    Tx {
        script_args: args,
        inputs: vec![],
        outputs: vec![],
        cell_deps: vec![],
        group_inputs: vec![],
        group_outputs: vec![],
    }
}

fn code(r: Result<(), Halt<Error>>) -> Option<u32> {
    match r {
        Ok(()) => Some(0),
        Err(Halt::Fail(e)) => Some(e.err),
        Err(Halt::Abort) => None,
    }
}

const TAI: u128 = 1000;
const UDT: u128 = 5000;
const START: u64 = 1000;

fn record() -> Vec<u8> {
    cat(&[&le128(TAI), &le128(UDT), &20u32.to_le_bytes(), &h(0x0e)])
}


fn deps(end: u64) -> Vec<Cell> {
    vec![
        entry(20, h(0x20)),
        entry(21, cat(&[&[0, 0, 0, 0], &end.to_le_bytes()])),
        entry(12, h(0x12)),
        entry(2, h(0x02)),
        entry(5, h(0x05)),
        entry(7, h(0x07)),
        entry(10, h(0x10)),
        entry(8, h(0x08)),
    ]
}

/// A bid at auction time `t`, burning `burn` TAI and paying `fee` to the community.
fn bid_tx(t: u64, burn: u128, fee: u128) -> Tx {
    let mut tx = empty_tx(h(0xcf));
    tx.cell_deps = deps(START + PUBLICITY_TIME + t);
    let mut auction_cell = cell(0x12, Some(0x09), record());
    auction_cell.header_timestamp = Some(START);
    tx.group_inputs = vec![auction_cell.clone()];
    tx.inputs = vec![
        cell(0x12, Some(0x20), le128(UDT)),
        auction_cell,
        cell(0x33, Some(0x05), le128(5000)),
    ];
    tx.outputs = vec![
        cell(0x02, Some(0x05), le128(burn)),
        cell(0x07, Some(0x05), le128(fee)),
        cell(0x0e, Some(0x05), le128(0)),
    ];
    tx
}

#[test]
fn parses_an_auction_record() {
    let (u, t, id, owner) = match parse_data(record()) {
        Ok(v) => v,
        Err(_) => panic!("record should parse"),
    };
    assert_eq!((u, t, id), (UDT, TAI, 20));
    assert_eq!(owner, h(0x0e));
    assert_eq!(code(parse_data(vec![0; 67]).map(|_| ())), Some(42));
}

#[test]
fn auction_price_falls_from_twice_the_debt() {
    assert_eq!(tai_req(0, 100), Some(200));
    assert_eq!(tai_req(MAX_AUCTION_TIME / 2, 100), Some(100));
    assert_eq!(tai_req(MAX_AUCTION_TIME * 3 / 4, 1000), Some(500));
    assert_eq!(tai_req(MAX_AUCTION_TIME, 1000), Some(0));
    assert_eq!(tai_req(0, u128::MAX), None);
    let mut last = tai_req(0, 12345).unwrap();
    for k in 1..=24u64 {
        let p = tai_req(MAX_AUCTION_TIME / 24 * k, 12345).unwrap();
        assert!(p <= last);
        last = p;
    }
}

#[test]
fn full_bid_is_accepted() {
    let tx = bid_tx(MAX_AUCTION_TIME / 2, TAI, 50);
    assert_eq!(code(auction::main(&tx)), Some(0));
}

#[test]
fn bid_with_refund_to_owner_is_accepted() {
    let tx = bid_tx(MAX_AUCTION_TIME / 2, TAI, TAI / 10);
    assert_eq!(code(auction::main(&tx)), Some(0));
    let mut tx = bid_tx(MAX_AUCTION_TIME / 2, TAI, TAI / 10);
    tx.outputs[2].lock_hash = h(0x44);
    assert_eq!(code(auction::main(&tx)), Some(223));
}

#[test]
fn bid_below_price_is_refused() {
    let tx = bid_tx(MAX_AUCTION_TIME / 4, TAI, 50);
    assert_eq!(code(auction::main(&tx)), Some(242));
    let tx = bid_tx(MAX_AUCTION_TIME / 4, TAI, 100);
    assert_eq!(code(auction::main(&tx)), Some(242));
}

#[test]
fn late_bid_is_priced_at_the_end() {
    let tx = bid_tx(MAX_AUCTION_TIME * 2, TAI, 0);
    assert_eq!(code(auction::main(&tx)), Some(0));
}

#[test]
fn bid_with_system_debt() {
    let mut tx = bid_tx(MAX_AUCTION_TIME * 3 / 4, 600, 0);
    tx.outputs[1] = cell(0x07, Some(0x10), le128(400));
    assert_eq!(code(auction::main(&tx)), Some(0));
    tx.outputs[1].data = le128(300);
    assert_eq!(code(auction::main(&tx)), Some(184));
    let mut tx = bid_tx(MAX_AUCTION_TIME * 3 / 4, 400, 0);
    tx.outputs[1] = cell(0x07, Some(0x10), le128(600));
    assert_eq!(code(auction::main(&tx)), Some(188));
    let mut tx = bid_tx(MAX_AUCTION_TIME / 4, 600, 0);
    tx.outputs[1] = cell(0x07, Some(0x10), le128(400));
    assert_eq!(code(auction::main(&tx)), Some(174));
    let mut tx = bid_tx(MAX_AUCTION_TIME * 3 / 4, 600, 0);
    tx.outputs[1] = cell(0x07, Some(0x11), le128(400));
    assert_eq!(code(auction::main(&tx)), Some(177));
    let mut tx = bid_tx(MAX_AUCTION_TIME * 2, 600, 0);
    tx.outputs[1] = cell(0x07, Some(0x10), le128(400));
    assert_eq!(code(auction::main(&tx)), Some(0));
}

#[test]
fn any_positive_burn_settles_after_the_auction() {
    let mut tx = bid_tx(MAX_AUCTION_TIME + 1, 1, 0);
    tx.outputs[1] = cell(0x07, Some(0x10), le128(TAI - 1));
    assert_eq!(code(auction::main(&tx)), Some(0));
    let mut tx = bid_tx(MAX_AUCTION_TIME * 5, 1, 0);
    tx.outputs[1] = cell(0x07, Some(0x10), le128(TAI - 1));
    assert_eq!(code(auction::main(&tx)), Some(0));
    let mut tx = bid_tx(MAX_AUCTION_TIME * 3 / 4, 1, 0);
    tx.outputs[1] = cell(0x07, Some(0x10), le128(TAI - 1));
    assert_eq!(code(auction::main(&tx)), Some(188));
}

#[test]
fn settlement_stays_accepted_as_the_auction_ages() {
    for t in [MAX_AUCTION_TIME * 3 / 4, MAX_AUCTION_TIME, MAX_AUCTION_TIME + 1, MAX_AUCTION_TIME * 3] {
        let mut tx = bid_tx(t, 600, 0);
        tx.outputs[1] = cell(0x07, Some(0x10), le128(400));
        assert_eq!(code(auction::main(&tx)), Some(0));
    }
}

#[test]
fn bid_error_cases() {
    let mut tx = bid_tx(MAX_AUCTION_TIME / 2, TAI, 50);
    tx.inputs[1].out_point.tx_hash = h(0xbb);
    assert_eq!(code(auction::main(&tx)), Some(118));

    let mut tx = bid_tx(MAX_AUCTION_TIME / 2, TAI, 50);
    tx.inputs[0].data = le128(UDT - 1);
    assert_eq!(code(auction::main(&tx)), Some(123));

    let mut tx = bid_tx(MAX_AUCTION_TIME / 2, TAI, 50);
    tx.inputs[2].lock_hash = h(0x12);
    assert_eq!(code(auction::main(&tx)), Some(134));

    let mut tx = bid_tx(MAX_AUCTION_TIME / 2, TAI, 50);
    tx.inputs.swap(0, 2);
    assert_eq!(code(auction::main(&tx)), Some(85));

    let mut tx = bid_tx(0, TAI, 50);
    tx.cell_deps[1] = entry(21, cat(&[&[0, 0, 0, 0], &(START + PUBLICITY_TIME - 1).to_le_bytes()]));
    assert_eq!(code(auction::main(&tx)), Some(139));

    let mut tx = bid_tx(MAX_AUCTION_TIME / 2, TAI, 50);
    tx.outputs[0].lock_hash = h(0x03);
    assert_eq!(code(auction::main(&tx)), Some(144));

    let mut tx = bid_tx(MAX_AUCTION_TIME / 2, TAI, 50);
    tx.inputs.push(cell(0x02, Some(0x06), le128(1)));
    assert_eq!(code(auction::main(&tx)), Some(155));

    let mut tx = bid_tx(MAX_AUCTION_TIME / 2, TAI, 50);
    tx.inputs.push(cell(0x02, Some(0x05), le128(TAI)));
    assert_eq!(code(auction::main(&tx)), Some(170));

    let tx = bid_tx(MAX_AUCTION_TIME / 2, TAI + 1, 50);
    assert_eq!(code(auction::main(&tx)), Some(191));

    let mut tx = bid_tx(MAX_AUCTION_TIME / 2, TAI, 50);
    tx.outputs[1].lock_hash = h(0x08);
    assert_eq!(code(auction::main(&tx)), Some(195));

    let mut tx = bid_tx(MAX_AUCTION_TIME / 2, TAI, 50);
    tx.inputs.push(cell(0x07, Some(0x06), le128(1)));
    assert_eq!(code(auction::main(&tx)), Some(205));

    let tx = bid_tx(MAX_AUCTION_TIME / 2, TAI, 101);
    assert_eq!(code(auction::main(&tx)), Some(220));

    let mut tx = bid_tx(MAX_AUCTION_TIME / 2, TAI, 50);
    tx.group_inputs[0].header_timestamp = None;
    assert_eq!(code(auction::main(&tx)), Some(2));

    let mut tx = bid_tx(MAX_AUCTION_TIME / 2, TAI, 50);
    tx.cell_deps.remove(0);
    assert_eq!(code(auction::main(&tx)), Some(1));

    let mut tx = bid_tx(MAX_AUCTION_TIME / 2, TAI, 50);
    tx.cell_deps[1] = entry(21, cat(&[&[0, 0, 0], &(START).to_le_bytes()]));
    assert_eq!(code(auction::main(&tx)), Some(100));

    let mut tx = bid_tx(MAX_AUCTION_TIME / 2, TAI, 50);
    tx.group_inputs[0].data = vec![0; 10];
    assert_eq!(code(auction::main(&tx)), Some(42));
}

#[test]
fn bid_aborts() {
    let mut tx = bid_tx(MAX_AUCTION_TIME / 2, TAI, 50);
    tx.inputs.truncate(1);
    assert_eq!(code(auction::main(&tx)), None);

    let mut tx = bid_tx(MAX_AUCTION_TIME / 2, TAI, 50);
    tx.inputs[0].lock_hash = h(0x44);
    assert_eq!(code(auction::main(&tx)), None);

    let mut tx = bid_tx(MAX_AUCTION_TIME / 2, TAI, 50);
    tx.group_outputs.push(cell(0, None, vec![]));
    assert_eq!(code(auction::main(&tx)), None);

    let mut tx = bid_tx(MAX_AUCTION_TIME / 2, TAI, 50);
    tx.inputs.push(cell(0x02, None, le128(1)));
    assert_eq!(code(auction::main(&tx)), None);

    let mut tx = bid_tx(MAX_AUCTION_TIME / 2, TAI, 50);
    tx.cell_deps[1] = entry(21, cat(&[&[0, 0, 0, 0, 9], &(START).to_le_bytes()]));
    assert_eq!(code(auction::main(&tx)), None);
}

#[test]
fn reads_collateral_amount_and_price_time() {
    let tx = bid_tx(MAX_AUCTION_TIME / 2, TAI, 50);
    assert!(matches!(get_udt_amount(&tx, Source::Input, &h(0x20), 0), Ok(UDT)));
    assert!(matches!(get_udt_amount(&tx, Source::Input, &h(0x21), 0), Err(Halt::Fail(Error { err: 85 }))));
    assert!(matches!(get_udt_amount(&tx, Source::Input, &h(0x20), 9), Err(Halt::Fail(Error { err: 1 }))));
    let t = get_time(&tx, &h(0xcf), 21);
    assert!(matches!(t, Ok(v) if v == START + PUBLICITY_TIME + MAX_AUCTION_TIME / 2));
}

fn creation_tx() -> Tx {
    let mut tx = empty_tx(h(0xcf));
    tx.cell_deps = deps(0);
    tx.group_outputs = vec![cell(0x12, Some(0x09), record())];
    tx.inputs = vec![
        cell(0x61, Some(0x20), le128(UDT)),
        cell(0x61, Some(0x08), record()),
        cell(0x62, None, vec![]),
    ];
    tx.outputs = vec![cell(0x12, Some(0x09), record()), cell(0x12, Some(0x20), le128(UDT))];
    tx
}

#[test]
fn auction_creation_is_accepted() {
    assert_eq!(code(auction::main(&creation_tx())), Some(0));
    assert_eq!(code(new_auction(&creation_tx(), &h(0xcf))), Some(0));
}

#[test]
fn auction_creation_error_cases() {
    let mut tx = creation_tx();
    tx.inputs[1].out_point.tx_hash = h(0xbc);
    assert_eq!(code(auction::main(&tx)), Some(262));
    let mut tx = creation_tx();
    tx.inputs[1].lock_hash = h(0x62);
    assert_eq!(code(auction::main(&tx)), Some(275));
    let mut tx = creation_tx();
    tx.inputs[2].lock_hash = h(0x61);
    assert_eq!(code(auction::main(&tx)), Some(277));
    let mut tx = creation_tx();
    tx.inputs[1].data = le128(3);
    assert_eq!(code(auction::main(&tx)), Some(284));
    let mut tx = creation_tx();
    tx.outputs[1].type_hash = Some(h(0x21));
    assert_eq!(code(auction::main(&tx)), Some(291));
    let mut tx = creation_tx();
    tx.outputs[1].data = vec![1, 2];
    assert_eq!(code(auction::main(&tx)), Some(293));
    let mut tx = creation_tx();
    tx.outputs[1].data = le128(UDT + 1);
    assert_eq!(code(auction::main(&tx)), Some(297));
    let mut tx = creation_tx();
    tx.inputs[1].type_hash = Some(h(0x07));
    assert_eq!(code(auction::main(&tx)), Some(301));
    let mut tx = creation_tx();
    tx.outputs[0].type_hash = None;
    assert_eq!(code(auction::main(&tx)), Some(305));
    let mut tx = creation_tx();
    tx.outputs.swap(0, 1);
    assert_eq!(code(auction::main(&tx)), Some(291));
    let mut tx = creation_tx();
    tx.outputs[0].lock_hash = h(0x13);
    assert_eq!(code(auction::main(&tx)), Some(310));
    let mut tx = creation_tx();
    tx.outputs[1].lock_hash = h(0x13);
    assert_eq!(code(auction::main(&tx)), Some(311));
    let mut tx = creation_tx();
    tx.group_outputs.push(cell(0x12, None, vec![]));
    assert_eq!(code(auction::main(&tx)), None);
    let mut tx = creation_tx();
    tx.script_args = vec![];
    assert_eq!(code(auction::main(&tx)), Some(321));
    let mut tx = creation_tx();
    tx.group_outputs.clear();
    assert_eq!(code(auction::main(&tx)), Some(1));
}

#[test]
fn bid_on_record_passed_directly() {
    let tx = bid_tx(MAX_AUCTION_TIME / 2, TAI, 50);
    assert_eq!(code(do_auction(&tx, &h(0xcf), record())), Some(0));
}
