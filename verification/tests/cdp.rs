#![allow(dead_code)]
use tai_contracts::cdp::{
    self, get_incentive_param, get_interest_hours, get_udt_and_rate, get_udt_price, parse_data, FloatCheck,
    FloatTest, Plan,
};
use tai_contracts::error::{Error, Halt};
use tai_contracts::tx::{Cell, OutPoint, Source, Tx};

fn h(b: u8) -> Vec<u8> {
    vec![b; 32]
}

fn cell(lock: u8, ty: Option<u8>, data: Vec<u8>) -> Cell {
    Cell {
        capacity: 0,
        lock_hash: h(lock),
        type_hash: ty.map(h),
        data,
        out_point: OutPoint { tx_hash: h(0xaa), index: 0 },
        header_timestamp: None,
    }
}

fn le128(v: u128) -> Vec<u8> {
    v.to_le_bytes().to_vec()
}

fn cat(parts: &[&[u8]]) -> Vec<u8> {
    let mut v = Vec::new();
    for p in parts {
        v.extend_from_slice(p);
    }
    v
}

/// A configuration entry of the configuration whose type hash is `h(0xcf)`.
fn entry(id: u32, value: Vec<u8>) -> Cell {
    cell(0x01, Some(0xcf), cat(&[&id.to_le_bytes(), &value]))
}

fn empty_tx(args: Vec<u8>) -> Tx {
    Tx {
        script_args: args,
        inputs: vec![],
        outputs: vec![],
        cell_deps: vec![],
        group_inputs: vec![],
        group_outputs: vec![],
    }
}

fn f(x: f32) -> Vec<u8> {
    x.to_le_bytes().to_vec()
}

fn bits(x: f32) -> u32 {
    x.to_bits()
}

const TAI: u128 = 1000;
const UDT: u128 = 5000;
const T1: u64 = 1_000_000;
const PRICE_TIME: u64 = T1 + 172_800_000;
const INTEREST: f32 = 0.2;

fn record(udt: u128, tai: u128, time1: u64) -> Vec<u8> {
    cat(&[&le128(tai), &le128(udt), &20u32.to_le_bytes(), &h(0x0e), &f(INTEREST), &time1.to_le_bytes()])
}

fn deps() -> Vec<Cell> {
    vec![
        entry(3, h(0x03)),
        entry(20, cat(&[&h(0x20), &f(0.5), &f(0.1)])),
        entry(1, cat(&[&f(1.0), &f(2.0)])),
        entry(21, cat(&[&f(3.0), &PRICE_TIME.to_le_bytes()])),
        entry(5, h(0x05)),
        entry(7, h(0x07)),
        entry(8, h(0x08)),
        entry(17, h(0x17)),
    ]
}

fn code(r: &Result<(), Halt<Error>>) -> Option<u32> {
    match r {
        Ok(()) => Some(0),
        Err(Halt::Fail(e)) => Some(e.err),
        Err(Halt::Abort) => None,
    }
}

fn deposit_tx() -> Tx {
    let mut tx = empty_tx(h(0xcf));
    tx.cell_deps = deps();
    let position = cell(0x03, Some(0x04), record(UDT, TAI, 0));
    tx.group_outputs = vec![position.clone()];
    tx.inputs = vec![cell(0x55, None, vec![])];
    tx.outputs = vec![cell(0x03, Some(0x20), le128(UDT)), cell(0x55, Some(0x05), le128(TAI)), position];
    tx
}

fn withdrawal_tx() -> Tx {
    let mut tx = empty_tx(h(0xcf));
    tx.cell_deps = deps();
    let position = cell(0x03, Some(0x04), record(UDT, TAI, T1));
    tx.group_inputs = vec![position.clone()];
    tx.inputs = vec![
        cell(0x03, Some(0x20), le128(UDT)),
        position,
        cell(0x0e, Some(0x05), le128(TAI + 10)),
    ];
    tx.outputs = vec![cell(0x0e, Some(0x20), le128(UDT)), cell(0x07, Some(0x05), le128(10))];
    tx
}

fn liquidation_tx() -> Tx {
    let mut tx = empty_tx(h(0xcf));
    tx.cell_deps = deps();
    let position = cell(0x03, Some(0x04), record(UDT, TAI, T1));
    tx.group_inputs = vec![position.clone()];
    tx.inputs = vec![cell(0x03, Some(0x20), le128(UDT)), position];
    let kept = UDT * 95 / 100;
    tx.outputs = vec![cell(0x17, Some(0x20), le128(kept)), cell(0x17, Some(0x08), record(kept, TAI, 0))];
    tx
}

fn rate_check() -> FloatCheck {
    FloatCheck { test: FloatTest::BelowOne { x: bits(0.5) }, code: 39 }
}

#[test]
fn parses_a_position_record() {
    let r = parse_data(&record(UDT, TAI, T1));
    let (u, t, id, owner, interest, time) = match r {
        Ok(v) => v,
        Err(_) => panic!("record should parse"),
    };
    assert_eq!((u, t, id, interest, time), (UDT, TAI, 20, bits(INTEREST), T1));
    assert_eq!(owner, h(0x0e));
    assert!(matches!(parse_data(&vec![0u8; 71]), Err(Halt::Fail(Error { err: 81 }))));
    assert!(matches!(parse_data(&vec![0u8; 79]), Err(Halt::Abort)));
    assert!(matches!(parse_data(&vec![0u8; 81]), Err(Halt::Abort)));
}

#[test]
fn reads_token_and_price_entries() {
    let tx = deposit_tx();
    let mut checks = Vec::new();
    let r = get_udt_and_rate(&tx, &h(0xcf), 20, &mut checks);
    match r {
        Ok((hash, second, first)) => {
            assert_eq!(hash, h(0x20));
            assert_eq!(second, bits(0.1));
            assert_eq!(first, bits(0.5));
        }
        Err(_) => panic!("entry should be read"),
    }
    assert_eq!(checks, vec![rate_check()]);
    let mut checks = Vec::new();
    assert!(matches!(get_udt_and_rate(&tx, &h(0xcf), 21, &mut checks), Err(Halt::Fail(Error { err: 29 }))));
    assert!(checks.is_empty());
    assert!(matches!(get_incentive_param(&tx, &h(0xcf)), Ok((a, b)) if a == bits(1.0) && b == bits(2.0)));
    assert!(matches!(get_udt_price(&tx, &h(0xcf), 21), Ok((p, t)) if p == bits(3.0) && t == PRICE_TIME));
    assert!(matches!(get_udt_price(&tx, &h(0xcf), 20), Err(Halt::Abort)));
    assert!(matches!(get_udt_price(&tx, &h(0xcf), 3), Err(Halt::Abort)));
    assert!(matches!(get_udt_price(&tx, &h(0xcf), 1), Err(Halt::Fail(Error { err: 64 }))));
}

#[test]
fn interest_counts_whole_hours_plus_a_day() {
    assert_eq!(get_interest_hours(T1, PRICE_TIME), 72);
    assert_eq!(get_interest_hours(T1, T1 + 3_599_999), 24);
    assert_eq!(get_interest_hours(T1, T1 + 3_600_000), 25);
    assert_eq!(get_interest_hours(PRICE_TIME, T1), 24);
    assert_eq!(get_interest_hours(T1, T1), 24);
}

#[test]
fn deposit_plan_lists_its_comparisons() {
    let plan: Plan = cdp::main(&deposit_tx());
    assert_eq!(code(&plan.end), Some(0));
    assert_eq!(
        plan.checks,
        vec![
            rate_check(),
            FloatCheck {
                test: FloatTest::InterestCovers { user: bits(INTEREST), base: bits(0.5), incentive: bits(1.0) },
                code: 188,
            },
            FloatCheck {
                test: FloatTest::CollateralCovers { udt_amount: UDT, price: bits(3.0), rate: bits(0.1), tai_amount: TAI },
                code: 208,
            },
        ]
    );
}

#[test]
fn deposit_error_cases() {
    let mut tx = deposit_tx();
    tx.group_outputs[0].lock_hash = h(0x04);
    assert_eq!(code(&cdp::main(&tx).end), Some(180));
    let mut tx = deposit_tx();
    tx.outputs[0].lock_hash = h(0x04);
    assert_eq!(code(&cdp::main(&tx).end), Some(182));
    let mut tx = deposit_tx();
    tx.group_outputs[0].data = record(UDT, TAI, 5);
    let p = cdp::main(&tx);
    assert_eq!(code(&p.end), Some(191));
    assert_eq!(p.checks.len(), 2);
    let mut tx = deposit_tx();
    tx.group_outputs[0].data = record(UDT, TAI, PRICE_TIME);
    assert_eq!(code(&cdp::main(&tx).end), Some(0));
    let mut tx = deposit_tx();
    tx.outputs[0].type_hash = None;
    assert_eq!(code(&cdp::main(&tx).end), Some(194));
    let mut tx = deposit_tx();
    tx.outputs[0].data = le128(UDT + 1);
    assert_eq!(code(&cdp::main(&tx).end), Some(200));
    let mut tx = deposit_tx();
    tx.group_outputs[0].data = record(100, TAI, 0);
    tx.outputs[0].data = le128(100);
    assert_eq!(code(&cdp::main(&tx).end), Some(201));
    let mut tx = deposit_tx();
    tx.inputs.push(cell(0x56, Some(0x05), le128(TAI)));
    let p = cdp::main(&tx);
    assert_eq!(code(&p.end), Some(214));
    assert_eq!(p.checks.len(), 3);
    let mut tx = deposit_tx();
    tx.outputs[1].data = le128(TAI + 1);
    assert_eq!(code(&cdp::main(&tx).end), Some(215));
    let mut tx = deposit_tx();
    tx.group_outputs[0].data = record(UDT, TAI, 0)[..70].to_vec();
    let p = cdp::main(&tx);
    assert_eq!(code(&p.end), Some(81));
    assert!(p.checks.is_empty());
    let mut tx = deposit_tx();
    tx.group_inputs.push(cell(0x03, None, vec![]));
    assert_eq!(code(&cdp::main(&tx).end), None);
    let mut tx = deposit_tx();
    tx.script_args = vec![];
    assert_eq!(code(&cdp::main(&tx).end), Some(494));
}

#[test]
fn withdrawal_plan_lists_its_comparisons() {
    let plan = cdp::main(&withdrawal_tx());
    assert_eq!(code(&plan.end), Some(0));
    assert_eq!(
        plan.checks,
        vec![
            rate_check(),
            FloatCheck {
                test: FloatTest::FeeCovers {
                    fee: 10,
                    tai_amount: TAI,
                    user: bits(INTEREST),
                    incentive: bits(2.0),
                    hours: 72,
                },
                code: 355,
            },
        ]
    );
}

#[test]
fn withdrawal_error_cases() {
    let mut tx = withdrawal_tx();
    tx.inputs[1].lock_hash = h(0x09);
    assert_eq!(code(&cdp::main(&tx).end), Some(246));
    let mut tx = withdrawal_tx();
    tx.inputs[2].lock_hash = h(0x03);
    assert_eq!(code(&cdp::main(&tx).end), Some(248));
    let mut tx = withdrawal_tx();
    tx.group_inputs[0].lock_hash = h(0x09);
    assert_eq!(code(&cdp::main(&tx).end), Some(252));
    let mut tx = withdrawal_tx();
    tx.inputs[1].out_point.tx_hash = h(0xab);
    assert_eq!(code(&cdp::main(&tx).end), Some(259));
    let mut tx = withdrawal_tx();
    tx.inputs[0].type_hash = Some(h(0x21));
    assert_eq!(code(&cdp::main(&tx).end), Some(266));
    let mut tx = withdrawal_tx();
    tx.inputs[0].data = le128(1);
    assert_eq!(code(&cdp::main(&tx).end), Some(274));
    let mut tx = withdrawal_tx();
    tx.inputs[2].lock_hash = h(0x31);
    tx.outputs[0].lock_hash = h(0x32);
    assert_eq!(code(&cdp::main(&tx).end), Some(281));
    let mut tx = withdrawal_tx();
    tx.inputs[2].lock_hash = h(0x31);
    assert_eq!(code(&cdp::main(&tx).end), Some(0));
    tx.outputs[0].type_hash = Some(h(0x21));
    assert_eq!(code(&cdp::main(&tx).end), Some(284));
    let mut tx = withdrawal_tx();
    tx.inputs[2].lock_hash = h(0x31);
    tx.outputs[0].data = le128(UDT - 1);
    assert_eq!(code(&cdp::main(&tx).end), Some(289));
    let mut tx = withdrawal_tx();
    tx.inputs[2].data = le128(10);
    assert_eq!(code(&cdp::main(&tx).end), Some(296));
    let mut tx = withdrawal_tx();
    tx.inputs[2].data = le128(TAI + 11);
    assert_eq!(code(&cdp::main(&tx).end), Some(297));
    let mut tx = withdrawal_tx();
    tx.outputs[1].type_hash = Some(h(0x06));
    tx.outputs.push(cell(0x07, Some(0x05), le128(10)));
    assert_eq!(code(&cdp::main(&tx).end), Some(301));
    let mut tx = withdrawal_tx();
    tx.outputs[1].lock_hash = h(0x08);
    assert_eq!(code(&cdp::main(&tx).end), Some(305));
    let mut tx = withdrawal_tx();
    tx.inputs.push(cell(0x07, Some(0x06), vec![]));
    assert_eq!(code(&cdp::main(&tx).end), Some(315));
    let mut tx = withdrawal_tx();
    tx.inputs.push(cell(0x07, Some(0x05), le128(10)));
    tx.outputs[1].data = le128(20);
    let p = cdp::main(&tx);
    assert_eq!(code(&p.end), Some(0));
    tx.outputs[1].data = le128(10);
    tx.inputs[2].data = le128(TAI);
    assert_eq!(code(&cdp::main(&tx).end), Some(332));
    let mut tx = withdrawal_tx();
    tx.outputs[1].type_hash = None;
    assert_eq!(code(&cdp::main(&tx).end), Some(297));
    tx.outputs.push(cell(0x07, Some(0x05), le128(10)));
    assert_eq!(code(&cdp::main(&tx).end), None);
    let mut tx = withdrawal_tx();
    tx.group_inputs[0].data = record(UDT, TAI, 0);
    tx.inputs[1].header_timestamp = Some(PRICE_TIME - 7_200_000);
    let p = cdp::main(&tx);
    assert_eq!(code(&p.end), Some(0));
    assert!(matches!(p.checks[1].test, FloatTest::FeeCovers { hours: 26, .. }));
    tx.inputs[1].header_timestamp = None;
    assert_eq!(code(&cdp::main(&tx).end), Some(2));
}

#[test]
fn liquidation_plan_lists_its_comparisons() {
    let plan = cdp::main(&liquidation_tx());
    assert_eq!(code(&plan.end), Some(0));
    assert_eq!(
        plan.checks,
        vec![
            rate_check(),
            FloatCheck {
                test: FloatTest::Liquidatable { udt_amount: UDT, price: bits(3.0), rate: bits(0.1), tai_amount: TAI },
                code: 471,
            },
        ]
    );
}

#[test]
fn liquidation_error_cases() {
    let mut tx = liquidation_tx();
    tx.inputs[0].lock_hash = h(0x09);
    tx.outputs[0].lock_hash = h(0x17);
    assert_eq!(code(&cdp::main(&tx).end), Some(387));
    let mut tx = liquidation_tx();
    tx.inputs.push(cell(0x03, None, vec![]));
    assert_eq!(code(&cdp::main(&tx).end), Some(389));
    let mut tx = liquidation_tx();
    tx.outputs[1].lock_hash = h(0x18);
    assert_eq!(code(&cdp::main(&tx).end), Some(427));
    let mut tx = liquidation_tx();
    tx.outputs.push(cell(0x17, None, vec![]));
    assert_eq!(code(&cdp::main(&tx).end), Some(429));
    let mut tx = liquidation_tx();
    tx.outputs[1].data = record(UDT, TAI, 0);
    assert_eq!(code(&cdp::main(&tx).end), Some(436));
    let mut tx = liquidation_tx();
    tx.outputs[1].data = record(UDT * 95 / 100, TAI + 1, 0);
    assert_eq!(code(&cdp::main(&tx).end), Some(438));
    let mut tx = liquidation_tx();
    tx.outputs[1].type_hash = Some(h(0x09));
    assert_eq!(code(&cdp::main(&tx).end), Some(443));
    let mut tx = liquidation_tx();
    tx.outputs[0].type_hash = Some(h(0x09));
    assert_eq!(code(&cdp::main(&tx).end), Some(447));
    let mut tx = liquidation_tx();
    tx.outputs[0].data = le128(1);
    assert_eq!(code(&cdp::main(&tx).end), Some(452));
    let mut tx = liquidation_tx();
    tx.outputs.push(cell(0x44, Some(0x05), le128(1)));
    let p = cdp::main(&tx);
    assert_eq!(code(&p.end), Some(475));
    assert_eq!(p.checks.len(), 2);
    let mut tx = liquidation_tx();
    tx.inputs[0].data = le128(UDT + 1);
    assert_eq!(code(&cdp::main(&tx).end), Some(413));
}

#[test]
fn liquidation_accepts_more_than_the_recorded_share() {
    let mut tx = liquidation_tx();
    tx.outputs[0].data = le128(UDT);
    assert_eq!(code(&cdp::main(&tx).end), Some(0));
    let mut tx = liquidation_tx();
    tx.outputs[0].data = le128(UDT * 95 / 100 + 1);
    assert_eq!(code(&cdp::main(&tx).end), Some(0));
    let mut tx = liquidation_tx();
    tx.outputs[0].data = le128(UDT * 95 / 100 - 1);
    assert_eq!(code(&cdp::main(&tx).end), Some(452));
}

#[test]
fn token_sum_does_not_depend_on_cell_positions() {
    let mut tx = empty_tx(h(0xcf));
    tx.outputs = vec![
        cell(0x01, Some(0x05), le128(10)),
        cell(0x02, Some(0x06), le128(1000)),
        cell(0x03, Some(0x05), le128(32)),
    ];
    assert!(matches!(cdp::get_udt_amount(&tx, Source::Output, &h(0x05)), Ok(42)));
    for k in 0..=tx.outputs.len() {
        let mut t = tx.clone();
        t.outputs.insert(k, cell(0x09, Some(0x05), le128(7)));
        assert!(matches!(cdp::get_udt_amount(&t, Source::Output, &h(0x05)), Ok(49)));
        let mut t = tx.clone();
        t.outputs.insert(k, cell(0x09, Some(0x06), le128(7)));
        assert!(matches!(cdp::get_udt_amount(&t, Source::Output, &h(0x05)), Ok(42)));
        let mut t = tx.clone();
        t.outputs.insert(k, cell(0x09, Some(0x05), vec![1, 2, 3]));
        assert!(matches!(cdp::get_udt_amount(&t, Source::Output, &h(0x05)), Err(Halt::Abort)));
        let mut t = tx.clone();
        t.outputs.insert(k, cell(0x09, Some(0x05), le128(u128::MAX - 41)));
        assert!(matches!(cdp::get_udt_amount(&t, Source::Output, &h(0x05)), Err(Halt::Abort)));
    }
}
