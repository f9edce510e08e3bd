#![allow(dead_code)]
use tai_contracts::bytes::{bytes_eq, copy_range, read_le, read_u128_le, read_u32_le, read_u64_le};
use tai_contracts::config::{get_cell_time, get_config_data, get_deps_data, get_time_of_config, ID, ID_LEN};
use tai_contracts::error::{
    named_exit_code, numbered_exit_code, PANIC_EXIT_CODE,
    halt_of_sys_kind, script_halt_of_sys_kind, Error, Halt,
    ScriptError, SysErrorKind,
};
use tai_contracts::tx::{out_point_to_bytes, type_hash_or_zero_eq, Source};
use tai_contracts::tx::{Cell, OutPoint, Tx};

fn h(b: u8) -> Vec<u8> {
    vec![b; 32]
}

fn cell(lock: u8, ty: Option<u8>, data: Vec<u8>) -> Cell {
    Cell {
        capacity: 0,
        lock_hash: h(lock),
        type_hash: ty.map(h),
        data,
        out_point: OutPoint { tx_hash: h(0xaa), index: 0 },
        header_timestamp: None,
    }
}

fn le128(v: u128) -> Vec<u8> {
    v.to_le_bytes().to_vec()
}

fn cat(parts: &[&[u8]]) -> Vec<u8> {
    let mut v = Vec::new();
    for p in parts {
        v.extend_from_slice(p);
    }
    v
}

/// A configuration entry of the configuration whose type hash is `h(0xcf)`.
fn entry(id: u32, value: Vec<u8>) -> Cell {
    cell(0x01, Some(0xcf), cat(&[&id.to_le_bytes(), &value]))
}

fn empty_tx(args: Vec<u8>) -> Tx {
    Tx {
        script_args: args,
        inputs: vec![],
        outputs: vec![],
        cell_deps: vec![],
        group_inputs: vec![],
        group_outputs: vec![],
    }
}

#[test]
fn reads_little_endian_integers() {
    let b = [0x01u8, 0x02, 0x03, 0x04, 0x05, 0x06, 0x07, 0x08, 0x09];
    assert_eq!(read_u32_le(&b, 0), 0x0403_0201);
    assert_eq!(read_u32_le(&b, 1), 0x0504_0302);
    assert_eq!(read_u64_le(&b, 1), 0x0908_0706_0504_0302);
    assert_eq!(read_le(&b, 2, 3), 0x05_0403);
    assert_eq!(read_le(&b, 2, 0), 0);
    let big = u128::MAX - 5;
    assert_eq!(read_u128_le(&big.to_le_bytes(), 0), big);
    assert_eq!(read_u32_le(&u32::MAX.to_le_bytes(), 0), u32::MAX);
}

#[test]
fn compares_and_copies_bytes() {
    assert!(bytes_eq(&[1, 2, 3], &[1, 2, 3]));
    assert!(!bytes_eq(&[1, 2, 3], &[1, 2, 4]));
    assert!(!bytes_eq(&[1, 2], &[1, 2, 3]));
    assert!(bytes_eq(&[], &[]));
    assert_eq!(copy_range(&[1, 2, 3, 4], 1, 3), vec![2, 3]);
}

#[test]
fn identifiers_have_their_numbers() {
    assert_eq!(ID::IncentiveParam.number(), 1);
    assert_eq!(ID::BurnLock.number(), 2);
    assert_eq!(ID::TAIType.number(), 5);
    assert_eq!(ID::CommunityLock.number(), 7);
    assert_eq!(ID::AuctionLock.number(), 12);
    assert_eq!(ID::DAOUDT.number(), 16);
    assert_eq!(ID::DebtLock.number(), 17);
    assert_eq!(ID_LEN, 4);
}

#[test]
fn config_lookup_gives_first_matching_entry() {
    let mut tx = empty_tx(h(0xcf));
    tx.cell_deps = vec![
        cell(0x01, Some(0x11), cat(&[&5u32.to_le_bytes(), &[9, 9]])),
        entry(4, vec![1, 1]),
        cell(0x01, Some(0xcf), vec![5, 0]),
        entry(5, vec![2, 2, 2]),
        entry(5, vec![3]),
    ];
    assert_eq!(get_config_data(&tx, &h(0xcf), 5), Ok(vec![2, 2, 2]));
    assert_eq!(get_config_data(&tx, &h(0xcf), 4), Ok(vec![1, 1]));
    assert_eq!(get_config_data(&tx, &h(0xcf), 6), Err(SysErrorKind::IndexOutOfBound));
    assert_eq!(get_config_data(&tx, &h(0x11), 5), Ok(vec![9, 9]));
}

#[test]
fn config_lookup_reads_missing_type_as_zeros() {
    let mut tx = empty_tx(vec![]);
    tx.cell_deps = vec![cell(0x01, None, cat(&[&3u32.to_le_bytes(), &[7]]))];
    assert_eq!(get_config_data(&tx, &[0u8; 32], 3), Ok(vec![7]));
    assert_eq!(get_config_data(&tx, &[0u8; 31], 3), Err(SysErrorKind::IndexOutOfBound));
    assert!(type_hash_or_zero_eq(&tx.cell_deps[0], &[0u8; 32]));
    assert!(!type_hash_or_zero_eq(&tx.cell_deps[0], &h(1)));
}

#[test]
fn config_time_and_deps_data() {
    let mut tx = empty_tx(vec![]);
    let mut e = entry(8, vec![1]);
    e.header_timestamp = Some(77);
    tx.cell_deps = vec![cell(0x01, Some(0x22), vec![4, 4]), entry(9, vec![]), e];
    assert_eq!(get_time_of_config(&tx, &h(0xcf), 8), Ok(77));
    assert_eq!(get_time_of_config(&tx, &h(0xcf), 9), Err(SysErrorKind::ItemMissing));
    assert_eq!(get_time_of_config(&tx, &h(0xcf), 10), Err(SysErrorKind::IndexOutOfBound));
    assert_eq!(get_deps_data(&tx, &h(0x22)), Ok(vec![4, 4]));
    assert_eq!(get_deps_data(&tx, &h(0x23)), Err(SysErrorKind::IndexOutOfBound));
    assert_eq!(get_cell_time(&tx, Source::CellDep, 2), Ok(77));
    assert_eq!(get_cell_time(&tx, Source::CellDep, 3), Err(SysErrorKind::IndexOutOfBound));
    assert_eq!(get_cell_time(&tx, Source::Input, 0), Err(SysErrorKind::IndexOutOfBound));
}

#[test]
fn out_point_serializes_hash_then_index() {
    let o = tai_contracts::tx::OutPoint { tx_hash: h(0x5a), index: 0x0102_0304 };
    let b = out_point_to_bytes(&o);
    assert_eq!(b.len(), 36);
    assert_eq!(&b[..32], &h(0x5a)[..]);
    assert_eq!(&b[32..], &[4, 3, 2, 1]);
}

#[test]
fn syscall_errors_become_script_errors() {
    let code = |h: Halt<Error>| match h {
        Halt::Fail(e) => Some(e.err),
        Halt::Abort => None,
    };
    assert_eq!(code(halt_of_sys_kind(SysErrorKind::IndexOutOfBound)), Some(1));
    assert_eq!(code(halt_of_sys_kind(SysErrorKind::ItemMissing)), Some(2));
    assert_eq!(code(halt_of_sys_kind(SysErrorKind::LengthNotEnough(9))), Some(3));
    assert_eq!(code(halt_of_sys_kind(SysErrorKind::Encoding)), Some(4));
    assert_eq!(code(halt_of_sys_kind(SysErrorKind::Unknown(77))), None);
    assert_eq!(code(halt_of_sys_kind(SysErrorKind::WaitFailure)), None);
    assert!(matches!(script_halt_of_sys_kind(SysErrorKind::ItemMissing), Halt::Fail(ScriptError::ItemMissing)));
    assert!(matches!(script_halt_of_sys_kind(SysErrorKind::Unknown(3)), Halt::Abort));
    assert_eq!(Error::from(42u32).err, 42);
    assert_eq!(Error::from_sys(SysErrorKind::Encoding).err, 4);
}

#[test]
fn exit_codes_of_outcomes() {
    assert_eq!(numbered_exit_code(&Ok(())), 0);
    assert_eq!(numbered_exit_code(&Err(Halt::Fail(Error { err: 42 }))), 42);
    assert_eq!(numbered_exit_code(&Err(Halt::Fail(Error { err: 321 }))), 321u32 as i8);
    assert_eq!(numbered_exit_code(&Err(Halt::Abort)), PANIC_EXIT_CODE);
    assert_eq!(named_exit_code(&Ok(())), 0);
    assert_eq!(named_exit_code(&Err(Halt::Fail(ScriptError::IndexOutOfBound))), 1);
    assert_eq!(named_exit_code(&Err(Halt::Fail(ScriptError::ErrorArgs))), 16);
    assert_eq!(named_exit_code(&Err(Halt::Abort)), -1);
    assert_eq!(ScriptError::ErrAmount.code(), 13);
}
