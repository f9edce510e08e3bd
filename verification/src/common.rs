//! Steps shared by the scripts that exit with numbered errors.
use vstd::prelude::*;
use crate::bytes::{le_at, read_u128_le, bytes_eq, copy_range};
use crate::config::{config_data, get_config_data};
use crate::error::{Error, Halt, SysErrorKind, sys_error_code};
use crate::tx::{Cell, Source, Tx, type_hash_or_zero, type_hash_or_zero_eq};

verus! {

/// Length of a token amount (a little-endian `u128`) at the start of a cell's data.
pub const UDT_LEN: usize = 16;

/// Length of a script hash.
pub const SCRIPT_LEN: usize = 32;

/// The halt that a syscall error causes: the script returns its number.
pub open spec fn sys_halt(e: SysErrorKind) -> Halt<Error> {
    Halt::Fail(Error { err: sys_error_code(e) })
}

/// The halt of a failed requirement with exit code `code`.
pub open spec fn fail(code: u32) -> Halt<Error> {
    Halt::Fail(Error { err: code })
}

/// Whether a syscall error is one that the snapshot can report.
pub open spec fn known(e: SysErrorKind) -> bool {
    e == SysErrorKind::IndexOutOfBound || e == SysErrorKind::ItemMissing
}

/// A byte-string result seen through its view.
pub open spec fn bytes_res(r: Result<Vec<u8>, Halt<Error>>) -> Result<Seq<u8>, Halt<Error>> {
    match r {
        Ok(v) => Ok(v@),
        Err(h) => Err(h),
    }
}

/// The halt that a syscall error of the snapshot causes.
pub fn halt_of_sys(e: SysErrorKind) -> (r: Halt<Error>)
    requires
        known(e),
    ensures
        r == sys_halt(e),
{
    Halt::Fail(Error::from_sys(e))
}

/// The halt of a failed requirement with exit code `code`.
pub fn fail_with(code: u32) -> (r: Halt<Error>)
    ensures
        r == fail(code),
{
    Halt::Fail(Error { err: code })
}

/// The configuration value `index` with the configuration script `conf`, failing with its syscall error.
pub open spec fn config_value(tx: Tx, conf: Seq<u8>, index: u32) -> Result<Seq<u8>, Halt<Error>> {
    match config_data(tx.cell_deps@, conf, index) {
        Ok(d) => Ok(d),
        Err(e) => Err(sys_halt(e)),
    }
}

/// The script hash at the start of configuration value `index`; a value shorter than a hash aborts.
pub open spec fn config_hash(tx: Tx, conf: Seq<u8>, index: u32) -> Result<Seq<u8>, Halt<Error>> {
    match config_value(tx, conf, index) {
        Ok(d) => if d.len() < 32 {
            Err(Halt::Abort)
        } else {
            Ok(d.take(32))
        },
        Err(h) => Err(h),
    }
}

/// The configuration value `index` with the configuration script `conf`.
pub fn get_config_value(tx: &Tx, conf: &[u8], index: u32) -> (r: Result<Vec<u8>, Halt<Error>>)
    ensures
        bytes_res(r) == config_value(*tx, conf@, index),
{
    match get_config_data(tx, conf, index) {
        Ok(v) => Ok(v),
        Err(e) => Err(halt_of_sys(e)),
    }
}

/// The script hash at the start of configuration value `index`.
pub fn get_config_hash(tx: &Tx, conf: &[u8], index: u32) -> (r: Result<Vec<u8>, Halt<Error>>)
    ensures
        bytes_res(r) == config_hash(*tx, conf@, index),
{
    let d = get_config_value(tx, conf, index)?;
    if d.len() < 32 {
        return Err(Halt::Abort);
    }
    let h = copy_range(d.as_slice(), 0, 32);
    proof {
        assert(h@ =~= d@.take(32));
    }
    Ok(h)
}

/// The token amount at the start of the data `d`.
pub open spec fn amount(d: Seq<u8>) -> u128 {
    le_at(d, 0, 16) as u128
}

/// Reads the token amount at the start of `d`.
pub fn read_amount(d: &[u8]) -> (r: u128)
    requires
        d@.len() >= 16,
    ensures
        r == amount(d@),
{
    read_u128_le(d, 0)
}

/// Loading cell `i` of `src`, failing with its syscall error.
pub open spec fn cell_at(tx: Tx, src: Source, i: int) -> Result<Cell, Halt<Error>> {
    match tx.spec_cell(src, i) {
        Ok(c) => Ok(c),
        Err(e) => Err(sys_halt(e)),
    }
}

/// Loads cell `i` of `src`.
pub fn load_cell(tx: &Tx, src: Source, i: usize) -> (r: Result<&Cell, Halt<Error>>)
    ensures
        match r {
            Ok(c) => cell_at(*tx, src, i as int) == Ok::<Cell, Halt<Error>>(*c),
            Err(h) => cell_at(*tx, src, i as int) == Err::<Cell, Halt<Error>>(h),
        },
{
    match tx.cell(src, i) {
        Ok(c) => Ok(c),
        Err(e) => Err(halt_of_sys(e)),
    }
}

/// Whether two optional type hashes are equal.
pub open spec fn same_type(a: Option<Vec<u8>>, b: Option<Vec<u8>>) -> bool {
    match (a, b) {
        (Some(x), Some(y)) => x@ == y@,
        (None, None) => true,
        _ => false,
    }
}

/// Whether two optional type hashes are equal.
pub fn same_type_eq(a: &Option<Vec<u8>>, b: &Option<Vec<u8>>) -> (r: bool)
    ensures
        r == same_type(*a, *b),
{
    match (a, b) {
        (Some(x), Some(y)) => bytes_eq(x.as_slice(), y.as_slice()),
        (None, None) => true,
        _ => false,
    }
}

/// Sum of the token amounts of the cells of `cells` from `i` on whose lock
/// hash is `lock`, added to `acc`.  Such a cell must have a type script
/// (else abort) whose hash is `token` (else fail with `code`) and hold an
/// amount (else abort); the sum must fit in `u128` (else abort).
pub open spec fn locked_amount_sum(
    cells: Seq<Cell>,
    lock: Seq<u8>,
    token: Seq<u8>,
    code: u32,
    i: int,
    acc: u128,
) -> Result<u128, Halt<Error>>
    decreases cells.len() - i,
{
    if i < 0 || i >= cells.len() {
        Ok(acc)
    } else if cells[i].lock_hash@ != lock {
        locked_amount_sum(cells, lock, token, code, i + 1, acc)
    } else {
        match cells[i].type_hash {
            None => Err(Halt::Abort),
            Some(t) => if t@ != token {
                Err(fail(code))
            } else if cells[i].data@.len() < 16 {
                Err(Halt::Abort)
            } else if acc + amount(cells[i].data@) > u128::MAX {
                Err(Halt::Abort)
            } else {
                locked_amount_sum(cells, lock, token, code, i + 1, (acc + amount(cells[i].data@)) as u128)
            },
        }
    }
}

/// The total of the token amounts of the cells of `src` under the lock `lock`.
pub fn sum_locked_amounts(tx: &Tx, src: Source, lock: &[u8], token: &[u8], code: u32) -> (r: Result<u128, Halt<Error>>)
    ensures
        r == locked_amount_sum(tx.cells(src), lock@, token@, code, 0, 0),
{
    let cells = tx.cells_of(src);
    let mut acc: u128 = 0;
    let mut i: usize = 0;
    while i < cells.len()
        invariant
            cells@ == tx.cells(src),
            i <= cells@.len(),
            locked_amount_sum(cells@, lock@, token@, code, 0, 0)
                == locked_amount_sum(cells@, lock@, token@, code, i as int, acc),
        decreases cells@.len() - i,
    {
        let c = &cells[i];
        if bytes_eq(c.lock_hash.as_slice(), lock) {
            match &c.type_hash {
                None => {
                    return Err(Halt::Abort);
                },
                Some(t) => {
                    if !bytes_eq(t.as_slice(), token) {
                        return Err(fail_with(code));
                    }
                    if c.data.len() < 16 {
                        return Err(Halt::Abort);
                    }
                    let v = read_amount(c.data.as_slice());
                    if v > u128::MAX - acc {
                        return Err(Halt::Abort);
                    }
                    acc = acc + v;
                },
            }
        }
        i = i + 1;
    }
    Ok(acc)
}

/// Sum of the token amounts of the cells of `cells` from `i` on whose type
/// hash (thirty-two zeros when missing) is `token`, added to `acc`; a short
/// amount or a sum past `u128` aborts.
pub open spec fn typed_amount_sum(cells: Seq<Cell>, token: Seq<u8>, i: int, acc: u128) -> Result<u128, Halt<Error>>
    decreases cells.len() - i,
{
    if i < 0 || i >= cells.len() {
        Ok(acc)
    } else if type_hash_or_zero(cells[i]) != token {
        typed_amount_sum(cells, token, i + 1, acc)
    } else if cells[i].data@.len() < 16 {
        Err(Halt::Abort)
    } else if acc + amount(cells[i].data@) > u128::MAX {
        Err(Halt::Abort)
    } else {
        typed_amount_sum(cells, token, i + 1, (acc + amount(cells[i].data@)) as u128)
    }
}

/// The total amount of token `token` in the cells of `src`.
pub fn sum_typed_amounts(tx: &Tx, src: Source, token: &[u8]) -> (r: Result<u128, Halt<Error>>)
    ensures
        r == typed_amount_sum(tx.cells(src), token@, 0, 0),
{
    let cells = tx.cells_of(src);
    let mut acc: u128 = 0;
    let mut i: usize = 0;
    while i < cells.len()
        invariant
            cells@ == tx.cells(src),
            i <= cells@.len(),
            typed_amount_sum(cells@, token@, 0, 0) == typed_amount_sum(cells@, token@, i as int, acc),
        decreases cells@.len() - i,
    {
        let c = &cells[i];
        if type_hash_or_zero_eq(c, token) {
            if c.data.len() < 16 {
                return Err(Halt::Abort);
            }
            let v = read_amount(c.data.as_slice());
            if v > u128::MAX - acc {
                return Err(Halt::Abort);
            }
            acc = acc + v;
        }
        i = i + 1;
    }
    Ok(acc)
}

} // verus!
