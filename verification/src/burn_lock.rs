//! The burn lock: tokens under it can only be spent into more of the same
//! token under the same lock, so they never leave it.
use vstd::prelude::*;
use crate::bytes::bytes_eq;
use crate::common::{amount, read_amount};
use crate::error::{Halt, ScriptError};
use crate::tx::{Cell, Tx, has_type, has_type_eq};

verus! {

/// Sum of the amounts of the cells from `i` on, added to `acc`; every cell
/// must have the type `udt` and hold an amount, and the sum must fit in
/// `u128` (else abort).
pub open spec fn group_sum(cells: Seq<Cell>, udt: Seq<u8>, i: int, acc: u128) -> Result<u128, Halt<ScriptError>>
    decreases cells.len() - i,
{
    if i < 0 || i >= cells.len() {
        Ok(acc)
    } else if !has_type(cells[i], udt) || cells[i].data@.len() < 16 || acc + amount(cells[i].data@) > u128::MAX {
        Err(Halt::Abort)
    } else {
        group_sum(cells, udt, i + 1, (acc + amount(cells[i].data@)) as u128)
    }
}

/// Sum of the amounts of the cells from `i` on under `lock`, added to
/// `acc`; each must have the type `udt` and hold an amount, and the sum must
/// fit in `u128` (else abort).
pub open spec fn locked_sum(cells: Seq<Cell>, lock: Seq<u8>, udt: Seq<u8>, i: int, acc: u128) -> Result<u128, Halt<ScriptError>>
    decreases cells.len() - i,
{
    if i < 0 || i >= cells.len() {
        Ok(acc)
    } else if cells[i].lock_hash@ != lock {
        locked_sum(cells, lock, udt, i + 1, acc)
    } else if !has_type(cells[i], udt) || cells[i].data@.len() < 16 || acc + amount(cells[i].data@) > u128::MAX {
        Err(Halt::Abort)
    } else {
        locked_sum(cells, lock, udt, i + 1, (acc + amount(cells[i].data@)) as u128)
    }
}

fn sum_group(cells: &Vec<Cell>, udt: &[u8]) -> (r: Result<u128, Halt<ScriptError>>)
    ensures
        r == group_sum(cells@, udt@, 0, 0),
{
    let mut acc: u128 = 0;
    let mut i: usize = 0;
    while i < cells.len()
        invariant
            i <= cells@.len(),
            group_sum(cells@, udt@, 0, 0) == group_sum(cells@, udt@, i as int, acc),
        decreases cells@.len() - i,
    {
        let c = &cells[i];
        if !has_type_eq(c, udt) || c.data.len() < 16 {
            return Err(Halt::Abort);
        }
        let v = read_amount(c.data.as_slice());
        if v > u128::MAX - acc {
            return Err(Halt::Abort);
        }
        acc = acc + v;
        i = i + 1;
    }
    Ok(acc)
}

fn sum_locked(cells: &Vec<Cell>, lock: &[u8], udt: &[u8]) -> (r: Result<u128, Halt<ScriptError>>)
    ensures
        r == locked_sum(cells@, lock@, udt@, 0, 0),
{
    let mut acc: u128 = 0;
    let mut i: usize = 0;
    while i < cells.len()
        invariant
            i <= cells@.len(),
            locked_sum(cells@, lock@, udt@, 0, 0) == locked_sum(cells@, lock@, udt@, i as int, acc),
        decreases cells@.len() - i,
    {
        let c = &cells[i];
        if bytes_eq(c.lock_hash.as_slice(), lock) {
            if !has_type_eq(c, udt) || c.data.len() < 16 {
                return Err(Halt::Abort);
            }
            let v = read_amount(c.data.as_slice());
            if v > u128::MAX - acc {
                return Err(Halt::Abort);
            }
            acc = acc + v;
        }
        i = i + 1;
    }
    Ok(acc)
}

/// What the burn lock decides: its arguments are the token's type hash; the
/// outputs under the same lock hold more of the token than the inputs under it.
pub open spec fn spec_main(tx: Tx) -> Result<(), Halt<ScriptError>> {
    let args = tx.script_args@;
    if args.len() == 0 {
        Err(Halt::Fail(ScriptError::ErrArgs))
    } else if args.len() != 32 {
        Err(Halt::Abort)
    } else {
        match group_sum(tx.group_inputs@, args, 0, 0) {
            Err(h) => Err(h),
            Ok(input_amount) => if tx.group_inputs@.len() == 0 {
                Err(Halt::Fail(ScriptError::IndexOutOfBound))
            } else {
                match locked_sum(tx.outputs@, tx.group_inputs@[0].lock_hash@, args, 0, 0) {
                    Err(h) => Err(h),
                    Ok(output_amount) => if input_amount >= output_amount {
                        Err(Halt::Fail(ScriptError::ErrAmount))
                    } else {
                        Ok(())
                    },
                }
            },
        }
    }
}

/// Runs the burn lock on `tx`.
pub fn main(tx: &Tx) -> (r: Result<(), Halt<ScriptError>>)
    ensures
        r == spec_main(*tx),
{
    let args = tx.script_args.as_slice();
    if args.len() == 0 {
        return Err(Halt::Fail(ScriptError::ErrArgs));
    }
    if args.len() != 32 {
        return Err(Halt::Abort);
    }
    let input_amount = sum_group(&tx.group_inputs, args)?;
    if tx.group_inputs.len() == 0 {
        return Err(Halt::Fail(ScriptError::IndexOutOfBound));
    }
    let output_amount = sum_locked(&tx.outputs, tx.group_inputs[0].lock_hash.as_slice(), args)?;
    if input_amount >= output_amount {
        return Err(Halt::Fail(ScriptError::ErrAmount));
    }
    Ok(())
}

} // verus!
