//! The token type script: amounts are conserved, except in owner mode, where
//! the owner (named by the script's arguments) takes part in the transaction.
use vstd::prelude::*;
use crate::bytes::{bytes_eq, copy_range};
use crate::common::{amount, read_amount, SCRIPT_LEN};
use crate::error::{Halt, ScriptError};
use crate::tx::{Cell, Tx};
use crate::udt_owner::{any_typed, exists_type};

verus! {

/// Length of a token amount.
pub const UDT_LEN: usize = 16;

/// Sum of the amounts of the cells from `i` on, added to `sum`: every cell
/// must hold a positive amount, and the sum must fit in `u128` (else abort).
pub open spec fn amount_sum(cells: Seq<Cell>, i: int, sum: u128) -> Result<u128, Halt<ScriptError>>
    decreases cells.len() - i,
{
    if i < 0 || i >= cells.len() {
        Ok(sum)
    } else if cells[i].data@.len() < 16 || sum + amount(cells[i].data@) > u128::MAX || amount(cells[i].data@) == 0 {
        Err(Halt::Abort)
    } else {
        amount_sum(cells, i + 1, (sum + amount(cells[i].data@)) as u128)
    }
}

/// The total amount of the token in `cells`, or the abort of the script.
fn total_or_abort(cells: &Vec<Cell>) -> (r: Result<u128, Halt<ScriptError>>)
    ensures
        r == amount_sum(cells@, 0, 0),
{
    let mut sum: u128 = 0;
    let mut i: usize = 0;
    while i < cells.len()
        invariant
            i <= cells@.len(),
            amount_sum(cells@, 0, 0) == amount_sum(cells@, i as int, sum),
        decreases cells@.len() - i,
    {
        let data = &cells[i].data;
        if data.len() < UDT_LEN {
            return Err(Halt::Abort);
        }
        let v = read_amount(data.as_slice());
        if v > u128::MAX - sum || v == 0 {
            return Err(Halt::Abort);
        }
        sum = sum + v;
        i = i + 1;
    }
    Ok(sum)
}

/// The total amount of the token in `cells`.  The script aborts unless
/// every cell holds a positive amount and the total fits in `u128`; those
/// inputs are left out here.
pub fn collect_amount(cells: &Vec<Cell>) -> (r: u128)
    requires
        amount_sum(cells@, 0, 0) is Ok,
    ensures
        amount_sum(cells@, 0, 0) == Ok::<u128, Halt<ScriptError>>(r),
{
    match total_or_abort(cells) {
        Ok(v) => v,
        Err(_) => 0,
    }
}

/// Whether some cell is under `lock`.
pub open spec fn any_lock(cells: Seq<Cell>, lock: Seq<u8>) -> bool {
    exists|i: int| 0 <= i < cells.len() && #[trigger] cells[i].lock_hash@ == lock
}

fn exists_lock(cells: &Vec<Cell>, lock: &[u8]) -> (r: bool)
    ensures
        r == any_lock(cells@, lock@),
{
    let mut i: usize = 0;
    while i < cells.len()
        invariant
            i <= cells@.len(),
            forall|j: int| 0 <= j < i ==> #[trigger] cells@[j].lock_hash@ != lock@,
        decreases cells@.len() - i,
    {
        if bytes_eq(cells[i].lock_hash.as_slice(), lock) {
            return true;
        }
        i = i + 1;
    }
    false
}

/// Owner mode: the owner hash (the first thirty-two bytes of the arguments,
/// abort when shorter) is the lock of an input or the type of an input or output.
pub open spec fn owner_mode(tx: Tx, args: Seq<u8>) -> Result<(), Halt<ScriptError>> {
    if args.len() < 32 {
        Err(Halt::Abort)
    } else {
        let owner = args.take(32);
        if any_lock(tx.inputs@, owner) || any_typed(tx.inputs@, owner) || any_typed(tx.outputs@, owner) {
            Ok(())
        } else {
            Err(Halt::Fail(ScriptError::ErrorMode))
        }
    }
}

/// Checks owner mode.
pub fn check_owner_mode(tx: &Tx, args: &[u8]) -> (r: Result<(), Halt<ScriptError>>)
    ensures
        r == owner_mode(*tx, args@),
{
    if args.len() < SCRIPT_LEN {
        return Err(Halt::Abort);
    }
    let owner = copy_range(args, 0, SCRIPT_LEN);
    proof { assert(owner@ =~= args@.take(32)); }
    if exists_lock(&tx.inputs, owner.as_slice()) {
        return Ok(());
    }
    if exists_type(&tx.inputs, owner.as_slice()) {
        return Ok(());
    }
    if exists_type(&tx.outputs, owner.as_slice()) {
        return Ok(());
    }
    Err(Halt::Fail(ScriptError::ErrorMode))
}

/// What the token script decides: equal totals in and out pass; otherwise
/// only owner mode passes.
pub open spec fn spec_main(tx: Tx) -> Result<(), Halt<ScriptError>> {
    match amount_sum(tx.group_inputs@, 0, 0) {
        Err(h) => Err(h),
        Ok(inputs_amount) => match amount_sum(tx.group_outputs@, 0, 0) {
            Err(h) => Err(h),
            Ok(outputs_amount) => if inputs_amount == outputs_amount {
                Ok(())
            } else if tx.script_args@.len() == 0 {
                Err(Halt::Fail(ScriptError::ErrorArgs))
            } else {
                owner_mode(tx, tx.script_args@)
            },
        },
    }
}

/// Runs the token script on `tx`.
pub fn main(tx: &Tx) -> (r: Result<(), Halt<ScriptError>>)
    ensures
        r == spec_main(*tx),
{
    let inputs_amount = total_or_abort(&tx.group_inputs)?;
    let outputs_amount = total_or_abort(&tx.group_outputs)?;
    if inputs_amount == outputs_amount {
        return Ok(());
    }
    let args = tx.script_args.as_slice();
    if args.len() == 0 {
        return Err(Halt::Fail(ScriptError::ErrorArgs));
    }
    check_owner_mode(tx, args)
}

} // verus!
