//! The system-debt script: the debt that an auction leaves when the bids do
//! not cover the TAI, and its offset by burning TAI.
use vstd::prelude::*;
use crate::bytes::bytes_eq;
use crate::common::{
    amount, bytes_res, cell_at, config_hash, fail, fail_with, get_config_hash, load_cell,
    read_amount, same_type, same_type_eq,
};
use crate::config::{ID, id_number};
use crate::error::{Error, Halt};
use crate::tx::{Cell, Source, Tx, has_type, has_type_eq};

verus! {

/// Length of a debt amount.
pub const UDT_VAL_LEN: usize = 16;

/// Exit code (offset): the debt record holds no amount.
pub const ERR_OFFSET_RECORD: u32 = 39;
/// Exit code (offset): the first output is not TAI.
pub const ERR_OFFSET_TAI_TYPE: u32 = 46;
/// Exit code (offset): the first output is not burned.
pub const ERR_OFFSET_BURN_LOCK: u32 = 50;
/// Exit code (offset): the first output holds no amount.
pub const ERR_OFFSET_TAI_DATA: u32 = 53;
/// Exit code (offset): the TAI burned is not the debt.
pub const ERR_OFFSET_AMOUNT: u32 = 57;
/// Exit code (offset): an input is under the burn lock.
pub const ERR_OFFSET_BURN_INPUT: u32 = 65;
/// Exit code (creation): the debt record holds no amount.
pub const ERR_NEW_RECORD: u32 = 73;
/// Exit code (creation): the second input is not an auction.
pub const ERR_NEW_AUCTION: u32 = 77;
/// Exit code (creation): the debt is not under the community lock.
pub const ERR_NEW_LOCK: u32 = 81;
/// Exit code (creation): the second output is not the debt.
pub const ERR_NEW_POSITION: u32 = 85;
/// Exit code: the script has no arguments.
pub const ERR_ARGS: u32 = 95;

/// The script hash at the start of configuration value `id`.
pub fn get_udt_hash(tx: &Tx, conf: &[u8], id: u32) -> (r: Result<Vec<u8>, Halt<Error>>)
    ensures
        bytes_res(r) == config_hash(*tx, conf@, id),
{
    get_config_hash(tx, conf, id)
}

/// Whether some cell is under `lock`.
pub open spec fn any_locked(cells: Seq<Cell>, lock: Seq<u8>) -> bool {
    exists|i: int| 0 <= i < cells.len() && #[trigger] cells[i].lock_hash@ == lock
}

fn exists_lock(cells: &Vec<Cell>, lock: &[u8]) -> (r: bool)
    ensures
        r == any_locked(cells@, lock@),
{
    let mut i: usize = 0;
    while i < cells.len()
        invariant
            i <= cells@.len(),
            forall|j: int| 0 <= j < i ==> #[trigger] cells@[j].lock_hash@ != lock@,
        decreases cells@.len() - i,
    {
        if bytes_eq(cells[i].lock_hash.as_slice(), lock) {
            return true;
        }
        i = i + 1;
    }
    false
}

/// What offsetting a system debt recorded by `data` decides: the first
/// output burns exactly the debt in TAI, and no input is under the burn lock.
pub open spec fn spec_do_offset(tx: Tx, args: Seq<u8>, data: Seq<u8>) -> Result<(), Halt<Error>> {
    if tx.group_outputs@.len() > 0 {
        Err(Halt::Abort)
    } else if data.len() < 16 {
        Err(fail(ERR_OFFSET_RECORD))
    } else {
        match config_hash(tx, args, id_number(ID::TAIType)) {
            Err(h) => Err(h),
            Ok(tai_hash) => match cell_at(tx, Source::Output, 0) {
                Err(h) => Err(h),
                Ok(o0) => if !has_type(o0, tai_hash) {
                    Err(fail(ERR_OFFSET_TAI_TYPE))
                } else {
                    match config_hash(tx, args, id_number(ID::BurnLock)) {
                        Err(h) => Err(h),
                        Ok(burn_lock) => if burn_lock != o0.lock_hash@ {
                            Err(fail(ERR_OFFSET_BURN_LOCK))
                        } else if o0.data@.len() < 16 {
                            Err(fail(ERR_OFFSET_TAI_DATA))
                        } else if amount(data) != amount(o0.data@) {
                            Err(fail(ERR_OFFSET_AMOUNT))
                        } else if any_locked(tx.inputs@, burn_lock) {
                            Err(fail(ERR_OFFSET_BURN_INPUT))
                        } else {
                            Ok(())
                        },
                    }
                },
            },
        }
    }
}

/// Checks the offset of the system debt recorded by `data`.
pub fn do_offset(tx: &Tx, args: &[u8], data: &[u8]) -> (r: Result<(), Halt<Error>>)
    ensures
        r == spec_do_offset(*tx, args@, data@),
{
    if tx.group_outputs.len() > 0 {
        return Err(Halt::Abort);
    }
    if data.len() < UDT_VAL_LEN {
        return Err(fail_with(ERR_OFFSET_RECORD));
    }
    let debt_amount = read_amount(data);
    let tai_hash = get_udt_hash(tx, args, ID::TAIType.number())?;
    let o0 = load_cell(tx, Source::Output, 0)?;
    if !has_type_eq(o0, tai_hash.as_slice()) {
        return Err(fail_with(ERR_OFFSET_TAI_TYPE));
    }
    let burn_lock = get_udt_hash(tx, args, ID::BurnLock.number())?;
    if !bytes_eq(burn_lock.as_slice(), o0.lock_hash.as_slice()) {
        return Err(fail_with(ERR_OFFSET_BURN_LOCK));
    }
    if o0.data.len() < UDT_VAL_LEN {
        return Err(fail_with(ERR_OFFSET_TAI_DATA));
    }
    if debt_amount != read_amount(o0.data.as_slice()) {
        return Err(fail_with(ERR_OFFSET_AMOUNT));
    }
    if exists_lock(&tx.inputs, burn_lock.as_slice()) {
        return Err(fail_with(ERR_OFFSET_BURN_INPUT));
    }
    Ok(())
}

/// What creating a system debt decides: the debt (only output of the
/// script, no input) holds an amount, is under the community lock and is
/// the second output, and the second input is an auction.
pub open spec fn spec_new_sys_debt(tx: Tx, args: Seq<u8>) -> Result<(), Halt<Error>> {
    if tx.group_inputs@.len() > 0 {
        Err(Halt::Abort)
    } else {
        match cell_at(tx, Source::GroupOutput, 0) {
            Err(h) => Err(h),
            Ok(g0) => if g0.data@.len() < 16 {
                Err(fail(ERR_NEW_RECORD))
            } else {
                match config_hash(tx, args, id_number(ID::AuctionType)) {
                    Err(h) => Err(h),
                    Ok(auction) => match cell_at(tx, Source::Input, 1) {
                        Err(h) => Err(h),
                        Ok(i1) => if !has_type(i1, auction) {
                            Err(fail(ERR_NEW_AUCTION))
                        } else {
                            match config_hash(tx, args, id_number(ID::CommunityLock)) {
                                Err(h) => Err(h),
                                Ok(lock) => if lock != g0.lock_hash@ {
                                    Err(fail(ERR_NEW_LOCK))
                                } else {
                                    match cell_at(tx, Source::Output, 1) {
                                        Err(h) => Err(h),
                                        Ok(o1) => if !same_type(g0.type_hash, o1.type_hash) {
                                            Err(fail(ERR_NEW_POSITION))
                                        } else {
                                            Ok(())
                                        },
                                    }
                                },
                            }
                        },
                    },
                }
            },
        }
    }
}

/// Checks the creation of a system debt.
pub fn new_sys_debt(tx: &Tx, args: &[u8]) -> (r: Result<(), Halt<Error>>)
    ensures
        r == spec_new_sys_debt(*tx, args@),
{
    if tx.group_inputs.len() > 0 {
        return Err(Halt::Abort);
    }
    let g0 = load_cell(tx, Source::GroupOutput, 0)?;
    if g0.data.len() < UDT_VAL_LEN {
        return Err(fail_with(ERR_NEW_RECORD));
    }
    let auction = get_udt_hash(tx, args, ID::AuctionType.number())?;
    let i1 = load_cell(tx, Source::Input, 1)?;
    if !has_type_eq(i1, auction.as_slice()) {
        return Err(fail_with(ERR_NEW_AUCTION));
    }
    let lock = get_udt_hash(tx, args, ID::CommunityLock.number())?;
    if !bytes_eq(lock.as_slice(), g0.lock_hash.as_slice()) {
        return Err(fail_with(ERR_NEW_LOCK));
    }
    let o1 = load_cell(tx, Source::Output, 1)?;
    if !same_type_eq(&g0.type_hash, &o1.type_hash) {
        return Err(fail_with(ERR_NEW_POSITION));
    }
    Ok(())
}

/// What the system-debt script decides: an offset when its cell is among
/// the inputs, else a creation; more than one such cell on either side aborts.
pub open spec fn spec_main(tx: Tx) -> Result<(), Halt<Error>> {
    if tx.script_args@.len() == 0 {
        Err(fail(ERR_ARGS))
    } else if tx.group_inputs@.len() > 1 || tx.group_outputs@.len() > 1 {
        Err(Halt::Abort)
    } else if tx.group_inputs@.len() == 1 {
        spec_do_offset(tx, tx.script_args@, tx.group_inputs@[0].data@)
    } else {
        spec_new_sys_debt(tx, tx.script_args@)
    }
}

/// Runs the system-debt script on `tx`.
pub fn main(tx: &Tx) -> (r: Result<(), Halt<Error>>)
    ensures
        r == spec_main(*tx),
{
    let args = tx.script_args.as_slice();
    if args.len() == 0 {
        return Err(fail_with(ERR_ARGS));
    }
    if tx.group_inputs.len() > 1 || tx.group_outputs.len() > 1 {
        return Err(Halt::Abort);
    }
    if tx.group_inputs.len() == 1 {
        do_offset(tx, args, tx.group_inputs[0].data.as_slice())
    } else {
        new_sys_debt(tx, args)
    }
}

} // verus!
