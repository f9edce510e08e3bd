//! The DAO-info script: it records a deposit of CKBytes into the Nervos DAO
//! against dCKB tokens, and its first withdrawal phase, which burns them.
use vstd::prelude::*;
use crate::bytes::{le_at, read_u64_le, bytes_eq};
use crate::common::{
    amount, cell_at, config_value, fail, fail_with, get_config_value, load_cell, read_amount,
    sum_typed_amounts, typed_amount_sum,
};
use crate::config::{ID, id_number};
use crate::error::{Error, Halt};
use crate::tx::{Source, Tx, has_type, has_type_eq};

verus! {

/// Length of a token amount.
pub const UDT_LEN: usize = 16;
/// Length of the data of a Nervos DAO deposit.
pub const DAO_DATA_LEN: usize = 8;

/// Exit code (deposit): the Nervos DAO type in the configuration is not a hash.
pub const ERR_DEP_DAO_TYPE_LEN: u32 = 65;
/// Exit code (deposit): no dCKB is minted.
pub const ERR_DEP_NO_MINT: u32 = 72;
/// Exit code (deposit): the dCKB minted is not the capacity deposited.
pub const ERR_DEP_CAPACITY: u32 = 75;
/// Exit code (deposit): the dCKB minted is not the recorded amount.
pub const ERR_DEP_RECORD: u32 = 80;
/// Exit code (deposit): the first output is not a Nervos DAO cell.
pub const ERR_DEP_DAO_TYPE: u32 = 83;
/// Exit code (deposit): the first output is not a fresh deposit.
pub const ERR_DEP_DAO_DATA: u32 = 90;
/// Exit code (deposit): the first output is not under the Nervos DAO lock.
pub const ERR_DEP_DAO_LOCK: u32 = 94;
/// Exit code (withdrawal): the Nervos DAO type in the configuration is not a hash.
pub const ERR_WD_DAO_TYPE_LEN: u32 = 108;
/// Exit code (withdrawal): no dCKB is burned.
pub const ERR_WD_NO_BURN: u32 = 115;
/// Exit code (withdrawal): the dCKB burned is not the capacity withdrawn.
pub const ERR_WD_CAPACITY: u32 = 118;
/// Exit code (withdrawal): the dCKB burned is not the recorded amount.
pub const ERR_WD_RECORD: u32 = 123;
/// Exit code (withdrawal): the first input is not a Nervos DAO cell.
pub const ERR_WD_IN_TYPE: u32 = 127;
/// Exit code (withdrawal): the first output is not a Nervos DAO cell.
pub const ERR_WD_OUT_TYPE: u32 = 129;
/// Exit code (withdrawal): the first input and the record come from different transactions.
pub const ERR_WD_SAME_TX: u32 = 136;
/// Exit code: the script has no arguments.
pub const ERR_ARGS: u32 = 147;

/// The Nervos DAO type hash and the dCKB token hash of the configuration.
pub open spec fn dao_config(tx: Tx, args: Seq<u8>, code: u32) -> Result<(Seq<u8>, Seq<u8>), Halt<Error>> {
    match config_value(tx, args, id_number(ID::NervosDAOType)) {
        Err(h) => Err(h),
        Ok(dao_type) => if dao_type.len() != 32 {
            Err(fail(code))
        } else {
            match config_value(tx, args, id_number(ID::DAOUDT)) {
                Err(h) => Err(h),
                Ok(dao_udt) => Ok((dao_type, dao_udt)),
            }
        },
    }
}

fn dao_config_exec(tx: &Tx, args: &[u8], code: u32) -> (r: Result<(Vec<u8>, Vec<u8>), Halt<Error>>)
    ensures
        match r {
            Ok((a, b)) => dao_config(*tx, args@, code) == Ok::<(Seq<u8>, Seq<u8>), Halt<Error>>((a@, b@)),
            Err(h) => dao_config(*tx, args@, code) == Err::<(Seq<u8>, Seq<u8>), Halt<Error>>(h),
        },
{
    let dao_type = get_config_value(tx, args, ID::NervosDAOType.number())?;
    if dao_type.len() != 32 {
        return Err(fail_with(code));
    }
    let dao_udt = get_config_value(tx, args, ID::DAOUDT.number())?;
    Ok((dao_type, dao_udt))
}

/// The dCKB amounts of inputs and outputs.
pub open spec fn dao_amounts(tx: Tx, dao_udt: Seq<u8>) -> Result<(u128, u128), Halt<Error>> {
    match typed_amount_sum(tx.inputs@, dao_udt, 0, 0) {
        Err(h) => Err(h),
        Ok(i) => match typed_amount_sum(tx.outputs@, dao_udt, 0, 0) {
            Err(h) => Err(h),
            Ok(o) => Ok((i, o)),
        },
    }
}

/// The total amount of token `udt` in the cells of `so`.
pub fn get_udt_amount(tx: &Tx, so: Source, udt: &[u8]) -> (r: Result<u128, Halt<Error>>)
    ensures
        r == typed_amount_sum(tx.cells(so), udt@, 0, 0),
{
    sum_typed_amounts(tx, so, udt)
}

fn dao_amounts_exec(tx: &Tx, dao_udt: &[u8]) -> (r: Result<(u128, u128), Halt<Error>>)
    ensures
        r == dao_amounts(*tx, dao_udt@),
{
    let i = get_udt_amount(tx, Source::Input, dao_udt)?;
    let o = get_udt_amount(tx, Source::Output, dao_udt)?;
    Ok((i, o))
}

/// What a deposit decides: the dCKB minted equals the capacity of the first
/// output and the recorded amount; the first output is a fresh Nervos DAO
/// deposit (type and lock of the configuration, data zero).
pub open spec fn spec_deposit(tx: Tx, args: Seq<u8>, data: Seq<u8>) -> Result<(), Halt<Error>> {
    if tx.group_outputs@.len() > 1 || tx.group_inputs@.len() > 0 {
        Err(Halt::Abort)
    } else {
        match dao_config(tx, args, ERR_DEP_DAO_TYPE_LEN) {
            Err(h) => Err(h),
            Ok((cfg_script, dao_udt)) => match dao_amounts(tx, dao_udt) {
                Err(h) => Err(h),
                Ok((input_amount, output_amount)) => if !(output_amount > input_amount) {
                    Err(fail(ERR_DEP_NO_MINT))
                } else {
                    match cell_at(tx, Source::Output, 0) {
                        Err(h) => Err(h),
                        Ok(o0) => if output_amount - input_amount != o0.capacity {
                            Err(fail(ERR_DEP_CAPACITY))
                        } else if data.len() < 16 {
                            Err(Halt::Abort)
                        } else if output_amount - input_amount != amount(data) {
                            Err(fail(ERR_DEP_RECORD))
                        } else if !has_type(o0, cfg_script) {
                            Err(fail(ERR_DEP_DAO_TYPE))
                        } else if o0.data@.len() < 8 {
                            Err(Halt::Abort)
                        } else if le_at(o0.data@, 0, 8) != 0 {
                            Err(fail(ERR_DEP_DAO_DATA))
                        } else {
                            match config_value(tx, args, id_number(ID::NervosDAOLock)) {
                                Err(h) => Err(h),
                                Ok(cfg_lock) => if o0.lock_hash@ != cfg_lock {
                                    Err(fail(ERR_DEP_DAO_LOCK))
                                } else {
                                    Ok(())
                                },
                            }
                        },
                    }
                },
            },
        }
    }
}

/// Checks a deposit recorded by `data`.
pub fn deposit(tx: &Tx, args: &[u8], data: &[u8]) -> (r: Result<(), Halt<Error>>)
    ensures
        r == spec_deposit(*tx, args@, data@),
{
    if tx.group_outputs.len() > 1 || tx.group_inputs.len() > 0 {
        return Err(Halt::Abort);
    }
    let (cfg_script, dao_udt) = dao_config_exec(tx, args, ERR_DEP_DAO_TYPE_LEN)?;
    let (input_amount, output_amount) = dao_amounts_exec(tx, dao_udt.as_slice())?;
    if !(output_amount > input_amount) {
        return Err(fail_with(ERR_DEP_NO_MINT));
    }
    let o0 = load_cell(tx, Source::Output, 0)?;
    if output_amount - input_amount != o0.capacity as u128 {
        return Err(fail_with(ERR_DEP_CAPACITY));
    }
    if data.len() < UDT_LEN {
        return Err(Halt::Abort);
    }
    if output_amount - input_amount != read_amount(data) {
        return Err(fail_with(ERR_DEP_RECORD));
    }
    if !has_type_eq(o0, cfg_script.as_slice()) {
        return Err(fail_with(ERR_DEP_DAO_TYPE));
    }
    if o0.data.len() < DAO_DATA_LEN {
        return Err(Halt::Abort);
    }
    if read_u64_le(o0.data.as_slice(), 0) != 0 {
        return Err(fail_with(ERR_DEP_DAO_DATA));
    }
    let cfg_lock = get_config_value(tx, args, ID::NervosDAOLock.number())?;
    if !bytes_eq(o0.lock_hash.as_slice(), cfg_lock.as_slice()) {
        return Err(fail_with(ERR_DEP_DAO_LOCK));
    }
    Ok(())
}

/// What the first withdrawal phase decides: the dCKB burned equals the
/// capacity of the first input and the recorded amount; the first input and
/// output are Nervos DAO cells; the first input and the record come from one
/// transaction.
pub open spec fn spec_withdrawal(tx: Tx, args: Seq<u8>) -> Result<(), Halt<Error>> {
    if tx.group_inputs@.len() > 1 || tx.group_outputs@.len() > 0 {
        Err(Halt::Abort)
    } else {
        match cell_at(tx, Source::GroupInput, 0) {
            Err(h) => Err(h),
            Ok(g0) => match dao_config(tx, args, ERR_WD_DAO_TYPE_LEN) {
                Err(h) => Err(h),
                Ok((cfg_script, dao_udt)) => match dao_amounts(tx, dao_udt) {
                    Err(h) => Err(h),
                    Ok((input_amount, output_amount)) => if !(input_amount > output_amount) {
                        Err(fail(ERR_WD_NO_BURN))
                    } else {
                        match cell_at(tx, Source::Input, 0) {
                            Err(h) => Err(h),
                            Ok(i0) => if input_amount - output_amount != i0.capacity {
                                Err(fail(ERR_WD_CAPACITY))
                            } else if g0.data@.len() < 16 {
                                Err(Halt::Abort)
                            } else if input_amount - output_amount != amount(g0.data@) {
                                Err(fail(ERR_WD_RECORD))
                            } else if !has_type(i0, cfg_script) {
                                Err(fail(ERR_WD_IN_TYPE))
                            } else {
                                match cell_at(tx, Source::Output, 0) {
                                    Err(h) => Err(h),
                                    Ok(o0) => if !has_type(o0, cfg_script) {
                                        Err(fail(ERR_WD_OUT_TYPE))
                                    } else if i0.out_point.tx_hash@ != g0.out_point.tx_hash@ {
                                        Err(fail(ERR_WD_SAME_TX))
                                    } else {
                                        Ok(())
                                    },
                                }
                            },
                        }
                    },
                },
            },
        }
    }
}

/// Checks the first withdrawal phase.
pub fn withdrawal(tx: &Tx, args: &[u8]) -> (r: Result<(), Halt<Error>>)
    ensures
        r == spec_withdrawal(*tx, args@),
{
    if tx.group_inputs.len() > 1 || tx.group_outputs.len() > 0 {
        return Err(Halt::Abort);
    }
    let g0 = load_cell(tx, Source::GroupInput, 0)?;
    let (cfg_script, dao_udt) = dao_config_exec(tx, args, ERR_WD_DAO_TYPE_LEN)?;
    let (input_amount, output_amount) = dao_amounts_exec(tx, dao_udt.as_slice())?;
    if !(input_amount > output_amount) {
        return Err(fail_with(ERR_WD_NO_BURN));
    }
    let i0 = load_cell(tx, Source::Input, 0)?;
    if input_amount - output_amount != i0.capacity as u128 {
        return Err(fail_with(ERR_WD_CAPACITY));
    }
    if g0.data.len() < UDT_LEN {
        return Err(Halt::Abort);
    }
    if input_amount - output_amount != read_amount(g0.data.as_slice()) {
        return Err(fail_with(ERR_WD_RECORD));
    }
    if !has_type_eq(i0, cfg_script.as_slice()) {
        return Err(fail_with(ERR_WD_IN_TYPE));
    }
    let o0 = load_cell(tx, Source::Output, 0)?;
    if !has_type_eq(o0, cfg_script.as_slice()) {
        return Err(fail_with(ERR_WD_OUT_TYPE));
    }
    if !bytes_eq(i0.out_point.tx_hash.as_slice(), g0.out_point.tx_hash.as_slice()) {
        return Err(fail_with(ERR_WD_SAME_TX));
    }
    Ok(())
}

/// What the DAO-info script decides: a deposit when its cell is among the
/// outputs, else the first withdrawal phase.
pub open spec fn spec_main(tx: Tx) -> Result<(), Halt<Error>> {
    if tx.script_args@.len() == 0 {
        Err(fail(ERR_ARGS))
    } else if tx.group_outputs@.len() > 0 {
        spec_deposit(tx, tx.script_args@, tx.group_outputs@[0].data@)
    } else {
        spec_withdrawal(tx, tx.script_args@)
    }
}

/// Runs the DAO-info script on `tx`.
pub fn main(tx: &Tx) -> (r: Result<(), Halt<Error>>)
    ensures
        r == spec_main(*tx),
{
    let args = tx.script_args.as_slice();
    if args.len() == 0 {
        return Err(fail_with(ERR_ARGS));
    }
    if tx.group_outputs.len() > 0 {
        deposit(tx, args, tx.group_outputs[0].data.as_slice())
    } else {
        withdrawal(tx, args)
    }
}

} // verus!
