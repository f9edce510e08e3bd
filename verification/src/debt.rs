//! The debt script: the debt left by a liquidated position, which becomes
//! an auction of its collateral.
use vstd::prelude::*;
use crate::bytes::{le_at, read_u128_le, read_u32_le, bytes_eq, copy_range};
use crate::common::{amount, read_amount, same_type, same_type_eq};
use crate::config::{ID, config_data, get_config_data, id_number};
use crate::error::{Halt, ScriptError, sys_script_error};
use crate::tx::{Source, Tx, has_type, has_type_eq};

verus! {

/// Length of an amount in a debt record.
pub const UDT_VAL_LEN: usize = 16;
/// Length of a token identifier in a debt record.
pub const UDT_ID_LEN: usize = 4;

/// Splits a debt record (at least thirty-six bytes) into collateral amount,
/// TAI debt and token identifier.
pub fn parse_data(data: &[u8]) -> (r: (u128, u128, u32))
    requires
        data@.len() >= 36,
    ensures
        r.0 == le_at(data@, 16, 16),
        r.1 == le_at(data@, 0, 16),
        r.2 == le_at(data@, 32, 4),
{
    let tai_amount = read_u128_le(data, 0);
    let udt_amount = read_u128_le(data, 16);
    let id = read_u32_le(data, 32);
    (udt_amount, tai_amount, id)
}

/// The script hash at the start of configuration value `id`; a value
/// shorter than a hash aborts.
pub open spec fn udt_hash(tx: Tx, conf: Seq<u8>, id: u32) -> Result<Seq<u8>, Halt<ScriptError>> {
    match config_data(tx.cell_deps@, conf, id) {
        Err(e) => Err(Halt::Fail(sys_script_error(e))),
        Ok(d) => if d.len() < 32 {
            Err(Halt::Abort)
        } else {
            Ok(d.take(32))
        },
    }
}

/// The script hash at the start of configuration value `id`.
pub fn get_udt_hash(tx: &Tx, conf: &[u8], id: u32) -> (r: Result<Vec<u8>, Halt<ScriptError>>)
    ensures
        match r {
            Ok(v) => udt_hash(*tx, conf@, id) == Ok::<Seq<u8>, Halt<ScriptError>>(v@),
            Err(h) => udt_hash(*tx, conf@, id) == Err::<Seq<u8>, Halt<ScriptError>>(h),
        },
{
    let d = match get_config_data(tx, conf, id) {
        Ok(d) => d,
        Err(e) => return Err(Halt::Fail(ScriptError::from_sys(e))),
    };
    if d.len() < 32 {
        return Err(Halt::Abort);
    }
    let h = copy_range(d.as_slice(), 0, 32);
    proof { assert(h@ =~= d@.take(32)); }
    Ok(h)
}

/// Loading cell `i` of `src`, failing with its syscall error.
pub open spec fn cell_or_fail(tx: Tx, src: Source, i: int) -> Result<crate::tx::Cell, Halt<ScriptError>> {
    match tx.spec_cell(src, i) {
        Ok(c) => Ok(c),
        Err(e) => Err(Halt::Fail(sys_script_error(e))),
    }
}

/// What a liquidation decides about its debt: the second input is a
/// position and the debt is the second output.
pub open spec fn spec_liquidation(tx: Tx, args: Seq<u8>) -> Result<(), Halt<ScriptError>> {
    if tx.group_inputs@.len() > 0 {
        Err(Halt::Abort)
    } else {
        match udt_hash(tx, args, id_number(ID::CDPType)) {
            Err(h) => Err(h),
            Ok(cdp_hash) => match cell_or_fail(tx, Source::Input, 1) {
                Err(h) => Err(h),
                Ok(i1) => if !has_type(i1, cdp_hash) {
                    Err(Halt::Fail(ScriptError::ErrCDP))
                } else {
                    match cell_or_fail(tx, Source::GroupOutput, 0) {
                        Err(h) => Err(h),
                        Ok(g0) => match cell_or_fail(tx, Source::Output, 1) {
                            Err(h) => Err(h),
                            Ok(o1) => if !same_type(g0.type_hash, o1.type_hash) {
                                Err(Halt::Fail(ScriptError::ErrIndex))
                            } else {
                                Ok(())
                            },
                        },
                    }
                },
            },
        }
    }
}

fn load(tx: &Tx, src: Source, i: usize) -> (r: Result<&crate::tx::Cell, Halt<ScriptError>>)
    ensures
        match r {
            Ok(c) => cell_or_fail(*tx, src, i as int) == Ok::<crate::tx::Cell, Halt<ScriptError>>(*c),
            Err(h) => cell_or_fail(*tx, src, i as int) == Err::<crate::tx::Cell, Halt<ScriptError>>(h),
        },
{
    match tx.cell(src, i) {
        Ok(c) => Ok(c),
        Err(e) => Err(Halt::Fail(ScriptError::from_sys(e))),
    }
}

/// Checks the creation of a debt by a liquidation.
pub fn liquidation(tx: &Tx, args: &[u8]) -> (r: Result<(), Halt<ScriptError>>)
    ensures
        r == spec_liquidation(*tx, args@),
{
    if tx.group_inputs.len() > 0 {
        return Err(Halt::Abort);
    }
    let cdp_hash = get_udt_hash(tx, args, ID::CDPType.number())?;
    let i1 = load(tx, Source::Input, 1)?;
    if !has_type_eq(i1, cdp_hash.as_slice()) {
        return Err(Halt::Fail(ScriptError::ErrCDP));
    }
    let g0 = load(tx, Source::GroupOutput, 0)?;
    let o1 = load(tx, Source::Output, 1)?;
    if !same_type_eq(&g0.type_hash, &o1.type_hash) {
        return Err(Halt::Fail(ScriptError::ErrIndex));
    }
    Ok(())
}

/// Whether `c` has the type `h` and holds the amount `v`; otherwise the script aborts.
pub open spec fn holds(c: crate::tx::Cell, h: Seq<u8>, v: u128) -> bool {
    has_type(c, h) && c.data@.len() >= 16 && amount(c.data@) == v
}

/// What turning the debt (recorded by the only input of the script, no
/// output) into an auction decides: the first input and the second output
/// hold the recorded collateral, and the first output is an auction copying
/// the record, the layout that the auction script checks on its creation.
/// A failed check aborts.
pub open spec fn spec_new_auction(tx: Tx, args: Seq<u8>) -> Result<(), Halt<ScriptError>> {
    if tx.group_inputs@.len() > 1 || tx.group_outputs@.len() > 0 {
        Err(Halt::Abort)
    } else {
        match cell_or_fail(tx, Source::GroupInput, 0) {
            Err(h) => Err(h),
            Ok(g0) => if g0.data@.len() < 36 {
                Err(Halt::Abort)
            } else {
                let udt_amount = le_at(g0.data@, 16, 16) as u128;
                match udt_hash(tx, args, le_at(g0.data@, 32, 4) as u32) {
                    Err(h) => Err(h),
                    Ok(uh) => match cell_or_fail(tx, Source::Input, 0) {
                        Err(h) => Err(h),
                        Ok(i0) => if !holds(i0, uh, udt_amount) {
                            Err(Halt::Abort)
                        } else {
                            match cell_or_fail(tx, Source::Output, 1) {
                                Err(h) => Err(h),
                                Ok(o1) => if !holds(o1, uh, udt_amount) {
                                    Err(Halt::Abort)
                                } else {
                                    match udt_hash(tx, args, id_number(ID::AuctionType)) {
                                        Err(h) => Err(h),
                                        Ok(ah) => match cell_or_fail(tx, Source::Output, 0) {
                                            Err(h) => Err(h),
                                            Ok(o0) => if !has_type(o0, ah) || o0.data@ != g0.data@ {
                                                Err(Halt::Abort)
                                            } else {
                                                Ok(())
                                            },
                                        },
                                    }
                                },
                            }
                        },
                    },
                }
            },
        }
    }
}

fn holds_exec(c: &crate::tx::Cell, h: &[u8], v: u128) -> (r: bool)
    ensures
        r == holds(*c, h@, v),
{
    has_type_eq(c, h) && c.data.len() >= UDT_VAL_LEN && read_amount(c.data.as_slice()) == v
}

/// Checks the debt's turn into an auction.
pub fn new_auction(tx: &Tx, args: &[u8]) -> (r: Result<(), Halt<ScriptError>>)
    ensures
        r == spec_new_auction(*tx, args@),
{
    if tx.group_inputs.len() > 1 || tx.group_outputs.len() > 0 {
        return Err(Halt::Abort);
    }
    let g0 = load(tx, Source::GroupInput, 0)?;
    if g0.data.len() < 2 * UDT_VAL_LEN + UDT_ID_LEN {
        return Err(Halt::Abort);
    }
    let (udt_amount, _tai, id) = parse_data(g0.data.as_slice());
    let uh = get_udt_hash(tx, args, id)?;
    let i0 = load(tx, Source::Input, 0)?;
    if !holds_exec(i0, uh.as_slice(), udt_amount) {
        return Err(Halt::Abort);
    }
    let o1 = load(tx, Source::Output, 1)?;
    if !holds_exec(o1, uh.as_slice(), udt_amount) {
        return Err(Halt::Abort);
    }
    let ah = get_udt_hash(tx, args, ID::AuctionType.number())?;
    let o0 = load(tx, Source::Output, 0)?;
    if !has_type_eq(o0, ah.as_slice()) || !bytes_eq(o0.data.as_slice(), g0.data.as_slice()) {
        return Err(Halt::Abort);
    }
    Ok(())
}

/// What the debt script decides: with its cell among the outputs, a
/// liquidation; else the turn into an auction.  More than one output of the
/// script aborts.
pub open spec fn spec_main(tx: Tx) -> Result<(), Halt<ScriptError>> {
    if tx.script_args@.len() == 0 {
        Err(Halt::Fail(ScriptError::ErrArgs))
    } else if tx.group_outputs@.len() > 1 {
        Err(Halt::Abort)
    } else if tx.group_outputs@.len() == 1 {
        spec_liquidation(tx, tx.script_args@)
    } else {
        spec_new_auction(tx, tx.script_args@)
    }
}

/// Runs the debt script on `tx`.
pub fn main(tx: &Tx) -> (r: Result<(), Halt<ScriptError>>)
    ensures
        r == spec_main(*tx),
{
    let args = tx.script_args.as_slice();
    if args.len() == 0 {
        return Err(Halt::Fail(ScriptError::ErrArgs));
    }
    if tx.group_outputs.len() > 1 {
        return Err(Halt::Abort);
    }
    if tx.group_outputs.len() == 1 {
        liquidation(tx, args)
    } else {
        new_auction(tx, args)
    }
}

} // verus!
