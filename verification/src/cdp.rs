//! The CDP script: a collateralised debt position.  A user deposits a
//! collateral token and mints TAI against it, repays the TAI with interest
//! to withdraw the collateral, or the position is liquidated into a debt
//! when the collateral no longer covers it.
//!
//! Some of the script's checks compare floating-point prices, rates and
//! interests.  The library does all the integer work and, in the order the
//! checks run, lists each floating-point comparison with the operands it
//! reads and the exit code it fails with: a [`Plan`].  Running the plan (the
//! comparisons in order, then the final outcome) gives the script's result.
use vstd::prelude::*;
use crate::bytes::{le_at, read_u128_le, read_u32_le, read_u64_le, bytes_eq, copy_range};
use crate::common::{
    amount, bytes_res, cell_at, config_value, fail, fail_with, get_config_value, halt_of_sys,
    load_cell, locked_amount_sum, read_amount, sum_locked_amounts, sum_typed_amounts, sys_halt,
    typed_amount_sum,
};
use crate::config::{ID, id_number};
use crate::error::{Error, Halt};
use crate::tx::{Cell, Source, Tx, has_type, has_type_eq};

verus! {

/// A floating-point comparison of the script.  Each `u32` operand holds the
/// bits of an `f32` (read from four little-endian bytes); integer operands
/// are converted to `f64`.
#[derive(Clone, Copy, Debug, PartialEq, Eq)]
pub enum FloatTest {
    /// `x < 1.0`.
    BelowOne { x: u32 },
    /// `user >= base * incentive`, in `f32`.
    InterestCovers { user: u32, base: u32, incentive: u32 },
    /// `udt_amount * price * rate >= tai_amount`, in `f64`, multiplied from the left.
    CollateralCovers { udt_amount: u128, price: u32, rate: u32, tai_amount: u128 },
    /// `fee > tai_amount * (user * incentive) * hours / 365 / 24`: the
    /// interest rate is the `f32` product, the rest is in `f64`.
    FeeCovers { fee: u128, tai_amount: u128, user: u32, incentive: u32, hours: u64 },
    /// `udt_amount * price * rate < tai_amount`, in `f64`: the collateral's
    /// value no longer covers the debt.
    Liquidatable { udt_amount: u128, price: u32, rate: u32, tai_amount: u128 },
}

/// A floating-point comparison and the exit code of the script when it is false.
#[derive(Clone, Copy, Debug, PartialEq, Eq)]
pub struct FloatCheck {
    pub test: FloatTest,
    pub code: u32,
}

/// The script's decision: the floating-point comparisons in the order they
/// run, then the outcome when all of them hold.
#[derive(Debug)]
pub struct Plan {
    pub checks: Vec<FloatCheck>,
    pub end: Result<(), Halt<Error>>,
}

/// Length of an amount in a position record.
pub const UDT_LEN: usize = 16;
/// Length of the owner's lock hash in a position record.
pub const OWNER_LEN: usize = 32;
/// Length of a token identifier in a position record.
pub const UDT_ID_LEN: usize = 4;
/// Length of an interest rate (an `f32`).
pub const INTEREST_LEN: usize = 4;
/// Length of a timestamp.
pub const TIME_LEN: usize = 8;

/// Exit code: a collateral token is at an odd identifier.
pub const ERR_ODD_ID: u32 = 29;
/// Exit code: the liquidation rate of the token is not below one.
pub const ERR_RATE: u32 = 39;
/// Exit code: the price entry is shorter than a price and a time.
pub const ERR_PRICE_LEN: u32 = 64;
/// Exit code: the position record is shorter than its fields.
pub const ERR_RECORD_LEN: u32 = 81;
/// Exit code (deposit): the position is not under the collateral lock.
pub const ERR_DEP_SELF_LOCK: u32 = 180;
/// Exit code (deposit): the collateral is not under the collateral lock.
pub const ERR_DEP_UDT_LOCK: u32 = 182;
/// Exit code (deposit): the position's interest is below the token's.
pub const ERR_DEP_INTEREST: u32 = 188;
/// Exit code (deposit): the position's time is not that of the price.
pub const ERR_DEP_TIME: u32 = 191;
/// Exit code (deposit): the first output is not the collateral token.
pub const ERR_DEP_UDT_TYPE: u32 = 194;
/// Exit code (deposit): the first output does not hold the recorded collateral.
pub const ERR_DEP_UDT_AMOUNT: u32 = 200;
/// Exit code (deposit): the collateral is at most one hundred.
pub const ERR_DEP_UDT_SMALL: u32 = 201;
/// Exit code (deposit): the collateral does not cover the TAI.
pub const ERR_DEP_COLLATERAL: u32 = 208;
/// Exit code (deposit): no TAI is minted.
pub const ERR_DEP_NO_MINT: u32 = 214;
/// Exit code (deposit): the TAI minted is not the recorded debt.
pub const ERR_DEP_MINT_AMOUNT: u32 = 215;
/// Exit code (withdrawal): one of the first two inputs is not under the collateral lock.
pub const ERR_WD_FIRST_LOCKS: u32 = 246;
/// Exit code (withdrawal): a later input is under the collateral lock.
pub const ERR_WD_OTHER_LOCK: u32 = 248;
/// Exit code (withdrawal): the position is not under the collateral lock.
pub const ERR_WD_SELF_LOCK: u32 = 252;
/// Exit code (withdrawal): the first two inputs come from different transactions.
pub const ERR_WD_SAME_TX: u32 = 259;
/// Exit code (withdrawal): the first input is not the collateral token.
pub const ERR_WD_UDT_TYPE: u32 = 266;
/// Exit code (withdrawal): the first input does not hold the recorded collateral.
pub const ERR_WD_UDT_AMOUNT: u32 = 274;
/// Exit code (withdrawal): the collateral does not go to the owner.
pub const ERR_WD_OWNER_LOCK: u32 = 281;
/// Exit code (withdrawal): the first output is not the collateral token.
pub const ERR_WD_OUT_TYPE: u32 = 284;
/// Exit code (withdrawal): the first output does not hold the collateral.
pub const ERR_WD_OUT_AMOUNT: u32 = 289;
/// Exit code (withdrawal): no TAI is repaid.
pub const ERR_WD_NO_REPAY: u32 = 296;
/// Exit code (withdrawal): the TAI repaid is not the recorded debt.
pub const ERR_WD_REPAY_AMOUNT: u32 = 297;
/// Exit code (withdrawal): the second output is not TAI.
pub const ERR_WD_FEE_TYPE: u32 = 301;
/// Exit code (withdrawal): the second output does not go to the community.
pub const ERR_WD_FEE_LOCK: u32 = 305;
/// Exit code (withdrawal): an input under the community lock is not TAI.
pub const ERR_WD_FEE_INPUT_TYPE: u32 = 315;
/// Exit code (withdrawal): no fee is paid.
pub const ERR_WD_NO_FEE: u32 = 332;
/// Exit code (withdrawal): the fee does not cover the interest.
pub const ERR_WD_FEE: u32 = 355;
/// Exit code (liquidation): one of the first two inputs is not under the collateral lock.
pub const ERR_LQ_FIRST_LOCKS: u32 = 387;
/// Exit code (liquidation): a later input is under the collateral lock.
pub const ERR_LQ_OTHER_LOCK: u32 = 389;
/// Exit code (liquidation): the position is not under the collateral lock.
pub const ERR_LQ_SELF_LOCK: u32 = 393;
/// Exit code (liquidation): the first two inputs come from different transactions.
pub const ERR_LQ_SAME_TX: u32 = 400;
/// Exit code (liquidation): the first input is not the collateral token.
pub const ERR_LQ_UDT_TYPE: u32 = 407;
/// Exit code (liquidation): the first input does not hold the recorded collateral.
pub const ERR_LQ_UDT_AMOUNT: u32 = 413;
/// Exit code (liquidation): one of the first two outputs is not under the debt lock.
pub const ERR_LQ_FIRST_DEBT_LOCKS: u32 = 427;
/// Exit code (liquidation): a later output is under the debt lock.
pub const ERR_LQ_OTHER_DEBT_LOCK: u32 = 429;
/// Exit code (liquidation): the debt does not record 95% of the collateral.
pub const ERR_LQ_DEBT_UDT: u32 = 436;
/// Exit code (liquidation): the debt does not record the position's TAI.
pub const ERR_LQ_DEBT_TAI: u32 = 438;
/// Exit code (liquidation): the debt does not record the position's token.
pub const ERR_LQ_DEBT_ID: u32 = 439;
/// Exit code (liquidation): the debt does not record the position's owner.
pub const ERR_LQ_DEBT_OWNER: u32 = 440;
/// Exit code (liquidation): the second output is not a debt.
pub const ERR_LQ_DEBT_TYPE: u32 = 443;
/// Exit code (liquidation): the first output is not the collateral token.
pub const ERR_LQ_OUT_TYPE: u32 = 447;
/// Exit code (liquidation): the first output holds less than the debt's collateral.
pub const ERR_LQ_OUT_AMOUNT: u32 = 452;
/// Exit code (liquidation): the collateral still covers the debt.
pub const ERR_LQ_COVERED: u32 = 471;
/// Exit code (liquidation): TAI is among the outputs.
pub const ERR_LQ_TAI_OUT: u32 = 475;
/// Exit code: the script has no arguments.
pub const ERR_ARGS: u32 = 494;

/// The fields of a position record: collateral amount, TAI debt, token
/// identifier, owner, interest rate (`f32` bits) and time of the price used.
/// The time fills the record to its end, which must be eight bytes long.
pub open spec fn spec_parse_data(d: Seq<u8>) -> Result<(u128, u128, u32, Seq<u8>, u32, u64), Halt<Error>> {
    if d.len() < 72 {
        Err(fail(ERR_RECORD_LEN))
    } else if d.len() != 80 {
        Err(Halt::Abort)
    } else {
        Ok((
            le_at(d, 16, 16) as u128,
            le_at(d, 0, 16) as u128,
            le_at(d, 32, 4) as u32,
            d.subrange(36, 68),
            le_at(d, 68, 4) as u32,
            le_at(d, 72, 8) as u64,
        ))
    }
}

/// Splits a position record.
pub fn parse_data(data: &[u8]) -> (r: Result<(u128, u128, u32, Vec<u8>, u32, u64), Halt<Error>>)
    ensures
        match r {
            Ok((u, t, id, o, i, tm)) => spec_parse_data(data@)
                == Ok::<(u128, u128, u32, Seq<u8>, u32, u64), Halt<Error>>((u, t, id, o@, i, tm)),
            Err(h) => spec_parse_data(data@) == Err::<(u128, u128, u32, Seq<u8>, u32, u64), Halt<Error>>(h),
        },
{
    if data.len() < UDT_LEN + UDT_LEN + UDT_ID_LEN + OWNER_LEN + INTEREST_LEN {
        return Err(fail_with(ERR_RECORD_LEN));
    }
    if data.len() != 80 {
        return Err(Halt::Abort);
    }
    let udt_amount = read_u128_le(data, 16);
    let tai_amount = read_u128_le(data, 0);
    let id = read_u32_le(data, 32);
    let owner = copy_range(data, 36, 68);
    let interest = read_u32_le(data, 68);
    let time = read_u64_le(data, 72);
    Ok((udt_amount, tai_amount, id, owner, interest, time))
}

/// The entry of collateral token `id`: its type hash, then two `f32`, a
/// liquidation rate that must be below one and an interest rate.  It gives
/// the hash, the second `f32` and the first, with the comparison of the
/// first with one, which runs before the entry's length is checked in full.
pub open spec fn udt_and_rate(tx: Tx, conf: Seq<u8>, id: u32) -> (Seq<FloatCheck>, Result<(Seq<u8>, u32, u32), Halt<Error>>) {
    if id % 2 != 0 {
        (seq![], Err(fail(ERR_ODD_ID)))
    } else {
        match config_value(tx, conf, id) {
            Err(h) => (seq![], Err(h)),
            Ok(d) => if d.len() < 36 {
                (seq![], Err(Halt::Abort))
            } else {
                let c = seq![FloatCheck { test: FloatTest::BelowOne { x: le_at(d, 32, 4) as u32 }, code: ERR_RATE }];
                if d.len() != 40 {
                    (c, Err(Halt::Abort))
                } else {
                    (c, Ok((d.take(32), le_at(d, 36, 4) as u32, le_at(d, 32, 4) as u32)))
                }
            },
        }
    }
}

/// Reads the entry of collateral token `id`, adding its rate comparison to `checks`.
pub fn get_udt_and_rate(tx: &Tx, conf: &[u8], id: u32, checks: &mut Vec<FloatCheck>) -> (r: Result<(Vec<u8>, u32, u32), Halt<Error>>)
    ensures
        final(checks)@ == old(checks)@ + udt_and_rate(*tx, conf@, id).0,
        match r {
            Ok((h, a, b)) => udt_and_rate(*tx, conf@, id).1 == Ok::<(Seq<u8>, u32, u32), Halt<Error>>((h@, a, b)),
            Err(e) => udt_and_rate(*tx, conf@, id).1 == Err::<(Seq<u8>, u32, u32), Halt<Error>>(e),
        },
{
    let ghost c0 = checks@;
    if id % 2 != 0 {
        proof { assert(checks@ =~= c0 + Seq::<FloatCheck>::empty()); }
        return Err(fail_with(ERR_ODD_ID));
    }
    let d = match get_config_value(tx, conf, id) {
        Ok(d) => d,
        Err(h) => {
            proof { assert(checks@ =~= c0 + Seq::<FloatCheck>::empty()); }
            return Err(h);
        },
    };
    if d.len() < 36 {
        proof { assert(checks@ =~= c0 + Seq::<FloatCheck>::empty()); }
        return Err(Halt::Abort);
    }
    let rate = read_u32_le(d.as_slice(), 32);
    checks.push(FloatCheck { test: FloatTest::BelowOne { x: rate }, code: ERR_RATE });
    proof {
        assert(checks@ =~= c0 + seq![FloatCheck { test: FloatTest::BelowOne { x: rate }, code: ERR_RATE }]);
    }
    if d.len() != 40 {
        return Err(Halt::Abort);
    }
    let interest = read_u32_le(d.as_slice(), 36);
    let h = copy_range(d.as_slice(), 0, 32);
    proof {
        assert(h@ =~= d@.take(32));
    }
    Ok((h, interest, rate))
}

/// The incentive entry: the deposit and the withdrawal factors (`f32` bits);
/// an entry of another length than eight bytes aborts.
pub open spec fn incentive_params(tx: Tx, conf: Seq<u8>) -> Result<(u32, u32), Halt<Error>> {
    match config_value(tx, conf, id_number(ID::IncentiveParam)) {
        Err(h) => Err(h),
        Ok(d) => if d.len() != 8 {
            Err(Halt::Abort)
        } else {
            Ok((le_at(d, 0, 4) as u32, le_at(d, 4, 4) as u32))
        },
    }
}

/// Reads the deposit and withdrawal incentive factors.
pub fn get_incentive_param(tx: &Tx, conf: &[u8]) -> (r: Result<(u32, u32), Halt<Error>>)
    ensures
        r == incentive_params(*tx, conf@),
{
    let d = get_config_value(tx, conf, ID::IncentiveParam.number())?;
    if d.len() != 2 * INTEREST_LEN {
        return Err(Halt::Abort);
    }
    Ok((read_u32_le(d.as_slice(), 0), read_u32_le(d.as_slice(), 4)))
}

/// The price entry `id`: a price (`f32` bits) and its time; shorter than
/// twelve bytes fails, longer aborts.
pub open spec fn udt_price(tx: Tx, conf: Seq<u8>, id: u32) -> Result<(u32, u64), Halt<Error>> {
    match config_value(tx, conf, id) {
        Err(h) => Err(h),
        Ok(d) => if d.len() < 12 {
            Err(fail(ERR_PRICE_LEN))
        } else if d.len() != 12 {
            Err(Halt::Abort)
        } else {
            Ok((le_at(d, 0, 4) as u32, le_at(d, 4, 8) as u64))
        },
    }
}

/// Reads price entry `id`: the price and its time.
pub fn get_udt_price(tx: &Tx, conf: &[u8], id: u32) -> (r: Result<(u32, u64), Halt<Error>>)
    ensures
        r == udt_price(*tx, conf@, id),
{
    let d = get_config_value(tx, conf, id)?;
    if d.len() < UDT_ID_LEN + TIME_LEN {
        return Err(fail_with(ERR_PRICE_LEN));
    }
    if d.len() != UDT_ID_LEN + TIME_LEN {
        return Err(Halt::Abort);
    }
    Ok((read_u32_le(d.as_slice(), 0), read_u64_le(d.as_slice(), 4)))
}

/// The total amount of token `udt` in the cells of `so`.
pub fn get_udt_amount(tx: &Tx, so: Source, udt: &[u8]) -> (r: Result<u128, Halt<Error>>)
    ensures
        r == typed_amount_sum(tx.cells(so), udt@, 0, 0),
{
    sum_typed_amounts(tx, so, udt)
}

/// Whether the cells from `i` on are under `lock` at the first two positions
/// (else fail with `first`) and not under it after (else fail with `other`).
pub open spec fn pair_locks(cells: Seq<Cell>, lock: Seq<u8>, first: u32, other: u32, i: int) -> Result<(), Halt<Error>>
    decreases cells.len() - i,
{
    if i < 0 || i >= cells.len() {
        Ok(())
    } else if i <= 1 && cells[i].lock_hash@ != lock {
        Err(fail(first))
    } else if i > 1 && cells[i].lock_hash@ == lock {
        Err(fail(other))
    } else {
        pair_locks(cells, lock, first, other, i + 1)
    }
}

/// Checks that exactly the first two cells of `so` are under `lock`.
pub fn check_pair_locks(tx: &Tx, so: Source, lock: &[u8], first: u32, other: u32) -> (r: Result<(), Halt<Error>>)
    ensures
        r == pair_locks(tx.cells(so), lock@, first, other, 0),
{
    let cells = tx.cells_of(so);
    let mut i: usize = 0;
    while i < cells.len()
        invariant
            cells@ == tx.cells(so),
            pair_locks(cells@, lock@, first, other, 0) == pair_locks(cells@, lock@, first, other, i as int),
        decreases cells@.len() - i,
    {
        let same = bytes_eq(lock, cells[i].lock_hash.as_slice());
        if i <= 1 {
            if !same {
                return Err(fail_with(first));
            }
        } else if same {
            return Err(fail_with(other));
        }
        i = i + 1;
    }
    Ok(())
}

/// A plan without floating-point comparisons.
pub open spec fn no_checks(r: Result<(), Halt<Error>>) -> (Seq<FloatCheck>, Result<(), Halt<Error>>) {
    (seq![], r)
}

/// The deposit's lock checks: the position and the collateral (first
/// output) are under the collateral lock.
pub open spec fn deposit_locks(tx: Tx, args: Seq<u8>) -> Result<(), Halt<Error>> {
    match config_value(tx, args, id_number(ID::UDTLock)) {
        Err(h) => Err(h),
        Ok(lock) => match cell_at(tx, Source::GroupOutput, 0) {
            Err(h) => Err(h),
            Ok(g0) => if lock != g0.lock_hash@ {
                Err(fail(ERR_DEP_SELF_LOCK))
            } else {
                match cell_at(tx, Source::Output, 0) {
                    Err(h) => Err(h),
                    Ok(o0) => if lock != o0.lock_hash@ {
                        Err(fail(ERR_DEP_UDT_LOCK))
                    } else {
                        Ok(())
                    },
                }
            },
        },
    }
}

/// The deposit's TAI balance: the outputs hold more TAI than the inputs, by the recorded debt.
pub open spec fn deposit_balance(tx: Tx, args: Seq<u8>, tai_amount: u128) -> Result<(), Halt<Error>> {
    match config_value(tx, args, id_number(ID::TAIType)) {
        Err(h) => Err(h),
        Ok(tai_hash) => match typed_amount_sum(tx.inputs@, tai_hash, 0, 0) {
            Err(h) => Err(h),
            Ok(input_amount) => match typed_amount_sum(tx.outputs@, tai_hash, 0, 0) {
                Err(h) => Err(h),
                Ok(output_amount) => if !(input_amount < output_amount) {
                    Err(fail(ERR_DEP_NO_MINT))
                } else if output_amount - input_amount != tai_amount {
                    Err(fail(ERR_DEP_MINT_AMOUNT))
                } else {
                    Ok(())
                },
            },
        },
    }
}

/// The deposit's checks after the interest comparison.
pub open spec fn deposit_tail(tx: Tx, args: Seq<u8>, udt_amount: u128, tai_amount: u128, id: u32, time1: u64, udt_hash: Seq<u8>, rate: u32) -> (Seq<FloatCheck>, Result<(), Halt<Error>>) {
    match udt_price(tx, args, (id + 1) as u32) {
        Err(h) => no_checks(Err(h)),
        Ok((price, time2)) => if !(time1 == 0 || time1 == time2) {
            no_checks(Err(fail(ERR_DEP_TIME)))
        } else {
            match cell_at(tx, Source::Output, 0) {
                Err(h) => no_checks(Err(h)),
                Ok(o0) => if !has_type(o0, udt_hash) {
                    no_checks(Err(fail(ERR_DEP_UDT_TYPE)))
                } else if o0.data@.len() < 16 {
                    no_checks(Err(Halt::Abort))
                } else if amount(o0.data@) != udt_amount {
                    no_checks(Err(fail(ERR_DEP_UDT_AMOUNT)))
                } else if udt_amount <= 100 {
                    no_checks(Err(fail(ERR_DEP_UDT_SMALL)))
                } else {
                    (
                        seq![FloatCheck {
                            test: FloatTest::CollateralCovers { udt_amount, price, rate, tai_amount },
                            code: ERR_DEP_COLLATERAL,
                        }],
                        deposit_balance(tx, args, tai_amount),
                    )
                },
            }
        },
    }
}

/// What a deposit decides: the new position (only output of the script, no
/// input) and the collateral are under the collateral lock; the record's
/// interest covers the token's; its time is zero or that of the price; the
/// first output holds the recorded collateral (above one hundred) whose value
/// covers the TAI; and exactly the recorded TAI is minted.
pub open spec fn deposit_plan(tx: Tx, args: Seq<u8>, data: Seq<u8>) -> (Seq<FloatCheck>, Result<(), Halt<Error>>) {
    if tx.group_outputs@.len() > 1 || tx.group_inputs@.len() > 0 {
        no_checks(Err(Halt::Abort))
    } else {
        match deposit_locks(tx, args) {
            Err(h) => no_checks(Err(h)),
            Ok(_) => match spec_parse_data(data) {
                Err(h) => no_checks(Err(h)),
                Ok((udt_amount, tai_amount, id, _owner, user_interest, time1)) => {
                    let (c1, r1) = udt_and_rate(tx, args, id);
                    match r1 {
                        Err(h) => (c1, Err(h)),
                        Ok((udt_hash, rate, interest)) => match incentive_params(tx, args) {
                            Err(h) => (c1, Err(h)),
                            Ok((incentive, _w)) => {
                                let c2 = c1.push(FloatCheck {
                                    test: FloatTest::InterestCovers { user: user_interest, base: interest, incentive },
                                    code: ERR_DEP_INTEREST,
                                });
                                let (c3, r3) = deposit_tail(tx, args, udt_amount, tai_amount, id, time1, udt_hash, rate);
                                (c2 + c3, r3)
                            },
                        },
                    }
                },
            },
        }
    }
}

fn deposit_locks_exec(tx: &Tx, args: &[u8]) -> (r: Result<(), Halt<Error>>)
    ensures
        r == deposit_locks(*tx, args@),
{
    let lock = get_config_value(tx, args, ID::UDTLock.number())?;
    let g0 = load_cell(tx, Source::GroupOutput, 0)?;
    if !bytes_eq(lock.as_slice(), g0.lock_hash.as_slice()) {
        return Err(fail_with(ERR_DEP_SELF_LOCK));
    }
    let o0 = load_cell(tx, Source::Output, 0)?;
    if !bytes_eq(lock.as_slice(), o0.lock_hash.as_slice()) {
        return Err(fail_with(ERR_DEP_UDT_LOCK));
    }
    Ok(())
}

fn deposit_balance_exec(tx: &Tx, args: &[u8], tai_amount: u128) -> (r: Result<(), Halt<Error>>)
    ensures
        r == deposit_balance(*tx, args@, tai_amount),
{
    let tai_hash = get_config_value(tx, args, ID::TAIType.number())?;
    let input_amount = get_udt_amount(tx, Source::Input, tai_hash.as_slice())?;
    let output_amount = get_udt_amount(tx, Source::Output, tai_hash.as_slice())?;
    if !(input_amount < output_amount) {
        return Err(fail_with(ERR_DEP_NO_MINT));
    }
    if output_amount - input_amount != tai_amount {
        return Err(fail_with(ERR_DEP_MINT_AMOUNT));
    }
    Ok(())
}

fn deposit_tail_exec(
    tx: &Tx,
    args: &[u8],
    udt_amount: u128,
    tai_amount: u128,
    id: u32,
    time1: u64,
    udt_hash: &[u8],
    rate: u32,
    checks: &mut Vec<FloatCheck>,
) -> (r: Result<(), Halt<Error>>)
    requires
        id % 2 == 0,
    ensures
        final(checks)@ == old(checks)@ + deposit_tail(*tx, args@, udt_amount, tai_amount, id, time1, udt_hash@, rate).0,
        r == deposit_tail(*tx, args@, udt_amount, tai_amount, id, time1, udt_hash@, rate).1,
{
    let ghost c0 = checks@;
    proof { assert(c0 =~= c0 + Seq::<FloatCheck>::empty()); }
    let (price, time2) = get_udt_price(tx, args, id + 1)?;
    if !(time1 == 0 || time1 == time2) {
        return Err(fail_with(ERR_DEP_TIME));
    }
    let o0 = load_cell(tx, Source::Output, 0)?;
    if !has_type_eq(o0, udt_hash) {
        return Err(fail_with(ERR_DEP_UDT_TYPE));
    }
    if o0.data.len() < UDT_LEN {
        return Err(Halt::Abort);
    }
    if read_amount(o0.data.as_slice()) != udt_amount {
        return Err(fail_with(ERR_DEP_UDT_AMOUNT));
    }
    if udt_amount <= 100 {
        return Err(fail_with(ERR_DEP_UDT_SMALL));
    }
    let fc = FloatCheck {
        test: FloatTest::CollateralCovers { udt_amount, price, rate, tai_amount },
        code: ERR_DEP_COLLATERAL,
    };
    checks.push(fc);
    proof { assert(checks@ =~= c0 + seq![fc]); }
    deposit_balance_exec(tx, args, tai_amount)
}

/// Checks the creation of a position whose record is `data`.
pub fn deposit(tx: &Tx, args: &[u8], data: &[u8]) -> (r: Plan)
    ensures
        r.checks@ == deposit_plan(*tx, args@, data@).0,
        r.end == deposit_plan(*tx, args@, data@).1,
{
    let mut checks: Vec<FloatCheck> = Vec::new();
    let end = deposit_checks(tx, args, data, &mut checks);
    proof { assert(checks@ =~= Seq::<FloatCheck>::empty() + deposit_plan(*tx, args@, data@).0); }
    Plan { checks, end }
}

fn deposit_checks(tx: &Tx, args: &[u8], data: &[u8], checks: &mut Vec<FloatCheck>) -> (r: Result<(), Halt<Error>>)
    ensures
        final(checks)@ == old(checks)@ + deposit_plan(*tx, args@, data@).0,
        r == deposit_plan(*tx, args@, data@).1,
{
    let ghost c0 = checks@;
    proof { assert(c0 =~= c0 + Seq::<FloatCheck>::empty()); }
    if tx.group_outputs.len() > 1 || tx.group_inputs.len() > 0 {
        return Err(Halt::Abort);
    }
    deposit_locks_exec(tx, args)?;
    let (udt_amount, tai_amount, id, _owner, user_interest, time1) = parse_data(data)?;
    let (udt_hash, rate, interest) = get_udt_and_rate(tx, args, id, checks)?;
    let ghost c1 = checks@;
    let (incentive, _w) = get_incentive_param(tx, args)?;
    let fc = FloatCheck {
        test: FloatTest::InterestCovers { user: user_interest, base: interest, incentive },
        code: ERR_DEP_INTEREST,
    };
    checks.push(fc);
    let ghost c2 = checks@;
    let r = deposit_tail_exec(tx, args, udt_amount, tai_amount, id, time1, udt_hash.as_slice(), rate, checks);
    proof {
        assert(c2 == c1.push(fc));
        assert(checks@ =~= c0 + (udt_and_rate(*tx, args@, id).0.push(fc) + deposit_tail(*tx, args@, udt_amount, tai_amount, id, time1, udt_hash@, rate).0));
    }
    r
}

/// The position checks shared by withdrawal and liquidation: the first two
/// inputs (and no later one) and the position are under the collateral lock,
/// and the first two inputs come from one transaction.  It gives the record.
pub open spec fn spend_head(tx: Tx, args: Seq<u8>, first: u32, other: u32, self_code: u32, same_code: u32) -> Result<Seq<u8>, Halt<Error>> {
    if tx.group_inputs@.len() > 1 || tx.group_outputs@.len() > 0 {
        Err(Halt::Abort)
    } else {
        match config_value(tx, args, id_number(ID::UDTLock)) {
            Err(h) => Err(h),
            Ok(lock) => match pair_locks(tx.inputs@, lock, first, other, 0) {
                Err(h) => Err(h),
                Ok(_) => match cell_at(tx, Source::GroupInput, 0) {
                    Err(h) => Err(h),
                    Ok(g0) => if g0.lock_hash@ != lock {
                        Err(fail(self_code))
                    } else if tx.inputs@.len() < 2 {
                        Err(Halt::Abort)
                    } else if tx.inputs@[0].out_point.tx_hash@ != tx.inputs@[1].out_point.tx_hash@ {
                        Err(fail(same_code))
                    } else {
                        Ok(g0.data@)
                    },
                },
            },
        }
    }
}

fn spend_head_exec(tx: &Tx, args: &[u8], first: u32, other: u32, self_code: u32, same_code: u32) -> (r: Result<Vec<u8>, Halt<Error>>)
    ensures
        bytes_res(r) == spend_head(*tx, args@, first, other, self_code, same_code),
        r is Ok ==> tx.inputs@.len() >= 2,
{
    if tx.group_inputs.len() > 1 || tx.group_outputs.len() > 0 {
        return Err(Halt::Abort);
    }
    let lock = get_config_value(tx, args, ID::UDTLock.number())?;
    check_pair_locks(tx, Source::Input, lock.as_slice(), first, other)?;
    let g0 = load_cell(tx, Source::GroupInput, 0)?;
    if !bytes_eq(g0.lock_hash.as_slice(), lock.as_slice()) {
        return Err(fail_with(self_code));
    }
    if tx.inputs.len() < 2 {
        return Err(Halt::Abort);
    }
    if !bytes_eq(tx.inputs[0].out_point.tx_hash.as_slice(), tx.inputs[1].out_point.tx_hash.as_slice()) {
        return Err(fail_with(same_code));
    }
    let d = copy_range(g0.data.as_slice(), 0, g0.data.len());
    proof { assert(d@ =~= g0.data@); }
    Ok(d)
}

/// The start of the interest period: the record's time, or else the block time of the second input.
pub open spec fn start_time(tx: Tx, time1: u64) -> Result<u64, Halt<Error>> {
    if time1 != 0 {
        Ok(time1)
    } else {
        match tx.spec_header_time(Source::Input, 1) {
            Ok(t) => Ok(t),
            Err(e) => Err(sys_halt(e)),
        }
    }
}

fn start_time_exec(tx: &Tx, time1: u64) -> (r: Result<u64, Halt<Error>>)
    ensures
        r == start_time(*tx, time1),
{
    if time1 != 0 {
        Ok(time1)
    } else {
        match tx.header_time(Source::Input, 1) {
            Ok(t) => Ok(t),
            Err(e) => Err(halt_of_sys(e)),
        }
    }
}

/// The hours of interest between `start` and `end` (in milliseconds): the
/// whole hours elapsed plus one day; one day when `end` is not after `start`.
pub open spec fn interest_hours(start: u64, end: u64) -> u64 {
    if end > start {
        ((end - start) / 1000 / 3600 + 24) as u64
    } else {
        24
    }
}

/// The hours of interest between `start` and `end`.
pub fn get_interest_hours(start: u64, end: u64) -> (r: u64)
    ensures
        r == interest_hours(start, end),
{
    if end > start {
        (end - start) / 1000 / 3600 + 24
    } else {
        24
    }
}

/// The collateral returned on withdrawal: unless the third input is the
/// owner's, the first output gives the owner the recorded collateral.
pub open spec fn withdrawal_owner(tx: Tx, udt_hash: Seq<u8>, udt_amount: u128, owner: Seq<u8>) -> Result<(), Halt<Error>> {
    match cell_at(tx, Source::Input, 2) {
        Err(h) => Err(h),
        Ok(i2) => if i2.lock_hash@ == owner {
            Ok(())
        } else {
            match cell_at(tx, Source::Output, 0) {
                Err(h) => Err(h),
                Ok(o0) => if o0.lock_hash@ != owner {
                    Err(fail(ERR_WD_OWNER_LOCK))
                } else if !has_type(o0, udt_hash) {
                    Err(fail(ERR_WD_OUT_TYPE))
                } else if o0.data@.len() < 16 {
                    Err(Halt::Abort)
                } else if amount(o0.data@) != udt_amount {
                    Err(fail(ERR_WD_OUT_AMOUNT))
                } else {
                    Ok(())
                },
            }
        },
    }
}

fn withdrawal_owner_exec(tx: &Tx, udt_hash: &[u8], udt_amount: u128, owner: &[u8]) -> (r: Result<(), Halt<Error>>)
    ensures
        r == withdrawal_owner(*tx, udt_hash@, udt_amount, owner@),
{
    let i2 = load_cell(tx, Source::Input, 2)?;
    if bytes_eq(i2.lock_hash.as_slice(), owner) {
        return Ok(());
    }
    let o0 = load_cell(tx, Source::Output, 0)?;
    if !bytes_eq(o0.lock_hash.as_slice(), owner) {
        return Err(fail_with(ERR_WD_OWNER_LOCK));
    }
    if !has_type_eq(o0, udt_hash) {
        return Err(fail_with(ERR_WD_OUT_TYPE));
    }
    if o0.data.len() < UDT_LEN {
        return Err(Halt::Abort);
    }
    if read_amount(o0.data.as_slice()) != udt_amount {
        return Err(fail_with(ERR_WD_OUT_AMOUNT));
    }
    Ok(())
}

/// The TAI of a withdrawal: the inputs hold more TAI than the outputs, by the
/// recorded debt; the second output is TAI for the community, and its amount
/// less the TAI already under the community lock is the fee, which is positive.
pub open spec fn withdrawal_fee(tx: Tx, args: Seq<u8>, tai_amount: u128) -> Result<u128, Halt<Error>> {
    match config_value(tx, args, id_number(ID::TAIType)) {
        Err(h) => Err(h),
        Ok(tai_hash) => match typed_amount_sum(tx.inputs@, tai_hash, 0, 0) {
            Err(h) => Err(h),
            Ok(input_amount) => match typed_amount_sum(tx.outputs@, tai_hash, 0, 0) {
                Err(h) => Err(h),
                Ok(output_amount) => if !(input_amount > output_amount) {
                    Err(fail(ERR_WD_NO_REPAY))
                } else if input_amount - output_amount != tai_amount {
                    Err(fail(ERR_WD_REPAY_AMOUNT))
                } else {
                    match cell_at(tx, Source::Output, 1) {
                        Err(h) => Err(h),
                        Ok(o1) => match o1.type_hash {
                            None => Err(Halt::Abort),
                            Some(t) => if t@ != tai_hash {
                                Err(fail(ERR_WD_FEE_TYPE))
                            } else {
                                match config_value(tx, args, id_number(ID::CommunityLock)) {
                                    Err(h) => Err(h),
                                    Ok(community) => if community != o1.lock_hash@ {
                                        Err(fail(ERR_WD_FEE_LOCK))
                                    } else {
                                        match locked_amount_sum(tx.inputs@, community, tai_hash, ERR_WD_FEE_INPUT_TYPE, 0, 0) {
                                            Err(h) => Err(h),
                                            Ok(input_fee) => if o1.data@.len() < 16 {
                                                Err(Halt::Abort)
                                            } else if amount(o1.data@) < input_fee {
                                                Err(Halt::Abort)
                                            } else if amount(o1.data@) - input_fee == 0 {
                                                Err(fail(ERR_WD_NO_FEE))
                                            } else {
                                                Ok((amount(o1.data@) - input_fee) as u128)
                                            },
                                        }
                                    },
                                }
                            },
                        },
                    }
                },
            },
        },
    }
}

fn withdrawal_fee_exec(tx: &Tx, args: &[u8], tai_amount: u128) -> (r: Result<u128, Halt<Error>>)
    ensures
        r == withdrawal_fee(*tx, args@, tai_amount),
{
    let tai_hash = get_config_value(tx, args, ID::TAIType.number())?;
    let input_amount = get_udt_amount(tx, Source::Input, tai_hash.as_slice())?;
    let output_amount = get_udt_amount(tx, Source::Output, tai_hash.as_slice())?;
    if !(input_amount > output_amount) {
        return Err(fail_with(ERR_WD_NO_REPAY));
    }
    if input_amount - output_amount != tai_amount {
        return Err(fail_with(ERR_WD_REPAY_AMOUNT));
    }
    let o1 = load_cell(tx, Source::Output, 1)?;
    match &o1.type_hash {
        None => {
            return Err(Halt::Abort);
        },
        Some(t) => {
            if !bytes_eq(t.as_slice(), tai_hash.as_slice()) {
                return Err(fail_with(ERR_WD_FEE_TYPE));
            }
        },
    }
    let community = get_config_value(tx, args, ID::CommunityLock.number())?;
    if !bytes_eq(community.as_slice(), o1.lock_hash.as_slice()) {
        return Err(fail_with(ERR_WD_FEE_LOCK));
    }
    let input_fee = sum_locked_amounts(tx, Source::Input, community.as_slice(), tai_hash.as_slice(), ERR_WD_FEE_INPUT_TYPE)?;
    if o1.data.len() < UDT_LEN {
        return Err(Halt::Abort);
    }
    let out = read_amount(o1.data.as_slice());
    if out < input_fee {
        return Err(Halt::Abort);
    }
    let fee = out - input_fee;
    if fee == 0 {
        return Err(fail_with(ERR_WD_NO_FEE));
    }
    Ok(fee)
}

/// The checks of a withdrawal after the token entry.
pub open spec fn withdrawal_tail(tx: Tx, args: Seq<u8>, udt_amount: u128, tai_amount: u128, id: u32, owner: Seq<u8>, user_interest: u32, time1: u64, udt_hash: Seq<u8>) -> (Seq<FloatCheck>, Result<(), Halt<Error>>) {
    if !has_type(tx.inputs@[0], udt_hash) {
        no_checks(Err(fail(ERR_WD_UDT_TYPE)))
    } else {
        match incentive_params(tx, args) {
            Err(h) => no_checks(Err(h)),
            Ok((_d, incentive)) => if tx.inputs@[0].data@.len() < 16 {
                no_checks(Err(Halt::Abort))
            } else if amount(tx.inputs@[0].data@) != udt_amount {
                no_checks(Err(fail(ERR_WD_UDT_AMOUNT)))
            } else {
                match withdrawal_owner(tx, udt_hash, udt_amount, owner) {
                    Err(h) => no_checks(Err(h)),
                    Ok(_) => match withdrawal_fee(tx, args, tai_amount) {
                        Err(h) => no_checks(Err(h)),
                        Ok(fee) => match start_time(tx, time1) {
                            Err(h) => no_checks(Err(h)),
                            Ok(start) => match udt_price(tx, args, (id + 1) as u32) {
                                Err(h) => no_checks(Err(h)),
                                Ok((_price, end)) => (
                                    seq![FloatCheck {
                                        test: FloatTest::FeeCovers {
                                            fee,
                                            tai_amount,
                                            user: user_interest,
                                            incentive,
                                            hours: interest_hours(start, end),
                                        },
                                        code: ERR_WD_FEE,
                                    }],
                                    Ok(()),
                                ),
                            },
                        },
                    },
                }
            },
        }
    }
}

/// What a withdrawal decides: the position and the collateral (first two
/// inputs, of one transaction) are spent; the collateral goes back to the
/// owner; the recorded TAI is repaid; and a positive fee to the community
/// covers the interest since the position's time.
pub open spec fn withdrawal_plan(tx: Tx, args: Seq<u8>) -> (Seq<FloatCheck>, Result<(), Halt<Error>>) {
    match spend_head(tx, args, ERR_WD_FIRST_LOCKS, ERR_WD_OTHER_LOCK, ERR_WD_SELF_LOCK, ERR_WD_SAME_TX) {
        Err(h) => no_checks(Err(h)),
        Ok(data) => match spec_parse_data(data) {
            Err(h) => no_checks(Err(h)),
            Ok((udt_amount, tai_amount, id, owner, user_interest, time1)) => {
                let (c1, r1) = udt_and_rate(tx, args, id);
                match r1 {
                    Err(h) => (c1, Err(h)),
                    Ok((udt_hash, _a, _b)) => {
                        let (c2, r2) = withdrawal_tail(tx, args, udt_amount, tai_amount, id, owner, user_interest, time1, udt_hash);
                        (c1 + c2, r2)
                    },
                }
            },
        },
    }
}

fn withdrawal_tail_exec(
    tx: &Tx,
    args: &[u8],
    udt_amount: u128,
    tai_amount: u128,
    id: u32,
    owner: &[u8],
    user_interest: u32,
    time1: u64,
    udt_hash: &[u8],
    checks: &mut Vec<FloatCheck>,
) -> (r: Result<(), Halt<Error>>)
    requires
        id % 2 == 0,
        tx.inputs@.len() >= 2,
    ensures
        final(checks)@ == old(checks)@ + withdrawal_tail(*tx, args@, udt_amount, tai_amount, id, owner@, user_interest, time1, udt_hash@).0,
        r == withdrawal_tail(*tx, args@, udt_amount, tai_amount, id, owner@, user_interest, time1, udt_hash@).1,
{
    let ghost c0 = checks@;
    proof { assert(c0 =~= c0 + Seq::<FloatCheck>::empty()); }
    if !has_type_eq(&tx.inputs[0], udt_hash) {
        return Err(fail_with(ERR_WD_UDT_TYPE));
    }
    let (_d, incentive) = get_incentive_param(tx, args)?;
    if tx.inputs[0].data.len() < UDT_LEN {
        return Err(Halt::Abort);
    }
    if read_amount(tx.inputs[0].data.as_slice()) != udt_amount {
        return Err(fail_with(ERR_WD_UDT_AMOUNT));
    }
    withdrawal_owner_exec(tx, udt_hash, udt_amount, owner)?;
    let fee = withdrawal_fee_exec(tx, args, tai_amount)?;
    let start = start_time_exec(tx, time1)?;
    let (_price, end) = get_udt_price(tx, args, id + 1)?;
    let hours = get_interest_hours(start, end);
    let fc = FloatCheck {
        test: FloatTest::FeeCovers { fee, tai_amount, user: user_interest, incentive, hours },
        code: ERR_WD_FEE,
    };
    checks.push(fc);
    proof { assert(checks@ =~= c0 + seq![fc]); }
    Ok(())
}

fn withdrawal_checks(tx: &Tx, args: &[u8], checks: &mut Vec<FloatCheck>) -> (r: Result<(), Halt<Error>>)
    ensures
        final(checks)@ == old(checks)@ + withdrawal_plan(*tx, args@).0,
        r == withdrawal_plan(*tx, args@).1,
{
    let ghost c0 = checks@;
    proof { assert(c0 =~= c0 + Seq::<FloatCheck>::empty()); }
    let data = spend_head_exec(tx, args, ERR_WD_FIRST_LOCKS, ERR_WD_OTHER_LOCK, ERR_WD_SELF_LOCK, ERR_WD_SAME_TX)?;
    let (udt_amount, tai_amount, id, owner, user_interest, time1) = parse_data(data.as_slice())?;
    let (udt_hash, _a, _b) = get_udt_and_rate(tx, args, id, checks)?;
    let ghost c1 = checks@;
    let r = withdrawal_tail_exec(tx, args, udt_amount, tai_amount, id, owner.as_slice(), user_interest, time1, udt_hash.as_slice(), checks);
    proof {
        assert(checks@ =~= c0 + (udt_and_rate(*tx, args@, id).0 + withdrawal_tail(*tx, args@, udt_amount, tai_amount, id, owner@, user_interest, time1, udt_hash@).0));
    }
    r
}

/// Checks the withdrawal of the collateral of a position.
pub fn withdrawal(tx: &Tx, args: &[u8]) -> (r: Plan)
    ensures
        r.checks@ == withdrawal_plan(*tx, args@).0,
        r.end == withdrawal_plan(*tx, args@).1,
{
    let mut checks: Vec<FloatCheck> = Vec::new();
    let end = withdrawal_checks(tx, args, &mut checks);
    proof { assert(checks@ =~= Seq::<FloatCheck>::empty() + withdrawal_plan(*tx, args@).0); }
    Plan { checks, end }
}

/// The debt that a liquidation creates (second output): it records 95% of
/// the collateral, the position's TAI, token and owner, and has the debt type.
pub open spec fn liquidation_debt(tx: Tx, args: Seq<u8>, udt_amount: u128, tai_amount: u128, id: u32, owner: Seq<u8>) -> Result<u128, Halt<Error>> {
    match cell_at(tx, Source::Output, 1) {
        Err(h) => Err(h),
        Ok(o1) => match spec_parse_data(o1.data@) {
            Err(h) => Err(h),
            Ok((udt_amount2, tai_amount2, id2, owner2, _i, _t)) => if udt_amount * 95 > u128::MAX {
                Err(Halt::Abort)
            } else if udt_amount2 != udt_amount * 95 / 100 {
                Err(fail(ERR_LQ_DEBT_UDT))
            } else if tai_amount2 != tai_amount {
                Err(fail(ERR_LQ_DEBT_TAI))
            } else if id2 != id {
                Err(fail(ERR_LQ_DEBT_ID))
            } else if owner2 != owner {
                Err(fail(ERR_LQ_DEBT_OWNER))
            } else {
                match config_value(tx, args, id_number(ID::DebtType)) {
                    Err(h) => Err(h),
                    Ok(debt_hash) => match o1.type_hash {
                        None => Err(Halt::Abort),
                        Some(t) => if t@ != debt_hash {
                            Err(fail(ERR_LQ_DEBT_TYPE))
                        } else {
                            Ok(udt_amount2)
                        },
                    },
                }
            },
        },
    }
}

fn liquidation_debt_exec(tx: &Tx, args: &[u8], udt_amount: u128, tai_amount: u128, id: u32, owner: &[u8]) -> (r: Result<u128, Halt<Error>>)
    ensures
        r == liquidation_debt(*tx, args@, udt_amount, tai_amount, id, owner@),
{
    let o1 = load_cell(tx, Source::Output, 1)?;
    let (udt_amount2, tai_amount2, id2, owner2, _i, _t) = parse_data(o1.data.as_slice())?;
    if udt_amount > u128::MAX / 95 {
        return Err(Halt::Abort);
    }
    if udt_amount2 != udt_amount * 95 / 100 {
        return Err(fail_with(ERR_LQ_DEBT_UDT));
    }
    if tai_amount2 != tai_amount {
        return Err(fail_with(ERR_LQ_DEBT_TAI));
    }
    if id2 != id {
        return Err(fail_with(ERR_LQ_DEBT_ID));
    }
    if !bytes_eq(owner2.as_slice(), owner) {
        return Err(fail_with(ERR_LQ_DEBT_OWNER));
    }
    let debt_hash = get_config_value(tx, args, ID::DebtType.number())?;
    match &o1.type_hash {
        None => Err(Halt::Abort),
        Some(t) => if !bytes_eq(t.as_slice(), debt_hash.as_slice()) {
            Err(fail_with(ERR_LQ_DEBT_TYPE))
        } else {
            Ok(udt_amount2)
        },
    }
}

/// The liquidation's last check: no TAI among the outputs.
pub open spec fn liquidation_no_tai(tx: Tx, args: Seq<u8>) -> Result<(), Halt<Error>> {
    match config_value(tx, args, id_number(ID::TAIType)) {
        Err(h) => Err(h),
        Ok(tai_hash) => match typed_amount_sum(tx.outputs@, tai_hash, 0, 0) {
            Err(h) => Err(h),
            Ok(output_amount) => if output_amount != 0 {
                Err(fail(ERR_LQ_TAI_OUT))
            } else {
                Ok(())
            },
        },
    }
}

fn liquidation_no_tai_exec(tx: &Tx, args: &[u8]) -> (r: Result<(), Halt<Error>>)
    ensures
        r == liquidation_no_tai(*tx, args@),
{
    let tai_hash = get_config_value(tx, args, ID::TAIType.number())?;
    let output_amount = get_udt_amount(tx, Source::Output, tai_hash.as_slice())?;
    if output_amount != 0 {
        return Err(fail_with(ERR_LQ_TAI_OUT));
    }
    Ok(())
}

/// The checks of a liquidation after the token entry.
pub open spec fn liquidation_tail(tx: Tx, args: Seq<u8>, udt_amount: u128, tai_amount: u128, id: u32, owner: Seq<u8>, udt_hash: Seq<u8>, rate: u32) -> (Seq<FloatCheck>, Result<(), Halt<Error>>) {
    if !has_type(tx.inputs@[0], udt_hash) {
        no_checks(Err(fail(ERR_LQ_UDT_TYPE)))
    } else if tx.inputs@[0].data@.len() < 16 {
        no_checks(Err(Halt::Abort))
    } else if amount(tx.inputs@[0].data@) != udt_amount {
        no_checks(Err(fail(ERR_LQ_UDT_AMOUNT)))
    } else {
        match config_value(tx, args, id_number(ID::DebtLock)) {
            Err(h) => no_checks(Err(h)),
            Ok(debt_lock) => match pair_locks(tx.outputs@, debt_lock, ERR_LQ_FIRST_DEBT_LOCKS, ERR_LQ_OTHER_DEBT_LOCK, 0) {
                Err(h) => no_checks(Err(h)),
                Ok(_) => match liquidation_debt(tx, args, udt_amount, tai_amount, id, owner) {
                    Err(h) => no_checks(Err(h)),
                    Ok(udt_amount2) => match cell_at(tx, Source::Output, 0) {
                        Err(h) => no_checks(Err(h)),
                        Ok(o0) => if !has_type(o0, udt_hash) {
                            no_checks(Err(fail(ERR_LQ_OUT_TYPE)))
                        } else if o0.data@.len() < 16 {
                            no_checks(Err(Halt::Abort))
                        } else if amount(o0.data@) < udt_amount2 {
                            no_checks(Err(fail(ERR_LQ_OUT_AMOUNT)))
                        } else {
                            match udt_price(tx, args, (id + 1) as u32) {
                                Err(h) => no_checks(Err(h)),
                                Ok((price, _end)) => (
                                    seq![FloatCheck {
                                        test: FloatTest::Liquidatable { udt_amount, price, rate, tai_amount },
                                        code: ERR_LQ_COVERED,
                                    }],
                                    liquidation_no_tai(tx, args),
                                ),
                            }
                        },
                    },
                },
            },
        }
    }
}

/// What a liquidation decides: the position and its collateral are spent as
/// on withdrawal; the first two outputs (and no later one) are under the
/// debt lock: at least 95% of the collateral, and a debt recording 95%; the
/// collateral's value (amount, price and liquidation rate) is below the TAI
/// debt; and no TAI is among the outputs.
pub open spec fn liquidation_plan(tx: Tx, args: Seq<u8>) -> (Seq<FloatCheck>, Result<(), Halt<Error>>) {
    match spend_head(tx, args, ERR_LQ_FIRST_LOCKS, ERR_LQ_OTHER_LOCK, ERR_LQ_SELF_LOCK, ERR_LQ_SAME_TX) {
        Err(h) => no_checks(Err(h)),
        Ok(data) => match spec_parse_data(data) {
            Err(h) => no_checks(Err(h)),
            Ok((udt_amount, tai_amount, id, owner, _interest, _time1)) => {
                let (c1, r1) = udt_and_rate(tx, args, id);
                match r1 {
                    Err(h) => (c1, Err(h)),
                    Ok((udt_hash, rate, _b)) => {
                        let (c2, r2) = liquidation_tail(tx, args, udt_amount, tai_amount, id, owner, udt_hash, rate);
                        (c1 + c2, r2)
                    },
                }
            },
        },
    }
}

fn liquidation_tail_exec(
    tx: &Tx,
    args: &[u8],
    udt_amount: u128,
    tai_amount: u128,
    id: u32,
    owner: &[u8],
    udt_hash: &[u8],
    rate: u32,
    checks: &mut Vec<FloatCheck>,
) -> (r: Result<(), Halt<Error>>)
    requires
        id % 2 == 0,
        tx.inputs@.len() >= 2,
    ensures
        final(checks)@ == old(checks)@ + liquidation_tail(*tx, args@, udt_amount, tai_amount, id, owner@, udt_hash@, rate).0,
        r == liquidation_tail(*tx, args@, udt_amount, tai_amount, id, owner@, udt_hash@, rate).1,
{
    let ghost c0 = checks@;
    proof { assert(c0 =~= c0 + Seq::<FloatCheck>::empty()); }
    if !has_type_eq(&tx.inputs[0], udt_hash) {
        return Err(fail_with(ERR_LQ_UDT_TYPE));
    }
    if tx.inputs[0].data.len() < UDT_LEN {
        return Err(Halt::Abort);
    }
    if read_amount(tx.inputs[0].data.as_slice()) != udt_amount {
        return Err(fail_with(ERR_LQ_UDT_AMOUNT));
    }
    let debt_lock = get_config_value(tx, args, ID::DebtLock.number())?;
    check_pair_locks(tx, Source::Output, debt_lock.as_slice(), ERR_LQ_FIRST_DEBT_LOCKS, ERR_LQ_OTHER_DEBT_LOCK)?;
    let udt_amount2 = liquidation_debt_exec(tx, args, udt_amount, tai_amount, id, owner)?;
    let o0 = load_cell(tx, Source::Output, 0)?;
    if !has_type_eq(o0, udt_hash) {
        return Err(fail_with(ERR_LQ_OUT_TYPE));
    }
    if o0.data.len() < UDT_LEN {
        return Err(Halt::Abort);
    }
    if read_amount(o0.data.as_slice()) < udt_amount2 {
        return Err(fail_with(ERR_LQ_OUT_AMOUNT));
    }
    let (price, _end) = get_udt_price(tx, args, id + 1)?;
    let fc = FloatCheck {
        test: FloatTest::Liquidatable { udt_amount, price, rate, tai_amount },
        code: ERR_LQ_COVERED,
    };
    checks.push(fc);
    proof { assert(checks@ =~= c0 + seq![fc]); }
    liquidation_no_tai_exec(tx, args)
}

fn liquidation_checks(tx: &Tx, args: &[u8], checks: &mut Vec<FloatCheck>) -> (r: Result<(), Halt<Error>>)
    ensures
        final(checks)@ == old(checks)@ + liquidation_plan(*tx, args@).0,
        r == liquidation_plan(*tx, args@).1,
{
    let ghost c0 = checks@;
    proof { assert(c0 =~= c0 + Seq::<FloatCheck>::empty()); }
    let data = spend_head_exec(tx, args, ERR_LQ_FIRST_LOCKS, ERR_LQ_OTHER_LOCK, ERR_LQ_SELF_LOCK, ERR_LQ_SAME_TX)?;
    let (udt_amount, tai_amount, id, owner, _interest, _time1) = parse_data(data.as_slice())?;
    let (udt_hash, rate, _b) = get_udt_and_rate(tx, args, id, checks)?;
    let r = liquidation_tail_exec(tx, args, udt_amount, tai_amount, id, owner.as_slice(), udt_hash.as_slice(), rate, checks);
    proof {
        assert(checks@ =~= c0 + (udt_and_rate(*tx, args@, id).0 + liquidation_tail(*tx, args@, udt_amount, tai_amount, id, owner@, udt_hash@, rate).0));
    }
    r
}

/// Checks the liquidation of a position.
pub fn liquidation(tx: &Tx, args: &[u8]) -> (r: Plan)
    ensures
        r.checks@ == liquidation_plan(*tx, args@).0,
        r.end == liquidation_plan(*tx, args@).1,
{
    let mut checks: Vec<FloatCheck> = Vec::new();
    let end = liquidation_checks(tx, args, &mut checks);
    proof { assert(checks@ =~= Seq::<FloatCheck>::empty() + liquidation_plan(*tx, args@).0); }
    Plan { checks, end }
}

/// What the CDP script decides: with its cell among the outputs, a deposit;
/// else a liquidation when the first output is under the debt lock, a
/// withdrawal otherwise.
pub open spec fn main_plan(tx: Tx) -> (Seq<FloatCheck>, Result<(), Halt<Error>>) {
    let args = tx.script_args@;
    if args.len() == 0 {
        no_checks(Err(fail(ERR_ARGS)))
    } else if tx.group_outputs@.len() > 0 {
        deposit_plan(tx, args, tx.group_outputs@[0].data@)
    } else {
        match config_value(tx, args, id_number(ID::DebtLock)) {
            Err(h) => no_checks(Err(h)),
            Ok(debt_lock) => match cell_at(tx, Source::Output, 0) {
                Err(h) => no_checks(Err(h)),
                Ok(o0) => if debt_lock != o0.lock_hash@ {
                    withdrawal_plan(tx, args)
                } else {
                    liquidation_plan(tx, args)
                },
            },
        }
    }
}

/// Runs the CDP script on `tx`.
pub fn main(tx: &Tx) -> (r: Plan)
    ensures
        r.checks@ == main_plan(*tx).0,
        r.end == main_plan(*tx).1,
{
    let args = tx.script_args.as_slice();
    if args.len() == 0 {
        return Plan { checks: Vec::new(), end: Err(fail_with(ERR_ARGS)) };
    }
    if tx.group_outputs.len() > 0 {
        return deposit(tx, args, tx.group_outputs[0].data.as_slice());
    }
    let debt_lock = match get_config_value(tx, args, ID::DebtLock.number()) {
        Ok(l) => l,
        Err(h) => return Plan { checks: Vec::new(), end: Err(h) },
    };
    let o0 = match load_cell(tx, Source::Output, 0) {
        Ok(c) => c,
        Err(h) => return Plan { checks: Vec::new(), end: Err(h) },
    };
    if !bytes_eq(debt_lock.as_slice(), o0.lock_hash.as_slice()) {
        withdrawal(tx, args)
    } else {
        liquidation(tx, args)
    }
}

} // verus!
