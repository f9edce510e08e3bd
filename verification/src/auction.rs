//! The auction script: a Dutch auction of the collateral of a liquidated
//! debt.  The price starts at twice the debt in TAI and falls to zero over
//! a day, after a day of publicity.
use vstd::prelude::*;
use crate::bytes::{le_at, read_u128_le, read_u32_le, read_u64_le, bytes_eq, copy_range};
use crate::common::{
    amount, cell_at, config_hash, config_value, fail, fail_with, get_config_hash,
    get_config_value, halt_of_sys, load_cell, locked_amount_sum, read_amount, same_type,
    same_type_eq, sum_locked_amounts, sys_halt,
};
use crate::config::{ID, id_number};
use crate::error::{Error, Halt};
use crate::tx::{Cell, Source, Tx, has_type, has_type_eq};

verus! {

/// Length of an amount in an auction record.
pub const UDT_VAL_LEN: usize = 16;
/// Length of a token identifier in an auction record.
pub const UDT_ID_LEN: usize = 4;
/// Length of the owner's lock hash in an auction record.
pub const OWNER_LEN: usize = 32;
/// Length of a timestamp in a price entry.
pub const TIME_LEN: usize = 8;
/// Duration of the auction, in milliseconds.
pub const MAX_AUCTION_TIME: u64 = 86_400_000;
/// Time between the creation of an auction and its start, in milliseconds.
pub const PUBLICITY_TIME: u64 = 86_400_000;

/// Exit code: the auction record is shorter than its fields.
pub const ERR_RECORD_LEN: u32 = 42;
/// Exit code: the collateral cell does not have the token's type.
pub const ERR_UDT_TYPE: u32 = 85;
/// Exit code: the collateral cell holds no amount.
pub const ERR_UDT_DATA: u32 = 89;
/// Exit code: the price entry has no timestamp.
pub const ERR_PRICE_LEN: u32 = 100;
/// Exit code (bidding): the first two inputs come from different transactions.
pub const ERR_BID_SAME_TX: u32 = 118;
/// Exit code (bidding): the collateral input does not hold the recorded amount.
pub const ERR_BID_UDT_AMOUNT: u32 = 123;
/// Exit code (bidding): not exactly the two auction cells come first among the inputs.
pub const ERR_BID_LOCK_COUNT: u32 = 134;
/// Exit code (bidding): the publicity period has not passed.
pub const ERR_BID_TOO_EARLY: u32 = 139;
/// Exit code (bidding): the first output is not burned.
pub const ERR_BID_BURN_LOCK: u32 = 144;
/// Exit code (bidding): an input under the burn lock is not TAI.
pub const ERR_BID_BURN_TYPE: u32 = 155;
/// Exit code (bidding): nothing is burned.
pub const ERR_BID_NOTHING_BURNED: u32 = 170;
/// Exit code (bidding): a bid below the debt before half of the auction.
pub const ERR_BID_DEBT_TOO_EARLY: u32 = 174;
/// Exit code (bidding): the second output is not a system debt.
pub const ERR_BID_SYS_DEBT_TYPE: u32 = 177;
/// Exit code (bidding): the system debt holds no amount.
pub const ERR_BID_SYS_DEBT_DATA: u32 = 180;
/// Exit code (bidding): the system debt is not the unpaid rest.
pub const ERR_BID_SYS_DEBT_AMOUNT: u32 = 184;
/// Exit code (bidding): the burn is below the price with a system debt.
pub const ERR_BID_DEBT_PRICE: u32 = 188;
/// Exit code (bidding): the burn is above the debt.
pub const ERR_BID_BURN_AMOUNT: u32 = 191;
/// Exit code (bidding): the second output does not go to the community.
pub const ERR_BID_COMMUNITY_LOCK: u32 = 195;
/// Exit code (bidding): an input under the community lock is not TAI.
pub const ERR_BID_FEE_TYPE: u32 = 205;
/// Exit code (bidding): the fee is above a tenth of the debt.
pub const ERR_BID_FEE_TOO_HIGH: u32 = 220;
/// Exit code (bidding): the refund does not go to the owner.
pub const ERR_BID_REFUND_OWNER: u32 = 223;
/// Exit code (bidding): burn and fee are below the current price.
pub const ERR_BID_PRICE: u32 = 242;
/// Exit code (creation): the first two inputs come from different transactions.
pub const ERR_NEW_SAME_TX: u32 = 262;
/// Exit code (creation): the second input is not under the first input's lock.
pub const ERR_NEW_SECOND_LOCK: u32 = 275;
/// Exit code (creation): a later input is under the first input's lock.
pub const ERR_NEW_OTHER_LOCK: u32 = 277;
/// Exit code (creation): the auction does not copy the debt record.
pub const ERR_NEW_RECORD: u32 = 284;
/// Exit code (creation): the first output is not the collateral token.
pub const ERR_NEW_UDT_TYPE: u32 = 291;
/// Exit code (creation): the first output holds no amount.
pub const ERR_NEW_UDT_DATA: u32 = 293;
/// Exit code (creation): the first output does not hold the collateral amount.
pub const ERR_NEW_UDT_AMOUNT: u32 = 297;
/// Exit code (creation): the second input is not a debt.
pub const ERR_NEW_DEBT_TYPE: u32 = 301;
/// Exit code (creation): the second output is not the auction.
pub const ERR_NEW_AUCTION_POSITION: u32 = 305;
/// Exit code (creation): the first output is not under the auction lock.
pub const ERR_NEW_LOCK0: u32 = 310;
/// Exit code (creation): the second output is not under the auction lock.
pub const ERR_NEW_LOCK1: u32 = 311;
/// Exit code: the script has no arguments.
pub const ERR_ARGS: u32 = 321;

/// The fields of an auction record: the collateral amount, the debt in TAI,
/// the collateral token's configuration identifier and the owner's lock hash.
pub open spec fn spec_parse_data(d: Seq<u8>) -> Result<(u128, u128, u32, Seq<u8>), Halt<Error>> {
    if d.len() < 68 {
        Err(fail(ERR_RECORD_LEN))
    } else {
        Ok((le_at(d, 16, 16) as u128, le_at(d, 0, 16) as u128, le_at(d, 32, 4) as u32, d.subrange(36, 68)))
    }
}

/// Splits an auction record into collateral amount, debt, token identifier and owner.
pub fn parse_data(data: Vec<u8>) -> (r: Result<(u128, u128, u32, Vec<u8>), Halt<Error>>)
    ensures
        match r {
            Ok((u, t, id, o)) => spec_parse_data(data@) == Ok::<(u128, u128, u32, Seq<u8>), Halt<Error>>((u, t, id, o@)),
            Err(h) => spec_parse_data(data@) == Err::<(u128, u128, u32, Seq<u8>), Halt<Error>>(h),
        },
{
    if data.len() < UDT_VAL_LEN + UDT_VAL_LEN + UDT_ID_LEN + OWNER_LEN {
        return Err(fail_with(ERR_RECORD_LEN));
    }
    let d = data.as_slice();
    let tai_amount = read_u128_le(d, 0);
    let udt_amount = read_u128_le(d, 16);
    let id = read_u32_le(d, 32);
    let owner = copy_range(d, 36, 68);
    Ok((udt_amount, tai_amount, id, owner))
}

/// The amount of token `udt_hash` held by cell `index` of `so`.
pub open spec fn udt_amount_at(tx: Tx, so: Source, udt_hash: Seq<u8>, index: int) -> Result<u128, Halt<Error>> {
    match cell_at(tx, so, index) {
        Err(h) => Err(h),
        Ok(c) => if !has_type(c, udt_hash) {
            Err(fail(ERR_UDT_TYPE))
        } else if c.data@.len() < 16 {
            Err(fail(ERR_UDT_DATA))
        } else {
            Ok(amount(c.data@))
        },
    }
}

/// The amount of token `udt_hash` held by cell `index` of `so`.
pub fn get_udt_amount(tx: &Tx, so: Source, udt_hash: &[u8], index: usize) -> (r: Result<u128, Halt<Error>>)
    ensures
        r == udt_amount_at(*tx, so, udt_hash@, index as int),
{
    let c = load_cell(tx, so, index)?;
    if !has_type_eq(c, udt_hash) {
        return Err(fail_with(ERR_UDT_TYPE));
    }
    if c.data.len() < UDT_VAL_LEN {
        return Err(fail_with(ERR_UDT_DATA));
    }
    Ok(read_amount(c.data.as_slice()))
}

/// The timestamp of price entry `id`: the entry is a four-byte price and an
/// eight-byte time; a shorter entry fails, a longer one aborts.
pub open spec fn price_time(tx: Tx, conf: Seq<u8>, id: u32) -> Result<u64, Halt<Error>> {
    match config_value(tx, conf, id) {
        Err(h) => Err(h),
        Ok(d) => if d.len() < 12 {
            Err(fail(ERR_PRICE_LEN))
        } else if d.len() != 12 {
            Err(Halt::Abort)
        } else {
            Ok(le_at(d, 4, 8) as u64)
        },
    }
}

/// The timestamp of price entry `id`.
pub fn get_time(tx: &Tx, conf: &[u8], id: u32) -> (r: Result<u64, Halt<Error>>)
    ensures
        r == price_time(*tx, conf@, id),
{
    let d = get_config_value(tx, conf, id)?;
    if d.len() < UDT_ID_LEN + TIME_LEN {
        return Err(fail_with(ERR_PRICE_LEN));
    }
    if d.len() != UDT_ID_LEN + TIME_LEN {
        return Err(Halt::Abort);
    }
    Ok(read_u64_le(d.as_slice(), 4))
}

/// Whether the first two inputs spend cells of one transaction; fewer than two inputs abort.
pub open spec fn same_tx_check(tx: Tx, code: u32) -> Result<(), Halt<Error>> {
    if tx.inputs@.len() < 2 {
        Err(Halt::Abort)
    } else if tx.inputs@[0].out_point.tx_hash@ != tx.inputs@[1].out_point.tx_hash@ {
        Err(fail(code))
    } else {
        Ok(())
    }
}

/// Checks that the first two inputs spend cells of one transaction.
pub fn check_same_tx(tx: &Tx, code: u32) -> (r: Result<(), Halt<Error>>)
    ensures
        r == same_tx_check(*tx, code),
{
    let o1 = match tx.input_out_point(Source::Input, 0) {
        Ok(o) => o,
        Err(_) => return Err(Halt::Abort),
    };
    let o2 = match tx.input_out_point(Source::Input, 1) {
        Ok(o) => o,
        Err(_) => return Err(Halt::Abort),
    };
    if !bytes_eq(o1.tx_hash.as_slice(), o2.tx_hash.as_slice()) {
        return Err(fail_with(code));
    }
    Ok(())
}

/// Counts the cells from `i` on under `lock`, starting from `count`: a cell
/// under another lock aborts unless exactly two were counted before it, and
/// a count past `i32` aborts.
pub open spec fn lock_count(cells: Seq<Cell>, lock: Seq<u8>, i: int, count: int) -> Result<int, Halt<Error>>
    decreases cells.len() - i,
{
    if i < 0 || i >= cells.len() {
        Ok(count)
    } else if cells[i].lock_hash@ == lock {
        if count + 1 > i32::MAX {
            Err(Halt::Abort)
        } else {
            lock_count(cells, lock, i + 1, count + 1)
        }
    } else if count != 2 {
        Err(Halt::Abort)
    } else {
        lock_count(cells, lock, i + 1, count)
    }
}

fn count_locks(tx: &Tx, lock: &[u8]) -> (r: Result<i32, Halt<Error>>)
    ensures
        match r {
            Ok(n) => lock_count(tx.inputs@, lock@, 0, 0) == Ok::<int, Halt<Error>>(n as int),
            Err(h) => lock_count(tx.inputs@, lock@, 0, 0) == Err::<int, Halt<Error>>(h),
        },
{
    let cells = &tx.inputs;
    let mut count: i32 = 0;
    let mut i: usize = 0;
    while i < cells.len()
        invariant
            cells@ == tx.inputs@,
            i <= cells@.len(),
            0 <= count,
            lock_count(cells@, lock@, 0, 0) == lock_count(cells@, lock@, i as int, count as int),
        decreases cells@.len() - i,
    {
        if bytes_eq(cells[i].lock_hash.as_slice(), lock) {
            if count == i32::MAX {
                return Err(Halt::Abort);
            }
            count = count + 1;
        } else if count != 2 {
            return Err(Halt::Abort);
        }
        i = i + 1;
    }
    Ok(count)
}

/// What the bidder must pay at auction time `t` (at most the duration) for a
/// debt of `tai_amount`: twice the debt, falling linearly to zero; `None`
/// when the product passes `u128`.
pub open spec fn tai_requirement(t: u64, tai_amount: u128) -> Option<u128> {
    let a = (20000 * (MAX_AUCTION_TIME - t)) / (MAX_AUCTION_TIME as int);
    if a * tai_amount > u128::MAX {
        None
    } else {
        Some(((a * tai_amount) / 10000) as u128)
    }
}

/// The price at auction time `t`.
pub fn tai_req(t: u64, tai_amount: u128) -> (r: Option<u128>)
    requires
        t <= MAX_AUCTION_TIME,
    ensures
        r == tai_requirement(t, tai_amount),
{
    let a: u128 = 20000 * ((MAX_AUCTION_TIME - t) as u128) / (MAX_AUCTION_TIME as u128);
    match a.checked_mul(tai_amount) {
        Some(p) => Some(p / 10000),
        None => None,
    }
}

/// The first checks of a bid, up to the TAI type.  It gives the debt, the
/// owner, the time since the start of the auction, the burn lock and the TAI type hash.
pub open spec fn bid_head(tx: Tx, args: Seq<u8>, data: Seq<u8>) -> Result<(u128, Seq<u8>, u64, Seq<u8>, Seq<u8>), Halt<Error>> {
    if tx.group_outputs@.len() > 0 {
        Err(Halt::Abort)
    } else {
        match same_tx_check(tx, ERR_BID_SAME_TX) {
            Err(h) => Err(h),
            Ok(_) => match spec_parse_data(data) {
                Err(h) => Err(h),
                Ok((udt_amount, tai_amount, id, owner)) => match config_hash(tx, args, id) {
                    Err(h) => Err(h),
                    Ok(udt_hash) => match udt_amount_at(tx, Source::Input, udt_hash, 0) {
                        Err(h) => Err(h),
                        Ok(a) => if a != udt_amount {
                            Err(fail(ERR_BID_UDT_AMOUNT))
                        } else {
                            match config_hash(tx, args, id_number(ID::AuctionLock)) {
                                Err(h) => Err(h),
                                Ok(cell_lock) => match lock_count(tx.inputs@, cell_lock, 0, 0) {
                                    Err(h) => Err(h),
                                    Ok(count) => if count != 2 {
                                        Err(fail(ERR_BID_LOCK_COUNT))
                                    } else {
                                        bid_timing(tx, args, tai_amount, id, owner)
                                    },
                                },
                            }
                        },
                    },
                },
            },
        }
    }
}

/// The timing and burn-lock checks of a bid.
pub open spec fn bid_timing(tx: Tx, args: Seq<u8>, tai_amount: u128, id: u32, owner: Seq<u8>) -> Result<(u128, Seq<u8>, u64, Seq<u8>, Seq<u8>), Halt<Error>> {
    match tx.spec_header_time(Source::GroupInput, 0) {
        Err(e) => Err(sys_halt(e)),
        Ok(start) => if id == u32::MAX {
            Err(Halt::Abort)
        } else {
            match price_time(tx, args, (id + 1) as u32) {
                Err(h) => Err(h),
                Ok(end) => if start + PUBLICITY_TIME > u64::MAX {
                    Err(Halt::Abort)
                } else if end < start + PUBLICITY_TIME {
                    Err(fail(ERR_BID_TOO_EARLY))
                } else {
                    match config_hash(tx, args, id_number(ID::BurnLock)) {
                        Err(h) => Err(h),
                        Ok(burn_lock) => match cell_at(tx, Source::Output, 0) {
                            Err(h) => Err(h),
                            Ok(o0) => if burn_lock != o0.lock_hash@ {
                                Err(fail(ERR_BID_BURN_LOCK))
                            } else {
                                match config_hash(tx, args, id_number(ID::TAIType)) {
                                    Err(h) => Err(h),
                                    Ok(tai_hash) => Ok((tai_amount, owner, (end - start - PUBLICITY_TIME) as u64, burn_lock, tai_hash)),
                                }
                            },
                        },
                    }
                },
            }
        },
    }
}

fn bid_head_exec(tx: &Tx, args: &[u8], data: Vec<u8>) -> (r: Result<(u128, Vec<u8>, u64, Vec<u8>, Vec<u8>), Halt<Error>>)
    ensures
        match r {
            Ok((a, o, t, b, h)) => bid_head(*tx, args@, data@) == Ok::<(u128, Seq<u8>, u64, Seq<u8>, Seq<u8>), Halt<Error>>((a, o@, t, b@, h@)),
            Err(e) => bid_head(*tx, args@, data@) == Err::<(u128, Seq<u8>, u64, Seq<u8>, Seq<u8>), Halt<Error>>(e),
        },
{
    if tx.group_outputs.len() > 0 {
        return Err(Halt::Abort);
    }
    check_same_tx(tx, ERR_BID_SAME_TX)?;
    let ghost d = data@;
    let (udt_amount, tai_amount, id, owner) = parse_data(data)?;
    let udt_hash = get_config_hash(tx, args, id)?;
    let udt_amount1 = get_udt_amount(tx, Source::Input, udt_hash.as_slice(), 0)?;
    if udt_amount1 != udt_amount {
        return Err(fail_with(ERR_BID_UDT_AMOUNT));
    }
    let cell_lock = get_config_hash(tx, args, ID::AuctionLock.number())?;
    let count = count_locks(tx, cell_lock.as_slice())?;
    if count != 2 {
        return Err(fail_with(ERR_BID_LOCK_COUNT));
    }
    bid_timing_exec(tx, args, tai_amount, id, owner)
}

fn bid_timing_exec(tx: &Tx, args: &[u8], tai_amount: u128, id: u32, owner: Vec<u8>) -> (r: Result<(u128, Vec<u8>, u64, Vec<u8>, Vec<u8>), Halt<Error>>)
    ensures
        match r {
            Ok((a, o, t, b, h)) => bid_timing(*tx, args@, tai_amount, id, owner@) == Ok::<(u128, Seq<u8>, u64, Seq<u8>, Seq<u8>), Halt<Error>>((a, o@, t, b@, h@)),
            Err(e) => bid_timing(*tx, args@, tai_amount, id, owner@) == Err::<(u128, Seq<u8>, u64, Seq<u8>, Seq<u8>), Halt<Error>>(e),
        },
{
    let start = match tx.header_time(Source::GroupInput, 0) {
        Ok(t) => t,
        Err(e) => return Err(halt_of_sys(e)),
    };
    if id == u32::MAX {
        return Err(Halt::Abort);
    }
    let end = get_time(tx, args, id + 1)?;
    if start > u64::MAX - PUBLICITY_TIME {
        return Err(Halt::Abort);
    }
    if end < start + PUBLICITY_TIME {
        return Err(fail_with(ERR_BID_TOO_EARLY));
    }
    let t = end - start - PUBLICITY_TIME;
    let burn_lock = get_config_hash(tx, args, ID::BurnLock.number())?;
    let o0 = load_cell(tx, Source::Output, 0)?;
    if !bytes_eq(burn_lock.as_slice(), o0.lock_hash.as_slice()) {
        return Err(fail_with(ERR_BID_BURN_LOCK));
    }
    let tai_hash = get_config_hash(tx, args, ID::TAIType.number())?;
    Ok((tai_amount, owner, t, burn_lock, tai_hash))
}

/// A bid that leaves part of the debt unpaid: allowed in the second half of
/// the auction, with a system debt of the rest as second output, and a burn
/// of at least the price.  The price is counted at most to the end of the
/// auction, where it is nothing: after it any positive burn settles.
pub open spec fn bid_with_sys_debt(tx: Tx, args: Seq<u8>, tai_amount: u128, t: u64, burn_tai: u128) -> Result<(), Halt<Error>> {
    if t <= MAX_AUCTION_TIME / 2 {
        Err(fail(ERR_BID_DEBT_TOO_EARLY))
    } else {
        match config_hash(tx, args, id_number(ID::DebtSysType)) {
            Err(h) => Err(h),
            Ok(debt_hash) => match cell_at(tx, Source::Output, 1) {
                Err(h) => Err(h),
                Ok(o1) => if !has_type(o1, debt_hash) {
                    Err(fail(ERR_BID_SYS_DEBT_TYPE))
                } else if o1.data@.len() < 16 {
                    Err(fail(ERR_BID_SYS_DEBT_DATA))
                } else if amount(o1.data@) != tai_amount - burn_tai {
                    Err(fail(ERR_BID_SYS_DEBT_AMOUNT))
                } else {
                    match tai_requirement(if t > MAX_AUCTION_TIME { MAX_AUCTION_TIME } else { t }, tai_amount) {
                        None => Err(Halt::Abort),
                        Some(req) => if burn_tai < req {
                            Err(fail(ERR_BID_DEBT_PRICE))
                        } else {
                            Ok(())
                        },
                    }
                },
            },
        }
    }
}

fn bid_with_sys_debt_exec(tx: &Tx, args: &[u8], tai_amount: u128, t: u64, burn_tai: u128) -> (r: Result<(), Halt<Error>>)
    requires
        burn_tai < tai_amount,
    ensures
        r == bid_with_sys_debt(*tx, args@, tai_amount, t, burn_tai),
{
    if t <= MAX_AUCTION_TIME / 2 {
        return Err(fail_with(ERR_BID_DEBT_TOO_EARLY));
    }
    let debt_hash = get_config_hash(tx, args, ID::DebtSysType.number())?;
    let o1 = load_cell(tx, Source::Output, 1)?;
    if !has_type_eq(o1, debt_hash.as_slice()) {
        return Err(fail_with(ERR_BID_SYS_DEBT_TYPE));
    }
    if o1.data.len() < UDT_VAL_LEN {
        return Err(fail_with(ERR_BID_SYS_DEBT_DATA));
    }
    let v = read_amount(o1.data.as_slice());
    if v != tai_amount - burn_tai {
        return Err(fail_with(ERR_BID_SYS_DEBT_AMOUNT));
    }
    let tc = if t > MAX_AUCTION_TIME { MAX_AUCTION_TIME } else { t };
    match tai_req(tc, tai_amount) {
        None => Err(Halt::Abort),
        Some(req) => if burn_tai < req {
            Err(fail_with(ERR_BID_DEBT_PRICE))
        } else {
            Ok(())
        },
    }
}

/// The last check of a full bid: burn and fee (with the refund) must reach
/// the price at time `t`, counted at most to the end of the auction.
pub open spec fn bid_price_check(fee_tai: u128, burn_tai: u128, t: u64, tai_amount: u128) -> Result<(), Halt<Error>> {
    let tc = if t > MAX_AUCTION_TIME { MAX_AUCTION_TIME } else { t };
    match tai_requirement(tc, tai_amount) {
        None => Err(Halt::Abort),
        Some(req) => if fee_tai + burn_tai > u128::MAX {
            Err(Halt::Abort)
        } else if fee_tai + burn_tai < req {
            Err(fail(ERR_BID_PRICE))
        } else {
            Ok(())
        },
    }
}

/// A bid that burns the whole debt: the second output pays a fee of at most
/// a tenth of the debt to the community; with exactly a tenth the third
/// output refunds the owner.
pub open spec fn bid_with_fee(tx: Tx, args: Seq<u8>, tai_amount: u128, owner: Seq<u8>, t: u64, burn_tai: u128, tai_hash: Seq<u8>) -> Result<(), Halt<Error>> {
    match config_hash(tx, args, id_number(ID::CommunityLock)) {
        Err(h) => Err(h),
        Ok(lock) => match cell_at(tx, Source::Output, 1) {
            Err(h) => Err(h),
            Ok(o1) => if lock != o1.lock_hash@ {
                Err(fail(ERR_BID_COMMUNITY_LOCK))
            } else {
                match locked_amount_sum(tx.inputs@, lock, tai_hash, ERR_BID_FEE_TYPE, 0, 0) {
                    Err(h) => Err(h),
                    Ok(input_fee) => match udt_amount_at(tx, Source::Output, tai_hash, 1) {
                        Err(h) => Err(h),
                        Ok(out1) => if out1 < input_fee {
                            Err(Halt::Abort)
                        } else if out1 - input_fee > tai_amount / 10 {
                            Err(fail(ERR_BID_FEE_TOO_HIGH))
                        } else if out1 - input_fee == tai_amount / 10 {
                            match cell_at(tx, Source::Output, 2) {
                                Err(h) => Err(h),
                                Ok(o2) => if owner != o2.lock_hash@ {
                                    Err(fail(ERR_BID_REFUND_OWNER))
                                } else {
                                    match udt_amount_at(tx, Source::Output, tai_hash, 2) {
                                        Err(h) => Err(h),
                                        Ok(refund) => if (out1 - input_fee) + refund > u128::MAX {
                                            Err(Halt::Abort)
                                        } else {
                                            bid_price_check(((out1 - input_fee) + refund) as u128, burn_tai, t, tai_amount)
                                        },
                                    }
                                },
                            }
                        } else {
                            bid_price_check((out1 - input_fee) as u128, burn_tai, t, tai_amount)
                        },
                    },
                }
            },
        },
    }
}

fn bid_price_check_exec(fee_tai: u128, burn_tai: u128, t: u64, tai_amount: u128) -> (r: Result<(), Halt<Error>>)
    ensures
        r == bid_price_check(fee_tai, burn_tai, t, tai_amount),
{
    let tc = if t > MAX_AUCTION_TIME { MAX_AUCTION_TIME } else { t };
    match tai_req(tc, tai_amount) {
        None => Err(Halt::Abort),
        Some(req) => {
            if fee_tai > u128::MAX - burn_tai {
                Err(Halt::Abort)
            } else if fee_tai + burn_tai < req {
                Err(fail_with(ERR_BID_PRICE))
            } else {
                Ok(())
            }
        },
    }
}

fn bid_with_fee_exec(tx: &Tx, args: &[u8], tai_amount: u128, owner: &[u8], t: u64, burn_tai: u128, tai_hash: &[u8]) -> (r: Result<(), Halt<Error>>)
    ensures
        r == bid_with_fee(*tx, args@, tai_amount, owner@, t, burn_tai, tai_hash@),
{
    let lock = get_config_hash(tx, args, ID::CommunityLock.number())?;
    let o1 = load_cell(tx, Source::Output, 1)?;
    if !bytes_eq(lock.as_slice(), o1.lock_hash.as_slice()) {
        return Err(fail_with(ERR_BID_COMMUNITY_LOCK));
    }
    let input_fee = sum_locked_amounts(tx, Source::Input, lock.as_slice(), tai_hash, ERR_BID_FEE_TYPE)?;
    let out1 = get_udt_amount(tx, Source::Output, tai_hash, 1)?;
    if out1 < input_fee {
        return Err(Halt::Abort);
    }
    let mut fee_tai = out1 - input_fee;
    if fee_tai > tai_amount / 10 {
        return Err(fail_with(ERR_BID_FEE_TOO_HIGH));
    }
    if fee_tai == tai_amount / 10 {
        let o2 = load_cell(tx, Source::Output, 2)?;
        if !bytes_eq(owner, o2.lock_hash.as_slice()) {
            return Err(fail_with(ERR_BID_REFUND_OWNER));
        }
        let refund = get_udt_amount(tx, Source::Output, tai_hash, 2)?;
        if refund > u128::MAX - fee_tai {
            return Err(Halt::Abort);
        }
        fee_tai = fee_tai + refund;
    }
    bid_price_check_exec(fee_tai, burn_tai, t, tai_amount)
}

/// The settlement of a bid: the TAI burned (the first output less the TAI
/// already under the burn lock) pays the debt, or part of it with a system debt.
pub open spec fn bid_settle(tx: Tx, args: Seq<u8>, tai_amount: u128, owner: Seq<u8>, t: u64, burn_lock: Seq<u8>, tai_hash: Seq<u8>) -> Result<(), Halt<Error>> {
    match locked_amount_sum(tx.inputs@, burn_lock, tai_hash, ERR_BID_BURN_TYPE, 0, 0) {
        Err(h) => Err(h),
        Ok(burned) => match udt_amount_at(tx, Source::Output, tai_hash, 0) {
            Err(h) => Err(h),
            Ok(out0) => if out0 < burned {
                Err(Halt::Abort)
            } else if out0 - burned == 0 {
                Err(fail(ERR_BID_NOTHING_BURNED))
            } else if out0 - burned < tai_amount {
                bid_with_sys_debt(tx, args, tai_amount, t, (out0 - burned) as u128)
            } else if out0 - burned != tai_amount {
                Err(fail(ERR_BID_BURN_AMOUNT))
            } else {
                bid_with_fee(tx, args, tai_amount, owner, t, (out0 - burned) as u128, tai_hash)
            },
        },
    }
}

/// What bidding on an auction decides.
pub open spec fn spec_do_auction(tx: Tx, args: Seq<u8>, data: Seq<u8>) -> Result<(), Halt<Error>> {
    match bid_head(tx, args, data) {
        Err(h) => Err(h),
        Ok((tai_amount, owner, t, burn_lock, tai_hash)) => bid_settle(tx, args, tai_amount, owner, t, burn_lock, tai_hash),
    }
}

/// Checks a bid on the auction whose record is `data`.
pub fn do_auction(tx: &Tx, args: &[u8], data: Vec<u8>) -> (r: Result<(), Halt<Error>>)
    ensures
        r == spec_do_auction(*tx, args@, data@),
{
    let (tai_amount, owner, t, burn_lock, tai_hash) = bid_head_exec(tx, args, data)?;
    let burned = sum_locked_amounts(tx, Source::Input, burn_lock.as_slice(), tai_hash.as_slice(), ERR_BID_BURN_TYPE)?;
    let out0 = get_udt_amount(tx, Source::Output, tai_hash.as_slice(), 0)?;
    if out0 < burned {
        return Err(Halt::Abort);
    }
    let burn_tai = out0 - burned;
    if burn_tai == 0 {
        return Err(fail_with(ERR_BID_NOTHING_BURNED));
    }
    if burn_tai < tai_amount {
        return bid_with_sys_debt_exec(tx, args, tai_amount, t, burn_tai);
    }
    if burn_tai != tai_amount {
        return Err(fail_with(ERR_BID_BURN_AMOUNT));
    }
    bid_with_fee_exec(tx, args, tai_amount, owner.as_slice(), t, burn_tai, tai_hash.as_slice())
}

/// The inputs from `i` on: the second is under `lock`, the later ones are not.
pub open spec fn creation_locks(cells: Seq<Cell>, lock: Seq<u8>, i: int) -> Result<(), Halt<Error>>
    decreases cells.len() - i,
{
    if i < 1 || i >= cells.len() {
        Ok(())
    } else if i == 1 && cells[i].lock_hash@ != lock {
        Err(fail(ERR_NEW_SECOND_LOCK))
    } else if i > 1 && cells[i].lock_hash@ == lock {
        Err(fail(ERR_NEW_OTHER_LOCK))
    } else {
        creation_locks(cells, lock, i + 1)
    }
}

fn check_creation_locks(tx: &Tx, lock: &[u8]) -> (r: Result<(), Halt<Error>>)
    ensures
        r == creation_locks(tx.inputs@, lock@, 1),
{
    let cells = &tx.inputs;
    let mut i: usize = 1;
    while i < cells.len()
        invariant
            cells@ == tx.inputs@,
            1 <= i,
            creation_locks(cells@, lock@, 1) == creation_locks(cells@, lock@, i as int),
        decreases cells@.len() - i,
    {
        let same = bytes_eq(lock, cells[i].lock_hash.as_slice());
        if i == 1 {
            if !same {
                return Err(fail_with(ERR_NEW_SECOND_LOCK));
            }
        } else if same {
            return Err(fail_with(ERR_NEW_OTHER_LOCK));
        }
        i = i + 1;
    }
    Ok(())
}

/// The checks of the new auction's outputs, given its collateral amount and
/// token: the second output holds the collateral, the first carries the
/// auction's own type, and both stand under the auction lock.
pub open spec fn creation_outputs(tx: Tx, args: Seq<u8>, udt_amount: u128, id: u32) -> Result<(), Halt<Error>> {
    match config_hash(tx, args, id) {
        Err(h) => Err(h),
        Ok(udt_hash) => match cell_at(tx, Source::Output, 1) {
            Err(h) => Err(h),
            Ok(o1) => if !has_type(o1, udt_hash) {
                Err(fail(ERR_NEW_UDT_TYPE))
            } else if o1.data@.len() < 16 {
                Err(fail(ERR_NEW_UDT_DATA))
            } else if amount(o1.data@) != udt_amount {
                Err(fail(ERR_NEW_UDT_AMOUNT))
            } else {
                match config_hash(tx, args, id_number(ID::DebtType)) {
                    Err(h) => Err(h),
                    Ok(debt_hash) => if !has_type(tx.inputs@[1], debt_hash) {
                        Err(fail(ERR_NEW_DEBT_TYPE))
                    } else {
                        match cell_at(tx, Source::Output, 0) {
                            Err(h) => Err(h),
                            Ok(o0) => if !same_type(tx.group_outputs@[0].type_hash, o0.type_hash) {
                                Err(fail(ERR_NEW_AUCTION_POSITION))
                            } else {
                                match config_hash(tx, args, id_number(ID::AuctionLock)) {
                                    Err(h) => Err(h),
                                    Ok(lock) => if lock != o0.lock_hash@ {
                                        Err(fail(ERR_NEW_LOCK0))
                                    } else if lock != o1.lock_hash@ {
                                        Err(fail(ERR_NEW_LOCK1))
                                    } else {
                                        Ok(())
                                    },
                                }
                            },
                        }
                    },
                }
            },
        },
    }
}

/// What creating an auction decides: the second input is the debt, spent
/// together with the first input in one transaction; the auction copies the
/// debt record; the first output is the auction and the second holds the
/// collateral, both under the auction lock.
pub open spec fn spec_new_auction(tx: Tx, args: Seq<u8>) -> Result<(), Halt<Error>> {
    if tx.group_inputs@.len() > 0 {
        Err(Halt::Abort)
    } else {
        match same_tx_check(tx, ERR_NEW_SAME_TX) {
            Err(h) => Err(h),
            Ok(_) => match creation_locks(tx.inputs@, tx.inputs@[0].lock_hash@, 1) {
                Err(h) => Err(h),
                Ok(_) => match cell_at(tx, Source::GroupOutput, 0) {
                    Err(h) => Err(h),
                    Ok(g0) => if tx.inputs@[1].data@ != g0.data@ {
                        Err(fail(ERR_NEW_RECORD))
                    } else {
                        match spec_parse_data(g0.data@) {
                            Err(h) => Err(h),
                            Ok((udt_amount, _t, id, _o)) => creation_outputs(tx, args, udt_amount, id),
                        }
                    },
                },
            },
        }
    }
}

fn creation_outputs_exec(tx: &Tx, args: &[u8], udt_amount: u128, id: u32) -> (r: Result<(), Halt<Error>>)
    requires
        tx.inputs@.len() >= 2,
        tx.group_outputs@.len() >= 1,
    ensures
        r == creation_outputs(*tx, args@, udt_amount, id),
{
    let udt_hash = get_config_hash(tx, args, id)?;
    let o1 = load_cell(tx, Source::Output, 1)?;
    if !has_type_eq(o1, udt_hash.as_slice()) {
        return Err(fail_with(ERR_NEW_UDT_TYPE));
    }
    if o1.data.len() < UDT_VAL_LEN {
        return Err(fail_with(ERR_NEW_UDT_DATA));
    }
    if read_amount(o1.data.as_slice()) != udt_amount {
        return Err(fail_with(ERR_NEW_UDT_AMOUNT));
    }
    let debt_hash = get_config_hash(tx, args, ID::DebtType.number())?;
    if !has_type_eq(&tx.inputs[1], debt_hash.as_slice()) {
        return Err(fail_with(ERR_NEW_DEBT_TYPE));
    }
    let o0 = load_cell(tx, Source::Output, 0)?;
    if !same_type_eq(&tx.group_outputs[0].type_hash, &o0.type_hash) {
        return Err(fail_with(ERR_NEW_AUCTION_POSITION));
    }
    let lock = get_config_hash(tx, args, ID::AuctionLock.number())?;
    if !bytes_eq(lock.as_slice(), o0.lock_hash.as_slice()) {
        return Err(fail_with(ERR_NEW_LOCK0));
    }
    if !bytes_eq(lock.as_slice(), o1.lock_hash.as_slice()) {
        return Err(fail_with(ERR_NEW_LOCK1));
    }
    Ok(())
}

/// Checks the creation of an auction.
pub fn new_auction(tx: &Tx, args: &[u8]) -> (r: Result<(), Halt<Error>>)
    ensures
        r == spec_new_auction(*tx, args@),
{
    if tx.group_inputs.len() > 0 {
        return Err(Halt::Abort);
    }
    check_same_tx(tx, ERR_NEW_SAME_TX)?;
    check_creation_locks(tx, tx.inputs[0].lock_hash.as_slice())?;
    let g0 = load_cell(tx, Source::GroupOutput, 0)?;
    if !bytes_eq(tx.inputs[1].data.as_slice(), g0.data.as_slice()) {
        return Err(fail_with(ERR_NEW_RECORD));
    }
    let record = copy_range(g0.data.as_slice(), 0, g0.data.len());
    proof {
        assert(record@ =~= g0.data@);
    }
    let (udt_amount, _tai_amount, id, _owner) = parse_data(record)?;
    creation_outputs_exec(tx, args, udt_amount, id)
}

/// What the auction script decides: with its cell among the inputs it
/// checks a bid, else the creation; more than one auction cell on either
/// side aborts.
pub open spec fn spec_main(tx: Tx) -> Result<(), Halt<Error>> {
    if tx.script_args@.len() == 0 {
        Err(fail(ERR_ARGS))
    } else if tx.group_inputs@.len() > 1 || tx.group_outputs@.len() > 1 {
        Err(Halt::Abort)
    } else if tx.group_inputs@.len() == 1 {
        spec_do_auction(tx, tx.script_args@, tx.group_inputs@[0].data@)
    } else {
        spec_new_auction(tx, tx.script_args@)
    }
}

/// Runs the auction script on `tx`.
pub fn main(tx: &Tx) -> (r: Result<(), Halt<Error>>)
    ensures
        r == spec_main(*tx),
{
    let args = tx.script_args.as_slice();
    if args.len() == 0 {
        return Err(fail_with(ERR_ARGS));
    }
    if tx.group_inputs.len() > 1 || tx.group_outputs.len() > 1 {
        return Err(Halt::Abort);
    }
    if tx.group_inputs.len() == 1 {
        let d = &tx.group_inputs[0].data;
        let data = copy_range(d.as_slice(), 0, d.len());
        proof {
            assert(data@ =~= d@);
        }
        do_auction(tx, args, data)
    } else {
        new_auction(tx, args)
    }
}

} // verus!
