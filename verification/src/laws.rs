//! Properties of the scripts that span their checks: what an accepted
//! transaction guarantees about the amounts it moves, the identifiers it
//! carries and the times it is checked at.
use vstd::prelude::*;
use vstd::arithmetic::div_mod::lemma_div_is_ordered;
use vstd::arithmetic::mul::lemma_mul_inequality;
use crate::auction::{MAX_AUCTION_TIME, tai_requirement};
use crate::bytes::le_at;
use crate::common::{amount, config_value, typed_amount_sum};
use crate::config::{ID, id_number};
use crate::error::{Error, Halt};
use crate::tx::{Cell, Source, Tx, has_type, out_point_bytes, type_hash_or_zero};

verus! {

/// The sum of the token amounts of the cells from `i` on.
pub open spec fn total_amount(cells: Seq<Cell>, i: int) -> nat
    decreases cells.len() - i,
{
    if i < 0 || i >= cells.len() {
        0
    } else {
        amount(cells[i].data@) as nat + total_amount(cells, i + 1)
    }
}

/// The sum of the amounts of the cells from `i` on whose type hash (thirty-two zeros when missing) is `token`.
pub open spec fn typed_total(cells: Seq<Cell>, token: Seq<u8>, i: int) -> nat
    decreases cells.len() - i,
{
    if i < 0 || i >= cells.len() {
        0
    } else if type_hash_or_zero(cells[i]) == token {
        amount(cells[i].data@) as nat + typed_total(cells, token, i + 1)
    } else {
        typed_total(cells, token, i + 1)
    }
}

/// The sum of the amounts of the cells from `i` on under the lock `lock`.
pub open spec fn locked_total(cells: Seq<Cell>, lock: Seq<u8>, i: int) -> nat
    decreases cells.len() - i,
{
    if i < 0 || i >= cells.len() {
        0
    } else if cells[i].lock_hash@ == lock {
        amount(cells[i].data@) as nat + locked_total(cells, lock, i + 1)
    } else {
        locked_total(cells, lock, i + 1)
    }
}

/// The auction price is twice the debt at the start, nothing at the end of
/// the auction, and never rises in between.
pub proof fn law_auction_price_falls(tai_amount: u128, t1: u64, t2: u64)
    requires
        t1 <= t2 <= MAX_AUCTION_TIME,
        tai_requirement(t1, tai_amount) is Some,
    ensures
        tai_requirement(t2, tai_amount) is Some,
        tai_requirement(t2, tai_amount).unwrap() <= tai_requirement(t1, tai_amount).unwrap(),
        t1 == 0 ==> tai_requirement(t1, tai_amount) == Some((2 * tai_amount) as u128),
        tai_requirement(MAX_AUCTION_TIME, tai_amount) == Some(0u128),
{
    let m = MAX_AUCTION_TIME as int;
    let a1 = (20000 * (m - t1)) / m;
    let a2 = (20000 * (m - t2)) / m;
    lemma_div_is_ordered(20000 * (m - t2), 20000 * (m - t1), m);
    assert(0 <= a2);
    lemma_mul_inequality(a2, a1, tai_amount as int);
    lemma_div_is_ordered(a2 * tai_amount, a1 * tai_amount, 10000);
    if t1 == 0 {
        assert((20000 * (m - 0)) / m == 20000) by (nonlinear_arith)
            requires m == 86_400_000;
        assert((20000 * tai_amount) / 10000 == 2 * tai_amount) by (nonlinear_arith);
    }
    assert((20000 * (m - m)) / m == 0);
}

/// A token sum that succeeds adds the amounts of all cells.
pub proof fn lemma_amount_sum_total(cells: Seq<Cell>, i: int, sum: u128)
    requires
        0 <= i,
        crate::token::amount_sum(cells, i, sum) is Ok,
    ensures
        crate::token::amount_sum(cells, i, sum).unwrap() == sum + total_amount(cells, i),
    decreases cells.len() - i,
{
    if i < cells.len() {
        lemma_amount_sum_total(cells, i + 1, (sum + amount(cells[i].data@)) as u128);
    }
}

/// A typed sum that succeeds adds the amounts of the cells of the type.
pub proof fn lemma_typed_sum_total(cells: Seq<Cell>, token: Seq<u8>, i: int, acc: u128)
    requires
        0 <= i,
        typed_amount_sum(cells, token, i, acc) is Ok,
    ensures
        typed_amount_sum(cells, token, i, acc).unwrap() == acc + typed_total(cells, token, i),
    decreases cells.len() - i,
{
    if i < cells.len() {
        if type_hash_or_zero(cells[i]) == token {
            lemma_typed_sum_total(cells, token, i + 1, (acc + amount(cells[i].data@)) as u128);
        } else {
            lemma_typed_sum_total(cells, token, i + 1, acc);
        }
    }
}

/// Every cell from `i` on whose type hash is `token` holds a full amount.
pub open spec fn typed_amounts_whole(cells: Seq<Cell>, token: Seq<u8>, i: int) -> bool
    decreases cells.len() - i,
{
    if i < 0 || i >= cells.len() {
        true
    } else {
        &&& (type_hash_or_zero(cells[i]) == token ==> cells[i].data@.len() >= 16)
        &&& typed_amounts_whole(cells, token, i + 1)
    }
}

/// What the cell `c` adds to the sum of the token `token`.
pub open spec fn typed_part(c: Cell, token: Seq<u8>) -> nat {
    if type_hash_or_zero(c) == token {
        amount(c.data@) as nat
    } else {
        0
    }
}

/// A typed sum gives the total of the token's amounts exactly when every
/// cell of the token holds a full amount and the total fits in `u128`;
/// otherwise it aborts.
pub proof fn lemma_typed_sum_exact(cells: Seq<Cell>, token: Seq<u8>, i: int, acc: u128)
    requires
        0 <= i,
    ensures
        typed_amount_sum(cells, token, i, acc) == (if typed_amounts_whole(cells, token, i)
            && acc + typed_total(cells, token, i) <= u128::MAX {
            Ok::<u128, Halt<Error>>((acc + typed_total(cells, token, i)) as u128)
        } else {
            Err(Halt::Abort)
        }),
    decreases cells.len() - i,
{
    if i < cells.len() {
        if type_hash_or_zero(cells[i]) == token {
            if cells[i].data@.len() >= 16 && acc + amount(cells[i].data@) <= u128::MAX {
                lemma_typed_sum_exact(cells, token, i + 1, (acc + amount(cells[i].data@)) as u128);
            }
        } else {
            lemma_typed_sum_exact(cells, token, i + 1, acc);
        }
    }
}

/// The totals of `cells` with `c` inserted at `k`, counted from `i` on.
proof fn lemma_insert_typed(cells: Seq<Cell>, token: Seq<u8>, k: int, c: Cell, i: int)
    requires
        0 <= k <= cells.len(),
        0 <= i <= cells.len() + 1,
    ensures
        i <= k ==> typed_total(cells.insert(k, c), token, i) == typed_total(cells, token, i) + typed_part(c, token),
        i <= k ==> typed_amounts_whole(cells.insert(k, c), token, i) == (typed_amounts_whole(cells, token, i)
            && (type_hash_or_zero(c) == token ==> c.data@.len() >= 16)),
        i > k ==> typed_total(cells.insert(k, c), token, i) == typed_total(cells, token, i - 1),
        i > k ==> typed_amounts_whole(cells.insert(k, c), token, i) == typed_amounts_whole(cells, token, i - 1),
    decreases cells.len() + 1 - i,
{
    let s = cells.insert(k, c);
    cells.insert_ensures(k, c);
    if i < s.len() {
        lemma_insert_typed(cells, token, k, c, i + 1);
        if i < k {
            assert(s[i] == cells[i]);
        } else if i == k {
            assert(s[i] == c);
        } else {
            assert(s[(i - 1) + 1] == cells[i - 1]);
        }
    }
}

/// The sum of a token over a list of cells does not depend on where a cell
/// stands: with one cell inserted anywhere, the sum grows by that cell's
/// amount if it has the token's type and by nothing otherwise; it aborts
/// only if that cell's amount is short or the new total passes `u128`.
pub proof fn law_udt_amount_ignores_position(cells: Seq<Cell>, token: Seq<u8>, k: int, c: Cell)
    requires
        0 <= k <= cells.len(),
        typed_amount_sum(cells, token, 0, 0) is Ok,
    ensures
        typed_amount_sum(cells.insert(k, c), token, 0, 0) == (if (type_hash_or_zero(c) == token ==> c.data@.len() >= 16)
            && typed_amount_sum(cells, token, 0, 0).unwrap() + typed_part(c, token) <= u128::MAX {
            Ok::<u128, Halt<Error>>((typed_amount_sum(cells, token, 0, 0).unwrap() + typed_part(c, token)) as u128)
        } else {
            Err(Halt::Abort)
        }),
{
    lemma_typed_sum_exact(cells, token, 0, 0);
    lemma_typed_sum_exact(cells.insert(k, c), token, 0, 0);
    lemma_insert_typed(cells, token, k, c, 0);
}

/// A burn-lock group sum that succeeds adds the amounts of all cells, which all have the token's type.
pub proof fn lemma_group_sum_total(cells: Seq<Cell>, udt: Seq<u8>, i: int, acc: u128)
    requires
        0 <= i,
        crate::burn_lock::group_sum(cells, udt, i, acc) is Ok,
    ensures
        crate::burn_lock::group_sum(cells, udt, i, acc).unwrap() == acc + total_amount(cells, i),
        forall|k: int| i <= k < cells.len() ==> has_type(#[trigger] cells[k], udt),
    decreases cells.len() - i,
{
    if i < cells.len() {
        lemma_group_sum_total(cells, udt, i + 1, (acc + amount(cells[i].data@)) as u128);
        assert forall|k: int| i <= k < cells.len() implies has_type(#[trigger] cells[k], udt) by {
            if k > i {
                assert(has_type(cells[k], udt));
            }
        }
    }
}

/// A burn-lock output sum that succeeds adds the amounts of the cells under the lock.
pub proof fn lemma_locked_sum_total(cells: Seq<Cell>, lock: Seq<u8>, udt: Seq<u8>, i: int, acc: u128)
    requires
        0 <= i,
        crate::burn_lock::locked_sum(cells, lock, udt, i, acc) is Ok,
    ensures
        crate::burn_lock::locked_sum(cells, lock, udt, i, acc).unwrap() == acc + locked_total(cells, lock, i),
    decreases cells.len() - i,
{
    if i < cells.len() {
        if cells[i].lock_hash@ == lock {
            lemma_locked_sum_total(cells, lock, udt, i + 1, (acc + amount(cells[i].data@)) as u128);
        } else {
            lemma_locked_sum_total(cells, lock, udt, i + 1, acc);
        }
    }
}

/// A token transaction that the token script accepts outside owner mode
/// keeps the total amount: the script's outputs hold what its inputs held.
pub proof fn law_token_conserved(tx: Tx)
    requires
        crate::token::spec_main(tx) is Ok,
        !(crate::token::owner_mode(tx, tx.script_args@) is Ok),
    ensures
        total_amount(tx.group_inputs@, 0) == total_amount(tx.group_outputs@, 0),
{
    lemma_amount_sum_total(tx.group_inputs@, 0, 0);
    lemma_amount_sum_total(tx.group_outputs@, 0, 0);
}

/// Tokens under the burn lock only grow: an accepted spend has inputs of the
/// token under the lock, and puts more of it back under the same lock.
pub proof fn law_burn_lock_grows(tx: Tx)
    requires
        crate::burn_lock::spec_main(tx) is Ok,
    ensures
        tx.group_inputs@.len() > 0,
        forall|k: int| 0 <= k < tx.group_inputs@.len() ==> has_type(#[trigger] tx.group_inputs@[k], tx.script_args@),
        total_amount(tx.group_inputs@, 0) < locked_total(tx.outputs@, tx.group_inputs@[0].lock_hash@, 0),
{
    lemma_group_sum_total(tx.group_inputs@, tx.script_args@, 0, 0);
    lemma_locked_sum_total(tx.outputs@, tx.group_inputs@[0].lock_hash@, tx.script_args@, 0, 0);
}

/// The index counts up by one: an accepted transaction turns number `n`
/// into `n + 1`, and makes number one only where the arguments are the out
/// point of the first input.
pub proof fn law_index_counts_up(tx: Tx)
    requires
        crate::index::spec_main(tx) is Ok,
    ensures
        crate::index::single_id(tx.group_inputs@) is Ok,
        crate::index::single_id(tx.group_outputs@) is Ok,
        crate::index::single_id(tx.group_outputs@).unwrap() == crate::index::single_id(tx.group_inputs@).unwrap() + 1,
        crate::index::single_id(tx.group_inputs@).unwrap() == 0 ==> tx.inputs@.len() > 0
            && tx.script_args@ == out_point_bytes(tx.inputs@[0].out_point),
{
}

/// A configuration cell keeps its identifier: an accepted update carries
/// the input's identifier on, and a new cell carries the index cell's.
pub proof fn law_config_id_kept(tx: Tx)
    requires
        crate::config::spec_main(tx) is Ok,
    ensures
        crate::config::id_scan(tx.group_inputs@, false, 0, false, 0) is Ok,
        ({
            let in_id = crate::config::id_scan(tx.group_inputs@, false, 0, false, 0).unwrap();
            &&& crate::config::id_scan(tx.group_outputs@, in_id == 0, 0, false, 0) is Ok
            &&& {
                let out_id = crate::config::id_scan(tx.group_outputs@, in_id == 0, 0, false, 0).unwrap();
                &&& out_id != 0
                &&& in_id != 0 ==> out_id == in_id
                &&& in_id == 0 ==> crate::config::index_scan(tx.inputs@, tx.script_args@, 0, false, 0) == Ok::<u32, crate::error::Halt<crate::error::ScriptError>>(out_id)
            }
        }),
{
}

/// The TAI type hash of the configuration named by `args`.
pub open spec fn tai_type(tx: Tx, args: Seq<u8>) -> Seq<u8> {
    config_value(tx, args, id_number(ID::TAIType)).unwrap()
}

proof fn lemma_deposit_balance(tx: Tx, args: Seq<u8>, tai_amount: u128)
    requires
        crate::cdp::deposit_balance(tx, args, tai_amount) is Ok,
    ensures
        config_value(tx, args, id_number(ID::TAIType)) is Ok,
        typed_total(tx.outputs@, tai_type(tx, args), 0) == typed_total(tx.inputs@, tai_type(tx, args), 0) + tai_amount,
{
    let h = tai_type(tx, args);
    lemma_typed_sum_total(tx.inputs@, h, 0, 0);
    lemma_typed_sum_total(tx.outputs@, h, 0, 0);
}

/// A deposit that passes all its checks mints exactly the TAI that the new
/// position records as its debt, against a recorded collateral above one hundred.
pub proof fn law_deposit_mints_debt(tx: Tx, args: Seq<u8>, data: Seq<u8>)
    requires
        crate::cdp::deposit_plan(tx, args, data).1 is Ok,
    ensures
        data.len() == 80,
        config_value(tx, args, id_number(ID::TAIType)) is Ok,
        typed_total(tx.outputs@, tai_type(tx, args), 0) == typed_total(tx.inputs@, tai_type(tx, args), 0) + le_at(data, 0, 16),
        le_at(data, 16, 16) > 100,
{
    let rec = crate::cdp::spec_parse_data(data).unwrap();
    let id = rec.2;
    let r1 = crate::cdp::udt_and_rate(tx, args, id).1;
    let (udt_hash, rate, _interest) = r1.unwrap();
    crate::bytes_lemmas::lemma_le_value_bound(data.subrange(0, 16));
    crate::bytes_lemmas::lemma_le_value_bound(data.subrange(16, 32));
    crate::bytes_lemmas::lemma_pow256_16();
    let tail = crate::cdp::deposit_tail(tx, args, rec.0, rec.1, id, rec.5, udt_hash, rate);
    assert(tail.1 is Ok);
    lemma_deposit_balance(tx, args, rec.1);
}

/// The record of the position that group input 0 carries.
pub open spec fn position_record(tx: Tx) -> Seq<u8> {
    tx.group_inputs@[0].data@
}

proof fn lemma_withdrawal_fee(tx: Tx, args: Seq<u8>, tai_amount: u128)
    requires
        crate::cdp::withdrawal_fee(tx, args, tai_amount) is Ok,
    ensures
        config_value(tx, args, id_number(ID::TAIType)) is Ok,
        typed_total(tx.inputs@, tai_type(tx, args), 0) == typed_total(tx.outputs@, tai_type(tx, args), 0) + tai_amount,
{
    let h = tai_type(tx, args);
    lemma_typed_sum_total(tx.inputs@, h, 0, 0);
    lemma_typed_sum_total(tx.outputs@, h, 0, 0);
}

/// A withdrawal that passes all its checks spends the only position cell and
/// repays exactly the TAI that the position records as its debt.
pub proof fn law_withdrawal_repays_debt(tx: Tx, args: Seq<u8>)
    requires
        crate::cdp::withdrawal_plan(tx, args).1 is Ok,
    ensures
        tx.group_inputs@.len() == 1,
        position_record(tx).len() == 80,
        config_value(tx, args, id_number(ID::TAIType)) is Ok,
        typed_total(tx.inputs@, tai_type(tx, args), 0) == typed_total(tx.outputs@, tai_type(tx, args), 0) + le_at(position_record(tx), 0, 16),
{
    let data = crate::cdp::spend_head(tx, args, crate::cdp::ERR_WD_FIRST_LOCKS, crate::cdp::ERR_WD_OTHER_LOCK, crate::cdp::ERR_WD_SELF_LOCK, crate::cdp::ERR_WD_SAME_TX).unwrap();
    assert(data == position_record(tx));
    let rec = crate::cdp::spec_parse_data(data).unwrap();
    let id = rec.2;
    let (udt_hash, _a, _b) = crate::cdp::udt_and_rate(tx, args, id).1.unwrap();
    crate::bytes_lemmas::lemma_le_value_bound(data.subrange(0, 16));
    crate::bytes_lemmas::lemma_pow256_16();
    let tail = crate::cdp::withdrawal_tail(tx, args, rec.0, rec.1, id, rec.3, rec.4, rec.5, udt_hash);
    assert(tail.1 is Ok);
    lemma_withdrawal_fee(tx, args, rec.1);
}

/// A liquidation that passes all its checks keeps at least 95% of the
/// collateral (first output) and turns the position into a debt (second
/// output) that records 95% of it, the same TAI, token and owner, and leaves
/// no TAI among the outputs.
pub proof fn law_liquidation_records_debt(tx: Tx, args: Seq<u8>)
    requires
        crate::cdp::liquidation_plan(tx, args).1 is Ok,
    ensures
        tx.group_inputs@.len() == 1,
        tx.outputs@.len() >= 2,
        position_record(tx).len() == 80,
        tx.outputs@[1].data@.len() == 80,
        le_at(tx.outputs@[1].data@, 16, 16) == le_at(position_record(tx), 16, 16) * 95 / 100,
        le_at(tx.outputs@[1].data@, 0, 16) == le_at(position_record(tx), 0, 16),
        le_at(tx.outputs@[1].data@, 32, 4) == le_at(position_record(tx), 32, 4),
        tx.outputs@[1].data@.subrange(36, 68) == position_record(tx).subrange(36, 68),
        tx.outputs@[0].data@.len() >= 16,
        amount(tx.outputs@[0].data@) >= le_at(position_record(tx), 16, 16) * 95 / 100,
        config_value(tx, args, id_number(ID::TAIType)) is Ok,
        typed_total(tx.outputs@, tai_type(tx, args), 0) == 0,
{
    let data = crate::cdp::spend_head(tx, args, crate::cdp::ERR_LQ_FIRST_LOCKS, crate::cdp::ERR_LQ_OTHER_LOCK, crate::cdp::ERR_LQ_SELF_LOCK, crate::cdp::ERR_LQ_SAME_TX).unwrap();
    assert(data == position_record(tx));
    let rec = crate::cdp::spec_parse_data(data).unwrap();
    let id = rec.2;
    let (udt_hash, rate, _b) = crate::cdp::udt_and_rate(tx, args, id).1.unwrap();
    let d1 = tx.outputs@[1].data@;
    crate::bytes_lemmas::lemma_le_value_bound(data.subrange(0, 16));
    crate::bytes_lemmas::lemma_le_value_bound(data.subrange(16, 32));
    crate::bytes_lemmas::lemma_le_value_bound(data.subrange(32, 36));
    crate::bytes_lemmas::lemma_le_value_bound(d1.subrange(0, 16));
    crate::bytes_lemmas::lemma_le_value_bound(d1.subrange(16, 32));
    crate::bytes_lemmas::lemma_le_value_bound(d1.subrange(32, 36));
    crate::bytes_lemmas::lemma_pow256_16();
    crate::bytes_lemmas::lemma_pow256_small();
    crate::bytes_lemmas::lemma_pow256_mono(4, 8);
    let tail = crate::cdp::liquidation_tail(tx, args, rec.0, rec.1, id, rec.3, udt_hash, rate);
    assert(tail.1 is Ok);
    let h = tai_type(tx, args);
    lemma_typed_sum_total(tx.outputs@, h, 0, 0);
}

/// A bid is accepted only after the publicity period: the block time of the
/// auction cell plus a day is at most the time of the token's current price.
pub proof fn law_bid_after_publicity(tx: Tx, args: Seq<u8>, data: Seq<u8>)
    requires
        crate::auction::spec_do_auction(tx, args, data) is Ok,
    ensures
        data.len() >= 68,
        le_at(data, 32, 4) < u32::MAX,
        tx.spec_header_time(Source::GroupInput, 0) is Ok,
        crate::auction::price_time(tx, args, (le_at(data, 32, 4) + 1) as u32) is Ok,
        tx.spec_header_time(Source::GroupInput, 0).unwrap() + crate::auction::PUBLICITY_TIME
            <= crate::auction::price_time(tx, args, (le_at(data, 32, 4) + 1) as u32).unwrap(),
{
    crate::bytes_lemmas::lemma_le_value_bound(data.subrange(32, 36));
    crate::bytes_lemmas::lemma_pow256_small();
}

/// An accepted bid burns some TAI, and at most the debt: the first output
/// holds more TAI than the inputs already under the burn lock, by no more
/// than the recorded debt.
pub proof fn law_bid_burn_within_debt(tx: Tx, args: Seq<u8>, data: Seq<u8>)
    requires
        crate::auction::spec_do_auction(tx, args, data) is Ok,
    ensures
        ({
            let (tai_amount, _owner, _t, burn_lock, tai_hash) = crate::auction::bid_head(tx, args, data).unwrap();
            let burned = crate::common::locked_amount_sum(tx.inputs@, burn_lock, tai_hash, crate::auction::ERR_BID_BURN_TYPE, 0, 0);
            let out0 = crate::auction::udt_amount_at(tx, Source::Output, tai_hash, 0);
            &&& burned is Ok
            &&& out0 is Ok
            &&& burned.unwrap() < out0.unwrap()
            &&& out0.unwrap() - burned.unwrap() <= tai_amount
            &&& tai_amount == le_at(data, 0, 16)
        }),
{
    crate::bytes_lemmas::lemma_le_value_bound(data.subrange(0, 16));
    crate::bytes_lemmas::lemma_pow256_16();
}

/// A recorded Nervos DAO deposit mints exactly the capacity deposited in
/// dCKB, and the record holds that amount.
pub proof fn law_dao_deposit_mints_capacity(tx: Tx, args: Seq<u8>, data: Seq<u8>)
    requires
        crate::dao_info::spec_deposit(tx, args, data) is Ok,
    ensures
        config_value(tx, args, id_number(ID::DAOUDT)) is Ok,
        tx.outputs@.len() > 0,
        typed_total(tx.outputs@, config_value(tx, args, id_number(ID::DAOUDT)).unwrap(), 0)
            == typed_total(tx.inputs@, config_value(tx, args, id_number(ID::DAOUDT)).unwrap(), 0) + tx.outputs@[0].capacity,
        amount(data) == tx.outputs@[0].capacity,
{
    let udt = config_value(tx, args, id_number(ID::DAOUDT)).unwrap();
    lemma_typed_sum_total(tx.inputs@, udt, 0, 0);
    lemma_typed_sum_total(tx.outputs@, udt, 0, 0);
}

/// The first withdrawal phase burns exactly the capacity withdrawn in dCKB,
/// and the record holds that amount.
pub proof fn law_dao_withdrawal_burns_capacity(tx: Tx, args: Seq<u8>)
    requires
        crate::dao_info::spec_withdrawal(tx, args) is Ok,
    ensures
        config_value(tx, args, id_number(ID::DAOUDT)) is Ok,
        tx.inputs@.len() > 0,
        tx.group_inputs@.len() == 1,
        typed_total(tx.inputs@, config_value(tx, args, id_number(ID::DAOUDT)).unwrap(), 0)
            == typed_total(tx.outputs@, config_value(tx, args, id_number(ID::DAOUDT)).unwrap(), 0) + tx.inputs@[0].capacity,
        amount(tx.group_inputs@[0].data@) == tx.inputs@[0].capacity,
{
    let udt = config_value(tx, args, id_number(ID::DAOUDT)).unwrap();
    lemma_typed_sum_total(tx.inputs@, udt, 0, 0);
    lemma_typed_sum_total(tx.outputs@, udt, 0, 0);
}

/// An offset of a system debt burns exactly the debt: the first output, under
/// the burn lock, holds the recorded amount, and no input is taken from the burn lock.
pub proof fn law_offset_burns_debt(tx: Tx, args: Seq<u8>, data: Seq<u8>)
    requires
        crate::sys_debt::spec_do_offset(tx, args, data) is Ok,
    ensures
        tx.outputs@.len() > 0,
        crate::common::config_hash(tx, args, id_number(ID::BurnLock)) is Ok,
        tx.outputs@[0].lock_hash@ == crate::common::config_hash(tx, args, id_number(ID::BurnLock)).unwrap(),
        amount(tx.outputs@[0].data@) == amount(data),
        !crate::sys_debt::any_locked(tx.inputs@, tx.outputs@[0].lock_hash@),
{
}

/// A configuration lookup gives the value of an entry with the identifier
/// asked for, and of the first one: dependencies added after it do not
/// change what the lookup gives.
pub proof fn law_config_first_entry(deps: Seq<Cell>, more: Seq<Cell>, config: Seq<u8>, index: u32)
    requires
        crate::config::config_data(deps, config, index) is Ok,
    ensures
        exists|i: int| #![trigger deps[i]]
            0 <= i < deps.len() && crate::config::is_config_entry(deps[i], config, index)
                && crate::config::config_data(deps, config, index).unwrap() == deps[i].data@.skip(4),
        crate::config::config_data(deps + more, config, index) == crate::config::config_data(deps, config, index),
{
    let i = choose|i: int| crate::config::is_first_config_entry(deps, config, index, i);
    assert(crate::config::is_config_entry(deps[i], config, index));
    let all = deps + more;
    assert(all[i] == deps[i]);
    assert forall|j: int| 0 <= j < i implies !crate::config::is_config_entry(#[trigger] all[j], config, index) by {
        assert(all[j] == deps[j]);
    }
    assert(crate::config::is_first_config_entry(all, config, index, i));
    let k = choose|k: int| crate::config::is_first_config_entry(all, config, index, k);
    crate::config::lemma_first_config_entry_unique(all, config, index, i, k);
}

/// An accepted bid pays the Dutch-auction price, which is nothing once the
/// auction has run its course.  A bid that burns less than the debt comes in
/// the second half of the auction, burns at least the price and leaves the
/// rest as a system debt (second output); a bid that
/// burns the whole debt pays, with the community fee (second output, at most
/// a tenth of the debt) and the refund to the owner (third output, when the
/// fee is exactly a tenth), at least the price at that time, counted at most
/// to the end of the auction.
pub proof fn law_bid_pays_price(tx: Tx, args: Seq<u8>, data: Seq<u8>)
    requires
        crate::auction::spec_do_auction(tx, args, data) is Ok,
    ensures
        ({
            let (tai_amount, _owner, t, burn_lock, tai_hash) = crate::auction::bid_head(tx, args, data).unwrap();
            let burned = crate::common::locked_amount_sum(tx.inputs@, burn_lock, tai_hash, crate::auction::ERR_BID_BURN_TYPE, 0, 0).unwrap();
            let burn = crate::auction::udt_amount_at(tx, Source::Output, tai_hash, 0).unwrap() - burned;
            let m = MAX_AUCTION_TIME;
            &&& burn < tai_amount ==> {
                let tc = if t > m { m } else { t };
                &&& m / 2 < t
                &&& tai_requirement(tc, tai_amount) is Some
                &&& burn >= tai_requirement(tc, tai_amount).unwrap()
                &&& tx.outputs@.len() > 1
                &&& amount(tx.outputs@[1].data@) == tai_amount - burn
            }
            &&& burn >= tai_amount ==> {
                let lock = crate::common::config_hash(tx, args, id_number(ID::CommunityLock)).unwrap();
                let input_fee = crate::common::locked_amount_sum(tx.inputs@, lock, tai_hash, crate::auction::ERR_BID_FEE_TYPE, 0, 0).unwrap();
                let fee = crate::auction::udt_amount_at(tx, Source::Output, tai_hash, 1).unwrap() - input_fee;
                let refund = if fee == tai_amount / 10 {
                    crate::auction::udt_amount_at(tx, Source::Output, tai_hash, 2).unwrap() as int
                } else {
                    0
                };
                let tc = if t > m { m } else { t };
                &&& burn == tai_amount
                &&& fee <= tai_amount / 10
                &&& tai_requirement(tc, tai_amount) is Some
                &&& fee + refund + burn >= tai_requirement(tc, tai_amount).unwrap()
            }
        }),
{
}

/// An accepted auction creation puts the auction first among the outputs
/// and the collateral second: the second output has the record's token type
/// and holds exactly the recorded collateral amount, the first carries the
/// auction's own type, and both stand under the auction lock.
pub proof fn law_auction_creation_layout(tx: Tx, args: Seq<u8>)
    requires
        crate::auction::spec_new_auction(tx, args) is Ok,
    ensures
        tx.outputs@.len() >= 2,
        tx.group_outputs@.len() >= 1,
        ({
            let record = crate::auction::spec_parse_data(tx.group_outputs@[0].data@);
            let lock = crate::common::config_hash(tx, args, id_number(ID::AuctionLock));
            &&& record is Ok
            &&& crate::common::config_hash(tx, args, record.unwrap().2) is Ok
            &&& has_type(tx.outputs@[1], crate::common::config_hash(tx, args, record.unwrap().2).unwrap())
            &&& tx.outputs@[1].data@.len() >= 16
            &&& amount(tx.outputs@[1].data@) == record.unwrap().0
            &&& crate::common::same_type(tx.group_outputs@[0].type_hash, tx.outputs@[0].type_hash)
            &&& lock is Ok
            &&& tx.outputs@[0].lock_hash@ == lock.unwrap()
            &&& tx.outputs@[1].lock_hash@ == lock.unwrap()
        }),
{
}

/// The debt and auction scripts agree on the transaction that turns a debt
/// into an auction: run on the same inputs and outputs (the debt script
/// with the debt as its cell, the auction script with the new auction as
/// its cell), both accept only the layout with the auction first, copying
/// the debt's record, and the collateral second, holding the amount that
/// both records give.
pub proof fn law_debt_becomes_auction(auction_tx: Tx, debt_tx: Tx)
    requires
        auction_tx.inputs@ == debt_tx.inputs@,
        auction_tx.outputs@ == debt_tx.outputs@,
        crate::auction::spec_new_auction(auction_tx, auction_tx.script_args@) is Ok,
        crate::debt::spec_new_auction(debt_tx, debt_tx.script_args@) is Ok,
    ensures
        auction_tx.outputs@.len() >= 2,
        auction_tx.group_outputs@.len() >= 1,
        debt_tx.group_inputs@.len() == 1,
        auction_tx.group_outputs@[0].data@.len() >= 68,
        debt_tx.group_inputs@[0].data@.len() >= 36,
        auction_tx.outputs@[0].data@ == debt_tx.group_inputs@[0].data@,
        crate::common::same_type(auction_tx.group_outputs@[0].type_hash, auction_tx.outputs@[0].type_hash),
        auction_tx.outputs@[1].data@.len() >= 16,
        amount(auction_tx.outputs@[1].data@) == le_at(auction_tx.group_outputs@[0].data@, 16, 16),
        amount(auction_tx.outputs@[1].data@) == le_at(debt_tx.group_inputs@[0].data@, 16, 16),
{
    let g = auction_tx.group_outputs@[0].data@;
    crate::bytes_lemmas::lemma_le_value_bound(g.subrange(16, 32));
    crate::bytes_lemmas::lemma_pow256_16();
    let d = debt_tx.group_inputs@[0].data@;
    crate::bytes_lemmas::lemma_le_value_bound(d.subrange(16, 32));
}

/// The auction time counted for the price: at most the duration of the auction.
pub open spec fn capped_time(t: u64) -> u64 {
    if t > MAX_AUCTION_TIME { MAX_AUCTION_TIME } else { t }
}

proof fn lemma_price_capped_falls(tai_amount: u128, t1: u64, t2: u64)
    requires
        t1 <= t2,
        tai_requirement(capped_time(t1), tai_amount) is Some,
    ensures
        tai_requirement(capped_time(t2), tai_amount) is Some,
        tai_requirement(capped_time(t2), tai_amount).unwrap() <= tai_requirement(capped_time(t1), tai_amount).unwrap(),
{
    law_auction_price_falls(tai_amount, capped_time(t1), capped_time(t2));
}

/// A settlement accepted at some time of the auction is accepted at any
/// later time: the price only falls as the auction ages, to nothing at its end.
pub proof fn law_bid_stays_accepted(
    tx: Tx,
    args: Seq<u8>,
    tai_amount: u128,
    owner: Seq<u8>,
    t1: u64,
    t2: u64,
    burn_lock: Seq<u8>,
    tai_hash: Seq<u8>,
)
    requires
        t1 <= t2,
        crate::auction::bid_settle(tx, args, tai_amount, owner, t1, burn_lock, tai_hash) is Ok,
    ensures
        crate::auction::bid_settle(tx, args, tai_amount, owner, t2, burn_lock, tai_hash) is Ok,
{
    let burned = crate::common::locked_amount_sum(tx.inputs@, burn_lock, tai_hash, crate::auction::ERR_BID_BURN_TYPE, 0, 0).unwrap();
    let out0 = crate::auction::udt_amount_at(tx, Source::Output, tai_hash, 0).unwrap();
    assert(capped_time(t1) == (if t1 > MAX_AUCTION_TIME { MAX_AUCTION_TIME } else { t1 }));
    assert(capped_time(t2) == (if t2 > MAX_AUCTION_TIME { MAX_AUCTION_TIME } else { t2 }));
    if out0 - burned < tai_amount {
        lemma_price_capped_falls(tai_amount, t1, t2);
    } else {
        let lock = crate::common::config_hash(tx, args, id_number(ID::CommunityLock)).unwrap();
        let input_fee = crate::common::locked_amount_sum(tx.inputs@, lock, tai_hash, crate::auction::ERR_BID_FEE_TYPE, 0, 0).unwrap();
        let out1 = crate::auction::udt_amount_at(tx, Source::Output, tai_hash, 1).unwrap();
        lemma_price_capped_falls(tai_amount, t1, t2);
        if out1 - input_fee == tai_amount / 10 {
            let refund = crate::auction::udt_amount_at(tx, Source::Output, tai_hash, 2).unwrap();
            assert(crate::auction::bid_price_check(((out1 - input_fee) + refund) as u128, (out0 - burned) as u128, t1, tai_amount) is Ok);
        } else {
            assert(crate::auction::bid_price_check((out1 - input_fee) as u128, (out0 - burned) as u128, t1, tai_amount) is Ok);
        }
    }
}


/// A bid accepted while the token's price entry carries one time stays
/// accepted once that time has moved on: the same transaction, with every
/// configuration entry the same except the price entry of the auctioned
/// token (whose number is none of the other entries a bid reads), and that
/// entry's time no earlier, is accepted too.  The price a bid must pay
/// never rises as the auction ages.
pub proof fn law_auction_stays_accepted_later(tx: Tx, later: Tx, args: Seq<u8>, data: Seq<u8>)
    requires
        crate::auction::spec_do_auction(tx, args, data) is Ok,
        later.inputs@ == tx.inputs@,
        later.outputs@ == tx.outputs@,
        later.group_inputs@ == tx.group_inputs@,
        later.group_outputs@ == tx.group_outputs@,
        data.len() >= 68,
        ({
            let price_id = (le_at(data, 32, 4) + 1) as u32;
            &&& le_at(data, 32, 4) < u32::MAX
            &&& forall|k: u32| k != price_id ==> #[trigger] config_value(later, args, k) == config_value(tx, args, k)
            &&& price_id != id_number(ID::AuctionLock)
            &&& price_id != id_number(ID::BurnLock)
            &&& price_id != id_number(ID::TAIType)
            &&& price_id != id_number(ID::CommunityLock)
            &&& price_id != id_number(ID::DebtSysType)
            &&& crate::auction::price_time(later, args, price_id) is Ok
            &&& crate::auction::price_time(tx, args, price_id) is Ok
            &&& crate::auction::price_time(tx, args, price_id).unwrap() <= crate::auction::price_time(later, args, price_id).unwrap()
        }),
    ensures
        crate::auction::spec_do_auction(later, args, data) is Ok,
{
    let (udt_amount, tai_amount, id, owner) = crate::auction::spec_parse_data(data).unwrap();
    crate::bytes_lemmas::lemma_le_value_bound(data.subrange(32, 36));
    crate::bytes_lemmas::lemma_pow256_small();
    assert(id == le_at(data, 32, 4));
    let price_id = (id + 1) as u32;
    assert(config_value(later, args, id) == config_value(tx, args, id));
    assert(config_value(later, args, id_number(ID::AuctionLock)) == config_value(tx, args, id_number(ID::AuctionLock)));
    assert(config_value(later, args, id_number(ID::BurnLock)) == config_value(tx, args, id_number(ID::BurnLock)));
    assert(config_value(later, args, id_number(ID::TAIType)) == config_value(tx, args, id_number(ID::TAIType)));
    assert(config_value(later, args, id_number(ID::CommunityLock)) == config_value(tx, args, id_number(ID::CommunityLock)));
    assert(config_value(later, args, id_number(ID::DebtSysType)) == config_value(tx, args, id_number(ID::DebtSysType)));
    assert(later.cells(Source::Input) == tx.cells(Source::Input));
    assert(later.cells(Source::Output) == tx.cells(Source::Output));
    assert(later.cells(Source::GroupInput) == tx.cells(Source::GroupInput));
    let (a1, o1, t1, b1, h1) = crate::auction::bid_head(tx, args, data).unwrap();
    let (a2, o2, t2, b2, h2) = crate::auction::bid_head(later, args, data).unwrap();
    assert(a1 == a2 && o1 == o2 && b1 == b2 && h1 == h2 && t1 <= t2);
    law_bid_stays_accepted(tx, args, a1, o1, t1, t2, b1, h1);
    assert(crate::auction::bid_settle(later, args, a1, o1, t2, b1, h1) == crate::auction::bid_settle(tx, args, a1, o1, t2, b1, h1));
}

/// The type lock opens exactly when a cell of its type takes part in the
/// transaction: with a bare type hash as arguments, on either side; with
/// mode one, among the inputs; with mode two, among the outputs.
pub proof fn law_type_lock_opens_on_type(tx: Tx)
    requires
        tx.script_args@.len() > 0,
    ensures
        tx.script_args@.len() == 32 ==> (crate::type_lock::spec_main(tx) is Ok <==> (
            crate::udt_owner::any_typed(tx.inputs@, tx.script_args@) || crate::udt_owner::any_typed(tx.outputs@, tx.script_args@))),
        tx.script_args@.len() != 32 && tx.script_args@[0] == 1 ==> (crate::type_lock::spec_main(tx) is Ok
            <==> crate::udt_owner::any_typed(tx.inputs@, tx.script_args@.skip(1))),
        tx.script_args@.len() != 32 && tx.script_args@[0] == 2 ==> (crate::type_lock::spec_main(tx) is Ok
            <==> crate::udt_owner::any_typed(tx.outputs@, tx.script_args@.skip(1))),
{
}

/// A token sum under a lock that succeeds adds the amounts of all cells under the lock.
pub proof fn lemma_locked_amount_total(cells: Seq<Cell>, lock: Seq<u8>, token: Seq<u8>, code: u32, i: int, acc: u128)
    requires
        0 <= i,
        crate::common::locked_amount_sum(cells, lock, token, code, i, acc) is Ok,
    ensures
        crate::common::locked_amount_sum(cells, lock, token, code, i, acc).unwrap() == acc + locked_total(cells, lock, i),
    decreases cells.len() - i,
{
    if i < cells.len() {
        if cells[i].lock_hash@ == lock {
            lemma_locked_amount_total(cells, lock, token, code, i + 1, (acc + amount(cells[i].data@)) as u128);
        } else {
            lemma_locked_amount_total(cells, lock, token, code, i + 1, acc);
        }
    }
}

/// A bid that burns the whole debt is accepted as soon as what it pays
/// reaches the price: the burn, plus the new TAI under the community lock
/// (second output, at most a tenth of the debt), plus, when that fee is
/// exactly a tenth, the TAI refunded to the owner (third output), at least
/// the price at the auction's time (counted at most to its end), with no
/// sum past `u128`.
pub proof fn law_full_bid_accepted(tx: Tx, args: Seq<u8>, data: Seq<u8>)
    requires
        crate::auction::bid_head(tx, args, data) is Ok,
        ({
            let (a, owner, t, burn_lock, tai_hash) = crate::auction::bid_head(tx, args, data).unwrap();
            let burned = crate::common::locked_amount_sum(tx.inputs@, burn_lock, tai_hash, crate::auction::ERR_BID_BURN_TYPE, 0, 0);
            let out0 = crate::auction::udt_amount_at(tx, Source::Output, tai_hash, 0);
            let lock = crate::common::config_hash(tx, args, id_number(ID::CommunityLock));
            let fee_in = crate::common::locked_amount_sum(tx.inputs@, lock.unwrap(), tai_hash, crate::auction::ERR_BID_FEE_TYPE, 0, 0);
            let out1 = crate::auction::udt_amount_at(tx, Source::Output, tai_hash, 1);
            let out2 = crate::auction::udt_amount_at(tx, Source::Output, tai_hash, 2);
            let fee = out1.unwrap() - fee_in.unwrap();
            let refund = if fee == a / 10 { out2.unwrap() as int } else { 0 };
            let price = tai_requirement(capped_time(t), a);
            &&& a > 0
            &&& burned is Ok
            &&& out0 is Ok
            &&& out0.unwrap() == burned.unwrap() + a
            &&& lock is Ok
            &&& tx.outputs@.len() > 1
            &&& tx.outputs@[1].lock_hash@ == lock.unwrap()
            &&& fee_in is Ok
            &&& out1 is Ok
            &&& fee_in.unwrap() <= out1.unwrap()
            &&& fee <= a / 10
            &&& fee == a / 10 ==> tx.outputs@.len() > 2 && tx.outputs@[2].lock_hash@ == owner && out2 is Ok
            &&& price is Some
            &&& fee + refund + a <= u128::MAX
            &&& fee + refund + a >= price.unwrap()
        }),
    ensures
        crate::auction::spec_do_auction(tx, args, data) is Ok,
{
}

/// The fee of a withdrawal is the TAI that the transaction newly gives the
/// community: the second output, under the community lock, holds more TAI
/// than all inputs under that lock, and the interest check of the plan
/// (its last comparison) is made on exactly the difference.
pub proof fn law_withdrawal_fee_is_new_community_tai(tx: Tx, args: Seq<u8>)
    requires
        crate::cdp::withdrawal_plan(tx, args).1 is Ok,
    ensures
        ({
            let plan = crate::cdp::withdrawal_plan(tx, args).0;
            let community = config_value(tx, args, id_number(ID::CommunityLock)).unwrap();
            &&& config_value(tx, args, id_number(ID::CommunityLock)) is Ok
            &&& tx.outputs@.len() > 1
            &&& tx.outputs@[1].lock_hash@ == community
            &&& tx.outputs@[1].data@.len() >= 16
            &&& amount(tx.outputs@[1].data@) > locked_total(tx.inputs@, community, 0)
            &&& plan.len() > 0
            &&& plan.last().test matches crate::cdp::FloatTest::FeeCovers { fee, .. }
                && fee == amount(tx.outputs@[1].data@) - locked_total(tx.inputs@, community, 0)
        }),
{
    let data = crate::cdp::spend_head(tx, args, crate::cdp::ERR_WD_FIRST_LOCKS, crate::cdp::ERR_WD_OTHER_LOCK, crate::cdp::ERR_WD_SELF_LOCK, crate::cdp::ERR_WD_SAME_TX).unwrap();
    let rec = crate::cdp::spec_parse_data(data).unwrap();
    let id = rec.2;
    let (c1, r1) = crate::cdp::udt_and_rate(tx, args, id);
    let (udt_hash, _a, _b) = r1.unwrap();
    let (c2, r2) = crate::cdp::withdrawal_tail(tx, args, rec.0, rec.1, id, rec.3, rec.4, rec.5, udt_hash);
    assert(r2 is Ok);
    let tai_hash = config_value(tx, args, id_number(ID::TAIType)).unwrap();
    let community = config_value(tx, args, id_number(ID::CommunityLock)).unwrap();
    lemma_locked_amount_total(tx.inputs@, community, tai_hash, crate::cdp::ERR_WD_FEE_INPUT_TYPE, 0, 0);
    assert(crate::cdp::withdrawal_plan(tx, args).0 == c1 + c2);
    assert((c1 + c2).last() == c2[0]);
}

/// A debt becomes an auction only when the collateral it records is spent
/// whole: the first input has the recorded token's type and holds exactly
/// the recorded collateral amount, as does the second output.
pub proof fn law_debt_auction_spends_recorded_collateral(tx: Tx, args: Seq<u8>)
    requires
        crate::debt::spec_new_auction(tx, args) is Ok,
    ensures
        ({
            let rec = tx.group_inputs@[0].data@;
            let token = crate::debt::udt_hash(tx, args, le_at(rec, 32, 4) as u32);
            &&& tx.group_inputs@.len() == 1
            &&& rec.len() >= 36
            &&& token is Ok
            &&& tx.inputs@.len() >= 1
            &&& has_type(tx.inputs@[0], token.unwrap())
            &&& tx.inputs@[0].data@.len() >= 16
            &&& amount(tx.inputs@[0].data@) == le_at(rec, 16, 16)
            &&& tx.outputs@.len() >= 2
            &&& has_type(tx.outputs@[1], token.unwrap())
            &&& tx.outputs@[1].data@.len() >= 16
            &&& amount(tx.outputs@[1].data@) == le_at(rec, 16, 16)
        }),
{
    let rec = tx.group_inputs@[0].data@;
    crate::bytes_lemmas::lemma_le_value_bound(rec.subrange(16, 32));
    crate::bytes_lemmas::lemma_pow256_16();
}

/// A deposit creates one position: an accepted deposit has exactly one cell
/// of the CDP script among the outputs and none among the inputs.
pub proof fn law_deposit_creates_one_position(tx: Tx, args: Seq<u8>, data: Seq<u8>)
    requires
        crate::cdp::deposit_plan(tx, args, data).1 is Ok,
    ensures
        tx.group_outputs@.len() == 1,
        tx.group_inputs@.len() == 0,
{
}

/// A DAO deposit records one deposit: an accepted deposit has at most one
/// DAO-info cell among the outputs and none among the inputs, and the
/// script run on a transaction that creates DAO-info cells accepts only one.
pub proof fn law_dao_deposit_one_record(tx: Tx, args: Seq<u8>, data: Seq<u8>)
    ensures
        crate::dao_info::spec_deposit(tx, args, data) is Ok ==> tx.group_outputs@.len() <= 1 && tx.group_inputs@.len() == 0,
        crate::dao_info::spec_main(tx) is Ok && tx.group_outputs@.len() > 0 ==> tx.group_outputs@.len() == 1 && tx.group_inputs@.len() == 0,
{
}

/// A bid that leaves part of the debt unpaid is accepted as soon as it comes
/// in the second half of the auction, burns at least the price at that time
/// (counted at most to the end of the auction), and leaves the rest, as a
/// system debt, in the second output.
pub proof fn law_partial_bid_accepted(tx: Tx, args: Seq<u8>, data: Seq<u8>)
    requires
        crate::auction::bid_head(tx, args, data) is Ok,
        ({
            let (a, _owner, t, burn_lock, tai_hash) = crate::auction::bid_head(tx, args, data).unwrap();
            let burned = crate::common::locked_amount_sum(tx.inputs@, burn_lock, tai_hash, crate::auction::ERR_BID_BURN_TYPE, 0, 0);
            let out0 = crate::auction::udt_amount_at(tx, Source::Output, tai_hash, 0);
            let burn = out0.unwrap() - burned.unwrap();
            let debt_type = crate::common::config_hash(tx, args, id_number(ID::DebtSysType));
            let price = tai_requirement(capped_time(t), a);
            &&& burned is Ok
            &&& out0 is Ok
            &&& burned.unwrap() < out0.unwrap()
            &&& burn < a
            &&& MAX_AUCTION_TIME / 2 < t
            &&& debt_type is Ok
            &&& tx.outputs@.len() > 1
            &&& has_type(tx.outputs@[1], debt_type.unwrap())
            &&& tx.outputs@[1].data@.len() >= 16
            &&& amount(tx.outputs@[1].data@) == a - burn
            &&& price is Some
            &&& burn >= price.unwrap()
        }),
    ensures
        crate::auction::spec_do_auction(tx, args, data) is Ok,
{
}

/// Each script that guards one cell accepts only transactions with one cell
/// of its own, on the side that the operation uses: the auction (one bid
/// input or one created output), the CDP (one new position, or one spent
/// position), the DAO info (one record), the debt (one created or one spent
/// debt) and the system debt.
pub proof fn law_one_script_cell(tx: Tx)
    ensures
        crate::auction::spec_main(tx) is Ok ==> (tx.group_inputs@.len() == 1 && tx.group_outputs@.len() == 0)
            || (tx.group_inputs@.len() == 0 && tx.group_outputs@.len() == 1),
        crate::cdp::main_plan(tx).1 is Ok ==> (tx.group_inputs@.len() == 1 && tx.group_outputs@.len() == 0)
            || (tx.group_inputs@.len() == 0 && tx.group_outputs@.len() == 1),
        crate::dao_info::spec_main(tx) is Ok ==> (tx.group_inputs@.len() == 1 && tx.group_outputs@.len() == 0)
            || (tx.group_inputs@.len() == 0 && tx.group_outputs@.len() == 1),
        crate::debt::spec_main(tx) is Ok ==> (tx.group_inputs@.len() == 1 && tx.group_outputs@.len() == 0)
            || (tx.group_inputs@.len() == 0 && tx.group_outputs@.len() == 1),
        crate::sys_debt::spec_main(tx) is Ok ==> tx.group_inputs@.len() <= 1 && tx.group_outputs@.len() <= 1,
{
}

/// A deposit locks the collateral it records: the new position and the
/// first output are under the collateral lock, and the first output has the
/// type of the recorded (even-numbered) token and holds exactly the recorded
/// collateral amount.
pub proof fn law_deposit_locks_collateral(tx: Tx, args: Seq<u8>, data: Seq<u8>)
    requires
        crate::cdp::deposit_plan(tx, args, data).1 is Ok,
    ensures
        ({
            let id = le_at(data, 32, 4) as u32;
            let entry = config_value(tx, args, id);
            let lock = config_value(tx, args, id_number(ID::UDTLock));
            &&& data.len() == 80
            &&& id % 2 == 0
            &&& entry is Ok
            &&& entry.unwrap().len() == 40
            &&& lock is Ok
            &&& tx.group_outputs@[0].lock_hash@ == lock.unwrap()
            &&& tx.outputs@.len() >= 1
            &&& tx.outputs@[0].lock_hash@ == lock.unwrap()
            &&& has_type(tx.outputs@[0], entry.unwrap().take(32))
            &&& tx.outputs@[0].data@.len() >= 16
            &&& amount(tx.outputs@[0].data@) == le_at(data, 16, 16)
        }),
{
    crate::bytes_lemmas::lemma_le_value_bound(data.subrange(16, 32));
    crate::bytes_lemmas::lemma_le_value_bound(data.subrange(32, 36));
    crate::bytes_lemmas::lemma_pow256_16();
    crate::bytes_lemmas::lemma_pow256_small();
    let rec = crate::cdp::spec_parse_data(data).unwrap();
    let id = rec.2;
    let (udt_hash, rate, _interest) = crate::cdp::udt_and_rate(tx, args, id).1.unwrap();
    let tail = crate::cdp::deposit_tail(tx, args, rec.0, rec.1, id, rec.5, udt_hash, rate);
    assert(tail.1 is Ok);
}

/// A withdrawal gives the collateral back: the first input has the recorded
/// token's type and holds the recorded collateral, and either the owner
/// takes part (third input under the owner's lock) or the first output,
/// under the owner's lock, has that type and holds that amount.
pub proof fn law_withdrawal_returns_collateral(tx: Tx, args: Seq<u8>)
    requires
        crate::cdp::withdrawal_plan(tx, args).1 is Ok,
    ensures
        ({
            let rec = position_record(tx);
            let owner = rec.subrange(36, 68);
            let entry = config_value(tx, args, le_at(rec, 32, 4) as u32);
            &&& rec.len() == 80
            &&& entry is Ok
            &&& entry.unwrap().len() == 40
            &&& tx.inputs@.len() > 2
            &&& has_type(tx.inputs@[0], entry.unwrap().take(32))
            &&& tx.inputs@[0].data@.len() >= 16
            &&& amount(tx.inputs@[0].data@) == le_at(rec, 16, 16)
            &&& tx.inputs@[2].lock_hash@ == owner || {
                &&& tx.outputs@.len() >= 1
                &&& tx.outputs@[0].lock_hash@ == owner
                &&& has_type(tx.outputs@[0], entry.unwrap().take(32))
                &&& tx.outputs@[0].data@.len() >= 16
                &&& amount(tx.outputs@[0].data@) == le_at(rec, 16, 16)
            }
        }),
{
    let data = crate::cdp::spend_head(tx, args, crate::cdp::ERR_WD_FIRST_LOCKS, crate::cdp::ERR_WD_OTHER_LOCK, crate::cdp::ERR_WD_SELF_LOCK, crate::cdp::ERR_WD_SAME_TX).unwrap();
    assert(data == position_record(tx));
    crate::bytes_lemmas::lemma_le_value_bound(data.subrange(16, 32));
    crate::bytes_lemmas::lemma_le_value_bound(data.subrange(32, 36));
    crate::bytes_lemmas::lemma_pow256_16();
    crate::bytes_lemmas::lemma_pow256_small();
    let rec = crate::cdp::spec_parse_data(data).unwrap();
    let id = rec.2;
    let (udt_hash, _a, _b) = crate::cdp::udt_and_rate(tx, args, id).1.unwrap();
    let tail = crate::cdp::withdrawal_tail(tx, args, rec.0, rec.1, id, rec.3, rec.4, rec.5, udt_hash);
    assert(tail.1 is Ok);
}

} // verus!
