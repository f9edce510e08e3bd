//! The owner lock: a lock that opens when a cell of a given type (the owner
//! type, given directly or through a configuration entry) takes part in the
//! transaction.
use vstd::prelude::*;
use crate::bytes::{le_at, read_u32_le, copy_range};
use crate::common::{bytes_res, config_value, fail, fail_with, get_config_value, SCRIPT_LEN};
use crate::error::{Error, Halt, SysErrorKind, sys_error_code};
use crate::tx::{Cell, Tx, has_type, has_type_eq};

verus! {

/// Exit code: the script has no arguments.
pub const ERR_ARGS: u32 = 22;

/// The owner type hash that the arguments name: the arguments themselves
/// when they are a hash; else a configuration script hash and a four-byte
/// identifier, whose entry starts with the owner type hash.  Arguments of
/// another form, or an entry shorter than a hash, abort.
pub open spec fn owner_hash(tx: Tx, args: Seq<u8>) -> Result<Seq<u8>, Halt<Error>> {
    if args.len() == 32 {
        Ok(args)
    } else if args.len() != 36 {
        Err(Halt::Abort)
    } else {
        match config_value(tx, args.take(32), le_at(args, 32, 4) as u32) {
            Err(h) => Err(h),
            Ok(d) => if d.len() < 32 {
                Err(Halt::Abort)
            } else {
                Ok(d.take(32))
            },
        }
    }
}

/// The owner type hash that the arguments name.
pub fn get_owner_hash(tx: &Tx, args: &[u8]) -> (r: Result<Vec<u8>, Halt<Error>>)
    ensures
        bytes_res(r) == owner_hash(*tx, args@),
{
    if args.len() == SCRIPT_LEN {
        let a = copy_range(args, 0, args.len());
        proof { assert(a@ =~= args@); }
        return Ok(a);
    }
    if args.len() != SCRIPT_LEN + 4 {
        return Err(Halt::Abort);
    }
    let config = copy_range(args, 0, SCRIPT_LEN);
    let id = read_u32_le(args, SCRIPT_LEN);
    proof { assert(config@ =~= args@.take(32)); }
    let d = get_config_value(tx, config.as_slice(), id)?;
    if d.len() < SCRIPT_LEN {
        return Err(Halt::Abort);
    }
    let h = copy_range(d.as_slice(), 0, SCRIPT_LEN);
    proof { assert(h@ =~= d@.take(32)); }
    Ok(h)
}

/// Whether some cell has the type `h`.
pub open spec fn any_typed(cells: Seq<Cell>, h: Seq<u8>) -> bool {
    exists|i: int| 0 <= i < cells.len() && has_type(#[trigger] cells[i], h)
}

/// Whether some cell of `cells` has the type `h`.
pub fn exists_type(cells: &Vec<Cell>, h: &[u8]) -> (r: bool)
    ensures
        r == any_typed(cells@, h@),
{
    let mut i: usize = 0;
    while i < cells.len()
        invariant
            i <= cells@.len(),
            forall|j: int| 0 <= j < i ==> !has_type(#[trigger] cells@[j], h@),
        decreases cells@.len() - i,
    {
        if has_type_eq(&cells[i], h) {
            return true;
        }
        i = i + 1;
    }
    false
}

/// What the owner lock decides: it opens when an input or an output has the
/// owner type; otherwise the search runs past the last output and fails with
/// that error.  More than one cell under this lock aborts.
pub open spec fn spec_main(tx: Tx) -> Result<(), Halt<Error>> {
    let args = tx.script_args@;
    if args.len() == 0 {
        Err(fail(ERR_ARGS))
    } else {
        match owner_hash(tx, args) {
            Err(h) => Err(h),
            Ok(owner) => if tx.group_inputs@.len() > 1 {
                Err(Halt::Abort)
            } else if any_typed(tx.inputs@, owner) || any_typed(tx.outputs@, owner) {
                Ok(())
            } else {
                Err(Halt::Fail(Error { err: sys_error_code(SysErrorKind::IndexOutOfBound) }))
            },
        }
    }
}

/// Runs the owner lock on `tx`.
pub fn main(tx: &Tx) -> (r: Result<(), Halt<Error>>)
    ensures
        r == spec_main(*tx),
{
    let args = tx.script_args.as_slice();
    if args.len() == 0 {
        return Err(fail_with(ERR_ARGS));
    }
    let owner = get_owner_hash(tx, args)?;
    if tx.group_inputs.len() > 1 {
        return Err(Halt::Abort);
    }
    if exists_type(&tx.inputs, owner.as_slice()) {
        return Ok(());
    }
    if exists_type(&tx.outputs, owner.as_slice()) {
        return Ok(());
    }
    Err(Halt::Fail(Error::from_sys(SysErrorKind::IndexOutOfBound)))
}

} // verus!
