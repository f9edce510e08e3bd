//! The type lock: a lock that opens when a cell of a given type is among the
//! inputs, the outputs, or either, as its arguments say.
use vstd::prelude::*;
use crate::bytes::copy_range;
use crate::error::{Halt, ScriptError};
use crate::tx::{Source, Tx};
use crate::udt_owner::{any_typed, exists_type};

verus! {

/// Whether a cell of `source` has the type `args`.
pub fn check_type_exist(tx: &Tx, source: Source, args: &[u8]) -> (r: bool)
    ensures
        r == any_typed(tx.cells(source), args@),
{
    exists_type(tx.cells_of(source), args)
}

/// The mode and the type hash that the arguments give: a bare hash searches
/// both sides; else the first byte is the mode (one: inputs, two: outputs,
/// other: both) and the rest the hash.
pub open spec fn mode_and_type(args: Seq<u8>) -> (u8, Seq<u8>) {
    if args.len() == 32 {
        (0, args)
    } else {
        (args[0], args.skip(1))
    }
}

/// What the type lock decides.
pub open spec fn spec_main(tx: Tx) -> Result<(), Halt<ScriptError>> {
    let args = tx.script_args@;
    if args.len() == 0 {
        Err(Halt::Fail(ScriptError::ErrArgs))
    } else {
        let (mode, th) = mode_and_type(args);
        let found = if mode == 1 {
            any_typed(tx.inputs@, th)
        } else if mode == 2 {
            any_typed(tx.outputs@, th)
        } else {
            any_typed(tx.inputs@, th) || any_typed(tx.outputs@, th)
        };
        if found {
            Ok(())
        } else {
            Err(Halt::Fail(ScriptError::ErrNotExist))
        }
    }
}

/// Runs the type lock on `tx`.
pub fn main(tx: &Tx) -> (r: Result<(), Halt<ScriptError>>)
    ensures
        r == spec_main(*tx),
{
    let args = tx.script_args.as_slice();
    if args.len() == 0 {
        return Err(Halt::Fail(ScriptError::ErrArgs));
    }
    let mode: u8;
    let type_hash: Vec<u8>;
    if args.len() == 32 {
        mode = 0;
        type_hash = copy_range(args, 0, args.len());
        proof { assert(type_hash@ =~= args@); }
    } else {
        mode = args[0];
        type_hash = copy_range(args, 1, args.len());
        proof { assert(type_hash@ =~= args@.skip(1)); }
    }
    let found = if mode == 1 {
        check_type_exist(tx, Source::Input, type_hash.as_slice())
    } else if mode == 2 {
        check_type_exist(tx, Source::Output, type_hash.as_slice())
    } else {
        check_type_exist(tx, Source::Input, type_hash.as_slice())
            || check_type_exist(tx, Source::Output, type_hash.as_slice())
    };
    if found {
        Ok(())
    } else {
        Err(Halt::Fail(ScriptError::ErrNotExist))
    }
}

} // verus!
