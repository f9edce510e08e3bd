//! The index script: a counter cell.  Each update raises its number by one;
//! the first cell (number one) is bound, by the script's arguments, to the
//! out point that its transaction spends first.
use vstd::prelude::*;
use crate::bytes::{le_at, read_u32_le, bytes_eq};
use crate::error::{Halt, ScriptError};
use crate::tx::{Cell, Source, Tx, out_point_bytes, out_point_to_bytes};

verus! {

/// The number of the only cell of `cells`: zero when there is none; its data
/// must be exactly four bytes (else abort); a second cell fails.
pub open spec fn single_id(cells: Seq<Cell>) -> Result<u32, Halt<ScriptError>> {
    if cells.len() == 0 {
        Ok(0)
    } else if cells[0].data@.len() != 4 {
        Err(Halt::Abort)
    } else if cells.len() > 1 {
        Err(Halt::Fail(ScriptError::ErrMoreOneCell))
    } else {
        Ok(le_at(cells[0].data@, 0, 4) as u32)
    }
}

/// The number of the only cell of `so`.
pub fn get_id_from_data(tx: &Tx, so: Source) -> (r: Result<u32, Halt<ScriptError>>)
    ensures
        r == single_id(tx.cells(so)),
{
    let cells = tx.cells_of(so);
    if cells.len() == 0 {
        return Ok(0);
    }
    if cells[0].data.len() != 4 {
        return Err(Halt::Abort);
    }
    if cells.len() > 1 {
        return Err(Halt::Fail(ScriptError::ErrMoreOneCell));
    }
    Ok(read_u32_le(cells[0].data.as_slice(), 0))
}

/// What the index script decides: the output's number is the input's plus
/// one; number one (no input) needs the arguments to be the serialized out
/// point of the first input.
pub open spec fn spec_main(tx: Tx) -> Result<(), Halt<ScriptError>> {
    if tx.script_args@.len() == 0 {
        Err(Halt::Fail(ScriptError::MyError))
    } else {
        match single_id(tx.group_inputs@) {
            Err(h) => Err(h),
            Ok(in_id) => match single_id(tx.group_outputs@) {
                Err(h) => Err(h),
                Ok(out_id) => if out_id == 0 {
                    Err(Halt::Fail(ScriptError::ErrOutputData))
                } else if in_id == u32::MAX {
                    Err(Halt::Abort)
                } else if in_id + 1 != out_id {
                    Err(Halt::Fail(ScriptError::ErrIndex))
                } else if in_id > 0 {
                    Ok(())
                } else if tx.inputs@.len() == 0 {
                    Err(Halt::Fail(ScriptError::IndexOutOfBound))
                } else if tx.script_args@ == out_point_bytes(tx.inputs@[0].out_point) {
                    Ok(())
                } else {
                    Err(Halt::Fail(ScriptError::ErrArgs))
                },
            },
        }
    }
}

/// Runs the index script on `tx`.
pub fn main(tx: &Tx) -> (r: Result<(), Halt<ScriptError>>)
    ensures
        r == spec_main(*tx),
{
    let args = tx.script_args.as_slice();
    if args.len() == 0 {
        return Err(Halt::Fail(ScriptError::MyError));
    }
    let in_id = get_id_from_data(tx, Source::GroupInput)?;
    let out_id = get_id_from_data(tx, Source::GroupOutput)?;
    if out_id == 0 {
        return Err(Halt::Fail(ScriptError::ErrOutputData));
    }
    if in_id == u32::MAX {
        return Err(Halt::Abort);
    }
    if in_id + 1 != out_id {
        return Err(Halt::Fail(ScriptError::ErrIndex));
    }
    if in_id > 0 {
        return Ok(());
    }
    if out_id != 1 {
        return Err(Halt::Fail(ScriptError::ErrOutputData));
    }
    let op = match tx.input_out_point(Source::Input, 0) {
        Ok(o) => o,
        Err(e) => return Err(Halt::Fail(ScriptError::from_sys(e))),
    };
    let data = out_point_to_bytes(op);
    if bytes_eq(args, data.as_slice()) {
        return Ok(());
    }
    Err(Halt::Fail(ScriptError::ErrArgs))
}

} // verus!
