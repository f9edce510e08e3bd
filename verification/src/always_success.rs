//! A script that accepts every transaction.
use vstd::prelude::*;
use crate::error::{Halt, ScriptError};
use crate::tx::Tx;

verus! {

/// Runs the script: it accepts.
pub fn main(_tx: &Tx) -> (r: Result<(), Halt<ScriptError>>)
    ensures
        r == Ok::<(), Halt<ScriptError>>(()),
{
    Ok(())
}

} // verus!
