//! Configuration cells: identifiers and the lookup of configuration entries
//! among the cell dependencies.
use vstd::prelude::*;
use crate::bytes::{le_at, read_u32_le, copy_range};
use crate::error::{Halt, ScriptError, SysErrorKind};
use crate::tx::{Cell, Tx, Source, type_hash_or_zero, type_hash_or_zero_eq};

verus! {

/// Identifiers of configuration entries.  The entry of a collateral token
/// is at an even identifier, its price at the next one.
#[derive(Clone, Copy, Debug, PartialEq, Eq)]
pub enum ID {
    IncentiveParam,
    BurnLock,
    UDTLock,
    CDPType,
    TAIType,
    ManagerTokenType,
    CommunityLock,
    DebtType,
    AuctionType,
    DebtSysType,
    ProposalType,
    AuctionLock,
    NervosDAOLock,
    NervosDAOType,
    DAOInfoType,
    DAOUDT,
    DebtLock,
}

/// Length of an identifier in a configuration entry.
pub const ID_LEN: usize = 4;

/// The number of an identifier.
pub open spec fn id_number(id: ID) -> u32 {
    match id {
        ID::IncentiveParam => 1,
        ID::BurnLock => 2,
        ID::UDTLock => 3,
        ID::CDPType => 4,
        ID::TAIType => 5,
        ID::ManagerTokenType => 6,
        ID::CommunityLock => 7,
        ID::DebtType => 8,
        ID::AuctionType => 9,
        ID::DebtSysType => 10,
        ID::ProposalType => 11,
        ID::AuctionLock => 12,
        ID::NervosDAOLock => 13,
        ID::NervosDAOType => 14,
        ID::DAOInfoType => 15,
        ID::DAOUDT => 16,
        ID::DebtLock => 17,
    }
}

impl ID {
    /// The number of this identifier.
    pub fn number(self) -> (r: u32)
        ensures
            r == id_number(self),
    {
        match self {
            ID::IncentiveParam => 1,
            ID::BurnLock => 2,
            ID::UDTLock => 3,
            ID::CDPType => 4,
            ID::TAIType => 5,
            ID::ManagerTokenType => 6,
            ID::CommunityLock => 7,
            ID::DebtType => 8,
            ID::AuctionType => 9,
            ID::DebtSysType => 10,
            ID::ProposalType => 11,
            ID::AuctionLock => 12,
            ID::NervosDAOLock => 13,
            ID::NervosDAOType => 14,
            ID::DAOInfoType => 15,
            ID::DAOUDT => 16,
            ID::DebtLock => 17,
        }
    }
}

/// Whether `c` is the entry `index` of the configuration whose type hash is `config`:
/// its data starts with the identifier, in four little-endian bytes.
pub open spec fn is_config_entry(c: Cell, config: Seq<u8>, index: u32) -> bool {
    &&& type_hash_or_zero(c) == config
    &&& c.data@.len() >= 4
    &&& le_at(c.data@, 0, 4) == index
}

/// Whether dependency `i` is the first entry `index` of the configuration `config`.
pub open spec fn is_first_config_entry(deps: Seq<Cell>, config: Seq<u8>, index: u32, i: int) -> bool {
    &&& 0 <= i < deps.len()
    &&& is_config_entry(deps[i], config, index)
    &&& forall|j: int| 0 <= j < i ==> !is_config_entry(#[trigger] deps[j], config, index)
}

/// The position of the first entry `index` of the configuration `config`, if there is one.
pub open spec fn config_position(deps: Seq<Cell>, config: Seq<u8>, index: u32) -> Option<int> {
    if exists|i: int| is_first_config_entry(deps, config, index, i) {
        Some(choose|i: int| is_first_config_entry(deps, config, index, i))
    } else {
        None
    }
}

/// The value of entry `index` of the configuration `config` (the data after the
/// identifier of its first entry); a missing entry is reported as past the
/// last dependency.
pub open spec fn config_data(deps: Seq<Cell>, config: Seq<u8>, index: u32) -> Result<Seq<u8>, SysErrorKind> {
    match config_position(deps, config, index) {
        Some(i) => Ok(deps[i].data@.skip(4)),
        None => Err(SysErrorKind::IndexOutOfBound),
    }
}

/// There is at most one first entry.
pub proof fn lemma_first_config_entry_unique(deps: Seq<Cell>, config: Seq<u8>, index: u32, i: int, k: int)
    requires
        is_first_config_entry(deps, config, index, i),
        is_first_config_entry(deps, config, index, k),
    ensures
        i == k,
{
    if i < k {
        assert(!is_config_entry(deps[i], config, index));
    } else if k < i {
        assert(!is_config_entry(deps[k], config, index));
    }
}

/// Position of the first entry `index` of the configuration `config` among the dependencies.
fn find_config_entry(tx: &Tx, config: &[u8], index: u32) -> (r: Option<usize>)
    ensures
        match r {
            Some(i) => config_position(tx.cell_deps@, config@, index) == Some(i as int),
            None => config_position(tx.cell_deps@, config@, index) is None,
        },
{
    let deps = &tx.cell_deps;
    let mut i: usize = 0;
    while i < deps.len()
        invariant
            deps@ == tx.cell_deps@,
            i <= deps@.len(),
            forall|j: int| 0 <= j < i ==> !is_config_entry(#[trigger] deps@[j], config@, index),
        decreases deps@.len() - i,
    {
        let c = &deps[i];
        if type_hash_or_zero_eq(c, config) && c.data.len() >= 4 {
            let id = read_u32_le(c.data.as_slice(), 0);
            if id == index {
                proof {
                    assert(is_first_config_entry(deps@, config@, index, i as int));
                    let k = choose|k: int| is_first_config_entry(deps@, config@, index, k);
                    lemma_first_config_entry_unique(deps@, config@, index, i as int, k);
                }
                return Some(i);
            }
        }
        i = i + 1;
    }
    proof {
        assert(!exists|k: int| is_first_config_entry(deps@, config@, index, k));
    }
    None
}

/// The value of entry `index` of the configuration whose type hash is `config`.
pub fn get_config_data(tx: &Tx, config: &[u8], index: u32) -> (r: Result<Vec<u8>, SysErrorKind>)
    ensures
        match r {
            Ok(v) => config_data(tx.cell_deps@, config@, index) == Ok::<Seq<u8>, SysErrorKind>(v@),
            Err(e) => config_data(tx.cell_deps@, config@, index) == Err::<Seq<u8>, SysErrorKind>(e),
        },
{
    match find_config_entry(tx, config, index) {
        Some(i) => {
            let d = &tx.cell_deps[i].data;
            let v = copy_range(d.as_slice(), 4, d.len());
            proof {
                assert(v@ =~= d@.skip(4));
            }
            Ok(v)
        },
        None => Err(SysErrorKind::IndexOutOfBound),
    }
}

/// The block time of the first entry `index` of the configuration `config`.
pub open spec fn config_time(tx: Tx, config: Seq<u8>, index: u32) -> Result<u64, SysErrorKind> {
    match config_position(tx.cell_deps@, config, index) {
        Some(i) => tx.spec_header_time(Source::CellDep, i),
        None => Err(SysErrorKind::IndexOutOfBound),
    }
}

/// The block time of entry `index` of the configuration whose type hash is `config`.
pub fn get_time_of_config(tx: &Tx, config: &[u8], index: u32) -> (r: Result<u64, SysErrorKind>)
    ensures
        r == config_time(*tx, config@, index),
{
    match find_config_entry(tx, config, index) {
        Some(i) => tx.header_time(Source::CellDep, i),
        None => Err(SysErrorKind::IndexOutOfBound),
    }
}

/// Whether dependency `i` is the first whose type hash (thirty-two zeros when missing) is `dep`.
pub open spec fn is_first_dep(deps: Seq<Cell>, dep: Seq<u8>, i: int) -> bool {
    &&& 0 <= i < deps.len()
    &&& type_hash_or_zero(deps[i]) == dep
    &&& forall|j: int| 0 <= j < i ==> type_hash_or_zero(#[trigger] deps[j]) != dep
}

/// The data of the first dependency whose type hash is `dep`; none is
/// reported as past the last dependency.
pub open spec fn deps_data(deps: Seq<Cell>, dep: Seq<u8>) -> Result<Seq<u8>, SysErrorKind> {
    if exists|i: int| is_first_dep(deps, dep, i) {
        Ok(deps[choose|i: int| is_first_dep(deps, dep, i)].data@)
    } else {
        Err(SysErrorKind::IndexOutOfBound)
    }
}

/// The data of the first dependency whose type hash is `dep`.
pub fn get_deps_data(tx: &Tx, dep: &[u8]) -> (r: Result<Vec<u8>, SysErrorKind>)
    ensures
        match r {
            Ok(v) => deps_data(tx.cell_deps@, dep@) == Ok::<Seq<u8>, SysErrorKind>(v@),
            Err(e) => deps_data(tx.cell_deps@, dep@) == Err::<Seq<u8>, SysErrorKind>(e),
        },
{
    let deps = &tx.cell_deps;
    let mut i: usize = 0;
    while i < deps.len()
        invariant
            deps@ == tx.cell_deps@,
            i <= deps@.len(),
            forall|j: int| 0 <= j < i ==> type_hash_or_zero(#[trigger] deps@[j]) != dep@,
        decreases deps@.len() - i,
    {
        if type_hash_or_zero_eq(&deps[i], dep) {
            proof {
                assert(is_first_dep(deps@, dep@, i as int));
                let k = choose|k: int| is_first_dep(deps@, dep@, k);
                if k < i {
                    assert(type_hash_or_zero(deps@[k]) != dep@);
                } else if k > i {
                    assert(type_hash_or_zero(deps@[i as int]) != dep@);
                }
            }
            let d = &deps[i].data;
            let v = copy_range(d.as_slice(), 0, d.len());
            proof {
                assert(v@ =~= d@);
            }
            return Ok(v);
        }
        i = i + 1;
    }
    proof {
        assert(!exists|k: int| is_first_dep(deps@, dep@, k));
    }
    Err(SysErrorKind::IndexOutOfBound)
}

/// The block time of cell `index` of `so`.
pub fn get_cell_time(tx: &Tx, so: Source, index: usize) -> (r: Result<u64, SysErrorKind>)
    ensures
        r == tx.spec_header_time(so, index as int),
{
    tx.header_time(so, index)
}

/// The identifier that the cells from `i` on carry (the first four bytes of
/// their data, little-endian), given that `find` tells whether one was seen
/// and `value` is the last one.  A cell with shorter data aborts; identifier
/// zero fails; a second cell fails unless `mul` allows several, which must
/// then agree.
pub open spec fn id_scan(cells: Seq<Cell>, mul: bool, i: int, find: bool, value: u32) -> Result<u32, Halt<ScriptError>>
    decreases cells.len() - i,
{
    if i < 0 || i >= cells.len() {
        Ok(value)
    } else if cells[i].data@.len() < 4 {
        Err(Halt::Abort)
    } else if le_at(cells[i].data@, 0, 4) == 0 {
        Err(Halt::Fail(ScriptError::ErrZero))
    } else if find && !mul {
        Err(Halt::Fail(ScriptError::ErrMoreOneCell))
    } else if find && le_at(cells[i].data@, 0, 4) != value {
        Err(Halt::Fail(ScriptError::ErrDifferenceData))
    } else {
        id_scan(cells, mul, i + 1, true, le_at(cells[i].data@, 0, 4) as u32)
    }
}

/// The identifier carried by the cells of `so`; zero when there is none.
pub fn get_id_from_data(tx: &Tx, so: Source, mul: bool) -> (r: Result<u32, Halt<ScriptError>>)
    ensures
        r == id_scan(tx.cells(so), mul, 0, false, 0),
{
    let cells = tx.cells_of(so);
    let mut value: u32 = 0;
    let mut find = false;
    let mut i: usize = 0;
    while i < cells.len()
        invariant
            cells@ == tx.cells(so),
            i <= cells@.len(),
            id_scan(cells@, mul, 0, false, 0) == id_scan(cells@, mul, i as int, find, value),
        decreases cells@.len() - i,
    {
        let data = &cells[i].data;
        if data.len() < 4 {
            return Err(Halt::Abort);
        }
        let lv = read_u32_le(data.as_slice(), 0);
        if lv == 0 {
            return Err(Halt::Fail(ScriptError::ErrZero));
        }
        if find {
            if !mul {
                return Err(Halt::Fail(ScriptError::ErrMoreOneCell));
            }
            if lv != value {
                return Err(Halt::Fail(ScriptError::ErrDifferenceData));
            }
        }
        find = true;
        value = lv;
        i = i + 1;
    }
    Ok(value)
}

/// The identifier of the index cell (the input whose type hash, thirty-two
/// zeros when missing, is `args`), scanning from `i`: a second such input
/// fails, data shorter than an identifier aborts; zero when there is none.
pub open spec fn index_scan(cells: Seq<Cell>, args: Seq<u8>, i: int, find: bool, value: u32) -> Result<u32, Halt<ScriptError>>
    decreases cells.len() - i,
{
    if i < 0 || i >= cells.len() {
        Ok(value)
    } else if type_hash_or_zero(cells[i]) != args {
        index_scan(cells, args, i + 1, find, value)
    } else if find {
        Err(Halt::Fail(ScriptError::ErrMoreOneCell))
    } else if cells[i].data@.len() < 4 {
        Err(Halt::Abort)
    } else {
        index_scan(cells, args, i + 1, true, le_at(cells[i].data@, 0, 4) as u32)
    }
}

/// The identifier of the index cell among the inputs.
pub fn get_id_from_index_script(tx: &Tx, args: &[u8]) -> (r: Result<u32, Halt<ScriptError>>)
    ensures
        r == index_scan(tx.inputs@, args@, 0, false, 0),
{
    let cells = &tx.inputs;
    let mut value: u32 = 0;
    let mut find = false;
    let mut i: usize = 0;
    while i < cells.len()
        invariant
            cells@ == tx.inputs@,
            i <= cells@.len(),
            index_scan(cells@, args@, 0, false, 0) == index_scan(cells@, args@, i as int, find, value),
        decreases cells@.len() - i,
    {
        let c = &cells[i];
        if type_hash_or_zero_eq(c, args) {
            if find {
                return Err(Halt::Fail(ScriptError::ErrMoreOneCell));
            }
            if c.data.len() < 4 {
                return Err(Halt::Abort);
            }
            find = true;
            value = read_u32_le(c.data.as_slice(), 0);
        }
        i = i + 1;
    }
    Ok(value)
}

/// What the configuration type script decides.  Its cells carry an
/// identifier.  An updated cell keeps its identifier; a new one (no such
/// input) takes the identifier that the index cell, named by the script's
/// arguments, carries, and several new cells must share it.
pub open spec fn spec_main(tx: Tx) -> Result<(), Halt<ScriptError>> {
    match id_scan(tx.group_inputs@, false, 0, false, 0) {
        Err(h) => Err(h),
        Ok(in_id) => match id_scan(tx.group_outputs@, in_id == 0, 0, false, 0) {
            Err(h) => Err(h),
            Ok(out_id) => if out_id == 0 {
                Err(Halt::Fail(ScriptError::ErrOutputData))
            } else if in_id > 0 && in_id == out_id {
                Ok(())
            } else if in_id > 0 {
                Err(Halt::Fail(ScriptError::ErrIndex))
            } else if tx.script_args@.len() == 0 {
                Err(Halt::Fail(ScriptError::MyError))
            } else {
                match index_scan(tx.inputs@, tx.script_args@, 0, false, 0) {
                    Err(h) => Err(h),
                    Ok(index_id) => if index_id == out_id {
                        Ok(())
                    } else {
                        Err(Halt::Fail(ScriptError::ErrArgs))
                    },
                }
            },
        },
    }
}

/// Runs the configuration type script on `tx`.
pub fn main(tx: &Tx) -> (r: Result<(), Halt<ScriptError>>)
    ensures
        r == spec_main(*tx),
{
    let in_id = get_id_from_data(tx, Source::GroupInput, false)?;
    let out_id = get_id_from_data(tx, Source::GroupOutput, in_id == 0)?;
    if out_id == 0 {
        return Err(Halt::Fail(ScriptError::ErrOutputData));
    }
    if in_id > 0 && in_id == out_id {
        return Ok(());
    }
    if in_id > 0 {
        return Err(Halt::Fail(ScriptError::ErrIndex));
    }
    let args = tx.script_args.as_slice();
    if args.len() == 0 {
        return Err(Halt::Fail(ScriptError::MyError));
    }
    let index_id = get_id_from_index_script(tx, args)?;
    if index_id == out_id {
        return Ok(());
    }
    Err(Halt::Fail(ScriptError::ErrArgs))
}

} // verus!
