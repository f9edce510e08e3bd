//! A snapshot of the transaction that a script checks.
use vstd::prelude::*;
use crate::bytes::{bytes_eq, copy_range, pow256};
use crate::error::SysErrorKind;

verus! {

/// Where a script reads cells from.
#[derive(Clone, Copy, Debug, PartialEq, Eq)]
pub enum Source {
    Input,
    Output,
    CellDep,
    GroupInput,
    GroupOutput,
}

/// The cell that an input spends: the hash of the transaction that made it and its position there.
#[derive(Clone, Debug)]
pub struct OutPoint {
    pub tx_hash: Vec<u8>,
    pub index: u32,
}

/// One cell as a script sees it.
#[derive(Clone, Debug)]
pub struct Cell {
    pub capacity: u64,
    /// Hash of the lock script (32 bytes).
    pub lock_hash: Vec<u8>,
    /// Hash of the type script (32 bytes), if the cell has one.
    pub type_hash: Option<Vec<u8>>,
    pub data: Vec<u8>,
    /// The cell that an input spends; not read for outputs and dependencies.
    pub out_point: OutPoint,
    /// Timestamp of the block that holds the cell, if its header is a
    /// dependency of the transaction.
    pub header_timestamp: Option<u64>,
}

/// The transaction as a script sees it.
#[derive(Clone, Debug)]
pub struct Tx {
    /// Arguments of the running script.
    pub script_args: Vec<u8>,
    pub inputs: Vec<Cell>,
    pub outputs: Vec<Cell>,
    pub cell_deps: Vec<Cell>,
    /// Inputs whose script is the running one.
    pub group_inputs: Vec<Cell>,
    /// Outputs whose script is the running one.
    pub group_outputs: Vec<Cell>,
}

/// The serialized form of an out point: the hash, then the index in little-endian order.
pub open spec fn out_point_bytes(o: OutPoint) -> Seq<u8> {
    o.tx_hash@ + Seq::new(4, |k: int| ((o.index as nat / pow256(k as nat)) % 256) as u8)
}

/// Thirty-two zero bytes, which a missing type hash reads as.
pub open spec fn zero_hash() -> Seq<u8> {
    Seq::new(32, |_k: int| 0u8)
}

/// The type hash of a cell, with thirty-two zeros for a cell without type script.
pub open spec fn type_hash_or_zero(c: Cell) -> Seq<u8> {
    match c.type_hash {
        Some(h) => h@,
        None => zero_hash(),
    }
}

/// Whether the cell has a type script whose hash is `h`.
pub open spec fn has_type(c: Cell, h: Seq<u8>) -> bool {
    match c.type_hash {
        Some(t) => t@ == h,
        None => false,
    }
}

impl Tx {
    /// The cells of a source.
    pub open spec fn cells(self, src: Source) -> Seq<Cell> {
        match src {
            Source::Input => self.inputs@,
            Source::Output => self.outputs@,
            Source::CellDep => self.cell_deps@,
            Source::GroupInput => self.group_inputs@,
            Source::GroupOutput => self.group_outputs@,
        }
    }

    /// What loading cell `i` of `src` gives.
    pub open spec fn spec_cell(self, src: Source, i: int) -> Result<Cell, SysErrorKind> {
        if 0 <= i < self.cells(src).len() {
            Ok(self.cells(src)[i])
        } else {
            Err(SysErrorKind::IndexOutOfBound)
        }
    }

    /// What loading the block timestamp of cell `i` of `src` gives.
    pub open spec fn spec_header_time(self, src: Source, i: int) -> Result<u64, SysErrorKind> {
        if 0 <= i < self.cells(src).len() {
            match self.cells(src)[i].header_timestamp {
                Some(t) => Ok(t),
                None => Err(SysErrorKind::ItemMissing),
            }
        } else {
            Err(SysErrorKind::IndexOutOfBound)
        }
    }

    /// What loading the out point of input `i` of `src` gives: only inputs have one.
    pub open spec fn spec_out_point(self, src: Source, i: int) -> Result<OutPoint, SysErrorKind> {
        if (src == Source::Input || src == Source::GroupInput) && 0 <= i < self.cells(src).len() {
            Ok(self.cells(src)[i].out_point)
        } else {
            Err(SysErrorKind::IndexOutOfBound)
        }
    }

    /// The cells of a source.
    pub fn cells_of(&self, src: Source) -> (r: &Vec<Cell>)
        ensures
            r@ == self.cells(src),
    {
        match src {
            Source::Input => &self.inputs,
            Source::Output => &self.outputs,
            Source::CellDep => &self.cell_deps,
            Source::GroupInput => &self.group_inputs,
            Source::GroupOutput => &self.group_outputs,
        }
    }

    /// Loads cell `i` of `src`.
    pub fn cell(&self, src: Source, i: usize) -> (r: Result<&Cell, SysErrorKind>)
        ensures
            match r {
                Ok(c) => self.spec_cell(src, i as int) == Ok::<Cell, SysErrorKind>(*c),
                Err(e) => self.spec_cell(src, i as int) == Err::<Cell, SysErrorKind>(e),
            },
    {
        let cells = self.cells_of(src);
        if i < cells.len() {
            Ok(&cells[i])
        } else {
            Err(SysErrorKind::IndexOutOfBound)
        }
    }

    /// Loads the block timestamp of cell `i` of `src`.
    pub fn header_time(&self, src: Source, i: usize) -> (r: Result<u64, SysErrorKind>)
        ensures
            r == self.spec_header_time(src, i as int),
    {
        let cells = self.cells_of(src);
        if i < cells.len() {
            match cells[i].header_timestamp {
                Some(t) => Ok(t),
                None => Err(SysErrorKind::ItemMissing),
            }
        } else {
            Err(SysErrorKind::IndexOutOfBound)
        }
    }

    /// Loads the out point of input `i` of `src`.
    pub fn input_out_point(&self, src: Source, i: usize) -> (r: Result<&OutPoint, SysErrorKind>)
        ensures
            match r {
                Ok(o) => self.spec_out_point(src, i as int) == Ok::<OutPoint, SysErrorKind>(*o),
                Err(e) => self.spec_out_point(src, i as int) == Err::<OutPoint, SysErrorKind>(e),
            },
    {
        let is_input = match src {
            Source::Input => true,
            Source::GroupInput => true,
            _ => false,
        };
        let cells = self.cells_of(src);
        if is_input && i < cells.len() {
            Ok(&cells[i].out_point)
        } else {
            Err(SysErrorKind::IndexOutOfBound)
        }
    }
}

/// Whether `h` is thirty-two zero bytes.
pub fn is_zero_hash(h: &[u8]) -> (r: bool)
    ensures
        r == (h@ == zero_hash()),
{
    if h.len() != 32 {
        return false;
    }
    let mut i: usize = 0;
    while i < 32
        invariant
            h@.len() == 32,
            i <= 32,
            forall|j: int| 0 <= j < i ==> h@[j] == 0u8,
        decreases 32 - i,
    {
        if h[i] != 0 {
            proof {
                assert(zero_hash()[i as int] != h@[i as int]);
            }
            return false;
        }
        i = i + 1;
    }
    proof {
        assert(zero_hash() =~= h@);
    }
    true
}

/// Whether the type hash of `c`, read as thirty-two zeros when missing, equals `h`.
pub fn type_hash_or_zero_eq(c: &Cell, h: &[u8]) -> (r: bool)
    ensures
        r == (type_hash_or_zero(*c) == h@),
{
    match &c.type_hash {
        Some(t) => bytes_eq(t.as_slice(), h),
        None => is_zero_hash(h),
    }
}

/// Whether `c` has a type script whose hash is `h`.
pub fn has_type_eq(c: &Cell, h: &[u8]) -> (r: bool)
    ensures
        r == has_type(*c, h@),
{
    match &c.type_hash {
        Some(t) => bytes_eq(t.as_slice(), h),
        None => false,
    }
}

/// The serialized form of an out point.
pub fn out_point_to_bytes(o: &OutPoint) -> (r: Vec<u8>)
    ensures
        r@ == out_point_bytes(*o),
{
    let mut r = copy_range(o.tx_hash.as_slice(), 0, o.tx_hash.len());
    let ghost h = r@;
    let i = o.index;
    r.push((i % 256) as u8);
    r.push((i / 256 % 256) as u8);
    r.push((i / 65536 % 256) as u8);
    r.push((i / 16777216 % 256) as u8);
    proof {
        reveal_with_fuel(pow256, 4);
        let tail = Seq::new(4, |k: int| ((o.index as nat / pow256(k as nat)) % 256) as u8);
        assert(o.tx_hash@.subrange(0, o.tx_hash@.len() as int) =~= o.tx_hash@);
        assert(r@ =~= o.tx_hash@ + tail);
    }
    r
}

} // verus!
