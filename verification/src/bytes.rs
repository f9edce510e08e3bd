//! Little-endian integers and byte strings.
use vstd::prelude::*;

verus! {

/// The number that the bytes `s` encode in little-endian order.
pub open spec fn le_value(s: Seq<u8>) -> nat
    decreases s.len(),
{
    if s.len() == 0 {
        0
    } else {
        s[0] as nat + 256 * le_value(s.drop_first())
    }
}

/// `256` to the power `n`.
pub open spec fn pow256(n: nat) -> nat
    decreases n,
{
    if n == 0 {
        1
    } else {
        256 * pow256((n - 1) as nat)
    }
}

/// The number encoded by `len` bytes of `s` starting at `start`.
pub open spec fn le_at(s: Seq<u8>, start: int, len: int) -> nat {
    le_value(s.subrange(start, start + len))
}

/// Reads `len` (at most 16) little-endian bytes of `b` from `start`.
pub fn read_le(b: &[u8], start: usize, len: usize) -> (r: u128)
    requires
        len <= 16,
        start + len <= b@.len(),
    ensures
        r == le_at(b@, start as int, len as int),
{
    let n = b.len();
    let mut acc: u128 = 0;
    let mut i: usize = len;
    proof {
        assert(b@.subrange(start + len, start + len) =~= Seq::<u8>::empty());
    }
    while i > 0
        invariant
            len <= 16,
            start + len <= b@.len(),
            n == b@.len(),
            i <= len,
            acc == le_value(b@.subrange(start + i, start + len)),
            acc < pow256((len - i) as nat),
        decreases i,
    {
        let byte = b[start + i - 1];
        proof {
            let s1 = b@.subrange(start + i - 1, start + len);
            let s0 = b@.subrange(start + i, start + len);
            assert(s1.drop_first() =~= s0);
            crate::bytes_lemmas::lemma_pow256_mono((len - i) as nat, 15);
            crate::bytes_lemmas::lemma_pow256_16();
            assert(acc * 256 + 255 < pow256(16)) by (nonlinear_arith)
                requires
                    acc < pow256((len - i) as nat),
                    pow256((len - i) as nat) <= pow256(15),
                    pow256(16) == 256 * pow256(15),
            ;
            crate::bytes_lemmas::lemma_pow256_step((len - i) as nat);
            assert(byte + 256 * acc < pow256((len - i + 1) as nat)) by (nonlinear_arith)
                requires
                    acc < pow256((len - i) as nat),
                    pow256((len - i + 1) as nat) == 256 * pow256((len - i) as nat),
                    byte < 256,
            ;
        }
        acc = byte as u128 + 256 * acc;
        i = i - 1;
    }
    proof {
        assert(b@.subrange(start as int, start + len) =~= b@.subrange(start + 0, start + len));
    }
    acc
}

/// Reads a little-endian `u32` from the four bytes of `b` at `start`.
pub fn read_u32_le(b: &[u8], start: usize) -> (r: u32)
    requires
        start + 4 <= b@.len(),
    ensures
        r == le_at(b@, start as int, 4),
{
    let v = read_le(b, start, 4);
    proof {
        crate::bytes_lemmas::lemma_le_value_bound(b@.subrange(start as int, start + 4));
        crate::bytes_lemmas::lemma_pow256_small();
    }
    v as u32
}

/// Reads a little-endian `u64` from the eight bytes of `b` at `start`.
pub fn read_u64_le(b: &[u8], start: usize) -> (r: u64)
    requires
        start + 8 <= b@.len(),
    ensures
        r == le_at(b@, start as int, 8),
{
    let v = read_le(b, start, 8);
    proof {
        crate::bytes_lemmas::lemma_le_value_bound(b@.subrange(start as int, start + 8));
        crate::bytes_lemmas::lemma_pow256_small();
    }
    v as u64
}

/// Reads a little-endian `u128` from the sixteen bytes of `b` at `start`.
pub fn read_u128_le(b: &[u8], start: usize) -> (r: u128)
    requires
        start + 16 <= b@.len(),
    ensures
        r == le_at(b@, start as int, 16),
{
    read_le(b, start, 16)
}

/// Whether two byte strings are equal.
pub fn bytes_eq(a: &[u8], b: &[u8]) -> (r: bool)
    ensures
        r == (a@ == b@),
{
    if a.len() != b.len() {
        return false;
    }
    let mut i: usize = 0;
    while i < a.len()
        invariant
            a@.len() == b@.len(),
            i <= a@.len(),
            forall|j: int| 0 <= j < i ==> a@[j] == b@[j],
        decreases a@.len() - i,
    {
        if a[i] != b[i] {
            return false;
        }
        i = i + 1;
    }
    proof {
        assert(a@ =~= b@);
    }
    true
}

/// A copy of `b[start..end]`.
pub fn copy_range(b: &[u8], start: usize, end: usize) -> (r: Vec<u8>)
    requires
        start <= end <= b@.len(),
    ensures
        r@ == b@.subrange(start as int, end as int),
{
    let mut r: Vec<u8> = Vec::new();
    let mut i: usize = start;
    while i < end
        invariant
            start <= i <= end <= b@.len(),
            r@ == b@.subrange(start as int, i as int),
        decreases end - i,
    {
        r.push(b[i]);
        proof {
            assert(b@.subrange(start as int, i + 1) =~= b@.subrange(start as int, i as int).push(b@[i as int]));
        }
        i = i + 1;
    }
    r
}

} // verus!
