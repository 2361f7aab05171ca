//! Little-endian byte encodings of unsigned integers.

use vstd::prelude::*;

verus! {

/// 256 raised to `n`.
pub open spec fn pow256(n: nat) -> nat
    decreases n,
{
    if n == 0 {
        1
    } else {
        256 * pow256((n - 1) as nat)
    }
}

/// The `n` low-order bytes of `v`, least significant first.
pub open spec fn le_seq(v: nat, n: nat) -> Seq<u8>
    decreases n,
{
    if n == 0 {
        Seq::empty()
    } else {
        seq![(v % 256) as u8] + le_seq(v / 256, (n - 1) as nat)
    }
}

/// The number that `b` encodes, least significant byte first.
pub open spec fn le_value(b: Seq<u8>) -> nat
    decreases b.len(),
{
    if b.len() == 0 {
        0
    } else {
        b[0] as nat + 256 * le_value(b.drop_first())
    }
}

pub proof fn lemma_le_seq_len(v: nat, n: nat)
    ensures
        le_seq(v, n).len() == n,
    decreases n,
{
    if n > 0 {
        lemma_le_seq_len(v / 256, (n - 1) as nat);
    }
}

/// Encoding `v` in `n` bytes and reading it back gives `v` when it fits.
pub proof fn lemma_le_round_trip(v: nat, n: nat)
    requires
        v < pow256(n),
    ensures
        le_value(le_seq(v, n)) == v,
    decreases n,
{
    if n > 0 {
        let s = le_seq(v, n);
        lemma_le_round_trip(v / 256, (n - 1) as nat);
        assert(s.drop_first() =~= le_seq(v / 256, (n - 1) as nat));
        assert(v / 256 < pow256((n - 1) as nat)) by (nonlinear_arith)
            requires
                v < 256 * pow256((n - 1) as nat),
        ;
        assert(v == (v % 256) + 256 * (v / 256)) by (nonlinear_arith);
    }
}

/// A sequence of bytes encodes a number below 256 to the power of its length.
pub proof fn lemma_le_value_bound(b: Seq<u8>)
    ensures
        le_value(b) < pow256(b.len()),
    decreases b.len(),
{
    if b.len() > 0 {
        let rest = b.drop_first();
        lemma_le_value_bound(rest);
        let r = le_value(rest);
        let p = pow256(rest.len());
        assert(b[0] as nat + 256 * r < 256 * p) by (nonlinear_arith)
            requires
                r < p,
                b[0] < 256,
        ;
    }
}

proof fn lemma_pow256_u64(n: nat)
    requires
        n <= 8,
    ensures
        pow256(n) <= 0x1_0000_0000_0000_0000,
{
    reveal_with_fuel(pow256, 9);
}

/// The `n` low-order bytes of `v`, least significant first.
pub fn le_bytes(v: u64, n: usize) -> (r: Vec<u8>)
    requires
        n <= 8,
    ensures
        r@ == le_seq(v as nat, n as nat),
{
    let mut r: Vec<u8> = Vec::new();
    let mut x: u64 = v;
    let mut i: usize = 0;
    while i < n
        invariant
            i <= n,
            le_seq(v as nat, n as nat) =~= r@ + le_seq(x as nat, (n - i) as nat),
        decreases n - i,
    {
        let ghost before = r@;
        r.push((x % 256) as u8);
        proof {
            let rest = le_seq((x / 256) as nat, (n - i - 1) as nat);
            assert(le_seq(x as nat, (n - i) as nat) == seq![(x % 256) as u8] + rest);
            assert(before + (seq![(x % 256) as u8] + rest) =~= r@ + rest);
        }
        x = x / 256;
        i = i + 1;
    }
    r
}

/// The number held by `b[start..start + n]`, least significant byte first.
pub fn le_read(b: &[u8], start: usize, n: usize) -> (r: u64)
    requires
        n <= 8,
        start + n <= b@.len(),
    ensures
        r as nat == le_value(b@.subrange(start as int, start + n)),
{
    let len = b.len();
    let mut acc: u64 = 0;
    let mut i: usize = n;
    proof {
        assert(b@.subrange(start + n, start + n).len() == 0);
    }
    while i > 0
        invariant
            i <= n <= 8,
            start + n <= b@.len(),
            len == b@.len(),
            acc as nat == le_value(b@.subrange(start + i, start + n)),
        decreases i,
    {
        let ghost tail = b@.subrange(start + i, start + n);
        let ghost whole = b@.subrange(start + i - 1, start + n);
        proof {
            assert(whole.drop_first() =~= tail);
            lemma_le_value_bound(tail);
            lemma_pow256_u64(tail.len());
            assert(tail.len() == n - i);
            assert(tail.len() <= 7);
            reveal_with_fuel(pow256, 8);
            assert(pow256(tail.len()) <= 0x1_0000_0000_0000_00);
        }
        let byte = b[start + (i - 1)];
        assert(acc * 256 + byte < 0x1_0000_0000_0000_0000) by (nonlinear_arith)
            requires
                acc < 0x1_0000_0000_0000_00,
                byte < 256,
        ;
        acc = acc * 256 + byte as u64;
        i = i - 1;
    }
    acc
}

} // verus!
