//! Fixed-width big-endian integers on byte sequences.

use vstd::prelude::*;

verus! {

/// `256` raised to the `n`-th power: the number of values that `n` bytes hold.
pub open spec fn byte_cap(n: nat) -> nat
    decreases n,
{
    if n == 0 {
        1
    } else {
        256 * byte_cap((n - 1) as nat)
    }
}

/// The unsigned number that `b` spells in big-endian order.
pub open spec fn be_value(b: Seq<u8>) -> nat
    decreases b.len(),
{
    if b.len() == 0 {
        0
    } else {
        (be_value(b.drop_last()) * 256 + b.last()) as nat
    }
}

/// The `n` low-order bytes of `v`, most significant first.
pub open spec fn be_bytes(v: nat, n: nat) -> Seq<u8>
    decreases n,
{
    if n == 0 {
        Seq::empty()
    } else {
        be_bytes(v / 256, (n - 1) as nat).push((v % 256) as u8)
    }
}

pub proof fn lemma_be_bytes_len(v: nat, n: nat)
    ensures
        be_bytes(v, n).len() == n,
    decreases n,
{
    if n > 0 {
        lemma_be_bytes_len(v / 256, (n - 1) as nat);
    }
}

pub proof fn lemma_be_value_bound(b: Seq<u8>)
    ensures
        be_value(b) < byte_cap(b.len()),
    decreases b.len(),
{
    if b.len() > 0 {
        lemma_be_value_bound(b.drop_last());
        let h = be_value(b.drop_last());
        let c = byte_cap((b.len() - 1) as nat);
        assert(h * 256 + b.last() < 256 * c) by (nonlinear_arith)
            requires
                h < c,
                b.last() < 256,
        ;
    }
}

/// Writing `v` on `n` bytes and reading them back gives `v` when it fits.
pub proof fn lemma_be_round_trip(v: nat, n: nat)
    requires
        v < byte_cap(n),
    ensures
        be_value(be_bytes(v, n)) == v,
    decreases n,
{
    if n > 0 {
        let c = byte_cap((n - 1) as nat);
        assert(v / 256 < c) by (nonlinear_arith)
            requires
                v < 256 * c,
        ;
        lemma_be_round_trip(v / 256, (n - 1) as nat);
        let s = be_bytes(v / 256, (n - 1) as nat);
        assert(s.push((v % 256) as u8).drop_last() =~= s);
        assert((v / 256) * 256 + v % 256 == v) by (nonlinear_arith);
    }
}

pub proof fn lemma_byte_caps()
    ensures
        byte_cap(1) == 0x100,
        byte_cap(2) == 0x1_0000,
        byte_cap(4) == 0x1_0000_0000,
        byte_cap(7) == 0x100_0000_0000_0000,
        byte_cap(8) == 0x1_0000_0000_0000_0000,
{
    reveal_with_fuel(byte_cap, 9);
}

pub proof fn lemma_byte_cap_mono(a: nat, b: nat)
    requires
        a <= b,
    ensures
        byte_cap(a) <= byte_cap(b),
    decreases b,
{
    if a < b {
        lemma_byte_cap_mono(a, (b - 1) as nat);
    }
}

/// Reads the first `n` bytes of `b` as a big-endian unsigned number.
pub fn read_be(b: &[u8], n: usize) -> (r: u64)
    requires
        n <= 8,
        n <= b@.len(),
    ensures
        r as nat == be_value(b@.take(n as int)),
    decreases n,
{
    if n == 0 {
        proof {
            assert(b@.take(0) =~= Seq::<u8>::empty());
        }
        0
    } else {
        let hi = read_be(b, n - 1);
        proof {
            assert(b@.take(n as int).drop_last() =~= b@.take(n - 1));
            lemma_be_value_bound(b@.take(n - 1));
            lemma_byte_cap_mono((n - 1) as nat, 7);
            lemma_byte_caps();
        }
        hi * 256 + b[n - 1] as u64
    }
}

/// Appends the `n` low-order bytes of `v` to `out`, most significant first.
pub fn write_be(v: u64, n: usize, out: &mut Vec<u8>)
    requires
        n <= 8,
    ensures
        final(out)@ == old(out)@ + be_bytes(v as nat, n as nat),
    decreases n,
{
    if n == 0 {
        assert(old(out)@ + be_bytes(v as nat, 0) =~= old(out)@);
    } else {
        let ghost before = out@;
        write_be(v / 256, n - 1, out);
        out.push((v % 256) as u8);
        assert(out@ =~= before + be_bytes(v as nat, n as nat));
    }
}

} // verus!
