//! Little-endian numbers as they stand in instruction and account bytes.

use vstd::prelude::*;

verus! {

/// Number of bytes that hold an amount.
pub const AMOUNT_LEN: usize = 8;

/// The number that `bytes` spell in little-endian order: the first byte is
/// the least significant digit in base 256.
pub open spec fn le_value(bytes: Seq<u8>) -> nat
    decreases bytes.len(),
{
    if bytes.len() == 0 {
        0
    } else {
        bytes[0] as nat + 256 * le_value(bytes.drop_first())
    }
}

/// 256 to the power `n`.
pub open spec fn pow256(n: nat) -> nat
    decreases n,
{
    if n == 0 {
        1
    } else {
        256 * pow256((n - 1) as nat)
    }
}

/// A little-endian number of `n` digits is below 256 to the power `n`.
pub proof fn lemma_le_value_bound(bytes: Seq<u8>)
    ensures
        le_value(bytes) < pow256(bytes.len()),
    decreases bytes.len(),
{
    if bytes.len() > 0 {
        lemma_le_value_bound(bytes.drop_first());
    }
}

/// Eight base-256 digits fit a `u64`.
pub proof fn lemma_pow256_8()
    ensures
        pow256(8) == 0x1_0000_0000_0000_0000,
{
    reveal_with_fuel(pow256, 9);
}

/// Reads the eight bytes of `input` that start at `at` as a little-endian
/// number.
pub fn read_le_u64(input: &[u8], at: usize) -> (v: u64)
    requires
        at + AMOUNT_LEN <= input@.len(),
    ensures
        v == le_value(input@.subrange(at as int, at + AMOUNT_LEN)),
{
    let ghost digits = input@.subrange(at as int, at + AMOUNT_LEN);
    let n = input.len();
    let mut v: u64 = 0;
    let mut i: usize = AMOUNT_LEN;
    proof {
        assert(digits.subrange(8, 8) =~= Seq::<u8>::empty());
    }
    while i > 0
        invariant
            i <= AMOUNT_LEN,
            n == input@.len(),
            at + AMOUNT_LEN <= n,
            digits == input@.subrange(at as int, at + AMOUNT_LEN),
            v == le_value(digits.subrange(i as int, AMOUNT_LEN as int)),
        decreases i,
    {
        i = i - 1;
        let b = input[at + i];
        proof {
            let tail = digits.subrange(i + 1, AMOUNT_LEN as int);
            let now = digits.subrange(i as int, AMOUNT_LEN as int);
            assert(now.drop_first() =~= tail);
            assert(now[0] == b);
            lemma_le_value_bound(tail);
            lemma_le_value_bound(now);
            lemma_pow256_mono(now.len(), 8);
            lemma_pow256_8();
        }
        v = v * 256 + b as u64;
    }
    assert(digits.subrange(0, AMOUNT_LEN as int) =~= digits);
    v
}

/// Powers of 256 grow with the exponent.
pub proof fn lemma_pow256_mono(a: nat, b: nat)
    requires
        a <= b,
    ensures
        pow256(a) <= pow256(b),
    decreases b,
{
    if a < b {
        lemma_pow256_mono(a, (b - 1) as nat);
    }
}

/// The `n` little-endian digits of `v` in base 256, least significant
/// first.
pub open spec fn le_bytes(v: nat, n: nat) -> Seq<u8>
    decreases n,
{
    if n == 0 {
        Seq::empty()
    } else {
        seq![(v % 256) as u8] + le_bytes(v / 256, (n - 1) as nat)
    }
}

/// `le_bytes` yields as many digits as asked for.
pub proof fn lemma_le_bytes_len(v: nat, n: nat)
    ensures
        le_bytes(v, n).len() == n,
    decreases n,
{
    if n > 0 {
        lemma_le_bytes_len(v / 256, (n - 1) as nat);
    }
}

/// Reading back the digits of a number that fits them gives the number.
pub proof fn lemma_le_value_of_bytes(v: nat, n: nat)
    requires
        v < pow256(n),
    ensures
        le_value(le_bytes(v, n)) == v,
    decreases n,
{
    if n > 0 {
        let rest = le_bytes(v / 256, (n - 1) as nat);
        let all = le_bytes(v, n);
        assert(all.drop_first() =~= rest);
        assert(all[0] == (v % 256) as u8);
        lemma_le_value_of_bytes(v / 256, (n - 1) as nat);
    }
}

/// Writing the digits of the number that bytes spell gives the bytes.
pub proof fn lemma_le_bytes_of_value(bytes: Seq<u8>)
    ensures
        le_bytes(le_value(bytes), bytes.len()) == bytes,
    decreases bytes.len(),
{
    if bytes.len() > 0 {
        let v = le_value(bytes);
        let rest = bytes.drop_first();
        lemma_le_bytes_of_value(rest);
        assert(v % 256 == bytes[0] as nat && v / 256 == le_value(rest));
        assert(le_bytes(v, bytes.len()) =~= bytes);
    } else {
        assert(le_bytes(le_value(bytes), 0) =~= bytes);
    }
}

/// Appends the eight little-endian bytes of `v` to `out`.
pub fn push_le_u64(out: &mut Vec<u8>, v: u64)
    ensures
        final(out)@ == old(out)@ + le_bytes(v as nat, AMOUNT_LEN as nat),
{
    let mut rest: u64 = v;
    let mut i: usize = 0;
    proof {
        assert(out@ =~= old(out)@ + Seq::<u8>::empty());
        assert(le_bytes(v as nat, AMOUNT_LEN as nat) =~= Seq::<u8>::empty() + le_bytes(
            rest as nat,
            AMOUNT_LEN as nat,
        ));
    }
    while i < AMOUNT_LEN
        invariant
            i <= AMOUNT_LEN,
            exists|done: Seq<u8>|
                #![auto]
                out@ == old(out)@ + done && le_bytes(v as nat, AMOUNT_LEN as nat) == done
                    + le_bytes(rest as nat, (AMOUNT_LEN - i) as nat),
        decreases AMOUNT_LEN - i,
    {
        let ghost done = choose|done: Seq<u8>|
            #![auto]
            out@ == old(out)@ + done && le_bytes(v as nat, AMOUNT_LEN as nat) == done + le_bytes(
                rest as nat,
                (AMOUNT_LEN - i) as nat,
            );
        let digit: u8 = (rest % 256) as u8;
        out.push(digit);
        proof {
            let next = done.push(digit);
            assert(out@ =~= old(out)@ + next);
            assert(le_bytes(rest as nat, (AMOUNT_LEN - i) as nat) =~= seq![digit] + le_bytes(
                (rest / 256) as nat,
                (AMOUNT_LEN - i - 1) as nat,
            ));
            assert(done + (seq![digit] + le_bytes(
                (rest / 256) as nat,
                (AMOUNT_LEN - i - 1) as nat,
            )) =~= next + le_bytes((rest / 256) as nat, (AMOUNT_LEN - i - 1) as nat));
        }
        rest = rest / 256;
        i = i + 1;
    }
    proof {
        let done = choose|done: Seq<u8>|
            #![auto]
            out@ == old(out)@ + done && le_bytes(v as nat, AMOUNT_LEN as nat) == done + le_bytes(
                rest as nat,
                (AMOUNT_LEN - i) as nat,
            );
        assert(done + le_bytes(rest as nat, 0) =~= done);
    }
}

} // verus!
