//! The encoding of record numbers as keys: big-endian, so that keys sort as
//! the numbers do.

use vstd::prelude::*;

verus! {

/// 256 to the power of `n`.
pub open spec fn pow256(n: nat) -> nat
    decreases n,
{
    if n == 0 {
        1
    } else {
        256 * pow256((n - 1) as nat)
    }
}

/// The byte of weight `256^place` in `x`.
pub open spec fn byte_at(x: u64, place: nat) -> u8 {
    ((x as nat / pow256(place)) % 256) as u8
}

/// The eight bytes of `x`, the most significant first.
pub open spec fn be_bytes(x: u64) -> Seq<u8> {
    Seq::new(8, |i: int| byte_at(x, (7 - i) as nat))
}

/// The key of `klen` bytes for the record number `x`: the last `klen` bytes of
/// its eight big-endian bytes where `klen` is at most 8, and the eight bytes
/// followed by zeros where it is more.
pub open spec fn key_bytes(x: u64, klen: nat) -> Seq<u8> {
    if klen <= 8 {
        be_bytes(x).subrange(8 - klen, 8)
    } else {
        be_bytes(x) + Seq::new((klen - 8) as nat, |i: int| 0u8)
    }
}

/// Overwrites `k` with the key of `klen` bytes for the record number `x`.
pub fn write_key(x: u64, klen: usize, k: &mut Vec<u8>)
    ensures
        final(k)@ == key_bytes(x, klen as nat),
        final(k)@.len() == klen,
{
    k.clear();
    let mut place: usize = if klen < 8 { klen } else { 8 };
    while place > 0
        invariant
            place <= 8,
            place <= klen,
            klen <= 8 ==> k@ =~= be_bytes(x).subrange(8 - klen, 8 - place),
            klen > 8 ==> k@ =~= be_bytes(x).subrange(0, 8 - place),
        decreases place,
    {
        place = place - 1;
        k.push(byte_of(x, place));
    }
    if klen > 8 {
        let mut n: usize = 8;
        while n < klen
            invariant
                8 <= n <= klen,
                k@ =~= be_bytes(x) + Seq::new((n - 8) as nat, |i: int| 0u8),
            decreases klen - n,
        {
            k.push(0);
            n = n + 1;
        }
    }
}

/// The byte of weight `256^place` in `x`.
fn byte_of(x: u64, place: usize) -> (b: u8)
    requires
        place < 8,
    ensures
        b == byte_at(x, place as nat),
{
    let mut rest: u64 = x;
    let mut done: usize = 0;
    assert(pow256(0) == 1);
    while done < place
        invariant
            done <= place < 8,
            rest == x as nat / pow256(done as nat),
        decreases place - done,
    {
        proof {
            lemma_pow256_positive(done as nat);
            vstd::arithmetic::div_mod::lemma_div_denominator(x as int, pow256(done as nat) as int, 256);
            assert(pow256((done + 1) as nat) == 256 * pow256(done as nat));
            assert(pow256(done as nat) * 256 == 256 * pow256(done as nat)) by (nonlinear_arith);
        }
        rest = rest / 256;
        done = done + 1;
    }
    (rest % 256) as u8
}

/// Powers of 256 are positive.
pub proof fn lemma_pow256_positive(n: nat)
    ensures
        pow256(n) > 0,
    decreases n,
{
    if n > 0 {
        lemma_pow256_positive((n - 1) as nat);
    }
}

/// Whether `a` comes before `b` as byte strings compare: at the first place
/// where they differ `a` has the smaller byte, or `a` ends there and `b` does
/// not.
pub open spec fn lex_less(a: Seq<u8>, b: Seq<u8>) -> bool
    decreases a.len(),
{
    if b.len() == 0 {
        false
    } else if a.len() == 0 {
        true
    } else if a[0] != b[0] {
        a[0] < b[0]
    } else {
        lex_less(a.drop_first(), b.drop_first())
    }
}

/// The number that a sequence of bytes spells, the most significant first.
pub open spec fn be_value(s: Seq<u8>) -> nat
    decreases s.len(),
{
    if s.len() == 0 {
        0
    } else {
        s[0] as nat * pow256((s.len() - 1) as nat) + be_value(s.drop_first())
    }
}

/// Eight bytes hold the numbers below `2^64`.
pub proof fn lemma_pow256_eight()
    ensures
        pow256(8) == 0x1_0000_0000_0000_0000,
{
    assert(pow256(0) == 1);
    assert(pow256(1) == 0x100);
    assert(pow256(2) == 0x1_0000);
    assert(pow256(3) == 0x100_0000);
    assert(pow256(4) == 0x1_0000_0000);
    assert(pow256(5) == 0x100_0000_0000);
    assert(pow256(6) == 0x1_0000_0000_0000);
    assert(pow256(7) == 0x100_0000_0000_0000);
}

/// `n` bytes spell a number below `256^n`.
proof fn lemma_be_value_bound(s: Seq<u8>)
    ensures
        be_value(s) < pow256(s.len()),
    decreases s.len(),
{
    if s.len() > 0 {
        let tail = s.drop_first();
        lemma_be_value_bound(tail);
        let p = pow256(tail.len());
        assert(pow256(s.len()) == 256 * p);
        assert(s[0] as nat * p + p <= 256 * p) by (nonlinear_arith)
            requires
                s[0] as nat <= 255,
        ;
    }
}

/// Byte strings of one length compare as the numbers that they spell.
proof fn lemma_lex_is_numeric(a: Seq<u8>, b: Seq<u8>)
    requires
        a.len() == b.len(),
    ensures
        lex_less(a, b) <==> be_value(a) < be_value(b),
        a == b <==> be_value(a) == be_value(b),
    decreases a.len(),
{
    if a.len() == 0 {
        assert(a =~= b);
    } else {
        let ta = a.drop_first();
        let tb = b.drop_first();
        let p = pow256(ta.len());
        lemma_lex_is_numeric(ta, tb);
        lemma_be_value_bound(ta);
        lemma_be_value_bound(tb);
        let (a0, b0) = (a[0] as nat, b[0] as nat);
        if a0 < b0 {
            assert(a0 * p + p <= b0 * p) by (nonlinear_arith)
                requires
                    a0 < b0,
            ;
        } else if b0 < a0 {
            assert(b0 * p + p <= a0 * p) by (nonlinear_arith)
                requires
                    b0 < a0,
            ;
        } else {
            if ta == tb {
                assert forall|i: int| 0 <= i < a.len() implies a[i] == b[i] by {
                    if i > 0 {
                        assert(a[i] == ta[i - 1]);
                        assert(b[i] == tb[i - 1]);
                    }
                }
                assert(a =~= b);
            }
        }
    }
}

/// No byte string comes before itself.
proof fn lemma_lex_irreflexive(s: Seq<u8>)
    ensures
        !lex_less(s, s),
    decreases s.len(),
{
    if s.len() > 0 {
        lemma_lex_irreflexive(s.drop_first());
    }
}

/// A common tail changes nothing in how two byte strings of one length
/// compare.
proof fn lemma_lex_common_tail(a: Seq<u8>, b: Seq<u8>, tail: Seq<u8>)
    requires
        a.len() == b.len(),
    ensures
        lex_less(a + tail, b + tail) <==> lex_less(a, b),
        a + tail == b + tail <==> a == b,
    decreases a.len(),
{
    if a.len() == 0 {
        assert(a + tail =~= tail);
        assert(b + tail =~= tail);
        assert(a =~= b);
        lemma_lex_irreflexive(tail);
    } else {
        lemma_lex_common_tail(a.drop_first(), b.drop_first(), tail);
        assert((a + tail).drop_first() =~= a.drop_first() + tail);
        assert((b + tail).drop_first() =~= b.drop_first() + tail);
        if a + tail == b + tail {
            assert(a =~= (a + tail).subrange(0, a.len() as int));
            assert(b =~= (b + tail).subrange(0, b.len() as int));
        }
    }
}

/// The last `n` big-endian bytes of `x` spell the remainder of `x` by
/// `256^n`.
proof fn lemma_low_bytes_value(x: u64, n: nat)
    requires
        n <= 8,
    ensures
        be_value(be_bytes(x).subrange(8 - n, 8)) == x as nat % pow256(n),
    decreases n,
{
    let s = be_bytes(x).subrange(8 - n, 8);
    if n == 0 {
        assert(pow256(0) == 1);
    } else {
        let m = (n - 1) as nat;
        let p = pow256(m);
        lemma_low_bytes_value(x, m);
        lemma_pow256_positive(m);
        assert(s.drop_first() =~= be_bytes(x).subrange(8 - m, 8));
        assert(s[0] == byte_at(x, m));
        vstd::arithmetic::div_mod::lemma_mod_breakdown(x as int, p as int, 256);
        assert(pow256(n) == 256 * p);
        assert(p * 256 == 256 * p) by (nonlinear_arith);
        assert(((x as nat / p) % 256) * p == p * ((x as nat / p) % 256)) by (nonlinear_arith);
    }
}

/// Every key has the length asked for.
pub proof fn lemma_key_length(x: u64, klen: nat)
    ensures
        key_bytes(x, klen).len() == klen,
{
}

/// Keys sort as their record numbers do, and differ where the numbers differ:
/// for keys of at least eight bytes always, and for shorter ones among the
/// record numbers that fit in `klen` bytes.
pub proof fn lemma_key_order(x: u64, y: u64, klen: nat)
    requires
        klen >= 8 || (x < pow256(klen) && y < pow256(klen)),
    ensures
        lex_less(key_bytes(x, klen), key_bytes(y, klen)) <==> x < y,
        key_bytes(x, klen) == key_bytes(y, klen) <==> x == y,
{
    let n: nat = if klen <= 8 { klen } else { 8 };
    let a = be_bytes(x).subrange(8 - n, 8);
    let b = be_bytes(y).subrange(8 - n, 8);
    lemma_pow256_eight();
    lemma_low_bytes_value(x, n);
    lemma_low_bytes_value(y, n);
    assert(x as nat % pow256(n) == x) by {
        vstd::arithmetic::div_mod::lemma_small_mod(x as nat, pow256(n));
    }
    assert(y as nat % pow256(n) == y) by {
        vstd::arithmetic::div_mod::lemma_small_mod(y as nat, pow256(n));
    }
    lemma_lex_is_numeric(a, b);
    if klen > 8 {
        let zeros = Seq::new((klen - 8) as nat, |i: int| 0u8);
        assert(a =~= be_bytes(x));
        assert(b =~= be_bytes(y));
        lemma_lex_common_tail(a, b, zeros);
    }
}

} // verus!
