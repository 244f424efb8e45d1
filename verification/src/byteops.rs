//! Byte-string arithmetic shared by the encryption context: the big-endian
//! sequence counter, the nonce XOR, and small helpers for assembling labeled
//! byte strings.
use vstd::prelude::*;

verus! {

/// The value of a byte string read as a big-endian unsigned integer.
pub open spec fn be_val(s: Seq<u8>) -> nat
    decreases s.len(),
{
    if s.len() == 0 {
        0
    } else {
        be_val(s.drop_last()) * 256 + s.last() as nat
    }
}

/// Every byte is 0xff: the counter has reached its largest value.
pub open spec fn is_all_max(s: Seq<u8>) -> bool {
    forall|i: int| 0 <= i < s.len() ==> s[i] == 0xffu8
}

/// The all-zero byte string of the given length.
pub open spec fn zero_bytes(n: nat) -> Seq<u8> {
    Seq::new(n, |i: int| 0u8)
}

/// Bytewise exclusive or of two equal-length byte strings.
pub open spec fn xor_bytes(a: Seq<u8>, b: Seq<u8>) -> Seq<u8> {
    Seq::new(a.len(), |i: int| a[i] ^ b[i])
}

/// 256 raised to the `k`-th power.
pub open spec fn pow256(k: nat) -> nat
    decreases k,
{
    if k == 0 {
        1
    } else {
        256 * pow256((k - 1) as nat)
    }
}

pub proof fn lemma_pow256_pos(k: nat)
    ensures
        pow256(k) >= 1,
    decreases k,
{
    if k > 0 {
        lemma_pow256_pos((k - 1) as nat);
    }
}

/// The all-zero string has value zero.
pub proof fn lemma_be_val_zero(n: nat)
    ensures
        be_val(zero_bytes(n)) == 0,
    decreases n,
{
    if n > 0 {
        assert(zero_bytes(n).drop_last() =~= zero_bytes((n - 1) as nat));
        lemma_be_val_zero((n - 1) as nat);
    }
}

/// A string of `n` 0xff bytes has value `256^n - 1`.
pub proof fn lemma_be_val_all_max(s: Seq<u8>)
    requires
        is_all_max(s),
    ensures
        be_val(s) == pow256(s.len()) - 1,
    decreases s.len(),
{
    if s.len() > 0 {
        assert(is_all_max(s.drop_last()));
        lemma_be_val_all_max(s.drop_last());
        lemma_pow256_pos((s.len() - 1) as nat);
        assert(s.last() == 0xffu8);
        assert(be_val(s) == (pow256((s.len() - 1) as nat) - 1) * 256 + 255);
        assert((pow256((s.len() - 1) as nat) - 1) * 256 + 255 == 256 * pow256(
            (s.len() - 1) as nat,
        ) - 1) by (nonlinear_arith)
            requires
                pow256((s.len() - 1) as nat) >= 1,
        ;
    }
}

/// Splitting a byte string at `k` splits its value into a quotient scaled by
/// `256^(len-k)` plus the value of the tail.
pub proof fn lemma_be_val_split(s: Seq<u8>, k: int)
    requires
        0 <= k <= s.len(),
    ensures
        be_val(s) == be_val(s.take(k)) * pow256((s.len() - k) as nat) + be_val(s.skip(k)),
    decreases s.len() - k,
{
    if k == s.len() {
        assert(s.take(k) =~= s);
        assert(s.skip(k) =~= Seq::<u8>::empty());
        assert(be_val(Seq::<u8>::empty()) == 0);
        assert(s.take(k) == s);
        assert(s.skip(k) == Seq::<u8>::empty());
        assert(be_val(s.skip(k)) == 0);
        assert((s.len() - k) as nat == 0);
        assert(pow256((s.len() - k) as nat) == 1);
        assert(be_val(s.take(k)) * pow256((s.len() - k) as nat) == be_val(s))
            by (nonlinear_arith)
            requires
                s.take(k) == s,
                pow256((s.len() - k) as nat) == 1,
        ;
        assert(be_val(s) == be_val(s.take(k)) * pow256((s.len() - k) as nat) + be_val(s.skip(k)));
    } else {
        // Peel the last byte off both sides.
        let s0 = s.drop_last();
        let m = (s.len() - k - 1) as nat;
        lemma_be_val_split(s0, k);
        assert(s0.take(k) =~= s.take(k));
        assert(s.skip(k).drop_last() =~= s0.skip(k));
        assert(s.skip(k).len() > 0);
        assert(s.skip(k).last() == s.last());
        assert(be_val(s.skip(k)) == be_val(s0.skip(k)) * 256 + s.last());
        assert(be_val(s) == be_val(s0) * 256 + s.last());
        assert(be_val(s0) == be_val(s.take(k)) * pow256(m) + be_val(s0.skip(k)));
        let a = be_val(s.take(k));
        let b = be_val(s0.skip(k));
        let l = s.last() as nat;
        assert(be_val(s.skip(k)) == b * 256 + l);
        assert(be_val(s) == be_val(s0) * 256 + l);
        assert(be_val(s0) == a * pow256(m) + b);
        assert((a * pow256(m) + b) * 256 + l == a * (256 * pow256(m)) + (b * 256 + l))
            by (nonlinear_arith);
        assert(pow256((s.len() - k) as nat) == 256 * pow256(m));
        assert(be_val(s) == be_val(s.take(k)) * pow256((s.len() - k) as nat) + be_val(s.skip(k)));
    }
}

/// A ripple-carry increment at position `i` (carrying through a maxed-out
/// tail) adds exactly one to the big-endian value.
pub proof fn lemma_be_val_increment(olds: Seq<u8>, news: Seq<u8>, i: int)
    requires
        news.len() == olds.len(),
        0 <= i < olds.len(),
        olds[i] < 255,
        news[i] == olds[i] + 1,
        forall|j: int| 0 <= j < i ==> news[j] == olds[j],
        forall|j: int| i < j < olds.len() ==> olds[j] == 0xffu8 && news[j] == 0u8,
    ensures
        be_val(news) == be_val(olds) + 1,
{
    let n = olds.len() as int;
    let m = (n - i - 1) as nat;
    lemma_be_val_split(olds, i + 1);
    lemma_be_val_split(news, i + 1);
    assert(is_all_max(olds.skip(i + 1)));
    lemma_be_val_all_max(olds.skip(i + 1));
    assert(news.skip(i + 1) =~= zero_bytes(m));
    lemma_be_val_zero(m);
    lemma_pow256_pos(m);
    // The two prefixes of length i + 1 differ by exactly one in the last byte.
    assert(olds.take(i + 1).drop_last() =~= olds.take(i));
    assert(news.take(i + 1).drop_last() =~= news.take(i));
    assert(olds.take(i) =~= news.take(i));
    assert(olds.take(i + 1).last() == olds[i]);
    assert(news.take(i + 1).last() == news[i]);
    assert(be_val(news.take(i + 1)) == be_val(olds.take(i + 1)) + 1);
    assert((be_val(olds.take(i + 1)) + 1) * pow256(m) == be_val(olds.take(i + 1)) * pow256(m)
        + pow256(m)) by (nonlinear_arith);
}

/// Appends all of `src` to `dst`.
pub fn extend_bytes(dst: &mut Vec<u8>, src: &[u8])
    ensures
        final(dst)@ == old(dst)@ + src@,
{
    let n = src.len();
    let mut i: usize = 0;
    while i < n
        invariant
            i <= n,
            n == src@.len(),
            dst@ == old(dst)@ + src@.take(i as int),
        decreases n - i,
    {
        dst.push(src[i]);
        assert(src@.take(i + 1) =~= src@.take(i as int).push(src@[i as int]));
        i += 1;
    }
    assert(src@.take(n as int) =~= src@);
}

/// A vector of `n` zero bytes.
pub fn zero_vec(n: usize) -> (r: Vec<u8>)
    ensures
        r@ == zero_bytes(n as nat),
{
    let mut r: Vec<u8> = Vec::new();
    let mut i: usize = 0;
    while i < n
        invariant
            i <= n,
            r@ =~= zero_bytes(i as nat),
        decreases n - i,
    {
        r.push(0u8);
        assert(r@ =~= zero_bytes((i + 1) as nat));
        i += 1;
    }
    r
}

/// Bytewise exclusive or of two equal-length byte strings.
pub fn xor_bytes_vec(a: &[u8], b: &[u8]) -> (r: Vec<u8>)
    requires
        a@.len() == b@.len(),
    ensures
        r@ == xor_bytes(a@, b@),
{
    let n = a.len();
    let mut r: Vec<u8> = Vec::new();
    let mut i: usize = 0;
    while i < n
        invariant
            i <= n,
            n == a@.len(),
            a@.len() == b@.len(),
            r@ =~= xor_bytes(a@, b@).take(i as int),
        decreases n - i,
    {
        r.push(a[i] ^ b[i]);
        assert(r@ =~= xor_bytes(a@, b@).take((i + 1) as int));
        i += 1;
    }
    assert(xor_bytes(a@, b@).take(n as int) =~= xor_bytes(a@, b@));
    r
}

/// Treats `s` as a big-endian integer and increments it in place.
///
/// Returns `Ok(())` and adds exactly one when the counter is not yet at its
/// maximum; returns `Err(())` and leaves the counter zeroed when every byte
/// was already 0xff.
pub fn increment_seq(s: &mut Vec<u8>) -> (r: Result<(), ()>)
    ensures
        final(s)@.len() == old(s)@.len(),
        r.is_ok() <==> !is_all_max(old(s)@),
        r.is_ok() ==> be_val(final(s)@) == be_val(old(s)@) + 1,
        r.is_err() ==> final(s)@ == zero_bytes(old(s)@.len()),
{
    let n = s.len();
    let mut i: usize = n;
    while i > 0
        invariant
            i <= n,
            n == s@.len(),
            s@.len() == old(s)@.len(),
            forall|j: int| 0 <= j < i ==> s@[j] == old(s)@[j],
            forall|j: int| i <= j < n ==> old(s)@[j] == 0xffu8 && s@[j] == 0u8,
        decreases i,
    {
        i -= 1;
        let b = s[i];
        if b < 255 {
            s.set(i, b + 1);
            proof {
                assert(old(s)@[i as int] < 255);
                lemma_be_val_increment(old(s)@, s@, i as int);
            }
            return Ok(());
        } else {
            s.set(i, 0u8);
        }
    }
    proof {
        assert(s@ =~= zero_bytes(old(s)@.len()));
    }
    Err(())
}

} // verus!
