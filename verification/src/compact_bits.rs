//! The compact "bits" encoding of a 256-bit difficulty target, and the
//! little arithmetic on byte-string numbers that deriving a scaled genesis
//! needs: decompress, multiply by a small factor, divide by a small divisor,
//! recompress.
//!
//! A target is held as a little-endian byte string; its value is `le_val`.
//! Every shift of the encoding is a whole number of bytes, so the byte
//! string is the natural representation.

use vstd::arithmetic::div_mod::{
    lemma_fundamental_div_mod, lemma_fundamental_div_mod_converse, lemma_small_mod,
};
use vstd::arithmetic::mul::{
    lemma_mul_inequality, lemma_mul_is_associative, lemma_mul_is_commutative,
    lemma_mul_is_distributive_add, lemma_mul_is_distributive_add_other_way,
};
use vstd::pervasive::VecAdditionalExecFns;
use vstd::prelude::*;

verus! {

/// 256 to the `k`-th power.
pub open spec fn pow256(k: nat) -> nat
    decreases k,
{
    if k == 0 {
        1
    } else {
        256 * pow256((k - 1) as nat)
    }
}

/// The value of a little-endian byte string.
pub open spec fn le_val(s: Seq<u8>) -> nat
    decreases s.len(),
{
    if s.len() == 0 {
        0nat
    } else {
        (s[0] + 256 * le_val(s.subrange(1, s.len() as int))) as nat
    }
}

/// How many bytes a value occupies: zero for zero, else one more than its
/// value shifted right by a byte.
pub open spec fn byte_len(v: nat) -> nat
    decreases v,
{
    if v == 0 {
        0
    } else {
        1 + byte_len(v / 256)
    }
}

pub proof fn lemma_pow256_pos(k: nat)
    ensures
        pow256(k) >= 1,
    decreases k,
{
    if k > 0 {
        lemma_pow256_pos((k - 1) as nat);
    }
}

/// The small powers of 256 the encoding works with, written out.
pub proof fn lemma_pow256_values()
    ensures
        pow256(0) == 1,
        pow256(1) == 256,
        pow256(2) == 0x10000,
        pow256(3) == 0x1000000,
        pow256(4) == 0x100000000,
        pow256(5) == 0x10000000000,
        pow256(6) == 0x1000000000000,
        pow256(7) == 0x100000000000000,
        pow256(8) == 0x10000000000000000,
{
    reveal_with_fuel(pow256, 10);
}

pub proof fn lemma_pow256_adds(a: nat, b: nat)
    ensures
        pow256(a + b) == pow256(a) * pow256(b),
    decreases a,
{
    if a == 0 {
        assert(pow256(b) == 1 * pow256(b));
    } else {
        lemma_pow256_adds((a - 1) as nat, b);
        assert(pow256(a + b) == 256 * pow256((a + b - 1) as nat));
        assert(256 * (pow256((a - 1) as nat) * pow256(b)) == (256 * pow256((a - 1) as nat))
            * pow256(b)) by {
            lemma_mul_is_associative(256, pow256((a - 1) as nat) as int, pow256(b) as int);
        }
    }
}

/// A byte string's value is bounded by 256 to its length.
pub proof fn lemma_le_val_bound(s: Seq<u8>)
    ensures
        le_val(s) < pow256(s.len()),
    decreases s.len(),
{
    if s.len() == 0 {
    } else {
        let rest = s.subrange(1, s.len() as int);
        lemma_le_val_bound(rest);
        assert(256 * le_val(rest) <= 256 * (pow256(rest.len()) - 1)) by {
            lemma_mul_inequality(le_val(rest) as int, pow256(rest.len()) - 1, 256);
            lemma_mul_is_commutative(256, le_val(rest) as int);
            lemma_mul_is_commutative(256, pow256(rest.len()) - 1);
        }
        assert(256 * (pow256(rest.len()) - 1) == 256 * pow256(rest.len()) - 256) by {
            lemma_mul_is_distributive_add(256, pow256(rest.len()) as int - 1, 1);
        }
    }
}

/// Concatenation splits the value: the low part plus the high part shifted
/// by the low part's length.
pub proof fn lemma_le_val_append(a: Seq<u8>, b: Seq<u8>)
    ensures
        le_val(a + b) == le_val(a) + pow256(a.len()) * le_val(b),
    decreases a.len(),
{
    if a.len() == 0 {
        assert(a + b =~= b);
        assert(le_val(a + b) == 1 * le_val(b));
    } else {
        let t = a.subrange(1, a.len() as int);
        lemma_le_val_append(t, b);
        assert((a + b).subrange(1, (a + b).len() as int) =~= t + b);
        assert(le_val(a + b) == a[0] + 256 * (le_val(t) + pow256(t.len()) * le_val(b)));
        assert(256 * (le_val(t) + pow256(t.len()) * le_val(b)) == 256 * le_val(t) + 256 * (pow256(
            t.len(),
        ) * le_val(b))) by {
            lemma_mul_is_distributive_add(
                256,
                le_val(t) as int,
                (pow256(t.len()) * le_val(b)) as int,
            );
        }
        assert(256 * (pow256(t.len()) * le_val(b)) == (256 * pow256(t.len())) * le_val(b)) by {
            lemma_mul_is_associative(256, pow256(t.len()) as int, le_val(b) as int);
        }
        assert(256 * pow256(t.len()) == pow256(a.len()));
    }
}

/// A string of zero bytes has value zero.
pub proof fn lemma_le_val_zeros(s: Seq<u8>)
    requires
        forall|i: int| 0 <= i < s.len() ==> s[i] == 0,
    ensures
        le_val(s) == 0,
    decreases s.len(),
{
    if s.len() > 0 {
        lemma_le_val_zeros(s.subrange(1, s.len() as int));
    }
}

/// Appending one byte adds it at the top of the value.
pub proof fn lemma_le_val_push(s: Seq<u8>, b: u8)
    ensures
        le_val(s.push(b)) == le_val(s) + pow256(s.len()) * b,
{
    assert(s.push(b) =~= s + seq![b]);
    lemma_le_val_append(s, seq![b]);
    assert(le_val(seq![b]) == b + 256 * le_val(Seq::<u8>::empty())) by {
        assert(seq![b].subrange(1, 1) =~= Seq::<u8>::empty());
    }
}

/// The byte length of a value held in `n` bytes is at most `n`.
pub proof fn lemma_byte_len_le(v: nat, n: nat)
    requires
        v < pow256(n),
    ensures
        byte_len(v) <= n,
    decreases n,
{
    if v == 0 {
    } else {
        assert(n > 0);
        assert(v / 256 < pow256((n - 1) as nat)) by {
            if v / 256 >= pow256((n - 1) as nat) {
                assert(v >= 256 * (v / 256)) by {
                    lemma_fundamental_div_mod(v as int, 256);
                }
                assert(256 * (v / 256) >= 256 * pow256((n - 1) as nat)) by {
                    lemma_mul_inequality(
                        pow256((n - 1) as nat) as int,
                        (v / 256) as int,
                        256,
                    );
                    lemma_mul_is_commutative(256, (v / 256) as int);
                    lemma_mul_is_commutative(256, pow256((n - 1) as nat) as int);
                }
            }
        }
        lemma_byte_len_le(v / 256, (n - 1) as nat);
    }
}

/// A value of byte length `n` is at least 256 to the `n - 1`.
pub proof fn lemma_byte_len_bounds(v: nat)
    ensures
        v < pow256(byte_len(v)),
        v > 0 ==> v >= pow256((byte_len(v) - 1) as nat),
    decreases v,
{
    if v == 0 {
    } else {
        lemma_byte_len_bounds(v / 256);
        lemma_fundamental_div_mod(v as int, 256);
        let k = byte_len(v / 256);
        assert(256 * (v / 256) <= 256 * (pow256(k) - 1)) by {
            lemma_mul_inequality((v / 256) as int, pow256(k) as int - 1, 256);
            lemma_mul_is_commutative(256, (v / 256) as int);
            lemma_mul_is_commutative(256, pow256(k) as int - 1);
        }
        assert(256 * (pow256(k) as int - 1) == 256 * pow256(k) - 256) by {
            lemma_mul_is_distributive_add(256, pow256(k) as int - 1, 1);
        }
        assert(v < pow256(k + 1));
        if v / 256 > 0 {
            assert(256 * (v / 256) >= 256 * pow256((k - 1) as nat)) by {
                lemma_mul_inequality(
                    pow256((k - 1) as nat) as int,
                    (v / 256) as int,
                    256,
                );
                lemma_mul_is_commutative(256, (v / 256) as int);
                lemma_mul_is_commutative(256, pow256((k - 1) as nat) as int);
            }
        } else {
            lemma_pow256_pos(0);
        }
    }
}

/// 256 to the `k`-th power never shrinks as `k` grows.
pub proof fn lemma_pow256_increases(a: nat, b: nat)
    requires
        a <= b,
    ensures
        pow256(a) <= pow256(b),
    decreases b,
{
    if a < b {
        lemma_pow256_increases(a, (b - 1) as nat);
        lemma_pow256_pos((b - 1) as nat);
    }
}

/// A value between two adjacent powers occupies exactly `n` bytes.
pub proof fn lemma_byte_len_exact(v: nat, n: nat)
    requires
        n > 0,
        pow256((n - 1) as nat) <= v < pow256(n),
    ensures
        byte_len(v) == n,
{
    lemma_byte_len_le(v, n);
    lemma_pow256_pos((n - 1) as nat);
    if byte_len(v) < n {
        lemma_byte_len_bounds(v);
        lemma_pow256_increases(byte_len(v), (n - 1) as nat);
    }
}

/// Appends `n` zero bytes, leaving the value unchanged.
fn push_zeros(t: &mut Vec<u8>, n: usize)
    requires
        old(t)@.len() + n <= usize::MAX,
    ensures
        final(t)@.len() == old(t)@.len() + n,
        final(t)@.take(old(t)@.len() as int) == old(t)@,
        forall|i: int| old(t)@.len() <= i < final(t)@.len() ==> final(t)@[i] == 0,
        le_val(final(t)@) == le_val(old(t)@),
{
    let ghost pre = t@;
    let mut k: usize = 0;
    while k < n
        invariant
            k <= n,
            t@.len() == pre.len() + k,
            t@.take(pre.len() as int) == pre,
            forall|i: int| pre.len() <= i < t@.len() ==> t@[i] == 0,
        decreases n - k,
    {
        t.push(0);
        k += 1;
        proof {
            assert(t@.take(pre.len() as int) =~= pre);
        }
    }
    proof {
        let tail = t@.subrange(pre.len() as int, t@.len() as int);
        assert(t@ =~= pre + tail);
        lemma_le_val_append(pre, tail);
        lemma_le_val_zeros(tail);
    }
}

/// 256 to a small power, for shifting a mantissa by whole bytes.
fn pow256_small(e: usize) -> (r: u32)
    requires
        e <= 3,
    ensures
        r == pow256(e as nat),
        r >= 1,
{
    let r: u32 = if e == 0 {
        1
    } else if e == 1 {
        256
    } else if e == 2 {
        65536
    } else {
        16777216
    };
    proof {
        lemma_pow256_values();
    }
    r
}

/// Appends the three little-endian bytes of a 24-bit value.
fn push_u24(t: &mut Vec<u8>, v: u32)
    requires
        v < 0x1000000,
        old(t)@.len() + 3 <= usize::MAX,
    ensures
        final(t)@.len() == old(t)@.len() + 3,
        le_val(final(t)@) == le_val(old(t)@) + pow256(old(t)@.len()) * v,
{
    let ghost pre = t@;
    let b0 = (v % 256) as u8;
    let b1 = ((v / 256) % 256) as u8;
    let b2 = (v / 65536) as u8;
    assert(v / 65536 < 256);
    t.push(b0);
    t.push(b1);
    t.push(b2);
    proof {
        lemma_le_val_push(pre, b0);
        lemma_le_val_push(pre.push(b0), b1);
        lemma_le_val_push(pre.push(b0).push(b1), b2);
        let p = pow256(pre.len());
        assert(v == v % 256 + 256 * ((v / 256) % 256) + 65536 * (v / 65536)) by (bit_vector)
            requires v < 0x1000000;
        assert(pow256(pre.len() + 1) == 256 * p && pow256(pre.len() + 2) == 256 * (256 * p));
        assert(256 * (256 * p) == 65536 * p) by {
            lemma_mul_is_associative(256, 256, p as int);
        }
        assert((256 * p) * b1 == p * (256 * b1)) by {
            lemma_mul_is_associative(256, p as int, b1 as int);
            lemma_mul_is_commutative(256, p as int);
            lemma_mul_is_associative(p as int, 256, b1 as int);
        }
        assert((65536 * p) * b2 == p * (65536 * b2)) by {
            lemma_mul_is_associative(65536, p as int, b2 as int);
            lemma_mul_is_commutative(65536, p as int);
            lemma_mul_is_associative(p as int, 65536, b2 as int);
        }
        assert(p * b0 + p * (256 * b1) + p * (65536 * b2) == p * (b0 + 256 * b1 + 65536
            * b2)) by {
            lemma_mul_is_distributive_add(p as int, b0 as int, 256 * b1);
            lemma_mul_is_distributive_add(p as int, b0 + 256 * b1, 65536 * b2);
        }
    }
}

/// The target a compact "bits" field encodes: its low 24 bits are a
/// mantissa, its high byte a size; the mantissa sits just below byte
/// position `size`, and the result is truncated to 256 bits. A mantissa
/// whose sign bit survives the shift encodes no target: the result is zero.
pub open spec fn decompress_spec(bits: u32) -> nat {
    let size = (bits / 0x1000000) as nat;
    let mant: nat = if size <= 3 {
        ((bits % 0x1000000) as nat) / pow256((3 - size) as nat)
    } else {
        (bits % 0x1000000) as nat
    };
    if mant > 0x7FFFFF {
        0
    } else if size <= 3 {
        mant
    } else {
        (mant * pow256((size - 3) as nat)) % pow256(32)
    }
}

/// The compact "bits" field encoding a target: the size is the target's
/// byte length, the mantissa its top three bytes; where the top mantissa bit
/// would collide with the sign, the mantissa shrinks a byte and the size
/// grows by one.
pub open spec fn compress_spec(v: nat) -> u32 {
    let size0 = byte_len(v);
    let pre: nat = if size0 <= 3 {
        v * pow256((3 - size0) as nat)
    } else {
        v / pow256((size0 - 3) as nat)
    };
    if pre >= 0x800000 {
        (pre / 256 + (size0 + 1) * 0x1000000) as u32
    } else {
        (pre + size0 * 0x1000000) as u32
    }
}

/// Decompresses a compact bits field into a 32-byte little-endian target.
pub fn from_compact_target_bits(bits: u32) -> (t: Vec<u8>)
    ensures
        t@.len() == 32,
        le_val(t@) == decompress_spec(bits),
{
    let size = (bits / 0x1000000) as usize;
    let pre_mant = bits % 0x1000000;
    let mant: u32 = if size <= 3 {
        pre_mant / pow256_small(3 - size)
    } else {
        pre_mant
    };
    let mut t: Vec<u8> = Vec::new();
    if mant > 0x7FFFFF {
        push_zeros(&mut t, 32);
        return t;
    }
    if size <= 3 {
        push_u24(&mut t, mant);
        push_zeros(&mut t, 29);
        proof {
            assert(le_val(t@) == pow256(0) * mant);
        }
        return t;
    }
    let off = size - 3;
    if off >= 32 {
        push_zeros(&mut t, 32);
        proof {
            let shifted = pow256((off - 32) as nat) * pow256(32);
            lemma_pow256_adds((off - 32) as nat, 32);
            assert((mant * pow256(off as nat)) % (pow256(32) as int) == 0) by {
                lemma_pow256_pos(32);
                lemma_pow256_pos((off - 32) as nat);
                assert(mant * (pow256((off - 32) as nat) * pow256(32)) == (mant * pow256(
                    (off - 32) as nat,
                )) * pow256(32)) by {
                    lemma_mul_is_associative(
                        mant as int,
                        pow256((off - 32) as nat) as int,
                        pow256(32) as int,
                    );
                }
                vstd::arithmetic::div_mod::lemma_mod_multiples_basic(
                    (mant * pow256((off - 32) as nat)) as int,
                    pow256(32) as int,
                );
            }
        }
        return t;
    }
    push_zeros(&mut t, off);
    proof {
        lemma_le_val_zeros(t@);
    }
    if off + 3 <= 32 {
        push_u24(&mut t, mant);
        push_zeros(&mut t, 32 - off - 3);
        proof {
            lemma_pow256_pos(off as nat);
            assert(pow256(off as nat) * mant <= pow256(off as nat) * 0x7FFFFF) by {
                lemma_mul_inequality(mant as int, 0x7FFFFF, pow256(off as nat) as int);
                lemma_mul_is_commutative(pow256(off as nat) as int, mant as int);
                lemma_mul_is_commutative(pow256(off as nat) as int, 0x7FFFFF);
            }
            assert(pow256(off as nat) * 0x1000000 <= pow256(32)) by {
                lemma_pow256_adds(off as nat, 3);
                lemma_pow256_increases((off + 3) as nat, 32);
                lemma_pow256_values();
            }
            assert(pow256(off as nat) * 0x7FFFFF < pow256(off as nat) * 0x1000000) by {
                vstd::arithmetic::mul::lemma_mul_strict_inequality(
                    0x7FFFFF,
                    0x1000000,
                    pow256(off as nat) as int,
                );
                lemma_mul_is_commutative(pow256(off as nat) as int, 0x7FFFFF);
                lemma_mul_is_commutative(pow256(off as nat) as int, 0x1000000);
            }
            lemma_small_mod((pow256(off as nat) * mant) as nat, pow256(32));
            lemma_mul_is_commutative(pow256(off as nat) as int, mant as int);
        }
        return t;
    }
    // `off` is 30 or 31: only the mantissa's low bytes fit below bit 256.
    let kept: usize = 32 - off;
    proof {
        lemma_pow256_values();
    }
    let cut: u32 = mant % pow256_small(kept);
    let b0 = (cut % 256) as u8;
    t.push(b0);
    if kept == 2 {
        t.push((cut / 256) as u8);
        assert(cut / 256 < 256) by {
            assert(cut < 65536);
        }
    }
    proof {
        let p_off = pow256(off as nat);
        let p_kept = pow256(kept as nat);
        lemma_pow256_values();
        let ghost prefix = t@.take(off as int);
        assert(prefix =~= t@.subrange(0, off as int));
        lemma_le_val_zeros(prefix);
        let tail = t@.subrange(off as int, t@.len() as int);
        assert(t@ =~= prefix + tail);
        lemma_le_val_append(prefix, tail);
        if kept == 1 {
            assert(tail =~= seq![b0]);
            assert(le_val(tail) == b0 + 256 * le_val(Seq::<u8>::empty())) by {
                assert(seq![b0].subrange(1, 1) =~= Seq::<u8>::empty());
            }
            assert(le_val(tail) == cut);
        } else {
            let b1 = (cut / 256) as u8;
            assert(tail =~= seq![b0, b1]);
            assert(le_val(tail) == b0 + 256 * le_val(seq![b1])) by {
                assert(seq![b0, b1].subrange(1, 2) =~= seq![b1]);
            }
            assert(le_val(seq![b1]) == b1 + 256 * le_val(Seq::<u8>::empty())) by {
                assert(seq![b1].subrange(1, 1) =~= Seq::<u8>::empty());
            }
            assert(cut == cut % 256 + 256 * (cut / 256)) by {
                lemma_fundamental_div_mod(cut as int, 256);
            }
            assert(le_val(tail) == cut);
        }
        // (mant * 256^off) % 256^32 == (mant % 256^kept) * 256^off
        lemma_pow256_adds(off as nat, kept as nat);
        lemma_pow256_pos(off as nat);
        lemma_pow256_pos(kept as nat);
        vstd::arithmetic::div_mod::lemma_truncate_middle(
            mant as int,
            p_off as int,
            p_kept as int,
        );
        lemma_mul_is_commutative(p_off as int, mant as int);
        lemma_mul_is_commutative(p_off as int, cut as int);
    }
    t
}

/// Multiplies a little-endian byte string by a small factor; the result
/// carries eight extra bytes, so no value is ever lost.
pub fn mul_small(v: &Vec<u8>, m: u64) -> (r: Vec<u8>)
    ensures
        r@.len() == v@.len() + 8,
        le_val(r@) == le_val(v@) * m,
{
    let mut r: Vec<u8> = Vec::new();
    let mut carry: u64 = 0;
    let mut i: usize = 0;
    proof {
        assert(v@.take(0) =~= Seq::<u8>::empty());
        lemma_pow256_values();
        vstd::arithmetic::mul::lemma_mul_basics(m as int);
    }
    while i < v.len()
        invariant
            i <= v@.len(),
            r@.len() == i,
            carry <= m,
            le_val(r@) + pow256(i as nat) * (carry as nat) == le_val(v@.take(i as int)) * m,
        decreases v@.len() - i,
    {
        let ghost r_pre = r@;
        let ghost carry_pre = carry;
        proof {
            assert((v@[i as int] as int) * (m as int) + carry <= 255 * (m as int) + m) by {
                lemma_mul_inequality(v@[i as int] as int, 255, m as int);
            }
            assert(255 * (m as int) + m == 256 * m) by {
                lemma_mul_is_distributive_add_other_way(m as int, 255, 1);
            }
        }
        let acc: u128 = (v[i] as u128) * (m as u128) + (carry as u128);
        proof {
            // the new carry stays within the factor
            assert(acc / 256 <= m) by {
                assert((256 * (m as int)) / 256 == m) by {
                    vstd::arithmetic::div_mod::lemma_div_multiples_vanish(m as int, 256);
                }
                vstd::arithmetic::div_mod::lemma_div_is_ordered(
                    acc as int,
                    256 * (m as int),
                    256,
                );
            }
        }
        let b = (acc % 256) as u8;
        r.push(b);
        carry = (acc / 256) as u64;
        proof {
            let p = pow256(i as nat) as int;
            let b_i = v@[i as int] as int;
            let lo = acc as int % 256;
            let hi = acc as int / 256;
            assert(acc == b_i * m + carry_pre);
            lemma_le_val_push(r_pre, b);
            lemma_fundamental_div_mod(acc as int, 256);
            lemma_le_val_push(v@.take(i as int), v@[i as int]);
            assert(v@.take(i + 1) =~= v@.take(i as int).push(v@[i as int]));
            assert(le_val(v@.take(i + 1)) == le_val(v@.take(i as int)) + p * b_i);
            assert(pow256((i + 1) as nat) * (carry as nat) == p * (256 * hi)) by {
                assert(pow256((i + 1) as nat) == 256 * pow256(i as nat));
                lemma_mul_is_associative(256, p, hi);
                lemma_mul_is_commutative(256, p);
                lemma_mul_is_associative(p, 256, hi);
            }
            assert(p * (256 * hi) + p * lo == p * acc) by {
                lemma_mul_is_distributive_add(p, 256 * hi, lo);
            }
            assert(p * acc == p * (b_i * m) + p * carry_pre) by {
                lemma_mul_is_distributive_add(p, b_i * m, carry_pre as int);
            }
            assert(p * (b_i * m) == (p * b_i) * m) by {
                lemma_mul_is_associative(p, b_i, m as int);
            }
            assert((le_val(v@.take(i as int)) + p * b_i) * m == le_val(v@.take(i as int)) * m + (p
                * b_i) * m) by {
                lemma_mul_is_distributive_add_other_way(
                    m as int,
                    le_val(v@.take(i as int)) as int,
                    p * b_i,
                );
            }
            assert(le_val(r@) + pow256((i + 1) as nat) * (carry as nat) == le_val(v@.take(i + 1))
                * m);
        }
        i += 1;
    }
    proof {
        assert(v@.take(v@.len() as int) =~= v@);
        lemma_pow256_values();
    }
    // flush the carry into eight further bytes
    let mut k: usize = 0;
    while k < 8
        invariant
            k <= 8,
            r@.len() == v@.len() + k,
            carry < pow256((8 - k) as nat),
            le_val(r@) + pow256(r@.len()) * (carry as nat) == le_val(v@) * m,
        decreases 8 - k,
    {
        let ghost r_pre = r@;
        let ghost carry_pre = carry;
        let b = (carry % 256) as u8;
        r.push(b);
        carry = carry / 256;
        k += 1;
        proof {
            lemma_le_val_push(r_pre, b);
            lemma_fundamental_div_mod(carry_pre as int, 256);
            let p = pow256(r_pre.len());
            assert(carry < pow256((8 - k) as nat)) by {
                assert(carry_pre < 256 * pow256((8 - k) as nat));
                vstd::arithmetic::div_mod::lemma_multiply_divide_lt(
                    carry_pre as int,
                    pow256((8 - k) as nat) as int,
                    256,
                );
                lemma_pow256_pos((8 - k) as nat);
                lemma_mul_is_commutative(256, pow256((8 - k) as nat) as int);
            }
            assert(p * carry_pre == p * (256 * (carry_pre as int / 256)) + p * (carry_pre as int
                % 256)) by {
                lemma_mul_is_distributive_add(
                    p as int,
                    256 * (carry_pre as int / 256),
                    carry_pre as int % 256,
                );
            }
            assert(p * (256 * (carry_pre as int / 256)) == pow256(r_pre.len() + 1) * (
            carry_pre as int / 256)) by {
                assert(pow256(r_pre.len() + 1) == 256 * p);
                lemma_mul_is_associative(p as int, 256, carry_pre as int / 256);
                lemma_mul_is_commutative(p as int, 256);
            }
        }
    }
    proof {
        assert(carry == 0);
        lemma_pow256_pos(r@.len());
    }
    r
}

/// Divides a little-endian byte string by a small non-zero divisor,
/// rounding down.
pub fn div_small(v: &Vec<u8>, d: u64) -> (q: Vec<u8>)
    requires
        0 < d <= 0x100000000000000,
    ensures
        q@.len() == v@.len(),
        le_val(q@) == le_val(v@) / (d as nat),
{
    let n = v.len();
    let mut q: Vec<u8> = Vec::new();
    push_zeros(&mut q, n);
    let mut rem: u64 = 0;
    let mut i: usize = n;
    proof {
        assert(v@.subrange(n as int, n as int) =~= Seq::<u8>::empty());
        assert(q@.subrange(n as int, n as int) =~= Seq::<u8>::empty());
    }
    while i > 0
        invariant
            i <= n,
            v@.len() == n,
            q@.len() == n,
            0 < d <= 0x100000000000000,
            rem < d,
            le_val(v@.subrange(i as int, n as int)) == d * le_val(
                q@.subrange(i as int, n as int),
            ) + rem,
        decreases i,
    {
        i -= 1;
        let ghost q_pre = q@;
        let ghost rem_pre = rem;
        let acc: u64 = rem * 256 + v[i] as u64;
        let qi = acc / d;
        rem = acc % d;
        assert(qi < 256) by {
            assert(acc < 256 * d) by {
                assert(256 * (rem_pre as int) <= 256 * (d - 1)) by {
                    lemma_mul_inequality(rem_pre as int, d as int - 1, 256);
                    lemma_mul_is_commutative(256, rem_pre as int);
                    lemma_mul_is_commutative(256, d as int - 1);
                }
                assert(256 * (d as int - 1) == 256 * d - 256) by {
                    lemma_mul_is_distributive_add(256, d as int - 1, 1);
                }
            }
            vstd::arithmetic::div_mod::lemma_multiply_divide_lt(acc as int, d as int, 256);
            lemma_mul_is_commutative(256, d as int);
        }
        q.set(i, qi as u8);
        proof {
            let vs = v@.subrange(i as int, n as int);
            let qs = q@.subrange(i as int, n as int);
            let vs1 = v@.subrange(i + 1, n as int);
            let qs1 = q@.subrange(i + 1, n as int);
            assert(qs1 =~= q_pre.subrange(i + 1, n as int));
            assert(vs.subrange(1, vs.len() as int) =~= vs1);
            assert(qs.subrange(1, qs.len() as int) =~= qs1);
            assert(qs[0] == qi as u8);
            lemma_fundamental_div_mod(acc as int, d as int);
            // V = v[i] + 256 * (d*Q + rem_pre) = d * (qi + 256*Q) + rem
            let qv = le_val(qs1) as int;
            assert(256 * (d * qv + rem_pre) == 256 * (d * qv) + 256 * rem_pre) by {
                lemma_mul_is_distributive_add(256, d * qv, rem_pre as int);
            }
            assert(256 * (d * qv) == d * (256 * qv)) by {
                lemma_mul_is_associative(256, d as int, qv);
                lemma_mul_is_commutative(256, d as int);
                lemma_mul_is_associative(d as int, 256, qv);
            }
            assert(d * (qi as int) + d * (256 * qv) == d * (qi + 256 * qv)) by {
                lemma_mul_is_distributive_add(d as int, qi as int, 256 * qv);
            }
        }
    }
    proof {
        assert(v@.subrange(0, n as int) =~= v@);
        assert(q@.subrange(0, n as int) =~= q@);
        lemma_mul_is_commutative(d as int, le_val(q@) as int);
        lemma_fundamental_div_mod_converse(
            le_val(v@) as int,
            d as int,
            le_val(q@) as int,
            rem as int,
        );
    }
    q
}

/// The value of a three-byte string, written out.
proof fn lemma_le_val_3(s: Seq<u8>)
    requires
        s.len() == 3,
    ensures
        le_val(s) == s[0] + 256 * (s[1] as int) + 65536 * (s[2] as int),
{
    let s1 = s.subrange(1, 3);
    let s2 = s1.subrange(1, 2);
    assert(s1 =~= s.subrange(1, 3));
    assert(s2.subrange(1, 1) =~= Seq::<u8>::empty());
    assert(le_val(Seq::<u8>::empty()) == 0);
    assert(le_val(s2) == s2[0]);
    assert(s2[0] == s[2]);
    assert(le_val(s1) == s1[0] + 256 * le_val(s2));
    assert(s1[0] == s[1]);
}

/// Finds how many bytes of a little-endian string carry value: the length
/// without the trailing zero bytes, which is the value's byte length.
fn significant_len(t: &Vec<u8>) -> (sig: usize)
    ensures
        sig <= t@.len(),
        byte_len(le_val(t@)) == sig,
        le_val(t@.take(sig as int)) == le_val(t@),
        le_val(t@) < pow256(sig as nat),
        sig > 0 ==> le_val(t@) >= pow256((sig - 1) as nat),
    decreases t@.len(),
{
    let ghost v = le_val(t@);
    let mut sig: usize = t.len();
    while sig > 0 && t[sig - 1] == 0
        invariant
            sig <= t@.len(),
            forall|j: int| sig <= j < t@.len() ==> t@[j] == 0,
        decreases sig,
    {
        sig -= 1;
    }
    proof {
        let head = t@.take(sig as int);
        let tail = t@.subrange(sig as int, t@.len() as int);
        assert(t@ =~= head + tail);
        lemma_le_val_append(head, tail);
        lemma_le_val_zeros(tail);
        vstd::arithmetic::mul::lemma_mul_basics(pow256(head.len()) as int);
        assert(v == le_val(head));
        lemma_le_val_bound(head);
        if sig == 0 {
        } else {
            assert(head =~= t@.take(sig - 1).push(t@[sig - 1]));
            lemma_le_val_push(t@.take(sig - 1), t@[sig - 1]);
            assert(pow256((sig - 1) as nat) * 1 <= pow256((sig - 1) as nat) * (t@[sig - 1] as int))
                by {
                lemma_mul_inequality(1, t@[sig - 1] as int, pow256((sig - 1) as nat) as int);
                lemma_mul_is_commutative(pow256((sig - 1) as nat) as int, 1);
                lemma_mul_is_commutative(
                    pow256((sig - 1) as nat) as int,
                    t@[sig - 1] as int,
                );
            }
            lemma_byte_len_exact(v, sig as nat);
        }
    }
    sig
}

/// A value of at most three significant bytes, read out of its string.
proof fn lemma_small_value_bytes(s: Seq<u8>, sig: int)
    requires
        0 <= sig <= 3,
        sig <= s.len(),
        le_val(s.take(sig)) == le_val(s),
    ensures
        le_val(s) == (if sig >= 1 { s[0] as int } else { 0 }) + 256 * (if sig >= 2 { s[1] as int } else { 0 })
            + 65536 * (if sig >= 3 { s[2] as int } else { 0 }),
{
    let b0: u8 = if sig >= 1 { s[0] } else { 0 };
    let b1: u8 = if sig >= 2 { s[1] } else { 0 };
    let b2: u8 = if sig >= 3 { s[2] } else { 0 };
    let padded = s.take(sig) + seq![0u8, 0u8, 0u8].take(3 - sig);
    assert(padded =~= seq![b0, b1, b2]);
    lemma_le_val_append(s.take(sig), seq![0u8, 0u8, 0u8].take(3 - sig));
    lemma_le_val_zeros(seq![0u8, 0u8, 0u8].take(3 - sig));
    vstd::arithmetic::mul::lemma_mul_basics(pow256(sig as nat) as int);
    lemma_le_val_3(padded);
}

/// The top three significant bytes are the value shifted down to them.
proof fn lemma_top_bytes_are_shift(s: Seq<u8>, sig: int)
    requires
        3 < sig <= s.len(),
        le_val(s.take(sig)) == le_val(s),
    ensures
        le_val(s) / pow256((sig - 3) as nat) == s[sig - 3] + 256 * (s[sig - 2] as int) + 65536 * (
        s[sig - 1] as int),
        le_val(s) / pow256((sig - 3) as nat) < 0x1000000,
{
    let lo = s.take(sig - 3);
    let mid = s.subrange(sig - 3, sig);
    assert(s.take(sig) =~= lo + mid);
    lemma_le_val_append(lo, mid);
    lemma_le_val_3(mid);
    lemma_le_val_bound(lo);
    lemma_le_val_bound(mid);
    lemma_pow256_pos((sig - 3) as nat);
    lemma_pow256_values();
    assert(le_val(s) / pow256((sig - 3) as nat) == le_val(mid)) by {
        vstd::arithmetic::div_mod::lemma_div_multiples_vanish_fancy(
            le_val(mid) as int,
            le_val(lo) as int,
            pow256((sig - 3) as nat) as int,
        );
    }
}

/// Compresses a target held in little-endian bytes into a compact bits
/// field.
pub fn compact_target_bits(t: &Vec<u8>) -> (r: u32)
    requires
        le_val(t@) < pow256(32),
    ensures
        r == compress_spec(le_val(t@)),
{
    let ghost v = le_val(t@);
    let sig = significant_len(t);
    proof {
        lemma_byte_len_le(v, 32);
        lemma_pow256_values();
    }
    let pre: u32 = if sig <= 3 {
        let b0: u8 = if sig >= 1 {
            t[0]
        } else {
            0
        };
        let b1: u8 = if sig >= 2 {
            t[1]
        } else {
            0
        };
        let b2: u8 = if sig >= 3 {
            t[2]
        } else {
            0
        };
        let v3: u32 = b0 as u32 + (b1 as u32) * 256 + (b2 as u32) * 65536;
        proof {
            lemma_small_value_bytes(t@, sig as int);
            assert(v3 == v);
            assert(v * pow256((3 - sig) as nat) < pow256(3)) by {
                lemma_pow256_adds(sig as nat, (3 - sig) as nat);
                lemma_pow256_pos((3 - sig) as nat);
                vstd::arithmetic::mul::lemma_mul_strict_inequality(
                    v as int,
                    pow256(sig as nat) as int,
                    pow256((3 - sig) as nat) as int,
                );
                lemma_mul_is_commutative(v as int, pow256((3 - sig) as nat) as int);
                lemma_mul_is_commutative(
                    pow256(sig as nat) as int,
                    pow256((3 - sig) as nat) as int,
                );
            }
        }
        v3 * pow256_small(3 - sig)
    } else {
        let v3: u32 = t[sig - 3] as u32 + (t[sig - 2] as u32) * 256 + (t[sig - 1] as u32) * 65536;
        proof {
            lemma_top_bytes_are_shift(t@, sig as int);
        }
        v3
    };
    if pre >= 0x800000 {
        (pre / 256) + (sig as u32 + 1) * 0x1000000
    } else {
        pre + (sig as u32) * 0x1000000
    }
}

/// Scales a compact target: the decompressed target times `factor`, divided
/// by `divisor`, recompressed. The factor may not outgrow the divisor, so
/// the scaled target never outgrows 256 bits.
pub fn scale_compact_target_bits(bits: u32, factor: u64, divisor: u64) -> (r: u32)
    requires
        0 < divisor <= 0x100000000000000,
        factor <= divisor,
    ensures
        r == compress_spec((decompress_spec(bits) * factor) as nat / (divisor as nat)),
{
    let target = from_compact_target_bits(bits);
    let scaled = mul_small(&target, factor);
    let quotient = div_small(&scaled, divisor);
    proof {
        let v = le_val(target@);
        lemma_le_val_bound(target@);
        assert(v * factor <= divisor * v) by {
            lemma_mul_inequality(factor as int, divisor as int, v as int);
            lemma_mul_is_commutative(v as int, factor as int);
            lemma_mul_is_commutative(v as int, divisor as int);
        }
        assert((v * factor) as nat / (divisor as nat) <= v) by {
            vstd::arithmetic::div_mod::lemma_multiply_divide_le(
                (v * factor) as int,
                divisor as int,
                v as int,
            );
        }
    }
    compact_target_bits(&quotient)
}

} // verus!
