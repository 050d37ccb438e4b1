//! Cyclic navigation over a list of fixed length: `(index + delta)` taken
//! modulo the length with a non-negative remainder (`rem_euclid`).
use vstd::prelude::*;

verus! {

/// `(index + delta).rem_euclid(len)`.
pub fn wrap_index(index: usize, delta: isize, len: usize) -> (r: usize)
    requires
        len > 0,
        index < len,
        index + delta <= isize::MAX,
    ensures
        r as int == (index + delta) % (len as int),
        r < len,
{
    let ghost l = len as int;
    let ghost d = delta as int;
    let off: usize;
    if delta >= 0 {
        off = (delta as usize) % len;
        assert(off as int == d % l);
    } else {
        let e: u128 = (-(delta as i128)) as u128;
        let m: u128 = e % (len as u128);
        proof {
            vstd::arithmetic::div_mod::lemma_fundamental_div_mod(e as int, l);
            let q = (e as int) / l;
            assert(e as int == -d);
            assert((e as int) == l * q + (m as int));
            assert(d == l * (-q) - (m as int)) by (nonlinear_arith)
                requires
                    (e as int) == l * q + (m as int),
                    e as int == -d,
            ;
            if m == 0 {
                vstd::arithmetic::div_mod::lemma_mod_multiples_vanish(-q, 0, l);
                assert(d % l == 0);
            } else {
                assert(d == l * (-q - 1) + (l - m)) by (nonlinear_arith)
                    requires
                        d == l * (-q) - (m as int),
                ;
                vstd::arithmetic::div_mod::lemma_mod_multiples_vanish(-q - 1, l - m, l);
                vstd::arithmetic::div_mod::lemma_small_mod((l - m) as nat, l as nat);
                assert(d % l == l - m);
            }
        }
        off = if m == 0 {
            0
        } else {
            len - (m as usize)
        };
    }
    proof {
        vstd::arithmetic::div_mod::lemma_add_mod_noop_right(index as int, d, l);
    }
    assert(off < len);
    let r = if off >= len - index {
        off - (len - index)
    } else {
        index + off
    };
    proof {
        let s = (index + off) as int;
        if s >= l {
            vstd::arithmetic::div_mod::lemma_mod_multiples_vanish(1, s - l, l);
            vstd::arithmetic::div_mod::lemma_small_mod((s - l) as nat, l as nat);
        } else {
            vstd::arithmetic::div_mod::lemma_small_mod(s as nat, l as nat);
        }
    }
    r
}

/// Moving back by the same amount undoes a move: the highlight of every
/// cyclic list returns where it was.
pub proof fn lemma_wrap_is_undone(index: int, delta: int, len: int)
    requires
        len > 0,
        0 <= index < len,
    ensures
        (((index + delta) % len) - delta) % len == index,
{
    vstd::arithmetic::div_mod::lemma_fundamental_div_mod(index + delta, len);
    let q = (index + delta) / len;
    assert(((index + delta) % len) - delta == index + len * (-q)) by (nonlinear_arith)
        requires
            index + delta == len * q + (index + delta) % len,
    ;
    vstd::arithmetic::div_mod::lemma_mod_multiples_vanish(-q, index, len);
    vstd::arithmetic::div_mod::lemma_small_mod(index as nat, len as nat);
}

} // verus!
