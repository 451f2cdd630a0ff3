//! Wrapping 16-bit word arithmetic: every numeric operation of the machine is
//! taken modulo 2^16.

use vstd::prelude::*;

verus! {

use vstd::arithmetic::div_mod::lemma_add_mod_noop_right;
use vstd::arithmetic::div_mod::lemma_mod_bound;
use vstd::arithmetic::div_mod::lemma_mod_multiples_vanish;
use vstd::arithmetic::div_mod::lemma_small_mod;
use vstd::arithmetic::div_mod::lemma_sub_mod_noop;

/// A mathematical integer reduced to a machine word, modulo 2^16.
pub open spec fn wrap16(x: int) -> u16 {
    (x % 0x10000) as u16
}

/// `wrap16` agrees with the Euclidean remainder of the underlying integer.
pub proof fn lemma_wrap16_is_mod(x: int)
    ensures
        wrap16(x) == x % 0x10000,
        0 <= x % 0x10000 < 0x10000,
{
    lemma_mod_bound(x, 0x10000);
}

/// Reducing the second operand of an addition first does not change the
/// wrapped sum.
pub proof fn lemma_wrap16_add_absorbs(x: int, y: int)
    ensures
        wrap16(x + wrap16(y)) == wrap16(x + y),
{
    lemma_mod_bound(y, 0x10000);
    lemma_add_mod_noop_right(x, y, 0x10000);
}

/// Reducing the operands of a subtraction first does not change the wrapped
/// difference.
pub proof fn lemma_wrap16_sub_absorbs(x: int, y: int)
    ensures
        wrap16(wrap16(x) - wrap16(y)) == wrap16(x - y),
{
    lemma_mod_bound(x, 0x10000);
    lemma_mod_bound(y, 0x10000);
    lemma_sub_mod_noop(x, y, 0x10000);
}

/// Wrapping addition of two machine words.
pub fn wrap_add(a: u16, b: u16) -> (r: u16)
    ensures
        r == wrap16(a + b),
{
    proof {
        if a + b < 0x10000 {
            lemma_small_mod((a + b) as nat, 0x10000);
        } else {
            lemma_mod_multiples_vanish(1, a + b - 0x10000, 0x10000);
            lemma_small_mod((a + b - 0x10000) as nat, 0x10000);
        }
    }
    a.wrapping_add(b)
}

/// Wrapping subtraction of two machine words.
pub fn wrap_sub(a: u16, b: u16) -> (r: u16)
    ensures
        r == wrap16(a - b),
{
    proof {
        if a >= b {
            lemma_small_mod((a - b) as nat, 0x10000);
        } else {
            lemma_mod_multiples_vanish(1, a - b, 0x10000);
            lemma_small_mod((a - b + 0x10000) as nat, 0x10000);
        }
    }
    a.wrapping_sub(b)
}

/// Wrapping multiplication of two machine words.
pub fn wrap_mul(a: u16, b: u16) -> (r: u16)
    ensures
        r == wrap16(a * b),
{
    proof {
        assert(a as nat * b as nat == (a * b) as nat);
        lemma_mod_bound(a * b, 0x10000);
    }
    a.wrapping_mul(b)
}

} // verus!
