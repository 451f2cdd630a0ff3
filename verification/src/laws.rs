//! Guarantees of the instruction semantics and the synchronization protocol,
//! stated over the abstract engine state and proved once and for all.

use vstd::prelude::*;

verus! {

use crate::engine::decode;
use crate::engine::step_error;
use crate::engine::step_post;
use crate::engine::sync_post_no_expansion;
use crate::engine::EngineError;
use crate::engine::EngineView;
use crate::engine::MEMSIZE;
use crate::engine::OP_ADD;
use crate::engine::OP_BAND;
use crate::engine::OP_DEREF;
use crate::engine::OP_DIV;
use crate::engine::OP_MUL;
use crate::engine::OP_PRINT;
use crate::engine::OP_READ;
use crate::engine::OP_REF;
use crate::engine::OP_SET;
use crate::engine::OP_SUB;
use crate::engine::OP_SYNC;
use crate::engine::OP_XOR;
use crate::word::wrap16;

/// Every error-free step keeps all three banks at `MEMSIZE` words.
pub proof fn lemma_step_preserves_banks(v: EngineView)
    requires
        v.wf(),
    ensures
        step_post(v).wf(),
{
}

/// The state after `n` error-free steps from `v`.
pub open spec fn steps_post(v: EngineView, n: nat) -> EngineView
    decreases n,
{
    if n == 0 {
        v
    } else {
        steps_post(step_post(v), (n - 1) as nat)
    }
}

/// Every sequence of error-free steps keeps all three banks at `MEMSIZE`
/// words (a failing step leaves the state untouched, so it preserves them
/// too).
pub proof fn lemma_steps_preserve_banks(v: EngineView, n: nat)
    requires
        v.wf(),
    ensures
        steps_post(v, n).wf(),
    decreases n,
{
    if n > 0 {
        lemma_step_preserves_banks(v);
        lemma_steps_preserve_banks(step_post(v), (n - 1) as nat);
    }
}

/// Every host sync on an engine without an expansion keeps all three banks at
/// `MEMSIZE` words.
pub proof fn lemma_sync_preserves_banks(v: EngineView, pos_code: u16, key_code: u16)
    requires
        v.wf(),
    ensures
        sync_post_no_expansion(v, pos_code, key_code).wf(),
{
}

/// ADD stores the sum of the two fetched words modulo 2^16.
pub proof fn lemma_add_wraps(v: EngineView)
    requires
        v.wf(),
        decode(v).0 == OP_ADD,
    ensures
        step_post(v).mem[decode(v).3 as int] == (v.mem[decode(v).1 as int] + v.mem[decode(
            v,
        ).2 as int]) % 0x10000,
{
}

/// SUB stores the difference of the two fetched words modulo 2^16.
pub proof fn lemma_sub_wraps(v: EngineView)
    requires
        v.wf(),
        decode(v).0 == OP_SUB,
    ensures
        step_post(v).mem[decode(v).3 as int] == (v.mem[decode(v).1 as int] - v.mem[decode(
            v,
        ).2 as int]) % 0x10000,
{
}

/// MUL stores the product of the two fetched words modulo 2^16.
pub proof fn lemma_mul_wraps(v: EngineView)
    requires
        v.wf(),
        decode(v).0 == OP_MUL,
    ensures
        step_post(v).mem[decode(v).3 as int] == (v.mem[decode(v).1 as int] * v.mem[decode(
            v,
        ).2 as int]) % 0x10000,
{
    crate::word::lemma_wrap16_is_mod(v.mem[decode(v).1 as int] * v.mem[decode(v).2 as int]);
}

/// BAND stores the bitwise AND of the two fetched words.
pub proof fn lemma_band_stores_and(v: EngineView)
    requires
        v.wf(),
        decode(v).0 == OP_BAND,
    ensures
        step_post(v).mem[decode(v).3 as int] == v.mem[decode(v).1 as int] & v.mem[decode(
            v,
        ).2 as int],
{
}

/// XOR stores the bitwise exclusive OR of the two fetched words.
pub proof fn lemma_xor_stores_xor(v: EngineView)
    requires
        v.wf(),
        decode(v).0 == OP_XOR,
    ensures
        step_post(v).mem[decode(v).3 as int] == v.mem[decode(v).1 as int] ^ v.mem[decode(
            v,
        ).2 as int],
{
}

/// DIV with a nonzero divisor stores the truncating quotient and advances the
/// instruction pointer.
pub proof fn lemma_div_quotient(v: EngineView)
    requires
        v.wf(),
        decode(v).0 == OP_DIV,
        v.mem[decode(v).2 as int] != 0,
    ensures
        step_error(v) is None,
        step_post(v).mem[decode(v).3 as int] == v.mem[decode(v).1 as int] as int / v.mem[decode(
            v,
        ).2 as int] as int,
        step_post(v).ip == wrap16(v.ip + 4),
{
    vstd::arithmetic::div_mod::lemma_div_pos_is_pos(
        v.mem[decode(v).1 as int] as int,
        v.mem[decode(v).2 as int] as int,
    );
    vstd::arithmetic::div_mod::lemma_div_nonincreasing(
        v.mem[decode(v).1 as int] as int,
        v.mem[decode(v).2 as int] as int,
    );
}

/// DIV with a zero divisor fails with `ZeroDivision` carrying the numerator;
/// the step contract then leaves memory and the instruction pointer untouched.
pub proof fn lemma_div_by_zero_rejected(v: EngineView)
    requires
        v.wf(),
        decode(v).0 == OP_DIV,
        v.mem[decode(v).2 as int] == 0,
    ensures
        step_error(v) == Some(EngineError::ZeroDivision(v.mem[decode(v).1 as int])),
{
}

/// SET with a nonzero third argument stores the instruction pointer as it was
/// before the instruction executed, then advances it.
pub proof fn lemma_set_captures_ip(v: EngineView)
    requires
        v.wf(),
        decode(v).0 == OP_SET,
        decode(v).3 != 0,
    ensures
        step_post(v).mem[decode(v).1 as int] == v.ip,
        step_post(v).ip == wrap16(v.ip + 4),
{
}

/// A SYNC whose third argument is zero does not raise the expansion trigger,
/// so the following host sync leaves the utility buffer unchanged.
pub proof fn lemma_plain_sync_preserves_util(v: EngineView, pos_code: u16, key_code: u16)
    requires
        v.wf(),
        !v.expansion_triggered,
        decode(v).0 == OP_SYNC,
        decode(v).3 == 0,
    ensures
        step_post(v).util == v.util,
        !step_post(v).expansion_triggered,
        sync_post_no_expansion(step_post(v), pos_code, key_code).util == v.util,
{
}

/// A SYNC whose third argument is nonzero raises the expansion trigger, and
/// the following host sync on an engine without an expansion zeroes every
/// word of the utility buffer.
pub proof fn lemma_triggered_sync_clears_util(v: EngineView, pos_code: u16, key_code: u16)
    requires
        v.wf(),
        decode(v).0 == OP_SYNC,
        decode(v).3 != 0,
    ensures
        step_post(v).expansion_triggered,
        forall|i: int|
            0 <= i < MEMSIZE ==> sync_post_no_expansion(step_post(v), pos_code, key_code).util[i]
                == 0,
{
}

/// The word that PRINT in screen mode writes at screen address `y * 256 + x`
/// is still there after the following host sync, whose contract copies the
/// screen buffer verbatim into the host's destination.
pub proof fn lemma_print_reaches_host(v: EngineView, x: u16, y: u16, pos_code: u16, key_code: u16)
    requires
        v.wf(),
        x < 256,
        y < 256,
        decode(v).0 == OP_PRINT,
        decode(v).3 == 0,
        v.mem[decode(v).2 as int] == y * 256 + x,
    ensures
        step_post(v).screen[y * 256 + x] == v.mem[decode(v).1 as int],
        sync_post_no_expansion(step_post(v), pos_code, key_code).screen[y * 256 + x] == v.mem[decode(
            v,
        ).1 as int],
{
}

/// PRINT in screen mode followed by READ in screen mode at the same index
/// reads back the written word.
pub proof fn lemma_print_read_roundtrip_screen(v: EngineView)
    requires
        v.wf(),
        decode(v).0 == OP_PRINT,
        decode(v).3 == 0,
        decode(step_post(v)).0 == OP_READ,
        decode(step_post(v)).3 == 0,
        step_post(v).mem[decode(step_post(v)).1 as int] == v.mem[decode(v).2 as int],
    ensures
        step_post(step_post(v)).mem[decode(step_post(v)).2 as int] == v.mem[decode(v).1 as int],
{
}

/// PRINT in utility mode followed by READ in utility mode at the same index
/// reads back the written word.
pub proof fn lemma_print_read_roundtrip_utility(v: EngineView)
    requires
        v.wf(),
        decode(v).0 == OP_PRINT,
        decode(v).3 != 0,
        decode(step_post(v)).0 == OP_READ,
        decode(step_post(v)).3 != 0,
        step_post(v).mem[decode(step_post(v)).1 as int] == v.mem[decode(v).2 as int],
    ensures
        step_post(step_post(v)).mem[decode(step_post(v)).2 as int] == v.mem[decode(v).1 as int],
{
}

/// REF followed by DEREF against the same effective address reads back the
/// written word.
pub proof fn lemma_ref_deref_roundtrip(v: EngineView)
    requires
        v.wf(),
        decode(v).0 == OP_REF,
        decode(step_post(v)).0 == OP_DEREF,
        wrap16(step_post(v).mem[decode(step_post(v)).1 as int] + decode(step_post(v)).3) == wrap16(
            v.mem[decode(v).1 as int] + decode(v).3,
        ),
    ensures
        step_post(step_post(v)).mem[decode(step_post(v)).2 as int] == v.mem[decode(v).2 as int],
{
}

/// An instruction fetched at the last address wraps word-wise into the start
/// of memory.
pub proof fn lemma_decode_wraps_at_end(v: EngineView)
    requires
        v.wf(),
        v.ip == 65535,
    ensures
        decode(v) == (v.mem[65535], v.mem[0], v.mem[1], v.mem[2]),
{
    assert(65536int % 0x10000 == 0) by {
        vstd::arithmetic::div_mod::lemma_mod_self_0(0x10000);
    }
    assert(65537int % 0x10000 == 1) by {
        vstd::arithmetic::div_mod::lemma_mod_multiples_vanish(1, 1, 0x10000);
        vstd::arithmetic::div_mod::lemma_small_mod(1, 0x10000);
    }
    assert(65538int % 0x10000 == 2) by {
        vstd::arithmetic::div_mod::lemma_mod_multiples_vanish(1, 2, 0x10000);
        vstd::arithmetic::div_mod::lemma_small_mod(2, 0x10000);
    }
}

} // verus!
