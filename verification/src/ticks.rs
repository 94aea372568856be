//! Arithmetic on 40-bit hardware clock ticks.
//!
//! The transceiver's time base is a free-running counter that wraps at
//! 2^40. Every timestamp is interpreted modulo that width, and every
//! difference of two timestamps must be formed so that a wraparound
//! between them cannot flip its sign. This module centralises that
//! arithmetic: wrap-safe subtraction and addition, the 512-tick
//! quantisation that the transmit-time register imposes, and the
//! reserved all-ones error sentinel.

use vstd::prelude::*;

verus! {

/// One more than the largest 40-bit tick value: the hardware counter wraps here.
pub const TICK_MODULUS: u64 = 0x100_0000_0000;

/// All-ones 40-bit value, reserved as an error sentinel; never a real timestamp.
pub const SENTINEL_TICK: u64 = 0xFF_FFFF_FFFF;

/// Transmit-time registers ignore the low 9 bits, so scheduled ticks are
/// quantised to multiples of this granularity.
pub const TX_GRANULE: u64 = 512;

/// Mathematical wrap-safe difference `a - b` on the 40-bit clock circle.
pub open spec fn wrap_diff(a: int, b: int) -> int {
    (a - b) % (TICK_MODULUS as int)
}

/// Mathematical wrap-safe sum `a + b` on the 40-bit clock circle.
pub open spec fn wrap_total(a: int, b: int) -> int {
    (a + b) % (TICK_MODULUS as int)
}

/// A scheduled tick as the transmit-time register reads it: the low 9 bits dropped.
pub open spec fn quantized(x: int) -> int {
    x - x % (TX_GRANULE as int)
}

/// Ticks elapsed from `b` to `a` on the wrapping 40-bit clock.
pub fn wrap_sub(a: u64, b: u64) -> (r: u64)
    requires
        a < TICK_MODULUS,
        b < TICK_MODULUS,
    ensures
        r == wrap_diff(a as int, b as int),
        r < TICK_MODULUS,
        b <= a ==> r == a - b,
        a < b ==> r == a - b + TICK_MODULUS,
{
    if b <= a {
        proof {
            vstd::arithmetic::div_mod::lemma_small_mod((a - b) as nat, TICK_MODULUS as nat);
        }
        a - b
    } else {
        proof {
            let m = TICK_MODULUS as int;
            vstd::arithmetic::div_mod::lemma_mod_add_multiples_vanish(a - b, m);
            vstd::arithmetic::div_mod::lemma_small_mod((a - b + m) as nat, m as nat);
        }
        a + TICK_MODULUS - b
    }
}

/// Sum of a tick and an arbitrary offset, reduced onto the 40-bit clock.
pub fn wrap_add(a: u64, b: u64) -> (r: u64)
    ensures
        r == wrap_total(a as int, b as int),
        r < TICK_MODULUS,
{
    let wide: u128 = (a as u128 + b as u128) % (TICK_MODULUS as u128);
    proof {
        vstd::arithmetic::div_mod::lemma_mod_bound(a + b, TICK_MODULUS as int);
    }
    wide as u64
}

/// Drops the low 9 bits of a scheduled tick, as the hardware register does.
pub fn quantize_tick(x: u64) -> (r: u64)
    ensures
        r == quantized(x as int),
        r % TX_GRANULE == 0,
        r <= x,
        x - r < TX_GRANULE,
        x < TICK_MODULUS ==> r < TICK_MODULUS,
{
    proof {
        assert(((x >> 9) << 9) == x - x % 512 && (x - x % 512) % 512 == 0 && x % 512 < 512)
            by (bit_vector);
    }
    (x >> 9) << 9
}

/// The quantised value of any tick is an exact multiple of the register granularity.
pub proof fn lemma_quantized_is_multiple(x: int)
    ensures
        quantized(x) % (TX_GRANULE as int) == 0,
        exists|k: int| quantized(x) == #[trigger] (k * TX_GRANULE),
{
    vstd::arithmetic::div_mod::lemma_fundamental_div_mod(x, TX_GRANULE as int);
    vstd::arithmetic::div_mod::lemma_mod_multiples_basic(x / (TX_GRANULE as int), TX_GRANULE as int);
    assert(quantized(x) == (x / (TX_GRANULE as int)) * TX_GRANULE);
}

} // verus!
