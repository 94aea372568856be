//! Node state and the distance engine.
//!
//! A `UWBSensor` is the protocol-visible state of one radio endpoint:
//! its identity, its per-exchange timestamp store, and its measurement
//! results. Distances are held in integer micrometres so that every
//! computation on them is exact and checkable; a caller that wants
//! metres divides by a million at the edge.
//!
//! The distance engine turns a filled timestamp store into a raw
//! distance (single- or double-sided scheme), rejects physically
//! implausible double-sided results, and smooths accepted values with a
//! one-pole IIR filter.

use vstd::prelude::*;

use crate::ticks::{
    quantize_tick, quantized, wrap_add, wrap_diff, wrap_sub, wrap_total, SENTINEL_TICK,
    TICK_MODULUS, TX_GRANULE,
};
use vstd::array::spec_array_update;

verus! {

/// Personal area network identifier shared by all modules.
pub const PAN_ID: u16 = 0x111;

/// Short address of the first anchor.
pub const ADD_S_ANCH1: u16 = 0x124;

/// Short address of the second anchor.
pub const ADD_S_ANCH2: u16 = 0x152;

/// Short address of the third anchor.
pub const ADD_S_ANCH3: u16 = 0x282;

/// Node id a module assumes while playing the tag role.
pub const TAG_ID: u64 = 5;

/// Default transmit antenna delay calibration, in ticks.
pub const DEFAULT_ANT_DELAY: u64 = 16500;

/// Hardware clock rate: 499.2 MHz times a 128-fold upsampling.
pub const TICKS_PER_SECOND: u64 = 499_200_000 * 128;

/// Speed of light expressed in micrometres per second.
pub const LIGHT_UM_PER_SECOND: u64 = 299_792_458_000_000;

/// Distances at or above this bound (10 000 m, in micrometres) are
/// physically implausible and point at a clock wrap or a corrupted
/// exchange; they are discarded.
pub const OUTLIER_LIMIT_UM: u64 = 10_000_000_000;

/// Per-id transmit stagger, in ticks: roughly 100 ms of air time
/// between the reply slots of consecutive node ids.
pub const ID_STRIDE_TICKS: u64 = 100_000 * 63_898;

/// No error recorded on the node.
pub const ERR_NONE: u8 = 0;

/// The peer placed the error sentinel in its payload.
pub const ERR_PEER: u8 = 1;

/// Local receive timeout or transceiver failure.
pub const ERR_LOCAL: u8 = 2;

/// Source address of a frame: network id plus short address.
#[derive(Clone, Copy, PartialEq, Eq, Structural, Debug)]
pub struct NodeAddress {
    pub pan_id: u16,
    pub short_addr: u16,
}

/// What one receive operation hands back: who sent the frame, the
/// decoded timestamp fields, and the local receive tick.
#[derive(Clone, Copy, Debug)]
pub struct UwbRData {
    pub addr_sender: Option<NodeAddress>,
    pub data: [u64; 6],
    pub r_time: u64,
}

impl UwbRData {
    /// Every tick in received data is a legal 40-bit value: decoded
    /// fields are 5 bytes wide and the receive stamp comes off the
    /// 40-bit counter.
    pub open spec fn wf(self) -> bool {
        &&& forall|i: int| 0 <= i < 6 ==> self.data@[i] < TICK_MODULUS
        &&& self.r_time < TICK_MODULUS
    }
}

/// The protocol-visible state of one radio endpoint.
///
/// `timing_data` holds the exchange timestamps T1..T6 (and the scratch
/// slots the multi-anchor variant uses); `distance` is the raw result
/// of the last accepted measurement in micrometres, `None` until a
/// first measurement succeeds.
#[derive(Clone, Copy, Debug)]
pub struct UWBSensor {
    pub connection: bool,
    pub timing_data: [u64; 10],
    pub distance: Option<u64>,
    pub addr_dest: u16,
    pub id: u64,
    pub ant_delay_tx: u64,
    pub error: u8,
    pub filtered_distance: u64,
    pub previous_filtered_distance: u64,
}

impl UWBSensor {
    /// Every stored timestamp is a legal 40-bit tick and the antenna
    /// delay calibration stays below one clock period.
    pub open spec fn wf(self) -> bool {
        &&& forall|i: int| 0 <= i < 10 ==> self.timing_data@[i] < TICK_MODULUS
        &&& self.ant_delay_tx < TICK_MODULUS
    }

    /// A fresh node: no connection, empty timestamp store, no
    /// measurement yet, default antenna calibration.
    pub fn new() -> (s: UWBSensor)
        ensures
            s == (UWBSensor {
                connection: false,
                timing_data: s.timing_data,
                distance: None::<u64>,
                addr_dest: 0u16,
                id: 0u64,
                ant_delay_tx: DEFAULT_ANT_DELAY,
                error: ERR_NONE,
                filtered_distance: 0u64,
                previous_filtered_distance: 0u64,
            }),
            forall|i: int| 0 <= i < 10 ==> s.timing_data@[i] == 0,
            s.wf(),
    {
        UWBSensor {
            connection: false,
            timing_data: [0u64; 10],
            distance: None,
            addr_dest: 0,
            id: 0,
            ant_delay_tx: DEFAULT_ANT_DELAY,
            error: ERR_NONE,
            filtered_distance: 0,
            previous_filtered_distance: 0,
        }
    }

    /// Records the hardware transmit timestamp of the frame just sent.
    ///
    /// The transceiver reports the tick at which a frame actually left
    /// the antenna; the protocol keeps it as T1.
    pub fn record_tx_time(&mut self, tx_time: u64)
        requires
            old(self).wf(),
            tx_time < TICK_MODULUS,
        ensures
            final(self).wf(),
            (*final(self) == UWBSensor {
                timing_data: spec_array_update(old(self).timing_data, 0, tx_time),
                ..*old(self)
            }),
    {
        self.timing_data[0] = tx_time;
    }
}

/// Distance covered by light in `tof` clock ticks, in micrometres.
pub open spec fn ticks_to_um(tof: int) -> int {
    tof * LIGHT_UM_PER_SECOND / (TICKS_PER_SECOND as int)
}

/// Distance covered by light in `diff / 2` clock ticks, in micrometres;
/// the halving folds into the division so no half tick is lost.
pub open spec fn half_ticks_to_um(diff: int) -> int {
    diff * LIGHT_UM_PER_SECOND / (2 * TICKS_PER_SECOND)
}

/// Converts a time of flight in ticks to micrometres of distance.
fn ticks_to_distance_um(tof: u64) -> (d: u64)
    requires
        tof < TICK_MODULUS,
    ensures
        d == ticks_to_um(tof as int),
{
    proof {
        vstd::arithmetic::mul::lemma_mul_inequality(
            tof as int,
            TICK_MODULUS - 1,
            LIGHT_UM_PER_SECOND as int,
        );
    }
    let num: u128 = (tof as u128) * (LIGHT_UM_PER_SECOND as u128);
    let q: u128 = num / (TICKS_PER_SECOND as u128);
    proof {
        vstd::arithmetic::div_mod::lemma_div_is_ordered(
            num as int,
            (TICK_MODULUS - 1) * LIGHT_UM_PER_SECOND,
            TICKS_PER_SECOND as int,
        );
    }
    q as u64
}

/// Converts a doubled time of flight (in ticks) to micrometres.
fn half_ticks_to_distance_um(diff: u64) -> (d: u64)
    requires
        diff < TICK_MODULUS,
    ensures
        d == half_ticks_to_um(diff as int),
{
    proof {
        vstd::arithmetic::mul::lemma_mul_inequality(
            diff as int,
            TICK_MODULUS - 1,
            LIGHT_UM_PER_SECOND as int,
        );
    }
    let num: u128 = (diff as u128) * (LIGHT_UM_PER_SECOND as u128);
    let q: u128 = num / (2 * TICKS_PER_SECOND as u128);
    proof {
        vstd::arithmetic::div_mod::lemma_div_is_ordered(
            num as int,
            (TICK_MODULUS - 1) * LIGHT_UM_PER_SECOND,
            2 * TICKS_PER_SECOND as int,
        );
    }
    q as u64
}

/// Round-trip interval T4 - T1 of a single-sided exchange.
pub open spec fn ss_round(td: Seq<u64>) -> int {
    wrap_diff(td[3] as int, td[0] as int)
}

/// Responder turnaround T3 - T2 of a single-sided exchange.
pub open spec fn ss_reply(td: Seq<u64>) -> int {
    wrap_diff(td[2] as int, td[1] as int)
}

/// Single-sided distance: time of flight is half of round minus reply.
pub open spec fn ss_distance_um(td: Seq<u64>) -> int {
    half_ticks_to_um(ss_round(td) - ss_reply(td))
}

/// Computes the single-sided distance from T1..T4.
///
/// Requires only well-formed ticks: when the timestamps are
/// inconsistent (the reply interval exceeds the round trip, which no
/// physical exchange produces), the stored distance is left unchanged.
pub fn calc_distance_simple(sensor: &mut UWBSensor)
    requires
        old(sensor).wf(),
    ensures
        final(sensor).wf(),
        (*final(sensor) == UWBSensor {
            distance: if ss_round(old(sensor).timing_data@) >= ss_reply(old(sensor).timing_data@) {
                Some(ss_distance_um(old(sensor).timing_data@) as u64)
            } else {
                old(sensor).distance
            },
            ..*old(sensor)
        }),
{
    let tround = wrap_sub(sensor.timing_data[3], sensor.timing_data[0]);
    let treply = wrap_sub(sensor.timing_data[2], sensor.timing_data[1]);
    if tround >= treply {
        let d = half_ticks_to_distance_um(tround - treply);
        sensor.distance = Some(d);
    }
}

/// Round-trip interval T4 - T1 on the initiator clock.
pub open spec fn ds_round1(td: Seq<u64>) -> int {
    wrap_diff(td[3] as int, td[0] as int)
}

/// First turnaround T3 - T2 on the responder clock.
pub open spec fn ds_reply1(td: Seq<u64>) -> int {
    wrap_diff(td[2] as int, td[1] as int)
}

/// Second round-trip interval T6 - T3.
pub open spec fn ds_round2(td: Seq<u64>) -> int {
    wrap_diff(td[5] as int, td[2] as int)
}

/// Second turnaround T5 - T4.
pub open spec fn ds_reply2(td: Seq<u64>) -> int {
    wrap_diff(td[4] as int, td[3] as int)
}

/// Denominator of the double-sided formula: the sum of both rounds and
/// both turnarounds.
pub open spec fn ds_sum(td: Seq<u64>) -> int {
    ds_round1(td) + ds_reply1(td) + ds_round2(td) + ds_reply2(td)
}

/// Numerator of the double-sided formula.
pub open spec fn ds_num(td: Seq<u64>) -> int {
    ds_round1(td) * ds_round2(td) - ds_reply1(td) * ds_reply2(td)
}

/// Double-sided time of flight in ticks:
/// (round1 * round2 - reply1 * reply2) / (round1 + reply1 + round2 + reply2).
pub open spec fn ds_tof_ticks(td: Seq<u64>) -> int {
    ds_num(td) / ds_sum(td)
}

/// Double-sided distance in micrometres.
pub open spec fn ds_distance_um(td: Seq<u64>) -> int {
    ticks_to_um(ds_tof_ticks(td))
}

/// A double-sided timestamp set yields a usable distance exactly when
/// the formula is defined, its time of flight is nonnegative, and the
/// resulting distance is physically plausible.
pub open spec fn ds_plausible(td: Seq<u64>) -> bool {
    &&& ds_sum(td) > 0
    &&& ds_num(td) >= 0
    &&& ds_distance_um(td) < OUTLIER_LIMIT_UM
}

/// Computes the double-sided distance from T1..T6, rejecting outliers.
///
/// An implausible result (at or beyond 10 000 m, or an inconsistent
/// timestamp set) leaves the stored distance exactly as it was: the
/// previous measurement is retained, never clamped or zeroed.
pub fn calc_distance_double(sensor: &mut UWBSensor)
    requires
        old(sensor).wf(),
    ensures
        final(sensor).wf(),
        (*final(sensor) == UWBSensor {
            distance: if ds_plausible(old(sensor).timing_data@) {
                Some(ds_distance_um(old(sensor).timing_data@) as u64)
            } else {
                old(sensor).distance
            },
            ..*old(sensor)
        }),
{
    let tround1 = wrap_sub(sensor.timing_data[3], sensor.timing_data[0]);
    let treply1 = wrap_sub(sensor.timing_data[2], sensor.timing_data[1]);
    let tround2 = wrap_sub(sensor.timing_data[5], sensor.timing_data[2]);
    let treply2 = wrap_sub(sensor.timing_data[4], sensor.timing_data[3]);

    let sum: u64 = tround1 + treply1 + tround2 + treply2;
    if sum > 0 {
        proof {
            vstd::arithmetic::mul::lemma_mul_upper_bound(
                tround1 as int,
                TICK_MODULUS - 1,
                tround2 as int,
                TICK_MODULUS - 1,
            );
            vstd::arithmetic::mul::lemma_mul_upper_bound(
                treply1 as int,
                TICK_MODULUS - 1,
                treply2 as int,
                TICK_MODULUS - 1,
            );
        }
        let num1: u128 = (tround1 as u128) * (tround2 as u128);
        let num2: u128 = (treply1 as u128) * (treply2 as u128);
        if num1 >= num2 {
            let tof_wide: u128 = (num1 - num2) / (sum as u128);
            proof {
                vstd::arithmetic::mul::lemma_mul_inequality(
                    tround2 as int,
                    sum as int,
                    tround1 as int,
                );
                vstd::arithmetic::mul::lemma_mul_is_commutative(tround1 as int, tround2 as int);
                vstd::arithmetic::mul::lemma_mul_is_commutative(tround1 as int, sum as int);
                vstd::arithmetic::div_mod::lemma_div_is_ordered(
                    num1 - num2,
                    (sum as int) * (tround1 as int),
                    sum as int,
                );
                vstd::arithmetic::div_mod::lemma_div_multiples_vanish(tround1 as int, sum as int);
            }
            let tof = tof_wide as u64;
            let d = ticks_to_distance_um(tof);
            if d < OUTLIER_LIMIT_UM {
                sensor.distance = Some(d);
            }
        }
    }
}

/// One step of the smoothing filter: the new filtered value keeps 96%
/// of the previous one and takes 4% of the raw measurement.
pub open spec fn iir_next(raw: int, prev: int) -> int {
    (4 * raw + 96 * prev) / 100
}

/// Applies the one-pole IIR filter to the current raw distance.
///
/// A node without a measurement is left untouched, so a failed cycle
/// never perturbs the filter state.
pub fn iir_filter(sensor: &mut UWBSensor)
    ensures
        (*final(sensor) == match old(sensor).distance {
            Some(raw) => UWBSensor {
                filtered_distance: iir_next(
                    raw as int,
                    old(sensor).previous_filtered_distance as int,
                ) as u64,
                previous_filtered_distance: iir_next(
                    raw as int,
                    old(sensor).previous_filtered_distance as int,
                ) as u64,
                ..*old(sensor)
            },
            None => *old(sensor),
        }),
        old(sensor).wf() ==> final(sensor).wf(),
{
    match sensor.distance {
        Some(raw) => {
            let prev = sensor.previous_filtered_distance;
            let wide: u128 = (4 * (raw as u128) + 96 * (prev as u128)) / 100;
            proof {
                let hi: int = if raw >= prev {
                    raw as int
                } else {
                    prev as int
                };
                vstd::arithmetic::div_mod::lemma_div_is_ordered(
                    4 * (raw as int) + 96 * (prev as int),
                    100 * hi,
                    100,
                );
                vstd::arithmetic::div_mod::lemma_div_multiples_vanish(hi, 100);
            }
            let filtered = wide as u64;
            sensor.previous_filtered_distance = filtered;
            sensor.filtered_distance = filtered;
        },
        None => {},
    }
}

/// Seeds the filter from the first accepted raw measurement of a
/// session, so early filtered values are not biased toward zero.
pub fn seed_filter(sensor: &mut UWBSensor)
    ensures
        (*final(sensor) == match old(sensor).distance {
            Some(raw) => UWBSensor { previous_filtered_distance: raw, ..*old(sensor) },
            None => *old(sensor),
        }),
{
    match sensor.distance {
        Some(raw) => {
            sensor.previous_filtered_distance = raw;
        },
        None => {},
    }
}

/// Reply slot assigned to a node: the reference tick plus the node id
/// times the configured stride, on the wrapping clock.
pub open spec fn id_offset_slot(base: int, id: int) -> int {
    wrap_total(base, id * ID_STRIDE_TICKS)
}

/// A scheduled transmit tick as the hardware will honour it: quantised
/// to the register granularity, plus this node's antenna delay.
pub open spec fn scheduled_tx_tick(slot: int, ant_delay: int) -> int {
    wrap_total(quantized(slot), ant_delay)
}

/// Computes the staggered reply slot for this node and stores the
/// corresponding scheduled transmit tick.
///
/// The slot is the received reference tick `timing_data[1]` offset by
/// `id` times the stride, so different node ids answer in disjoint air
/// time. The tag (id 5) keeps its scheduled tick as T5; anchors keep
/// theirs as T3.
pub fn calc_delay_send(sensor: &mut UWBSensor, delay: &mut u64)
    requires
        old(sensor).wf(),
    ensures
        final(sensor).wf(),
        *final(delay) == id_offset_slot(
            old(sensor).timing_data@[1] as int,
            old(sensor).id as int,
        ),
        *final(delay) < TICK_MODULUS,
        (*final(sensor) == UWBSensor {
            timing_data: spec_array_update(
                old(sensor).timing_data,
                if old(sensor).id == TAG_ID {
                    4
                } else {
                    2
                },
                scheduled_tx_tick(*final(delay) as int, old(sensor).ant_delay_tx as int) as u64,
            ),
            ..*old(sensor)
        }),
{
    let wide: u128 = ((sensor.timing_data[1] as u128) + (sensor.id as u128) * (
    ID_STRIDE_TICKS as u128)) % (TICK_MODULUS as u128);
    proof {
        vstd::arithmetic::div_mod::lemma_mod_bound(
            sensor.timing_data@[1] + sensor.id * ID_STRIDE_TICKS,
            TICK_MODULUS as int,
        );
    }
    *delay = wide as u64;
    let slot = wrap_add(quantize_tick(*delay), sensor.ant_delay_tx);
    if sensor.id == TAG_ID {
        sensor.timing_data[4] = slot;
    } else {
        sensor.timing_data[2] = slot;
    }
}

/// The fixed-length all-ones frame a node answers with when it has
/// detected a fault or an unknown peer.
pub fn error_frame() -> (buf: [u8; 10])
    ensures
        forall|i: int| 0 <= i < 10 ==> buf@[i] == 255u8,
{
    [255u8; 10]
}

/// Absolute tick at which the error frame is scheduled.
pub const ERROR_FRAME_DELAY: u64 = 300_000 * 63_898;

/// True of a decoded timestamp field holding the reserved error
/// sentinel rather than a real tick value.
pub open spec fn is_sentinel(v: u64) -> bool {
    v == SENTINEL_TICK
}

/// True when `a` is the configured address of anchor `k` (1, 2 or 3).
pub open spec fn is_anchor_addr(a: NodeAddress, k: int) -> bool {
    &&& a.pan_id == PAN_ID
    &&& a.short_addr == if k == 1 {
        ADD_S_ANCH1
    } else if k == 2 {
        ADD_S_ANCH2
    } else {
        ADD_S_ANCH3
    }
}

/// The configuration fields of a node, which no exchange step changes.
pub open spec fn same_identity(a: UWBSensor, b: UWBSensor) -> bool {
    &&& a.connection == b.connection
    &&& a.addr_dest == b.addr_dest
    &&& a.id == b.id
    &&& a.ant_delay_tx == b.ant_delay_tx
}

/// The measurement fields of a node: raw distance and filter state.
pub open spec fn same_measurement(a: UWBSensor, b: UWBSensor) -> bool {
    &&& a.distance == b.distance
    &&& a.filtered_distance == b.filtered_distance
    &&& a.previous_filtered_distance == b.previous_filtered_distance
}

/// The filter approaches the raw input monotonically and never
/// overshoots it: one step from `prev` toward a constant input `raw`
/// lands between the two, whichever side it starts on.
pub proof fn lemma_iir_monotone_no_overshoot(raw: int, prev: int)
    requires
        0 <= raw,
        0 <= prev,
    ensures
        prev <= raw ==> prev <= iir_next(raw, prev) <= raw,
        raw <= prev ==> raw <= iir_next(raw, prev) <= prev,
{
    let v = 4 * raw + 96 * prev;
    if prev <= raw {
        vstd::arithmetic::div_mod::lemma_div_is_ordered(100 * prev, v, 100);
        vstd::arithmetic::div_mod::lemma_div_is_ordered(v, 100 * raw, 100);
        vstd::arithmetic::div_mod::lemma_div_multiples_vanish(prev, 100);
        vstd::arithmetic::div_mod::lemma_div_multiples_vanish(raw, 100);
    }
    if raw <= prev {
        vstd::arithmetic::div_mod::lemma_div_is_ordered(100 * raw, v, 100);
        vstd::arithmetic::div_mod::lemma_div_is_ordered(v, 100 * prev, 100);
        vstd::arithmetic::div_mod::lemma_div_multiples_vanish(prev, 100);
        vstd::arithmetic::div_mod::lemma_div_multiples_vanish(raw, 100);
    }
}

/// Under a constant raw input the filter makes strict progress while
/// the remaining gap is at least 25 micrometres, so it converges into
/// that band; inside the band the previous value can persist, which is
/// the resolution cost of integer filtering.
pub proof fn lemma_iir_progress(raw: int, prev: int)
    requires
        0 <= raw,
        0 <= prev,
    ensures
        prev + 25 <= raw ==> iir_next(raw, prev) >= prev + 1,
        raw + 25 <= prev ==> iir_next(raw, prev) <= prev - 1,
{
    let v = 4 * raw + 96 * prev;
    if prev + 25 <= raw {
        vstd::arithmetic::div_mod::lemma_div_is_ordered(100 * (prev + 1), v, 100);
        vstd::arithmetic::div_mod::lemma_div_multiples_vanish(prev + 1, 100);
    }
    if raw + 25 <= prev {
        vstd::arithmetic::div_mod::lemma_div_is_ordered(v, 100 * (prev - 1), 100);
        vstd::arithmetic::div_mod::lemma_div_multiples_vanish(prev - 1, 100);
    }
}

/// Each filter step shrinks the distance to a constant raw input
/// geometrically: the new gap is at most 96% of the old one, up to the
/// one-unit rounding of integer division.
pub proof fn lemma_iir_contraction(raw: int, prev: int)
    requires
        0 <= raw,
        0 <= prev,
    ensures
        prev <= raw ==> 100 * (raw - iir_next(raw, prev)) <= 96 * (raw - prev) + 99,
        raw <= prev ==> 100 * (iir_next(raw, prev) - raw) <= 96 * (prev - raw),
{
    let v = 4 * raw + 96 * prev;
    vstd::arithmetic::div_mod::lemma_fundamental_div_mod(v, 100);
    vstd::arithmetic::div_mod::lemma_mod_bound(v, 100);
}

/// A scheduled transmit tick is always a whole number of register
/// granules plus the node's antenna delay: the clock period is itself a
/// multiple of the granule, so wrapping preserves the alignment.
pub proof fn lemma_scheduled_tick_alignment(slot: int, ant: int)
    requires
        0 <= slot,
        0 <= ant,
    ensures
        scheduled_tx_tick(slot, ant) % (TX_GRANULE as int) == ant % (TX_GRANULE as int),
{
    let g = TX_GRANULE as int;
    let m = TICK_MODULUS as int;
    let q = quantized(slot);
    vstd::arithmetic::div_mod::lemma_mod_bound(slot, g);
    crate::ticks::lemma_quantized_is_multiple(slot);
    assert(m == g * 0x8000_0000);
    vstd::arithmetic::div_mod::lemma_mod_mod(q + ant, g, 0x8000_0000);
    assert((q + ant) % m % g == (q + ant) % g);
    vstd::arithmetic::div_mod::lemma_add_mod_noop(q, ant, g);
    vstd::arithmetic::div_mod::lemma_mod_bound(ant, g);
    vstd::arithmetic::div_mod::lemma_mod_twice(ant, g);
}

/// Core of the collision-avoidance argument: two reply slots whose
/// nominal offsets from the same reference tick differ by `D` end up,
/// after wrapping and quantisation, separated by `D` give or take one
/// register granule, measured forward around the clock circle.
proof fn lemma_slot_gap(base: int, off_lo: int, off_hi: int)
    requires
        0 <= base < TICK_MODULUS,
        0 <= off_lo,
        off_lo + TX_GRANULE < off_hi,
        off_hi + TX_GRANULE < TICK_MODULUS,
    ensures
        ({
            let m = TICK_MODULUS as int;
            let gap = (quantized((base + off_hi) % m) - quantized((base + off_lo) % m)) % m;
            off_hi - off_lo - TX_GRANULE < gap < off_hi - off_lo + TX_GRANULE
        }),
{
    let m = TICK_MODULUS as int;
    let g = TX_GRANULE as int;
    let dd = off_hi - off_lo;
    let slo = (base + off_lo) % m;
    let shi = (base + off_hi) % m;
    vstd::arithmetic::div_mod::lemma_mod_bound(base + off_lo, m);
    vstd::arithmetic::div_mod::lemma_mod_bound(base + off_hi, m);
    vstd::arithmetic::div_mod::lemma_mod_bound(slo, g);
    vstd::arithmetic::div_mod::lemma_mod_bound(shi, g);

    // The wrapped slots differ by exactly dd around the circle.
    vstd::arithmetic::div_mod::lemma_sub_mod_noop(base + off_hi, base + off_lo, m);
    vstd::arithmetic::div_mod::lemma_small_mod(dd as nat, m as nat);
    assert((shi - slo) % m == dd);

    let diff = shi - slo;
    let q = quantized(shi) - quantized(slo);
    assert(q == diff - shi % g + slo % g);
    if diff >= 0 {
        vstd::arithmetic::div_mod::lemma_small_mod(diff as nat, m as nat);
        assert(diff == dd);
        assert(dd - g < q < dd + g);
        vstd::arithmetic::div_mod::lemma_small_mod(q as nat, m as nat);
    } else {
        vstd::arithmetic::div_mod::lemma_mod_add_multiples_vanish(diff, m);
        vstd::arithmetic::div_mod::lemma_small_mod((diff + m) as nat, m as nat);
        assert(diff == dd - m);
        assert(dd - m - g < q < dd - m + g);
        vstd::arithmetic::div_mod::lemma_mod_add_multiples_vanish(q, m);
        vstd::arithmetic::div_mod::lemma_small_mod((q + m) as nat, m as nat);
    }
}

/// Collision avoidance of the id-staggered reply schedule: for any two
/// distinct anchor ids answering the same reference tick, the forward
/// distance around the clock circle from the lower id's quantised slot
/// to the higher id's is the id difference times the stride, give or
/// take one register granule — in particular it is never less than one
/// stride minus a granule, so the replies cannot overlap on air.
pub proof fn lemma_delay_send_separation(base: int, i: int, j: int)
    requires
        0 <= base < TICK_MODULUS,
        1 <= i < j <= 3,
    ensures
        ({
            let m = TICK_MODULUS as int;
            let gap = (quantized(id_offset_slot(base, j)) - quantized(id_offset_slot(base, i)))
                % m;
            &&& (j - i) * ID_STRIDE_TICKS - TX_GRANULE < gap
            &&& gap < (j - i) * ID_STRIDE_TICKS + TX_GRANULE
            &&& ID_STRIDE_TICKS - TX_GRANULE < gap
        }),
{
    let s = ID_STRIDE_TICKS as int;
    if i == 1 {
        assert(i * s == s);
    } else {
        assert(i == 2);
        assert(i * s == 2 * s);
    }
    if j == 2 {
        assert(j * s == 2 * s);
    } else {
        assert(j == 3);
        assert(j * s == 3 * s);
    }
    if j - i == 1 {
        assert((j - i) * s == s);
    } else {
        assert(j - i == 2);
        assert((j - i) * s == 2 * s);
    }
    lemma_slot_gap(base, i * s, j * s);
}

/// Collision avoidance for the ticks the radios actually honour: even
/// with each node adding its own antenna-delay calibration (a constant
/// of at most 2^20 ticks, orders of magnitude below the stride), the
/// scheduled transmissions of two distinct ids stay separated by the id
/// difference times the stride, up to one register granule plus the
/// calibration difference — always a large positive share of air time.
pub proof fn lemma_scheduled_separation(base: int, i: int, j: int, ant_i: int, ant_j: int)
    requires
        0 <= base < TICK_MODULUS,
        1 <= i < j <= 3,
        0 <= ant_i < 0x10_0000,
        0 <= ant_j < 0x10_0000,
    ensures
        ({
            let m = TICK_MODULUS as int;
            let ti = scheduled_tx_tick(id_offset_slot(base, i), ant_i);
            let tj = scheduled_tx_tick(id_offset_slot(base, j), ant_j);
            let gap = (tj - ti) % m;
            &&& (j - i) * ID_STRIDE_TICKS - TX_GRANULE - 0x10_0000 < gap
            &&& gap < (j - i) * ID_STRIDE_TICKS + TX_GRANULE + 0x10_0000
            &&& ID_STRIDE_TICKS - TX_GRANULE - 0x10_0000 < gap
        }),
{
    let m = TICK_MODULUS as int;
    let qi = quantized(id_offset_slot(base, i));
    let qj = quantized(id_offset_slot(base, j));
    lemma_delay_send_separation(base, i, j);
    let gap0 = (qj - qi) % m;
    vstd::arithmetic::div_mod::lemma_mod_bound(base + i * ID_STRIDE_TICKS, m);
    vstd::arithmetic::div_mod::lemma_mod_bound(base + j * ID_STRIDE_TICKS, m);
    vstd::arithmetic::div_mod::lemma_mod_bound(id_offset_slot(base, i) as int, TX_GRANULE as int);
    vstd::arithmetic::div_mod::lemma_mod_bound(id_offset_slot(base, j) as int, TX_GRANULE as int);

    // Shifting each endpoint by its own calibration shifts the circular
    // gap by the calibration difference.
    vstd::arithmetic::div_mod::lemma_sub_mod_noop(qj + ant_j, qi + ant_i, m);
    vstd::arithmetic::div_mod::lemma_add_mod_noop(qj - qi, ant_j - ant_i, m);
    vstd::arithmetic::div_mod::lemma_add_mod_noop(gap0, ant_j - ant_i, m);
    vstd::arithmetic::div_mod::lemma_mod_twice(qj - qi, m);
    vstd::arithmetic::div_mod::lemma_mod_twice(ant_j - ant_i, m);
    vstd::arithmetic::div_mod::lemma_small_mod((gap0 + ant_j - ant_i) as nat, m as nat);
}

} // verus!
