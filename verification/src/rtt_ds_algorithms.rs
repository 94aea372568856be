//! Double-sided two-way ranging, single- and multi-anchor.
//!
//! A double-sided exchange runs three frames between an initiator and a
//! tag: ping, first reply, final reply. It cancels first-order clock
//! drift by combining two round trips. In the multi-anchor variant one
//! tag serves three anchors at once: the ping is a single broadcast,
//! the three replies are awaited concurrently, and every node staggers
//! its transmissions by its id so the shared channel never carries two
//! scheduled frames at once.
//!
//! As in the single-sided module, only the decision steps live here;
//! the blocking radio operations and the concurrent fan-out/join are
//! driven outside the library and feed receive outcomes in. A caller
//! must treat a cycle as failed — and must not aggregate its values —
//! whenever a step left an error on the node.

use vstd::prelude::*;

use crate::error::Error;
use crate::ticks::{quantize_tick, wrap_add, wrap_total, SENTINEL_TICK, TICK_MODULUS};
use crate::uwb_basics::{
    calc_distance_double, ds_distance_um, ds_plausible, iir_filter, iir_next, is_anchor_addr,
    is_sentinel, same_identity, same_measurement, scheduled_tx_tick, NodeAddress, UWBSensor,
    UwbRData, ADD_S_ANCH1, ADD_S_ANCH2, ADD_S_ANCH3, ERR_LOCAL, ERR_NONE, ERR_PEER, PAN_ID,
};

verus! {

/// Forward offset, in ticks, from the recorded reference tick to the
/// tag's final reply in the single-anchor exchange (about 15 ms).
pub const TAG_FINAL_OFFSET_SINGLE: u64 = 15_000 * 63_898;

/// Forward offset for the tag's final reply in the three-anchor
/// exchange (about 100 ms, after the last anchor's reply slot).
pub const TAG_FINAL_OFFSET_TRIPLE: u64 = 100_000 * 63_898;

/// Completion mask bit for anchor 1.
pub const ANCHOR1_BIT: u8 = 1;

/// Completion mask bit for anchor 2.
pub const ANCHOR2_BIT: u8 = 2;

/// Completion mask bit for anchor 3.
pub const ANCHOR3_BIT: u8 = 4;

/// Initiator step: digest the outcome of waiting for the first reply.
///
/// On a received frame the local receive tick is kept as the reference
/// tick `timing_data[1]`; a sentinel in the payload marks the peer
/// fault. On a timeout or transceiver failure the reference tick is
/// zeroed — the marker the join step tests — and the local error kept.
pub fn ds_initiator_record_first_reply(sensor: &mut UWBSensor, rx: &Result<UwbRData, Error>)
    requires
        old(sensor).wf(),
        rx matches Ok(d) ==> d.wf(),
    ensures
        final(sensor).wf(),
        same_identity(*final(sensor), *old(sensor)),
        same_measurement(*final(sensor), *old(sensor)),
        (match rx {
            Ok(d) => {
                &&& final(sensor).timing_data@ == old(sensor).timing_data@.update(1, d.r_time)
                &&& final(sensor).error == if is_sentinel(d.data@[0]) {
                    ERR_PEER
                } else {
                    old(sensor).error
                }
            },
            Err(_) => {
                &&& final(sensor).timing_data@ == old(sensor).timing_data@.update(1, 0u64)
                &&& final(sensor).error == ERR_LOCAL
            },
        }),
{
    match rx {
        Ok(d) => {
            sensor.timing_data[1] = d.r_time;
            if d.data[0] == SENTINEL_TICK {
                sensor.error = ERR_PEER;
            }
        },
        Err(_) => {
            sensor.timing_data[1] = 0;
            sensor.error = ERR_LOCAL;
        },
    }
}

/// Initiator step: decide whether the exchange may continue after the
/// first reply. A zero reference tick means the reply never came; the
/// cycle is abandoned with the error reset to the neutral missed state,
/// and the caller retries on the next cycle.
pub fn ds_initiator_check_first(sensor: &mut UWBSensor) -> (ok: bool)
    ensures
        ok == (old(sensor).timing_data@[1] != 0),
        (*final(sensor) == if ok {
            *old(sensor)
        } else {
            UWBSensor { error: ERR_NONE, ..*old(sensor) }
        }),
{
    if sensor.timing_data[1] == 0 {
        sensor.error = ERR_NONE;
        false
    } else {
        true
    }
}

/// Coordinator join after the concurrent first replies: the cycle goes
/// on only if every anchor heard back. One missing reply fails the
/// whole three-anchor cycle; all three nodes are reset to the neutral
/// missed state rather than blaming the one that timed out, and the
/// caller retries the next cycle.
pub fn ds_initiator_3_check_first(
    s1: &mut UWBSensor,
    s2: &mut UWBSensor,
    s3: &mut UWBSensor,
) -> (ok: bool)
    ensures
        ok == (old(s1).timing_data@[1] != 0 && old(s2).timing_data@[1] != 0 && old(
            s3,
        ).timing_data@[1] != 0),
        (*final(s1) == if ok {
            *old(s1)
        } else {
            UWBSensor { error: ERR_NONE, ..*old(s1) }
        }),
        (*final(s2) == if ok {
            *old(s2)
        } else {
            UWBSensor { error: ERR_NONE, ..*old(s2) }
        }),
        (*final(s3) == if ok {
            *old(s3)
        } else {
            UWBSensor { error: ERR_NONE, ..*old(s3) }
        }),
{
    if s1.timing_data[1] == 0 || s2.timing_data[1] == 0 || s3.timing_data[1] == 0 {
        s1.error = ERR_NONE;
        s2.error = ERR_NONE;
        s3.error = ERR_NONE;
        false
    } else {
        true
    }
}

/// Initiator step: digest the outcome of waiting for the final reply.
///
/// The final payload packs, in the canonical order, the tag-seen T1 in
/// field 0, the tag's receive ticks for anchors 1..3 in fields 1..3,
/// and the tag's scheduled reply tick T5 in field 4; this node reads
/// its own T4 from field `t4_index`, its anchor slot. The local receive
/// tick becomes T6. A sentinel in field 0 marks the peer fault and
/// leaves the timestamps alone; a timeout or transceiver failure marks
/// the local error.
pub fn ds_initiator_record_final_reply(
    sensor: &mut UWBSensor,
    rx: &Result<UwbRData, Error>,
    t4_index: usize,
)
    requires
        old(sensor).wf(),
        rx matches Ok(d) ==> d.wf(),
        1 <= t4_index <= 3,
    ensures
        final(sensor).wf(),
        same_identity(*final(sensor), *old(sensor)),
        same_measurement(*final(sensor), *old(sensor)),
        (match rx {
            Ok(d) => {
                if is_sentinel(d.data@[0]) {
                    &&& final(sensor).timing_data == old(sensor).timing_data
                    &&& final(sensor).error == ERR_PEER
                } else {
                    &&& final(sensor).timing_data@ == old(sensor).timing_data@.update(
                        0,
                        d.data@[0],
                    ).update(3, d.data@[t4_index as int]).update(4, d.data@[4]).update(5, d.r_time)
                    &&& final(sensor).error == old(sensor).error
                }
            },
            Err(_) => {
                &&& final(sensor).timing_data == old(sensor).timing_data
                &&& final(sensor).error == ERR_LOCAL
            },
        }),
{
    match rx {
        Ok(d) => {
            if d.data[0] == SENTINEL_TICK {
                sensor.error = ERR_PEER;
            } else {
                sensor.timing_data[0] = d.data[0];
                sensor.timing_data[3] = d.data[t4_index];
                sensor.timing_data[4] = d.data[4];
                sensor.timing_data[5] = d.r_time;
            }
        },
        Err(_) => {
            sensor.error = ERR_LOCAL;
        },
    }
}

/// Initiator step: close the cycle with the distance engine.
///
/// Only an error-free exchange reaches the engine: the double-sided
/// distance is computed with outlier rejection and the accepted value
/// runs through the IIR filter. A cycle that ended in any error leaves
/// distance and filter state exactly as they were.
pub fn ds_initiator_finish(sensor: &mut UWBSensor)
    requires
        old(sensor).wf(),
    ensures
        final(sensor).wf(),
        same_identity(*final(sensor), *old(sensor)),
        final(sensor).timing_data == old(sensor).timing_data,
        final(sensor).error == old(sensor).error,
        old(sensor).error != ERR_NONE ==> same_measurement(*final(sensor), *old(sensor)),
        old(sensor).error == ERR_NONE ==> ({
            let d2 = if ds_plausible(old(sensor).timing_data@) {
                Some(ds_distance_um(old(sensor).timing_data@) as u64)
            } else {
                old(sensor).distance
            };
            &&& final(sensor).distance == d2
            &&& match d2 {
                Some(raw) => {
                    &&& final(sensor).filtered_distance == iir_next(
                        raw as int,
                        old(sensor).previous_filtered_distance as int,
                    ) as u64
                    &&& final(sensor).previous_filtered_distance
                        == final(sensor).filtered_distance
                },
                None => {
                    &&& final(sensor).filtered_distance == old(sensor).filtered_distance
                    &&& final(sensor).previous_filtered_distance
                        == old(sensor).previous_filtered_distance
                },
            }
        }),
{
    if sensor.error == ERR_NONE {
        calc_distance_double(sensor);
        iir_filter(sensor);
    }
}

/// Tag step: digest one anchor reply while collecting the first replies
/// of the exchange.
///
/// `allowed` is the bitmask of anchors configured for this deployment
/// (bit 1, 2, 4 for anchors 1, 2, 3). A reply from anchor `k` stores
/// its receive tick in `timing_data[k]` and sets the anchor's bit in
/// the completion mask `nb_anchor`. A sentinel payload surfaces the
/// anchor's fault; a sender outside the allowed set is an unknown peer,
/// to be answered with the explicit error frame so it is not left
/// hanging.
pub fn ds_tag_record_anchor_reply(
    sensor: &mut UWBSensor,
    reply: &UwbRData,
    nb_anchor: &mut u8,
    allowed: u8,
) -> (r: Result<(), Error>)
    requires
        old(sensor).wf(),
        reply.wf(),
    ensures
        final(sensor).wf(),
        same_identity(*final(sensor), *old(sensor)),
        same_measurement(*final(sensor), *old(sensor)),
        final(sensor).error == old(sensor).error,
        (if is_sentinel(reply.data@[0]) {
            &&& r == Err::<(), Error>(Error::ModuleAnchor)
            &&& final(sensor).timing_data == old(sensor).timing_data
            &&& *final(nb_anchor) == *old(nb_anchor)
        } else {
            match reply.addr_sender {
                Some(a) => {
                    if is_anchor_addr(a, 1) && allowed & ANCHOR1_BIT != 0 {
                        &&& r == Ok::<(), Error>(())
                        &&& final(sensor).timing_data@ == old(sensor).timing_data@.update(
                            1,
                            reply.r_time,
                        )
                        &&& *final(nb_anchor) == (*old(nb_anchor) | ANCHOR1_BIT)
                    } else if is_anchor_addr(a, 2) && allowed & ANCHOR2_BIT != 0 {
                        &&& r == Ok::<(), Error>(())
                        &&& final(sensor).timing_data@ == old(sensor).timing_data@.update(
                            2,
                            reply.r_time,
                        )
                        &&& *final(nb_anchor) == (*old(nb_anchor) | ANCHOR2_BIT)
                    } else if is_anchor_addr(a, 3) && allowed & ANCHOR3_BIT != 0 {
                        &&& r == Ok::<(), Error>(())
                        &&& final(sensor).timing_data@ == old(sensor).timing_data@.update(
                            3,
                            reply.r_time,
                        )
                        &&& *final(nb_anchor) == (*old(nb_anchor) | ANCHOR3_BIT)
                    } else {
                        &&& r == Err::<(), Error>(Error::ModuleInconnu)
                        &&& final(sensor).timing_data == old(sensor).timing_data
                        &&& *final(nb_anchor) == *old(nb_anchor)
                    }
                },
                None => {
                    &&& r == Err::<(), Error>(Error::ModuleInconnu)
                    &&& final(sensor).timing_data == old(sensor).timing_data
                    &&& *final(nb_anchor) == *old(nb_anchor)
                },
            }
        }),
{
    if reply.data[0] == SENTINEL_TICK {
        return Err(Error::ModuleAnchor);
    }
    match reply.addr_sender {
        Some(a) => {
            if a.pan_id == PAN_ID && a.short_addr == ADD_S_ANCH1 && allowed & ANCHOR1_BIT != 0 {
                sensor.timing_data[1] = reply.r_time;
                *nb_anchor = *nb_anchor | ANCHOR1_BIT;
                Ok(())
            } else if a.pan_id == PAN_ID && a.short_addr == ADD_S_ANCH2 && allowed & ANCHOR2_BIT
                != 0 {
                sensor.timing_data[2] = reply.r_time;
                *nb_anchor = *nb_anchor | ANCHOR2_BIT;
                Ok(())
            } else if a.pan_id == PAN_ID && a.short_addr == ADD_S_ANCH3 && allowed & ANCHOR3_BIT
                != 0 {
                sensor.timing_data[3] = reply.r_time;
                *nb_anchor = *nb_anchor | ANCHOR3_BIT;
                Ok(())
            } else {
                Err(Error::ModuleInconnu)
            }
        },
        None => Err(Error::ModuleInconnu),
    }
}

/// Tag step: schedule the final reply.
///
/// The reply slot is a fixed offset past the reference tick stored at
/// `base_index` (the receive tick of the last awaited anchor), wrapped
/// onto the clock; its quantised value plus the antenna delay is kept
/// as T5 in `timing_data[4]`, which the encoded payload then carries to
/// every anchor. Returns the transmit slot to hand to the radio.
pub fn ds_tag_schedule_final(
    sensor: &mut UWBSensor,
    base_index: usize,
    offset_ticks: u64,
    ant_delay: u64,
) -> (delay: u64)
    requires
        old(sensor).wf(),
        base_index < 10,
        ant_delay < TICK_MODULUS,
    ensures
        final(sensor).wf(),
        same_identity(*final(sensor), *old(sensor)),
        same_measurement(*final(sensor), *old(sensor)),
        final(sensor).error == old(sensor).error,
        delay == wrap_total(old(sensor).timing_data@[base_index as int] as int, offset_ticks as int),
        delay < TICK_MODULUS,
        final(sensor).timing_data@ == old(sensor).timing_data@.update(
            4,
            scheduled_tx_tick(delay as int, ant_delay as int) as u64,
        ),
{
    let delay = wrap_add(sensor.timing_data[base_index], offset_ticks);
    let t5 = wrap_add(quantize_tick(delay), ant_delay);
    sensor.timing_data[4] = t5;
    delay
}

} // verus!
