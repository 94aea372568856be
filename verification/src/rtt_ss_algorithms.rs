//! Single-sided two-way ranging.
//!
//! The initiator sends a ping (recording its transmit tick as T1),
//! the responder answers with a payload carrying its receive tick T2
//! and its scheduled reply tick T3, and the initiator records the
//! reply's arrival as T4. The time of flight is half of the round trip
//! minus the responder turnaround. A clock-rate difference between the
//! two nodes biases this scheme; the double-sided variant cancels it.
//!
//! These functions are the decision steps of the exchange: the blocking
//! send and receive operations around them live outside the library and
//! hand in plain receive records.

use vstd::prelude::*;

use crate::ticks::{quantize_tick, wrap_add, wrap_total, SENTINEL_TICK, TICK_MODULUS};
use crate::uwb_basics::{
    calc_distance_simple, is_sentinel, same_identity, scheduled_tx_tick, ss_distance_um, ss_reply,
    ss_round, UWBSensor, UwbRData, ERR_PEER,
};

verus! {

/// Fixed forward offset, in ticks, from a received ping to the
/// responder's scheduled reply (about 10 ms of turnaround time).
pub const SS_REPLY_OFFSET_TICKS: u64 = 10_000 * 63_898;

/// Initiator step: digest the responder's reply.
///
/// Stores the two payload fields as T2 and T3 and the local receive
/// tick as T4, then computes the single-sided distance — unless a
/// payload field holds the error sentinel, in which case the peer
/// signalled a fault: the error is recorded and no distance computed.
pub fn ss_initiator_process_reply(sensor: &mut UWBSensor, reply: &UwbRData)
    requires
        old(sensor).wf(),
        reply.wf(),
    ensures
        final(sensor).wf(),
        same_identity(*final(sensor), *old(sensor)),
        final(sensor).filtered_distance == old(sensor).filtered_distance,
        final(sensor).previous_filtered_distance == old(sensor).previous_filtered_distance,
        ({
            let td = old(sensor).timing_data@.update(1, reply.data@[0]).update(
                2,
                reply.data@[1],
            ).update(3, reply.r_time);
            &&& final(sensor).timing_data@ == td
            &&& if is_sentinel(reply.data@[0]) || is_sentinel(reply.data@[1]) {
                &&& final(sensor).error == ERR_PEER
                &&& final(sensor).distance == old(sensor).distance
            } else {
                &&& final(sensor).error == old(sensor).error
                &&& final(sensor).distance == if ss_round(td) >= ss_reply(td) {
                    Some(ss_distance_um(td) as u64)
                } else {
                    old(sensor).distance
                }
            }
        }),
{
    let t2 = reply.data[0];
    let t3 = reply.data[1];
    sensor.timing_data[1] = t2;
    sensor.timing_data[2] = t3;
    sensor.timing_data[3] = reply.r_time;
    if t2 == SENTINEL_TICK || t3 == SENTINEL_TICK {
        sensor.error = ERR_PEER;
    } else {
        calc_distance_simple(sensor);
    }
}

/// Responder step: digest a ping and schedule the reply.
///
/// Stores the ping's receive tick as T2, picks the reply slot a fixed
/// offset later on the wrapping clock, and stores the quantised slot
/// plus the antenna delay as T3, which is also the scheduled transmit
/// tick. Returns the unquantised slot for the transmit request. The
/// caller then encodes `timing_data` into the reply payload.
pub fn ss_responder_process_ping(sensor: &mut UWBSensor, r_time: u64) -> (delay: u64)
    requires
        old(sensor).wf(),
        r_time < TICK_MODULUS,
    ensures
        final(sensor).wf(),
        same_identity(*final(sensor), *old(sensor)),
        final(sensor).distance == old(sensor).distance,
        final(sensor).error == old(sensor).error,
        final(sensor).filtered_distance == old(sensor).filtered_distance,
        final(sensor).previous_filtered_distance == old(sensor).previous_filtered_distance,
        delay == wrap_total(r_time as int, SS_REPLY_OFFSET_TICKS as int),
        delay < TICK_MODULUS,
        final(sensor).timing_data@ == old(sensor).timing_data@.update(0, r_time).update(
            1,
            scheduled_tx_tick(delay as int, old(sensor).ant_delay_tx as int) as u64,
        ),
{
    sensor.timing_data[0] = r_time;
    let delay = wrap_add(r_time, SS_REPLY_OFFSET_TICKS);
    let t3 = wrap_add(quantize_tick(delay), sensor.ant_delay_tx);
    sensor.timing_data[1] = t3;
    delay
}

} // verus!
