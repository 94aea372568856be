use localisationtechniques::error::Error;
use localisationtechniques::rtt_ds_algorithms::{
    ds_initiator_3_check_first, ds_initiator_check_first, ds_initiator_finish,
    ds_initiator_record_final_reply, ds_initiator_record_first_reply, ds_tag_record_anchor_reply,
    ds_tag_schedule_final, TAG_FINAL_OFFSET_SINGLE,
};
use localisationtechniques::rtt_ss_algorithms::{
    ss_initiator_process_reply, ss_responder_process_ping,
};
use localisationtechniques::uwb_basics::{
    calc_delay_send, error_frame, NodeAddress, UWBSensor, UwbRData, ADD_S_ANCH1, ADD_S_ANCH2,
    ADD_S_ANCH3, ERR_LOCAL, ERR_NONE, ERR_PEER, PAN_ID, TAG_ID,
};

const SENTINEL: u64 = 0xFF_FFFF_FFFF;

fn anchor_addr(k: u16) -> NodeAddress {
    let short = match k {
        1 => ADD_S_ANCH1,
        2 => ADD_S_ANCH2,
        _ => ADD_S_ANCH3,
    };
    NodeAddress { pan_id: PAN_ID, short_addr: short }
}

fn frame(addr: Option<NodeAddress>, data: [u64; 6], r_time: u64) -> UwbRData {
    UwbRData { addr_sender: addr, data, r_time }
}

#[test]
fn ss_responder_schedules_quantized_reply() {
    let mut s = UWBSensor::new();
    let delay = ss_responder_process_ping(&mut s, 1000);
    assert_eq!(delay, 638_981_000);
    assert_eq!(s.timing_data[0], 1000);
    // Quantised slot plus the default antenna delay of 16500 ticks.
    assert_eq!(s.timing_data[1], 638_997_108);
    assert_eq!(s.timing_data[1] % 512, 16500 % 512);
}

#[test]
fn ss_initiator_computes_distance_from_reply() {
    let mut s = UWBSensor::new();
    let reply = frame(Some(anchor_addr(1)), [1000, 1100, 0, 0, 0, 0], 2000);
    ss_initiator_process_reply(&mut s, &reply);
    assert_eq!(s.distance, Some(4_457_175));
    assert_eq!(s.error, ERR_NONE);
}

#[test]
fn ss_initiator_sentinel_reply_signals_peer_error() {
    let mut s = UWBSensor::new();
    let reply = frame(Some(anchor_addr(1)), [SENTINEL, 1100, 0, 0, 0, 0], 2000);
    ss_initiator_process_reply(&mut s, &reply);
    assert_eq!(s.error, ERR_PEER);
    assert_eq!(s.distance, None);
}

#[test]
fn delay_send_staggers_ids_without_collision() {
    let stride: u64 = 100_000 * 63_898;
    let mut slots = [0u64; 3];
    for id in 1..=3u64 {
        let mut s = UWBSensor::new();
        s.id = id;
        s.timing_data[1] = 1000;
        let mut delay: u64 = 0;
        calc_delay_send(&mut s, &mut delay);
        assert_eq!(delay, (1000 + id * stride) % 0x100_0000_0000);
        let slot = s.timing_data[2];
        // Multiple of the 512-tick register granularity plus the antenna delay.
        assert_eq!(slot % 512, s.ant_delay_tx % 512);
        slots[(id - 1) as usize] = slot;
    }
    assert!(slots[1] - slots[0] >= stride - 512);
    assert!(slots[2] - slots[1] >= stride - 512);
}

#[test]
fn delay_send_tag_uses_fifth_slot() {
    let mut s = UWBSensor::new();
    s.id = TAG_ID;
    s.timing_data[1] = 1000;
    let mut delay: u64 = 0;
    calc_delay_send(&mut s, &mut delay);
    assert_eq!(s.timing_data[4], 31_949_017_204);
    assert_eq!(s.timing_data[2], 0);
}

#[test]
fn ds_initiator_first_reply_records_reference_tick() {
    let mut s = UWBSensor::new();
    let rx = Ok(frame(Some(anchor_addr(1)), [0; 6], 4242));
    ds_initiator_record_first_reply(&mut s, &rx);
    assert_eq!(s.timing_data[1], 4242);
    assert_eq!(s.error, ERR_NONE);
    assert!(ds_initiator_check_first(&mut s));
}

#[test]
fn ds_initiator_first_reply_sentinel_marks_peer_error() {
    let mut s = UWBSensor::new();
    let mut data = [0u64; 6];
    data[0] = SENTINEL;
    let rx = Ok(frame(Some(anchor_addr(1)), data, 4242));
    ds_initiator_record_first_reply(&mut s, &rx);
    assert_eq!(s.error, ERR_PEER);
}

#[test]
fn ds_initiator_first_reply_timeout_abandons_cycle() {
    let mut s = UWBSensor::new();
    s.timing_data[1] = 999;
    let rx: Result<UwbRData, Error> = Err(Error::TimeoutError);
    ds_initiator_record_first_reply(&mut s, &rx);
    assert_eq!(s.timing_data[1], 0);
    assert_eq!(s.error, ERR_LOCAL);
    assert!(!ds_initiator_check_first(&mut s));
    // Abandoning resets the error to the neutral missed state.
    assert_eq!(s.error, ERR_NONE);
}

#[test]
fn ds_full_exchange_computes_distance() {
    let mut s = UWBSensor::new();
    // First reply fixes the reference tick T2 on this node's clock.
    let rx1 = Ok(frame(Some(anchor_addr(1)), [0; 6], 14295));
    ds_initiator_record_first_reply(&mut s, &rx1);
    assert!(ds_initiator_check_first(&mut s));
    // The node's own scheduled reply tick T3.
    s.timing_data[2] = 78295;
    // Final reply: [T1, T4-anchor1, T4-anchor2, T4-anchor3, T5], T6 = rx tick.
    let rx2 = Ok(frame(Some(anchor_addr(1)), [1000, 66900, 0, 0, 136900, 0], 150195));
    ds_initiator_record_final_reply(&mut s, &rx2, 1);
    ds_initiator_finish(&mut s);
    assert_eq!(s.distance, Some(4_457_175));
    assert_eq!(s.filtered_distance, (4 * 4_457_175) / 100);
}

#[test]
fn ds_sentinel_final_reply_skips_distance_engine() {
    let mut s = UWBSensor::new();
    s.timing_data[1] = 14295;
    s.timing_data[2] = 78295;
    s.previous_filtered_distance = 31415;
    let mut data = [0u64; 6];
    data[0] = SENTINEL;
    let rx = Ok(frame(Some(anchor_addr(1)), data, 150195));
    ds_initiator_record_final_reply(&mut s, &rx, 1);
    assert_eq!(s.error, ERR_PEER);
    ds_initiator_finish(&mut s);
    // No distance was computed and the filter state is unperturbed.
    assert_eq!(s.distance, None);
    assert_eq!(s.previous_filtered_distance, 31415);
    assert_eq!(s.filtered_distance, 0);
}

#[test]
fn three_anchor_join_fails_cycle_when_one_misses() {
    let mut s1 = UWBSensor::new();
    let mut s2 = UWBSensor::new();
    let mut s3 = UWBSensor::new();
    ds_initiator_record_first_reply(&mut s1, &Ok(frame(Some(anchor_addr(1)), [0; 6], 100)));
    ds_initiator_record_first_reply(&mut s2, &Err::<UwbRData, Error>(Error::TimeoutError));
    ds_initiator_record_first_reply(&mut s3, &Ok(frame(Some(anchor_addr(3)), [0; 6], 300)));
    let ok = ds_initiator_3_check_first(&mut s1, &mut s2, &mut s3);
    assert!(!ok);
    assert_eq!(s1.error, ERR_NONE);
    assert_eq!(s2.error, ERR_NONE);
    assert_eq!(s3.error, ERR_NONE);
}

#[test]
fn three_anchor_partial_failure_corrupts_nothing() {
    let mut sensors = [UWBSensor::new(), UWBSensor::new(), UWBSensor::new()];
    for (k, s) in sensors.iter_mut().enumerate() {
        s.id = k as u64 + 1;
        s.timing_data[1] = 14295;
        s.timing_data[2] = 78295;
    }
    // Anchors 1 and 3 hear the tag's final reply; anchor 2 times out.
    let good = |slot: usize| {
        let mut data = [0u64; 6];
        data[0] = 1000;
        data[slot] = 66900;
        data[4] = 136900;
        Ok(frame(Some(anchor_addr(5)), data, 150195))
    };
    ds_initiator_record_final_reply(&mut sensors[0], &good(1), 1);
    ds_initiator_record_final_reply(
        &mut sensors[1],
        &Err::<UwbRData, Error>(Error::TimeoutError),
        2,
    );
    ds_initiator_record_final_reply(&mut sensors[2], &good(3), 3);
    for s in sensors.iter_mut() {
        ds_initiator_finish(s);
    }
    assert_eq!(sensors[0].distance, Some(4_457_175));
    assert_eq!(sensors[1].distance, None);
    assert_eq!(sensors[1].error, ERR_LOCAL);
    assert_eq!(sensors[2].distance, Some(4_457_175));
    assert_eq!(sensors[0].error, ERR_NONE);
    assert_eq!(sensors[2].error, ERR_NONE);
}

#[test]
fn tag_collects_anchor_replies_into_mask() {
    let mut s = UWBSensor::new();
    let mut mask: u8 = 0;
    for (k, tick) in [(1u16, 111u64), (2, 222), (3, 333)] {
        let r = ds_tag_record_anchor_reply(
            &mut s,
            &frame(Some(anchor_addr(k)), [0; 6], tick),
            &mut mask,
            7,
        );
        assert!(r.is_ok());
    }
    assert_eq!(mask, 7);
    assert_eq!(s.timing_data[1], 111);
    assert_eq!(s.timing_data[2], 222);
    assert_eq!(s.timing_data[3], 333);
}

#[test]
fn tag_rejects_unknown_sender() {
    let mut s = UWBSensor::new();
    let mut mask: u8 = 0;
    let stranger = NodeAddress { pan_id: PAN_ID, short_addr: 0xBEEF };
    let r = ds_tag_record_anchor_reply(
        &mut s,
        &frame(Some(stranger), [0; 6], 111),
        &mut mask,
        7,
    );
    assert_eq!(r, Err(Error::ModuleInconnu));
    assert_eq!(mask, 0);
}

#[test]
fn tag_single_anchor_mode_rejects_other_anchors() {
    let mut s = UWBSensor::new();
    let mut mask: u8 = 0;
    let r = ds_tag_record_anchor_reply(
        &mut s,
        &frame(Some(anchor_addr(2)), [0; 6], 222),
        &mut mask,
        1,
    );
    assert_eq!(r, Err(Error::ModuleInconnu));
}

#[test]
fn tag_surfaces_anchor_signalled_fault() {
    let mut s = UWBSensor::new();
    let mut mask: u8 = 0;
    let mut data = [0u64; 6];
    data[0] = SENTINEL;
    let r = ds_tag_record_anchor_reply(
        &mut s,
        &frame(Some(anchor_addr(1)), data, 111),
        &mut mask,
        7,
    );
    assert_eq!(r, Err(Error::ModuleAnchor));
}

#[test]
fn tag_final_reply_schedule() {
    let mut s = UWBSensor::new();
    s.timing_data[1] = 5000;
    let delay = ds_tag_schedule_final(&mut s, 1, TAG_FINAL_OFFSET_SINGLE, 16385);
    assert_eq!(delay, 958_475_000);
    assert_eq!(s.timing_data[4], 958_491_137);
    assert_eq!(s.timing_data[4] % 512, 16385 % 512);
}

#[test]
fn error_frame_is_all_ones() {
    assert_eq!(error_frame(), [255u8; 10]);
}

#[test]
fn ok_or_panic_unwraps_ok() {
    let r: Result<u32, ()> = Ok(7);
    assert_eq!(localisationtechniques::ok_or_panic(r, "unreachable"), 7);
}

#[test]
fn hardware_failure_handled_like_timeout() {
    let mut s = UWBSensor::new();
    let rx: Result<UwbRData, Error> = Err(Error::Dw3000Error);
    ds_initiator_record_first_reply(&mut s, &rx);
    assert_eq!(s.timing_data[1], 0);
    assert_eq!(s.error, ERR_LOCAL);
}

#[test]
fn new_node_starts_clean() {
    let mut s = UWBSensor::new();
    assert_eq!(s.timing_data, [0u64; 10]);
    assert_eq!(s.distance, None);
    assert_eq!(s.error, ERR_NONE);
    assert_eq!(s.ant_delay_tx, 16500);
    assert_eq!(s.id, 0);
    assert!(!s.connection);
    s.record_tx_time(777);
    assert_eq!(s.timing_data[0], 777);
}
