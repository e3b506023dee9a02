use nam_audio_pipe::gc::{dispose_all, ParkingLot};
use nam_audio_pipe::payload::{
    CabSimPair, CabSimSwapPayload, GcItem, NamResampler, OversampleEngine, OversampleFactor,
    ResamplerSwapPayload, StreamingResampleBuffer, SwapPayload,
};
use nam_audio_pipe::rate_sync::{resolve_pending_swap, sync_rate};
use nam_audio_pipe::rt_status::{
    RtStatusFlags, RT_STATUS_NEEDS_RESAMPLER_REBUILD, RT_STATUS_RESAMP_SWAP_PENDING,
    RT_STATUS_SPSC_DRAIN_TRUNCATED, RT_STATUS_STRUCTURAL_DEFERRED, RT_STATUS_STRUCTURAL_SUPERSEDED,
};
use nam_audio_pipe::swap::{drain_cabsims, drain_resamplers, ActiveGraph};

fn make_rs(pw: u32, nam: u32) -> NamResampler {
    NamResampler { id: 1000 + pw as u64, host_rate: pw, nam_rate: nam }
}

fn make_payload(generation: u64, pw: u32, nam: u32) -> SwapPayload {
    SwapPayload::Resampler(ResamplerSwapPayload {
        generation,
        resampler: make_rs(pw, nam),
        stream: StreamingResampleBuffer { id: 2000 + pw as u64 },
    })
}

fn make_pair(partition: usize, rate: u32) -> CabSimPair {
    CabSimPair { id: 7, partition_size: partition, sample_rate: rate }
}

fn make_cabsim(generation: u64, pair: Option<CabSimPair>) -> SwapPayload {
    SwapPayload::CabSim(CabSimSwapPayload { generation, pair })
}

struct Drain {
    prod: rtrb::Producer<SwapPayload>,
    cons: rtrb::Consumer<SwapPayload>,
    graph: ActiveGraph,
    gc_p: rtrb::Producer<GcItem>,
    gc_c: rtrb::Consumer<GcItem>,
    parking_lot: ParkingLot,
    overflow: Vec<GcItem>,
    flags: RtStatusFlags,
    deferred: Option<SwapPayload>,
    structural_applied: usize,
}

impl Drain {
    fn new(gc_capacity: usize) -> Self {
        let (prod, cons) = rtrb::RingBuffer::new(4);
        let (gc_p, gc_c) = rtrb::RingBuffer::new(gc_capacity);
        Drain {
            prod,
            cons,
            graph: ActiveGraph {
                resampler: make_rs(48000, 48000),
                stream: StreamingResampleBuffer { id: 2 },
                cabsim: None,
                model_l: None,
                model_r: None,
                os_l: OversampleEngine { id: 3, factor: OversampleFactor::Off },
                os_r: OversampleEngine { id: 4, factor: OversampleFactor::Off },
            },
            gc_p,
            gc_c,
            parking_lot: ParkingLot::new(),
            overflow: Vec::new(),
            flags: RtStatusFlags::new(),
            deferred: None,
            structural_applied: 0,
        }
    }

    fn dispose(&mut self, mut retired: Vec<GcItem>) {
        dispose_all(&mut retired, &mut self.parking_lot, &mut self.gc_p, &mut self.overflow);
    }

    fn resamplers(&mut self) {
        let mut retired = Vec::new();
        drain_resamplers(
            &mut self.cons,
            &mut self.deferred,
            &mut self.structural_applied,
            &mut self.graph,
            &mut self.flags,
            &mut retired,
        );
        self.dispose(retired);
    }

    fn cabsims(&mut self) {
        let mut retired = Vec::new();
        drain_cabsims(
            &mut self.cons,
            &mut self.deferred,
            &mut self.structural_applied,
            &mut self.graph,
            &mut self.flags,
            &mut retired,
        );
        self.dispose(retired);
    }

    fn expect_retired_rate(&mut self, rate: u32) {
        match self.gc_c.pop().unwrap() {
            GcItem::ResamplerSwap(payload) => assert_eq!(payload.resampler.host_rate, rate),
            other => panic!("expected a resampler of {rate} Hz, got {other:?}"),
        }
    }
}

#[test]
fn empty_consumer_no_change() {
    let mut d = Drain::new(4);
    d.resamplers();
    assert_eq!(d.graph.resampler.host_rate, 48000);
    assert_eq!(d.graph.resampler.nam_rate, 48000);
    assert!(!d.parking_lot.dirty);
    assert!(d.gc_c.pop().is_err());
}

#[test]
fn single_swap_updates_active_and_clears_flag() {
    let mut d = Drain::new(4);
    d.flags.requested_rate_generation = 1;
    d.prod.push(make_payload(1, 44100, 48000)).unwrap();
    d.resamplers();

    assert_eq!(d.graph.resampler.host_rate, 44100);
    assert_eq!(d.graph.resampler.nam_rate, 48000);
    assert_eq!(d.flags.active_rate, 44100);
    assert_eq!(d.flags.active_rate_changed, 44100);
    assert_eq!(
        d.flags.applied_rate_generation, 1,
        "applied generation must be recorded on install"
    );
    assert!(!d.flags.check_flag(RT_STATUS_RESAMP_SWAP_PENDING));
    assert!(d.parking_lot.dirty);
    assert!(matches!(d.gc_c.pop().unwrap(), GcItem::ResamplerSwap(_)));
}

#[test]
fn multiple_swaps_keep_last() {
    let mut d = Drain::new(4);
    d.flags.requested_rate_generation = 2;
    d.prod.push(make_payload(1, 44100, 48000)).unwrap();
    d.prod.push(make_payload(2, 96000, 48000)).unwrap();
    d.resamplers();

    assert_eq!(d.graph.resampler.host_rate, 96000);
    assert_eq!(d.flags.active_rate, 96000);
    assert_eq!(d.flags.applied_rate_generation, 2);
    assert!(!d.flags.check_flag(RT_STATUS_RESAMP_SWAP_PENDING));
    assert!(d.parking_lot.dirty);

    d.expect_retired_rate(44100);
    d.expect_retired_rate(48000);
    assert!(d.gc_c.pop().is_err());
}

#[test]
fn swap_cascades_old_resampler_to_gc() {
    let mut d = Drain::new(4);
    d.flags.requested_rate_generation = 1;
    d.prod.push(make_payload(1, 44100, 48000)).unwrap();
    d.resamplers();
    d.expect_retired_rate(48000);
}

#[test]
fn stale_generation_is_gc_discarded_without_unmute() {
    let mut d = Drain::new(4);
    d.flags.requested_rate_generation = 1;
    d.flags.set_flag(RT_STATUS_RESAMP_SWAP_PENDING);
    d.prod.push(make_payload(1, 44100, 48000)).unwrap();
    d.flags.requested_rate_generation = 2;
    d.flags.set_flag(RT_STATUS_RESAMP_SWAP_PENDING);
    d.resamplers();

    assert_eq!(d.graph.resampler.host_rate, 48000, "stale A must not be installed");
    assert!(
        d.flags.check_flag(RT_STATUS_RESAMP_SWAP_PENDING),
        "stale A must not unmute the callback"
    );
    assert_eq!(d.flags.applied_rate_generation, 0);
    d.expect_retired_rate(44100);

    d.prod.push(make_payload(2, 96000, 48000)).unwrap();
    d.resamplers();

    assert_eq!(d.graph.resampler.host_rate, 96000, "matching B must be installed");
    assert_eq!(
        d.flags.applied_rate_generation, 2,
        "invariant: applied == requested before unmute"
    );
    assert!(!d.flags.check_flag(RT_STATUS_RESAMP_SWAP_PENDING));
    d.expect_retired_rate(48000);
}

#[test]
fn unversioned_payload_never_applied_when_request_exists() {
    let mut d = Drain::new(4);
    d.flags.requested_rate_generation = 3;
    d.flags.set_flag(RT_STATUS_RESAMP_SWAP_PENDING);
    d.prod.push(make_payload(0, 44100, 48000)).unwrap();
    d.resamplers();

    assert_eq!(d.graph.resampler.host_rate, 48000);
    assert!(d.flags.check_flag(RT_STATUS_RESAMP_SWAP_PENDING));
    assert_eq!(d.flags.applied_rate_generation, 0);
    d.expect_retired_rate(44100);
}

#[test]
fn budget_applies_one_and_coalesces_backlog() {
    let mut d = Drain::new(8);
    d.flags.requested_rate_generation = 1;
    d.flags.set_flag(RT_STATUS_RESAMP_SWAP_PENDING);
    d.prod.push(make_payload(1, 44100, 48000)).unwrap();
    d.prod.push(make_payload(1, 96000, 48000)).unwrap();
    d.prod.push(make_payload(1, 192000, 48000)).unwrap();
    d.resamplers();

    assert_eq!(d.graph.resampler.host_rate, 192000, "latest build must win");
    assert_eq!(d.flags.applied_rate_generation, 1, "applied generation recorded on install");
    assert_eq!(d.structural_applied, 1, "at most one structural swap per callback");
    assert!(d.deferred.is_none());
    assert!(d.cons.is_empty());
    assert!(
        !d.flags.check_flag(RT_STATUS_RESAMP_SWAP_PENDING),
        "the latest install unmutes exactly once"
    );
    assert!(d.flags.check_flag(RT_STATUS_STRUCTURAL_SUPERSEDED));

    let mut resamplers = 0usize;
    while let Ok(item) = d.gc_c.pop() {
        assert!(matches!(item, GcItem::ResamplerSwap(_)));
        resamplers += 1;
    }
    assert_eq!(resamplers, 3);
}

#[test]
fn budget_exhausted_parks_envelope_resolved_next_callback() {
    let mut d = Drain::new(8);
    d.flags.requested_rate_generation = 1;
    d.flags.set_flag(RT_STATUS_RESAMP_SWAP_PENDING);
    d.prod.push(make_payload(1, 44100, 48000)).unwrap();
    d.structural_applied = 1;
    d.resamplers();
    assert_eq!(d.graph.resampler.host_rate, 48000, "not installed out of budget");
    assert!(d.deferred.is_some(), "envelope must be parked");
    assert!(d.flags.check_flag(RT_STATUS_STRUCTURAL_DEFERRED));
    assert!(
        d.flags.check_flag(RT_STATUS_RESAMP_SWAP_PENDING),
        "callback stays muted until the parked envelope is applied"
    );

    d.structural_applied = 0;
    d.resamplers();
    assert_eq!(d.graph.resampler.host_rate, 44100);
    assert!(d.deferred.is_none());
    assert!(!d.flags.check_flag(RT_STATUS_RESAMP_SWAP_PENDING));
}

#[test]
fn empty_consumer_no_change_and_clean_lot() {
    let mut d = Drain::new(4);
    d.cabsims();
    assert!(d.graph.cabsim.is_none());
    assert!(!d.parking_lot.dirty);
    assert!(d.gc_c.pop().is_err());
}

#[test]
fn swap_clears_active_and_sets_dirty() {
    let mut d = Drain::new(4);
    d.graph.cabsim = Some(make_pair(64, 48000));
    let req_gen = d.flags.requested_cabsim_generation;
    d.prod.push(make_cabsim(req_gen, None)).unwrap();
    d.cabsims();

    assert!(d.graph.cabsim.is_none());
    assert_eq!(d.flags.applied_cabsim_generation, req_gen);
    assert!(d.parking_lot.dirty);
    assert!(matches!(d.gc_c.pop().unwrap(), GcItem::CabSimSwap(_)));
    assert!(d.gc_c.pop().is_err());
}

#[test]
fn swap_replaces_active_and_gcs_retired_pair() {
    let mut d = Drain::new(4);
    d.graph.cabsim = Some(make_pair(64, 48000));
    let req_gen = d.flags.requested_cabsim_generation;
    d.prod.push(make_cabsim(req_gen, Some(make_pair(64, 96000)))).unwrap();
    d.prod.push(make_cabsim(req_gen, Some(make_pair(128, 96000)))).unwrap();
    d.cabsims();

    let installed = d.graph.cabsim.expect("latest pair installed");
    assert_eq!(installed.sample_rate, 96000);
    assert_eq!(installed.partition_size, 128);
    assert_eq!(d.flags.applied_cabsim_generation, req_gen);
    assert!(d.parking_lot.dirty);
    assert!(matches!(d.gc_c.pop().unwrap(), GcItem::CabSimSwap(_)));
    assert!(matches!(d.gc_c.pop().unwrap(), GcItem::CabSimSwap(_)));
    assert!(d.gc_c.pop().is_err());
}

#[test]
fn stale_cabsim_payload_is_discarded_without_modifying_active() {
    let mut d = Drain::new(4);
    d.graph.cabsim = Some(make_pair(64, 48000));
    d.flags.requested_cabsim_generation = 2;
    d.flags.applied_cabsim_generation = 1;
    d.prod.push(make_cabsim(1, Some(make_pair(128, 96000)))).unwrap();
    d.cabsims();

    let installed = d.graph.cabsim.expect("initial pair retained");
    assert_eq!(installed.sample_rate, 48000);
    assert_eq!(installed.partition_size, 64);
    assert_eq!(d.flags.applied_cabsim_generation, 1);
    assert!(matches!(d.gc_c.pop().unwrap(), GcItem::CabSimSwap(_)));
}

#[test]
fn budget_applies_one_and_coalesces_backlog_latest_wins() {
    let mut d = Drain::new(8);
    d.graph.cabsim = Some(make_pair(64, 48000));
    let req_gen = d.flags.requested_cabsim_generation;
    d.prod.push(make_cabsim(req_gen, Some(make_pair(64, 96000)))).unwrap();
    d.prod.push(make_cabsim(req_gen, Some(make_pair(128, 96000)))).unwrap();
    d.prod.push(make_cabsim(req_gen, None)).unwrap();
    d.cabsims();

    assert!(
        d.graph.cabsim.is_none(),
        "the latest command (bypass) must win over the queued pairs"
    );
    assert_eq!(d.structural_applied, 1, "at most one structural swap per callback");
    assert!(d.deferred.is_none());
    assert!(d.cons.is_empty());
    assert!(d.flags.check_flag(RT_STATUS_STRUCTURAL_SUPERSEDED));

    let mut pairs = 0usize;
    while let Ok(item) = d.gc_c.pop() {
        assert!(matches!(item, GcItem::CabSimSwap(_)));
        pairs += 1;
    }
    assert_eq!(pairs, 3);
}

#[test]
fn budget_exhausted_parks_command_resolved_next_callback() {
    let mut d = Drain::new(8);
    d.graph.cabsim = Some(make_pair(64, 48000));
    let req_gen = d.flags.requested_cabsim_generation;
    d.prod.push(make_cabsim(req_gen, Some(make_pair(128, 96000)))).unwrap();
    d.structural_applied = 1;
    d.cabsims();
    assert_eq!(d.graph.cabsim.unwrap().partition_size, 64, "not installed");
    assert!(d.deferred.is_some(), "command must be parked");
    assert!(d.flags.check_flag(RT_STATUS_STRUCTURAL_DEFERRED));

    d.structural_applied = 0;
    d.cabsims();
    assert_eq!(d.graph.cabsim.unwrap().partition_size, 128);
    assert_eq!(d.graph.cabsim.unwrap().sample_rate, 96000);
    assert!(d.deferred.is_none());
}

#[test]
fn retired_objects_fill_the_lot_and_then_the_overflow() {
    let mut d = Drain::new(1);
    for generation in 1u64..=20 {
        d.flags.requested_rate_generation = generation;
        d.prod.push(make_payload(generation, 44100, 48000)).unwrap();
        d.structural_applied = 0;
        d.resamplers();
    }
    assert_eq!(d.parking_lot.slots.iter().filter(|slot| slot.is_some()).count(), 16);
    assert_eq!(d.overflow.len(), 3);
    let _ = d.gc_c.pop().unwrap();
    d.parking_lot.flush(&mut d.gc_p);
    assert!(d.parking_lot.dirty);
    assert_eq!(d.parking_lot.slots.iter().filter(|slot| slot.is_some()).count(), 15);
}

#[test]
fn a_drain_stops_at_its_ceiling() {
    let mut d = Drain::new(32);
    let (mut prod, cons) = rtrb::RingBuffer::new(32);
    d.cons = cons;
    d.flags.requested_rate_generation = 1;
    for rate in 1u32..=12 {
        prod.push(make_payload(1, rate, 48000)).unwrap();
    }
    d.resamplers();
    assert_eq!(d.graph.resampler.host_rate, 8);
    assert_eq!(d.cons.slots(), 4);
    assert!(d.flags.check_flag(RT_STATUS_SPSC_DRAIN_TRUNCATED));
}

#[test]
fn no_rate_change_no_flags() {
    let mut rate = 0u32;
    let mut flags = RtStatusFlags::new();
    let result = sync_rate(&mut rate, &make_rs(48000, 48000), 48000, &mut flags);
    assert_eq!(result, 48000);
    assert!(!flags.check_flag(RT_STATUS_NEEDS_RESAMPLER_REBUILD));
    assert!(!flags.check_flag(RT_STATUS_RESAMP_SWAP_PENDING));
}

#[test]
fn pw_rate_change_sets_flags() {
    let mut rate = 44100u32;
    let mut flags = RtStatusFlags::new();
    let result = sync_rate(&mut rate, &make_rs(48000, 48000), 48000, &mut flags);
    assert_eq!(result, 48000);
    assert!(flags.check_flag(RT_STATUS_NEEDS_RESAMPLER_REBUILD));
    assert!(flags.check_flag(RT_STATUS_RESAMP_SWAP_PENDING));
    assert_eq!(flags.requested_host_rate, 44100);
    assert_eq!(
        flags.requested_rate_generation, 1,
        "first rebuild request must publish generation 1"
    );
    assert_eq!(rate, 0);
}

#[test]
fn nam_rate_change_sets_flags() {
    let mut rate = 0u32;
    let mut flags = RtStatusFlags::new();
    let result = sync_rate(&mut rate, &make_rs(48000, 48000), 44100, &mut flags);
    assert_eq!(result, 48000);
    assert!(flags.check_flag(RT_STATUS_NEEDS_RESAMPLER_REBUILD));
    assert!(flags.check_flag(RT_STATUS_RESAMP_SWAP_PENDING));
}

#[test]
fn zero_detected_rate_ignored() {
    let mut rate = 0u32;
    let mut flags = RtStatusFlags::new();
    let result = sync_rate(&mut rate, &make_rs(48000, 44100), 44100, &mut flags);
    assert_eq!(result, 48000);
    assert!(!flags.check_flag(RT_STATUS_NEEDS_RESAMPLER_REBUILD));
}

#[test]
fn both_rates_unchanged_no_flags() {
    let mut rate = 48000u32;
    let mut flags = RtStatusFlags::new();
    let result = sync_rate(&mut rate, &make_rs(48000, 44100), 44100, &mut flags);
    assert_eq!(result, 48000);
    assert!(!flags.check_flag(RT_STATUS_NEEDS_RESAMPLER_REBUILD));
}

#[test]
fn rate_sync_returns_current_pw_rate() {
    let mut rate = 0u32;
    let mut flags = RtStatusFlags::new();
    let result = sync_rate(&mut rate, &make_rs(96000, 48000), 48000, &mut flags);
    assert_eq!(result, 96000);
}

#[test]
fn nam_rate_mismatch_with_zero_detected_pw_rate_sets_flags() {
    let mut rate = 0u32;
    let mut flags = RtStatusFlags::new();
    let result = sync_rate(&mut rate, &make_rs(48000, 44100), 48000, &mut flags);
    assert_eq!(result, 48000);
    assert!(flags.check_flag(RT_STATUS_NEEDS_RESAMPLER_REBUILD));
    assert!(flags.check_flag(RT_STATUS_RESAMP_SWAP_PENDING));
    assert_eq!(flags.requested_nam_rate, 48000);
}

#[test]
fn consecutive_renegotiations_increment_generation() {
    let rs = make_rs(48000, 48000);
    let mut flags = RtStatusFlags::new();

    let mut rate = 44100u32;
    sync_rate(&mut rate, &rs, 48000, &mut flags);
    assert_eq!(flags.requested_rate_generation, 1);

    rate = 96000;
    sync_rate(&mut rate, &rs, 48000, &mut flags);
    assert_eq!(flags.requested_rate_generation, 2);
    assert_eq!(flags.requested_host_rate, 96000);
    assert!(flags.check_flag(RT_STATUS_NEEDS_RESAMPLER_REBUILD));
    assert!(flags.check_flag(RT_STATUS_RESAMP_SWAP_PENDING));
}

#[test]
fn a_pending_swap_mutes_until_it_is_answered() {
    let mut flags = RtStatusFlags::new();
    assert!(resolve_pending_swap(&mut flags));
    flags.requested_rate_generation = 2;
    flags.set_flag(RT_STATUS_RESAMP_SWAP_PENDING);
    assert!(!resolve_pending_swap(&mut flags));
    flags.resampler_failed_generation = 1;
    assert!(!resolve_pending_swap(&mut flags));
    flags.resampler_failed_generation = 2;
    assert!(resolve_pending_swap(&mut flags));
    assert_eq!(flags.applied_rate_generation, 2);
    assert!(!flags.check_flag(RT_STATUS_RESAMP_SWAP_PENDING));
}

#[test]
fn a_parked_item_takes_the_first_free_slot_and_leaves_with_room() {
    let item = |rate: u32| match make_payload(0, rate, 48_000) {
        SwapPayload::Resampler(p) => GcItem::ResamplerSwap(p),
        _ => unreachable!(),
    };
    let mut lot = ParkingLot::new();
    assert_eq!(lot.park(item(1)), None);
    lot.slots[2] = Some(item(3));
    assert_eq!(lot.park(item(2)), None);
    assert_eq!(lot.slots[0..3], [Some(item(1)), Some(item(2)), Some(item(3))]);
    let (mut full, _reader) = rtrb::RingBuffer::new(1);
    lot.dirty = true;
    lot.flush(&mut full);
    assert!(lot.dirty);
    assert_eq!(lot.slots[0..3], [None, Some(item(2)), Some(item(3))]);
    let (mut ring, mut reader) = rtrb::RingBuffer::new(2);
    lot.flush(&mut ring);
    assert!(!lot.dirty);
    assert_eq!(reader.pop(), Ok(item(2)));
    assert_eq!(reader.pop(), Ok(item(3)));
    for rate in 0..16 {
        assert_eq!(lot.park(item(rate)), None);
    }
    assert_eq!(lot.park(item(99)), Some(item(99)));
}
