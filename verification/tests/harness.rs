use nam_audio_pipe::gate::GateConfig;
use nam_audio_pipe::harness::{RtSwapHarness, SPSC_CAPACITY, SWAP_CAPACITY};
use nam_audio_pipe::payload::{
    CabSimPair, GcItem, NamResampler, OversampleEngine, OversampleFactor, StaticModel,
    StreamingResampleBuffer,
};
use nam_audio_pipe::rt_status::{RT_STATUS_NEEDS_RESAMPLER_REBUILD, RT_STATUS_RESAMP_SWAP_PENDING};
use nam_audio_pipe::single::Single;

fn single(x: f32) -> Single {
    Single { bits: x.to_bits() }
}

fn model(id: u64, channels: usize) -> StaticModel {
    StaticModel { id, wavenet_dyn: true, channels, slimmable_capable: true }
}

fn engine(id: u64, factor: OversampleFactor) -> OversampleEngine {
    OversampleEngine { id, factor }
}

fn harness(host_rate: u32, nam_rate: u32) -> RtSwapHarness {
    RtSwapHarness::new(
        NamResampler { id: 1, host_rate, nam_rate },
        StreamingResampleBuffer { id: 2 },
        engine(3, OversampleFactor::Off),
        engine(4, OversampleFactor::Off),
        GateConfig::Off,
        (single(0.5), single(0.25)),
    )
}

#[test]
fn a_new_harness_processes_at_its_rates() {
    let mut h = harness(96_000, 44_100);
    assert_eq!(h.current_host_rate(), 96_000);
    assert_eq!(h.current_n_pw(), 0);
    assert_eq!(h.frame_count(), 0);
    assert!(!h.commands_pending());
    assert_eq!(h.gc_pending(), 0);
    let plan = h.run_callback(None);
    assert!(plan.process);
    assert_eq!(plan.host_rate, 96_000);
    assert!(!h.rt_status().check_flag(RT_STATUS_NEEDS_RESAMPLER_REBUILD));
    assert_eq!(h.rt_status().requested_rate_generation, 0);
    assert_eq!(h.input_gain_mult(), single(1.0));
    assert_eq!(h.output_gain_mult(), single(1.0));
}

#[test]
fn commands_reach_the_callback() {
    let mut h = harness(48_000, 48_000);
    assert!(h.push_input_gain(single(2.0)));
    assert!(h.push_output_gain(single(0.5)));
    let mut gate = GateConfig::default_on().params();
    gate.hold_frames = 7;
    assert!(h.push_gate(gate));
    assert!(h.push_load_model(Some(model(10, 16)), None, single(1.5), single(1.25), 48_000));
    assert!(h.commands_pending());
    let plan = h.run_callback(None);
    assert!(plan.param_changed);
    let controls = h.callback.state.controls;
    assert_eq!(controls.user_input_gain_mult, single(2.0));
    assert_eq!(controls.user_output_gain_mult, single(0.5));
    assert_eq!(controls.model_input_mult_adj, single(1.5));
    assert_eq!(controls.model_output_mult_adj, single(1.25));
    assert_eq!(controls.gate_params.hold_frames, 7);
    assert_eq!(h.active_model_l(), Some(model(10, 16)));
    assert_eq!(h.active_model_r(), None);
    assert!(!h.commands_pending());
}

#[test]
fn a_published_rate_mutes_until_its_resampler_arrives() {
    let mut h = harness(48_000, 48_000);
    h.publish_host_rate(44_100);
    assert!(!h.run_callback(None).process);
    assert!(h.rt_status().check_flag(RT_STATUS_RESAMP_SWAP_PENDING));
    let built = NamResampler { id: 20, host_rate: 44_100, nam_rate: 48_000 };
    assert!(h.request_resampler_swap(built, StreamingResampleBuffer { id: 21 }));
    let plan = h.run_callback(None);
    assert!(plan.process);
    assert_eq!(plan.host_rate, 44_100);
    assert_eq!(h.current_host_rate(), 44_100);
    assert_eq!(h.gc_pending(), 1);
    assert_eq!(h.gc_in_flight(), 1);
    let freed = h.consume_gc();
    assert_eq!(freed.len(), 1);
    assert!(matches!(freed[0], GcItem::ResamplerSwap(p) if p.resampler.id == 1 && p.stream.id == 2));
    assert_eq!(h.gc_in_flight(), 0);
    assert!(h.consume_gc().is_empty());

    h.set_nam_rate(32_000);
    assert!(!h.run_callback(None).process);
    assert_eq!(h.rt_status().requested_nam_rate, 32_000);
}

#[test]
fn structural_swaps_are_taken_up_one_per_callback() {
    let mut h = harness(48_000, 48_000);
    let pair = CabSimPair { id: 30, partition_size: 64, sample_rate: 48_000 };
    assert!(h.push_cabsim(Some(pair)));
    assert!(h.push_slimmable(0, 8, model(31, 8), Some(model(32, 8))));
    assert!(h.push_os_pair(engine(33, OversampleFactor::X2), engine(34, OversampleFactor::X2)));
    let mut callbacks = 0;
    let mut applied = 0;
    while h.commands_pending() {
        let plan = h.run_callback(None);
        assert!(plan.structural_applied <= 1);
        applied += plan.structural_applied;
        let _ = h.consume_gc();
        callbacks += 1;
        if callbacks == 1 {
            assert_eq!(h.active_cabsim(), Some(pair));
        }
        assert!(callbacks <= 5);
    }
    assert!(callbacks >= 3);
    assert_eq!(applied, 3);
    assert_eq!(h.active_model_l(), Some(model(31, 8)));
    assert_eq!(h.active_model_r(), Some(model(32, 8)));
    assert_eq!(h.callback.state.graph.os_l.id, 33);
    assert_eq!(h.callback.state.graph.os_r.id, 34);
}

#[test]
fn a_stale_cabsim_never_runs_and_no_pair_turns_it_off() {
    let mut h = harness(48_000, 48_000);
    let pair = CabSimPair { id: 40, partition_size: 64, sample_rate: 48_000 };
    h.callback.rt_status.requested_cabsim_generation = 2;
    assert!(h.push_cabsim_with_gen(1, Some(pair)));
    let _ = h.run_callback(None);
    assert_eq!(h.active_cabsim(), None);
    assert!(h.push_cabsim(Some(pair)));
    let _ = h.run_callback(None);
    assert_eq!(h.active_cabsim(), Some(pair));
    assert!(h.push_cabsim(None));
    let _ = h.run_callback(None);
    assert_eq!(h.active_cabsim(), None);
}

#[test]
fn a_full_ring_refuses() {
    let mut h = harness(48_000, 48_000);
    for _ in 0..SPSC_CAPACITY {
        assert!(h.push_input_gain(single(1.0)));
    }
    assert!(!h.push_input_gain(single(1.0)));
    for _ in 0..SWAP_CAPACITY {
        assert!(h.push_cabsim(None));
    }
    assert!(!h.push_cabsim(None));
}

#[test]
fn parked_items_count_once() {
    let mut h = harness(48_000, 48_000);
    h.callback.parking_lot.slots[3] = Some(GcItem::Model(model(50, 4)));
    h.callback.parking_lot.slots[9] = Some(GcItem::Model(model(51, 4)));
    h.callback.parking_lot.dirty = true;
    assert_eq!(h.gc_pending(), 2);
    assert_eq!(h.gc_in_flight(), 2);
    assert!(h.commands_pending());
    let _ = h.run_callback(None);
    assert!(!h.callback.parking_lot.dirty);
    assert_eq!(h.gc_in_flight(), 2);
    let ids: Vec<u64> = h
        .consume_gc()
        .iter()
        .map(|item| match item {
            GcItem::Model(m) => m.id,
            _ => 0,
        })
        .collect();
    assert_eq!(ids, vec![50, 51]);
}
