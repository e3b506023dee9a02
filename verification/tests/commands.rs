use nam_audio_pipe::capture::{
    CaptureCallback, CaptureState, GainUpdate, RtHostChannels, MAX_RESAMP_BUF,
};
use nam_audio_pipe::commands::{
    receive_commands, try_slimmable_rebuild, Controls, WavenetInfo, MAX_PARAM_BUDGET,
};
use nam_audio_pipe::gate::GateConfig;
use nam_audio_pipe::gc::{dispose_all, ParkingLot};
use nam_audio_pipe::payload::{
    CabSimSwapPayload, GcItem, LoadModel, NamResampler, OsEnginePair, OversampleEngine,
    OversampleFactor, ParamPayload, ResamplerSwapPayload, SlimModelPair, SlimOverride,
    StaticModel, StreamingResampleBuffer, SwapPayload,
};
use nam_audio_pipe::rt_status::{
    RtStatusFlags, RT_STATUS_NEEDS_OS_REBUILD, RT_STATUS_NEEDS_RESAMPLER_REBUILD,
    RT_STATUS_NEEDS_SLIMMABLE_REBUILD, RT_STATUS_PARAM_QUEUE_BACKLOG,
    RT_STATUS_RESAMP_SWAP_PENDING, RT_STATUS_STRUCTURAL_DEFERRED,
    RT_STATUS_STRUCTURAL_SUPERSEDED,
};
use nam_audio_pipe::single::Single;
use nam_audio_pipe::swap::{
    drain_cabsims, drain_os_engines, drain_resamplers, drain_slimmable_models, ActiveGraph,
    STRUCTURAL_SWAPS_PER_CALLBACK,
};

fn single(x: f32) -> Single {
    Single { bits: x.to_bits() }
}

fn fake_wavenet(ch: usize) -> StaticModel {
    StaticModel { id: ch as u64, wavenet_dyn: true, channels: ch, slimmable_capable: true }
}

fn make_pair(generation: u64, ch: usize, stereo: bool) -> SwapPayload {
    SwapPayload::Slimmable(SlimModelPair {
        generation,
        channels: ch,
        l: Some(fake_wavenet(ch)),
        r: if stereo { Some(fake_wavenet(ch)) } else { None },
    })
}

fn make_engines(generation: u64, factor: OversampleFactor) -> SwapPayload {
    SwapPayload::Oversample(OsEnginePair {
        generation,
        l: OversampleEngine { id: 50, factor },
        r: OversampleEngine { id: 51, factor },
    })
}

fn make_resampler(generation: u64, pw: u32, nam: u32) -> SwapPayload {
    SwapPayload::Resampler(ResamplerSwapPayload {
        generation,
        resampler: NamResampler { id: 60, host_rate: pw, nam_rate: nam },
        stream: StreamingResampleBuffer { id: 61 },
    })
}

fn load_model_payload(model_l: Option<StaticModel>, model_r: Option<StaticModel>) -> ParamPayload {
    ParamPayload::LoadModel(LoadModel {
        model_l,
        model_r,
        input_mult_adj: single(1.0),
        output_mult_adj: single(1.0),
        sample_rate: 48_000,
    })
}

fn initial_state() -> CaptureState {
    CaptureState::init(
        NamResampler { id: 1, host_rate: 48000, nam_rate: 48000 },
        StreamingResampleBuffer { id: 2 },
        OversampleEngine { id: 3, factor: OversampleFactor::Off },
        OversampleEngine { id: 4, factor: OversampleFactor::Off },
        GateConfig::default_on(),
        (single(0.5), single(0.25)),
    )
}

struct Host {
    graph: ActiveGraph,
    controls: Controls,
    gc_p: rtrb::Producer<GcItem>,
    gc_c: rtrb::Consumer<GcItem>,
    parking_lot: ParkingLot,
    overflow: Vec<GcItem>,
    flags: RtStatusFlags,
    deferred: Option<SwapPayload>,
    deferred_model: Option<LoadModel>,
    structural_applied: usize,
}

impl Host {
    fn new(gc_capacity: usize) -> Self {
        let state = initial_state();
        let (gc_p, gc_c) = rtrb::RingBuffer::new(gc_capacity);
        Host {
            graph: state.graph,
            controls: state.controls,
            gc_p,
            gc_c,
            parking_lot: ParkingLot::new(),
            overflow: Vec::new(),
            flags: RtStatusFlags::new(),
            deferred: None,
            deferred_model: None,
            structural_applied: 0,
        }
    }

    fn with_models(gc_capacity: usize, l: usize, r: usize) -> Self {
        let mut host = Host::new(gc_capacity);
        host.graph.model_l = Some(fake_wavenet(l));
        host.graph.model_r = Some(fake_wavenet(r));
        host
    }

    fn dispose(&mut self, mut retired: Vec<GcItem>) {
        dispose_all(&mut retired, &mut self.parking_lot, &mut self.gc_p, &mut self.overflow);
    }

    fn slimmables(&mut self, rx: &mut Option<rtrb::Consumer<SwapPayload>>) {
        let mut retired = Vec::new();
        drain_slimmable_models(
            rx,
            &mut self.deferred,
            &mut self.structural_applied,
            &mut self.graph,
            &mut self.flags,
            &mut retired,
        );
        self.dispose(retired);
    }

    fn engines(&mut self, rx: &mut Option<rtrb::Consumer<SwapPayload>>) {
        let mut retired = Vec::new();
        drain_os_engines(
            rx,
            &mut self.deferred,
            &mut self.structural_applied,
            &mut self.graph,
            &mut self.flags,
            &mut retired,
        );
        self.dispose(retired);
    }

    fn commands(&mut self, consumer: &mut rtrb::Consumer<ParamPayload>) -> (bool, usize) {
        let mut retired = Vec::new();
        let r = receive_commands(
            consumer,
            &mut self.deferred_model,
            &mut self.structural_applied,
            &mut self.graph,
            &mut self.controls,
            &mut self.flags,
            &mut retired,
        );
        self.dispose(retired);
        r
    }

    fn channels(&self) -> (usize, usize) {
        (self.graph.model_l.unwrap().channels, self.graph.model_r.unwrap().channels)
    }

    fn factors(&self) -> (OversampleFactor, OversampleFactor) {
        (self.graph.os_l.factor, self.graph.os_r.factor)
    }

    fn retired_pair(&mut self) -> SlimModelPair {
        match self.gc_c.pop().unwrap() {
            GcItem::SlimModelPair(p) => p,
            other => panic!("expected a model pair, got {other:?}"),
        }
    }

    fn count_retired_engines(&mut self) -> usize {
        let mut envelopes = 0usize;
        while let Ok(item) = self.gc_c.pop() {
            assert!(matches!(item, GcItem::OsEnginePair(_)));
            envelopes += 1;
        }
        envelopes
    }
}

#[test]
fn drain_slimmable_empty_no_change() {
    let mut host = Host::new(4);
    let mut rx = None;
    host.slimmables(&mut rx);
    assert!(!host.parking_lot.dirty);
    assert!(host.gc_c.pop().is_err());
}

#[test]
fn drain_os_engines_swaps_and_sets_dirty() {
    let (mut prod, cons) = rtrb::RingBuffer::new(4);
    let mut rx = Some(cons);
    let mut host = Host::new(4);
    prod.push(make_engines(0, OversampleFactor::X2)).unwrap();
    host.engines(&mut rx);

    assert!(host.parking_lot.dirty);
    assert!(matches!(host.gc_c.pop().unwrap(), GcItem::OsEnginePair(_)));
    assert!(host.gc_c.pop().is_err());
}

#[test]
fn drain_slimmable_pair_swaps_both_atomically() {
    let (mut prod, cons) = rtrb::RingBuffer::new(4);
    let mut rx = Some(cons);
    let mut host = Host::with_models(8, 4, 4);
    host.flags.requested_slimmable_generation = 1;
    prod.push(make_pair(1, 8, true)).unwrap();
    host.slimmables(&mut rx);

    assert!(host.parking_lot.dirty);
    assert_eq!(host.channels(), (8, 8));
    let old = host.retired_pair();
    assert_eq!((old.l.unwrap().channels, old.r.unwrap().channels), (4, 4));
    assert!(host.gc_c.pop().is_err());
}

#[test]
fn drain_slimmable_mono_pair_leaves_r_untouched() {
    let (mut prod, cons) = rtrb::RingBuffer::new(4);
    let mut rx = Some(cons);
    let mut host = Host::with_models(8, 4, 8);
    host.flags.requested_slimmable_generation = 1;
    prod.push(make_pair(1, 8, false)).unwrap();
    host.slimmables(&mut rx);

    assert_eq!(host.graph.model_l.unwrap().channels, 8);
    assert_eq!(
        host.graph.model_r.unwrap().channels,
        8,
        "mono pair must leave the active R model untouched"
    );
    let old = host.retired_pair();
    assert_eq!(old.l.unwrap().channels, 4);
    assert!(old.r.is_none());
    assert!(host.gc_c.pop().is_err());
}

#[test]
fn drain_slimmable_discards_stale_pair_latest_wins() {
    let (mut prod, cons) = rtrb::RingBuffer::new(4);
    let mut rx = Some(cons);
    let mut host = Host::with_models(8, 4, 4);
    prod.push(make_pair(1, 8, true)).unwrap();
    host.flags.requested_slimmable_generation = 2;
    prod.push(make_pair(2, 4, true)).unwrap();
    host.slimmables(&mut rx);

    let stale = host.retired_pair();
    assert_eq!(
        (stale.l.unwrap().channels, stale.r.unwrap().channels),
        (8, 8),
        "stale pair must be discarded whole"
    );
    assert_eq!(host.channels(), (4, 4));
}

#[test]
fn alternating_pairs_never_desync_the_channels() {
    let (mut prod, cons) = rtrb::RingBuffer::new(8);
    let mut rx = Some(cons);
    let mut host = Host::with_models(4096, 4, 4);
    for round in 0usize..100 {
        for k in 0usize..(round % 7 + 1) {
            let ch = if (round + k) % 2 == 0 { 8 } else { 4 };
            let _ = prod.push(make_pair(0, ch, true));
        }
        host.structural_applied = round % 2;
        host.slimmables(&mut rx);
        let (l, r) = host.channels();
        assert_eq!(l, r, "flood desynchronized active L/R channels");
    }
}

#[test]
fn receive_commands_param_budget_bounds_pops_and_flags_backlog() {
    let (mut prod, mut cons) = rtrb::RingBuffer::new(64);
    let mut host = Host::new(64);
    for i in 0..40u32 {
        prod.push(ParamPayload::InputGain(single(0.1 + i as f32 * 0.01))).unwrap();
    }
    host.commands(&mut cons);

    assert_eq!(host.controls.user_input_gain_mult, single(0.1 + 15.0 * 0.01));
    assert_eq!(cons.slots(), 24, "the remaining commands stay queued");
    assert!(
        host.flags.check_flag(RT_STATUS_PARAM_QUEUE_BACKLOG),
        "backlog flag must be raised when the budget is exhausted"
    );
    assert_eq!(host.structural_applied, 0);

    host.flags.clear_flag(RT_STATUS_PARAM_QUEUE_BACKLOG);
    host.commands(&mut cons);
    assert_eq!(cons.slots(), 8);

    host.flags.clear_flag(RT_STATUS_PARAM_QUEUE_BACKLOG);
    host.commands(&mut cons);
    assert!(cons.is_empty(), "all commands eventually consumed");
    assert!(
        !host.flags.check_flag(RT_STATUS_PARAM_QUEUE_BACKLOG),
        "an empty channel must not raise the backlog flag"
    );
}

#[test]
fn receive_commands_scalar_latest_wins() {
    let (mut prod, mut cons) = rtrb::RingBuffer::new(8);
    let mut host = Host::new(64);
    prod.push(ParamPayload::InputGain(single(0.5))).unwrap();
    prod.push(ParamPayload::OutputGain(single(0.7))).unwrap();
    prod.push(ParamPayload::SlimOverride(SlimOverride::ForceFull)).unwrap();
    prod.push(ParamPayload::InputGain(single(0.9))).unwrap();
    prod.push(ParamPayload::OutputGain(single(1.3))).unwrap();
    prod.push(ParamPayload::SlimOverride(SlimOverride::ForceLite)).unwrap();
    let (changed, pops) = host.commands(&mut cons);

    assert!(changed);
    assert_eq!(pops, 6);
    assert_eq!(host.controls.user_input_gain_mult, single(0.9));
    assert_eq!(host.controls.user_output_gain_mult, single(1.3));
    assert_eq!(host.controls.slim_override, SlimOverride::ForceLite);
    assert!(!host.flags.check_flag(RT_STATUS_PARAM_QUEUE_BACKLOG));
    assert!(cons.is_empty());
}

#[test]
fn receive_commands_load_model_coalesces_obsolete_to_gc() {
    let (mut prod, mut cons) = rtrb::RingBuffer::new(8);
    let mut host = Host::new(64);
    prod.push(load_model_payload(Some(fake_wavenet(4)), None)).unwrap();
    prod.push(load_model_payload(Some(fake_wavenet(8)), None)).unwrap();
    prod.push(load_model_payload(Some(fake_wavenet(16)), None)).unwrap();
    host.commands(&mut cons);

    assert_eq!(host.graph.model_l.unwrap().channels, 16, "latest LoadModel must win");
    assert_eq!(host.structural_applied, 1, "one structural apply per callback");
    assert!(host.deferred_model.is_none());
    assert!(cons.is_empty());
    assert!(
        host.flags.check_flag(RT_STATUS_STRUCTURAL_SUPERSEDED),
        "obsolete intermediate models must be flagged superseded"
    );
    assert_eq!(host.gc_c.pop().unwrap(), GcItem::Model(fake_wavenet(4)));
    assert_eq!(host.gc_c.pop().unwrap(), GcItem::Model(fake_wavenet(8)));
    assert!(host.gc_c.pop().is_err());
}

#[test]
fn receive_commands_load_model_parked_when_budget_exhausted() {
    let (mut prod, mut cons) = rtrb::RingBuffer::new(8);
    let mut host = Host::new(64);
    host.structural_applied = 1;
    prod.push(load_model_payload(Some(fake_wavenet(8)), None)).unwrap();
    host.commands(&mut cons);

    assert!(host.graph.model_l.is_none(), "must not apply out of budget");
    assert!(host.deferred_model.is_some(), "the model must be parked for the next callback");
    assert!(host.flags.check_flag(RT_STATUS_STRUCTURAL_DEFERRED));
    assert!(cons.is_empty());
}

#[test]
fn receive_commands_deferred_model_resolved_next_callback() {
    let (mut prod, mut cons) = rtrb::RingBuffer::new(8);
    let mut host = Host::new(64);
    host.structural_applied = 1;
    prod.push(load_model_payload(Some(fake_wavenet(8)), None)).unwrap();
    host.commands(&mut cons);
    assert!(host.deferred_model.is_some());

    host.structural_applied = 0;
    host.commands(&mut cons);
    assert_eq!(host.graph.model_l.unwrap().channels, 8);
    assert!(host.deferred_model.is_none());
}

#[test]
fn receive_commands_deferred_model_superseded_by_queued() {
    let (mut prod, mut cons) = rtrb::RingBuffer::new(8);
    let mut host = Host::new(64);
    host.structural_applied = 1;
    prod.push(load_model_payload(Some(fake_wavenet(8)), None)).unwrap();
    host.commands(&mut cons);
    assert!(host.deferred_model.is_some());

    prod.push(load_model_payload(Some(fake_wavenet(4)), None)).unwrap();
    host.structural_applied = 0;
    host.commands(&mut cons);
    assert_eq!(
        host.graph.model_l.unwrap().channels,
        4,
        "the queued latest model must win"
    );
    assert!(host.deferred_model.is_none());
    assert!(host.flags.check_flag(RT_STATUS_STRUCTURAL_SUPERSEDED));
    assert!(host.flags.check_flag(RT_STATUS_STRUCTURAL_DEFERRED));
}

#[test]
fn a_crowded_ring_never_exceeds_the_budget() {
    let (mut prod, mut cons) = rtrb::RingBuffer::new(64);
    let mut host = Host::new(64);
    for i in 0u32..200 {
        while prod.push(ParamPayload::InputGain(single(0.5 + i as f32 * 0.001))).is_ok() {}
        host.structural_applied = 0;
        let (_, pops) = host.commands(&mut cons);
        assert_eq!(pops, MAX_PARAM_BUDGET);
    }
}

#[test]
fn a_loaded_model_brings_its_settings_and_an_empty_load_takes_them_back() {
    let (mut prod, mut cons) = rtrb::RingBuffer::new(8);
    let mut host = Host::new(64);
    prod.push(ParamPayload::LoadModel(LoadModel {
        model_l: Some(fake_wavenet(16)),
        model_r: None,
        input_mult_adj: single(2.0),
        output_mult_adj: single(0.5),
        sample_rate: 44_100,
    }))
    .unwrap();
    let (changed, _) = host.commands(&mut cons);
    assert!(changed);
    assert_eq!(host.controls.model_input_mult_adj, single(2.0));
    assert_eq!(host.controls.model_output_mult_adj, single(0.5));
    assert_eq!(host.controls.current_nam_rate, 44_100);
    assert_eq!(
        host.controls.wavenet_full,
        Some(WavenetInfo { channels: 16, slimmable_capable: true })
    );
    prod.push(load_model_payload(None, None)).unwrap();
    host.structural_applied = 0;
    host.commands(&mut cons);
    assert_eq!(host.controls.model_input_mult_adj, single(1.0));
    assert_eq!(host.controls.current_nam_rate, 48_000);
    assert_eq!(host.gc_c.pop().unwrap(), GcItem::Model(fake_wavenet(16)));
}

#[test]
fn a_gate_command_makes_the_thresholds_stale_until_they_are_computed() {
    let (mut prod, mut cons) = rtrb::RingBuffer::new(8);
    let mut host = Host::new(64);
    let params = GateConfig::from_open_db(single(-50.0), single(-60.0)).params();
    assert!(!host.controls.thresholds_stale);
    prod.push(ParamPayload::GateConfig(params)).unwrap();
    let (changed, _) = host.commands(&mut cons);
    assert!(!changed);
    assert_eq!(host.controls.gate_params, params);
    assert!(host.controls.thresholds_stale);
    let mut state = initial_state();
    state.controls = host.controls;
    state.set_thresholds((single(0.1), single(0.01)));
    assert!(!state.controls.thresholds_stale);
    assert_eq!((state.threshold_open_sq, state.threshold_close_sq), (single(0.1), single(0.01)));
    state.set_gains(GainUpdate { input_gain_mult: single(2.0), output_gain_mult: single(3.0) });
    assert_eq!((state.input_gain_mult, state.output_gain_mult), (single(2.0), single(3.0)));
    state.set_ir(44100);
    assert!(state.has_ir);
    assert_eq!(state.ir_source_rate, 44100);
}

#[test]
fn an_oversampling_command_publishes_a_request() {
    let (mut prod, mut cons) = rtrb::RingBuffer::new(8);
    let mut host = Host::new(64);
    prod.push(ParamPayload::SetOversample(OversampleFactor::X4)).unwrap();
    host.commands(&mut cons);
    assert_eq!(host.flags.requested_os_factor, 2);
    assert_eq!(host.flags.requested_os_generation, 1);
    assert!(host.flags.check_flag(RT_STATUS_NEEDS_OS_REBUILD));
}

#[test]
fn the_adaptive_engine_publishes_its_wish() {
    let mut flags = RtStatusFlags::new();
    try_slimmable_rebuild(None, &mut flags);
    assert_eq!(flags, RtStatusFlags::new());
    try_slimmable_rebuild(Some(8), &mut flags);
    assert_eq!(flags.requested_slimmable_ch, 8);
    assert_eq!(flags.requested_slimmable_generation, 1);
    assert!(flags.check_flag(RT_STATUS_NEEDS_SLIMMABLE_REBUILD));
}

#[test]
fn drain_slimmable_budget_applies_one_and_coalesces_backlog() {
    let (mut prod, cons) = rtrb::RingBuffer::new(4);
    let mut rx = Some(cons);
    let mut host = Host::with_models(64, 4, 4);
    host.flags.requested_slimmable_generation = 1;
    prod.push(make_pair(1, 8, true)).unwrap();
    prod.push(make_pair(1, 4, true)).unwrap();
    prod.push(make_pair(1, 16, true)).unwrap();
    host.slimmables(&mut rx);

    assert_eq!(host.channels(), (16, 16));
    assert_eq!(host.structural_applied, 1, "at most one structural swap per callback");
    assert!(host.deferred.is_none());
    assert!(rx.as_ref().unwrap().is_empty());
    assert!(host.flags.check_flag(RT_STATUS_STRUCTURAL_SUPERSEDED));

    let mut envelopes = 0usize;
    while let Ok(item) = host.gc_c.pop() {
        assert!(matches!(item, GcItem::SlimModelPair(_)));
        envelopes += 1;
    }
    assert_eq!(envelopes, 3);
}

#[test]
fn drain_slimmable_parked_when_budget_exhausted_resolved_next_callback() {
    let (mut prod, cons) = rtrb::RingBuffer::new(4);
    let mut rx = Some(cons);
    let mut host = Host::with_models(16, 4, 4);
    host.flags.requested_slimmable_generation = 1;
    prod.push(make_pair(1, 8, true)).unwrap();
    host.structural_applied = 1;
    host.slimmables(&mut rx);
    assert_eq!(host.graph.model_l.unwrap().channels, 4, "not installed");
    assert!(host.deferred.is_some(), "pair must be parked");
    assert!(host.flags.check_flag(RT_STATUS_STRUCTURAL_DEFERRED));

    host.structural_applied = 0;
    host.slimmables(&mut rx);
    assert_eq!(host.channels(), (8, 8));
    assert!(host.deferred.is_none());
}

#[test]
fn drain_os_budget_applies_one_and_coalesces_backlog() {
    let (mut prod, cons) = rtrb::RingBuffer::new(4);
    let mut rx = Some(cons);
    let mut host = Host::new(64);
    prod.push(make_engines(0, OversampleFactor::X2)).unwrap();
    prod.push(make_engines(0, OversampleFactor::X4)).unwrap();
    host.engines(&mut rx);

    assert_eq!(host.factors(), (OversampleFactor::X4, OversampleFactor::X4));
    assert_eq!(host.structural_applied, 1);
    assert!(host.deferred.is_none());
    assert!(rx.as_ref().unwrap().is_empty());
    assert!(host.flags.check_flag(RT_STATUS_STRUCTURAL_SUPERSEDED));
    assert_eq!(host.count_retired_engines(), 2);
}

#[test]
fn drain_os_parked_when_budget_exhausted_resolved_next_callback() {
    let (mut prod, cons) = rtrb::RingBuffer::new(4);
    let mut rx = Some(cons);
    let mut host = Host::new(16);
    prod.push(make_engines(0, OversampleFactor::X2)).unwrap();
    host.structural_applied = 1;
    host.engines(&mut rx);
    assert_eq!(host.graph.os_l.factor, OversampleFactor::Off, "not installed");
    assert!(host.deferred.is_some());
    assert!(host.flags.check_flag(RT_STATUS_STRUCTURAL_DEFERRED));

    host.structural_applied = 0;
    host.engines(&mut rx);
    assert_eq!(host.factors(), (OversampleFactor::X2, OversampleFactor::X2));
    assert!(host.deferred.is_none());
}

#[test]
fn drain_os_discards_stale_pair_latest_wins() {
    let (mut prod, cons) = rtrb::RingBuffer::new(4);
    let mut rx = Some(cons);
    let mut host = Host::new(16);
    prod.push(make_engines(1, OversampleFactor::X2)).unwrap();
    prod.push(make_engines(2, OversampleFactor::X4)).unwrap();
    host.flags.requested_os_generation = 2;
    host.engines(&mut rx);

    assert_eq!(host.factors(), (OversampleFactor::X4, OversampleFactor::X4));
    assert_eq!(host.flags.applied_os_generation, 2);
    assert_eq!(host.structural_applied, 1);
    assert!(host.deferred.is_none());
    assert_eq!(host.count_retired_engines(), 2);
}

#[test]
fn drain_os_interleaving_off_2x_4x() {
    let (mut prod, cons) = rtrb::RingBuffer::new(8);
    let mut rx = Some(cons);
    let mut host = Host::new(32);
    host.flags.requested_os_generation = 2;
    host.flags.requested_os_factor = 2;
    prod.push(make_engines(1, OversampleFactor::X2)).unwrap();
    prod.push(make_engines(2, OversampleFactor::X4)).unwrap();
    host.engines(&mut rx);

    assert_eq!(host.factors(), (OversampleFactor::X4, OversampleFactor::X4));
    assert_eq!(host.flags.applied_os_generation, 2);
    let mut gc_count = 0usize;
    while host.gc_c.pop().is_ok() {
        gc_count += 1;
    }
    assert_eq!(gc_count, 2);
}

#[test]
fn composite_structural_saturation_bound_measurement() {
    let iterations = 2_000usize;
    let mut max_pops = 0usize;
    let mut total_installed = 0usize;

    let (mut resamp_prod, mut resamp_cons) = rtrb::RingBuffer::new(8);
    let (mut cabsim_prod, mut cabsim_cons) = rtrb::RingBuffer::new(8);
    let (mut param_prod, mut param_cons) = rtrb::RingBuffer::new(32);
    let (mut slim_prod, slim_cons) = rtrb::RingBuffer::new(8);
    let mut slim_rx = Some(slim_cons);
    let (mut os_prod, os_cons) = rtrb::RingBuffer::new(8);
    let mut os_rx = Some(os_cons);

    let mut host = Host::with_models(4096, 4, 4);
    let mut deferred_resampler = None;
    let mut deferred_cabsim = None;
    let mut deferred_slimmable = None;
    let mut deferred_os = None;

    for iter in 0..iterations {
        while host.gc_c.pop().is_ok() {}
        let generation_num = (iter as u64) + 1;
        host.flags.requested_rate_generation = generation_num;
        host.flags.requested_cabsim_generation = generation_num;
        host.flags.requested_slimmable_generation = generation_num;
        host.flags.requested_os_generation = generation_num;

        for _ in 0..4 {
            let _ = resamp_prod.push(make_resampler(generation_num, 48000, 48000));
            let _ = cabsim_prod.push(SwapPayload::CabSim(CabSimSwapPayload {
                generation: generation_num,
                pair: None,
            }));
        }
        for i in 0..8 {
            let _ = param_prod.push(ParamPayload::InputGain(single(0.5 + (i as f32) * 0.05)));
            let _ = param_prod.push(ParamPayload::OutputGain(single(1.0 + (i as f32) * 0.05)));
        }
        let _ = param_prod.push(load_model_payload(Some(fake_wavenet(8)), None));
        for _ in 0..4 {
            let _ = slim_prod.push(make_pair(generation_num, 8, true));
            let _ = os_prod.push(make_engines(generation_num, OversampleFactor::X2));
        }

        host.parking_lot.flush(&mut host.gc_p);
        host.structural_applied = 0;
        let queued = resamp_cons.slots()
            + cabsim_cons.slots()
            + param_cons.slots()
            + slim_rx.as_ref().map(|c| c.slots()).unwrap_or(0)
            + os_rx.as_ref().map(|c| c.slots()).unwrap_or(0);

        let mut retired = Vec::new();
        drain_resamplers(
            &mut resamp_cons,
            &mut deferred_resampler,
            &mut host.structural_applied,
            &mut host.graph,
            &mut host.flags,
            &mut retired,
        );
        drain_cabsims(
            &mut cabsim_cons,
            &mut deferred_cabsim,
            &mut host.structural_applied,
            &mut host.graph,
            &mut host.flags,
            &mut retired,
        );
        receive_commands(
            &mut param_cons,
            &mut host.deferred_model,
            &mut host.structural_applied,
            &mut host.graph,
            &mut host.controls,
            &mut host.flags,
            &mut retired,
        );
        try_slimmable_rebuild(None, &mut host.flags);
        drain_slimmable_models(
            &mut slim_rx,
            &mut deferred_slimmable,
            &mut host.structural_applied,
            &mut host.graph,
            &mut host.flags,
            &mut retired,
        );
        drain_os_engines(
            &mut os_rx,
            &mut deferred_os,
            &mut host.structural_applied,
            &mut host.graph,
            &mut host.flags,
            &mut retired,
        );
        host.dispose(retired);

        let left = resamp_cons.slots()
            + cabsim_cons.slots()
            + param_cons.slots()
            + slim_rx.as_ref().map(|c| c.slots()).unwrap_or(0)
            + os_rx.as_ref().map(|c| c.slots()).unwrap_or(0);
        let callback_pops = queued - left;
        if callback_pops > max_pops {
            max_pops = callback_pops;
        }
        assert!(host.structural_applied <= STRUCTURAL_SWAPS_PER_CALLBACK);
        assert!(
            callback_pops <= 48,
            "composite pops {callback_pops} exceeded theoretical bound of 48"
        );
        if host.structural_applied > 0 {
            total_installed += 1;
        }
    }

    assert!(max_pops <= 48, "nominal ceiling of ~48 pops violated: max={max_pops}");
    assert!(total_installed > 0, "structural swaps must be applied");
}

struct Ends {
    params: rtrb::Producer<ParamPayload>,
    resamplers: rtrb::Producer<SwapPayload>,
    cabsims: rtrb::Producer<SwapPayload>,
    slimmables: rtrb::Producer<SwapPayload>,
    engines: rtrb::Producer<SwapPayload>,
    retired: rtrb::Consumer<GcItem>,
}

fn harness() -> (CaptureCallback, Ends) {
    let (params, param_consumer) = rtrb::RingBuffer::new(64);
    let (resamplers, resampler_consumer) = rtrb::RingBuffer::new(8);
    let (cabsims, cabsim_consumer) = rtrb::RingBuffer::new(8);
    let (slimmables, slimmable_consumer) = rtrb::RingBuffer::new(8);
    let (engines, os_consumer) = rtrb::RingBuffer::new(8);
    let (gc_producer, retired) = rtrb::RingBuffer::new(128);
    (
        CaptureCallback {
            state: initial_state(),
            channels: RtHostChannels {
                param_consumer,
                resampler_consumer,
                cabsim_consumer,
                slimmable_rx: Some(slimmable_consumer),
                os_rx: Some(os_consumer),
            },
            rt_status: RtStatusFlags::new(),
            gc_producer,
            parking_lot: ParkingLot::new(),
            gc_overflow: Vec::new(),
            retired: Vec::new(),
            current_host_rate: 48000,
            last_n_pw: 0,
        },
        Ends { params, resamplers, cabsims, slimmables, engines, retired },
    )
}

#[test]
fn a_callback_stays_muted_until_the_requested_rate_runs() {
    let (mut h, mut ends) = harness();
    let plan = h.run_callback(None);
    assert!(plan.process);
    assert_eq!(plan.host_rate, 48000);

    h.state.shared_target_rate = 44100;
    let plan = h.run_callback(None);
    assert!(!plan.process);
    assert_eq!(h.rt_status.requested_rate_generation, 1);
    assert!(h.rt_status.check_flag(RT_STATUS_NEEDS_RESAMPLER_REBUILD));
    assert!(h.rt_status.check_flag(RT_STATUS_RESAMP_SWAP_PENDING));

    ends.resamplers.push(make_resampler(0, 32000, 48000)).unwrap();
    assert!(!h.run_callback(None).process);
    ends.resamplers.push(make_resampler(1, 44100, 48000)).unwrap();
    let plan = h.run_callback(None);
    assert!(plan.process);
    assert_eq!(plan.host_rate, 44100);
    assert_eq!(plan.structural_applied, 1);
    assert_eq!(h.rt_status.applied_rate_generation, 1);
    assert_eq!(ends.retired.slots(), 2);
}

#[test]
fn a_callback_applies_one_structural_swap_and_keeps_the_rest() {
    let (mut h, mut ends) = harness();
    ends.resamplers.push(make_resampler(0, 48000, 48000)).unwrap();
    ends.cabsims
        .push(SwapPayload::CabSim(CabSimSwapPayload { generation: 0, pair: None }))
        .unwrap();
    ends.params.push(load_model_payload(Some(fake_wavenet(16)), None)).unwrap();
    ends.engines.push(make_engines(0, OversampleFactor::X2)).unwrap();
    ends.slimmables.push(make_pair(0, 8, true)).unwrap();
    for _ in 0..5 {
        assert_eq!(h.run_callback(None).structural_applied, 1);
    }
    assert_eq!(h.run_callback(None).structural_applied, 0);
    assert_eq!(h.state.graph.os_l.factor, OversampleFactor::X2);
    assert_eq!(h.state.graph.model_l.unwrap().channels, 8);
    assert!(h.state.deferred_resampler.is_none() && h.state.deferred_os.is_none());
}

#[test]
fn a_finished_block_is_remembered() {
    let (mut h, _ends) = harness();
    h.finish_block(256);
    assert_eq!(h.state.frame_count, 1);
    assert_eq!(h.current_n_pw(), 256);
    h.finish_block(10_000);
    assert_eq!(h.current_n_pw(), MAX_RESAMP_BUF);
}
