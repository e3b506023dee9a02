//! The capture callback together with the control plane's ends of its rings, for
//! running both sides in one thread.

use vstd::prelude::*;

use crate::capture::{
    callback_outcome, BlockPlan, CallbackReads, CaptureCallback, CaptureState, CommandsRead,
    RtHostChannels, SwapsRead, MAX_RESAMP_BUF,
};
use crate::commands::Controls;
use crate::gate::GateConfig;
use crate::gc::{parked, ParkingLot, PARKING_SLOTS};
use crate::payload::{
    CabSimPair, CabSimSwapPayload, GateParams, GcItem, LoadModel, NamResampler, OsEnginePair,
    OversampleEngine, ParamPayload, ResamplerSwapPayload, SlimModelPair, StaticModel,
    StreamingResampleBuffer, SwapPayload,
};
use crate::rings::{
    begins_with, begins_with_itself, commands_capacity, commands_queued, commands_sent,
    count_retired, new_command_ring, new_retired_ring, new_swap_ring, peek_command,
    peek_keeps_queue, peek_swap, pop_keeps_order, pop_retired, push_command, push_swap,
    retired_capacity, retired_queued, retired_sent, swaps_capacity, swaps_queued, swaps_sent,
};
use crate::rt_status::{RtStatusFlags, RT_STATUS_NEEDS_RESAMPLER_REBUILD};
use crate::single::Single;
use crate::swap::optional_queue;

verus! {

/// Commands that the command ring holds.
pub const SPSC_CAPACITY: usize = 64;

/// Items that the disposal ring holds.
pub const GC_CAPACITY: usize = 256;

/// Envelopes that a swap ring holds.
pub const SWAP_CAPACITY: usize = 4;

/// The capture callback with both ends of its rings.
pub struct RtSwapHarness {
    /// The callback.
    pub callback: CaptureCallback,
    /// Commands to the callback.
    pub param_producer: rtrb::Producer<ParamPayload>,
    /// Resamplers to the callback.
    pub resampler_producer: rtrb::Producer<SwapPayload>,
    /// Cab-sim pairs to the callback.
    pub cabsim_producer: rtrb::Producer<SwapPayload>,
    /// Model pairs to the callback.
    pub slimmable_producer: rtrb::Producer<SwapPayload>,
    /// Oversampling engines to the callback.
    pub os_producer: rtrb::Producer<SwapPayload>,
    /// Retired items from the callback.
    pub gc_consumer: rtrb::Consumer<GcItem>,
}

/// What a sender knows after it offered `item` to a ring into which it had put
/// `before`, and was told whether the ring took it: a ring that was sent fewer
/// items than it holds takes it. `capacities` are what the ring holds before and
/// after.
pub open spec fn offered<T>(
    before: Seq<T>,
    item: T,
    taken: bool,
    after: Seq<T>,
    capacities: (nat, nat),
) -> bool {
    &&& after == if taken {
        before.push(item)
    } else {
        before
    }
    &&& before.len() < capacities.0 ==> taken
    &&& capacities.1 == capacities.0
}

/// The state that a harness starts with: the initial one for these objects, at
/// their rates.
pub open spec fn harness_state(
    resampler: NamResampler,
    stream: StreamingResampleBuffer,
    os_l: OversampleEngine,
    os_r: OversampleEngine,
    gate: GateConfig,
    squares: (Single, Single),
) -> CaptureState {
    let s = CaptureState::initial(resampler, stream, os_l, os_r, gate, squares);
    CaptureState {
        controls: Controls { current_nam_rate: resampler.nam_rate, ..s.controls },
        shared_target_rate: resampler.host_rate,
        ..s
    }
}

impl RtSwapHarness {
    /// Whether nothing was sent, read or parked yet.
    pub open spec fn untouched(self) -> bool {
        &&& commands_sent(self.param_producer).len() == 0
        &&& swaps_sent(self.resampler_producer).len() == 0
        &&& swaps_sent(self.cabsim_producer).len() == 0
        &&& swaps_sent(self.slimmable_producer).len() == 0
        &&& swaps_sent(self.os_producer).len() == 0
        &&& commands_queued(self.callback.channels.param_consumer).len() == 0
        &&& swaps_queued(self.callback.channels.resampler_consumer).len() == 0
        &&& swaps_queued(self.callback.channels.cabsim_consumer).len() == 0
        &&& self.callback.channels.slimmable_rx is Some
        &&& optional_queue(self.callback.channels.slimmable_rx).len() == 0
        &&& self.callback.channels.os_rx is Some
        &&& optional_queue(self.callback.channels.os_rx).len() == 0
        &&& retired_sent(self.callback.gc_producer).len() == 0
        &&& retired_queued(self.gc_consumer).len() == 0
        &&& parked(self.callback.parking_lot.slots@).len() == 0
        &&& !self.callback.parking_lot.dirty
        &&& self.callback.gc_overflow@.len() == 0
        &&& self.callback.retired@.len() == 0
        &&& self.callback.rt_status == RtStatusFlags::initial()
    }

    /// A harness around the given objects, at the resampler's rates.
    pub fn new(
        resampler: NamResampler,
        stream: StreamingResampleBuffer,
        os_l: OversampleEngine,
        os_r: OversampleEngine,
        gate: GateConfig,
        squares: (Single, Single),
    ) -> (r: Self)
        ensures
            r.untouched(),
            r.callback.state == harness_state(resampler, stream, os_l, os_r, gate, squares),
            r.callback.current_host_rate == resampler.host_rate,
            r.callback.last_n_pw == 0,
            commands_capacity(r.param_producer) == SPSC_CAPACITY,
            swaps_capacity(r.resampler_producer) == SWAP_CAPACITY,
            swaps_capacity(r.cabsim_producer) == SWAP_CAPACITY,
            swaps_capacity(r.slimmable_producer) == SWAP_CAPACITY,
            swaps_capacity(r.os_producer) == SWAP_CAPACITY,
            retired_capacity(r.callback.gc_producer) == GC_CAPACITY,
    {
        let mut state = CaptureState::init(resampler, stream, os_l, os_r, gate, squares);
        state.controls.current_nam_rate = resampler.nam_rate;
        state.shared_target_rate = resampler.host_rate;
        let (param_producer, param_consumer) = new_command_ring(SPSC_CAPACITY);
        let (gc_producer, gc_consumer) = new_retired_ring(GC_CAPACITY);
        let (resampler_producer, resampler_consumer) = new_swap_ring(SWAP_CAPACITY);
        let (cabsim_producer, cabsim_consumer) = new_swap_ring(SWAP_CAPACITY);
        let (slimmable_producer, slimmable_consumer) = new_swap_ring(SWAP_CAPACITY);
        let (os_producer, os_consumer) = new_swap_ring(SWAP_CAPACITY);
        let parking_lot = ParkingLot::new();
        proof {
            crate::gc::parked_of_empty_slots(parking_lot.slots@);
        }
        RtSwapHarness {
            callback: CaptureCallback {
                state,
                channels: RtHostChannels {
                    param_consumer,
                    resampler_consumer,
                    cabsim_consumer,
                    slimmable_rx: Some(slimmable_consumer),
                    os_rx: Some(os_consumer),
                },
                rt_status: RtStatusFlags::new(),
                gc_producer,
                parking_lot,
                gc_overflow: Vec::new(),
                retired: Vec::new(),
                current_host_rate: resampler.host_rate,
                last_n_pw: 0,
            },
            param_producer,
            resampler_producer,
            cabsim_producer,
            slimmable_producer,
            os_producer,
            gc_consumer,
        }
    }

    /// Sends a command. Returns whether the ring took it.
    fn push_param(&mut self, command: ParamPayload) -> (taken: bool)
        ensures
            *final(self) == (RtSwapHarness {
                param_producer: final(self).param_producer,
                ..*old(self)
            }),
            offered(
                commands_sent(old(self).param_producer),
                command,
                taken,
                commands_sent(final(self).param_producer),
                (
                    commands_capacity(old(self).param_producer),
                    commands_capacity(final(self).param_producer),
                ),
            ),
    {
        push_command(&mut self.param_producer, command).is_ok()
    }

    /// Sends both channels' models with one command. Returns whether the ring
    /// took it.
    pub fn push_load_model(
        &mut self,
        model_l: Option<StaticModel>,
        model_r: Option<StaticModel>,
        input_mult_adj: Single,
        output_mult_adj: Single,
        sample_rate: u32,
    ) -> (taken: bool)
        ensures
            *final(self) == (RtSwapHarness {
                param_producer: final(self).param_producer,
                ..*old(self)
            }),
            offered(
                commands_sent(old(self).param_producer),
                ParamPayload::LoadModel(
                    (LoadModel { model_l, model_r, input_mult_adj, output_mult_adj, sample_rate }),
                ),
                taken,
                commands_sent(final(self).param_producer),
                (
                    commands_capacity(old(self).param_producer),
                    commands_capacity(final(self).param_producer),
                ),
            ),
    {
        self.push_param(
            ParamPayload::LoadModel(
                LoadModel { model_l, model_r, input_mult_adj, output_mult_adj, sample_rate },
            ),
        )
    }

    /// Sends the user's input multiplier. Returns whether the ring took it.
    pub fn push_input_gain(&mut self, mult: Single) -> (taken: bool)
        ensures
            *final(self) == (RtSwapHarness {
                param_producer: final(self).param_producer,
                ..*old(self)
            }),
            offered(
                commands_sent(old(self).param_producer),
                ParamPayload::InputGain(mult),
                taken,
                commands_sent(final(self).param_producer),
                (
                    commands_capacity(old(self).param_producer),
                    commands_capacity(final(self).param_producer),
                ),
            ),
    {
        self.push_param(ParamPayload::InputGain(mult))
    }

    /// Sends the user's output multiplier. Returns whether the ring took it.
    pub fn push_output_gain(&mut self, mult: Single) -> (taken: bool)
        ensures
            *final(self) == (RtSwapHarness {
                param_producer: final(self).param_producer,
                ..*old(self)
            }),
            offered(
                commands_sent(old(self).param_producer),
                ParamPayload::OutputGain(mult),
                taken,
                commands_sent(final(self).param_producer),
                (
                    commands_capacity(old(self).param_producer),
                    commands_capacity(final(self).param_producer),
                ),
            ),
    {
        self.push_param(ParamPayload::OutputGain(mult))
    }

    /// Sends settings of the silence gate. Returns whether the ring took them.
    pub fn push_gate(&mut self, params: GateParams) -> (taken: bool)
        ensures
            *final(self) == (RtSwapHarness {
                param_producer: final(self).param_producer,
                ..*old(self)
            }),
            offered(
                commands_sent(old(self).param_producer),
                ParamPayload::GateConfig(params),
                taken,
                commands_sent(final(self).param_producer),
                (
                    commands_capacity(old(self).param_producer),
                    commands_capacity(final(self).param_producer),
                ),
            ),
    {
        self.push_param(ParamPayload::GateConfig(params))
    }

    /// Sends a model pair in one envelope. Returns whether the ring took it.
    pub fn push_slimmable(
        &mut self,
        generation: u64,
        channels: usize,
        l: StaticModel,
        r: Option<StaticModel>,
    ) -> (taken: bool)
        ensures
            *final(self) == (RtSwapHarness {
                slimmable_producer: final(self).slimmable_producer,
                ..*old(self)
            }),
            offered(
                swaps_sent(old(self).slimmable_producer),
                SwapPayload::Slimmable((SlimModelPair { generation, channels, l: Some(l), r })),
                taken,
                swaps_sent(final(self).slimmable_producer),
                (
                    swaps_capacity(old(self).slimmable_producer),
                    swaps_capacity(final(self).slimmable_producer),
                ),
            ),
    {
        push_swap(
            &mut self.slimmable_producer,
            SwapPayload::Slimmable(SlimModelPair { generation, channels, l: Some(l), r }),
        ).is_ok()
    }

    /// Sends a cab-sim pair for the newest request; no pair turns the cab-sim
    /// off. Returns whether the ring took it.
    pub fn push_cabsim(&mut self, pair: Option<CabSimPair>) -> (taken: bool)
        ensures
            *final(self) == (RtSwapHarness {
                cabsim_producer: final(self).cabsim_producer,
                ..*old(self)
            }),
            offered(
                swaps_sent(old(self).cabsim_producer),
                SwapPayload::CabSim(
                    (CabSimSwapPayload {
                        generation: old(self).callback.rt_status.requested_cabsim_generation,
                        pair,
                    }),
                ),
                taken,
                swaps_sent(final(self).cabsim_producer),
                (
                    swaps_capacity(old(self).cabsim_producer),
                    swaps_capacity(final(self).cabsim_producer),
                ),
            ),
    {
        let generation: u64 = self.callback.rt_status.requested_cabsim_generation;
        self.push_cabsim_with_gen(generation, pair)
    }

    /// Sends a cab-sim pair for the given request. Returns whether the ring took
    /// it.
    pub fn push_cabsim_with_gen(&mut self, generation: u64, pair: Option<CabSimPair>) -> (taken:
        bool)
        ensures
            *final(self) == (RtSwapHarness {
                cabsim_producer: final(self).cabsim_producer,
                ..*old(self)
            }),
            offered(
                swaps_sent(old(self).cabsim_producer),
                SwapPayload::CabSim((CabSimSwapPayload { generation, pair })),
                taken,
                swaps_sent(final(self).cabsim_producer),
                (
                    swaps_capacity(old(self).cabsim_producer),
                    swaps_capacity(final(self).cabsim_producer),
                ),
            ),
    {
        push_swap(
            &mut self.cabsim_producer,
            SwapPayload::CabSim(CabSimSwapPayload { generation, pair }),
        ).is_ok()
    }

    /// Sends both oversampling engines for the newest request in one envelope.
    /// Returns whether the ring took it.
    pub fn push_os_pair(&mut self, l: OversampleEngine, r: OversampleEngine) -> (taken: bool)
        ensures
            *final(self) == (RtSwapHarness {
                os_producer: final(self).os_producer,
                ..*old(self)
            }),
            offered(
                swaps_sent(old(self).os_producer),
                SwapPayload::Oversample(
                    (OsEnginePair {
                        generation: old(self).callback.rt_status.requested_os_generation,
                        l,
                        r,
                    }),
                ),
                taken,
                swaps_sent(final(self).os_producer),
                (
                    swaps_capacity(old(self).os_producer),
                    swaps_capacity(final(self).os_producer),
                ),
            ),
    {
        let generation: u64 = self.callback.rt_status.requested_os_generation;
        push_swap(
            &mut self.os_producer,
            SwapPayload::Oversample(OsEnginePair { generation, l, r }),
        ).is_ok()
    }

    /// Sends a rebuilt resampler for the newest request. Returns whether the ring
    /// took it.
    pub fn request_resampler_swap(
        &mut self,
        resampler: NamResampler,
        stream: StreamingResampleBuffer,
    ) -> (taken: bool)
        ensures
            *final(self) == (RtSwapHarness {
                resampler_producer: final(self).resampler_producer,
                ..*old(self)
            }),
            offered(
                swaps_sent(old(self).resampler_producer),
                SwapPayload::Resampler(
                    (ResamplerSwapPayload {
                        generation: old(self).callback.rt_status.requested_rate_generation,
                        resampler,
                        stream,
                    }),
                ),
                taken,
                swaps_sent(final(self).resampler_producer),
                (
                    swaps_capacity(old(self).resampler_producer),
                    swaps_capacity(final(self).resampler_producer),
                ),
            ),
    {
        let generation: u64 = self.callback.rt_status.requested_rate_generation;
        push_swap(
            &mut self.resampler_producer,
            SwapPayload::Resampler(ResamplerSwapPayload { generation, resampler, stream }),
        ).is_ok()
    }

    /// Announces a negotiated host rate.
    pub fn publish_host_rate(&mut self, rate: u32)
        ensures
            *final(self) == (RtSwapHarness {
                callback: CaptureCallback {
                    state: CaptureState { shared_target_rate: rate, ..old(self).callback.state },
                    ..old(self).callback
                },
                ..*old(self)
            }),
    {
        self.callback.state.shared_target_rate = rate;
    }

    /// Changes the model's rate.
    pub fn set_nam_rate(&mut self, rate: u32)
        ensures
            *final(self) == (RtSwapHarness {
                callback: CaptureCallback {
                    state: CaptureState {
                        controls: Controls {
                            current_nam_rate: rate,
                            ..old(self).callback.state.controls
                        },
                        ..old(self).callback.state
                    },
                    ..old(self).callback
                },
                ..*old(self)
            }),
    {
        self.callback.state.controls.current_nam_rate = rate;
    }

    /// Runs one callback up to the DSP.
    pub fn run_callback(&mut self, target_ch: Option<usize>) -> (plan: BlockPlan)
        ensures
            *final(self) == (RtSwapHarness { callback: final(self).callback, ..*old(self) }),
            exists|x: CallbackReads| #[trigger]
                callback_outcome(old(self).callback, target_ch, final(self).callback, plan, x),
    {
        self.callback.run_callback(target_ch)
    }

    /// Takes every queued item out of the disposal ring.
    pub fn consume_gc(&mut self) -> (taken: Vec<GcItem>)
        ensures
            *final(self) == (RtSwapHarness { gc_consumer: final(self).gc_consumer, ..*old(self) }),
            begins_with(
                taken@ + retired_queued(final(self).gc_consumer),
                retired_queued(old(self).gc_consumer),
            ),
            retired_queued(old(self).gc_consumer).len() <= taken@.len(),
    {
        let ghost start = retired_queued(self.gc_consumer);
        let n: usize = count_retired(&mut self.gc_consumer);
        let mut taken: Vec<GcItem> = Vec::new();
        let ghost h = *self;
        assert(taken@ + retired_queued(self.gc_consumer) =~= retired_queued(self.gc_consumer));
        while taken.len() < n
            invariant
                taken@.len() <= n,
                n - taken@.len() <= retired_queued(self.gc_consumer).len(),
                begins_with(taken@ + retired_queued(self.gc_consumer), start),
                *self == (RtSwapHarness { gc_consumer: self.gc_consumer, ..h }),
            decreases n - taken@.len(),
        {
            let ghost before = retired_queued(self.gc_consumer);
            match pop_retired(&mut self.gc_consumer) {
                Some(item) => {
                    proof {
                        pop_keeps_order(
                            start,
                            taken@,
                            before,
                            item,
                            retired_queued(self.gc_consumer),
                        );
                    }
                    taken.push(item);
                },
                None => {
                    return taken;
                },
            }
        }
        taken
    }

    /// Frames of the last processed block, as many as a buffer holds.
    pub fn current_n_pw(&self) -> (r: usize)
        ensures
            r == if self.callback.last_n_pw < MAX_RESAMP_BUF {
                self.callback.last_n_pw
            } else {
                MAX_RESAMP_BUF
            },
    {
        self.callback.current_n_pw()
    }

    /// The running model of the left channel.
    pub fn active_model_l(&self) -> (r: Option<StaticModel>)
        ensures
            r == self.callback.state.graph.model_l,
    {
        self.callback.state.graph.model_l
    }

    /// The running model of the right channel.
    pub fn active_model_r(&self) -> (r: Option<StaticModel>)
        ensures
            r == self.callback.state.graph.model_r,
    {
        self.callback.state.graph.model_r
    }

    /// The running cab-sim pair.
    pub fn active_cabsim(&self) -> (r: Option<CabSimPair>)
        ensures
            r == self.callback.state.graph.cabsim,
    {
        self.callback.state.graph.cabsim
    }

    /// The input multiplier in use.
    pub fn input_gain_mult(&self) -> (r: Single)
        ensures
            r == self.callback.state.input_gain_mult,
    {
        self.callback.state.input_gain_mult
    }

    /// The output multiplier in use.
    pub fn output_gain_mult(&self) -> (r: Single)
        ensures
            r == self.callback.state.output_gain_mult,
    {
        self.callback.state.output_gain_mult
    }

    /// The status word and counters.
    pub fn rt_status(&self) -> (r: &RtStatusFlags)
        ensures
            *r == self.callback.rt_status,
    {
        &self.callback.rt_status
    }

    /// Processed blocks; wraps.
    pub fn frame_count(&self) -> (r: u32)
        ensures
            r == self.callback.state.frame_count,
    {
        self.callback.state.frame_count
    }

    /// Host rate of the last callback.
    pub fn current_host_rate(&self) -> (r: u32)
        ensures
            r == self.callback.current_host_rate,
    {
        self.callback.current_host_rate
    }

    /// Retired items in the parking slots.
    fn parked_items(&self) -> (r: usize)
        ensures
            r == parked(self.callback.parking_lot.slots@).len(),
            r <= PARKING_SLOTS,
    {
        let ghost slots = self.callback.parking_lot.slots@;
        let mut count: usize = 0;
        let mut i: usize = 0;
        assert(slots.subrange(0, 0) =~= Seq::empty());
        while i < PARKING_SLOTS
            invariant
                0 <= i <= PARKING_SLOTS,
                slots == self.callback.parking_lot.slots@,
                slots.len() == PARKING_SLOTS,
                count == parked(slots.subrange(0, i as int)).len(),
                count <= i,
            decreases PARKING_SLOTS - i,
        {
            proof {
                crate::gc::parked_step(slots, i as int);
            }
            if self.callback.parking_lot.slots[i].is_some() {
                count = count + 1;
            }
            i = i + 1;
        }
        assert(slots.subrange(0, PARKING_SLOTS as int) =~= slots);
        count
    }

    /// Retired items that wait for disposal, in the ring and in the parking
    /// slots.
    pub fn gc_pending(&mut self) -> (r: usize)
        ensures
            *final(self) == (RtSwapHarness { gc_consumer: final(self).gc_consumer, ..*old(self) }),
            begins_with(
                retired_queued(final(self).gc_consumer),
                retired_queued(old(self).gc_consumer),
            ),
            r == retired_queued(final(self).gc_consumer).len() + parked(
                old(self).callback.parking_lot.slots@,
            ).len(),
    {
        let parked_count: usize = self.parked_items();
        parked_count + count_retired(&mut self.gc_consumer)
    }

    /// Retired items still on their way to disposal: each one in the ring or in
    /// a parking slot counts once.
    pub fn gc_in_flight(&mut self) -> (r: usize)
        ensures
            *final(self) == (RtSwapHarness { gc_consumer: final(self).gc_consumer, ..*old(self) }),
            begins_with(
                retired_queued(final(self).gc_consumer),
                retired_queued(old(self).gc_consumer),
            ),
            r == retired_queued(final(self).gc_consumer).len() + parked(
                old(self).callback.parking_lot.slots@,
            ).len(),
    {
        self.gc_pending()
    }

    /// Whether the callback has not taken up everything yet: something is
    /// queued, put off or parked.
    pub open spec fn work_waits(self) -> bool {
        let state = self.callback.state;
        let channels = self.callback.channels;
        ||| commands_queued(channels.param_consumer).len() > 0
        ||| swaps_queued(channels.resampler_consumer).len() > 0
        ||| swaps_queued(channels.cabsim_consumer).len() > 0
        ||| optional_queue(channels.slimmable_rx).len() > 0
        ||| optional_queue(channels.os_rx).len() > 0
        ||| something_deferred(state)
        ||| self.callback.parking_lot.dirty
    }

    /// Whether the callback has not taken up everything yet.
    pub fn commands_pending(&mut self) -> (r: bool)
        ensures
            r == final(self).work_waits(),
            same_but_known(*old(self), *final(self)),
    {
        proof {
            let ch = self.callback.channels;
            begins_with_itself(commands_queued(ch.param_consumer));
            begins_with_itself(swaps_queued(ch.resampler_consumer));
            begins_with_itself(swaps_queued(ch.cabsim_consumer));
            begins_with_itself(optional_queue(ch.slimmable_rx));
            begins_with_itself(optional_queue(ch.os_rx));
        }
        if something_is_deferred(&self.callback.state) || self.callback.parking_lot.dirty {
            return true;
        }
        let ghost before = commands_queued(self.callback.channels.param_consumer);
        let command = peek_command(&mut self.callback.channels.param_consumer);
        proof {
            peek_keeps_queue(
                before,
                command,
                commands_queued(self.callback.channels.param_consumer),
            );
        }
        let resamplers = swap_waits(&mut self.callback.channels.resampler_consumer);
        let cabsims = swap_waits(&mut self.callback.channels.cabsim_consumer);
        let models = optional_swap_waits(&mut self.callback.channels.slimmable_rx);
        let engines = optional_swap_waits(&mut self.callback.channels.os_rx);
        command.is_some() || resamplers || cabsims || models || engines
    }
}

/// Whether a structural command is put off.
pub open spec fn something_deferred(s: CaptureState) -> bool {
    ||| s.deferred_resampler is Some
    ||| s.deferred_cabsim is Some
    ||| s.deferred_model is Some
    ||| s.deferred_slimmable is Some
    ||| s.deferred_os is Some
}

/// Whether `b` is `a` but for what the callback's ends know to be queued, which
/// may have grown.
pub open spec fn same_but_known(a: RtSwapHarness, b: RtSwapHarness) -> bool {
    let (ca, cb) = (a.callback.channels, b.callback.channels);
    &&& b == (RtSwapHarness {
        callback: CaptureCallback { channels: cb, ..a.callback },
        ..a
    })
    &&& begins_with(commands_queued(cb.param_consumer), commands_queued(ca.param_consumer))
    &&& begins_with(swaps_queued(cb.resampler_consumer), swaps_queued(ca.resampler_consumer))
    &&& begins_with(swaps_queued(cb.cabsim_consumer), swaps_queued(ca.cabsim_consumer))
    &&& (cb.slimmable_rx is Some) == (ca.slimmable_rx is Some)
    &&& begins_with(optional_queue(cb.slimmable_rx), optional_queue(ca.slimmable_rx))
    &&& (cb.os_rx is Some) == (ca.os_rx is Some)
    &&& begins_with(optional_queue(cb.os_rx), optional_queue(ca.os_rx))
}

fn something_is_deferred(s: &CaptureState) -> (r: bool)
    ensures
        r == something_deferred(*s),
{
    s.deferred_resampler.is_some() || s.deferred_cabsim.is_some() || s.deferred_model.is_some()
        || s.deferred_slimmable.is_some() || s.deferred_os.is_some()
}

fn swap_waits(c: &mut rtrb::Consumer<SwapPayload>) -> (r: bool)
    ensures
        r == (swaps_queued(*final(c)).len() > 0),
        begins_with(swaps_queued(*final(c)), swaps_queued(*old(c))),
{
    let ghost before = swaps_queued(*c);
    let head = peek_swap(c);
    proof {
        peek_keeps_queue(before, head, swaps_queued(*c));
    }
    head.is_some()
}

fn optional_swap_waits(rx: &mut Option<rtrb::Consumer<SwapPayload>>) -> (r: bool)
    ensures
        r == (optional_queue(*final(rx)).len() > 0),
        (*final(rx) is Some) == (*old(rx) is Some),
        begins_with(optional_queue(*final(rx)), optional_queue(*old(rx))),
{
    proof {
        begins_with_itself(optional_queue(*rx));
    }
    if let Some(c) = rx {
        swap_waits(c)
    } else {
        false
    }
}

/// Whether a drain found nothing.
pub open spec fn found_nothing(x: SwapsRead) -> bool {
    x.head is None && x.taken.len() == 0 && !x.truncated
}

/// Whether a reception found nothing.
pub open spec fn heard_nothing(x: CommandsRead) -> bool {
    x.head is None && x.taken.len() == 0 && !x.backlog
}

/// The rates of a new harness agree: its first callback, before anything is
/// sent, processes the block at the host rate and asks for no resampler.
pub proof fn first_block_is_processed(
    h: RtSwapHarness,
    resampler: NamResampler,
    stream: StreamingResampleBuffer,
    os_l: OversampleEngine,
    os_r: OversampleEngine,
    gate: GateConfig,
    squares: (Single, Single),
    e: CaptureCallback,
    plan: BlockPlan,
    x: CallbackReads,
)
    requires
        h.untouched(),
        h.callback.state == harness_state(resampler, stream, os_l, os_r, gate, squares),
        callback_outcome(h.callback, None, e, plan, x),
        found_nothing(x.resamplers),
        found_nothing(x.cabsims),
        heard_nothing(x.commands),
        x.models is Some ==> found_nothing(x.models->0),
        x.engines is Some ==> found_nothing(x.engines->0),
    ensures
        plan.process,
        plan.host_rate == resampler.host_rate,
        !e.rt_status.has(RT_STATUS_NEEDS_RESAMPLER_REBUILD),
        e.rt_status.requested_rate_generation == 0,
{
    assert(forall|flag: u64| 0u64 & flag == 0) by (bit_vector);
}

/// Whatever is put off, queued or parked counts as waiting.
pub proof fn whatever_waits_is_seen(h: RtSwapHarness)
    ensures
        ({
            let s = h.callback.state;
            &&& s.deferred_resampler is Some || s.deferred_cabsim is Some || s.deferred_model
                is Some || s.deferred_slimmable is Some || s.deferred_os is Some
                ==> h.work_waits()
            &&& h.callback.parking_lot.dirty ==> h.work_waits()
            &&& h.untouched() && s.deferred_resampler is None && s.deferred_cabsim is None
                && s.deferred_model is None && s.deferred_slimmable is None && s.deferred_os
                is None ==> !h.work_waits()
        }),
{
}

} // verus!
