//! The capture callback: everything that happens to a block before and after
//! the DSP runs on it.

use vstd::prelude::*;

use crate::commands::{
    command_view, receive_commands, received, try_slimmable_rebuild, Controls, DEFAULT_NAM_RATE,
    MAX_PARAM_BUDGET,
};
use crate::gc::{
    all_disposed, dispose_all, flush_keeps_disposal, flushed, in_disposal, lot_view, LotView,
    ParkingLot,
};
use crate::gate::{gate_params_of, GateConfig};
use crate::payload::{
    CabSimPair, GcItem, LoadModel, NamResampler, OversampleEngine, ParamPayload, SlimOverride,
    StreamingResampleBuffer, SwapFamily, SwapPayload,
};
use crate::rate_sync::{
    pending_resolved, rate_synced, request_failed, resolve_pending_swap, sync_rate,
};
use crate::rings::{commands_queued, retired_sent, swaps_queued};
use crate::rt_status::{
    comes_round, next_count, next_generation, RtStatusFlags, RT_STATUS_NEEDS_CABSIM_REBUILD,
    RT_STATUS_NEEDS_RESAMPLER_REBUILD, RT_STATUS_NEEDS_SLIMMABLE_REBUILD,
    RT_STATUS_RESAMP_SWAP_PENDING,
};
use crate::single::{Single, SINGLE_ONE_BITS};
use crate::swap::{
    drain_cabsims, drain_os_engines, drain_outcome, drain_resamplers, drain_slimmable_models,
    drain_view, drained, optional_drain_outcome, optional_queue, read_in_order, ActiveGraph,
    DrainView, STRUCTURAL_POPS_PER_CALLBACK,
};

verus! {

/// Frames that the working buffers of the DSP hold.
pub const MAX_RESAMP_BUF: usize = 8192;

/// Items that one callback retires at most.
pub const RETIRED_PER_CALLBACK: usize = 70;

/// Smallest partition of a cab-sim convolver.
pub const MIN_CABSIM_PARTITION: usize = 16;

/// The state that the capture callback owns.
#[derive(Clone, Copy, Debug, PartialEq, Eq, Structural)]
pub struct CaptureState {
    /// The running objects.
    pub graph: ActiveGraph,
    /// The settings.
    pub controls: Controls,
    /// Product of the user's and the model's input multiplier.
    pub input_gain_mult: Single,
    /// Product of the user's and the model's output multiplier.
    pub output_gain_mult: Single,
    /// Squared linear opening threshold of the silence gate.
    pub threshold_open_sq: Single,
    /// Squared linear closing threshold of the silence gate.
    pub threshold_close_sq: Single,
    /// One-shot cell with a freshly negotiated host rate; zero means none.
    pub shared_target_rate: u32,
    /// Processed blocks; wraps.
    pub frame_count: u32,
    /// Whether the recorder knows the present rate.
    pub recording_meta_sent: bool,
    /// The rate the recorder was told.
    pub recording_meta_rate: u32,
    /// Whether the audio thread has been set up for real-time work.
    pub thread_configured: bool,
    /// Whether an impulse response was loaded.
    pub has_ir: bool,
    /// Rate of that impulse response.
    pub ir_source_rate: u32,
    /// Put-off resampler.
    pub deferred_resampler: Option<SwapPayload>,
    /// Put-off cab-sim pair.
    pub deferred_cabsim: Option<SwapPayload>,
    /// Put-off model replacement.
    pub deferred_model: Option<LoadModel>,
    /// Put-off model pair.
    pub deferred_slimmable: Option<SwapPayload>,
    /// Put-off oversampling engines.
    pub deferred_os: Option<SwapPayload>,
}

/// The callback's ends of the rings.
pub struct RtHostChannels {
    /// Commands.
    pub param_consumer: rtrb::Consumer<ParamPayload>,
    /// Rebuilt resamplers.
    pub resampler_consumer: rtrb::Consumer<SwapPayload>,
    /// Rebuilt cab-sim pairs.
    pub cabsim_consumer: rtrb::Consumer<SwapPayload>,
    /// Rebuilt model pairs.
    pub slimmable_rx: Option<rtrb::Consumer<SwapPayload>>,
    /// Rebuilt oversampling engines.
    pub os_rx: Option<rtrb::Consumer<SwapPayload>>,
}

impl CaptureState {
    /// The state before the first block.
    pub open spec fn initial(
        resampler: NamResampler,
        stream: StreamingResampleBuffer,
        os_l: OversampleEngine,
        os_r: OversampleEngine,
        gate: GateConfig,
        squares: (Single, Single),
    ) -> CaptureState {
        let one = Single { bits: SINGLE_ONE_BITS };
        let zero = Single { bits: 0 };
        CaptureState {
            graph: ActiveGraph {
                resampler,
                stream,
                cabsim: None,
                model_l: None,
                model_r: None,
                os_l,
                os_r,
            },
            controls: Controls {
                user_input_gain_mult: one,
                user_output_gain_mult: one,
                model_input_mult_adj: one,
                model_output_mult_adj: one,
                current_nam_rate: DEFAULT_NAM_RATE,
                gate_params: gate_params_of(gate),
                thresholds_stale: false,
                slim_override: SlimOverride::Auto,
                wavenet_full: None,
            },
            input_gain_mult: one,
            output_gain_mult: one,
            threshold_open_sq: if gate is Off { zero } else { squares.0 },
            threshold_close_sq: if gate is Off { zero } else { squares.1 },
            shared_target_rate: 0,
            frame_count: 0,
            recording_meta_sent: false,
            recording_meta_rate: 0,
            thread_configured: false,
            has_ir: false,
            ir_source_rate: 0,
            deferred_resampler: None,
            deferred_cabsim: None,
            deferred_model: None,
            deferred_slimmable: None,
            deferred_os: None,
        }
    }

    /// Starts with the given objects, no model, unit gains and the configured
    /// gate; `squares` are the squared linear forms of its two thresholds.
    pub fn init(
        resampler: NamResampler,
        stream: StreamingResampleBuffer,
        os_l: OversampleEngine,
        os_r: OversampleEngine,
        gate: GateConfig,
        squares: (Single, Single),
    ) -> (r: Self)
        ensures
            r == CaptureState::initial(resampler, stream, os_l, os_r, gate, squares),
    {
        let one = Single { bits: SINGLE_ONE_BITS };
        let (open_sq, close_sq) = gate.threshold_squares(squares);
        CaptureState {
            graph: ActiveGraph {
                resampler,
                stream,
                cabsim: None,
                model_l: None,
                model_r: None,
                os_l,
                os_r,
            },
            controls: Controls {
                user_input_gain_mult: one,
                user_output_gain_mult: one,
                model_input_mult_adj: one,
                model_output_mult_adj: one,
                current_nam_rate: DEFAULT_NAM_RATE,
                gate_params: gate.params(),
                thresholds_stale: false,
                slim_override: SlimOverride::Auto,
                wavenet_full: None,
            },
            input_gain_mult: one,
            output_gain_mult: one,
            threshold_open_sq: open_sq,
            threshold_close_sq: close_sq,
            shared_target_rate: 0,
            frame_count: 0,
            recording_meta_sent: false,
            recording_meta_rate: 0,
            thread_configured: false,
            has_ir: false,
            ir_source_rate: 0,
            deferred_resampler: None,
            deferred_cabsim: None,
            deferred_model: None,
            deferred_slimmable: None,
            deferred_os: None,
        }
    }
}

/// What the DSP computes anew before a block.
#[derive(Clone, Copy, Debug, PartialEq, Eq, Structural)]
pub struct GainUpdate {
    /// Product of the user's and the model's input multiplier.
    pub input_gain_mult: Single,
    /// Product of the user's and the model's output multiplier.
    pub output_gain_mult: Single,
}

impl CaptureState {
    /// Takes down the multipliers that were computed from the settings.
    pub fn set_gains(&mut self, gains: GainUpdate)
        ensures
            *final(self) == (CaptureState {
                input_gain_mult: gains.input_gain_mult,
                output_gain_mult: gains.output_gain_mult,
                ..*old(self)
            }),
    {
        self.input_gain_mult = gains.input_gain_mult;
        self.output_gain_mult = gains.output_gain_mult;
    }

    /// Takes down the squared linear thresholds that were computed from the
    /// levels of the silence gate.
    pub fn set_thresholds(&mut self, squares: (Single, Single))
        ensures
            *final(self) == (CaptureState {
                threshold_open_sq: squares.0,
                threshold_close_sq: squares.1,
                controls: Controls { thresholds_stale: false, ..old(self).controls },
                ..*old(self)
            }),
    {
        self.threshold_open_sq = squares.0;
        self.threshold_close_sq = squares.1;
        self.controls.thresholds_stale = false;
    }

    /// Binds an impulse response of so many samples per second.
    pub fn set_ir(&mut self, source_rate: u32)
        ensures
            *final(self) == (CaptureState {
                has_ir: true,
                ir_source_rate: source_rate,
                ..*old(self)
            }),
    {
        self.has_ir = true;
        self.ir_source_rate = source_rate;
    }
}

/// A callback between two of its steps, as mathematical values.
pub struct CallbackView {
    /// The callback's state.
    pub state: CaptureState,
    /// The status word and counters.
    pub status: RtStatusFlags,
    /// Structural swaps applied so far.
    pub applied: usize,
    /// Items retired so far.
    pub retired: Seq<GcItem>,
    /// Whether the gain multipliers must be computed anew.
    pub changed: bool,
}

/// What one drain of a swap ring read: the first queued envelope as it was
/// seen at the start, the envelopes taken, and whether the drain stopped at its
/// ceiling with envelopes left.
pub struct SwapsRead {
    /// First queued envelope.
    pub head: Option<SwapPayload>,
    /// Envelopes taken.
    pub taken: Seq<SwapPayload>,
    /// Whether the ceiling cut the drain short.
    pub truncated: bool,
}

/// What one reception read, and whether commands were left.
pub struct CommandsRead {
    /// First queued command.
    pub head: Option<ParamPayload>,
    /// Commands taken.
    pub taken: Seq<ParamPayload>,
    /// Whether commands were left.
    pub backlog: bool,
}

impl CallbackView {
    /// The put-off envelope of a family.
    pub open spec fn deferred(self, family: SwapFamily) -> Option<SwapPayload> {
        match family {
            SwapFamily::Resampler => self.state.deferred_resampler,
            SwapFamily::CabSim => self.state.deferred_cabsim,
            SwapFamily::Slimmable => self.state.deferred_slimmable,
            SwapFamily::Oversample => self.state.deferred_os,
        }
    }

    /// What a drain of the family works on.
    pub open spec fn drain_input(self, family: SwapFamily) -> DrainView {
        drain_view(
            self.deferred(family),
            self.applied,
            self.state.graph,
            self.status,
            self.retired,
        )
    }

    /// The callback after a drain of the family ended in `e`.
    pub open spec fn after_drain(self, family: SwapFamily, e: DrainView) -> CallbackView {
        CallbackView {
            state: CaptureState {
                graph: e.graph,
                deferred_resampler: if family is Resampler {
                    e.deferred
                } else {
                    self.state.deferred_resampler
                },
                deferred_cabsim: if family is CabSim {
                    e.deferred
                } else {
                    self.state.deferred_cabsim
                },
                deferred_slimmable: if family is Slimmable {
                    e.deferred
                } else {
                    self.state.deferred_slimmable
                },
                deferred_os: if family is Oversample {
                    e.deferred
                } else {
                    self.state.deferred_os
                },
                ..self.state
            },
            status: e.status,
            applied: e.applied,
            retired: e.retired,
            ..self
        }
    }

    /// The callback after a drain of the family that read `x`.
    pub open spec fn drain_step(self, family: SwapFamily, x: SwapsRead) -> CallbackView {
        self.after_drain(
            family,
            drained(family, self.drain_input(family), x.head, x.taken, x.truncated),
        )
    }

    /// The callback after a reception that read `x`.
    pub open spec fn command_step(self, x: CommandsRead) -> CallbackView {
        let w = received(
            command_view(
                self.state.deferred_model,
                self.applied,
                self.state.graph,
                self.state.controls,
                self.status,
                self.retired,
                self.changed,
            ),
            x.head,
            x.taken,
            x.backlog,
        );
        CallbackView {
            state: CaptureState {
                graph: w.graph,
                controls: w.controls,
                deferred_model: w.deferred,
                ..self.state
            },
            status: w.status,
            applied: w.applied,
            retired: w.retired,
            changed: w.changed,
        }
    }

    /// The callback after the adaptive engine's wish was passed on.
    pub open spec fn slimmable_step(self, target_ch: Option<usize>) -> CallbackView {
        CallbackView {
            status: match target_ch {
                None => self.status,
                Some(ch) => RtStatusFlags {
                    requested_slimmable_ch: ch as u32,
                    requested_slimmable_generation: next_generation(
                        self.status.requested_slimmable_generation,
                    ),
                    ..self.status
                }.with_flag(RT_STATUS_NEEDS_SLIMMABLE_REBUILD),
            },
            ..self
        }
    }

    /// The callback after the rates were compared.
    pub open spec fn rate_step(self) -> CallbackView {
        CallbackView {
            state: CaptureState { shared_target_rate: 0, ..self.state },
            status: rate_synced(
                self.status,
                self.state.shared_target_rate,
                self.state.graph.resampler,
                self.state.controls.current_nam_rate,
            ),
            ..self
        }
    }

    /// The callback after a pending resampler swap was looked at.
    pub open spec fn pending_step(self) -> CallbackView {
        CallbackView { status: pending_resolved(self.status), ..self }
    }

    /// Whether the block is processed.
    pub open spec fn block_goes_through(self) -> bool {
        !self.status.has(RT_STATUS_RESAMP_SWAP_PENDING) || request_failed(self.status)
    }
}

/// Whether a drain can have read `x` from a ring known to hold `before` at its
/// start and `after` at its end.
pub open spec fn swaps_read_from(
    before: Seq<SwapPayload>,
    x: SwapsRead,
    after: Seq<SwapPayload>,
) -> bool {
    &&& read_in_order(before, x.head, x.taken, after, STRUCTURAL_POPS_PER_CALLBACK as int)
    &&& x.truncated == (x.taken.len() == STRUCTURAL_POPS_PER_CALLBACK && after.len() > 0)
}

/// The same for a reception of commands.
pub open spec fn commands_read_from(
    before: Seq<ParamPayload>,
    x: CommandsRead,
    after: Seq<ParamPayload>,
) -> bool {
    &&& read_in_order(before, x.head, x.taken, after, MAX_PARAM_BUDGET as int)
    &&& x.backlog == (after.len() > 0)
}

/// The callback after its first half: resamplers, cab-sims and commands.
pub open spec fn first_half(
    v: CallbackView,
    resamplers: SwapsRead,
    cabsims: SwapsRead,
    commands: CommandsRead,
) -> CallbackView {
    v.drain_step(SwapFamily::Resampler, resamplers).drain_step(
        SwapFamily::CabSim,
        cabsims,
    ).command_step(commands)
}

/// The callback after its second half up to the decision on the block: the
/// adaptive engine's wish, model pairs, oversampling engines and the rates. A
/// ring that is not attached is left out.
pub open spec fn second_half(
    v: CallbackView,
    target_ch: Option<usize>,
    models: Option<SwapsRead>,
    engines: Option<SwapsRead>,
) -> CallbackView {
    let a = v.slimmable_step(target_ch);
    let b = match models {
        Some(x) => a.drain_step(SwapFamily::Slimmable, x),
        None => a,
    };
    let c = match engines {
        Some(x) => b.drain_step(SwapFamily::Oversample, x),
        None => b,
    };
    c.rate_step()
}

/// Whether the first half may lead from the first channels and view to the
/// second, having read the given items.
pub open spec fn first_half_outcome(
    ch: RtHostChannels,
    v: CallbackView,
    ch_after: RtHostChannels,
    w: CallbackView,
    resamplers: SwapsRead,
    cabsims: SwapsRead,
    commands: CommandsRead,
) -> bool {
    &&& swaps_read_from(
        swaps_queued(ch.resampler_consumer),
        resamplers,
        swaps_queued(ch_after.resampler_consumer),
    )
    &&& swaps_read_from(
        swaps_queued(ch.cabsim_consumer),
        cabsims,
        swaps_queued(ch_after.cabsim_consumer),
    )
    &&& commands_read_from(
        commands_queued(ch.param_consumer),
        commands,
        commands_queued(ch_after.param_consumer),
    )
    &&& ch_after.slimmable_rx == ch.slimmable_rx
    &&& ch_after.os_rx == ch.os_rx
    &&& w == first_half(v, resamplers, cabsims, commands)
}

/// Whether an optional ring may have given `x`: nothing where it is not there.
pub open spec fn optional_read(
    rx: Option<rtrb::Consumer<SwapPayload>>,
    x: Option<SwapsRead>,
    rx_after: Option<rtrb::Consumer<SwapPayload>>,
) -> bool {
    &&& (rx is Some) == (x is Some)
    &&& (rx_after is Some) == (rx is Some)
    &&& x is Some ==> swaps_read_from(optional_queue(rx), x->0, optional_queue(rx_after))
}

/// Whether the second half may lead from the first channels and view to the
/// second, having read the given items.
pub open spec fn second_half_outcome(
    ch: RtHostChannels,
    v: CallbackView,
    target_ch: Option<usize>,
    ch_after: RtHostChannels,
    w: CallbackView,
    models: Option<SwapsRead>,
    engines: Option<SwapsRead>,
) -> bool {
    &&& optional_read(ch.slimmable_rx, models, ch_after.slimmable_rx)
    &&& optional_read(ch.os_rx, engines, ch_after.os_rx)
    &&& ch_after.param_consumer == ch.param_consumer
    &&& ch_after.resampler_consumer == ch.resampler_consumer
    &&& ch_after.cabsim_consumer == ch.cabsim_consumer
    &&& w == second_half(v, target_ch, models, engines)
}

/// The arguments of a callback as one mathematical value.
pub open spec fn callback_view(
    state: CaptureState,
    status: RtStatusFlags,
    applied: usize,
    retired: Seq<GcItem>,
    changed: bool,
) -> CallbackView {
    CallbackView { state, status, applied, retired, changed }
}

/// What the first half of a callback reports.
#[derive(Clone, Copy, Debug, PartialEq, Eq, Structural)]
pub struct Received {
    /// Whether the gain multipliers must be computed anew.
    pub param_changed: bool,
    /// Commands taken.
    pub pops: usize,
    /// Structural swaps applied so far.
    pub structural_applied: usize,
}

/// First half of a callback: installs rebuilt resamplers and cab-sims and
/// receives commands. Between the halves the adaptive engine, which commands
/// may have changed, says whether it wants other model pairs.
pub fn receive_block(
    state: &mut CaptureState,
    channels: &mut RtHostChannels,
    status: &mut RtStatusFlags,
    retired: &mut Vec<GcItem>,
) -> (r: Received)
    ensures
        exists|resamplers: SwapsRead, cabsims: SwapsRead, commands: CommandsRead|
            r.pops == commands.taken.len() && #[trigger] first_half_outcome(
                *old(channels),
                callback_view(*old(state), *old(status), 0, old(retired)@, false),
                *final(channels),
                callback_view(
                    *final(state),
                    *final(status),
                    r.structural_applied,
                    final(retired)@,
                    r.param_changed,
                ),
                resamplers,
                cabsims,
                commands,
            ),
{
    let mut applied: usize = 0;
    let ghost v0 = callback_view(*state, *status, applied, retired@, false);
    let ghost r0 = swaps_queued(channels.resampler_consumer);
    let ghost c0 = swaps_queued(channels.cabsim_consumer);
    let ghost p0 = commands_queued(channels.param_consumer);
    drain_resamplers(
        &mut channels.resampler_consumer,
        &mut state.deferred_resampler,
        &mut applied,
        &mut state.graph,
        status,
        retired,
    );
    let ghost v1 = callback_view(*state, *status, applied, retired@, false);
    let ghost r1 = swaps_queued(channels.resampler_consumer);
    drain_cabsims(
        &mut channels.cabsim_consumer,
        &mut state.deferred_cabsim,
        &mut applied,
        &mut state.graph,
        status,
        retired,
    );
    let ghost v2 = callback_view(*state, *status, applied, retired@, false);
    let ghost c1 = swaps_queued(channels.cabsim_consumer);
    let (param_changed, pops) = receive_commands(
        &mut channels.param_consumer,
        &mut state.deferred_model,
        &mut applied,
        &mut state.graph,
        &mut state.controls,
        status,
        retired,
    );
    let r = Received { param_changed, pops, structural_applied: applied };
    proof {
        let v3 = callback_view(*state, *status, applied, retired@, param_changed);
        let p1 = commands_queued(channels.param_consumer);
        let (rh, rt) = choose|head: Option<SwapPayload>, taken: Seq<SwapPayload>|
            drain_outcome(
                SwapFamily::Resampler,
                r0,
                v0.drain_input(SwapFamily::Resampler),
                r1,
                v1.drain_input(SwapFamily::Resampler),
                head,
                taken,
            );
        let x = SwapsRead {
            head: rh,
            taken: rt,
            truncated: rt.len() == STRUCTURAL_POPS_PER_CALLBACK && r1.len() > 0,
        };
        assert(v1 == v0.drain_step(SwapFamily::Resampler, x));
        let (ch, ct) = choose|head: Option<SwapPayload>, taken: Seq<SwapPayload>|
            drain_outcome(
                SwapFamily::CabSim,
                c0,
                v1.drain_input(SwapFamily::CabSim),
                c1,
                v2.drain_input(SwapFamily::CabSim),
                head,
                taken,
            );
        let y = SwapsRead {
            head: ch,
            taken: ct,
            truncated: ct.len() == STRUCTURAL_POPS_PER_CALLBACK && c1.len() > 0,
        };
        assert(v2 == v1.drain_step(SwapFamily::CabSim, y));
        let (ph, pt) = choose|head: Option<ParamPayload>, taken: Seq<ParamPayload>|
            pops == taken.len() && #[trigger] crate::commands::reception_outcome(
                p0,
                command_view(
                    v2.state.deferred_model,
                    v2.applied,
                    v2.state.graph,
                    v2.state.controls,
                    v2.status,
                    v2.retired,
                    false,
                ),
                p1,
                command_view(
                    v3.state.deferred_model,
                    v3.applied,
                    v3.state.graph,
                    v3.state.controls,
                    v3.status,
                    v3.retired,
                    param_changed,
                ),
                head,
                taken,
            );
        let z = CommandsRead { head: ph, taken: pt, backlog: p1.len() > 0 };
        assert(v3 == v2.command_step(z));
        assert(first_half_outcome(*old(channels), v0, *channels, v3, x, y, z));
    }
    r
}

/// Second half of a callback: passes the adaptive engine's wish on, installs
/// model pairs and oversampling engines, compares the rates and decides whether
/// the block is processed. Returns the host rate, that decision, and the
/// structural swaps applied in the whole callback.
pub fn settle_block(
    state: &mut CaptureState,
    channels: &mut RtHostChannels,
    status: &mut RtStatusFlags,
    retired: &mut Vec<GcItem>,
    structural_applied: usize,
    target_ch: Option<usize>,
) -> (r: (u32, bool, usize))
    ensures
        exists|
            settled: CallbackView,
            models: Option<SwapsRead>,
            engines: Option<SwapsRead>,
        |
            #[trigger] second_half_outcome(
                *old(channels),
                callback_view(*old(state), *old(status), structural_applied, old(retired)@, false),
                target_ch,
                *final(channels),
                settled,
                models,
                engines,
            ) && *final(state) == settled.state && *final(status) == settled.pending_step().status
                && final(retired)@ == settled.retired && r.0
                == settled.state.graph.resampler.host_rate && r.1 == settled.block_goes_through()
                && r.2 == settled.applied,
{
    let mut applied: usize = structural_applied;
    let ghost v0 = callback_view(*state, *status, applied, retired@, false);
    let ghost s0 = channels.slimmable_rx;
    let ghost o0 = channels.os_rx;
    try_slimmable_rebuild(target_ch, status);
    let ghost v1 = callback_view(*state, *status, applied, retired@, false);
    assert(v1 == v0.slimmable_step(target_ch));
    drain_slimmable_models(
        &mut channels.slimmable_rx,
        &mut state.deferred_slimmable,
        &mut applied,
        &mut state.graph,
        status,
        retired,
    );
    let ghost v2 = callback_view(*state, *status, applied, retired@, false);
    let ghost s1 = channels.slimmable_rx;
    drain_os_engines(
        &mut channels.os_rx,
        &mut state.deferred_os,
        &mut applied,
        &mut state.graph,
        status,
        retired,
    );
    let ghost v3 = callback_view(*state, *status, applied, retired@, false);
    let ghost o1 = channels.os_rx;
    let resampler = state.graph.resampler;
    let rate: u32 = sync_rate(
        &mut state.shared_target_rate,
        &resampler,
        state.controls.current_nam_rate,
        status,
    );
    let ghost v4 = callback_view(*state, *status, applied, retired@, false);
    assert(v4 == v3.rate_step());
    proof {
        let (mh, mt) = choose|head: Option<SwapPayload>, taken: Seq<SwapPayload>|
            optional_drain_outcome(
                SwapFamily::Slimmable,
                s0,
                v1.drain_input(SwapFamily::Slimmable),
                s1,
                v2.drain_input(SwapFamily::Slimmable),
                head,
                taken,
            );
        let m = SwapsRead {
            head: mh,
            taken: mt,
            truncated: mt.len() == STRUCTURAL_POPS_PER_CALLBACK && optional_queue(s1).len() > 0,
        };
        let models = if s0 is Some { Some(m) } else { None };
        assert(v2 == if s0 is Some { v1.drain_step(SwapFamily::Slimmable, m) } else { v1 });
        let (eh, et) = choose|head: Option<SwapPayload>, taken: Seq<SwapPayload>|
            optional_drain_outcome(
                SwapFamily::Oversample,
                o0,
                v2.drain_input(SwapFamily::Oversample),
                o1,
                v3.drain_input(SwapFamily::Oversample),
                head,
                taken,
            );
        let e = SwapsRead {
            head: eh,
            taken: et,
            truncated: et.len() == STRUCTURAL_POPS_PER_CALLBACK && optional_queue(o1).len() > 0,
        };
        let engines = if o0 is Some { Some(e) } else { None };
        assert(v3 == if o0 is Some { v2.drain_step(SwapFamily::Oversample, e) } else { v2 });
        assert(second_half_outcome(*old(channels), v0, target_ch, *channels, v4, models, engines));
    }
    let process = resolve_pending_swap(status);
    (rate, process, applied)
}

/// The capture callback with everything it owns.
pub struct CaptureCallback {
    /// Its state.
    pub state: CaptureState,
    /// Its ends of the rings.
    pub channels: RtHostChannels,
    /// The status word and counters.
    pub rt_status: RtStatusFlags,
    /// The disposal ring.
    pub gc_producer: rtrb::Producer<GcItem>,
    /// The parking slots for retired items.
    pub parking_lot: ParkingLot,
    /// Retired items that fitted nowhere else.
    pub gc_overflow: Vec<GcItem>,
    /// Items retired in the present callback; room for
    /// [`RETIRED_PER_CALLBACK`] more keeps the callback free of allocation.
    pub retired: Vec<GcItem>,
    /// Host rate of the last callback.
    pub current_host_rate: u32,
    /// Frames of the last processed block.
    pub last_n_pw: usize,
}

/// What a callback decided about its block.
#[derive(Clone, Copy, Debug, PartialEq, Eq, Structural)]
pub struct BlockPlan {
    /// Whether the block is processed.
    pub process: bool,
    /// Host rate.
    pub host_rate: u32,
    /// Whether the gain multipliers must be computed anew first.
    pub param_changed: bool,
    /// Structural swaps applied.
    pub structural_applied: usize,
}

/// Everything that a callback read from its rings.
pub struct CallbackReads {
    /// From the resampler ring.
    pub resamplers: SwapsRead,
    /// From the cab-sim ring.
    pub cabsims: SwapsRead,
    /// From the command ring.
    pub commands: CommandsRead,
    /// From the model-pair ring, if attached.
    pub models: Option<SwapsRead>,
    /// From the oversampling ring, if attached.
    pub engines: Option<SwapsRead>,
}

/// Whether a callback can have read `x` from the rings.
pub open spec fn reads_match(ch: RtHostChannels, x: CallbackReads, ch_after: RtHostChannels) -> bool {
    &&& swaps_read_from(
        swaps_queued(ch.resampler_consumer),
        x.resamplers,
        swaps_queued(ch_after.resampler_consumer),
    )
    &&& swaps_read_from(
        swaps_queued(ch.cabsim_consumer),
        x.cabsims,
        swaps_queued(ch_after.cabsim_consumer),
    )
    &&& commands_read_from(
        commands_queued(ch.param_consumer),
        x.commands,
        commands_queued(ch_after.param_consumer),
    )
    &&& optional_read(ch.slimmable_rx, x.models, ch_after.slimmable_rx)
    &&& optional_read(ch.os_rx, x.engines, ch_after.os_rx)
}

/// The callback up to the decision on its block, having read `x`.
pub open spec fn callback_settled(
    v: CallbackView,
    target_ch: Option<usize>,
    x: CallbackReads,
) -> CallbackView {
    let w = first_half(v, x.resamplers, x.cabsims, x.commands);
    CallbackView {
        changed: w.changed,
        ..second_half(CallbackView { changed: false, ..w }, target_ch, x.models, x.engines)
    }
}

/// Whether a callback may lead from `h` to `e` with the plan `p`, having read
/// `x` from the rings: the state, the status and the plan follow from what was
/// read, the parking slots are flushed first, and every retired object is then
/// on its way to disposal.
pub open spec fn callback_outcome(
    h: CaptureCallback,
    target_ch: Option<usize>,
    e: CaptureCallback,
    p: BlockPlan,
    x: CallbackReads,
) -> bool {
    let v = callback_view(h.state, h.rt_status, 0, h.retired@, false);
    let w = callback_settled(v, target_ch, x);
    &&& reads_match(h.channels, x, e.channels)
    &&& e.state == w.state
    &&& e.rt_status == w.pending_step().status
    &&& p.process == w.block_goes_through()
    &&& p.host_rate == w.state.graph.resampler.host_rate
    &&& p.param_changed == w.changed
    &&& p.structural_applied == w.applied
    &&& e.current_host_rate == p.host_rate
    &&& e.last_n_pw == h.last_n_pw
    &&& e.retired@.len() == 0
    &&& exists|mid: LotView| #[trigger]
        flushed(lot_view(h.parking_lot, h.gc_producer), mid) && all_disposed(
            w.retired,
            mid,
            h.gc_overflow@,
            lot_view(e.parking_lot, e.gc_producer),
            e.gc_overflow@,
        )
    &&& in_disposal(
        retired_sent(e.gc_producer),
        e.parking_lot.slots@,
        e.gc_overflow@,
    ) == in_disposal(
        retired_sent(h.gc_producer),
        h.parking_lot.slots@,
        h.gc_overflow@,
    ).add(w.retired.to_multiset())
}

impl CaptureCallback {
    /// Runs one callback up to the DSP: flushes the parking slots, drains the
    /// rings, passes the adaptive engine's wish on, compares the rates, decides
    /// on the block and disposes of what was retired.
    pub fn run_callback(&mut self, target_ch: Option<usize>) -> (plan: BlockPlan)
        ensures
            exists|x: CallbackReads| #[trigger]
                callback_outcome(*old(self), target_ch, *final(self), plan, x),
    {
        let ghost h = *self;
        self.parking_lot.flush(&mut self.gc_producer);
        let ghost lot = lot_view(self.parking_lot, self.gc_producer);
        proof {
            flush_keeps_disposal(lot_view(h.parking_lot, h.gc_producer), lot, h.gc_overflow@);
        }
        let ghost v0 = callback_view(self.state, self.rt_status, 0, self.retired@, false);
        let first = receive_block(
            &mut self.state,
            &mut self.channels,
            &mut self.rt_status,
            &mut self.retired,
        );
        let ghost mid = *self;
        let ghost v1 = callback_view(
            self.state,
            self.rt_status,
            first.structural_applied,
            self.retired@,
            first.param_changed,
        );
        let (host_rate, process, structural_applied) = settle_block(
            &mut self.state,
            &mut self.channels,
            &mut self.rt_status,
            &mut self.retired,
            first.structural_applied,
            target_ch,
        );
        let ghost end = *self;
        let ghost all_retired = self.retired@;
        dispose_all(
            &mut self.retired,
            &mut self.parking_lot,
            &mut self.gc_producer,
            &mut self.gc_overflow,
        );
        self.current_host_rate = host_rate;
        let plan = BlockPlan {
            process,
            host_rate,
            param_changed: first.param_changed,
            structural_applied,
        };
        proof {
            let (r, c, p) = choose|resamplers: SwapsRead, cabsims: SwapsRead, commands: CommandsRead|
                first.pops == commands.taken.len() && #[trigger] first_half_outcome(
                    h.channels,
                    v0,
                    mid.channels,
                    v1,
                    resamplers,
                    cabsims,
                    commands,
                );
            let (w, m, e) = choose|
                settled: CallbackView,
                models: Option<SwapsRead>,
                engines: Option<SwapsRead>,
            |
                #[trigger] second_half_outcome(
                    mid.channels,
                    callback_view(
                        mid.state,
                        mid.rt_status,
                        first.structural_applied,
                        v1.retired,
                        false,
                    ),
                    target_ch,
                    end.channels,
                    settled,
                    models,
                    engines,
                ) && end.state == settled.state && end.rt_status == settled.pending_step().status
                    && all_retired == settled.retired && host_rate
                    == settled.state.graph.resampler.host_rate && process
                    == settled.block_goes_through() && structural_applied == settled.applied;
            let x = CallbackReads { resamplers: r, cabsims: c, commands: p, models: m, engines: e };
            assert(flushed(lot_view(h.parking_lot, h.gc_producer), lot));
            assert(callback_outcome(h, target_ch, *self, plan, x));
        }
        plan
    }

    /// Records that the DSP made `n_pw` frames of the block.
    pub fn finish_block(&mut self, n_pw: usize)
        ensures
            *final(self) == (CaptureCallback {
                state: CaptureState {
                    frame_count: next_count(old(self).state.frame_count),
                    ..old(self).state
                },
                last_n_pw: n_pw,
                ..*old(self)
            }),
    {
        self.state.frame_count = self.state.frame_count.wrapping_add(1);
        self.last_n_pw = n_pw;
    }

    /// Frames of the last processed block, as many as a buffer holds.
    pub fn current_n_pw(&self) -> (r: usize)
        ensures
            r == if self.last_n_pw < MAX_RESAMP_BUF { self.last_n_pw } else { MAX_RESAMP_BUF },
    {
        if self.last_n_pw < MAX_RESAMP_BUF {
            self.last_n_pw
        } else {
            MAX_RESAMP_BUF
        }
    }
}

/// Whether the host clock is sampled after a block: every 64 blocks, counted
/// from the first.
pub fn clock_sample_due(frame_count: u32) -> (r: bool)
    ensures
        r == (frame_count % 64 == 1),
        r == comes_round(frame_count as int, 64, 1),
{
    let before: u32 = frame_count.wrapping_sub(1);
    assert((before & 0x3F == 0) == (before % 64 == 0)) by (bit_vector);
    (before & 0x3F) == 0
}

/// Whether the adaptive engine looks at the load after a block: every 16
/// blocks, counted from the first.
pub fn load_sample_due(frame_count: u32) -> (r: bool)
    ensures
        r == (frame_count % 16 == 1),
        r == comes_round(frame_count as int, 16, 1),
{
    let before: u32 = frame_count.wrapping_sub(1);
    assert((before & 0xF == 0) == (before % 16 == 0)) by (bit_vector);
    (before & 0xF) == 0
}

/// The load in microseconds: how long the block took, and how long it may take.
pub open spec fn load_in_micros(elapsed_nanos: u64, n_samples: u32, host_rate: u32) -> (int, int) {
    (
        elapsed_nanos as int / 1000,
        (n_samples as int * 1_000_000_000) / (host_rate as int) / 1000,
    )
}

/// What the adaptive engine is told of the load: how long the block took and
/// how long it may take, both in microseconds. Nothing where no time was
/// measured or the block or the rate is not known.
pub fn load_sample(elapsed_nanos: u64, n_samples: u32, host_rate: u32) -> (r: Option<(u64, u64)>)
    ensures
        r == (if elapsed_nanos > 0 && n_samples > 0 && host_rate > 0 {
            Some(
                (
                    (elapsed_nanos / 1000) as u64,
                    ((n_samples as int * 1_000_000_000) / (host_rate as int) / 1000) as u64,
                ),
            )
        } else {
            None
        }),
        r matches Some(l) ==> (l.0 as int, l.1 as int) == load_in_micros(
            elapsed_nanos,
            n_samples,
            host_rate,
        ),
{
    if elapsed_nanos > 0 && n_samples > 0 && host_rate > 0 {
        let budget_ns: u64 = n_samples as u64 * 1_000_000_000 / host_rate as u64;
        Some((elapsed_nanos / 1000, budget_ns / 1000))
    } else {
        None
    }
}

/// Whether the cab-sim must be rebuilt for the present block size and rate.
pub open spec fn cabsim_due(
    active: Option<CabSimPair>,
    has_ir: bool,
    n_samples: int,
    host_rate: u32,
    pending: bool,
) -> bool {
    &&& has_ir
    &&& MIN_CABSIM_PARTITION <= n_samples <= MAX_RESAMP_BUF
    &&& match active {
        None => !pending,
        Some(p) => p.partition_size != n_samples || p.sample_rate != host_rate,
    }
}

/// Whether the cab-sim must be rebuilt: there is an impulse response, the block
/// size is one that a convolver supports, and the running pair was made for
/// another size or rate, or there is none and none is being built.
pub fn cabsim_rebuild_needed(
    active: Option<&CabSimPair>,
    has_ir: bool,
    n_samples: usize,
    host_rate: u32,
    pending: bool,
) -> (r: bool)
    ensures
        r == cabsim_due(
            match active {
                Some(p) => Some(*p),
                None => None,
            },
            has_ir,
            n_samples as int,
            host_rate,
            pending,
        ),
{
    if !has_ir || n_samples < MIN_CABSIM_PARTITION || n_samples > MAX_RESAMP_BUF {
        return false;
    }
    match active {
        None => !pending,
        Some(p) => p.partition_size != n_samples || p.sample_rate != host_rate,
    }
}

/// The status after a cab-sim pair was asked for.
pub open spec fn cabsim_requested(
    s: RtStatusFlags,
    partition: u32,
    host_rate: u32,
) -> RtStatusFlags {
    RtStatusFlags {
        requested_cabsim_partition_size: partition,
        requested_cabsim_host_rate: host_rate,
        requested_cabsim_generation: next_generation(s.requested_cabsim_generation),
        ..s
    }.with_flag(RT_STATUS_NEEDS_CABSIM_REBUILD)
}

/// End of a callback: asks for another cab-sim pair where the running one no
/// longer fits. The request is published before its flag is raised.
pub fn request_cabsim_if_needed(
    active: Option<&CabSimPair>,
    has_ir: bool,
    host_rate: u32,
    status: &mut RtStatusFlags,
) -> (requested: bool)
    ensures
        ({
            let pair = match active {
                Some(p) => Some(*p),
                None => None,
            };
            let n = old(status).last_n_samples;
            &&& requested == cabsim_due(
                pair,
                has_ir,
                n as int,
                host_rate,
                old(status).has(RT_STATUS_NEEDS_CABSIM_REBUILD),
            )
            &&& *final(status) == if requested {
                cabsim_requested(*old(status), n, host_rate)
            } else {
                *old(status)
            }
        }),
{
    let n: u32 = status.last_n_samples;
    let pending = status.check_flag(RT_STATUS_NEEDS_CABSIM_REBUILD);
    if !cabsim_rebuild_needed(active, has_ir, n as usize, host_rate, pending) {
        return false;
    }
    status.requested_cabsim_partition_size = n;
    status.requested_cabsim_host_rate = host_rate;
    status.requested_cabsim_generation = status.requested_cabsim_generation.wrapping_add(1);
    status.set_flag(RT_STATUS_NEEDS_CABSIM_REBUILD);
    true
}

/// A pair built for a request fits it: once installed, the same block size and
/// rate ask for no further rebuild.
pub proof fn rebuilt_cabsim_settles(
    pair: CabSimPair,
    has_ir: bool,
    n_samples: int,
    host_rate: u32,
    pending: bool,
)
    requires
        pair.partition_size == crate::handlers::clamped_partition(n_samples),
        pair.sample_rate == host_rate,
    ensures
        !cabsim_due(Some(pair), has_ir, n_samples, host_rate, pending),
{
}

/// With an impulse response loaded and a block size that a convolver supports, a
/// running pair is kept exactly where it was made for that size and that rate,
/// and a missing one is asked for unless it is being built. Without a response,
/// or for another size, none is asked for.
pub proof fn cabsim_is_kept_only_where_it_fits(
    active: Option<CabSimPair>,
    has_ir: bool,
    n_samples: int,
    host_rate: u32,
    pending: bool,
)
    ensures
        !has_ir || n_samples < 16 || n_samples > 8192 ==> !cabsim_due(
            active,
            has_ir,
            n_samples,
            host_rate,
            pending,
        ),
        has_ir && 16 <= n_samples <= 8192 ==> match active {
            Some(pair) => !cabsim_due(active, has_ir, n_samples, host_rate, pending) <==> (
            pair.partition_size == n_samples && pair.sample_rate == host_rate),
            None => !cabsim_due(active, has_ir, n_samples, host_rate, pending) <==> pending,
        },
{
}

/// Asking for a cab-sim pair publishes the size and the rate under a new
/// generation and raises the flag, and nothing else.
pub proof fn cabsim_request_is_published(s: RtStatusFlags, partition: u32, host_rate: u32)
    ensures
        ({
            let t = cabsim_requested(s, partition, host_rate);
            &&& t.requested_cabsim_partition_size == partition
            &&& t.requested_cabsim_host_rate == host_rate
            &&& t.requested_cabsim_generation != s.requested_cabsim_generation
            &&& t.has(RT_STATUS_NEEDS_CABSIM_REBUILD)
            &&& t == RtStatusFlags {
                status_bits: t.status_bits,
                requested_cabsim_partition_size: t.requested_cabsim_partition_size,
                requested_cabsim_host_rate: t.requested_cabsim_host_rate,
                requested_cabsim_generation: t.requested_cabsim_generation,
                ..s
            }
        }),
{
    crate::rt_status::generation_step_differs(s.requested_cabsim_generation);
    crate::rt_status::set_flag_is_local(
        s.status_bits,
        RT_STATUS_NEEDS_CABSIM_REBUILD,
        RT_STATUS_NEEDS_CABSIM_REBUILD,
    );
}

/// A callback starts with the objects it is given, without models, cab-sim or
/// anything put off, at unit gain, and with the thresholds it is given, unless
/// the silence gate is off: then with zeros, which nothing falls below.
pub proof fn first_state_is_neutral(
    resampler: NamResampler,
    stream: StreamingResampleBuffer,
    os_l: OversampleEngine,
    os_r: OversampleEngine,
    gate: GateConfig,
    squares: (Single, Single),
)
    ensures
        ({
            let s = CaptureState::initial(resampler, stream, os_l, os_r, gate, squares);
            let one = Single { bits: 0x3F80_0000 };
            &&& s.graph.resampler == resampler && s.graph.stream == stream
            &&& s.graph.os_l == os_l && s.graph.os_r == os_r
            &&& s.graph.model_l is None && s.graph.model_r is None && s.graph.cabsim is None
            &&& s.controls.user_input_gain_mult == one && s.controls.user_output_gain_mult == one
            &&& s.controls.model_input_mult_adj == one && s.controls.model_output_mult_adj == one
            &&& s.input_gain_mult == one && s.output_gain_mult == one
            &&& s.controls.current_nam_rate == 48_000
            &&& s.controls.slim_override is Auto
            &&& gate is Off ==> s.threshold_open_sq.bits == 0 && s.threshold_close_sq.bits == 0
            &&& !(gate is Off) ==> (s.threshold_open_sq, s.threshold_close_sq) == squares
            &&& gate matches GateConfig::Threshold { threshold_open_db, threshold_close_db } ==> {
                &&& s.controls.gate_params.threshold_open_db == threshold_open_db
                &&& s.controls.gate_params.threshold_close_db == threshold_close_db
            }
            &&& !s.controls.thresholds_stale && !s.has_ir && !s.recording_meta_sent
            &&& !s.thread_configured
            &&& s.shared_target_rate == 0 && s.frame_count == 0
            &&& s.deferred_resampler is None && s.deferred_cabsim is None
            &&& s.deferred_model is None && s.deferred_slimmable is None && s.deferred_os is None
        }),
{
}

/// The adaptive engine's wish is published as it is, under a new generation;
/// without one nothing is asked for.
pub proof fn wish_is_published(v: CallbackView, target_ch: Option<usize>)
    ensures
        ({
            let w = v.slimmable_step(target_ch);
            &&& w.state == v.state && w.applied == v.applied && w.retired == v.retired
            &&& target_ch is None ==> w.status == v.status
            &&& target_ch matches Some(ch) ==> {
                &&& ch <= u32::MAX ==> w.status.requested_slimmable_ch == ch
                &&& w.status.requested_slimmable_generation
                    != v.status.requested_slimmable_generation
                &&& w.status.has(RT_STATUS_NEEDS_SLIMMABLE_REBUILD)
                &&& w.status == RtStatusFlags {
                    status_bits: w.status.status_bits,
                    requested_slimmable_ch: w.status.requested_slimmable_ch,
                    requested_slimmable_generation: w.status.requested_slimmable_generation,
                    ..v.status
                }
            }
        }),
{
    crate::rt_status::generation_step_differs(v.status.requested_slimmable_generation);
    crate::rt_status::set_flag_is_local(
        v.status.status_bits,
        RT_STATUS_NEEDS_SLIMMABLE_REBUILD,
        RT_STATUS_NEEDS_SLIMMABLE_REBUILD,
    );
}

/// A whole callback ends with rates that agree or with a request for the rates
/// that are needed: between the host rate just negotiated, or without one that
/// of the resampler it ends with, and that of the models it ends with. While the
/// request is open its block is not processed, unless it is known to have
/// failed.
pub proof fn callback_ends_in_step_or_asks(
    v: CallbackView,
    target_ch: Option<usize>,
    x: CallbackReads,
)
    ensures
        ({
            let w = callback_settled(v, target_ch, x);
            let detected = v.state.shared_target_rate;
            let host = if detected != 0 { detected } else { w.state.graph.resampler.host_rate };
            let nam = w.state.controls.current_nam_rate;
            let in_step = host == w.state.graph.resampler.host_rate && nam
                == w.state.graph.resampler.nam_rate;
            &&& w.state.shared_target_rate == 0
            &&& !in_step && host != 0 ==> {
                &&& w.status.requested_host_rate == host
                &&& w.status.requested_nam_rate == nam
                &&& w.status.has(RT_STATUS_NEEDS_RESAMPLER_REBUILD)
                &&& w.status.has(RT_STATUS_RESAMP_SWAP_PENDING)
            }
            &&& w.block_goes_through() <==> (!w.status.has(RT_STATUS_RESAMP_SWAP_PENDING) || (
            w.status.resampler_failed_generation != 0 && w.status.resampler_failed_generation
                == w.status.requested_rate_generation))
        }),
{
    let w1 = first_half(v, x.resamplers, x.cabsims, x.commands);
    let a = CallbackView { changed: false, ..w1 }.slimmable_step(target_ch);
    let b = match x.models {
        Some(r) => a.drain_step(SwapFamily::Slimmable, r),
        None => a,
    };
    let c = match x.engines {
        Some(r) => b.drain_step(SwapFamily::Oversample, r),
        None => b,
    };
    crate::rate_sync::requested_resampler_is_the_needed_one(
        c.status,
        c.state.shared_target_rate,
        c.state.graph.resampler,
        c.state.controls.current_nam_rate,
    );
}

/// Both times are whole microseconds, rounded down: of the time the block took,
/// and of the time in which so many frames are played at the rate.
pub proof fn load_is_told_in_whole_micros(elapsed_nanos: u64, n_samples: u32, host_rate: u32)
    requires
        host_rate > 0,
    ensures
        ({
            let (took, may) = load_in_micros(elapsed_nanos, n_samples, host_rate);
            &&& took * 1000 <= elapsed_nanos < took * 1000 + 1000
            &&& may * host_rate <= n_samples * 1_000_000 < (may + 1) * host_rate
        }),
{
    let (took, may) = load_in_micros(elapsed_nanos, n_samples, host_rate);
    let r = host_rate as int;
    let x = n_samples as int * 1_000_000_000;
    let nanos = x / r;
    assert(nanos * r <= x < (nanos + 1) * r) by (nonlinear_arith)
        requires
            r > 0,
            nanos == x / r,
    ;
    assert(may * 1000 <= nanos < may * 1000 + 1000);
    assert(may * 1000 * r <= nanos * r) by (nonlinear_arith)
        requires
            may * 1000 <= nanos,
            r > 0,
    ;
    assert((nanos + 1) * r <= (may + 1) * 1000 * r) by (nonlinear_arith)
        requires
            nanos + 1 <= may * 1000 + 1000,
            r > 0,
    ;
    assert(may * 1000 * r == 1000 * (may * r)) by (nonlinear_arith);
    assert((may + 1) * 1000 * r == 1000 * ((may + 1) * r)) by (nonlinear_arith);
}

/// A drain of a family works on that family's put-off envelope and on the shared
/// objects, and leaves the other families' envelopes and the settings alone.
pub proof fn drains_keep_to_their_own_slot(v: CallbackView, family: SwapFamily, x: SwapsRead)
    ensures
        ({
            let d = v.drain_input(family);
            let e = drained(family, d, x.head, x.taken, x.truncated);
            let w = v.drain_step(family, x);
            &&& d.graph == v.state.graph && d.status == v.status && d.applied == v.applied
            &&& d.retired == v.retired
            &&& w.state.graph == e.graph && w.status == e.status && w.applied == e.applied
            &&& w.retired == e.retired && w.changed == v.changed
            &&& w.state.controls == v.state.controls && w.state.deferred_model
                == v.state.deferred_model && w.state.shared_target_rate
                == v.state.shared_target_rate
            &&& family is Resampler ==> d.deferred == v.state.deferred_resampler
                && w.state.deferred_resampler == e.deferred
            &&& !(family is Resampler) ==> w.state.deferred_resampler
                == v.state.deferred_resampler
            &&& family is CabSim ==> d.deferred == v.state.deferred_cabsim
                && w.state.deferred_cabsim == e.deferred
            &&& !(family is CabSim) ==> w.state.deferred_cabsim == v.state.deferred_cabsim
            &&& family is Slimmable ==> d.deferred == v.state.deferred_slimmable
                && w.state.deferred_slimmable == e.deferred
            &&& !(family is Slimmable) ==> w.state.deferred_slimmable
                == v.state.deferred_slimmable
            &&& family is Oversample ==> d.deferred == v.state.deferred_os && w.state.deferred_os
                == e.deferred
            &&& !(family is Oversample) ==> w.state.deferred_os == v.state.deferred_os
        }),
{
}

/// A gain that was received in a callback is in its settings at the end, and
/// asks for new multipliers; nothing later in the callback changes a setting.
pub proof fn settings_of_a_callback_come_from_its_commands(
    v: CallbackView,
    target_ch: Option<usize>,
    x: CallbackReads,
)
    ensures
        ({
            let a = v.drain_step(SwapFamily::Resampler, x.resamplers).drain_step(
                SwapFamily::CabSim,
                x.cabsims,
            );
            let c = received(
                command_view(
                    v.state.deferred_model,
                    a.applied,
                    a.state.graph,
                    v.state.controls,
                    a.status,
                    a.retired,
                    v.changed,
                ),
                x.commands.head,
                x.commands.taken,
                x.commands.backlog,
            );
            let w = callback_settled(v, target_ch, x);
            &&& w.state.controls == c.controls
            &&& w.state.deferred_model == c.deferred
            &&& w.changed == c.changed
        }),
{
}

} // verus!
