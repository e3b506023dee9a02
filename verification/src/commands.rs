//! Commands of the control plane, received inside the audio callback.
//!
//! A callback takes a bounded number of commands. Scalar settings apply at the
//! end, the newest of each kind winning. Model replacements share the
//! callback's budget of structural swaps: the newest applies or is put off, and
//! the models of the others are retired.

use vstd::prelude::*;

use crate::payload::{
    GateParams, GcItem, LoadModel, ParamPayload, SlimOverride, StaticModel,
};
use crate::rings::{
    begins_with, commands_queued, peek_command, peek_keeps_order, pop_command, pop_keeps_order,
};
use crate::rt_status::{
    next_generation, RtStatusFlags, RT_STATUS_NEEDS_OS_REBUILD, RT_STATUS_NEEDS_SLIMMABLE_REBUILD,
    RT_STATUS_PARAM_QUEUE_BACKLOG,
};
use crate::single::{Single, SINGLE_ONE_BITS};
use crate::swap::{read_in_order, ActiveGraph, STRUCTURAL_SWAPS_PER_CALLBACK};

verus! {

/// Commands that one callback takes at most.
pub const MAX_PARAM_BUDGET: usize = 16;

/// Rate assumed when no model is loaded.
pub const DEFAULT_NAM_RATE: u32 = 48_000;

/// What the adaptive engine is told of a loaded WaveNet.
#[derive(Clone, Copy, Debug, PartialEq, Eq, Structural)]
pub struct WavenetInfo {
    /// Full channel count.
    pub channels: usize,
    /// Whether it can be sliced to fewer channels.
    pub slimmable_capable: bool,
}

/// Settings that commands change and the DSP reads.
#[derive(Clone, Copy, Debug, PartialEq, Eq, Structural)]
pub struct Controls {
    /// Input gain set by the user.
    pub user_input_gain_mult: Single,
    /// Output gain set by the user.
    pub user_output_gain_mult: Single,
    /// Input multiplier the loaded models expect.
    pub model_input_mult_adj: Single,
    /// Output multiplier the loaded models expect.
    pub model_output_mult_adj: Single,
    /// Rate the loaded models run at.
    pub current_nam_rate: u32,
    /// The silence gate.
    pub gate_params: GateParams,
    /// Whether the squared linear thresholds no longer stand for the levels of
    /// the silence gate.
    pub thresholds_stale: bool,
    /// Manual quality override.
    pub slim_override: SlimOverride,
    /// The last WaveNet loaded into the left channel.
    pub wavenet_full: Option<WavenetInfo>,
}

/// What one reception works on, as mathematical values.
pub struct CommandView {
    /// The model replacement put off by an earlier callback.
    pub deferred: Option<LoadModel>,
    /// Structural swaps already applied in this callback.
    pub applied: usize,
    /// The running objects.
    pub graph: ActiveGraph,
    /// The settings.
    pub controls: Controls,
    /// The status word and counters.
    pub status: RtStatusFlags,
    /// Items retired so far, oldest first.
    pub retired: Seq<GcItem>,
    /// Whether the gain multipliers must be computed anew.
    pub changed: bool,
}

/// Scalar settings seen in one reception; the newest of each kind.
#[derive(Clone, Copy, Debug, PartialEq, Eq, Structural)]
pub struct PendingScalars {
    /// Input gain.
    pub input_gain: Option<Single>,
    /// Output gain.
    pub output_gain: Option<Single>,
    /// Gate.
    pub gate: Option<GateParams>,
    /// Quality override.
    pub slim_override: Option<SlimOverride>,
}

/// A retired item for each model that is there, in order.
pub open spec fn model_items(l: Option<StaticModel>, r: Option<StaticModel>) -> Seq<GcItem> {
    (match l {
        Some(m) => seq![GcItem::Model(m)],
        None => Seq::<GcItem>::empty(),
    }) + (match r {
        Some(m) => seq![GcItem::Model(m)],
        None => Seq::<GcItem>::empty(),
    })
}

/// The settings after a model replacement: those of the new models, or the
/// neutral ones when both channels are emptied.
pub open spec fn controls_with(p: LoadModel, c: Controls) -> Controls {
    let loaded = p.model_l is Some || p.model_r is Some;
    Controls {
        model_input_mult_adj: if loaded { p.input_mult_adj } else { Single { bits: SINGLE_ONE_BITS } },
        model_output_mult_adj: if loaded { p.output_mult_adj } else { Single { bits: SINGLE_ONE_BITS } },
        current_nam_rate: if loaded { p.sample_rate } else { DEFAULT_NAM_RATE },
        wavenet_full: match p.model_l {
            Some(m) => if m.wavenet_dyn {
                Some(WavenetInfo { channels: m.channels, slimmable_capable: m.slimmable_capable })
            } else {
                c.wavenet_full
            },
            None => c.wavenet_full,
        },
        ..c
    }
}

impl CommandView {
    /// The models of the command are retired: a newer command replaces it.
    pub open spec fn supersede(self, p: LoadModel) -> CommandView {
        CommandView {
            retired: self.retired + model_items(p.model_l, p.model_r),
            status: self.status.with_supersession(),
            ..self
        }
    }

    /// Both channels take the command's models; the old ones are retired.
    pub open spec fn install(self, p: LoadModel) -> CommandView {
        CommandView {
            applied: (self.applied + 1) as usize,
            graph: ActiveGraph { model_l: p.model_l, model_r: p.model_r, ..self.graph },
            controls: controls_with(p, self.controls),
            retired: self.retired + model_items(self.graph.model_l, self.graph.model_r),
            changed: true,
            ..self
        }
    }

    /// The command is put off to the next callback.
    pub open spec fn park(self, p: LoadModel) -> CommandView {
        CommandView { deferred: Some(p), status: self.status.with_deferral(), ..self }
    }

    /// Whether the callback may still apply a structural swap.
    pub open spec fn budget_left(self) -> bool {
        self.applied < STRUCTURAL_SWAPS_PER_CALLBACK
    }
}

/// The state after the put-off model replacement was resolved, `head` being
/// the first queued command: superseded when that is a model replacement too,
/// otherwise installed, or kept when the budget is spent.
pub open spec fn deferred_model_resolved(
    v: CommandView,
    head: Option<ParamPayload>,
) -> CommandView {
    match v.deferred {
        None => v,
        Some(p) => {
            let free = CommandView { deferred: None, ..v };
            if head is Some && head->0 is LoadModel {
                free.supersede(p)
            } else if v.budget_left() {
                free.install(p)
            } else {
                free.park(p)
            }
        },
    }
}

/// The status after another oversampling factor was asked for.
pub open spec fn oversample_requested(s: RtStatusFlags, code: u32) -> RtStatusFlags {
    RtStatusFlags {
        requested_os_factor: code,
        requested_os_generation: next_generation(s.requested_os_generation),
        ..s
    }.with_flag(RT_STATUS_NEEDS_OS_REBUILD)
}

/// Where a reception stands between two commands.
pub struct Reception {
    /// The state.
    pub view: CommandView,
    /// The newest scalar settings seen.
    pub pending: PendingScalars,
    /// The newest model replacement seen.
    pub candidate: Option<LoadModel>,
}

/// No scalar setting seen yet.
pub open spec fn no_scalars() -> PendingScalars {
    PendingScalars { input_gain: None, output_gain: None, gate: None, slim_override: None }
}

/// One command taken from the ring.
pub open spec fn one_command(r: Reception, p: ParamPayload) -> Reception {
    match p {
        ParamPayload::InputGain(x) => Reception {
            pending: PendingScalars { input_gain: Some(x), ..r.pending },
            ..r
        },
        ParamPayload::OutputGain(x) => Reception {
            pending: PendingScalars { output_gain: Some(x), ..r.pending },
            ..r
        },
        ParamPayload::GateConfig(x) => Reception {
            pending: PendingScalars { gate: Some(x), ..r.pending },
            ..r
        },
        ParamPayload::SlimOverride(x) => Reception {
            pending: PendingScalars { slim_override: Some(x), ..r.pending },
            ..r
        },
        ParamPayload::SetOversample(f) => Reception {
            view: CommandView {
                status: oversample_requested(r.view.status, f.code_spec()),
                ..r.view
            },
            ..r
        },
        ParamPayload::LoadModel(x) => Reception {
            view: if r.candidate is Some { r.view.supersede(r.candidate->0) } else { r.view },
            candidate: Some(x),
            ..r
        },
    }
}

/// All commands of one reception, in order.
pub open spec fn all_commands(v: CommandView, taken: Seq<ParamPayload>) -> Reception
    decreases taken.len(),
{
    if taken.len() == 0 {
        Reception { view: v, pending: no_scalars(), candidate: None }
    } else {
        one_command(all_commands(v, taken.drop_last()), taken.last())
    }
}

/// The state after the newest model replacement was resolved: installed, or put
/// off when the budget is spent, in which case it supersedes an older one.
pub open spec fn model_resolved(v: CommandView, candidate: Option<LoadModel>) -> CommandView {
    match candidate {
        None => v,
        Some(p) => if v.budget_left() {
            v.install(p)
        } else if v.deferred is Some {
            v.supersede(v.deferred->0).park(p)
        } else {
            v.park(p)
        },
    }
}

/// The settings after the newest scalar of each kind was applied.
pub open spec fn scalars_in(c: Controls, p: PendingScalars) -> Controls {
    Controls {
        user_input_gain_mult: if p.input_gain is Some { p.input_gain->0 } else { c.user_input_gain_mult },
        user_output_gain_mult: if p.output_gain is Some { p.output_gain->0 } else { c.user_output_gain_mult },
        gate_params: if p.gate is Some { p.gate->0 } else { c.gate_params },
        thresholds_stale: c.thresholds_stale || p.gate is Some,
        slim_override: if p.slim_override is Some { p.slim_override->0 } else { c.slim_override },
        ..c
    }
}

/// The state after the scalars were applied; a gain asks for new multipliers.
pub open spec fn scalars_applied(v: CommandView, p: PendingScalars) -> CommandView {
    CommandView {
        controls: scalars_in(v.controls, p),
        changed: v.changed || p.input_gain is Some || p.output_gain is Some,
        ..v
    }
}

/// The state after the ring was found still holding commands.
pub open spec fn backlog_flagged(v: CommandView, backlog: bool) -> CommandView {
    if backlog {
        CommandView { status: v.status.with_flag(RT_STATUS_PARAM_QUEUE_BACKLOG), ..v }
    } else {
        v
    }
}

/// The state after one reception that saw `head` first and then took `taken`.
pub open spec fn received(
    v: CommandView,
    head: Option<ParamPayload>,
    taken: Seq<ParamPayload>,
    backlog: bool,
) -> CommandView {
    let r = all_commands(deferred_model_resolved(v, head), taken);
    scalars_applied(model_resolved(backlog_flagged(r.view, backlog), r.candidate), r.pending)
}

/// Whether a reception may lead from `v` and `before` to `w` and `after`,
/// having read `head` and `taken`.
pub open spec fn reception_outcome(
    before: Seq<ParamPayload>,
    v: CommandView,
    after: Seq<ParamPayload>,
    w: CommandView,
    head: Option<ParamPayload>,
    taken: Seq<ParamPayload>,
) -> bool {
    &&& read_in_order(before, head, taken, after, MAX_PARAM_BUDGET as int)
    &&& w == received(v, head, taken, after.len() > 0)
}

/// The arguments of a reception as one mathematical value.
pub open spec fn command_view(
    deferred: Option<LoadModel>,
    applied: usize,
    graph: ActiveGraph,
    controls: Controls,
    status: RtStatusFlags,
    retired: Seq<GcItem>,
    changed: bool,
) -> CommandView {
    CommandView { deferred, applied, graph, controls, status, retired, changed }
}

/// Retires the models that are there.
fn retire_models(l: Option<StaticModel>, r: Option<StaticModel>, retired: &mut Vec<GcItem>)
    ensures
        final(retired)@ == old(retired)@ + model_items(l, r),
{
    if let Some(m) = l {
        retired.push(GcItem::Model(m));
    }
    if let Some(m) = r {
        retired.push(GcItem::Model(m));
    }
    assert(retired@ =~= old(retired)@ + model_items(l, r));
}

/// Gives both channels the command's models and retires the old ones.
pub fn install_load_model(
    payload: LoadModel,
    graph: &mut ActiveGraph,
    controls: &mut Controls,
    retired: &mut Vec<GcItem>,
)
    ensures
        *final(graph) == (ActiveGraph {
            model_l: payload.model_l,
            model_r: payload.model_r,
            ..*old(graph)
        }),
        *final(controls) == controls_with(payload, *old(controls)),
        final(retired)@ == old(retired)@ + model_items(old(graph).model_l, old(graph).model_r),
{
    if payload.model_l.is_some() || payload.model_r.is_some() {
        controls.model_input_mult_adj = payload.input_mult_adj;
        controls.model_output_mult_adj = payload.output_mult_adj;
        controls.current_nam_rate = payload.sample_rate;
    } else {
        controls.model_input_mult_adj = Single { bits: SINGLE_ONE_BITS };
        controls.model_output_mult_adj = Single { bits: SINGLE_ONE_BITS };
        controls.current_nam_rate = DEFAULT_NAM_RATE;
    }
    let old_l = graph.model_l;
    graph.model_l = payload.model_l;
    if let Some(m) = payload.model_l {
        if m.wavenet_dyn {
            controls.wavenet_full = Some(
                WavenetInfo { channels: m.channels, slimmable_capable: m.slimmable_capable },
            );
        }
    }
    let old_r = graph.model_r;
    graph.model_r = payload.model_r;
    retire_models(old_l, old_r, retired);
}

/// Retires the models of a command that a newer one replaces.
pub fn discard_load_model(payload: LoadModel, status: &mut RtStatusFlags, retired: &mut Vec<GcItem>)
    ensures
        *final(status) == old(status).with_supersession(),
        final(retired)@ == old(retired)@ + model_items(payload.model_l, payload.model_r),
{
    retire_models(payload.model_l, payload.model_r, retired);
    status.flag_structural_superseded();
}

/// Resolves the model replacement that an earlier callback put off, `head`
/// being the first queued command. Returns whether it was installed.
pub fn resolve_deferred_model(
    head: Option<ParamPayload>,
    deferred: &mut Option<LoadModel>,
    structural_applied: &mut usize,
    graph: &mut ActiveGraph,
    controls: &mut Controls,
    status: &mut RtStatusFlags,
    retired: &mut Vec<GcItem>,
) -> (changed: bool)
    ensures
        command_view(
            *final(deferred),
            *final(structural_applied),
            *final(graph),
            *final(controls),
            *final(status),
            final(retired)@,
            changed,
        ) == deferred_model_resolved(
            command_view(
                *old(deferred),
                *old(structural_applied),
                *old(graph),
                *old(controls),
                *old(status),
                old(retired)@,
                false,
            ),
            head,
        ),
{
    let parked = deferred.take();
    let mut changed = false;
    if let Some(payload) = parked {
        let newer_queued = match head {
            Some(ParamPayload::LoadModel(_)) => true,
            _ => false,
        };
        if newer_queued {
            discard_load_model(payload, status, retired);
        } else if *structural_applied < STRUCTURAL_SWAPS_PER_CALLBACK {
            install_load_model(payload, graph, controls, retired);
            *structural_applied = *structural_applied + 1;
            changed = true;
        } else {
            *deferred = Some(payload);
            status.flag_structural_deferred();
        }
    }
    changed
}

/// Handles one command taken from the ring.
pub fn take_command(
    payload: ParamPayload,
    pending: &mut PendingScalars,
    candidate: &mut Option<LoadModel>,
    status: &mut RtStatusFlags,
    retired: &mut Vec<GcItem>,
)
    ensures
        forall|
            deferred: Option<LoadModel>,
            applied: usize,
            graph: ActiveGraph,
            controls: Controls,
            changed: bool,
        |
            #![trigger command_view(deferred, applied, graph, controls, *final(status), final(retired)@, changed)]
            (Reception {
                view: command_view(
                    deferred,
                    applied,
                    graph,
                    controls,
                    *final(status),
                    final(retired)@,
                    changed,
                ),
                pending: *final(pending),
                candidate: *final(candidate),
            }) == one_command(
                Reception {
                    view: command_view(
                        deferred,
                        applied,
                        graph,
                        controls,
                        *old(status),
                        old(retired)@,
                        changed,
                    ),
                    pending: *old(pending),
                    candidate: *old(candidate),
                },
                payload,
            ),
{
    match payload {
        ParamPayload::InputGain(mult) => {
            pending.input_gain = Some(mult);
        },
        ParamPayload::OutputGain(mult) => {
            pending.output_gain = Some(mult);
        },
        ParamPayload::GateConfig(params) => {
            pending.gate = Some(params);
        },
        ParamPayload::SlimOverride(ov) => {
            pending.slim_override = Some(ov);
        },
        ParamPayload::SetOversample(factor) => {
            status.requested_os_factor = factor.code();
            status.requested_os_generation = status.requested_os_generation.wrapping_add(1);
            status.set_flag(RT_STATUS_NEEDS_OS_REBUILD);
        },
        ParamPayload::LoadModel(load) => {
            let older = candidate.take();
            if let Some(older) = older {
                discard_load_model(older, status, retired);
            }
            *candidate = Some(load);
        },
    }
}

/// Installs the newest model replacement, or puts it off when the callback's
/// budget is spent. `changed` tells whether the gain multipliers were already
/// to be computed anew; the result tells whether they are now.
pub fn resolve_model(
    candidate: Option<LoadModel>,
    changed: bool,
    deferred: &mut Option<LoadModel>,
    structural_applied: &mut usize,
    graph: &mut ActiveGraph,
    controls: &mut Controls,
    status: &mut RtStatusFlags,
    retired: &mut Vec<GcItem>,
) -> (r: bool)
    ensures
        command_view(
            *final(deferred),
            *final(structural_applied),
            *final(graph),
            *final(controls),
            *final(status),
            final(retired)@,
            r,
        ) == model_resolved(
            command_view(
                *old(deferred),
                *old(structural_applied),
                *old(graph),
                *old(controls),
                *old(status),
                old(retired)@,
                changed,
            ),
            candidate,
        ),
{
    let mut r = changed;
    if let Some(payload) = candidate {
        if *structural_applied < STRUCTURAL_SWAPS_PER_CALLBACK {
            install_load_model(payload, graph, controls, retired);
            *structural_applied = *structural_applied + 1;
            r = true;
        } else {
            let older = deferred.take();
            if let Some(older) = older {
                discard_load_model(older, status, retired);
            }
            *deferred = Some(payload);
            status.flag_structural_deferred();
        }
    }
    r
}

/// Applies the newest scalar of each kind. Returns whether a gain changed.
pub fn apply_scalars(pending: PendingScalars, controls: &mut Controls) -> (changed: bool)
    ensures
        *final(controls) == scalars_in(*old(controls), pending),
        changed == (pending.input_gain is Some || pending.output_gain is Some),
{
    let mut changed = false;
    if let Some(mult) = pending.input_gain {
        controls.user_input_gain_mult = mult;
        changed = true;
    }
    if let Some(mult) = pending.output_gain {
        controls.user_output_gain_mult = mult;
        changed = true;
    }
    if let Some(params) = pending.gate {
        controls.gate_params = params;
        controls.thresholds_stale = true;
    }
    if let Some(ov) = pending.slim_override {
        controls.slim_override = ov;
    }
    changed
}

/// Receives one callback's commands. Returns whether the gain multipliers must
/// be computed anew, and how many commands were taken.
pub fn receive_commands(
    consumer: &mut rtrb::Consumer<ParamPayload>,
    deferred: &mut Option<LoadModel>,
    structural_applied: &mut usize,
    graph: &mut ActiveGraph,
    controls: &mut Controls,
    status: &mut RtStatusFlags,
    retired: &mut Vec<GcItem>,
) -> (r: (bool, usize))
    ensures
        exists|head: Option<ParamPayload>, taken: Seq<ParamPayload>|
            r.1 == taken.len() && #[trigger] reception_outcome(
                commands_queued(*old(consumer)),
                command_view(
                    *old(deferred),
                    *old(structural_applied),
                    *old(graph),
                    *old(controls),
                    *old(status),
                    old(retired)@,
                    false,
                ),
                commands_queued(*final(consumer)),
                command_view(
                    *final(deferred),
                    *final(structural_applied),
                    *final(graph),
                    *final(controls),
                    *final(status),
                    final(retired)@,
                    r.0,
                ),
                head,
                taken,
            ),
{
    let ghost q0 = commands_queued(*consumer);
    let ghost v0 = command_view(
        *deferred,
        *structural_applied,
        *graph,
        *controls,
        *status,
        retired@,
        false,
    );
    let head = peek_command(consumer);
    let resolved = resolve_deferred_model(
        head,
        deferred,
        structural_applied,
        graph,
        controls,
        status,
        retired,
    );
    let ghost v1 = command_view(
        *deferred,
        *structural_applied,
        *graph,
        *controls,
        *status,
        retired@,
        resolved,
    );

    let mut pending = PendingScalars {
        input_gain: None,
        output_gain: None,
        gate: None,
        slim_override: None,
    };
    let mut candidate: Option<LoadModel> = None;
    let mut pops: usize = 0;
    let mut more = true;
    let ghost mut taken: Seq<ParamPayload> = Seq::empty();
    proof {
        assert(taken + q0 =~= q0);
        assert(q0.subrange(0, q0.len() as int) =~= q0);
        peek_keeps_order(q0, taken, q0, head, commands_queued(*consumer));
    }
    while more && pops < MAX_PARAM_BUDGET
        invariant
            v1 == deferred_model_resolved(v0, head),
            pops <= MAX_PARAM_BUDGET,
            taken.len() == pops,
            begins_with(taken + commands_queued(*consumer), q0),
            taken.len() > 0 && head is Some ==> taken[0] == head->0,
            taken.len() == 0 && head is Some ==> commands_queued(*consumer).len() > 0
                && commands_queued(*consumer)[0] == head->0,
            head is None ==> q0.len() == 0,
            !more ==> q0.len() <= taken.len() && (head is Some ==> taken.len() > 0),
            (Reception {
                view: command_view(
                    *deferred,
                    *structural_applied,
                    *graph,
                    *controls,
                    *status,
                    retired@,
                    resolved,
                ),
                pending,
                candidate,
            }) == all_commands(v1, taken),
        decreases (if more { 1int } else { 0int }), MAX_PARAM_BUDGET - pops,
    {
        let ghost before = commands_queued(*consumer);
        let popped = pop_command(consumer);
        match popped {
            Some(payload) => {
                let ghost next = taken.push(payload);
                proof {
                    pop_keeps_order(q0, taken, before, payload, commands_queued(*consumer));
                    assert(next.drop_last() =~= taken);
                }
                take_command(payload, &mut pending, &mut candidate, status, retired);
                pops = pops + 1;
                proof {
                    taken = next;
                }
            },
            None => {
                more = false;
            },
        }
    }
    let ghost rest = commands_queued(*consumer);
    let left = peek_command(consumer);
    proof {
        peek_keeps_order(q0, taken, rest, left, commands_queued(*consumer));
    }
    if left.is_some() {
        status.set_flag(RT_STATUS_PARAM_QUEUE_BACKLOG);
    }
    let installed = resolve_model(
        candidate,
        resolved,
        deferred,
        structural_applied,
        graph,
        controls,
        status,
        retired,
    );
    let gains = apply_scalars(pending, controls);
    let changed = installed || gains;
    assert(reception_outcome(
        q0,
        v0,
        commands_queued(*consumer),
        command_view(
            *deferred,
            *structural_applied,
            *graph,
            *controls,
            *status,
            retired@,
            changed,
        ),
        head,
        taken,
    ));
    (changed, pops)
}

/// Asks the control plane for model pairs with `target_ch` channels, when the
/// adaptive engine wants them.
pub fn try_slimmable_rebuild(target_ch: Option<usize>, status: &mut RtStatusFlags)
    ensures
        *final(status) == match target_ch {
            None => *old(status),
            Some(ch) => RtStatusFlags {
                requested_slimmable_ch: ch as u32,
                requested_slimmable_generation: next_generation(
                    old(status).requested_slimmable_generation,
                ),
                ..*old(status)
            }.with_flag(RT_STATUS_NEEDS_SLIMMABLE_REBUILD),
        },
{
    if let Some(ch) = target_ch {
        status.requested_slimmable_ch = ch as u32;
        status.requested_slimmable_generation =
            status.requested_slimmable_generation.wrapping_add(1);
        status.set_flag(RT_STATUS_NEEDS_SLIMMABLE_REBUILD);
    }
}

/// Whether two commands set the same thing.
pub open spec fn same_kind(a: ParamPayload, b: ParamPayload) -> bool {
    ||| a is InputGain && b is InputGain
    ||| a is OutputGain && b is OutputGain
    ||| a is GateConfig && b is GateConfig
    ||| a is SlimOverride && b is SlimOverride
    ||| a is SetOversample && b is SetOversample
    ||| a is LoadModel && b is LoadModel
}

proof fn newest_is_pending(v: CommandView, taken: Seq<ParamPayload>, i: int)
    requires
        0 <= i < taken.len(),
        forall|j: int| i < j < taken.len() ==> !same_kind(#[trigger] taken[j], taken[i]),
    ensures
        ({
            let r = all_commands(v, taken);
            match taken[i] {
                ParamPayload::InputGain(x) => r.pending.input_gain == Some(x),
                ParamPayload::OutputGain(x) => r.pending.output_gain == Some(x),
                ParamPayload::GateConfig(x) => r.pending.gate == Some(x),
                ParamPayload::SlimOverride(x) => r.pending.slim_override == Some(x),
                ParamPayload::SetOversample(f) => r.view.status.requested_os_factor
                    == f.code_spec() && r.view.status.has(RT_STATUS_NEEDS_OS_REBUILD),
                ParamPayload::LoadModel(x) => r.candidate == Some(x),
            }
        }),
    decreases taken.len(),
{
    let before = all_commands(v, taken.drop_last());
    assert forall|flag: u64| before.view.status.has(RT_STATUS_NEEDS_OS_REBUILD) implies (
    #[trigger] before.view.status.with_flag(flag)).has(RT_STATUS_NEEDS_OS_REBUILD) by {
        crate::rt_status::set_flag_is_local(
            before.view.status.status_bits,
            flag,
            RT_STATUS_NEEDS_OS_REBUILD,
        );
    }
    if i < taken.len() - 1 {
        assert forall|j: int| i < j < taken.len() - 1 implies !same_kind(
            #[trigger] taken.drop_last()[j],
            taken.drop_last()[i],
        ) by {
            assert(taken.drop_last()[j] == taken[j]);
        }
        newest_is_pending(v, taken.drop_last(), i);
        assert(!same_kind(taken[taken.len() - 1], taken[i]));
    } else {
        crate::rt_status::set_flag_is_local(
            before.view.status.status_bits,
            RT_STATUS_NEEDS_OS_REBUILD,
            RT_STATUS_NEEDS_OS_REBUILD,
        );
    }
}

proof fn absent_is_not_pending(v: CommandView, taken: Seq<ParamPayload>)
    ensures
        ({
            let r = all_commands(v, taken);
            &&& (forall|j: int| 0 <= j < taken.len() ==> !(#[trigger] taken[j] is InputGain))
                ==> r.pending.input_gain is None
            &&& (forall|j: int| 0 <= j < taken.len() ==> !(#[trigger] taken[j] is OutputGain))
                ==> r.pending.output_gain is None
            &&& (forall|j: int| 0 <= j < taken.len() ==> !(#[trigger] taken[j] is GateConfig))
                ==> r.pending.gate is None
            &&& (forall|j: int| 0 <= j < taken.len() ==> !(#[trigger] taken[j] is SlimOverride))
                ==> r.pending.slim_override is None
            &&& (forall|j: int| 0 <= j < taken.len() ==> !(#[trigger] taken[j] is SetOversample))
                ==> r.view.status.requested_os_factor == v.status.requested_os_factor
                && r.view.status.requested_os_generation == v.status.requested_os_generation
            &&& (forall|j: int| 0 <= j < taken.len() ==> !(#[trigger] taken[j] is LoadModel))
                ==> r.candidate is None
            &&& r.view.controls == v.controls
            &&& r.view.graph == v.graph
            &&& r.view.changed == v.changed
            &&& r.view.applied == v.applied
            &&& r.view.deferred == v.deferred
        }),
    decreases taken.len(),
{
    if taken.len() > 0 {
        let rest = taken.drop_last();
        absent_is_not_pending(v, rest);
        assert(forall|j: int| 0 <= j < rest.len() ==> #[trigger] rest[j] == taken[j]);
        assert(taken.last() == taken[taken.len() - 1]);
    }
}

/// The newest command of each kind decides: after a reception the setting is
/// what the last command of its kind asked for, whatever other commands were
/// taken, and a gain asks for new multipliers.
pub proof fn newest_scalar_decides(
    v: CommandView,
    head: Option<ParamPayload>,
    taken: Seq<ParamPayload>,
    backlog: bool,
    i: int,
)
    requires
        0 <= i < taken.len(),
        forall|j: int| i < j < taken.len() ==> !same_kind(#[trigger] taken[j], taken[i]),
    ensures
        ({
            let w = received(v, head, taken, backlog);
            match taken[i] {
                ParamPayload::InputGain(x) => w.controls.user_input_gain_mult == x && w.changed,
                ParamPayload::OutputGain(x) => w.controls.user_output_gain_mult == x && w.changed,
                ParamPayload::GateConfig(x) => w.controls.gate_params == x
                    && w.controls.thresholds_stale,
                ParamPayload::SlimOverride(x) => w.controls.slim_override == x,
                ParamPayload::SetOversample(f) => w.status.requested_os_factor == f.code_spec()
                    && w.status.has(RT_STATUS_NEEDS_OS_REBUILD),
                ParamPayload::LoadModel(_) => true,
            }
        }),
{
    let first = deferred_model_resolved(v, head);
    newest_is_pending(first, taken, i);
    let r = all_commands(first, taken);
    let flagged = backlog_flagged(r.view, backlog);
    let os = RT_STATUS_NEEDS_OS_REBUILD;
    assert forall|s: RtStatusFlags, flag: u64| s.has(os) implies (#[trigger] s.with_flag(flag)).has(
        os,
    ) by {
        crate::rt_status::set_flag_is_local(s.status_bits, flag, os);
    }
    assert(forall|s: RtStatusFlags| s.has(os) ==> (#[trigger] s.with_deferral()).has(os)) by {
        assert forall|s: RtStatusFlags| s.has(os) implies (#[trigger] s.with_deferral()).has(os) by {
            crate::rt_status::set_flag_is_local(
                s.status_bits,
                crate::rt_status::RT_STATUS_STRUCTURAL_DEFERRED,
                os,
            );
        }
    }
    assert forall|s: RtStatusFlags| s.has(os) implies (#[trigger] s.with_supersession()).has(os) by {
        crate::rt_status::set_flag_is_local(
            s.status_bits,
            crate::rt_status::RT_STATUS_STRUCTURAL_SUPERSEDED,
            os,
        );
    }
}

/// A setting that no command taken asks to change stays as it is.
pub proof fn unasked_settings_stay(
    v: CommandView,
    head: Option<ParamPayload>,
    taken: Seq<ParamPayload>,
    backlog: bool,
)
    ensures
        ({
            let w = received(v, head, taken, backlog);
            &&& (forall|j: int| 0 <= j < taken.len() ==> !(#[trigger] taken[j] is InputGain))
                ==> w.controls.user_input_gain_mult == v.controls.user_input_gain_mult
            &&& (forall|j: int| 0 <= j < taken.len() ==> !(#[trigger] taken[j] is OutputGain))
                ==> w.controls.user_output_gain_mult == v.controls.user_output_gain_mult
            &&& (forall|j: int| 0 <= j < taken.len() ==> !(#[trigger] taken[j] is GateConfig))
                ==> w.controls.gate_params == v.controls.gate_params
                && w.controls.thresholds_stale == v.controls.thresholds_stale
            &&& (forall|j: int| 0 <= j < taken.len() ==> !(#[trigger] taken[j] is SlimOverride))
                ==> w.controls.slim_override == v.controls.slim_override
            &&& (forall|j: int| 0 <= j < taken.len() ==> !(#[trigger] taken[j] is SetOversample))
                ==> w.status.requested_os_factor == v.status.requested_os_factor
                && w.status.requested_os_generation == v.status.requested_os_generation
        }),
{
    absent_is_not_pending(deferred_model_resolved(v, head), taken);
}

/// Without a model replacement, taken or put off, the models, their settings
/// and the budget stay, and only a gain asks for new multipliers.
pub proof fn models_stay_without_a_replacement(
    v: CommandView,
    head: Option<ParamPayload>,
    taken: Seq<ParamPayload>,
    backlog: bool,
)
    requires
        v.deferred is None,
        forall|j: int| 0 <= j < taken.len() ==> !(#[trigger] taken[j] is LoadModel),
    ensures
        ({
            let w = received(v, head, taken, backlog);
            &&& w.graph == v.graph
            &&& w.applied == v.applied
            &&& w.deferred is None
            &&& w.controls.model_input_mult_adj == v.controls.model_input_mult_adj
            &&& w.controls.model_output_mult_adj == v.controls.model_output_mult_adj
            &&& w.controls.current_nam_rate == v.controls.current_nam_rate
            &&& w.controls.wavenet_full == v.controls.wavenet_full
            &&& (forall|j: int|
                0 <= j < taken.len() ==> !(#[trigger] taken[j] is InputGain)
                    && !(taken[j] is OutputGain)) ==> w.changed == v.changed
        }),
{
    absent_is_not_pending(deferred_model_resolved(v, head), taken);
}

/// The newest model replacement brings its models and their settings when the
/// callback may still swap: the multipliers and the rate that it carries, or,
/// where it empties both channels, unit multipliers and the default rate.
pub proof fn loaded_models_bring_their_settings(
    v: CommandView,
    head: Option<ParamPayload>,
    taken: Seq<ParamPayload>,
    backlog: bool,
    i: int,
    p: LoadModel,
)
    requires
        v.deferred is None,
        v.applied == 0,
        0 <= i < taken.len(),
        taken[i] == ParamPayload::LoadModel(p),
        forall|j: int| i < j < taken.len() ==> !(#[trigger] taken[j] is LoadModel),
    ensures
        ({
            let w = received(v, head, taken, backlog);
            &&& w.graph == ActiveGraph { model_l: p.model_l, model_r: p.model_r, ..v.graph }
            &&& w.applied == 1
            &&& w.changed
            &&& p.model_l is Some || p.model_r is Some ==> {
                &&& w.controls.model_input_mult_adj == p.input_mult_adj
                &&& w.controls.model_output_mult_adj == p.output_mult_adj
                &&& w.controls.current_nam_rate == p.sample_rate
            }
            &&& p.model_l is None && p.model_r is None ==> {
                &&& w.controls.model_input_mult_adj.bits == 0x3F80_0000
                &&& w.controls.model_output_mult_adj.bits == 0x3F80_0000
                &&& w.controls.current_nam_rate == 48_000
            }
            &&& p.model_l is Some && p.model_l->0.wavenet_dyn ==> w.controls.wavenet_full == Some(
                WavenetInfo {
                    channels: p.model_l->0.channels,
                    slimmable_capable: p.model_l->0.slimmable_capable,
                },
            )
            &&& (p.model_l is None || !p.model_l->0.wavenet_dyn) ==> w.controls.wavenet_full
                == v.controls.wavenet_full
            &&& v.graph.model_l matches Some(m) ==> w.retired.contains(GcItem::Model(m))
            &&& v.graph.model_r matches Some(m) ==> w.retired.contains(GcItem::Model(m))
        }),
{
    let first = deferred_model_resolved(v, head);
    assert forall|j: int| i < j < taken.len() implies !same_kind(#[trigger] taken[j], taken[i]) by {
    }
    newest_is_pending(first, taken, i);
    absent_is_not_pending(first, taken);
    let r = all_commands(first, taken);
    let old = r.view.retired;
    let items = model_items(v.graph.model_l, v.graph.model_r);
    if v.graph.model_l is Some {
        assert((old + items)[old.len() as int] == GcItem::Model(v.graph.model_l->0));
    }
    if v.graph.model_r is Some {
        assert((old + items)[old.len() + items.len() - 1] == GcItem::Model(v.graph.model_r->0));
    }
}

/// Commands that were left in the ring are reported.
pub proof fn backlog_is_reported(
    v: CommandView,
    head: Option<ParamPayload>,
    taken: Seq<ParamPayload>,
)
    ensures
        received(v, head, taken, true).status.has(RT_STATUS_PARAM_QUEUE_BACKLOG),
{
    let flag = RT_STATUS_PARAM_QUEUE_BACKLOG;
    let r = all_commands(deferred_model_resolved(v, head), taken);
    let s = r.view.status.with_flag(flag);
    crate::rt_status::set_flag_is_local(r.view.status.status_bits, flag, flag);
    assert forall|t: RtStatusFlags| t.has(flag) implies (#[trigger] t.with_deferral()).has(flag) by {
        crate::rt_status::set_flag_is_local(
            t.status_bits,
            crate::rt_status::RT_STATUS_STRUCTURAL_DEFERRED,
            flag,
        );
    }
    assert forall|t: RtStatusFlags| t.has(flag) implies (#[trigger] t.with_supersession()).has(
        flag,
    ) by {
        crate::rt_status::set_flag_is_local(
            t.status_bits,
            crate::rt_status::RT_STATUS_STRUCTURAL_SUPERSEDED,
            flag,
        );
    }
    assert(s.has(flag));
}

/// A put-off model replacement runs after the next callback in which no other
/// is queued and the budget is fresh.
pub proof fn parked_load_applies_next(v: CommandView, taken: Seq<ParamPayload>, backlog: bool)
    requires
        v.deferred is Some,
        v.applied == 0,
        forall|j: int| 0 <= j < taken.len() ==> !(#[trigger] taken[j] is LoadModel),
    ensures
        ({
            let head = if taken.len() > 0 { Some(taken[0]) } else { None };
            let w = received(v, head, taken, backlog);
            &&& w.graph.model_l == v.deferred->0.model_l
            &&& w.graph.model_r == v.deferred->0.model_r
            &&& w.deferred is None
            &&& w.applied == 1
            &&& w.changed
        }),
{
    let head = if taken.len() > 0 { Some(taken[0]) } else { None };
    absent_is_not_pending(deferred_model_resolved(v, head), taken);
}

/// Asking for another factor publishes its number under a new generation and
/// raises the flag, and nothing else.
pub proof fn oversample_request_is_published(s: RtStatusFlags, code: u32)
    ensures
        ({
            let t = oversample_requested(s, code);
            &&& t.requested_os_factor == code
            &&& t.requested_os_generation != s.requested_os_generation
            &&& t.has(RT_STATUS_NEEDS_OS_REBUILD)
            &&& t == RtStatusFlags {
                status_bits: t.status_bits,
                requested_os_factor: t.requested_os_factor,
                requested_os_generation: t.requested_os_generation,
                ..s
            }
        }),
{
    crate::rt_status::generation_step_differs(s.requested_os_generation);
    crate::rt_status::set_flag_is_local(
        s.status_bits,
        RT_STATUS_NEEDS_OS_REBUILD,
        RT_STATUS_NEEDS_OS_REBUILD,
    );
}

} // verus!
