//! What holds of the callback and the control plane as a whole.

use vstd::multiset::Multiset;
use vstd::prelude::*;

use crate::capture::{
    callback_settled, first_half, reads_match, second_half, CallbackReads, CallbackView,
    CommandsRead, RtHostChannels, SwapsRead, RETIRED_PER_CALLBACK,
};
use crate::commands::{
    all_commands, backlog_flagged, controls_with, deferred_model_resolved, model_items,
    model_resolved, one_command, received, scalars_applied, CommandView,
};
use crate::payload::{
    CabSimPair, GcItem, LoadModel, NamResampler, OversampleEngine, ParamPayload, StaticModel,
    StreamingResampleBuffer, SwapFamily, SwapPayload,
};
use crate::rate_sync::{pending_resolved, rate_synced};
use crate::rt_status::{
    next_generation, set_flag_is_local, RtStatusFlags, RT_STATUS_NEEDS_OS_REBUILD,
    RT_STATUS_NEEDS_RESAMPLER_REBUILD, RT_STATUS_NEEDS_SLIMMABLE_REBUILD,
    RT_STATUS_PARAM_QUEUE_BACKLOG, RT_STATUS_RESAMP_SWAP_PENDING, RT_STATUS_SPSC_DRAIN_TRUNCATED,
    RT_STATUS_STRUCTURAL_DEFERRED, RT_STATUS_STRUCTURAL_SUPERSEDED,
};
use crate::swap::{
    all_taken, deferred_resolved, drained, graph_with, is_current, one_taken, replaced_by,
    truncation_flagged, ActiveGraph, DrainView, STRUCTURAL_SWAPS_PER_CALLBACK,
};

verus! {

/// The newest envelope among those taken that answers the current request.
pub open spec fn newest_current(
    family: SwapFamily,
    status: RtStatusFlags,
    taken: Seq<SwapPayload>,
) -> Option<SwapPayload>
    decreases taken.len(),
{
    if taken.len() == 0 {
        None
    } else if is_current(taken.last(), family, status) {
        Some(taken.last())
    } else {
        newest_current(family, status, taken.drop_last())
    }
}

/// Whether two readings agree on everything but the two structural event
/// counters and flag bits.
pub open spec fn same_handshake(a: RtStatusFlags, b: RtStatusFlags) -> bool {
    &&& a.requested_rate_generation == b.requested_rate_generation
    &&& a.requested_cabsim_generation == b.requested_cabsim_generation
    &&& a.requested_slimmable_generation == b.requested_slimmable_generation
    &&& a.requested_os_generation == b.requested_os_generation
    &&& a.applied_rate_generation == b.applied_rate_generation
    &&& a.applied_cabsim_generation == b.applied_cabsim_generation
    &&& a.applied_os_generation == b.applied_os_generation
    &&& a.resampler_failed_generation == b.resampler_failed_generation
    &&& a.active_rate == b.active_rate
    &&& a.has(RT_STATUS_RESAMP_SWAP_PENDING) == b.has(RT_STATUS_RESAMP_SWAP_PENDING)
}

proof fn structural_flags_are_apart(s: RtStatusFlags)
    ensures
        same_handshake(s, s.with_supersession()),
        same_handshake(s, s.with_deferral()),
        same_handshake(s, s.with_flag(RT_STATUS_SPSC_DRAIN_TRUNCATED)),
        same_handshake(s, s.with_flag(RT_STATUS_PARAM_QUEUE_BACKLOG)),
        s.has(RT_STATUS_RESAMP_SWAP_PENDING) == s.with_flag(RT_STATUS_NEEDS_OS_REBUILD).has(
            RT_STATUS_RESAMP_SWAP_PENDING,
        ),
        s.has(RT_STATUS_RESAMP_SWAP_PENDING) == s.with_flag(RT_STATUS_NEEDS_SLIMMABLE_REBUILD).has(
            RT_STATUS_RESAMP_SWAP_PENDING,
        ),
{
    let pending = RT_STATUS_RESAMP_SWAP_PENDING;
    assert(RT_STATUS_STRUCTURAL_SUPERSEDED & RT_STATUS_RESAMP_SWAP_PENDING == 0
        && RT_STATUS_STRUCTURAL_DEFERRED & RT_STATUS_RESAMP_SWAP_PENDING == 0
        && RT_STATUS_SPSC_DRAIN_TRUNCATED & RT_STATUS_RESAMP_SWAP_PENDING == 0
        && RT_STATUS_PARAM_QUEUE_BACKLOG & RT_STATUS_RESAMP_SWAP_PENDING == 0
        && RT_STATUS_NEEDS_OS_REBUILD & RT_STATUS_RESAMP_SWAP_PENDING == 0
        && RT_STATUS_NEEDS_SLIMMABLE_REBUILD & RT_STATUS_RESAMP_SWAP_PENDING == 0)
        by (bit_vector);
    set_flag_is_local(s.status_bits, RT_STATUS_STRUCTURAL_SUPERSEDED, pending);
    set_flag_is_local(s.status_bits, RT_STATUS_STRUCTURAL_DEFERRED, pending);
    set_flag_is_local(s.status_bits, RT_STATUS_SPSC_DRAIN_TRUNCATED, pending);
    set_flag_is_local(s.status_bits, RT_STATUS_PARAM_QUEUE_BACKLOG, pending);
    set_flag_is_local(s.status_bits, RT_STATUS_NEEDS_OS_REBUILD, pending);
    set_flag_is_local(s.status_bits, RT_STATUS_NEEDS_SLIMMABLE_REBUILD, pending);
}

/// Reading envelopes installs nothing: the running objects, the budget, the
/// put-off envelope and the handshake stay, and the candidate is the newest
/// envelope that answers the current request.
pub proof fn reading_installs_nothing(family: SwapFamily, d: DrainView, taken: Seq<SwapPayload>)
    ensures
        ({
            let (r, candidate) = all_taken(family, d, taken);
            &&& r.graph == d.graph
            &&& r.applied == d.applied
            &&& r.deferred == d.deferred
            &&& same_handshake(d.status, r.status)
            &&& candidate == newest_current(family, d.status, taken)
        }),
    decreases taken.len(),
{
    if taken.len() > 0 {
        reading_installs_nothing(family, d, taken.drop_last());
        let (before, candidate) = all_taken(family, d, taken.drop_last());
        structural_flags_are_apart(before.status);
    }
}

/// One callback applies at most one structural swap, whatever was applied by
/// earlier drains of the same callback.
pub proof fn drain_keeps_budget(
    family: SwapFamily,
    d: DrainView,
    head: Option<SwapPayload>,
    taken: Seq<SwapPayload>,
    truncated: bool,
)
    requires
        d.applied <= STRUCTURAL_SWAPS_PER_CALLBACK,
    ensures
        d.applied <= drained(family, d, head, taken, truncated).applied
            <= STRUCTURAL_SWAPS_PER_CALLBACK,
{
    reading_installs_nothing(family, deferred_resolved(family, d, head), taken);
}

/// Envelopes that answer no current request are never installed: they change
/// neither the running objects nor any applied generation, and a muted callback
/// stays muted.
pub proof fn stale_envelopes_never_apply(
    family: SwapFamily,
    d: DrainView,
    head: Option<SwapPayload>,
    taken: Seq<SwapPayload>,
    truncated: bool,
)
    requires
        d.deferred is Some ==> !is_current(d.deferred->0, family, d.status),
        newest_current(family, d.status, taken) is None,
    ensures
        ({
            let e = drained(family, d, head, taken, truncated);
            &&& e.graph == d.graph
            &&& e.applied == d.applied
            &&& e.deferred is None
            &&& same_handshake(d.status, e.status)
        }),
{
    let first = deferred_resolved(family, d, head);
    reading_installs_nothing(family, first, taken);
    let (read, _) = all_taken(family, first, taken);
    structural_flags_are_apart(read.status);
}

/// The newest envelope that answers the current request wins: it is running
/// after the drain, or, when the budget was spent, it is the one put off.
pub proof fn newest_envelope_wins(
    family: SwapFamily,
    d: DrainView,
    head: Option<SwapPayload>,
    taken: Seq<SwapPayload>,
    truncated: bool,
)
    requires
        newest_current(family, d.status, taken) is Some,
    ensures
        ({
            let p = newest_current(family, d.status, taken)->0;
            let first = deferred_resolved(family, d, head);
            let e = drained(family, d, head, taken, truncated);
            if first.applied < STRUCTURAL_SWAPS_PER_CALLBACK {
                &&& e.graph == graph_with(p, first.graph)
                &&& e.deferred == first.deferred
            } else {
                &&& e.graph == first.graph
                &&& e.deferred == Some(p)
            }
        }),
{
    let first = deferred_resolved(family, d, head);
    structural_flags_are_apart(d.status);
    reading_installs_nothing(family, first, taken);
    resolving_keeps_requests(family, d, head);
    newest_current_by_requests(family, d.status, first.status, taken);
}

proof fn resolving_keeps_requests(family: SwapFamily, d: DrainView, head: Option<SwapPayload>)
    ensures
        forall|f: SwapFamily|
            deferred_resolved(family, d, head).status.requested_generation_spec(f)
                == d.status.requested_generation_spec(f),
{
}

proof fn newest_current_by_requests(
    family: SwapFamily,
    a: RtStatusFlags,
    b: RtStatusFlags,
    taken: Seq<SwapPayload>,
)
    requires
        a.requested_generation_spec(family) == b.requested_generation_spec(family),
    ensures
        newest_current(family, a, taken) == newest_current(family, b, taken),
    decreases taken.len(),
{
    if taken.len() > 0 {
        newest_current_by_requests(family, a, b, taken.drop_last());
    }
}

/// A put-off envelope that is still current is running after the next callback
/// in which nothing newer is queued and the budget is fresh.
pub proof fn parked_envelope_applies_next(family: SwapFamily, d: DrainView)
    requires
        d.deferred is Some,
        is_current(d.deferred->0, family, d.status),
        d.applied == 0,
    ensures
        ({
            let e = drained(family, d, None, Seq::empty(), false);
            &&& e.graph == graph_with(d.deferred->0, d.graph)
            &&& e.deferred is None
            &&& e.applied == 1
        }),
{
    reading_installs_nothing(family, deferred_resolved(family, d, None), Seq::empty());
}

/// Whether an unmuted callback runs the resampler that was last asked for.
pub open spec fn unmuted_means_answered(s: RtStatusFlags) -> bool {
    !s.has(RT_STATUS_RESAMP_SWAP_PENDING) ==> s.applied_rate_generation
        == s.requested_rate_generation
}

/// The rule that an unmuted callback runs the newest requested resampler holds
/// at the start.
pub proof fn unmute_rule_at_start()
    ensures
        unmuted_means_answered(RtStatusFlags::initial()),
{
}

/// A drain keeps that rule: only the envelope of the newest request unmutes.
pub proof fn drain_keeps_unmute_rule(
    family: SwapFamily,
    d: DrainView,
    head: Option<SwapPayload>,
    taken: Seq<SwapPayload>,
    truncated: bool,
)
    requires
        unmuted_means_answered(d.status),
    ensures
        unmuted_means_answered(drained(family, d, head, taken, truncated).status),
{
    let first = deferred_resolved(family, d, head);
    structural_flags_are_apart(d.status);
    assert(unmuted_means_answered(first.status));
    reading_installs_nothing(family, first, taken);
    newest_is_current(family, first.status, taken);
    let (read, candidate) = all_taken(family, first, taken);
    structural_flags_are_apart(read.status);
    let flagged = truncation_flagged(read, truncated);
    assert(same_handshake(first.status, flagged.status));
    structural_flags_are_apart(flagged.status);
    structural_flags_are_apart(flagged.status.with_supersession());
}

proof fn newest_is_current(family: SwapFamily, s: RtStatusFlags, taken: Seq<SwapPayload>)
    ensures
        newest_current(family, s, taken) is Some ==> is_current(
            newest_current(family, s, taken)->0,
            family,
            s,
        ),
    decreases taken.len(),
{
    if taken.len() > 0 {
        newest_is_current(family, s, taken.drop_last());
    }
}

/// Comparing the rates keeps the rule: a new request mutes.
pub proof fn rate_sync_keeps_unmute_rule(
    s: RtStatusFlags,
    detected: u32,
    resampler: NamResampler,
    nam_rate: u32,
)
    requires
        unmuted_means_answered(s),
    ensures
        unmuted_means_answered(rate_synced(s, detected, resampler, nam_rate)),
{
    let bits = s.status_bits | RT_STATUS_NEEDS_RESAMPLER_REBUILD;
    set_flag_is_local(bits, RT_STATUS_RESAMP_SWAP_PENDING, RT_STATUS_RESAMP_SWAP_PENDING);
}

/// Giving a failed request up keeps the rule.
pub proof fn giving_up_keeps_unmute_rule(s: RtStatusFlags)
    requires
        unmuted_means_answered(s),
    ensures
        unmuted_means_answered(pending_resolved(s)),
{
}

/// The newest model replacement among the commands taken.
pub open spec fn newest_load(taken: Seq<ParamPayload>) -> Option<LoadModel>
    decreases taken.len(),
{
    if taken.len() == 0 {
        None
    } else {
        match taken.last() {
            ParamPayload::LoadModel(x) => Some(x),
            _ => newest_load(taken.drop_last()),
        }
    }
}

proof fn reading_commands(v: CommandView, taken: Seq<ParamPayload>)
    ensures
        ({
            let r = all_commands(v, taken);
            &&& r.view.graph == v.graph
            &&& r.view.controls == v.controls
            &&& r.view.applied == v.applied
            &&& r.view.deferred == v.deferred
            &&& r.view.changed == v.changed
            &&& r.candidate == newest_load(taken)
            &&& r.view.status.requested_rate_generation == v.status.requested_rate_generation
            &&& r.view.status.applied_rate_generation == v.status.applied_rate_generation
            &&& r.view.status.has(RT_STATUS_RESAMP_SWAP_PENDING) == v.status.has(
                RT_STATUS_RESAMP_SWAP_PENDING,
            )
        }),
    decreases taken.len(),
{
    if taken.len() > 0 {
        reading_commands(v, taken.drop_last());
        structural_flags_are_apart(all_commands(v, taken.drop_last()).view.status);
        let before = all_commands(v, taken.drop_last()).view.status;
        if let ParamPayload::SetOversample(f) = taken.last() {
            structural_flags_are_apart(
                RtStatusFlags {
                    requested_os_factor: f.code_spec(),
                    requested_os_generation: next_generation(before.requested_os_generation),
                    ..before
                },
            );
        }
    }
}

/// Receiving commands applies at most one structural swap per callback.
pub proof fn reception_keeps_budget(
    v: CommandView,
    head: Option<ParamPayload>,
    taken: Seq<ParamPayload>,
    backlog: bool,
)
    requires
        v.applied <= STRUCTURAL_SWAPS_PER_CALLBACK,
    ensures
        v.applied <= received(v, head, taken, backlog).applied <= STRUCTURAL_SWAPS_PER_CALLBACK,
{
    reading_commands(deferred_model_resolved(v, head), taken);
}

/// The newest model replacement wins: its models run after the reception, or,
/// when the budget was spent, it is the one put off.
pub proof fn newest_load_wins(
    v: CommandView,
    head: Option<ParamPayload>,
    taken: Seq<ParamPayload>,
    backlog: bool,
)
    requires
        newest_load(taken) is Some,
    ensures
        ({
            let p = newest_load(taken)->0;
            let first = deferred_model_resolved(v, head);
            let w = received(v, head, taken, backlog);
            if first.applied < STRUCTURAL_SWAPS_PER_CALLBACK {
                &&& w.graph.model_l == p.model_l
                &&& w.graph.model_r == p.model_r
                &&& w.controls.current_nam_rate == controls_with(p, first.controls).current_nam_rate
                &&& w.deferred == first.deferred
                &&& w.changed
            } else {
                &&& w.graph == first.graph
                &&& w.deferred == Some(p)
            }
        }),
{
    reading_commands(deferred_model_resolved(v, head), taken);
}

/// Receiving commands neither mutes nor unmutes, and touches no resampler
/// generation.
pub proof fn reception_keeps_unmute_rule(
    v: CommandView,
    head: Option<ParamPayload>,
    taken: Seq<ParamPayload>,
    backlog: bool,
)
    requires
        unmuted_means_answered(v.status),
    ensures
        unmuted_means_answered(received(v, head, taken, backlog).status),
{
    let first = deferred_model_resolved(v, head);
    structural_flags_are_apart(v.status);
    reading_commands(first, taken);
    let r = all_commands(first, taken);
    structural_flags_are_apart(r.view.status);
    let flagged = backlog_flagged(r.view, backlog);
    structural_flags_are_apart(flagged.status);
    structural_flags_are_apart(flagged.status.with_supersession());
}

/// A whole callback applies at most one structural swap over all five rings,
/// and keeps the rule that an unmuted callback runs the newest requested
/// resampler, whatever the rings held.
pub proof fn callback_is_bounded_and_sound(
    v: CallbackView,
    resamplers: SwapsRead,
    cabsims: SwapsRead,
    commands: CommandsRead,
    target_ch: Option<usize>,
    models: Option<SwapsRead>,
    engines: Option<SwapsRead>,
)
    requires
        v.applied == 0,
        unmuted_means_answered(v.status),
    ensures
        ({
            let w = first_half(v, resamplers, cabsims, commands);
            let x = second_half(w, target_ch, models, engines);
            &&& w.applied <= STRUCTURAL_SWAPS_PER_CALLBACK
            &&& x.applied <= STRUCTURAL_SWAPS_PER_CALLBACK
            &&& unmuted_means_answered(x.status)
            &&& unmuted_means_answered(x.pending_step().status)
        }),
{
    let a = v.drain_step(SwapFamily::Resampler, resamplers);
    drain_keeps_budget(
        SwapFamily::Resampler,
        v.drain_input(SwapFamily::Resampler),
        resamplers.head,
        resamplers.taken,
        resamplers.truncated,
    );
    drain_keeps_unmute_rule(
        SwapFamily::Resampler,
        v.drain_input(SwapFamily::Resampler),
        resamplers.head,
        resamplers.taken,
        resamplers.truncated,
    );
    let b = a.drain_step(SwapFamily::CabSim, cabsims);
    drain_keeps_budget(
        SwapFamily::CabSim,
        a.drain_input(SwapFamily::CabSim),
        cabsims.head,
        cabsims.taken,
        cabsims.truncated,
    );
    drain_keeps_unmute_rule(
        SwapFamily::CabSim,
        a.drain_input(SwapFamily::CabSim),
        cabsims.head,
        cabsims.taken,
        cabsims.truncated,
    );
    let input = crate::commands::command_view(
        b.state.deferred_model,
        b.applied,
        b.state.graph,
        b.state.controls,
        b.status,
        b.retired,
        b.changed,
    );
    reception_keeps_budget(input, commands.head, commands.taken, commands.backlog);
    reception_keeps_unmute_rule(input, commands.head, commands.taken, commands.backlog);
    let w = b.command_step(commands);
    let c = w.slimmable_step(target_ch);
    if let Some(ch) = target_ch {
        structural_flags_are_apart(
            RtStatusFlags {
                requested_slimmable_ch: ch as u32,
                requested_slimmable_generation: next_generation(
                    w.status.requested_slimmable_generation,
                ),
                ..w.status
            },
        );
    }
    let d = match models {
        Some(x) => c.drain_step(SwapFamily::Slimmable, x),
        None => c,
    };
    if let Some(x) = models {
        drain_keeps_budget(
            SwapFamily::Slimmable,
            c.drain_input(SwapFamily::Slimmable),
            x.head,
            x.taken,
            x.truncated,
        );
        drain_keeps_unmute_rule(
            SwapFamily::Slimmable,
            c.drain_input(SwapFamily::Slimmable),
            x.head,
            x.taken,
            x.truncated,
        );
    }
    let e = match engines {
        Some(x) => d.drain_step(SwapFamily::Oversample, x),
        None => d,
    };
    if let Some(x) = engines {
        drain_keeps_budget(
            SwapFamily::Oversample,
            d.drain_input(SwapFamily::Oversample),
            x.head,
            x.taken,
            x.truncated,
        );
        drain_keeps_unmute_rule(
            SwapFamily::Oversample,
            d.drain_input(SwapFamily::Oversample),
            x.head,
            x.taken,
            x.truncated,
        );
    }
    rate_sync_keeps_unmute_rule(
        e.status,
        e.state.shared_target_rate,
        e.state.graph.resampler,
        e.state.controls.current_nam_rate,
    );
    giving_up_keeps_unmute_rule(e.rate_step().status);
}

proof fn taking_retires_boundedly(family: SwapFamily, d: DrainView, taken: Seq<SwapPayload>)
    ensures
        ({
            let (r, candidate) = all_taken(family, d, taken);
            r.retired.len() + (if candidate is Some { 1int } else { 0 }) == d.retired.len()
                + taken.len()
        }),
    decreases taken.len(),
{
    if taken.len() > 0 {
        taking_retires_boundedly(family, d, taken.drop_last());
    }
}

/// A drain retires one item for each envelope that it took or found put off and
/// did not put off itself.
pub proof fn drain_retires_one_for_one(
    family: SwapFamily,
    d: DrainView,
    head: Option<SwapPayload>,
    taken: Seq<SwapPayload>,
    truncated: bool,
)
    ensures
        ({
            let e = drained(family, d, head, taken, truncated);
            e.retired.len() + (if e.deferred is Some { 1int } else { 0 }) == d.retired.len() + (if d.deferred is Some {
                1int
            } else {
                0
            }) + taken.len()
        }),
{
    let first = deferred_resolved(family, d, head);
    taking_retires_boundedly(family, first, taken);
    reading_installs_nothing(family, first, taken);
}

proof fn commands_retire_boundedly(v: CommandView, taken: Seq<ParamPayload>)
    ensures
        ({
            let r = all_commands(v, taken);
            r.view.retired.len() + (if r.candidate is Some { 2int } else { 0 }) <= v.retired.len()
                + 2 * taken.len()
        }),
    decreases taken.len(),
{
    if taken.len() > 0 {
        commands_retire_boundedly(v, taken.drop_last());
    }
}

/// A reception retires at most two models for each command that it took, and
/// two for a model replacement that it found put off.
pub proof fn reception_retires_boundedly(
    v: CommandView,
    head: Option<ParamPayload>,
    taken: Seq<ParamPayload>,
    backlog: bool,
)
    ensures
        received(v, head, taken, backlog).retired.len() <= v.retired.len() + 2 * (taken.len() + 1),
{
    let first = deferred_model_resolved(v, head);
    commands_retire_boundedly(first, taken);
    reading_commands(first, taken);
}

/// A whole callback takes at most 48 items from its rings and retires at most
/// [`RETIRED_PER_CALLBACK`] items.
pub proof fn callback_work_is_bounded(
    ch: RtHostChannels,
    v: CallbackView,
    target_ch: Option<usize>,
    x: CallbackReads,
    ch_after: RtHostChannels,
)
    requires
        reads_match(ch, x, ch_after),
    ensures
        x.resamplers.taken.len() + x.cabsims.taken.len() + x.commands.taken.len() + (match x.models {
            Some(m) => m.taken.len(),
            None => 0,
        }) + (match x.engines {
            Some(m) => m.taken.len(),
            None => 0,
        }) <= 48,
        callback_settled(v, target_ch, x).retired.len() <= v.retired.len() + RETIRED_PER_CALLBACK,
{
    let a = v.drain_step(SwapFamily::Resampler, x.resamplers);
    drain_retires_one_for_one(
        SwapFamily::Resampler,
        v.drain_input(SwapFamily::Resampler),
        x.resamplers.head,
        x.resamplers.taken,
        x.resamplers.truncated,
    );
    let b = a.drain_step(SwapFamily::CabSim, x.cabsims);
    drain_retires_one_for_one(
        SwapFamily::CabSim,
        a.drain_input(SwapFamily::CabSim),
        x.cabsims.head,
        x.cabsims.taken,
        x.cabsims.truncated,
    );
    let input = crate::commands::command_view(
        b.state.deferred_model,
        b.applied,
        b.state.graph,
        b.state.controls,
        b.status,
        b.retired,
        b.changed,
    );
    reception_retires_boundedly(input, x.commands.head, x.commands.taken, x.commands.backlog);
    let w = CallbackView { changed: false, ..b.command_step(x.commands) };
    let c = w.slimmable_step(target_ch);
    let d = match x.models {
        Some(m) => c.drain_step(SwapFamily::Slimmable, m),
        None => c,
    };
    if let Some(m) = x.models {
        drain_retires_one_for_one(
            SwapFamily::Slimmable,
            c.drain_input(SwapFamily::Slimmable),
            m.head,
            m.taken,
            m.truncated,
        );
    }
    if let Some(m) = x.engines {
        drain_retires_one_for_one(
            SwapFamily::Oversample,
            d.drain_input(SwapFamily::Oversample),
            m.head,
            m.taken,
            m.truncated,
        );
    }
}

/// One object that the library moves about.
pub enum Unit {
    /// A model.
    Model(StaticModel),
    /// A resampler.
    Resampler(NamResampler),
    /// A streaming adapter.
    Stream(StreamingResampleBuffer),
    /// A cab-sim pair.
    CabSim(CabSimPair),
    /// An oversampling engine.
    Os(OversampleEngine),
}

/// The model, if there is one.
pub open spec fn model_unit(m: Option<StaticModel>) -> Multiset<Unit> {
    match m {
        Some(x) => Multiset::singleton(Unit::Model(x)),
        None => Multiset::empty(),
    }
}

/// The cab-sim pair, if there is one.
pub open spec fn cabsim_unit(p: Option<CabSimPair>) -> Multiset<Unit> {
    match p {
        Some(x) => Multiset::singleton(Unit::CabSim(x)),
        None => Multiset::empty(),
    }
}

/// The objects in a retired item.
pub open spec fn item_units(g: GcItem) -> Multiset<Unit> {
    match g {
        GcItem::Model(m) => Multiset::singleton(Unit::Model(m)),
        GcItem::ResamplerSwap(x) => Multiset::singleton(Unit::Resampler(x.resampler)).add(
            Multiset::singleton(Unit::Stream(x.stream)),
        ),
        GcItem::CabSimSwap(x) => cabsim_unit(x.pair),
        GcItem::SlimModelPair(x) => model_unit(x.l).add(model_unit(x.r)),
        GcItem::OsEnginePair(x) => Multiset::singleton(Unit::Os(x.l)).add(
            Multiset::singleton(Unit::Os(x.r)),
        ),
    }
}

/// The objects in an envelope.
pub open spec fn payload_units(p: SwapPayload) -> Multiset<Unit> {
    item_units(p.retired_spec())
}

/// The objects in a put-off envelope, if there is one.
pub open spec fn parked_units(p: Option<SwapPayload>) -> Multiset<Unit> {
    match p {
        Some(x) => payload_units(x),
        None => Multiset::empty(),
    }
}

/// The running objects.
pub open spec fn graph_units(g: ActiveGraph) -> Multiset<Unit> {
    Multiset::singleton(Unit::Resampler(g.resampler)).add(
        Multiset::singleton(Unit::Stream(g.stream)),
    ).add(cabsim_unit(g.cabsim)).add(model_unit(g.model_l)).add(model_unit(g.model_r)).add(
        Multiset::singleton(Unit::Os(g.os_l)),
    ).add(Multiset::singleton(Unit::Os(g.os_r)))
}

/// The objects in a row of retired items.
pub open spec fn items_units(items: Seq<GcItem>) -> Multiset<Unit>
    decreases items.len(),
{
    if items.len() == 0 {
        Multiset::empty()
    } else {
        items_units(items.drop_last()).add(item_units(items.last()))
    }
}

/// The objects in a row of envelopes.
pub open spec fn taken_units(taken: Seq<SwapPayload>) -> Multiset<Unit>
    decreases taken.len(),
{
    if taken.len() == 0 {
        Multiset::empty()
    } else {
        taken_units(taken.drop_last()).add(payload_units(taken.last()))
    }
}

/// All objects that a drain has in hand: running, put off or retired.
pub open spec fn drain_units(d: DrainView) -> Multiset<Unit> {
    graph_units(d.graph).add(parked_units(d.deferred)).add(items_units(d.retired))
}

proof fn items_units_push(items: Seq<GcItem>, g: GcItem)
    ensures
        items_units(items.push(g)) == items_units(items).add(item_units(g)),
{
    assert(items.push(g).drop_last() =~= items);
}

proof fn exchange_conserves(p: SwapPayload, g: ActiveGraph)
    ensures
        graph_units(graph_with(p, g)).add(payload_units(replaced_by(p, g))) == graph_units(g).add(
            payload_units(p),
        ),
{
    assert(graph_units(graph_with(p, g)).add(payload_units(replaced_by(p, g))) =~= graph_units(
        g,
    ).add(payload_units(p)));
}

proof fn install_conserves(d: DrainView, p: SwapPayload)
    ensures
        drain_units(d.install(p)) == drain_units(d).add(payload_units(p)),
{
    items_units_push(d.retired, replaced_by(p, d.graph).retired_spec());
    exchange_conserves(p, d.graph);
    assert(drain_units(d.install(p)) =~= graph_units(graph_with(p, d.graph)).add(
        payload_units(replaced_by(p, d.graph)),
    ).add(parked_units(d.deferred)).add(items_units(d.retired)));
    assert(drain_units(d).add(payload_units(p)) =~= graph_units(d.graph).add(
        payload_units(p),
    ).add(parked_units(d.deferred)).add(items_units(d.retired)));
}

proof fn discard_conserves(d: DrainView, p: SwapPayload)
    ensures
        drain_units(d.discard(p)) == drain_units(d).add(payload_units(p)),
        drain_units(d.supersede(p)) == drain_units(d).add(payload_units(p)),
{
    items_units_push(d.retired, p.retired_spec());
    assert(drain_units(d.discard(p)) =~= drain_units(d).add(payload_units(p)));
    assert(drain_units(d.supersede(p)) =~= drain_units(d).add(payload_units(p)));
}

proof fn resolving_conserves(family: SwapFamily, d: DrainView, head: Option<SwapPayload>)
    ensures
        drain_units(deferred_resolved(family, d, head)) == drain_units(d),
{
    if let Some(p) = d.deferred {
        let free = DrainView { deferred: None, ..d };
        assert(drain_units(d) =~= drain_units(free).add(payload_units(p)));
        discard_conserves(free, p);
        install_conserves(free, p);
        assert(drain_units(free.park(p)) =~= drain_units(free).add(payload_units(p)));
    }
}

proof fn taking_conserves(family: SwapFamily, d: DrainView, taken: Seq<SwapPayload>)
    ensures
        ({
            let (r, candidate) = all_taken(family, d, taken);
            drain_units(r).add(parked_units(candidate)) == drain_units(d).add(taken_units(taken))
        }),
    decreases taken.len(),
{
    let goal = drain_units(d).add(taken_units(taken));
    if taken.len() == 0 {
        assert(drain_units(d).add(parked_units(None)) =~= goal);
    } else {
        taking_conserves(family, d, taken.drop_last());
        let (before, candidate) = all_taken(family, d, taken.drop_last());
        let p = taken.last();
        assert(goal =~= drain_units(d).add(taken_units(taken.drop_last())).add(payload_units(p)));
        discard_conserves(before, p);
        if candidate is Some {
            discard_conserves(before, candidate->0);
        }
        let (r, c) = one_taken(family, before, candidate, p);
        assert(drain_units(r).add(parked_units(c)) =~= drain_units(before).add(
            parked_units(candidate),
        ).add(payload_units(p)));
    }
}

/// No object is lost and none is doubled: after a drain, the running, put-off
/// and retired objects are those of before and the ones taken from the ring.
pub proof fn drain_conserves_objects(
    family: SwapFamily,
    d: DrainView,
    head: Option<SwapPayload>,
    taken: Seq<SwapPayload>,
    truncated: bool,
)
    ensures
        drain_units(drained(family, d, head, taken, truncated)) == drain_units(d).add(
            taken_units(taken),
        ),
{
    let first = deferred_resolved(family, d, head);
    resolving_conserves(family, d, head);
    taking_conserves(family, first, taken);
    let (read, candidate) = all_taken(family, first, taken);
    let flagged = truncation_flagged(read, truncated);
    assert(drain_units(flagged) == drain_units(read));
    match candidate {
        None => {
            assert(drain_units(read).add(parked_units(None)) =~= drain_units(read));
        },
        Some(p) => {
            install_conserves(flagged, p);
            if flagged.deferred is Some {
                let older = flagged.deferred->0;
                let free = DrainView { deferred: None, ..flagged };
                assert(drain_units(flagged) =~= drain_units(free).add(payload_units(older)));
                discard_conserves(free, older);
                assert(drain_units(flagged.supersede(older).park(p)) =~= drain_units(
                    free.supersede(older),
                ).add(payload_units(p)));
            } else {
                assert(drain_units(flagged.park(p)) =~= drain_units(flagged).add(
                    payload_units(p),
                ));
            }
        },
    }
}

/// The models of a model replacement.
pub open spec fn load_units(p: LoadModel) -> Multiset<Unit> {
    model_unit(p.model_l).add(model_unit(p.model_r))
}

/// The models of a put-off model replacement, if there is one.
pub open spec fn parked_load_units(p: Option<LoadModel>) -> Multiset<Unit> {
    match p {
        Some(x) => load_units(x),
        None => Multiset::empty(),
    }
}

/// The models in a row of commands.
pub open spec fn command_units(taken: Seq<ParamPayload>) -> Multiset<Unit>
    decreases taken.len(),
{
    if taken.len() == 0 {
        Multiset::empty()
    } else {
        command_units(taken.drop_last()).add(
            match taken.last() {
                ParamPayload::LoadModel(x) => load_units(x),
                _ => Multiset::empty(),
            },
        )
    }
}

/// All objects that a reception has in hand: running, put off or retired.
pub open spec fn reception_units(v: CommandView) -> Multiset<Unit> {
    graph_units(v.graph).add(parked_load_units(v.deferred)).add(items_units(v.retired))
}

proof fn model_items_units(items: Seq<GcItem>, l: Option<StaticModel>, r: Option<StaticModel>)
    ensures
        items_units(items + model_items(l, r)) == items_units(items).add(model_unit(l)).add(
            model_unit(r),
        ),
{
    let left = match l {
        Some(m) => items.push(GcItem::Model(m)),
        None => items,
    };
    let both = match r {
        Some(m) => left.push(GcItem::Model(m)),
        None => left,
    };
    assert(items + model_items(l, r) =~= both);
    if let Some(m) = l {
        items_units_push(items, GcItem::Model(m));
    }
    if let Some(m) = r {
        items_units_push(left, GcItem::Model(m));
    }
    assert(items_units(both) =~= items_units(items).add(model_unit(l)).add(model_unit(r)));
}

proof fn load_steps_conserve(v: CommandView, p: LoadModel)
    ensures
        reception_units(v.supersede(p)) == reception_units(v).add(load_units(p)),
        reception_units(v.install(p)) == reception_units(v).add(load_units(p)),
{
    model_items_units(v.retired, p.model_l, p.model_r);
    model_items_units(v.retired, v.graph.model_l, v.graph.model_r);
    assert(reception_units(v.supersede(p)) =~= reception_units(v).add(load_units(p)));
    assert(reception_units(v.install(p)) =~= reception_units(v).add(load_units(p)));
}

proof fn commands_conserve(v: CommandView, taken: Seq<ParamPayload>)
    ensures
        ({
            let r = all_commands(v, taken);
            reception_units(r.view).add(parked_load_units(r.candidate)) == reception_units(v).add(
                command_units(taken),
            )
        }),
    decreases taken.len(),
{
    let goal = reception_units(v).add(command_units(taken));
    if taken.len() == 0 {
        assert(reception_units(v).add(parked_load_units(None)) =~= goal);
    } else {
        commands_conserve(v, taken.drop_last());
        let before = all_commands(v, taken.drop_last());
        let after = one_command(before, taken.last());
        if before.candidate is Some {
            load_steps_conserve(before.view, before.candidate->0);
        }
        let gained = match taken.last() {
            ParamPayload::LoadModel(x) => load_units(x),
            _ => Multiset::empty(),
        };
        assert(goal =~= reception_units(v).add(command_units(taken.drop_last())).add(gained));
        assert(reception_units(after.view).add(parked_load_units(after.candidate))
            =~= reception_units(before.view).add(parked_load_units(before.candidate)).add(gained));
    }
}

/// No model is lost and none is doubled when commands are received.
pub proof fn reception_conserves_models(
    v: CommandView,
    head: Option<ParamPayload>,
    taken: Seq<ParamPayload>,
    backlog: bool,
)
    ensures
        reception_units(received(v, head, taken, backlog)) == reception_units(v).add(
            command_units(taken),
        ),
{
    let first = deferred_model_resolved(v, head);
    if let Some(p) = v.deferred {
        let free = CommandView { deferred: None, ..v };
        assert(reception_units(v) =~= reception_units(free).add(load_units(p)));
        load_steps_conserve(free, p);
        assert(reception_units(free.park(p)) =~= reception_units(free).add(load_units(p)));
    }
    assert(reception_units(first) == reception_units(v));
    commands_conserve(first, taken);
    let r = all_commands(first, taken);
    let flagged = backlog_flagged(r.view, backlog);
    assert(reception_units(flagged) == reception_units(r.view));
    let resolved = model_resolved(flagged, r.candidate);
    match r.candidate {
        None => {
            assert(reception_units(r.view).add(parked_load_units(None)) =~= reception_units(
                r.view,
            ));
        },
        Some(p) => {
            load_steps_conserve(flagged, p);
            if flagged.deferred is Some {
                let older = flagged.deferred->0;
                let free = CommandView { deferred: None, ..flagged };
                assert(reception_units(flagged) =~= reception_units(free).add(load_units(older)));
                load_steps_conserve(free, older);
                assert(reception_units(flagged.supersede(older).park(p)) =~= reception_units(
                    free.supersede(older),
                ).add(load_units(p)));
            } else {
                assert(reception_units(flagged.park(p)) =~= reception_units(flagged).add(
                    load_units(p),
                ));
            }
        },
    }
    assert(reception_units(scalars_applied(resolved, r.pending)) == reception_units(resolved));
}

/// Whether both channels run a model of the same channel count.
pub open spec fn channels_agree(g: ActiveGraph) -> bool {
    g.model_l is Some && g.model_r is Some && g.model_l->0.channels == g.model_r->0.channels
}

/// Whether the envelope, if it holds models, holds two of the same channel
/// count.
pub open spec fn pair_agrees(p: SwapPayload) -> bool {
    p matches SwapPayload::Slimmable(x) ==> x.l is Some && x.r is Some && x.l->0.channels
        == x.r->0.channels
}

/// Left and right never fall apart: as long as every stereo pair is sliced
/// alike, both channels run the same channel count after every drain.
pub proof fn stereo_pairs_stay_together(
    family: SwapFamily,
    d: DrainView,
    head: Option<SwapPayload>,
    taken: Seq<SwapPayload>,
    truncated: bool,
)
    requires
        channels_agree(d.graph),
        d.deferred is Some ==> pair_agrees(d.deferred->0),
        forall|i: int| 0 <= i < taken.len() ==> pair_agrees(#[trigger] taken[i]),
    ensures
        channels_agree(drained(family, d, head, taken, truncated).graph),
{
    let first = deferred_resolved(family, d, head);
    reading_installs_nothing(family, first, taken);
    newest_is_taken(family, first.status, taken);
}

proof fn newest_is_taken(family: SwapFamily, s: RtStatusFlags, taken: Seq<SwapPayload>)
    ensures
        newest_current(family, s, taken) is Some ==> exists|i: int|
            0 <= i < taken.len() && #[trigger] taken[i] == newest_current(family, s, taken)->0,
    decreases taken.len(),
{
    if taken.len() > 0 {
        if is_current(taken.last(), family, s) {
            assert(taken[taken.len() - 1] == newest_current(family, s, taken)->0);
        } else {
            newest_is_taken(family, s, taken.drop_last());
            if newest_current(family, s, taken) is Some {
                let i = choose|i: int|
                    0 <= i < taken.len() - 1 && #[trigger] taken.drop_last()[i]
                        == newest_current(family, s, taken)->0;
                assert(taken[i] == newest_current(family, s, taken)->0);
            }
        }
    }
}

/// How far the control plane has come with one rebuild.
pub enum Builder {
    /// It builds for the request it read.
    Building,
    /// It has lowered the flag.
    Cleared,
    /// It has read the generation again.
    Reread,
    /// It has raised the flag again where needed.
    Done,
}

/// The shared flag and generation of one family while the callback publishes
/// requests and the control plane finishes a rebuild.
pub struct Handshake {
    /// The request flag.
    pub flag: bool,
    /// The newest request.
    pub generation: u64,
    /// Whether the callback has bumped the generation and not raised the flag
    /// yet.
    pub publishing: bool,
    /// The control plane's progress.
    pub builder: Builder,
    /// The request it builds for.
    pub built: u64,
    /// The generation it read again.
    pub reread: u64,
}

/// One atomic action of either side.
pub enum HandshakeStep {
    /// The callback bumps the generation.
    Bump,
    /// The callback raises the flag.
    Raise,
    /// The control plane lowers the flag.
    Clear,
    /// The control plane reads the generation.
    Read,
    /// The control plane raises the flag again where the generation moved.
    Rearm,
}

impl Handshake {
    /// The state after a step; a step that is not due changes nothing.
    pub open spec fn after(self, step: HandshakeStep) -> Handshake {
        match step {
            HandshakeStep::Bump => if self.publishing {
                self
            } else {
                Handshake {
                    generation: next_generation(self.generation),
                    publishing: true,
                    ..self
                }
            },
            HandshakeStep::Raise => if self.publishing {
                Handshake { flag: true, publishing: false, ..self }
            } else {
                self
            },
            HandshakeStep::Clear => if self.builder is Building {
                Handshake { flag: false, builder: Builder::Cleared, ..self }
            } else {
                self
            },
            HandshakeStep::Read => if self.builder is Cleared {
                Handshake { reread: self.generation, builder: Builder::Reread, ..self }
            } else {
                self
            },
            HandshakeStep::Rearm => if self.builder is Reread {
                Handshake {
                    flag: self.flag || self.reread != self.built,
                    builder: Builder::Done,
                    ..self
                }
            } else {
                self
            },
        }
    }

    /// The state after a row of steps.
    pub open spec fn after_all(self, steps: Seq<HandshakeStep>) -> Handshake
        decreases steps.len(),
    {
        if steps.len() == 0 {
            self
        } else {
            self.after_all(steps.drop_last()).after(steps.last())
        }
    }

    /// What holds at every moment: from the second reading on, a request that
    /// differs from the one read, and at the end one that differs from the one
    /// built for, is visible or about to be.
    pub open spec fn consistent(self) -> bool {
        &&& self.builder is Reread ==> (self.generation != self.reread ==> self.flag
            || self.publishing)
        &&& self.builder is Done ==> (self.generation != self.built ==> self.flag
            || self.publishing)
    }
}

/// No request is lost, however the two sides interleave: when the control
/// plane is done with a rebuild and the newest request is another one, the flag
/// is up or the callback is about to raise it.
pub proof fn no_interleaving_loses_a_request(h: Handshake, steps: Seq<HandshakeStep>)
    requires
        h.builder is Building,
    ensures
        ({
            let e = h.after_all(steps);
            e.builder is Done && e.generation != e.built ==> e.flag || e.publishing
        }),
{
    handshake_stays_consistent(h, steps);
}

proof fn handshake_stays_consistent(h: Handshake, steps: Seq<HandshakeStep>)
    requires
        h.consistent(),
    ensures
        h.after_all(steps).consistent(),
    decreases steps.len(),
{
    if steps.len() > 0 {
        handshake_stays_consistent(h, steps.drop_last());
    }
}

/// A callback never applies more than one structural swap.
pub proof fn one_structural_swap_at_most(
    v: CallbackView,
    target_ch: Option<usize>,
    x: CallbackReads,
)
    requires
        v.applied == 0,
        unmuted_means_answered(v.status),
    ensures
        callback_settled(v, target_ch, x).applied <= 1,
{
    callback_is_bounded_and_sound(
        v,
        x.resamplers,
        x.cabsims,
        x.commands,
        target_ch,
        x.models,
        x.engines,
    );
    let w = first_half(v, x.resamplers, x.cabsims, x.commands);
    let plain = CallbackView { changed: false, ..w };
    assert(second_half(plain, target_ch, x.models, x.engines).applied == second_half(
        w,
        target_ch,
        x.models,
        x.engines,
    ).applied);
}

/// A put-off envelope that is still current is not lost to envelopes that are
/// out of date, however many stand before the callback: it runs after a callback
/// with a fresh budget, and waits on after one whose budget was spent.
pub proof fn parked_envelope_survives_stale_ones(
    family: SwapFamily,
    d: DrainView,
    head: Option<SwapPayload>,
    taken: Seq<SwapPayload>,
    truncated: bool,
)
    requires
        d.deferred is Some,
        is_current(d.deferred->0, family, d.status),
        head is Some ==> taken.len() > 0 && taken[0] == head->0,
        forall|i: int| 0 <= i < taken.len() ==> !is_current(#[trigger] taken[i], family, d.status),
    ensures
        ({
            let e = drained(family, d, head, taken, truncated);
            &&& d.applied == 0 ==> e.graph == graph_with(d.deferred->0, d.graph) && e.deferred
                is None && e.applied == 1
            &&& d.applied >= 1 ==> e.graph == d.graph && e.deferred == d.deferred && e.applied
                == d.applied
        }),
{
    let first = deferred_resolved(family, d, head);
    if head is Some {
        assert(!is_current(taken[0], family, d.status));
    }
    resolving_keeps_requests(family, d, head);
    none_is_newest(family, d.status, taken);
    newest_current_by_requests(family, d.status, first.status, taken);
    reading_installs_nothing(family, first, taken);
}

proof fn none_is_newest(family: SwapFamily, s: RtStatusFlags, taken: Seq<SwapPayload>)
    requires
        forall|i: int| 0 <= i < taken.len() ==> !is_current(#[trigger] taken[i], family, s),
    ensures
        newest_current(family, s, taken) is None,
    decreases taken.len(),
{
    if taken.len() > 0 {
        assert(!is_current(taken[taken.len() - 1], family, s));
        assert forall|i: int| 0 <= i < taken.len() - 1 implies !is_current(
            #[trigger] taken.drop_last()[i],
            family,
            s,
        ) by {
            assert(taken.drop_last()[i] == taken[i]);
        }
        none_is_newest(family, s, taken.drop_last());
    }
}

/// Of the envelopes taken from a ring, the last one that answers the newest
/// request runs after a callback with a fresh budget and nothing put off; those
/// before and after it do not.
pub proof fn last_answer_runs(
    family: SwapFamily,
    d: DrainView,
    head: Option<SwapPayload>,
    taken: Seq<SwapPayload>,
    truncated: bool,
    i: int,
)
    requires
        d.deferred is None,
        d.applied == 0,
        0 <= i < taken.len(),
        is_current(taken[i], family, d.status),
        forall|j: int|
            i < j < taken.len() ==> !is_current(#[trigger] taken[j], family, d.status),
    ensures
        ({
            let e = drained(family, d, head, taken, truncated);
            &&& e.applied == 1
            &&& e.deferred is None
            &&& match taken[i] {
                SwapPayload::Resampler(x) => e.graph == ActiveGraph {
                    resampler: x.resampler,
                    stream: x.stream,
                    ..d.graph
                } && e.status.active_rate == x.resampler.host_rate
                    && e.status.applied_rate_generation == d.status.requested_rate_generation
                    && !e.status.has(RT_STATUS_RESAMP_SWAP_PENDING),
                SwapPayload::CabSim(x) => e.graph == ActiveGraph { cabsim: x.pair, ..d.graph },
                SwapPayload::Slimmable(x) => e.graph.model_l == x.l && (x.r is Some
                    ==> e.graph.model_r == x.r) && (x.r is None ==> e.graph.model_r
                    == d.graph.model_r),
                SwapPayload::Oversample(x) => e.graph == ActiveGraph {
                    os_l: x.l,
                    os_r: x.r,
                    ..d.graph
                },
            }
        }),
{
    last_current_is_newest(family, d.status, taken, i);
    newest_envelope_wins(family, d, head, taken, truncated);
    reading_installs_nothing(family, d, taken);
    let (read, candidate) = all_taken(family, d, taken);
    let flagged = truncation_flagged(read, truncated);
    crate::swap::installed_objects_run(flagged, taken[i]);
}

proof fn last_current_is_newest(
    family: SwapFamily,
    s: RtStatusFlags,
    taken: Seq<SwapPayload>,
    i: int,
)
    requires
        0 <= i < taken.len(),
        is_current(taken[i], family, s),
        forall|j: int| i < j < taken.len() ==> !is_current(#[trigger] taken[j], family, s),
    ensures
        newest_current(family, s, taken) == Some(taken[i]),
    decreases taken.len(),
{
    if i < taken.len() - 1 {
        assert(!is_current(taken[taken.len() - 1], family, s));
        assert forall|j: int| i < j < taken.len() - 1 implies !is_current(
            #[trigger] taken.drop_last()[j],
            family,
            s,
        ) by {
            assert(taken.drop_last()[j] == taken[j]);
        }
        last_current_is_newest(family, s, taken.drop_last(), i);
    }
}

/// A put-off model replacement waits on, unchanged, through a callback whose
/// budget was spent and in which no other is queued.
pub proof fn parked_load_waits_for_the_budget(
    v: CommandView,
    head: Option<ParamPayload>,
    backlog: bool,
)
    requires
        v.deferred is Some,
        v.applied >= STRUCTURAL_SWAPS_PER_CALLBACK,
        head is None,
    ensures
        received(v, head, Seq::empty(), backlog).deferred == v.deferred,
        received(v, head, Seq::empty(), backlog).graph == v.graph,
        received(v, head, Seq::empty(), backlog).applied == v.applied,
{
    reading_commands(deferred_model_resolved(v, head), Seq::empty());
}

} // verus!
