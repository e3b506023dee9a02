//! Installing rebuilt objects inside the audio callback.
//!
//! Each family of objects has its own ring. A callback resolves what an earlier
//! callback put off, reads a bounded number of envelopes, keeps only the newest
//! one that answers the current request, and installs it when the callback's
//! shared budget of structural swaps allows. Everything else is retired: no
//! object is freed on the audio thread and none is lost.

use vstd::prelude::*;

use crate::payload::{
    CabSimPair, CabSimSwapPayload, GcItem, NamResampler, OsEnginePair, OversampleEngine,
    ResamplerSwapPayload, SlimModelPair, StaticModel, StreamingResampleBuffer, SwapFamily,
    SwapPayload,
};
use crate::rings::{begins_with, peek_keeps_order, peek_swap, pop_keeps_order, pop_swap, swaps_queued};
use crate::rt_status::{
    RtStatusFlags, RT_STATUS_RESAMP_SWAP_PENDING, RT_STATUS_SPSC_DRAIN_TRUNCATED,
};

verus! {

/// Structural swaps that one callback may apply, over all rings.
pub const STRUCTURAL_SWAPS_PER_CALLBACK: usize = 1;

/// Envelopes that one callback takes from one ring at most.
pub const STRUCTURAL_POPS_PER_CALLBACK: usize = 8;

/// The objects that the callback currently runs.
#[derive(Clone, Copy, Debug, PartialEq, Eq, Structural)]
pub struct ActiveGraph {
    /// Rate conversion.
    pub resampler: NamResampler,
    /// Streaming adapter of the resampler.
    pub stream: StreamingResampleBuffer,
    /// Cabinet simulation; none means bypass.
    pub cabsim: Option<CabSimPair>,
    /// Left model.
    pub model_l: Option<StaticModel>,
    /// Right model.
    pub model_r: Option<StaticModel>,
    /// Left oversampling engine.
    pub os_l: OversampleEngine,
    /// Right oversampling engine.
    pub os_r: OversampleEngine,
}

/// What one drain works on, as mathematical values.
pub struct DrainView {
    /// The envelope put off by an earlier callback.
    pub deferred: Option<SwapPayload>,
    /// Structural swaps already applied in this callback.
    pub applied: usize,
    /// The running objects.
    pub graph: ActiveGraph,
    /// The status word and counters.
    pub status: RtStatusFlags,
    /// Items retired so far, oldest first.
    pub retired: Seq<GcItem>,
}

impl RtStatusFlags {
    /// The newest request of a family.
    pub open spec fn requested_generation_spec(self, family: SwapFamily) -> u64 {
        match family {
            SwapFamily::Resampler => self.requested_rate_generation,
            SwapFamily::CabSim => self.requested_cabsim_generation,
            SwapFamily::Slimmable => self.requested_slimmable_generation,
            SwapFamily::Oversample => self.requested_os_generation,
        }
    }

    /// The newest request of a family.
    pub fn requested_generation(&self, family: SwapFamily) -> (r: u64)
        ensures
            r == self.requested_generation_spec(family),
    {
        match family {
            SwapFamily::Resampler => self.requested_rate_generation,
            SwapFamily::CabSim => self.requested_cabsim_generation,
            SwapFamily::Slimmable => self.requested_slimmable_generation,
            SwapFamily::Oversample => self.requested_os_generation,
        }
    }
}

/// Whether an envelope belongs to the family and answers its newest request.
pub open spec fn is_current(p: SwapPayload, family: SwapFamily, status: RtStatusFlags) -> bool {
    &&& p.family_spec() == family
    &&& p.generation_spec() == status.requested_generation_spec(family)
}

/// Whether the two envelopes are for the same family and the same request.
pub open spec fn same_key(a: SwapPayload, b: SwapPayload) -> bool {
    &&& a.family_spec() == b.family_spec()
    &&& a.generation_spec() == b.generation_spec()
}

/// The running objects after the envelope was installed. A model pair without
/// a right model leaves the right channel as it is.
pub open spec fn graph_with(p: SwapPayload, g: ActiveGraph) -> ActiveGraph {
    match p {
        SwapPayload::Resampler(x) => ActiveGraph { resampler: x.resampler, stream: x.stream, ..g },
        SwapPayload::CabSim(x) => ActiveGraph { cabsim: x.pair, ..g },
        SwapPayload::Slimmable(x) => ActiveGraph {
            model_l: x.l,
            model_r: if x.r is Some { x.r } else { g.model_r },
            ..g
        },
        SwapPayload::Oversample(x) => ActiveGraph { os_l: x.l, os_r: x.r, ..g },
    }
}

/// The envelope after its objects were exchanged for the running ones.
pub open spec fn replaced_by(p: SwapPayload, g: ActiveGraph) -> SwapPayload {
    match p {
        SwapPayload::Resampler(x) => SwapPayload::Resampler(
            ResamplerSwapPayload { resampler: g.resampler, stream: g.stream, ..x },
        ),
        SwapPayload::CabSim(x) => SwapPayload::CabSim(CabSimSwapPayload { pair: g.cabsim, ..x }),
        SwapPayload::Slimmable(x) => SwapPayload::Slimmable(
            SlimModelPair { l: g.model_l, r: if x.r is Some { g.model_r } else { x.r }, ..x },
        ),
        SwapPayload::Oversample(x) => SwapPayload::Oversample(
            OsEnginePair { l: g.os_l, r: g.os_r, ..x },
        ),
    }
}

/// The status after the envelope was installed: the applied generation is
/// recorded, and a resampler also publishes its host rate and unmutes.
pub open spec fn status_with(p: SwapPayload, s: RtStatusFlags) -> RtStatusFlags {
    match p {
        SwapPayload::Resampler(x) => RtStatusFlags {
            applied_rate_generation: x.generation,
            active_rate: x.resampler.host_rate,
            active_rate_changed: x.resampler.host_rate,
            ..s
        }.without_flag(RT_STATUS_RESAMP_SWAP_PENDING),
        SwapPayload::CabSim(x) => RtStatusFlags { applied_cabsim_generation: x.generation, ..s },
        SwapPayload::Slimmable(_) => s,
        SwapPayload::Oversample(x) => RtStatusFlags { applied_os_generation: x.generation, ..s },
    }
}

impl DrainView {
    /// The envelope is retired unapplied.
    pub open spec fn discard(self, p: SwapPayload) -> DrainView {
        DrainView { retired: self.retired.push(p.retired_spec()), ..self }
    }

    /// The envelope is retired unapplied because a newer one replaces it.
    pub open spec fn supersede(self, p: SwapPayload) -> DrainView {
        DrainView { status: self.status.with_supersession(), ..self.discard(p) }
    }

    /// The envelope is installed and what it replaces is retired.
    pub open spec fn install(self, p: SwapPayload) -> DrainView {
        DrainView {
            applied: (self.applied + 1) as usize,
            graph: graph_with(p, self.graph),
            status: status_with(p, self.status),
            retired: self.retired.push(replaced_by(p, self.graph).retired_spec()),
            ..self
        }
    }

    /// The envelope is put off to the next callback.
    pub open spec fn park(self, p: SwapPayload) -> DrainView {
        DrainView { deferred: Some(p), status: self.status.with_deferral(), ..self }
    }

    /// Whether the callback may still apply a structural swap.
    pub open spec fn budget_left(self) -> bool {
        self.applied < STRUCTURAL_SWAPS_PER_CALLBACK
    }
}

/// The state after the put-off envelope was resolved, `head` being what stood
/// first in the ring: out of date it is retired; superseded by the head it is
/// retired; otherwise it is installed, or kept when the budget is spent.
pub open spec fn deferred_resolved(
    family: SwapFamily,
    d: DrainView,
    head: Option<SwapPayload>,
) -> DrainView {
    match d.deferred {
        None => d,
        Some(p) => {
            let free = DrainView { deferred: None, ..d };
            if !is_current(p, family, d.status) {
                free.discard(p)
            } else if head is Some && same_key(head->0, p) {
                free.supersede(p)
            } else if d.budget_left() {
                free.install(p)
            } else {
                free.park(p)
            }
        },
    }
}

/// One envelope taken from the ring: out of date it is retired; otherwise it
/// becomes the candidate, and the older candidate is superseded.
pub open spec fn one_taken(
    family: SwapFamily,
    d: DrainView,
    candidate: Option<SwapPayload>,
    p: SwapPayload,
) -> (DrainView, Option<SwapPayload>) {
    if !is_current(p, family, d.status) {
        (d.discard(p), candidate)
    } else if candidate is Some {
        (d.supersede(candidate->0), Some(p))
    } else {
        (d, Some(p))
    }
}

/// The state and the candidate after `taken` was read from the ring.
pub open spec fn all_taken(family: SwapFamily, d: DrainView, taken: Seq<SwapPayload>) -> (
    DrainView,
    Option<SwapPayload>,
)
    decreases taken.len(),
{
    if taken.len() == 0 {
        (d, None)
    } else {
        let (before, candidate) = all_taken(family, d, taken.drop_last());
        one_taken(family, before, candidate, taken.last())
    }
}

/// The state after the candidate was resolved: installed, or put off when the
/// budget is spent, in which case it supersedes an older put-off envelope.
pub open spec fn candidate_resolved(d: DrainView, candidate: Option<SwapPayload>) -> DrainView {
    match candidate {
        None => d,
        Some(p) => if d.budget_left() {
            d.install(p)
        } else if d.deferred is Some {
            d.supersede(d.deferred->0).park(p)
        } else {
            d.park(p)
        },
    }
}

/// The state after the ring was found still holding envelopes at the ceiling.
pub open spec fn truncation_flagged(d: DrainView, truncated: bool) -> DrainView {
    if truncated {
        DrainView { status: d.status.with_flag(RT_STATUS_SPSC_DRAIN_TRUNCATED), ..d }
    } else {
        d
    }
}

/// The state after one drain that saw `head` first and then took `taken`.
pub open spec fn drained(
    family: SwapFamily,
    d: DrainView,
    head: Option<SwapPayload>,
    taken: Seq<SwapPayload>,
    truncated: bool,
) -> DrainView {
    let (read, candidate) = all_taken(family, deferred_resolved(family, d, head), taken);
    candidate_resolved(truncation_flagged(read, truncated), candidate)
}

/// Whether `head` and `taken` are what a drain can have read from a ring of
/// which `before` was known at its start and `after` at its end: in order,
/// nothing skipped, at most `limit` items, and fewer only when the ring ran
/// empty.
pub open spec fn read_in_order<T>(
    before: Seq<T>,
    head: Option<T>,
    taken: Seq<T>,
    after: Seq<T>,
    limit: int,
) -> bool {
    &&& taken.len() <= limit
    &&& begins_with(taken + after, before)
    &&& head is Some ==> taken.len() > 0 && taken[0] == head->0
    &&& head is None ==> before.len() == 0
    &&& taken.len() < limit ==> before.len() <= taken.len()
}

/// Whether a drain may lead from `d` and `before` to `e` and `after`, having
/// read `head` and `taken`.
pub open spec fn drain_outcome(
    family: SwapFamily,
    before: Seq<SwapPayload>,
    d: DrainView,
    after: Seq<SwapPayload>,
    e: DrainView,
    head: Option<SwapPayload>,
    taken: Seq<SwapPayload>,
) -> bool {
    &&& read_in_order(before, head, taken, after, STRUCTURAL_POPS_PER_CALLBACK as int)
    &&& e == drained(
        family,
        d,
        head,
        taken,
        taken.len() == STRUCTURAL_POPS_PER_CALLBACK && after.len() > 0,
    )
}

/// Exchanges the envelope's objects for the running ones, records the applied
/// generation and retires the envelope.
pub fn install_swap(
    payload: SwapPayload,
    graph: &mut ActiveGraph,
    status: &mut RtStatusFlags,
    retired: &mut Vec<GcItem>,
)
    ensures
        *final(graph) == graph_with(payload, *old(graph)),
        *final(status) == status_with(payload, *old(status)),
        final(retired)@ == old(retired)@.push(replaced_by(payload, *old(graph)).retired_spec()),
{
    match payload {
        SwapPayload::Resampler(mut p) => {
            std::mem::swap(&mut p.resampler, &mut graph.resampler);
            std::mem::swap(&mut p.stream, &mut graph.stream);
            status.applied_rate_generation = p.generation;
            status.active_rate = graph.resampler.host_rate;
            status.active_rate_changed = graph.resampler.host_rate;
            status.clear_flag(RT_STATUS_RESAMP_SWAP_PENDING);
            retired.push(GcItem::ResamplerSwap(p));
        },
        SwapPayload::CabSim(mut p) => {
            std::mem::swap(&mut p.pair, &mut graph.cabsim);
            status.applied_cabsim_generation = p.generation;
            retired.push(GcItem::CabSimSwap(p));
        },
        SwapPayload::Slimmable(mut p) => {
            std::mem::swap(&mut p.l, &mut graph.model_l);
            if p.r.is_some() {
                std::mem::swap(&mut p.r, &mut graph.model_r);
            }
            retired.push(GcItem::SlimModelPair(p));
        },
        SwapPayload::Oversample(mut p) => {
            status.applied_os_generation = p.generation;
            std::mem::swap(&mut p.l, &mut graph.os_l);
            std::mem::swap(&mut p.r, &mut graph.os_r);
            retired.push(GcItem::OsEnginePair(p));
        },
    }
}

/// The arguments of a drain as one mathematical value.
pub open spec fn drain_view(
    deferred: Option<SwapPayload>,
    applied: usize,
    graph: ActiveGraph,
    status: RtStatusFlags,
    retired: Seq<GcItem>,
) -> DrainView {
    DrainView { deferred, applied, graph, status, retired }
}

/// Resolves the envelope that an earlier callback put off, `head` being what
/// stands first in the ring.
pub fn resolve_deferred(
    family: SwapFamily,
    head: Option<SwapPayload>,
    deferred: &mut Option<SwapPayload>,
    structural_applied: &mut usize,
    graph: &mut ActiveGraph,
    status: &mut RtStatusFlags,
    retired: &mut Vec<GcItem>,
)
    ensures
        drain_view(
            *final(deferred),
            *final(structural_applied),
            *final(graph),
            *final(status),
            final(retired)@,
        ) == deferred_resolved(
            family,
            drain_view(
                *old(deferred),
                *old(structural_applied),
                *old(graph),
                *old(status),
                old(retired)@,
            ),
            head,
        ),
{
    let parked = deferred.take();
    if let Some(payload) = parked {
        let newer_queued = match head {
            Some(h) => h.family() == payload.family() && h.generation() == payload.generation(),
            None => false,
        };
        if payload.family() != family || payload.generation() != status.requested_generation(
            family,
        ) {
            retired.push(payload.into_retired());
        } else if newer_queued {
            retired.push(payload.into_retired());
            status.flag_structural_superseded();
        } else if *structural_applied < STRUCTURAL_SWAPS_PER_CALLBACK {
            install_swap(payload, graph, status, retired);
            *structural_applied = *structural_applied + 1;
        } else {
            *deferred = Some(payload);
            status.flag_structural_deferred();
        }
    }
}

/// Handles one envelope taken from the ring.
pub fn take_one(
    family: SwapFamily,
    payload: SwapPayload,
    candidate: &mut Option<SwapPayload>,
    status: &mut RtStatusFlags,
    retired: &mut Vec<GcItem>,
)
    ensures
        forall|deferred: Option<SwapPayload>, applied: usize, graph: ActiveGraph|
            #![trigger drain_view(deferred, applied, graph, *final(status), final(retired)@)]
            (
                drain_view(deferred, applied, graph, *final(status), final(retired)@),
                *final(candidate),
            ) == one_taken(
                family,
                drain_view(deferred, applied, graph, *old(status), old(retired)@),
                *old(candidate),
                payload,
            ),
{
    if payload.family() != family || payload.generation() != status.requested_generation(family) {
        retired.push(payload.into_retired());
    } else {
        let older = candidate.take();
        if let Some(older) = older {
            retired.push(older.into_retired());
            status.flag_structural_superseded();
        }
        *candidate = Some(payload);
    }
}

/// Installs the newest current envelope of the window, or puts it off when the
/// callback's budget is spent.
pub fn resolve_candidate(
    candidate: Option<SwapPayload>,
    deferred: &mut Option<SwapPayload>,
    structural_applied: &mut usize,
    graph: &mut ActiveGraph,
    status: &mut RtStatusFlags,
    retired: &mut Vec<GcItem>,
)
    ensures
        drain_view(
            *final(deferred),
            *final(structural_applied),
            *final(graph),
            *final(status),
            final(retired)@,
        ) == candidate_resolved(
            drain_view(
                *old(deferred),
                *old(structural_applied),
                *old(graph),
                *old(status),
                old(retired)@,
            ),
            candidate,
        ),
{
    if let Some(payload) = candidate {
        if *structural_applied < STRUCTURAL_SWAPS_PER_CALLBACK {
            install_swap(payload, graph, status, retired);
            *structural_applied = *structural_applied + 1;
        } else {
            let older = deferred.take();
            if let Some(older) = older {
                retired.push(older.into_retired());
                status.flag_structural_superseded();
            }
            *deferred = Some(payload);
            status.flag_structural_deferred();
        }
    }
}

/// Runs one callback's drain of a swap ring.
pub fn drain_swaps(
    family: SwapFamily,
    consumer: &mut rtrb::Consumer<SwapPayload>,
    deferred: &mut Option<SwapPayload>,
    structural_applied: &mut usize,
    graph: &mut ActiveGraph,
    status: &mut RtStatusFlags,
    retired: &mut Vec<GcItem>,
)
    ensures
        exists|head: Option<SwapPayload>, taken: Seq<SwapPayload>|
            drain_outcome(
                family,
                swaps_queued(*old(consumer)),
                drain_view(
                    *old(deferred),
                    *old(structural_applied),
                    *old(graph),
                    *old(status),
                    old(retired)@,
                ),
                swaps_queued(*final(consumer)),
                drain_view(
                    *final(deferred),
                    *final(structural_applied),
                    *final(graph),
                    *final(status),
                    final(retired)@,
                ),
                head,
                taken,
            ),
{
    let ghost q0 = swaps_queued(*consumer);
    let ghost d0 = drain_view(*deferred, *structural_applied, *graph, *status, retired@);
    let head = peek_swap(consumer);
    resolve_deferred(family, head, deferred, structural_applied, graph, status, retired);
    let ghost d1 = drain_view(*deferred, *structural_applied, *graph, *status, retired@);

    let mut candidate: Option<SwapPayload> = None;
    let mut pops: usize = 0;
    let mut more = true;
    let ghost mut taken: Seq<SwapPayload> = Seq::empty();
    proof {
        assert(taken + q0 =~= q0);
        assert(q0.subrange(0, q0.len() as int) =~= q0);
        peek_keeps_order(q0, taken, q0, head, swaps_queued(*consumer));
    }
    while more && pops < STRUCTURAL_POPS_PER_CALLBACK
        invariant
            d1 == deferred_resolved(family, d0, head),
            pops <= STRUCTURAL_POPS_PER_CALLBACK,
            taken.len() == pops,
            begins_with(taken + swaps_queued(*consumer), q0),
            taken.len() > 0 && head is Some ==> taken[0] == head->0,
            taken.len() == 0 && head is Some ==> swaps_queued(*consumer).len() > 0
                && swaps_queued(*consumer)[0] == head->0,
            head is None ==> q0.len() == 0,
            !more ==> q0.len() <= taken.len() && (head is Some ==> taken.len() > 0),
            (
                drain_view(*deferred, *structural_applied, *graph, *status, retired@),
                candidate,
            ) == all_taken(family, d1, taken),
        decreases (if more { 1int } else { 0int }), STRUCTURAL_POPS_PER_CALLBACK - pops,
    {
        let ghost before = swaps_queued(*consumer);
        let popped = pop_swap(consumer);
        match popped {
            Some(payload) => {
                let ghost next = taken.push(payload);
                proof {
                    pop_keeps_order(q0, taken, before, payload, swaps_queued(*consumer));
                    assert(next.drop_last() =~= taken);
                }
                take_one(family, payload, &mut candidate, status, retired);
                pops = pops + 1;
                proof {
                    taken = next;
                }
            },
            None => {
                more = false;
            },
        }
    }
    let ghost rest = swaps_queued(*consumer);
    if pops == STRUCTURAL_POPS_PER_CALLBACK {
        let left = peek_swap(consumer);
        if left.is_some() {
            status.set_flag(RT_STATUS_SPSC_DRAIN_TRUNCATED);
        }
        proof {
            peek_keeps_order(q0, taken, rest, left, swaps_queued(*consumer));
        }
    }
    resolve_candidate(candidate, deferred, structural_applied, graph, status, retired);
    assert(drain_outcome(
        family,
        q0,
        d0,
        swaps_queued(*consumer),
        drain_view(*deferred, *structural_applied, *graph, *status, retired@),
        head,
        taken,
    ));
}

/// What an optional ring is known to hold.
pub open spec fn optional_queue(rx: Option<rtrb::Consumer<SwapPayload>>) -> Seq<SwapPayload> {
    match rx {
        Some(c) => swaps_queued(c),
        None => Seq::empty(),
    }
}

/// Like `drain_outcome`, for a family whose ring may not be attached.
pub open spec fn optional_drain_outcome(
    family: SwapFamily,
    rx: Option<rtrb::Consumer<SwapPayload>>,
    d: DrainView,
    rx_after: Option<rtrb::Consumer<SwapPayload>>,
    e: DrainView,
    head: Option<SwapPayload>,
    taken: Seq<SwapPayload>,
) -> bool {
    if rx is Some {
        drain_outcome(family, optional_queue(rx), d, optional_queue(rx_after), e, head, taken)
    } else {
        e == d
    }
}

/// Runs one callback's drain of the resampler ring.
pub fn drain_resamplers(
    consumer: &mut rtrb::Consumer<SwapPayload>,
    deferred: &mut Option<SwapPayload>,
    structural_applied: &mut usize,
    graph: &mut ActiveGraph,
    status: &mut RtStatusFlags,
    retired: &mut Vec<GcItem>,
)
    ensures
        exists|head: Option<SwapPayload>, taken: Seq<SwapPayload>|
            drain_outcome(
                SwapFamily::Resampler,
                swaps_queued(*old(consumer)),
                drain_view(
                    *old(deferred),
                    *old(structural_applied),
                    *old(graph),
                    *old(status),
                    old(retired)@,
                ),
                swaps_queued(*final(consumer)),
                drain_view(
                    *final(deferred),
                    *final(structural_applied),
                    *final(graph),
                    *final(status),
                    final(retired)@,
                ),
                head,
                taken,
            ),
{
    drain_swaps(
        SwapFamily::Resampler,
        consumer,
        deferred,
        structural_applied,
        graph,
        status,
        retired,
    );
}

/// Runs one callback's drain of the cab-sim ring.
pub fn drain_cabsims(
    consumer: &mut rtrb::Consumer<SwapPayload>,
    deferred: &mut Option<SwapPayload>,
    structural_applied: &mut usize,
    graph: &mut ActiveGraph,
    status: &mut RtStatusFlags,
    retired: &mut Vec<GcItem>,
)
    ensures
        exists|head: Option<SwapPayload>, taken: Seq<SwapPayload>|
            drain_outcome(
                SwapFamily::CabSim,
                swaps_queued(*old(consumer)),
                drain_view(
                    *old(deferred),
                    *old(structural_applied),
                    *old(graph),
                    *old(status),
                    old(retired)@,
                ),
                swaps_queued(*final(consumer)),
                drain_view(
                    *final(deferred),
                    *final(structural_applied),
                    *final(graph),
                    *final(status),
                    final(retired)@,
                ),
                head,
                taken,
            ),
{
    drain_swaps(
        SwapFamily::CabSim,
        consumer,
        deferred,
        structural_applied,
        graph,
        status,
        retired,
    );
}

/// Runs one callback's drain of the model-pair ring. Without a ring nothing
/// happens.
pub fn drain_slimmable_models(
    rx: &mut Option<rtrb::Consumer<SwapPayload>>,
    deferred: &mut Option<SwapPayload>,
    structural_applied: &mut usize,
    graph: &mut ActiveGraph,
    status: &mut RtStatusFlags,
    retired: &mut Vec<GcItem>,
)
    ensures
        (*final(rx) is Some) == (*old(rx) is Some),
        exists|head: Option<SwapPayload>, taken: Seq<SwapPayload>|
            optional_drain_outcome(
                SwapFamily::Slimmable,
                *old(rx),
                drain_view(
                    *old(deferred),
                    *old(structural_applied),
                    *old(graph),
                    *old(status),
                    old(retired)@,
                ),
                *final(rx),
                drain_view(
                    *final(deferred),
                    *final(structural_applied),
                    *final(graph),
                    *final(status),
                    final(retired)@,
                ),
                head,
                taken,
            ),
{
    let ghost rx0 = *rx;
    let ghost d0 = drain_view(*deferred, *structural_applied, *graph, *status, retired@);
    if let Some(consumer) = rx {
        drain_swaps(
            SwapFamily::Slimmable,
            consumer,
            deferred,
            structural_applied,
            graph,
            status,
            retired,
        );
    }
    assert(exists|head: Option<SwapPayload>, taken: Seq<SwapPayload>|
        optional_drain_outcome(
            SwapFamily::Slimmable,
            rx0,
            d0,
            *rx,
            drain_view(*deferred, *structural_applied, *graph, *status, retired@),
            head,
            taken,
        )) by {
        let d1 = drain_view(*deferred, *structural_applied, *graph, *status, retired@);
        if rx0 is Some {
            let (head, taken) = choose|head: Option<SwapPayload>, taken: Seq<SwapPayload>|
                drain_outcome(
                    SwapFamily::Slimmable,
                    swaps_queued(rx0->0),
                    d0,
                    swaps_queued(rx->0),
                    d1,
                    head,
                    taken,
                );
            assert(optional_drain_outcome(SwapFamily::Slimmable, rx0, d0, *rx, d1, head, taken));
        } else {
            assert(optional_drain_outcome(
                SwapFamily::Slimmable,
                rx0,
                d0,
                *rx,
                d1,
                None,
                Seq::empty(),
            ));
        }
    }
}

/// Runs one callback's drain of the oversampling ring. Without a ring nothing
/// happens.
pub fn drain_os_engines(
    rx: &mut Option<rtrb::Consumer<SwapPayload>>,
    deferred: &mut Option<SwapPayload>,
    structural_applied: &mut usize,
    graph: &mut ActiveGraph,
    status: &mut RtStatusFlags,
    retired: &mut Vec<GcItem>,
)
    ensures
        (*final(rx) is Some) == (*old(rx) is Some),
        exists|head: Option<SwapPayload>, taken: Seq<SwapPayload>|
            optional_drain_outcome(
                SwapFamily::Oversample,
                *old(rx),
                drain_view(
                    *old(deferred),
                    *old(structural_applied),
                    *old(graph),
                    *old(status),
                    old(retired)@,
                ),
                *final(rx),
                drain_view(
                    *final(deferred),
                    *final(structural_applied),
                    *final(graph),
                    *final(status),
                    final(retired)@,
                ),
                head,
                taken,
            ),
{
    let ghost rx0 = *rx;
    let ghost d0 = drain_view(*deferred, *structural_applied, *graph, *status, retired@);
    if let Some(consumer) = rx {
        drain_swaps(
            SwapFamily::Oversample,
            consumer,
            deferred,
            structural_applied,
            graph,
            status,
            retired,
        );
    }
    assert(exists|head: Option<SwapPayload>, taken: Seq<SwapPayload>|
        optional_drain_outcome(
            SwapFamily::Oversample,
            rx0,
            d0,
            *rx,
            drain_view(*deferred, *structural_applied, *graph, *status, retired@),
            head,
            taken,
        )) by {
        let d1 = drain_view(*deferred, *structural_applied, *graph, *status, retired@);
        if rx0 is Some {
            let (head, taken) = choose|head: Option<SwapPayload>, taken: Seq<SwapPayload>|
                drain_outcome(
                    SwapFamily::Oversample,
                    swaps_queued(rx0->0),
                    d0,
                    swaps_queued(rx->0),
                    d1,
                    head,
                    taken,
                );
            assert(optional_drain_outcome(SwapFamily::Oversample, rx0, d0, *rx, d1, head, taken));
        } else {
            assert(optional_drain_outcome(
                SwapFamily::Oversample,
                rx0,
                d0,
                *rx,
                d1,
                None,
                Seq::empty(),
            ));
        }
    }
}

/// An envelope answers the newest request exactly where it holds objects of the
/// asked family, stamped with the generation of that request.
pub proof fn current_means_newest_request(p: SwapPayload, s: RtStatusFlags)
    ensures
        is_current(p, SwapFamily::Resampler, s) == (p matches SwapPayload::Resampler(x)
            && x.generation == s.requested_rate_generation),
        is_current(p, SwapFamily::CabSim, s) == (p matches SwapPayload::CabSim(x) && x.generation
            == s.requested_cabsim_generation),
        is_current(p, SwapFamily::Slimmable, s) == (p matches SwapPayload::Slimmable(x)
            && x.generation == s.requested_slimmable_generation),
        is_current(p, SwapFamily::Oversample, s) == (p matches SwapPayload::Oversample(x)
            && x.generation == s.requested_os_generation),
{
}

/// Two envelopes stand for the same request exactly where they hold objects of
/// one family under one generation.
pub proof fn same_key_means_same_request(a: SwapPayload, b: SwapPayload)
    ensures
        same_key(a, b) == match (a, b) {
            (SwapPayload::Resampler(x), SwapPayload::Resampler(y)) => x.generation == y.generation,
            (SwapPayload::CabSim(x), SwapPayload::CabSim(y)) => x.generation == y.generation,
            (SwapPayload::Slimmable(x), SwapPayload::Slimmable(y)) => x.generation
                == y.generation,
            (SwapPayload::Oversample(x), SwapPayload::Oversample(y)) => x.generation
                == y.generation,
            _ => false,
        },
{
}

/// What an installed envelope holds runs, what ran before is retired in its
/// place, the answered request is recorded, and nothing else changes. A
/// resampler also publishes its host rate and lets audio through again.
pub proof fn installed_objects_run(d: DrainView, p: SwapPayload)
    requires
        d.applied < usize::MAX,
    ensures
        ({
            let e = d.install(p);
            &&& e.applied == d.applied + 1
            &&& e.deferred == d.deferred
            &&& e.retired.len() == d.retired.len() + 1
            &&& e.retired.drop_last() =~= d.retired
            &&& match p {
                SwapPayload::Resampler(x) => {
                    &&& e.graph == ActiveGraph {
                        resampler: x.resampler,
                        stream: x.stream,
                        ..d.graph
                    }
                    &&& e.status.applied_rate_generation == x.generation
                    &&& e.status.active_rate == x.resampler.host_rate
                    &&& e.status.active_rate_changed == x.resampler.host_rate
                    &&& !e.status.has(RT_STATUS_RESAMP_SWAP_PENDING)
                    &&& e.status == RtStatusFlags {
                        status_bits: e.status.status_bits,
                        applied_rate_generation: x.generation,
                        active_rate: x.resampler.host_rate,
                        active_rate_changed: x.resampler.host_rate,
                        ..d.status
                    }
                    &&& e.retired.last() matches GcItem::ResamplerSwap(o) && o.resampler
                        == d.graph.resampler && o.stream == d.graph.stream
                },
                SwapPayload::CabSim(x) => {
                    &&& e.graph == ActiveGraph { cabsim: x.pair, ..d.graph }
                    &&& e.status == RtStatusFlags {
                        applied_cabsim_generation: x.generation,
                        ..d.status
                    }
                    &&& e.retired.last() matches GcItem::CabSimSwap(o) && o.pair == d.graph.cabsim
                },
                SwapPayload::Slimmable(x) => {
                    &&& e.graph.model_l == x.l
                    &&& x.r is Some ==> e.graph.model_r == x.r
                    &&& x.r is None ==> e.graph.model_r == d.graph.model_r
                    &&& e.graph == ActiveGraph {
                        model_l: e.graph.model_l,
                        model_r: e.graph.model_r,
                        ..d.graph
                    }
                    &&& e.status == d.status
                    &&& e.retired.last() matches GcItem::SlimModelPair(o) && o.l
                        == d.graph.model_l && (x.r is Some ==> o.r == d.graph.model_r) && (x.r
                        is None ==> o.r is None)
                },
                SwapPayload::Oversample(x) => {
                    &&& e.graph == ActiveGraph { os_l: x.l, os_r: x.r, ..d.graph }
                    &&& e.status == RtStatusFlags {
                        applied_os_generation: x.generation,
                        ..d.status
                    }
                    &&& e.retired.last() matches GcItem::OsEnginePair(o) && o.l == d.graph.os_l
                        && o.r == d.graph.os_r
                },
            }
        }),
{
    crate::rt_status::clear_flag_is_local(
        d.status.status_bits,
        RT_STATUS_RESAMP_SWAP_PENDING,
        RT_STATUS_RESAMP_SWAP_PENDING,
    );
}

/// An envelope that is not installed is retired as it came, and one that is put
/// off waits as it came; neither changes what runs.
pub proof fn unapplied_envelopes_change_nothing(d: DrainView, p: SwapPayload)
    ensures
        d.discard(p).graph == d.graph,
        d.discard(p).status == d.status,
        d.discard(p).applied == d.applied,
        d.discard(p).retired == d.retired.push(p.retired_spec()),
        d.supersede(p).graph == d.graph,
        d.supersede(p).applied == d.applied,
        d.supersede(p).retired == d.retired.push(p.retired_spec()),
        d.supersede(p).status.structural_superseded_total as int == (
        d.status.structural_superseded_total + 1) % 0x1_0000_0000,
        d.park(p).graph == d.graph,
        d.park(p).applied == d.applied,
        d.park(p).deferred == Some(p),
        d.park(p).retired == d.retired,
        d.park(p).status.structural_deferred_total as int == (d.status.structural_deferred_total
            + 1) % 0x1_0000_0000,
{
}

/// A drain that stopped at its ceiling with envelopes left is reported.
pub proof fn truncation_is_reported(
    family: SwapFamily,
    d: DrainView,
    head: Option<SwapPayload>,
    taken: Seq<SwapPayload>,
)
    ensures
        drained(family, d, head, taken, true).status.has(RT_STATUS_SPSC_DRAIN_TRUNCATED),
{
    let flag = RT_STATUS_SPSC_DRAIN_TRUNCATED;
    let (read, candidate) = all_taken(family, deferred_resolved(family, d, head), taken);
    crate::rt_status::set_flag_is_local(read.status.status_bits, flag, flag);
    assert forall|t: RtStatusFlags| t.has(flag) implies (#[trigger] t.with_deferral()).has(flag) by {
        crate::rt_status::set_flag_is_local(
            t.status_bits,
            crate::rt_status::RT_STATUS_STRUCTURAL_DEFERRED,
            flag,
        );
    }
    assert forall|t: RtStatusFlags| t.has(flag) implies (#[trigger] t.with_supersession()).has(
        flag,
    ) by {
        crate::rt_status::set_flag_is_local(
            t.status_bits,
            crate::rt_status::RT_STATUS_STRUCTURAL_SUPERSEDED,
            flag,
        );
    }
    assert forall|t: RtStatusFlags| t.has(flag) implies (#[trigger] t.without_flag(
        RT_STATUS_RESAMP_SWAP_PENDING,
    )).has(flag) by {
        assert(RT_STATUS_RESAMP_SWAP_PENDING & RT_STATUS_SPSC_DRAIN_TRUNCATED == 0)
            by (bit_vector);
        crate::rt_status::clear_flag_is_local(
            t.status_bits,
            RT_STATUS_RESAMP_SWAP_PENDING,
            flag,
        );
    }
}

/// Nothing is skipped and nothing reordered: each item that was queued is either
/// taken at its place or still queued behind those taken, and fewer than the
/// limit are taken only where that was all.
pub proof fn items_are_read_in_order<T>(
    before: Seq<T>,
    head: Option<T>,
    taken: Seq<T>,
    after: Seq<T>,
    limit: int,
)
    requires
        read_in_order(before, head, taken, after, limit),
    ensures
        forall|i: int|
            0 <= i < before.len() && i < taken.len() ==> #[trigger] taken[i] == before[i],
        forall|i: int|
            taken.len() <= i < before.len() ==> after[i - taken.len()] == #[trigger] before[i],
        taken.len() <= limit,
        taken.len() < limit ==> taken.len() >= before.len(),
        before.len() > 0 ==> head == Some(before[0]),
{
    let all = taken + after;
    assert(all.subrange(0, before.len() as int) == before);
    assert forall|i: int| 0 <= i < before.len() implies all[i] == #[trigger] before[i] by {
        assert(all.subrange(0, before.len() as int)[i] == before[i]);
    }
    assert forall|i: int| 0 <= i < before.len() && i < taken.len() implies #[trigger] taken[i]
        == before[i] by {
        assert(all[i] == before[i]);
    }
    assert forall|i: int| taken.len() <= i < before.len() implies after[i - taken.len()]
        == #[trigger] before[i] by {
        assert(all[i] == before[i]);
    }
}

} // verus!
