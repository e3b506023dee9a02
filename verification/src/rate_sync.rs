//! Rate synchronisation between the host clock, the models and the resampler.

use vstd::prelude::*;

use crate::payload::NamResampler;
use crate::rt_status::{
    next_generation, RtStatusFlags, RT_STATUS_NEEDS_RESAMPLER_REBUILD,
    RT_STATUS_RESAMP_SWAP_PENDING,
};

verus! {

/// The host rate that the next resampler must serve: the one just detected, or
/// the present one when none was.
pub open spec fn wanted_host_rate(detected: u32, resampler: NamResampler) -> u32 {
    if detected != 0 {
        detected
    } else {
        resampler.host_rate
    }
}

/// Whether the resampler no longer fits the host or the models.
pub open spec fn rebuild_due(detected: u32, resampler: NamResampler, nam_rate: u32) -> bool {
    &&& wanted_host_rate(detected, resampler) != resampler.host_rate || nam_rate
        != resampler.nam_rate
    &&& wanted_host_rate(detected, resampler) != 0
}

/// The status after a resampler for the two rates was asked for.
pub open spec fn resampler_requested(
    s: RtStatusFlags,
    host_rate: u32,
    nam_rate: u32,
) -> RtStatusFlags {
    RtStatusFlags {
        requested_host_rate: host_rate,
        requested_nam_rate: nam_rate,
        requested_rate_generation: next_generation(s.requested_rate_generation),
        ..s
    }.with_flag(RT_STATUS_NEEDS_RESAMPLER_REBUILD).with_flag(RT_STATUS_RESAMP_SWAP_PENDING)
}

/// The status after one synchronisation.
pub open spec fn rate_synced(
    s: RtStatusFlags,
    detected: u32,
    resampler: NamResampler,
    nam_rate: u32,
) -> RtStatusFlags {
    if rebuild_due(detected, resampler, nam_rate) {
        resampler_requested(s, wanted_host_rate(detected, resampler), nam_rate)
    } else {
        s
    }
}

/// Compares the rates and asks for a new resampler where they differ.
///
/// `rate_for_process` is a one-shot cell: the listener stores a freshly
/// negotiated rate there, and reading it empties it. Returns the host rate that
/// the present resampler serves.
pub fn sync_rate(
    rate_for_process: &mut u32,
    resampler: &NamResampler,
    current_nam_rate: u32,
    status: &mut RtStatusFlags,
) -> (r: u32)
    ensures
        r == resampler.host_rate,
        *final(rate_for_process) == 0,
        *final(status) == rate_synced(
            *old(status),
            *old(rate_for_process),
            *resampler,
            current_nam_rate,
        ),
{
    let detected_host_rate: u32 = *rate_for_process;
    *rate_for_process = 0;
    let current_host_rate: u32 = resampler.host_rate;
    let mut host_rate_to_request: u32 = current_host_rate;
    let mut requires_rebuild = false;
    if detected_host_rate != 0 && detected_host_rate != current_host_rate {
        host_rate_to_request = detected_host_rate;
        requires_rebuild = true;
    }
    if current_nam_rate != resampler.nam_rate {
        requires_rebuild = true;
    }
    if requires_rebuild && host_rate_to_request != 0 {
        status.requested_host_rate = host_rate_to_request;
        status.requested_nam_rate = current_nam_rate;
        status.requested_rate_generation = status.requested_rate_generation.wrapping_add(1);
        status.set_flag(RT_STATUS_NEEDS_RESAMPLER_REBUILD);
        status.set_flag(RT_STATUS_RESAMP_SWAP_PENDING);
    }
    current_host_rate
}

/// Whether the newest resampler request is known to have failed.
pub open spec fn request_failed(s: RtStatusFlags) -> bool {
    s.resampler_failed_generation != 0 && s.resampler_failed_generation
        == s.requested_rate_generation
}

/// The status after the pending swap was looked at: a failed request is given
/// up, so that audio goes on with the present resampler.
pub open spec fn pending_resolved(s: RtStatusFlags) -> RtStatusFlags {
    if s.has(RT_STATUS_RESAMP_SWAP_PENDING) && request_failed(s) {
        RtStatusFlags {
            applied_rate_generation: s.requested_rate_generation,
            resampler_failed_generation: 0,
            ..s.without_flag(RT_STATUS_RESAMP_SWAP_PENDING)
        }
    } else {
        s
    }
}

/// Decides whether this block is processed. While a resampler swap is pending
/// it is not, unless the request is known to have failed.
pub fn resolve_pending_swap(status: &mut RtStatusFlags) -> (process: bool)
    ensures
        *final(status) == pending_resolved(*old(status)),
        process == (!old(status).has(RT_STATUS_RESAMP_SWAP_PENDING) || request_failed(
            *old(status),
        )),
{
    if !status.check_flag(RT_STATUS_RESAMP_SWAP_PENDING) {
        return true;
    }
    let failed: u64 = status.resampler_failed_generation;
    let requested: u64 = status.requested_rate_generation;
    if failed != 0 && failed == requested {
        status.applied_rate_generation = requested;
        status.clear_flag(RT_STATUS_RESAMP_SWAP_PENDING);
        status.resampler_failed_generation = 0;
        true
    } else {
        false
    }
}

/// A block is processed only without a pending swap: after the decision, the
/// pending flag is down whenever the block goes through.
pub proof fn processed_block_has_no_pending_swap(s: RtStatusFlags)
    requires
        !s.has(RT_STATUS_RESAMP_SWAP_PENDING) || request_failed(s),
    ensures
        !pending_resolved(s).has(RT_STATUS_RESAMP_SWAP_PENDING),
        s.has(RT_STATUS_RESAMP_SWAP_PENDING) ==> pending_resolved(s).applied_rate_generation
            == pending_resolved(s).requested_rate_generation,
{
    crate::rt_status::clear_flag_is_local(
        s.status_bits,
        RT_STATUS_RESAMP_SWAP_PENDING,
        RT_STATUS_RESAMP_SWAP_PENDING,
    );
}

/// A renegotiation is never erased: a second request gets another generation,
/// so that a build for the first can be told apart, and both flags stay up.
pub proof fn renegotiation_is_kept(
    s: RtStatusFlags,
    first: (u32, u32),
    second: (u32, u32),
)
    ensures
        ({
            let a = resampler_requested(s, first.0, first.1);
            let b = resampler_requested(a, second.0, second.1);
            &&& b.requested_rate_generation != a.requested_rate_generation
            &&& b.requested_host_rate == second.0
            &&& b.requested_nam_rate == second.1
            &&& b.has(RT_STATUS_NEEDS_RESAMPLER_REBUILD)
            &&& b.has(RT_STATUS_RESAMP_SWAP_PENDING)
        }),
{
    let a = resampler_requested(s, first.0, first.1);
    let bits = a.status_bits | RT_STATUS_NEEDS_RESAMPLER_REBUILD;
    crate::rt_status::set_flag_is_local(
        a.status_bits,
        RT_STATUS_NEEDS_RESAMPLER_REBUILD,
        RT_STATUS_NEEDS_RESAMPLER_REBUILD,
    );
    crate::rt_status::set_flag_is_local(
        bits,
        RT_STATUS_RESAMP_SWAP_PENDING,
        RT_STATUS_NEEDS_RESAMPLER_REBUILD,
    );
}

/// Whenever a resampler is asked for, it is one between the host rate just
/// negotiated, or without one the rate that the running resampler serves, and
/// the rate of the models. One is asked for exactly where the running one does
/// not convert between these two, and the host rate is known.
pub proof fn requested_resampler_is_the_needed_one(
    s: RtStatusFlags,
    detected: u32,
    resampler: NamResampler,
    nam_rate: u32,
)
    ensures
        ({
            let t = rate_synced(s, detected, resampler, nam_rate);
            let asked = t.requested_rate_generation != s.requested_rate_generation;
            &&& asked ==> t.requested_nam_rate == nam_rate
            &&& asked && detected != 0 ==> t.requested_host_rate == detected
            &&& asked && detected == 0 ==> t.requested_host_rate == resampler.host_rate
            &&& asked ==> t.requested_host_rate != 0
            &&& asked ==> t.has(RT_STATUS_NEEDS_RESAMPLER_REBUILD) && t.has(
                RT_STATUS_RESAMP_SWAP_PENDING,
            )
            &&& !asked ==> t == s
            &&& nam_rate != resampler.nam_rate && (detected != 0 || resampler.host_rate != 0)
                ==> asked
            &&& detected != 0 && detected != resampler.host_rate ==> asked
            &&& nam_rate == resampler.nam_rate && (detected == 0 || detected
                == resampler.host_rate) ==> !asked
            &&& detected == 0 && resampler.host_rate == 0 ==> !asked
            &&& t == RtStatusFlags {
                status_bits: t.status_bits,
                requested_host_rate: t.requested_host_rate,
                requested_nam_rate: t.requested_nam_rate,
                requested_rate_generation: t.requested_rate_generation,
                ..s
            }
        }),
{
    crate::rt_status::generation_step_differs(s.requested_rate_generation);
    let bits = s.status_bits | RT_STATUS_NEEDS_RESAMPLER_REBUILD;
    crate::rt_status::set_flag_is_local(
        s.status_bits,
        RT_STATUS_NEEDS_RESAMPLER_REBUILD,
        RT_STATUS_NEEDS_RESAMPLER_REBUILD,
    );
    crate::rt_status::set_flag_is_local(
        bits,
        RT_STATUS_RESAMP_SWAP_PENDING,
        RT_STATUS_NEEDS_RESAMPLER_REBUILD,
    );
    crate::rt_status::set_flag_is_local(
        bits,
        RT_STATUS_RESAMP_SWAP_PENDING,
        RT_STATUS_RESAMP_SWAP_PENDING,
    );
}

/// A resampler built as it was asked for settles the matter: with no further
/// negotiation the same models ask for no other.
pub proof fn built_resampler_settles(
    s: RtStatusFlags,
    detected: u32,
    resampler: NamResampler,
    nam_rate: u32,
    built: NamResampler,
    later: RtStatusFlags,
)
    requires
        ({
            let t = rate_synced(s, detected, resampler, nam_rate);
            &&& t != s
            &&& built.host_rate == t.requested_host_rate
            &&& built.nam_rate == t.requested_nam_rate
        }),
    ensures
        rate_synced(later, 0, built, nam_rate) == later,
        rate_synced(later, detected, built, nam_rate) == later,
{
}

/// A pending swap mutes until its request is answered or known to have failed;
/// a failed one is given up, with the running resampler counted as its answer.
pub proof fn pending_swap_mutes_until_answered(s: RtStatusFlags)
    ensures
        ({
            let t = pending_resolved(s);
            let failed = s.resampler_failed_generation != 0 && s.resampler_failed_generation
                == s.requested_rate_generation;
            &&& !failed ==> t == s
            &&& !s.has(RT_STATUS_RESAMP_SWAP_PENDING) ==> t == s
            &&& failed && s.has(RT_STATUS_RESAMP_SWAP_PENDING) ==> {
                &&& !t.has(RT_STATUS_RESAMP_SWAP_PENDING)
                &&& t.applied_rate_generation == s.requested_rate_generation
                &&& t.resampler_failed_generation == 0
                &&& t.requested_rate_generation == s.requested_rate_generation
                &&& t.active_rate == s.active_rate
            }
            &&& request_failed(s) == failed
        }),
{
    crate::rt_status::clear_flag_is_local(
        s.status_bits,
        RT_STATUS_RESAMP_SWAP_PENDING,
        RT_STATUS_RESAMP_SWAP_PENDING,
    );
}

} // verus!
