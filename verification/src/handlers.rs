//! Rebuilds that the control plane does for the audio callback.
//!
//! A request raises a flag and bumps a generation. The control plane reads the
//! request, builds the object, stamps it with the generation it read and offers
//! it to the callback's ring. The request is only taken back when no newer one
//! was published meanwhile. Building is the host's work; what to build, what to
//! make of the result and when to try again is decided here.

use vstd::prelude::*;

use crate::capture::{MAX_RESAMP_BUF, MIN_CABSIM_PARTITION};
use crate::payload::{
    CabSimPair, CabSimSwapPayload, NamResampler, OsEnginePair, OversampleEngine, OversampleFactor,
    ResamplerSwapPayload, SlimModelPair, StaticModel, StreamingResampleBuffer, SwapFamily,
    SwapPayload,
};
use crate::rings::{push_swap, swaps_capacity, swaps_sent};
use crate::rt_status::{
    clear_flag_is_local, set_flag_is_local, RtStatusFlags, RT_STATUS_NEEDS_CABSIM_REBUILD,
    RT_STATUS_NEEDS_OS_REBUILD, RT_STATUS_NEEDS_QUANTUM_LOG, RT_STATUS_NEEDS_RESAMPLER_REBUILD,
    RT_STATUS_NEEDS_SLIMMABLE_REBUILD, RT_STATUS_SLIMMABLE_SLICE_FAILED,
};

verus! {

/// Fewest channels that a model is sliced to.
pub const MIN_SLIMMABLE_CHANNELS: usize = 4;

/// The newest requests that could not be built, for the two families that the
/// callback does not ask about; zero means none.
#[derive(Clone, Copy, Debug, PartialEq, Eq, Structural)]
pub struct RebuildFailureTracker {
    /// Oversampling.
    pub os_failed_generation: u64,
    /// Model pairs.
    pub slimmable_failed_generation: u64,
}

impl Default for RebuildFailureTracker {
    fn default() -> (r: Self)
        ensures
            r.os_failed_generation == 0,
            r.slimmable_failed_generation == 0,
    {
        RebuildFailureTracker { os_failed_generation: 0, slimmable_failed_generation: 0 }
    }
}

/// The flag that a request of the family raises.
pub open spec fn needs_flag_spec(family: SwapFamily) -> u64 {
    match family {
        SwapFamily::Resampler => RT_STATUS_NEEDS_RESAMPLER_REBUILD,
        SwapFamily::CabSim => RT_STATUS_NEEDS_CABSIM_REBUILD,
        SwapFamily::Slimmable => RT_STATUS_NEEDS_SLIMMABLE_REBUILD,
        SwapFamily::Oversample => RT_STATUS_NEEDS_OS_REBUILD,
    }
}

/// The flag that a request of the family raises.
pub fn needs_flag(family: SwapFamily) -> (r: u64)
    ensures
        r == needs_flag_spec(family),
{
    match family {
        SwapFamily::Resampler => RT_STATUS_NEEDS_RESAMPLER_REBUILD,
        SwapFamily::CabSim => RT_STATUS_NEEDS_CABSIM_REBUILD,
        SwapFamily::Slimmable => RT_STATUS_NEEDS_SLIMMABLE_REBUILD,
        SwapFamily::Oversample => RT_STATUS_NEEDS_OS_REBUILD,
    }
}

/// The status after the request of `generation` was dealt with: its flag is
/// lowered, and raised again when a newer request has been published.
pub open spec fn rearmed(s: RtStatusFlags, family: SwapFamily, generation: u64) -> RtStatusFlags {
    let cleared = s.without_flag(needs_flag_spec(family));
    if s.requested_generation_spec(family) != generation {
        cleared.with_flag(needs_flag_spec(family))
    } else {
        cleared
    }
}

/// Whether a finished request must be raised again: the generation read after
/// the flag was lowered is not the one that was dealt with.
pub fn is_superseded(generation: u64, current: u64) -> (r: bool)
    ensures
        r == (current != generation),
{
    current != generation
}

/// Takes a request back unless a newer one has been published.
pub fn rearm_if_superseded(status: &mut RtStatusFlags, family: SwapFamily, generation: u64)
    ensures
        *final(status) == rearmed(*old(status), family, generation),
{
    let flag = needs_flag(family);
    status.clear_flag(flag);
    if is_superseded(generation, status.requested_generation(family)) {
        status.set_flag(flag);
    }
}

/// How the delivery of a rebuilt object ended.
#[derive(Clone, Copy, Debug, PartialEq, Eq, Structural)]
pub enum Delivery {
    /// The ring took the envelope.
    Delivered,
    /// The ring was full: the request stands, and the envelope comes back.
    ChannelFull(SwapPayload),
    /// Nothing could be built.
    Failed,
}

/// Whether offering `payload` may have ended in `r`, the ring's producer having
/// sent `sent` before and `sent_after` after: a delivered request is taken back
/// unless a newer one exists, a full ring leaves it standing. `capacities` are
/// what the ring holds before and after; one that was sent fewer envelopes than
/// it holds is not full.
pub open spec fn offered(
    s: RtStatusFlags,
    payload: SwapPayload,
    sent: Seq<SwapPayload>,
    r: Delivery,
    s_after: RtStatusFlags,
    sent_after: Seq<SwapPayload>,
    capacities: (nat, nat),
) -> bool {
    &&& capacities.1 == capacities.0
    &&& sent.len() < capacities.0 ==> r is Delivered
    &&& match r {
        Delivery::Delivered => {
            &&& sent_after == sent.push(payload)
            &&& s_after == rearmed(s, payload.family_spec(), payload.generation_spec())
        },
        Delivery::ChannelFull(back) => {
            &&& back == payload
            &&& sent_after == sent
            &&& s_after == s
        },
        Delivery::Failed => false,
    }
}

/// Goes by the ring's answer to an offered envelope: once taken, its request is
/// taken back unless a newer one exists.
pub fn settle_offer(
    payload: SwapPayload,
    answer: Result<(), SwapPayload>,
    status: &mut RtStatusFlags,
) -> (r: Delivery)
    ensures
        match answer {
            Ok(_) => r == Delivery::Delivered && *final(status) == rearmed(
                *old(status),
                payload.family_spec(),
                payload.generation_spec(),
            ),
            Err(back) => r == Delivery::ChannelFull(back) && *final(status) == *old(status),
        },
{
    match answer {
        Ok(_) => {
            rearm_if_superseded(status, payload.family(), payload.generation());
            Delivery::Delivered
        },
        Err(back) => Delivery::ChannelFull(back),
    }
}

/// Offers an envelope to the callback's ring.
fn offer(
    payload: SwapPayload,
    status: &mut RtStatusFlags,
    producer: &mut rtrb::Producer<SwapPayload>,
) -> (r: Delivery)
    ensures
        offered(
            *old(status),
            payload,
            swaps_sent(*old(producer)),
            r,
            *final(status),
            swaps_sent(*final(producer)),
            (swaps_capacity(*old(producer)), swaps_capacity(*final(producer))),
        ),
{
    let answer = push_swap(producer, payload);
    settle_offer(payload, answer, status)
}

/// A resampler to build.
#[derive(Clone, Copy, Debug, PartialEq, Eq, Structural)]
pub struct ResamplerJob {
    /// The request.
    pub generation: u64,
    /// Host rate.
    pub host_rate: u32,
    /// Model rate.
    pub nam_rate: u32,
}

/// The resampler that is wanted: for the rates and under the request published.
pub open spec fn resampler_asked(s: RtStatusFlags) -> ResamplerJob {
    ResamplerJob {
        generation: s.requested_rate_generation,
        host_rate: s.requested_host_rate,
        nam_rate: s.requested_nam_rate,
    }
}

/// The resampler that is wanted, if one is and both rates are known.
pub fn resampler_job(status: &RtStatusFlags) -> (r: Option<ResamplerJob>)
    ensures
        r == (if status.has(RT_STATUS_NEEDS_RESAMPLER_REBUILD) && status.requested_host_rate != 0
            && status.requested_nam_rate != 0 {
            Some(
                ResamplerJob {
                    generation: status.requested_rate_generation,
                    host_rate: status.requested_host_rate,
                    nam_rate: status.requested_nam_rate,
                },
            )
        } else {
            None
        }),
        r matches Some(job) ==> job == resampler_asked(*status),
{
    if !status.check_flag(RT_STATUS_NEEDS_RESAMPLER_REBUILD) {
        return None;
    }
    if status.requested_host_rate != 0 && status.requested_nam_rate != 0 {
        Some(
            ResamplerJob {
                generation: status.requested_rate_generation,
                host_rate: status.requested_host_rate,
                nam_rate: status.requested_nam_rate,
            },
        )
    } else {
        None
    }
}

/// Finishes a resampler rebuild. A failed build is recorded for the callback,
/// which then goes on with what it has.
pub fn finish_resampler_rebuild(
    job: ResamplerJob,
    built: Option<(NamResampler, StreamingResampleBuffer)>,
    status: &mut RtStatusFlags,
    producer: &mut rtrb::Producer<SwapPayload>,
) -> (r: Delivery)
    ensures
        match built {
            Some(b) => offered(
                RtStatusFlags { resampler_failed_generation: 0, ..*old(status) },
                SwapPayload::Resampler(
                    ResamplerSwapPayload {
                        generation: job.generation,
                        resampler: b.0,
                        stream: b.1,
                    },
                ),
                swaps_sent(*old(producer)),
                r,
                *final(status),
                swaps_sent(*final(producer)),
                (swaps_capacity(*old(producer)), swaps_capacity(*final(producer))),
            ),
            None => {
                &&& r == Delivery::Failed
                &&& swaps_sent(*final(producer)) == swaps_sent(*old(producer))
                &&& swaps_capacity(*final(producer)) == swaps_capacity(*old(producer))
                &&& *final(status) == rearmed(
                    RtStatusFlags {
                        resampler_failed_generation: job.generation,
                        ..*old(status)
                    },
                    SwapFamily::Resampler,
                    job.generation,
                )
            },
        },
{
    match built {
        Some((resampler, stream)) => {
            status.resampler_failed_generation = 0;
            let payload = SwapPayload::Resampler(
                ResamplerSwapPayload { generation: job.generation, resampler, stream },
            );
            offer(payload, status, producer)
        },
        None => {
            status.resampler_failed_generation = job.generation;
            rearm_if_superseded(status, SwapFamily::Resampler, job.generation);
            Delivery::Failed
        },
    }
}

/// The old and the new block size, when there is something to log.
pub open spec fn quantum_change(s: RtStatusFlags) -> Option<(u32, u32)> {
    if s.has(RT_STATUS_NEEDS_QUANTUM_LOG) && s.requested_buffer_frames != 0
        && s.requested_buffer_frames != s.previous_buffer_frames {
        Some((s.previous_buffer_frames, s.requested_buffer_frames))
    } else {
        None
    }
}

/// The status after a changed block size was noted.
pub open spec fn quantum_noted(s: RtStatusFlags) -> RtStatusFlags {
    if !s.has(RT_STATUS_NEEDS_QUANTUM_LOG) {
        s
    } else if quantum_change(s) is Some {
        RtStatusFlags { previous_buffer_frames: s.requested_buffer_frames, ..s }.without_flag(
            RT_STATUS_NEEDS_QUANTUM_LOG,
        )
    } else {
        s.without_flag(RT_STATUS_NEEDS_QUANTUM_LOG)
    }
}

/// Notes a changed block size. Returns the old and the new one when there is
/// something to log.
pub fn handle_quantum_log(status: &mut RtStatusFlags) -> (r: Option<(u32, u32)>)
    ensures
        ({
            let due = old(status).has(RT_STATUS_NEEDS_QUANTUM_LOG);
            let new = old(status).requested_buffer_frames;
            let prev = old(status).previous_buffer_frames;
            if due && new != 0 && new != prev {
                &&& r == Some((prev, new))
                &&& *final(status) == (RtStatusFlags {
                    previous_buffer_frames: new,
                    ..*old(status)
                }).without_flag(RT_STATUS_NEEDS_QUANTUM_LOG)
            } else {
                &&& r is None
                &&& *final(status) == if due {
                    old(status).without_flag(RT_STATUS_NEEDS_QUANTUM_LOG)
                } else {
                    *old(status)
                }
            }
        }),
        r == quantum_change(*old(status)),
        *final(status) == quantum_noted(*old(status)),
{
    if !status.check_flag(RT_STATUS_NEEDS_QUANTUM_LOG) {
        return None;
    }
    let new_quantum: u32 = status.requested_buffer_frames;
    let old_quantum: u32 = status.previous_buffer_frames;
    let mut change: Option<(u32, u32)> = None;
    if new_quantum != 0 && new_quantum != old_quantum {
        status.previous_buffer_frames = new_quantum;
        change = Some((old_quantum, new_quantum));
    }
    status.clear_flag(RT_STATUS_NEEDS_QUANTUM_LOG);
    change
}

/// A cab-sim pair to build.
#[derive(Clone, Copy, Debug, PartialEq, Eq, Structural)]
pub struct CabSimJob {
    /// The request.
    pub generation: u64,
    /// Partition size.
    pub partition_size: usize,
    /// Host rate to resample the impulse response to.
    pub host_rate: u32,
}

/// The partition size that is built for a requested one: the nearest that the
/// convolver supports.
pub open spec fn clamped_partition(requested: int) -> int {
    if requested < MIN_CABSIM_PARTITION {
        MIN_CABSIM_PARTITION as int
    } else if requested > MAX_RESAMP_BUF {
        MAX_RESAMP_BUF as int
    } else {
        requested
    }
}

/// Whether a cab-sim pair is wanted and its numbers are known.
pub open spec fn cabsim_wanted(s: RtStatusFlags) -> bool {
    s.has(RT_STATUS_NEEDS_CABSIM_REBUILD) && s.requested_cabsim_partition_size != 0
        && s.requested_cabsim_host_rate != 0
}

/// The cab-sim pair that is wanted, if one is. Without an impulse response the
/// request is dropped.
pub fn cabsim_job(status: &mut RtStatusFlags, has_ir: bool) -> (r: Option<CabSimJob>)
    ensures
        (r is Some) == (cabsim_wanted(*old(status)) && has_ir),
        r is Some ==> r->0.generation == old(status).requested_cabsim_generation
            && r->0.host_rate == old(status).requested_cabsim_host_rate && r->0.partition_size
            == clamped_partition(old(status).requested_cabsim_partition_size as int)
            && MIN_CABSIM_PARTITION <= r->0.partition_size <= MAX_RESAMP_BUF,
        *final(status) == if cabsim_wanted(*old(status)) && !has_ir {
            old(status).without_flag(RT_STATUS_NEEDS_CABSIM_REBUILD)
        } else {
            *old(status)
        },
{
    if !status.check_flag(RT_STATUS_NEEDS_CABSIM_REBUILD) {
        return None;
    }
    let requested: usize = status.requested_cabsim_partition_size as usize;
    let host_rate: u32 = status.requested_cabsim_host_rate;
    if requested == 0 || host_rate == 0 {
        return None;
    }
    let partition_size: usize = if requested < MIN_CABSIM_PARTITION {
        MIN_CABSIM_PARTITION
    } else if requested > MAX_RESAMP_BUF {
        MAX_RESAMP_BUF
    } else {
        requested
    };
    if !has_ir {
        status.clear_flag(RT_STATUS_NEEDS_CABSIM_REBUILD);
        return None;
    }
    Some(CabSimJob { generation: status.requested_cabsim_generation, partition_size, host_rate })
}

/// Whether a response of one rate must be resampled for another; one of unknown
/// rate is taken as it is.
pub open spec fn must_resample(source_rate: u32, host_rate: u32) -> bool {
    source_rate != 0 && source_rate != host_rate
}

/// Whether an impulse response can be used, and whether it must be resampled
/// first: an empty one cannot, and one of unknown rate is taken as it is.
pub fn cabsim_ir_plan(samples: usize, source_rate: u32, host_rate: u32) -> (r: Option<bool>)
    ensures
        r == (if samples == 0 {
            None
        } else {
            Some(source_rate != 0 && source_rate != host_rate)
        }),
        r matches Some(resample) ==> resample == must_resample(source_rate, host_rate),
{
    if samples == 0 {
        None
    } else {
        Some(source_rate != 0 && source_rate != host_rate)
    }
}

/// Finishes a cab-sim rebuild. A failed build delivers a bypass, so that the
/// callback never runs a response made for another rate.
pub fn finish_cabsim_rebuild(
    job: CabSimJob,
    built: Option<CabSimPair>,
    status: &mut RtStatusFlags,
    producer: &mut rtrb::Producer<SwapPayload>,
) -> (r: Delivery)
    ensures
        offered(
            *old(status),
            SwapPayload::CabSim(CabSimSwapPayload { generation: job.generation, pair: built }),
            swaps_sent(*old(producer)),
            r,
            *final(status),
            swaps_sent(*final(producer)),
            (swaps_capacity(*old(producer)), swaps_capacity(*final(producer))),
        ),
{
    let payload = SwapPayload::CabSim(
        CabSimSwapPayload { generation: job.generation, pair: built },
    );
    offer(payload, status, producer)
}

/// A model pair to slice.
#[derive(Clone, Copy, Debug, PartialEq, Eq, Structural)]
pub struct SlimmableJob {
    /// The request.
    pub generation: u64,
    /// Channel count to slice to.
    pub channels: usize,
}

/// Whether the model can be sliced at all.
pub open spec fn sliceable(model: Option<StaticModel>) -> bool {
    model is Some && model->0.wavenet_dyn
}

/// Whether a model-pair request can never be met, however often it is tried.
pub open spec fn slimmable_hopeless(s: RtStatusFlags, model_l: Option<StaticModel>) -> bool {
    s.requested_slimmable_ch < MIN_SLIMMABLE_CHANNELS || !sliceable(model_l)
}

/// Whether a model pair is to be sliced: one is wanted, it is not hopeless, and
/// it has not failed before.
pub open spec fn slimmable_wanted(
    s: RtStatusFlags,
    model_l: Option<StaticModel>,
    f: RebuildFailureTracker,
) -> bool {
    s.has(RT_STATUS_NEEDS_SLIMMABLE_REBUILD) && !slimmable_hopeless(s, model_l)
        && f.slimmable_failed_generation != s.requested_slimmable_generation
}

/// The model pair that is wanted: with the channels and under the request
/// published.
pub open spec fn slimmable_asked(s: RtStatusFlags) -> SlimmableJob {
    SlimmableJob {
        generation: s.requested_slimmable_generation,
        channels: s.requested_slimmable_ch as usize,
    }
}

/// The model pair that is wanted, if one is. A hopeless request is taken back,
/// and one that already failed is not tried again.
pub fn slimmable_job(
    status: &mut RtStatusFlags,
    model_l: Option<StaticModel>,
    failures: &RebuildFailureTracker,
) -> (r: Option<SlimmableJob>)
    ensures
        ({
            let due = old(status).has(RT_STATUS_NEEDS_SLIMMABLE_REBUILD);
            let generation = old(status).requested_slimmable_generation;
            let hopeless = slimmable_hopeless(*old(status), model_l);
            &&& r == (if slimmable_wanted(*old(status), model_l, *failures) {
                Some(
                    SlimmableJob {
                        generation,
                        channels: old(status).requested_slimmable_ch as usize,
                    },
                )
            } else {
                None
            })
            &&& *final(status) == if due && hopeless {
                rearmed(*old(status), SwapFamily::Slimmable, generation)
            } else {
                *old(status)
            }
        }),
        r matches Some(job) ==> job == slimmable_asked(*old(status)),
{
    if !status.check_flag(RT_STATUS_NEEDS_SLIMMABLE_REBUILD) {
        return None;
    }
    let channels: usize = status.requested_slimmable_ch as usize;
    let generation: u64 = status.requested_slimmable_generation;
    let can_slice = match model_l {
        Some(m) => m.wavenet_dyn,
        None => false,
    };
    if channels < MIN_SLIMMABLE_CHANNELS || !can_slice {
        rearm_if_superseded(status, SwapFamily::Slimmable, generation);
        return None;
    }
    if failures.slimmable_failed_generation == generation {
        return None;
    }
    Some(SlimmableJob { generation, channels })
}

/// What follows the slicing of the left model.
#[derive(Clone, Copy, Debug, PartialEq, Eq, Structural)]
pub enum SlimmableStep {
    /// Nothing more: the request was dealt with.
    Stop,
    /// Slice the right model too.
    SliceRight,
    /// Deliver the left model alone.
    DeliverMono,
}

/// The status and the latch after slicing failed: the request is not tried
/// again under the same generation.
pub open spec fn slice_failed(
    s: RtStatusFlags,
    f: RebuildFailureTracker,
    generation: u64,
) -> (RtStatusFlags, RebuildFailureTracker) {
    (
        rearmed(
            s.with_flag(RT_STATUS_SLIMMABLE_SLICE_FAILED),
            SwapFamily::Slimmable,
            generation,
        ),
        RebuildFailureTracker { slimmable_failed_generation: generation, ..f },
    )
}

fn note_slice_failure(
    generation: u64,
    status: &mut RtStatusFlags,
    failures: &mut RebuildFailureTracker,
)
    ensures
        (*final(status), *final(failures)) == slice_failed(
            *old(status),
            *old(failures),
            generation,
        ),
{
    failures.slimmable_failed_generation = generation;
    status.set_flag(RT_STATUS_SLIMMABLE_SLICE_FAILED);
    rearm_if_superseded(status, SwapFamily::Slimmable, generation);
}

/// What follows the slicing of the left model.
pub open spec fn slice_step(
    left_sliced: bool,
    has_model_r: bool,
    model_r: Option<StaticModel>,
) -> SlimmableStep {
    if !left_sliced {
        SlimmableStep::Stop
    } else if !has_model_r {
        SlimmableStep::DeliverMono
    } else if sliceable(model_r) {
        SlimmableStep::SliceRight
    } else {
        SlimmableStep::Stop
    }
}

/// Decides what follows the slicing of the left model. A stereo setup without
/// a sliceable right model makes the request hopeless.
pub fn after_left_slice(
    job: SlimmableJob,
    left_sliced: bool,
    has_model_r: bool,
    model_r: Option<StaticModel>,
    status: &mut RtStatusFlags,
    failures: &mut RebuildFailureTracker,
) -> (r: SlimmableStep)
    ensures
        r == (if !left_sliced {
            SlimmableStep::Stop
        } else if !has_model_r {
            SlimmableStep::DeliverMono
        } else if sliceable(model_r) {
            SlimmableStep::SliceRight
        } else {
            SlimmableStep::Stop
        }),
        r == slice_step(left_sliced, has_model_r, model_r),
        (*final(status), *final(failures)) == if !left_sliced {
            slice_failed(*old(status), *old(failures), job.generation)
        } else if has_model_r && !sliceable(model_r) {
            (rearmed(*old(status), SwapFamily::Slimmable, job.generation), *old(failures))
        } else {
            (*old(status), *old(failures))
        },
{
    if !left_sliced {
        note_slice_failure(job.generation, status, failures);
        return SlimmableStep::Stop;
    }
    if !has_model_r {
        return SlimmableStep::DeliverMono;
    }
    let can_slice = match model_r {
        Some(m) => m.wavenet_dyn,
        None => false,
    };
    if can_slice {
        SlimmableStep::SliceRight
    } else {
        rearm_if_superseded(status, SwapFamily::Slimmable, job.generation);
        SlimmableStep::Stop
    }
}

/// Records that the right model could not be sliced.
pub fn right_slice_failed(
    job: SlimmableJob,
    status: &mut RtStatusFlags,
    failures: &mut RebuildFailureTracker,
)
    ensures
        (*final(status), *final(failures)) == slice_failed(
            *old(status),
            *old(failures),
            job.generation,
        ),
{
    note_slice_failure(job.generation, status, failures);
}

/// Delivers the sliced models of both channels in one envelope, or of the left
/// channel alone.
pub fn finish_slimmable_rebuild(
    job: SlimmableJob,
    left: StaticModel,
    right: Option<StaticModel>,
    status: &mut RtStatusFlags,
    producer: &mut rtrb::Producer<SwapPayload>,
    failures: &mut RebuildFailureTracker,
) -> (r: Delivery)
    ensures
        *final(failures) == (RebuildFailureTracker {
            slimmable_failed_generation: 0,
            ..*old(failures)
        }),
        offered(
            *old(status),
            SwapPayload::Slimmable(
                SlimModelPair {
                    generation: job.generation,
                    channels: job.channels,
                    l: Some(left),
                    r: right,
                },
            ),
            swaps_sent(*old(producer)),
            r,
            *final(status),
            swaps_sent(*final(producer)),
            (swaps_capacity(*old(producer)), swaps_capacity(*final(producer))),
        ),
{
    failures.slimmable_failed_generation = 0;
    let payload = SwapPayload::Slimmable(
        SlimModelPair {
            generation: job.generation,
            channels: job.channels,
            l: Some(left),
            r: right,
        },
    );
    offer(payload, status, producer)
}

/// An oversampling engine pair to build.
#[derive(Clone, Copy, Debug, PartialEq, Eq, Structural)]
pub struct OversampleJob {
    /// The request.
    pub generation: u64,
    /// The factor.
    pub factor: OversampleFactor,
}

/// Whether oversampling engines are to be built: they are wanted, and have not
/// failed before.
pub open spec fn oversample_wanted(s: RtStatusFlags, f: RebuildFailureTracker) -> bool {
    s.has(RT_STATUS_NEEDS_OS_REBUILD) && f.os_failed_generation != s.requested_os_generation
}

/// The factor requested under a number; an unknown number means none.
pub open spec fn factor_asked(code: u32) -> OversampleFactor {
    if code == 1 {
        OversampleFactor::X2
    } else if code == 2 {
        OversampleFactor::X4
    } else {
        OversampleFactor::Off
    }
}

/// The oversampling engines that are wanted, if they are; a request that
/// already failed is not tried again.
pub fn oversample_job(status: &RtStatusFlags, failures: &RebuildFailureTracker) -> (r: Option<
    OversampleJob,
>)
    ensures
        (r is Some) == oversample_wanted(*status, *failures),
        r is Some ==> r->0.generation == status.requested_os_generation,
        r is Some ==> r->0.factor == (if status.requested_os_factor == 1 {
            OversampleFactor::X2
        } else if status.requested_os_factor == 2 {
            OversampleFactor::X4
        } else {
            OversampleFactor::Off
        }),
        r matches Some(job) ==> job.factor == factor_asked(status.requested_os_factor),
{
    if !status.check_flag(RT_STATUS_NEEDS_OS_REBUILD) {
        return None;
    }
    let generation: u64 = status.requested_os_generation;
    if failures.os_failed_generation == generation {
        return None;
    }
    Some(
        OversampleJob { generation, factor: OversampleFactor::from_code(status.requested_os_factor) },
    )
}

/// The latch after an oversampling rebuild.
pub open spec fn after_oversample(
    f: RebuildFailureTracker,
    built: bool,
    generation: u64,
) -> RebuildFailureTracker {
    RebuildFailureTracker { os_failed_generation: if built { 0 } else { generation }, ..f }
}

/// Finishes an oversampling rebuild. A failed build is latched: the same
/// request is not tried again.
pub fn finish_oversample_rebuild(
    job: OversampleJob,
    built: Option<(OversampleEngine, OversampleEngine)>,
    status: &mut RtStatusFlags,
    producer: &mut rtrb::Producer<SwapPayload>,
    failures: &mut RebuildFailureTracker,
) -> (r: Delivery)
    ensures
        *final(failures) == after_oversample(*old(failures), built is Some, job.generation),
        match built {
            Some(b) => offered(
                *old(status),
                SwapPayload::Oversample(
                    OsEnginePair { generation: job.generation, l: b.0, r: b.1 },
                ),
                swaps_sent(*old(producer)),
                r,
                *final(status),
                swaps_sent(*final(producer)),
                (swaps_capacity(*old(producer)), swaps_capacity(*final(producer))),
            ),
            None => {
                &&& r == Delivery::Failed
                &&& swaps_sent(*final(producer)) == swaps_sent(*old(producer))
                &&& swaps_capacity(*final(producer)) == swaps_capacity(*old(producer))
                &&& *final(status) == rearmed(
                    *old(status),
                    SwapFamily::Oversample,
                    job.generation,
                )
            },
        },
{
    match built {
        Some((l, right)) => {
            failures.os_failed_generation = 0;
            let payload = SwapPayload::Oversample(
                OsEnginePair { generation: job.generation, l, r: right },
            );
            offer(payload, status, producer)
        },
        None => {
            failures.os_failed_generation = job.generation;
            rearm_if_superseded(status, SwapFamily::Oversample, job.generation);
            Delivery::Failed
        },
    }
}

/// A finished request stays raised exactly when a newer one was published: a
/// completion, good or bad, never erases a request it did not answer.
pub proof fn newer_request_survives(s: RtStatusFlags, family: SwapFamily, generation: u64)
    ensures
        rearmed(s, family, generation).has(needs_flag_spec(family))
            == (s.requested_generation_spec(family) != generation),
        rearmed(s, family, generation).requested_generation_spec(family)
            == s.requested_generation_spec(family),
{
    let flag = needs_flag_spec(family);
    clear_flag_is_local(s.status_bits, flag, flag);
    set_flag_is_local(s.status_bits & !flag, flag, flag);
}

/// A request that failed is not tried again, whatever else changed, and the
/// next request of the family is tried.
pub proof fn failed_request_is_not_retried(
    s: RtStatusFlags,
    f: RebuildFailureTracker,
    generation: u64,
    later: RtStatusFlags,
    model_l: Option<StaticModel>,
)
    ensures
        later.requested_os_generation == generation ==> !oversample_wanted(
            later,
            after_oversample(f, false, generation),
        ),
        later.requested_slimmable_generation == generation ==> !slimmable_wanted(
            later,
            model_l,
            slice_failed(s, f, generation).1,
        ),
        later.requested_os_generation != generation ==> oversample_wanted(
            later,
            after_oversample(f, false, generation),
        ) == later.has(RT_STATUS_NEEDS_OS_REBUILD),
        later.requested_slimmable_generation != generation ==> slimmable_wanted(
            later,
            model_l,
            slice_failed(s, f, generation).1,
        ) == (later.has(RT_STATUS_NEEDS_SLIMMABLE_REBUILD) && !slimmable_hopeless(later, model_l)),
{
}

/// Each family has a flag of its own, so that dealing with one request leaves
/// those of the other families as they are.
pub proof fn families_do_not_disturb_each_other(
    s: RtStatusFlags,
    family: SwapFamily,
    generation: u64,
    other: SwapFamily,
)
    requires
        family != other,
    ensures
        needs_flag_spec(family) & needs_flag_spec(other) == 0,
        rearmed(s, family, generation).has(needs_flag_spec(other)) == s.has(
            needs_flag_spec(other),
        ),
        ({
            let t = rearmed(s, family, generation);
            t == RtStatusFlags { status_bits: t.status_bits, ..s }
        }),
{
    assert(RT_STATUS_NEEDS_RESAMPLER_REBUILD & RT_STATUS_NEEDS_CABSIM_REBUILD == 0
        && RT_STATUS_NEEDS_RESAMPLER_REBUILD & RT_STATUS_NEEDS_SLIMMABLE_REBUILD == 0
        && RT_STATUS_NEEDS_RESAMPLER_REBUILD & RT_STATUS_NEEDS_OS_REBUILD == 0
        && RT_STATUS_NEEDS_CABSIM_REBUILD & RT_STATUS_NEEDS_SLIMMABLE_REBUILD == 0
        && RT_STATUS_NEEDS_CABSIM_REBUILD & RT_STATUS_NEEDS_OS_REBUILD == 0
        && RT_STATUS_NEEDS_SLIMMABLE_REBUILD & RT_STATUS_NEEDS_OS_REBUILD == 0) by (bit_vector);
    assert(forall|a: u64, b: u64| a & b == b & a) by (bit_vector);
    let f = needs_flag_spec(family);
    let o = needs_flag_spec(other);
    clear_flag_is_local(s.status_bits, f, o);
    set_flag_is_local(s.status_bits & !f, f, o);
}

/// A request of each family is answered under the flag that asking for it
/// raises.
pub proof fn asked_for_under_the_right_flag(
    s: RtStatusFlags,
    rates: (u32, u32),
    partition: u32,
    code: u32,
)
    ensures
        crate::rate_sync::resampler_requested(s, rates.0, rates.1).has(
            needs_flag_spec(SwapFamily::Resampler),
        ),
        crate::capture::cabsim_requested(s, partition, rates.0).has(
            needs_flag_spec(SwapFamily::CabSim),
        ),
        crate::commands::oversample_requested(s, code).has(
            needs_flag_spec(SwapFamily::Oversample),
        ),
{
    crate::rate_sync::renegotiation_is_kept(s, rates, rates);
    let r = RT_STATUS_NEEDS_RESAMPLER_REBUILD;
    set_flag_is_local(s.status_bits, r, r);
    set_flag_is_local(s.status_bits | r, crate::rt_status::RT_STATUS_RESAMP_SWAP_PENDING, r);
    crate::capture::cabsim_request_is_published(s, partition, rates.0);
    crate::commands::oversample_request_is_published(s, code);
}

/// The partition that is built is one that a convolver supports, and the
/// requested one where it is; no supported size lies nearer to the request.
pub proof fn built_partition_is_the_nearest(requested: int, any: int)
    requires
        16 <= any <= 8192,
    ensures
        16 <= clamped_partition(requested) <= 8192,
        16 <= requested <= 8192 ==> clamped_partition(requested) == requested,
        requested <= any ==> clamped_partition(requested) <= any,
        requested >= any ==> clamped_partition(requested) >= any,
{
}

/// A cab-sim pair is built exactly where one is asked for with a size and a
/// rate.
pub proof fn cabsim_is_built_where_asked(s: RtStatusFlags, partition: u32, host_rate: u32)
    ensures
        cabsim_wanted(s) ==> s.requested_cabsim_partition_size != 0
            && s.requested_cabsim_host_rate != 0 && s.has(RT_STATUS_NEEDS_CABSIM_REBUILD),
        partition != 0 && host_rate != 0 ==> cabsim_wanted(
            crate::capture::cabsim_requested(s, partition, host_rate),
        ),
{
    crate::capture::cabsim_request_is_published(s, partition, host_rate);
}

/// A model pair is sliced exactly where one is asked for with at least four
/// channels, the left model is a WaveNet that can be sliced, and the request has
/// not failed before.
pub proof fn pair_is_sliced_where_possible(
    s: RtStatusFlags,
    model_l: Option<StaticModel>,
    f: RebuildFailureTracker,
)
    ensures
        slimmable_wanted(s, model_l, f) == (s.has(RT_STATUS_NEEDS_SLIMMABLE_REBUILD)
            && s.requested_slimmable_ch >= 4 && (model_l matches Some(m) && m.wavenet_dyn)
            && s.requested_slimmable_generation != f.slimmable_failed_generation),
        slimmable_hopeless(s, model_l) == (s.requested_slimmable_ch < 4 || model_l is None
            || !model_l->0.wavenet_dyn),
        sliceable(model_l) == (model_l matches Some(m) && m.wavenet_dyn),
{
}

/// Oversampling engines are built exactly where they are asked for under a
/// request that has not failed before.
pub proof fn engines_are_built_where_asked(
    s: RtStatusFlags,
    f: RebuildFailureTracker,
    built: bool,
    generation: u64,
)
    ensures
        oversample_wanted(s, f) == (s.has(RT_STATUS_NEEDS_OS_REBUILD) && s.requested_os_generation
            != f.os_failed_generation),
        built ==> after_oversample(f, built, generation).os_failed_generation == 0,
        !built ==> after_oversample(f, built, generation).os_failed_generation == generation,
        after_oversample(f, built, generation).slimmable_failed_generation
            == f.slimmable_failed_generation,
{
}

/// A failed slicing is reported and latched under its request, and taken back
/// unless a newer one exists; other latches stay.
pub proof fn failed_slicing_is_latched(
    s: RtStatusFlags,
    f: RebuildFailureTracker,
    generation: u64,
)
    ensures
        ({
            let (t, g) = slice_failed(s, f, generation);
            &&& g.slimmable_failed_generation == generation
            &&& g.os_failed_generation == f.os_failed_generation
            &&& t.has(RT_STATUS_SLIMMABLE_SLICE_FAILED)
            &&& t.has(RT_STATUS_NEEDS_SLIMMABLE_REBUILD) == (s.requested_slimmable_generation
                != generation)
            &&& t == RtStatusFlags { status_bits: t.status_bits, ..s }
        }),
{
    let failed = RT_STATUS_SLIMMABLE_SLICE_FAILED;
    let needs = RT_STATUS_NEEDS_SLIMMABLE_REBUILD;
    assert(RT_STATUS_NEEDS_SLIMMABLE_REBUILD & RT_STATUS_SLIMMABLE_SLICE_FAILED == 0)
        by (bit_vector);
    let bits = s.status_bits | failed;
    set_flag_is_local(s.status_bits, failed, failed);
    clear_flag_is_local(bits, needs, failed);
    set_flag_is_local(bits & !needs, needs, failed);
    newer_request_survives(
        s.with_flag(failed),
        SwapFamily::Slimmable,
        generation,
    );
}

/// A delivered envelope is the last one sent, and leaves its request raised only
/// where a newer one exists; a full ring leaves everything as it was, and hands
/// the envelope back.
pub proof fn delivery_answers_its_request(
    s: RtStatusFlags,
    payload: SwapPayload,
    sent: Seq<SwapPayload>,
    r: Delivery,
    s_after: RtStatusFlags,
    sent_after: Seq<SwapPayload>,
    capacities: (nat, nat),
)
    requires
        offered(s, payload, sent, r, s_after, sent_after, capacities),
    ensures
        r is Delivered ==> {
            &&& sent_after.len() == sent.len() + 1
            &&& sent_after.last() == payload
            &&& sent_after.drop_last() =~= sent
            &&& match payload {
                SwapPayload::Resampler(x) => s_after.has(RT_STATUS_NEEDS_RESAMPLER_REBUILD) == (
                s.requested_rate_generation != x.generation),
                SwapPayload::CabSim(x) => s_after.has(RT_STATUS_NEEDS_CABSIM_REBUILD) == (
                s.requested_cabsim_generation != x.generation),
                SwapPayload::Slimmable(x) => s_after.has(RT_STATUS_NEEDS_SLIMMABLE_REBUILD) == (
                s.requested_slimmable_generation != x.generation),
                SwapPayload::Oversample(x) => s_after.has(RT_STATUS_NEEDS_OS_REBUILD) == (
                s.requested_os_generation != x.generation),
            }
        },
        !(r is Delivered) ==> r == Delivery::ChannelFull(payload) && sent_after == sent && s_after
            == s && sent.len() >= capacities.0,
{
    newer_request_survives(s, payload.family_spec(), payload.generation_spec());
}

/// What the callback asks for is what is built: a resampler for the rates that
/// are needed, engines for the factor commanded, each under its own request.
pub proof fn what_is_asked_for_is_built(
    s: RtStatusFlags,
    detected: u32,
    resampler: NamResampler,
    nam_rate: u32,
    f: OversampleFactor,
)
    ensures
        ({
            let t = crate::rate_sync::rate_synced(s, detected, resampler, nam_rate);
            t.requested_rate_generation != s.requested_rate_generation ==> {
                let job = resampler_asked(t);
                &&& job.generation == t.requested_rate_generation
                &&& job.nam_rate == nam_rate
                &&& detected != 0 ==> job.host_rate == detected
                &&& detected == 0 ==> job.host_rate == resampler.host_rate
            }
        }),
        factor_asked(f.code_spec()) == f,
{
    crate::rate_sync::requested_resampler_is_the_needed_one(s, detected, resampler, nam_rate);
}

/// A response is used at the host rate: it is resampled exactly where its rate is
/// known and another one.
pub proof fn response_ends_at_the_host_rate(source_rate: u32, host_rate: u32)
    ensures
        !must_resample(source_rate, host_rate) <==> source_rate == host_rate || source_rate == 0,
{
}

/// A stereo setup gets both models sliced or none; a mono one the left alone.
pub proof fn stereo_is_sliced_whole(
    left_sliced: bool,
    has_model_r: bool,
    model_r: Option<StaticModel>,
)
    ensures
        ({
            let step = slice_step(left_sliced, has_model_r, model_r);
            &&& step is DeliverMono ==> left_sliced && !has_model_r
            &&& step is SliceRight ==> left_sliced && has_model_r && model_r is Some
                && model_r->0.wavenet_dyn
            &&& left_sliced && !has_model_r ==> step is DeliverMono
            &&& left_sliced && has_model_r && model_r is Some && model_r->0.wavenet_dyn ==> step
                is SliceRight
        }),
{
}

/// A changed block size is logged once, from the old one to the new: then the
/// flag is down, the new one counts as known, and nothing more is logged until
/// it changes again.
pub proof fn block_size_is_logged_once(s: RtStatusFlags, n: u32)
    ensures
        ({
            let t = quantum_noted(s);
            &&& !t.has(RT_STATUS_NEEDS_QUANTUM_LOG)
            &&& quantum_change(t) is None
            &&& quantum_change(s) matches Some(c) ==> c.0 != c.1 && c.0 == s.previous_buffer_frames
                && c.1 == s.requested_buffer_frames && t.previous_buffer_frames == c.1
            &&& t.requested_buffer_frames == s.requested_buffer_frames && t.last_n_samples
                == s.last_n_samples
            &&& n != 0 && n != t.last_n_samples && n != t.previous_buffer_frames
                ==> quantum_change(crate::process::block_size_noted(t, n)) == Some(
                (t.previous_buffer_frames, n),
            )
        }),
{
    let flag = RT_STATUS_NEEDS_QUANTUM_LOG;
    clear_flag_is_local(s.status_bits, flag, flag);
    crate::process::changed_block_size_is_announced(quantum_noted(s), n);
}

/// The adaptive engine's wish is what is sliced: so many channels, under the
/// request of the wish.
pub proof fn wished_channels_are_sliced(v: crate::capture::CallbackView, ch: usize)
    requires
        ch <= u32::MAX,
    ensures
        slimmable_asked(v.slimmable_step(Some(ch)).status).channels == ch,
        slimmable_asked(v.slimmable_step(Some(ch)).status).generation
            != v.status.requested_slimmable_generation,
{
    crate::capture::wish_is_published(v, Some(ch));
}

} // verus!
