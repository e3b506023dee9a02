//! Status word and handshake counters shared by the audio callback and the
//! control plane.

use vstd::prelude::*;

verus! {

/// The audio thread needs a new resampler.
pub const RT_STATUS_NEEDS_RESAMPLER_REBUILD: u64 = 0x1;

/// The audio thread needs a new cab-sim pair.
pub const RT_STATUS_NEEDS_CABSIM_REBUILD: u64 = 0x200;

/// A resampler swap is in flight; the capture callback stays muted.
pub const RT_STATUS_RESAMP_SWAP_PENDING: u64 = 0x400;

/// Slicing a model to fewer channels failed.
pub const RT_STATUS_SLIMMABLE_SLICE_FAILED: u64 = 0x1_0000;

/// The audio thread needs a model pair with another channel count.
pub const RT_STATUS_NEEDS_SLIMMABLE_REBUILD: u64 = 0x2_0000;

/// The audio thread needs another oversampling engine pair.
pub const RT_STATUS_NEEDS_OS_REBUILD: u64 = 0x8_0000;

/// The host broke the buffer or format contract.
pub const RT_STATUS_HOST_CONTRACT_VIOLATION: u64 = 0x10_0000;

/// The block size changed and should be logged.
pub const RT_STATUS_NEEDS_QUANTUM_LOG: u64 = 0x80_0000;

/// A drain stopped at its pop ceiling with payloads still queued.
pub const RT_STATUS_SPSC_DRAIN_TRUNCATED: u64 = 0x100_0000;

/// A structural command was put off to a later callback.
pub const RT_STATUS_STRUCTURAL_DEFERRED: u64 = 0x1000_0000;

/// A structural command was replaced by a newer one before it applied.
pub const RT_STATUS_STRUCTURAL_SUPERSEDED: u64 = 0x2000_0000;

/// The parameter queue still held commands after the per-callback budget.
pub const RT_STATUS_PARAM_QUEUE_BACKLOG: u64 = 0x4000_0000;

/// A panic was contained in an audio callback.
pub const RT_STATUS_PANIC_CAPTURED: u64 = 0x8000_0000;

/// One consistent reading of the status word and the handshake counters.
///
/// The control plane publishes requests and the audio callback answers them
/// through these fields; every generation counter wraps.
#[derive(Clone, Copy, Debug, PartialEq, Eq, Structural)]
pub struct RtStatusFlags {
    /// The flag word (`RT_STATUS_*`).
    pub status_bits: u64,
    /// Duration of the last measured DSP cycle, in nanoseconds.
    pub dsp_cycle_time: u64,
    /// Frames of the last processed block.
    pub last_n_samples: u32,
    /// DSP cycles that overran their budget.
    pub dsp_overloads: u32,
    /// Structural commands put off so far.
    pub structural_deferred_total: u32,
    /// Structural commands superseded so far.
    pub structural_superseded_total: u32,
    /// Host rate of the installed resampler.
    pub active_rate: u32,
    /// Host rate waiting to be announced by the control plane.
    pub active_rate_changed: u32,
    /// Host rate asked of the next resampler.
    pub requested_host_rate: u32,
    /// Model rate asked of the next resampler.
    pub requested_nam_rate: u32,
    /// Block size last announced by the callback.
    pub requested_buffer_frames: u32,
    /// Block size last logged by the control plane.
    pub previous_buffer_frames: u32,
    /// Partition size asked of the next cab-sim pair.
    pub requested_cabsim_partition_size: u32,
    /// Host rate asked of the next cab-sim pair.
    pub requested_cabsim_host_rate: u32,
    /// Channel count asked of the next model pair.
    pub requested_slimmable_ch: u32,
    /// Oversampling factor code asked of the next engine pair.
    pub requested_os_factor: u32,
    /// Generation of the newest resampler request.
    pub requested_rate_generation: u64,
    /// Generation of the installed resampler.
    pub applied_rate_generation: u64,
    /// Generation of the newest resampler request that could not be built.
    pub resampler_failed_generation: u64,
    /// Generation of the newest cab-sim request.
    pub requested_cabsim_generation: u64,
    /// Generation of the installed cab-sim pair.
    pub applied_cabsim_generation: u64,
    /// Generation of the newest model-pair request.
    pub requested_slimmable_generation: u64,
    /// Generation of the newest oversampling request.
    pub requested_os_generation: u64,
    /// Generation of the installed oversampling engines.
    pub applied_os_generation: u64,
    /// Capture callbacks that found no buffer.
    pub input_buffer_miss: u32,
    /// Playback callbacks that found no buffer.
    pub output_buffer_miss: u32,
    /// Time of the first processed block since start, in nanoseconds.
    pub first_block_nanos: u64,
}

/// Whether any bit of `flag` is set in `bits`.
pub open spec fn bits_have(bits: u64, flag: u64) -> bool {
    bits & flag != 0
}

/// The successor of a wrapping 64-bit generation counter.
pub open spec fn next_generation(g: u64) -> u64 {
    if g == u64::MAX {
        0
    } else {
        (g + 1) as u64
    }
}

/// The successor of a wrapping 32-bit event counter.
pub open spec fn next_count(n: u32) -> u32 {
    if n == u32::MAX {
        0
    } else {
        (n + 1) as u32
    }
}

/// Whether `n` is one of the numbers that come once in `period`, starting with
/// `first`.
pub open spec fn comes_round(n: int, period: int, first: int) -> bool {
    n % period == first
}

/// What comes round does so at its start, again after one period, and never in
/// between.
pub proof fn comes_round_once_a_period(n: int, period: int, first: int, later: int)
    requires
        period > 0,
        0 <= first < period,
    ensures
        comes_round(first, period, first),
        comes_round(n, period, first) ==> comes_round(n + period, period, first),
        comes_round(n, period, first) && 0 < later < period ==> !comes_round(
            n + later,
            period,
            first,
        ),
{
    vstd::arithmetic::div_mod::lemma_small_mod(first as nat, period as nat);
    vstd::arithmetic::div_mod::lemma_mod_add_multiples_vanish(n, period);
    if comes_round(n, period, first) && 0 < later < period {
        vstd::arithmetic::div_mod::lemma_fundamental_div_mod(n, period);
        if comes_round(n + later, period, first) {
            vstd::arithmetic::div_mod::lemma_fundamental_div_mod(n + later, period);
            let a = n / period;
            let b = (n + later) / period;
            assert(period * b - period * a == later);
            assert(period * b - period * a == period * (b - a)) by (nonlinear_arith);
            let d = b - a;
            assert(d <= 0 || d >= 1);
            assert(d >= 1 ==> period * d >= period) by (nonlinear_arith)
                requires
                    period > 0,
            ;
            assert(d <= 0 ==> period * d <= 0) by (nonlinear_arith)
                requires
                    period > 0,
            ;
        }
    }
}

/// A generation and its successor are never the same number.
pub proof fn generation_step_differs(g: u64)
    ensures
        next_generation(g) != g,
{
}

/// Setting one flag raises that flag, lowers none and touches no flag that
/// shares no bit with it.
pub proof fn set_flag_is_local(bits: u64, set: u64, other: u64)
    ensures
        set != 0 ==> bits_have(bits | set, set),
        bits_have(bits, other) ==> bits_have(bits | set, other),
        set & other == 0 ==> bits_have(bits | set, other) == bits_have(bits, other),
{
    assert(set != 0 ==> (bits | set) & set != 0) by (bit_vector);
    assert(bits & other != 0 ==> (bits | set) & other != 0) by (bit_vector);
    assert(set & other == 0 ==> ((bits | set) & other != 0) == (bits & other != 0))
        by (bit_vector);
}

/// Clearing one flag lowers that flag, raises none and touches no flag that
/// shares no bit with it.
pub proof fn clear_flag_is_local(bits: u64, cleared: u64, other: u64)
    ensures
        !bits_have(bits & !cleared, cleared),
        bits_have(bits & !cleared, other) ==> bits_have(bits, other),
        cleared & other == 0 ==> bits_have(bits & !cleared, other) == bits_have(bits, other),
{
    assert((bits & !cleared) & cleared == 0) by (bit_vector);
    assert((bits & !cleared) & other != 0 ==> bits & other != 0) by (bit_vector);
    assert(cleared & other == 0 ==> ((bits & !cleared) & other != 0) == (bits & other != 0))
        by (bit_vector);
}

impl RtStatusFlags {
    /// The values before any stream started.
    pub open spec fn initial() -> Self {
        RtStatusFlags {
            status_bits: 0,
            dsp_cycle_time: 0,
            last_n_samples: 0,
            dsp_overloads: 0,
            structural_deferred_total: 0,
            structural_superseded_total: 0,
            active_rate: 0,
            active_rate_changed: 0,
            requested_host_rate: 0,
            requested_nam_rate: 48_000,
            requested_buffer_frames: 0,
            previous_buffer_frames: 0,
            requested_cabsim_partition_size: 0,
            requested_cabsim_host_rate: 0,
            requested_slimmable_ch: 0,
            requested_os_factor: 0,
            requested_rate_generation: 0,
            applied_rate_generation: 0,
            resampler_failed_generation: 0,
            requested_cabsim_generation: 0,
            applied_cabsim_generation: 0,
            requested_slimmable_generation: 0,
            requested_os_generation: 0,
            applied_os_generation: 0,
            input_buffer_miss: 0,
            output_buffer_miss: 0,
            first_block_nanos: 0,
        }
    }

    /// Whether any bit of `flag` is raised.
    pub open spec fn has(self, flag: u64) -> bool {
        bits_have(self.status_bits, flag)
    }

    /// This reading with `flag` raised.
    pub open spec fn with_flag(self, flag: u64) -> Self {
        RtStatusFlags { status_bits: self.status_bits | flag, ..self }
    }

    /// This reading with `flag` lowered.
    pub open spec fn without_flag(self, flag: u64) -> Self {
        RtStatusFlags { status_bits: self.status_bits & !flag, ..self }
    }

    /// This reading after one structural command was put off.
    pub open spec fn with_deferral(self) -> Self {
        RtStatusFlags {
            structural_deferred_total: next_count(self.structural_deferred_total),
            ..self.with_flag(RT_STATUS_STRUCTURAL_DEFERRED)
        }
    }

    /// This reading after one structural command was superseded.
    pub open spec fn with_supersession(self) -> Self {
        RtStatusFlags {
            structural_superseded_total: next_count(self.structural_superseded_total),
            ..self.with_flag(RT_STATUS_STRUCTURAL_SUPERSEDED)
        }
    }

    /// Starts from the values before any stream started.
    pub fn new() -> (r: Self)
        ensures
            r == RtStatusFlags::initial(),
    {
        RtStatusFlags {
            status_bits: 0,
            dsp_cycle_time: 0,
            last_n_samples: 0,
            dsp_overloads: 0,
            structural_deferred_total: 0,
            structural_superseded_total: 0,
            active_rate: 0,
            active_rate_changed: 0,
            requested_host_rate: 0,
            requested_nam_rate: 48_000,
            requested_buffer_frames: 0,
            previous_buffer_frames: 0,
            requested_cabsim_partition_size: 0,
            requested_cabsim_host_rate: 0,
            requested_slimmable_ch: 0,
            requested_os_factor: 0,
            requested_rate_generation: 0,
            applied_rate_generation: 0,
            resampler_failed_generation: 0,
            requested_cabsim_generation: 0,
            applied_cabsim_generation: 0,
            requested_slimmable_generation: 0,
            requested_os_generation: 0,
            applied_os_generation: 0,
            input_buffer_miss: 0,
            output_buffer_miss: 0,
            first_block_nanos: 0,
        }
    }

    /// Raises `flag`.
    pub fn set_flag(&mut self, flag: u64)
        ensures
            *final(self) == old(self).with_flag(flag),
    {
        self.status_bits = self.status_bits | flag;
    }

    /// Lowers `flag`.
    pub fn clear_flag(&mut self, flag: u64)
        ensures
            *final(self) == old(self).without_flag(flag),
    {
        self.status_bits = self.status_bits & !flag;
    }

    /// Whether any bit of `flag` is raised.
    pub fn check_flag(&self, flag: u64) -> (r: bool)
        ensures
            r == self.has(flag),
    {
        self.status_bits & flag != 0
    }

    /// Records that a structural command was put off.
    pub fn flag_structural_deferred(&mut self)
        ensures
            *final(self) == old(self).with_deferral(),
    {
        self.set_flag(RT_STATUS_STRUCTURAL_DEFERRED);
        self.structural_deferred_total = self.structural_deferred_total.wrapping_add(1);
    }

    /// Records that a structural command was superseded.
    pub fn flag_structural_superseded(&mut self)
        ensures
            *final(self) == old(self).with_supersession(),
    {
        self.set_flag(RT_STATUS_STRUCTURAL_SUPERSEDED);
        self.structural_superseded_total = self.structural_superseded_total.wrapping_add(1);
    }
}

impl Default for RtStatusFlags {
    fn default() -> (r: Self)
        ensures
            r == RtStatusFlags::initial(),
    {
        RtStatusFlags::new()
    }
}

/// The successor of a counter is one more, counted modulo what it can hold.
pub proof fn counters_count_by_one(n: u32, g: u64)
    ensures
        next_count(n) as int == (n + 1) % 0x1_0000_0000,
        next_generation(g) as int == (g + 1) % 0x1_0000_0000_0000_0000,
{
}

/// A raised flag is up, a lowered one is down, a flag that shares no bit with it
/// stays as it was, and nothing but the flags changes.
pub proof fn flags_are_kept_apart(s: RtStatusFlags, flag: u64, other: u64)
    requires
        flag != 0,
        flag & other == 0,
    ensures
        s.with_flag(flag).has(flag),
        !s.without_flag(flag).has(flag),
        s.with_flag(flag).has(other) == s.has(other),
        s.without_flag(flag).has(other) == s.has(other),
        s.has(other) == (s.status_bits & other != 0),
        ({
            let up = s.with_flag(flag);
            let down = s.without_flag(flag);
            &&& up == RtStatusFlags { status_bits: up.status_bits, ..s }
            &&& down == RtStatusFlags { status_bits: down.status_bits, ..s }
        }),
{
    set_flag_is_local(s.status_bits, flag, other);
    clear_flag_is_local(s.status_bits, flag, other);
}

/// No two flags share a bit, so that none can be taken for another.
pub proof fn no_two_flags_share_a_bit()
    ensures
        ({
            let all = seq![
                RT_STATUS_NEEDS_RESAMPLER_REBUILD,
                RT_STATUS_NEEDS_CABSIM_REBUILD,
                RT_STATUS_RESAMP_SWAP_PENDING,
                RT_STATUS_SLIMMABLE_SLICE_FAILED,
                RT_STATUS_NEEDS_SLIMMABLE_REBUILD,
                RT_STATUS_NEEDS_OS_REBUILD,
                RT_STATUS_HOST_CONTRACT_VIOLATION,
                RT_STATUS_NEEDS_QUANTUM_LOG,
                RT_STATUS_SPSC_DRAIN_TRUNCATED,
                RT_STATUS_STRUCTURAL_DEFERRED,
                RT_STATUS_STRUCTURAL_SUPERSEDED,
                RT_STATUS_PARAM_QUEUE_BACKLOG,
                RT_STATUS_PANIC_CAPTURED,
            ];
            forall|i: int, j: int|
                0 <= i < all.len() && 0 <= j < all.len() ==> all[i] != 0 && (i != j
                    ==> #[trigger] all[i] & #[trigger] all[j] == 0)
        }),
{
    assert(forall|a: u64, b: u64| a & b == b & a) by (bit_vector);
    assert(0x1u64 & 0x200 == 0 && 0x1u64 & 0x400 == 0 && 0x1u64 & 0x1_0000 == 0 && 0x1u64 & 0x2_0000
        == 0 && 0x1u64 & 0x8_0000 == 0 && 0x1u64 & 0x10_0000 == 0 && 0x1u64 & 0x80_0000 == 0
        && 0x1u64 & 0x100_0000 == 0 && 0x1u64 & 0x1000_0000 == 0 && 0x1u64 & 0x2000_0000 == 0
        && 0x1u64 & 0x4000_0000 == 0 && 0x1u64 & 0x8000_0000 == 0 && 0x200u64 & 0x400 == 0
        && 0x200u64 & 0x1_0000 == 0 && 0x200u64 & 0x2_0000 == 0 && 0x200u64 & 0x8_0000 == 0
        && 0x200u64 & 0x10_0000 == 0 && 0x200u64 & 0x80_0000 == 0 && 0x200u64 & 0x100_0000 == 0
        && 0x200u64 & 0x1000_0000 == 0 && 0x200u64 & 0x2000_0000 == 0 && 0x200u64 & 0x4000_0000
        == 0 && 0x200u64 & 0x8000_0000 == 0 && 0x400u64 & 0x1_0000 == 0 && 0x400u64 & 0x2_0000
        == 0 && 0x400u64 & 0x8_0000 == 0 && 0x400u64 & 0x10_0000 == 0 && 0x400u64 & 0x80_0000
        == 0 && 0x400u64 & 0x100_0000 == 0 && 0x400u64 & 0x1000_0000 == 0 && 0x400u64
        & 0x2000_0000 == 0 && 0x400u64 & 0x4000_0000 == 0 && 0x400u64 & 0x8000_0000 == 0)
        by (bit_vector);
    assert(0x1_0000u64 & 0x2_0000 == 0 && 0x1_0000u64 & 0x8_0000 == 0 && 0x1_0000u64 & 0x10_0000
        == 0 && 0x1_0000u64 & 0x80_0000 == 0 && 0x1_0000u64 & 0x100_0000 == 0 && 0x1_0000u64
        & 0x1000_0000 == 0 && 0x1_0000u64 & 0x2000_0000 == 0 && 0x1_0000u64 & 0x4000_0000 == 0
        && 0x1_0000u64 & 0x8000_0000 == 0 && 0x2_0000u64 & 0x8_0000 == 0 && 0x2_0000u64
        & 0x10_0000 == 0 && 0x2_0000u64 & 0x80_0000 == 0 && 0x2_0000u64 & 0x100_0000 == 0
        && 0x2_0000u64 & 0x1000_0000 == 0 && 0x2_0000u64 & 0x2000_0000 == 0 && 0x2_0000u64
        & 0x4000_0000 == 0 && 0x2_0000u64 & 0x8000_0000 == 0 && 0x8_0000u64 & 0x10_0000 == 0
        && 0x8_0000u64 & 0x80_0000 == 0 && 0x8_0000u64 & 0x100_0000 == 0 && 0x8_0000u64
        & 0x1000_0000 == 0 && 0x8_0000u64 & 0x2000_0000 == 0 && 0x8_0000u64 & 0x4000_0000 == 0
        && 0x8_0000u64 & 0x8000_0000 == 0 && 0x10_0000u64 & 0x80_0000 == 0 && 0x10_0000u64
        & 0x100_0000 == 0 && 0x10_0000u64 & 0x1000_0000 == 0 && 0x10_0000u64 & 0x2000_0000 == 0
        && 0x10_0000u64 & 0x4000_0000 == 0 && 0x10_0000u64 & 0x8000_0000 == 0) by (bit_vector);
    assert(0x80_0000u64 & 0x100_0000 == 0 && 0x80_0000u64 & 0x1000_0000 == 0 && 0x80_0000u64
        & 0x2000_0000 == 0 && 0x80_0000u64 & 0x4000_0000 == 0 && 0x80_0000u64 & 0x8000_0000 == 0
        && 0x100_0000u64 & 0x1000_0000 == 0 && 0x100_0000u64 & 0x2000_0000 == 0 && 0x100_0000u64
        & 0x4000_0000 == 0 && 0x100_0000u64 & 0x8000_0000 == 0 && 0x1000_0000u64 & 0x2000_0000
        == 0 && 0x1000_0000u64 & 0x4000_0000 == 0 && 0x1000_0000u64 & 0x8000_0000 == 0
        && 0x2000_0000u64 & 0x4000_0000 == 0 && 0x2000_0000u64 & 0x8000_0000 == 0
        && 0x4000_0000u64 & 0x8000_0000 == 0) by (bit_vector);
}

/// Putting a command off, or superseding one, raises its flag, counts one event
/// of its kind, and changes nothing else.
pub proof fn structural_events_are_counted(s: RtStatusFlags)
    ensures
        ({
            let a = s.with_deferral();
            &&& a.has(RT_STATUS_STRUCTURAL_DEFERRED)
            &&& a.structural_deferred_total as int == (s.structural_deferred_total + 1)
                % 0x1_0000_0000
            &&& a == RtStatusFlags {
                status_bits: a.status_bits,
                structural_deferred_total: a.structural_deferred_total,
                ..s
            }
        }),
        ({
            let a = s.with_supersession();
            &&& a.has(RT_STATUS_STRUCTURAL_SUPERSEDED)
            &&& a.structural_superseded_total as int == (s.structural_superseded_total + 1)
                % 0x1_0000_0000
            &&& a == RtStatusFlags {
                status_bits: a.status_bits,
                structural_superseded_total: a.structural_superseded_total,
                ..s
            }
        }),
{
    set_flag_is_local(s.status_bits, RT_STATUS_STRUCTURAL_DEFERRED, RT_STATUS_STRUCTURAL_DEFERRED);
    set_flag_is_local(
        s.status_bits,
        RT_STATUS_STRUCTURAL_SUPERSEDED,
        RT_STATUS_STRUCTURAL_SUPERSEDED,
    );
}

/// At the start no flag is up and no request is open.
pub proof fn nothing_is_asked_for_at_the_start(flag: u64)
    ensures
        ({
            let s = RtStatusFlags::initial();
            &&& !s.has(flag)
            &&& s.requested_rate_generation == s.applied_rate_generation
            &&& s.requested_cabsim_generation == s.applied_cabsim_generation
            &&& s.requested_os_generation == s.applied_os_generation
            &&& s.resampler_failed_generation == 0
        }),
{
    assert(0u64 & flag == 0) by (bit_vector);
}

} // verus!
