//! Format negotiation with the audio server.
//!
//! Both streams work with planar 32-bit float stereo, front left before front
//! right, and with nothing else.

use vstd::prelude::*;
use vstd::string::*;

use crate::rt_status::{RtStatusFlags, RT_STATUS_HOST_CONTRACT_VIOLATION};
use crate::status::{BackendState, BackendView, SharedBackendStatus};
use crate::stream_status::{
    format_accepted, format_rejected, is_capture, is_playback, mark_format_contract_ok,
    names_differ, negotiated_rate_mismatch, reject_negotiated_format_violation,
    StreamStatusFlags,
};
use crate::text::{append_decimal, decimal, same_text};

verus! {

/// The audio server's number for the front left channel.
pub const SPA_AUDIO_CHANNEL_FL: u32 = 3;

/// The audio server's number for the front right channel.
pub const SPA_AUDIO_CHANNEL_FR: u32 = 4;

/// Rate in which block sizes are announced as latencies.
pub const LATENCY_RATE: u32 = 48_000;

/// How samples are laid out.
#[derive(Clone, Copy, Debug, PartialEq, Eq, Structural)]
pub enum SampleFormat {
    /// Planar 32-bit float.
    F32Planar,
    /// Another layout, under the audio server's number for it.
    Other(u32),
}

/// A raw audio format as the audio server announced it.
#[derive(Clone, Debug, PartialEq, Eq)]
pub struct AudioInfo {
    /// Sample layout.
    pub format: SampleFormat,
    /// Frames per second.
    pub rate: u32,
    /// Channels.
    pub channels: u32,
    /// The channels' positions.
    pub position: Vec<u32>,
}

/// What is wrong with a negotiated format.
#[derive(Clone, Copy, Debug, PartialEq, Eq, Structural)]
pub enum ContractViolation {
    /// It is no raw audio format.
    NotAudioRaw,
    /// The samples are not planar 32-bit floats.
    NotF32Planar(SampleFormat),
    /// There are not two channels, but so many.
    NotStereo(u32),
    /// The channels are not front left and front right, but these.
    InvalidChannelPositions {
        /// First channel.
        ch0: u32,
        /// Second channel.
        ch1: u32,
    },
}

/// The position of a channel; zero where none was announced.
pub open spec fn position_at(position: Seq<u32>, i: int) -> u32 {
    if i < position.len() {
        position[i]
    } else {
        0
    }
}

/// The verdict on a raw audio format: its rate, or the first thing wrong.
pub open spec fn format_verdict(
    format: SampleFormat,
    rate: u32,
    channels: u32,
    position: Seq<u32>,
) -> Result<u32, ContractViolation> {
    if format != SampleFormat::F32Planar {
        Err(ContractViolation::NotF32Planar(format))
    } else if channels != 2 {
        Err(ContractViolation::NotStereo(channels))
    } else if position.len() < 2 || position[0] != SPA_AUDIO_CHANNEL_FL || position[1]
        != SPA_AUDIO_CHANNEL_FR {
        Err(
            ContractViolation::InvalidChannelPositions {
                ch0: position_at(position, 0),
                ch1: position_at(position, 1),
            },
        )
    } else {
        Ok(rate)
    }
}

/// Checks a negotiated format; `None` stands for one that is no raw audio
/// format. Returns the rate.
pub fn validate_audio_raw_format(info: Option<&AudioInfo>) -> (r: Result<u32, ContractViolation>)
    ensures
        r == (match info {
            None => Err::<u32, ContractViolation>(ContractViolation::NotAudioRaw),
            Some(i) => format_verdict(i.format, i.rate, i.channels, i.position@),
        }),
{
    let i = match info {
        Some(i) => i,
        None => {
            return Err(ContractViolation::NotAudioRaw);
        },
    };
    if i.format != SampleFormat::F32Planar {
        return Err(ContractViolation::NotF32Planar(i.format));
    }
    if i.channels != 2 {
        return Err(ContractViolation::NotStereo(i.channels));
    }
    let known: usize = i.position.len();
    let ch0: u32 = if known > 0 {
        i.position[0]
    } else {
        0
    };
    let ch1: u32 = if known > 1 {
        i.position[1]
    } else {
        0
    };
    if known < 2 || ch0 != SPA_AUDIO_CHANNEL_FL || ch1 != SPA_AUDIO_CHANNEL_FR {
        return Err(ContractViolation::InvalidChannelPositions { ch0, ch1 });
    }
    Ok(i.rate)
}

/// The message for a violation, `format_name` being what the audio server calls
/// the sample layout.
pub open spec fn violation_message(v: ContractViolation, format_name: Seq<char>) -> Seq<char> {
    match v {
        ContractViolation::NotAudioRaw => "not an Audio/Raw SPA format"@,
        ContractViolation::NotF32Planar(_) => "sample format is "@ + format_name
            + " (contract requires F32P planar)"@,
        ContractViolation::NotStereo(got) => "channel count is "@ + decimal(got as nat)
            + " (contract requires 2 stereo channels)"@,
        ContractViolation::InvalidChannelPositions { ch0, ch1 } => "channel positions are [ch0="@
            + decimal(ch0 as nat) + ", ch1="@ + decimal(ch1 as nat)
            + "] (contract requires FL at ch0 and FR at ch1)"@,
    }
}

impl ContractViolation {
    /// The message, `format_name` being what the audio server calls the sample
    /// layout.
    pub fn message(&self, format_name: &str) -> (r: String)
        ensures
            r@ == violation_message(*self, format_name@),
    {
        match *self {
            ContractViolation::NotAudioRaw => "not an Audio/Raw SPA format".to_owned(),
            ContractViolation::NotF32Planar(_) => {
                let mut out = "sample format is ".to_owned();
                out.append(format_name);
                out.append(" (contract requires F32P planar)");
                out
            },
            ContractViolation::NotStereo(got) => {
                let mut out = "channel count is ".to_owned();
                append_decimal(&mut out, got as u64);
                out.append(" (contract requires 2 stereo channels)");
                out
            },
            ContractViolation::InvalidChannelPositions { ch0, ch1 } => {
                let mut out = "channel positions are [ch0=".to_owned();
                append_decimal(&mut out, ch0 as u64);
                out.append(", ch1=");
                append_decimal(&mut out, ch1 as u64);
                out.append("] (contract requires FL at ch0 and FR at ch1)");
                out
            },
        }
    }
}

/// The latches with the named stream's negotiated rate set.
pub open spec fn with_rate(s: StreamStatusFlags, name: Seq<char>, rate: u32) -> StreamStatusFlags {
    if is_capture(name) {
        StreamStatusFlags { capture_negotiated_rate: rate, ..s }
    } else if is_playback(name) {
        StreamStatusFlags { playback_negotiated_rate: rate, ..s }
    } else {
        s
    }
}

/// The reason given when a stream's format is not the agreed one.
pub open spec fn degraded_reason(name: Seq<char>, message: Seq<char>) -> Seq<char> {
    "SPA format contract violated on the "@ + name + " stream: "@ + message
}

/// The backend after a format was accepted: degraded for a format before, it
/// runs again once both formats are the agreed ones.
pub open spec fn backend_after_acceptance(
    v: BackendView,
    streams: StreamStatusFlags,
) -> BackendView {
    if v.state is Degraded && streams.format_contract_ok != 0 {
        v.running()
    } else {
        v
    }
}

/// What a negotiation leads to.
#[derive(Clone, Copy, Debug, PartialEq, Eq)]
pub struct Negotiated {
    /// Whether the format was accepted.
    pub accepted: bool,
    /// The two rates, where they are known and differ.
    pub rate_mismatch: Option<(u32, u32)>,
    /// Whether the control plane is to be woken.
    pub wake: bool,
}

/// Whether a negotiation of the named stream's format may lead from the first
/// of each two values to the second, with the result `r`.
pub open spec fn negotiation_outcome(
    name: Seq<char>,
    verdict: Result<u32, ContractViolation>,
    format_name: Seq<char>,
    target_rates: (u32, u32),
    statuses: (RtStatusFlags, RtStatusFlags),
    latches: (StreamStatusFlags, StreamStatusFlags),
    backends: (BackendView, BackendView),
    r: Negotiated,
) -> bool {
    &&& r.accepted == (verdict is Ok)
    &&& match verdict {
        Ok(rate) => {
            &&& statuses.1 == statuses.0
            &&& latches.1 == format_accepted(with_rate(latches.0, name, rate), name)
            &&& target_rates.1 == if is_capture(name) {
                rate
            } else {
                target_rates.0
            }
            &&& backends.1 == backend_after_acceptance(backends.0, latches.1)
            &&& r.rate_mismatch == (if latches.1.capture_negotiated_rate != 0
                && latches.1.playback_negotiated_rate != 0 && latches.1.capture_negotiated_rate
                != latches.1.playback_negotiated_rate {
                Some((latches.1.capture_negotiated_rate, latches.1.playback_negotiated_rate))
            } else {
                None
            })
            &&& r.wake == (is_playback(name) || (backends.0.state is Degraded
                && !backends.0.failed && latches.1.format_contract_ok != 0))
        },
        Err(v) => {
            &&& statuses.1 == statuses.0.with_flag(RT_STATUS_HOST_CONTRACT_VIOLATION)
            &&& latches.1 == format_rejected(latches.0, name)
            &&& target_rates.1 == target_rates.0
            &&& backends.1 == backends.0.degraded(
                degraded_reason(name, violation_message(v, format_name)),
            )
            &&& r.rate_mismatch is None
            &&& r.wake == !backends.0.failed
        },
    }
}

/// Takes down the negotiated format of the capture stream. The agreed format is
/// recorded with its rate, which goes to the callback through `target_rate`; any
/// other mutes, and degrades the backend.
pub fn param_changed_handler(
    verdict: Result<u32, ContractViolation>,
    format_name: &str,
    target_rate: &mut u32,
    status: &mut RtStatusFlags,
    streams: &mut StreamStatusFlags,
    backend: &mut SharedBackendStatus,
) -> (r: Negotiated)
    ensures
        negotiation_outcome(
            "capture"@,
            verdict,
            format_name@,
            (*old(target_rate), *final(target_rate)),
            (*old(status), *final(status)),
            (*old(streams), *final(streams)),
            (old(backend)@, final(backend)@),
            r,
        ),
        old(backend)@.coherent() ==> final(backend)@.coherent(),
{
    negotiate_format("capture", verdict, format_name, target_rate, status, streams, backend)
}

/// Takes down the negotiated format of the playback stream. The agreed format is
/// recorded with its rate, and the control plane is woken; any other mutes, and
/// degrades the backend.
pub fn playback_param_changed_handler(
    verdict: Result<u32, ContractViolation>,
    format_name: &str,
    status: &mut RtStatusFlags,
    streams: &mut StreamStatusFlags,
    backend: &mut SharedBackendStatus,
) -> (r: Negotiated)
    ensures
        negotiation_outcome(
            "playback"@,
            verdict,
            format_name@,
            (0, 0),
            (*old(status), *final(status)),
            (*old(streams), *final(streams)),
            (old(backend)@, final(backend)@),
            r,
        ),
        old(backend)@.coherent() ==> final(backend)@.coherent(),
{
    let mut no_rate: u32 = 0;
    proof {
        names_differ();
    }
    negotiate_format("playback", verdict, format_name, &mut no_rate, status, streams, backend)
}

/// Takes down the negotiated format of the named stream.
fn negotiate_format(
    stream_name: &str,
    verdict: Result<u32, ContractViolation>,
    format_name: &str,
    target_rate: &mut u32,
    status: &mut RtStatusFlags,
    streams: &mut StreamStatusFlags,
    backend: &mut SharedBackendStatus,
) -> (r: Negotiated)
    ensures
        negotiation_outcome(
            stream_name@,
            verdict,
            format_name@,
            (*old(target_rate), *final(target_rate)),
            (*old(status), *final(status)),
            (*old(streams), *final(streams)),
            (old(backend)@, final(backend)@),
            r,
        ),
        old(backend)@.coherent() ==> final(backend)@.coherent(),
{
    match verdict {
        Ok(rate) => {
            let mut wake = false;
            if same_text(stream_name, "capture") {
                *target_rate = rate;
                streams.capture_negotiated_rate = rate;
            } else if same_text(stream_name, "playback") {
                streams.playback_negotiated_rate = rate;
                wake = true;
            }
            mark_format_contract_ok(streams, stream_name);
            let was_degraded = match backend.state() {
                BackendState::Degraded { .. } => true,
                _ => false,
            };
            if was_degraded && streams.format_contract_ok != 0 {
                let restored = backend.mark_running();
                wake = wake || restored;
            }
            Negotiated { accepted: true, rate_mismatch: negotiated_rate_mismatch(streams), wake }
        },
        Err(violation) => {
            let message = violation.message(format_name);
            reject_negotiated_format_violation(status, streams, stream_name);
            let mut reason = "SPA format contract violated on the ".to_owned();
            reason.append(stream_name);
            reason.append(" stream: ");
            reason.append(message.as_str());
            let wake = backend.mark_degraded(reason);
            Negotiated { accepted: false, rate_mismatch: None, wake }
        },
    }
}

/// The latency that a block size is announced as, if one is set: so many
/// frames at 48 kHz.
pub fn latency_property(buffer_size: u32) -> (r: Option<String>)
    ensures
        match r {
            Some(s) => buffer_size > 0 && s@ == decimal(buffer_size as nat) + "/48000"@,
            None => buffer_size == 0,
        },
{
    if buffer_size == 0 {
        return None;
    }
    let mut out = String::new();
    append_decimal(&mut out, buffer_size as u64);
    out.append("/48000");
    assert(out@ =~= decimal(buffer_size as nat) + "/48000"@);
    Some(out)
}

/// A format is accepted exactly where its samples are planar 32-bit floats in
/// two channels, front left before front right; the rate is then the announced
/// one. Otherwise the first thing wrong is named, with what was found.
pub proof fn only_the_agreed_format_is_accepted(
    format: SampleFormat,
    rate: u32,
    channels: u32,
    position: Seq<u32>,
)
    ensures
        ({
            let verdict = format_verdict(format, rate, channels, position);
            &&& verdict is Ok <==> format is F32Planar && channels == 2 && position.len() >= 2
                && position[0] == 3 && position[1] == 4
            &&& verdict is Ok ==> verdict->Ok_0 == rate
            &&& !(format is F32Planar) ==> verdict == Err::<u32, ContractViolation>(
                ContractViolation::NotF32Planar(format),
            )
            &&& format is F32Planar && channels != 2 ==> verdict == Err::<u32, ContractViolation>(
                ContractViolation::NotStereo(channels),
            )
            &&& verdict is Err && format is F32Planar && channels == 2 && position.len() >= 2
                ==> verdict == Err::<u32, ContractViolation>(
                ContractViolation::InvalidChannelPositions { ch0: position[0], ch1: position[1] },
            )
        }),
{
}

/// An accepted format is taken down with its rate for its own stream, and only
/// the capture stream passes the rate on to the callback; a rejected one keeps
/// all rates, mutes, and is reported with the stream's name.
pub proof fn negotiation_is_taken_down(
    name: Seq<char>,
    verdict: Result<u32, ContractViolation>,
    format_name: Seq<char>,
    target_rates: (u32, u32),
    statuses: (RtStatusFlags, RtStatusFlags),
    latches: (StreamStatusFlags, StreamStatusFlags),
    backends: (BackendView, BackendView),
    r: Negotiated,
)
    requires
        name == "capture"@ || name == "playback"@,
        negotiation_outcome(
            name,
            verdict,
            format_name,
            target_rates,
            statuses,
            latches,
            backends,
            r,
        ),
    ensures
        match verdict {
            Ok(rate) => {
                &&& name == "capture"@ ==> target_rates.1 == rate
                    && latches.1.capture_negotiated_rate == rate && latches.1.capture_format_ok
                    != 0 && latches.1.playback_negotiated_rate
                    == latches.0.playback_negotiated_rate && latches.1.playback_format_ok
                    == latches.0.playback_format_ok
                &&& name == "playback"@ ==> target_rates.1 == target_rates.0
                    && latches.1.playback_negotiated_rate == rate && latches.1.playback_format_ok
                    != 0 && latches.1.capture_negotiated_rate
                    == latches.0.capture_negotiated_rate && latches.1.capture_format_ok
                    == latches.0.capture_format_ok && r.wake
                &&& latches.1.format_contract_ok != 0 <==> latches.1.capture_format_ok != 0
                    && latches.1.playback_format_ok != 0
                &&& statuses.1 == statuses.0
                &&& backends.0.state is Degraded && !backends.0.failed
                    && latches.1.format_contract_ok != 0 ==> backends.1.state is Running && r.wake
                &&& !(backends.0.state is Degraded) || backends.0.failed ==> backends.1
                    == backends.0
                &&& r.rate_mismatch matches Some(m) ==> m.0 != m.1 && m.0 != 0 && m.1 != 0 && m
                    == (latches.1.capture_negotiated_rate, latches.1.playback_negotiated_rate)
                &&& r.rate_mismatch is None ==> latches.1.capture_negotiated_rate == 0
                    || latches.1.playback_negotiated_rate == 0
                    || latches.1.capture_negotiated_rate == latches.1.playback_negotiated_rate
            },
            Err(_) => {
                &&& !latches.1.unmuted() && latches.1.format_contract_ok == 0
                &&& target_rates.1 == target_rates.0
                &&& latches.1.capture_negotiated_rate == latches.0.capture_negotiated_rate
                &&& latches.1.playback_negotiated_rate == latches.0.playback_negotiated_rate
                &&& statuses.1.has(RT_STATUS_HOST_CONTRACT_VIOLATION)
                &&& !backends.0.failed ==> backends.1.state is Degraded && r.wake
                &&& backends.0.failed ==> backends.1 == backends.0 && !r.wake
            },
        },
        r.accepted <==> verdict is Ok,
{
    names_differ();
    crate::rt_status::set_flag_is_local(
        statuses.0.status_bits,
        RT_STATUS_HOST_CONTRACT_VIOLATION,
        RT_STATUS_HOST_CONTRACT_VIOLATION,
    );
}

/// A refusal says what was found: the layout's name, the channel count, or both
/// positions, as they are.
pub proof fn refusals_say_what_was_found(got: u32, ch: (u32, u32), format_name: Seq<char>)
    ensures
        shows(
            violation_message(ContractViolation::NotStereo(got), format_name),
            decimal(got as nat),
        ),
        shows(
            violation_message(
                ContractViolation::NotF32Planar(SampleFormat::Other(got)),
                format_name,
            ),
            format_name,
        ),
        ({
            let s = violation_message(
                ContractViolation::InvalidChannelPositions { ch0: ch.0, ch1: ch.1 },
                format_name,
            );
            shows(s, decimal(ch.0 as nat)) && shows(s, decimal(ch.1 as nat))
        }),
{
    let c = "channel positions are [ch0="@;
    let d = ", ch1="@;
    let (x, y) = (decimal(ch.0 as nat), decimal(ch.1 as nat));
    let u = violation_message(
        ContractViolation::InvalidChannelPositions { ch0: ch.0, ch1: ch.1 },
        format_name,
    );
    let from = (c.len() + x.len() + d.len()) as int;
    assert(u.subrange(c.len() as int, (c.len() + x.len()) as int) =~= x);
    assert(u.subrange(from, from + y.len()) =~= y);
    let a = "channel count is "@;
    let n = decimal(got as nat);
    let s = violation_message(ContractViolation::NotStereo(got), format_name);
    assert(s.subrange(a.len() as int, (a.len() + n.len()) as int) =~= n);
    let b = "sample format is "@;
    let t = violation_message(
        ContractViolation::NotF32Planar(SampleFormat::Other(got)),
        format_name,
    );
    assert(t.subrange(b.len() as int, (b.len() + format_name.len()) as int) =~= format_name);
}

/// Whether a text holds another.
pub open spec fn shows(text: Seq<char>, part: Seq<char>) -> bool {
    exists|i: int, j: int| 0 <= i <= j <= text.len() && #[trigger] text.subrange(i, j) == part
}

} // verus!
