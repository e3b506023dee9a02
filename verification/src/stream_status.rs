//! Latches and measurements of the two audio streams.

use vstd::prelude::*;

use crate::rt_status::{RtStatusFlags, RT_STATUS_HOST_CONTRACT_VIOLATION};
use crate::text::same_text;

verus! {

/// A reading of a stream's clock.
#[derive(Clone, Copy, Debug, PartialEq, Eq, Structural)]
pub struct HostClock {
    /// When it was read, in nanoseconds.
    pub now: i64,
    /// The stream's position.
    pub ticks: u64,
    /// The delay to the hardware, in ticks.
    pub delay: i64,
}

/// One consistent reading of the stream latches and measurements. A latch is
/// down at zero and up at any other number.
#[derive(Clone, Copy, Debug, PartialEq, Eq, Structural)]
pub struct StreamStatusFlags {
    /// Duration of the last timed capture callback up to the DSP, in
    /// nanoseconds.
    pub capture_cycle_time: u64,
    /// Duration of the last timed hand-over to the recorder, in nanoseconds.
    pub record_cycle_time: u64,
    /// Duration of the last timed playback callback, in nanoseconds.
    pub playback_cycle_time: u64,
    /// Time from capture to playback, in nanoseconds.
    pub e2e_cycle_time: u64,
    /// When the last timed capture callback began, in nanoseconds.
    pub capture_start_tsc: u64,
    /// Silent blocks played because there was nothing to play.
    pub playback_bridge_starvation: u32,
    /// Rate of the capture stream; zero before its first negotiation.
    pub capture_negotiated_rate: u32,
    /// Rate of the playback stream; zero before its first negotiation.
    pub playback_negotiated_rate: u32,
    /// Whether the capture stream's format is the agreed one.
    pub capture_format_ok: u32,
    /// Whether the playback stream's format is the agreed one.
    pub playback_format_ok: u32,
    /// Whether the capture stream is streaming.
    pub capture_active: u32,
    /// Whether the playback stream is streaming.
    pub playback_active: u32,
    /// Whether both formats are the agreed ones.
    pub format_contract_ok: u32,
    /// The capture stream's clock when last sampled.
    pub capture_clock: HostClock,
    /// The playback stream's clock when last sampled.
    pub playback_clock: HostClock,
}

/// The number that a latch holds when up, or when down.
pub open spec fn latch(up: bool) -> u32 {
    if up {
        1
    } else {
        0
    }
}

impl StreamStatusFlags {
    /// Every latch up, nothing measured.
    pub open spec fn initial() -> StreamStatusFlags {
        StreamStatusFlags {
            capture_cycle_time: 0,
            record_cycle_time: 0,
            playback_cycle_time: 0,
            e2e_cycle_time: 0,
            capture_start_tsc: 0,
            playback_bridge_starvation: 0,
            capture_negotiated_rate: 0,
            playback_negotiated_rate: 0,
            capture_format_ok: 1,
            playback_format_ok: 1,
            capture_active: 1,
            playback_active: 1,
            format_contract_ok: 1,
            capture_clock: HostClock { now: 0, ticks: 0, delay: 0 },
            playback_clock: HostClock { now: 0, ticks: 0, delay: 0 },
        }
    }

    /// Whether audio goes through: both formats as agreed, both streams active.
    pub open spec fn unmuted(self) -> bool {
        &&& self.capture_format_ok != 0
        &&& self.playback_format_ok != 0
        &&& self.capture_active != 0
        &&& self.playback_active != 0
    }

    /// Every latch up, nothing measured.
    pub fn new() -> (r: Self)
        ensures
            r == StreamStatusFlags::initial(),
    {
        StreamStatusFlags {
            capture_cycle_time: 0,
            record_cycle_time: 0,
            playback_cycle_time: 0,
            e2e_cycle_time: 0,
            capture_start_tsc: 0,
            playback_bridge_starvation: 0,
            capture_negotiated_rate: 0,
            playback_negotiated_rate: 0,
            capture_format_ok: 1,
            playback_format_ok: 1,
            capture_active: 1,
            playback_active: 1,
            format_contract_ok: 1,
            capture_clock: HostClock { now: 0, ticks: 0, delay: 0 },
            playback_clock: HostClock { now: 0, ticks: 0, delay: 0 },
        }
    }

    /// Whether audio goes through: both formats as agreed, both streams active.
    pub fn is_audio_unmuted(&self) -> (r: bool)
        ensures
            r == self.unmuted(),
    {
        self.capture_format_ok != 0 && self.playback_format_ok != 0 && self.capture_active != 0
            && self.playback_active != 0
    }
}

impl Default for StreamStatusFlags {
    fn default() -> (r: Self)
        ensures
            r == StreamStatusFlags::initial(),
    {
        StreamStatusFlags::new()
    }
}

/// Whether the name is that of the capture stream.
pub open spec fn is_capture(name: Seq<char>) -> bool {
    name == "capture"@
}

/// Whether the name is that of the playback stream.
pub open spec fn is_playback(name: Seq<char>) -> bool {
    name == "playback"@ && name != "capture"@
}

/// The latches with the named stream's format latch set; another name sets
/// none.
pub open spec fn with_format(s: StreamStatusFlags, name: Seq<char>, ok: bool) -> StreamStatusFlags {
    if is_capture(name) {
        StreamStatusFlags { capture_format_ok: latch(ok), ..s }
    } else if is_playback(name) {
        StreamStatusFlags { playback_format_ok: latch(ok), ..s }
    } else {
        s
    }
}

/// The latches with the named stream's activity latch set; another name sets
/// none.
pub open spec fn with_active(
    s: StreamStatusFlags,
    name: Seq<char>,
    active: bool,
) -> StreamStatusFlags {
    if is_capture(name) {
        StreamStatusFlags { capture_active: latch(active), ..s }
    } else if is_playback(name) {
        StreamStatusFlags { playback_active: latch(active), ..s }
    } else {
        s
    }
}

/// The latches after the named stream's format was accepted.
pub open spec fn format_accepted(s: StreamStatusFlags, name: Seq<char>) -> StreamStatusFlags {
    let t = with_format(s, name, true);
    StreamStatusFlags {
        format_contract_ok: latch(t.capture_format_ok != 0 && t.playback_format_ok != 0),
        ..t
    }
}

/// The latches after the named stream's format was rejected.
pub open spec fn format_rejected(s: StreamStatusFlags, name: Seq<char>) -> StreamStatusFlags {
    StreamStatusFlags { format_contract_ok: 0, ..with_format(s, name, false) }
}

/// The measurements with the named stream's clock taken down.
pub open spec fn with_clock(
    s: StreamStatusFlags,
    name: Seq<char>,
    clock: HostClock,
) -> StreamStatusFlags {
    if is_capture(name) {
        StreamStatusFlags { capture_clock: clock, ..s }
    } else if is_playback(name) {
        StreamStatusFlags { playback_clock: clock, ..s }
    } else {
        s
    }
}

/// Takes down the named stream's clock.
pub fn note_stream_clock(streams: &mut StreamStatusFlags, stream_name: &str, clock: HostClock)
    ensures
        *final(streams) == with_clock(*old(streams), stream_name@, clock),
{
    if same_text(stream_name, "capture") {
        streams.capture_clock = clock;
    } else if same_text(stream_name, "playback") {
        streams.playback_clock = clock;
    }
}

/// Raises the named stream's format latch; the joint latch follows both.
pub fn mark_format_contract_ok(streams: &mut StreamStatusFlags, stream_name: &str)
    ensures
        *final(streams) == format_accepted(*old(streams), stream_name@),
{
    if same_text(stream_name, "capture") {
        streams.capture_format_ok = 1;
    } else if same_text(stream_name, "playback") {
        streams.playback_format_ok = 1;
    }
    streams.format_contract_ok = if streams.capture_format_ok != 0 && streams.playback_format_ok
        != 0 {
        1
    } else {
        0
    };
}

/// Lowers the named stream's format latch and the joint one, and reports the
/// host's breach.
pub fn reject_negotiated_format_violation(
    status: &mut RtStatusFlags,
    streams: &mut StreamStatusFlags,
    stream_name: &str,
)
    ensures
        *final(status) == old(status).with_flag(RT_STATUS_HOST_CONTRACT_VIOLATION),
        *final(streams) == format_rejected(*old(streams), stream_name@),
{
    status.set_flag(RT_STATUS_HOST_CONTRACT_VIOLATION);
    if same_text(stream_name, "capture") {
        streams.capture_format_ok = 0;
    } else if same_text(stream_name, "playback") {
        streams.playback_format_ok = 0;
    }
    streams.format_contract_ok = 0;
}

/// Sets the named stream's activity latch.
pub fn mark_stream_active(streams: &mut StreamStatusFlags, stream_name: &str, active: bool)
    ensures
        *final(streams) == with_active(*old(streams), stream_name@, active),
{
    let value: u32 = if active {
        1
    } else {
        0
    };
    if same_text(stream_name, "capture") {
        streams.capture_active = value;
    } else if same_text(stream_name, "playback") {
        streams.playback_active = value;
    }
}

/// The two negotiated rates, where both are known and they differ.
pub fn negotiated_rate_mismatch(streams: &StreamStatusFlags) -> (r: Option<(u32, u32)>)
    ensures
        r == (if streams.capture_negotiated_rate != 0 && streams.playback_negotiated_rate != 0
            && streams.capture_negotiated_rate != streams.playback_negotiated_rate {
            Some((streams.capture_negotiated_rate, streams.playback_negotiated_rate))
        } else {
            None
        }),
{
    let capture: u32 = streams.capture_negotiated_rate;
    let playback: u32 = streams.playback_negotiated_rate;
    if capture != 0 && playback != 0 && capture != playback {
        Some((capture, playback))
    } else {
        None
    }
}

/// A rejected format mutes until the same stream's format is accepted: nothing
/// that happens to the other stream, and no activity, lets audio through.
pub proof fn rejected_format_mutes(s: StreamStatusFlags, active: bool)
    ensures
        !format_rejected(s, "capture"@).unmuted(),
        !format_rejected(s, "playback"@).unmuted(),
        !with_active(
            format_accepted(format_rejected(s, "capture"@), "playback"@),
            "capture"@,
            active,
        ).unmuted(),
        !with_active(
            format_accepted(format_rejected(s, "playback"@), "capture"@),
            "playback"@,
            active,
        ).unmuted(),
{
    names_differ();
}

/// An inactive stream mutes, whatever the formats.
pub proof fn inactive_stream_mutes(s: StreamStatusFlags)
    ensures
        !with_active(s, "capture"@, false).unmuted(),
        !with_active(s, "playback"@, false).unmuted(),
{
    names_differ();
}

/// The two stream names are not the same text.
pub proof fn names_differ()
    ensures
        "capture"@ != "playback"@,
{
    reveal_strlit("capture");
    reveal_strlit("playback");
    assert("capture"@.len() != "playback"@.len());
}

/// Audio goes through exactly where both formats are the agreed ones and both
/// streams are active; each latch alone mutes.
pub proof fn every_latch_mutes(s: StreamStatusFlags)
    ensures
        s.unmuted() ==> s.capture_format_ok != 0 && s.playback_format_ok != 0 && s.capture_active
            != 0 && s.playback_active != 0,
        !s.unmuted() ==> s.capture_format_ok == 0 || s.playback_format_ok == 0 || s.capture_active
            == 0 || s.playback_active == 0,
        StreamStatusFlags::initial().unmuted(),
        StreamStatusFlags::initial().capture_negotiated_rate == 0,
        StreamStatusFlags::initial().playback_negotiated_rate == 0,
{
}

/// An accepted or rejected format sets the latch of its own stream and no other,
/// and the joint latch is up exactly where both are.
pub proof fn format_latches_follow_their_streams(s: StreamStatusFlags)
    ensures
        ({
            let t = format_accepted(s, "capture"@);
            &&& t.capture_format_ok != 0
            &&& t.format_contract_ok != 0 <==> t.capture_format_ok != 0 && t.playback_format_ok
                != 0
            &&& t == StreamStatusFlags {
                capture_format_ok: t.capture_format_ok,
                format_contract_ok: t.format_contract_ok,
                ..s
            }
        }),
        ({
            let t = format_accepted(s, "playback"@);
            &&& t.playback_format_ok != 0
            &&& t.format_contract_ok != 0 <==> t.capture_format_ok != 0 && t.playback_format_ok
                != 0
            &&& t == StreamStatusFlags {
                playback_format_ok: t.playback_format_ok,
                format_contract_ok: t.format_contract_ok,
                ..s
            }
        }),
        format_rejected(s, "capture"@) == (StreamStatusFlags {
            capture_format_ok: 0,
            format_contract_ok: 0,
            ..s
        }),
        format_rejected(s, "playback"@) == (StreamStatusFlags {
            playback_format_ok: 0,
            format_contract_ok: 0,
            ..s
        }),
{
    names_differ();
}

/// A stream's activity and clock are its own: setting them for one stream leaves
/// the other's as they are, and any other name sets nothing.
pub proof fn streams_do_not_disturb_each_other(
    s: StreamStatusFlags,
    name: Seq<char>,
    active: bool,
    clock: HostClock,
)
    ensures
        ({
            let t = with_active(s, "capture"@, active);
            &&& (t.capture_active != 0) == active
            &&& t == StreamStatusFlags { capture_active: t.capture_active, ..s }
        }),
        ({
            let t = with_active(s, "playback"@, active);
            &&& (t.playback_active != 0) == active
            &&& t == StreamStatusFlags { playback_active: t.playback_active, ..s }
        }),
        with_clock(s, "capture"@, clock) == (StreamStatusFlags { capture_clock: clock, ..s }),
        with_clock(s, "playback"@, clock) == (StreamStatusFlags { playback_clock: clock, ..s }),
        name != "capture"@ && name != "playback"@ ==> with_active(s, name, active) == s
            && with_clock(s, name, clock) == s,
        is_capture(name) <==> name == "capture"@,
        is_playback(name) <==> name == "playback"@,
{
    names_differ();
}

} // verus!
