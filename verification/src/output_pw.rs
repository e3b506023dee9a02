//! The playback callback: what is handed to the hardware.

use vstd::prelude::*;

use crate::process::{
    descriptors_fit, elapsed, handle_spa_pair_fail_closed, silence_spa_channels, silenced_bytes,
    HostBuffer, SpaDescriptor, MAX_BRIDGE_BUF, MAX_CHANNEL_BYTES, SAMPLE_BYTES,
};
use crate::rt_status::{
    comes_round, next_count, RtStatusFlags, RT_STATUS_HOST_CONTRACT_VIOLATION,
};
use crate::stream_status::StreamStatusFlags;

verus! {

/// Frames of a silent block while no block size is known.
pub const DEFAULT_SILENCE_FRAMES: u32 = 128;

/// What the playback callback does with the buffer it dequeued. Every region
/// that gets frames has its chunk header stamped with offset 0, their size in
/// bytes and a stride of one sample.
#[derive(Clone, Copy, Debug, PartialEq, Eq, Structural)]
pub enum PlaybackVerdict {
    /// There was none.
    NoBuffer,
    /// It is not stereo: silence every region it has.
    SilenceAvailable,
    /// It must not be used: zero so many bytes of each channel.
    Silence {
        /// Left channel.
        left: usize,
        /// Right channel.
        right: usize,
    },
    /// Deliver so many silent frames.
    Starved(usize),
    /// Deliver so many frames of the bridge.
    Deliver(usize),
}

/// Bytes of a silent block: the last block's size, else the announced one, else
/// a default; at most what both channels and the bridge hold.
pub open spec fn silence_window(s: RtStatusFlags, max_l: int, max_r: int) -> int {
    let frames = if s.last_n_samples != 0 {
        s.last_n_samples as int
    } else if s.requested_buffer_frames != 0 {
        s.requested_buffer_frames as int
    } else {
        DEFAULT_SILENCE_FRAMES as int
    };
    let wanted = if frames * 4 < MAX_CHANNEL_BYTES { frames * 4 } else { MAX_CHANNEL_BYTES as int };
    let left = if wanted < max_l { wanted } else { max_l };
    if left < max_r {
        left
    } else {
        max_r
    }
}

/// Bytes of a silent block.
pub fn silence_window_bytes(status: &RtStatusFlags, max_l: usize, max_r: usize) -> (r: usize)
    ensures
        r == silence_window(*status, max_l as int, max_r as int),
        r <= max_l && r <= max_r && r <= MAX_CHANNEL_BYTES,
{
    let active: u32 = if status.last_n_samples != 0 {
        status.last_n_samples
    } else {
        status.requested_buffer_frames
    };
    let frames: u32 = if active == 0 {
        DEFAULT_SILENCE_FRAMES
    } else {
        active
    };
    let bounded: usize = if frames as usize > MAX_BRIDGE_BUF {
        MAX_BRIDGE_BUF
    } else {
        frames as usize
    };
    let wanted: usize = bounded * SAMPLE_BYTES;
    let left: usize = if wanted < max_l {
        wanted
    } else {
        max_l
    };
    if left < max_r {
        left
    } else {
        max_r
    }
}

/// Delivers `silence_bytes` bytes of silence to both channels, where the pair
/// may be used; anything wrong is reported. Returns the frames.
pub fn deliver_silence_pair_fail_closed(
    l: &SpaDescriptor,
    r: &SpaDescriptor,
    silence_bytes: usize,
    status: &mut RtStatusFlags,
    streams: &mut StreamStatusFlags,
) -> (frames: Option<usize>)
    ensures
        ({
            let fits = descriptors_fit(*l, (0, silence_bytes), *r, (0, silence_bytes));
            &&& frames == (if fits { Some((silence_bytes / 4) as usize) } else { None })
            &&& *final(status) == if fits {
                *old(status)
            } else {
                old(status).with_flag(RT_STATUS_HOST_CONTRACT_VIOLATION)
            }
            &&& *final(streams) == if fits {
                StreamStatusFlags {
                    playback_bridge_starvation: next_count(
                        old(streams).playback_bridge_starvation,
                    ),
                    ..*old(streams)
                }
            } else {
                *old(streams)
            }
        }),
{
    match handle_spa_pair_fail_closed(l, (0, silence_bytes), r, (0, silence_bytes), status) {
        Some((_, n_out)) => {
            streams.playback_bridge_starvation = streams.playback_bridge_starvation.wrapping_add(1);
            Some(n_out)
        },
        None => None,
    }
}

/// The verdict that silences both channels of a buffer.
pub open spec fn silence_playback(b: HostBuffer) -> PlaybackVerdict {
    PlaybackVerdict::Silence {
        left: silenced_bytes(b.left.ptr as int, b.left.maxsize as int) as usize,
        right: silenced_bytes(b.right.ptr as int, b.right.maxsize as int) as usize,
    }
}

/// The verdict on a buffer when there is nothing to play.
pub open spec fn starved_verdict(buffer: Option<HostBuffer>, s: RtStatusFlags) -> PlaybackVerdict {
    match buffer {
        None => PlaybackVerdict::NoBuffer,
        Some(b) => if b.regions < 2 {
            PlaybackVerdict::SilenceAvailable
        } else {
            let bytes = silence_window(s, b.left.maxsize as int, b.right.maxsize as int) as usize;
            if descriptors_fit(b.left, (0, bytes), b.right, (0, bytes)) {
                PlaybackVerdict::Starved((bytes / 4) as usize)
            } else {
                silence_playback(b)
            }
        },
    }
}

/// The verdict on a buffer when the bridge holds a block of `bytes` bytes.
pub open spec fn delivery_verdict(buffer: Option<HostBuffer>, bytes: usize) -> PlaybackVerdict {
    match buffer {
        None => PlaybackVerdict::NoBuffer,
        Some(b) => if b.regions < 2 {
            PlaybackVerdict::SilenceAvailable
        } else if descriptors_fit(b.left, (0, bytes), b.right, (0, bytes)) {
            PlaybackVerdict::Deliver((bytes / 4) as usize)
        } else {
            silence_playback(b)
        },
    }
}

/// The status after a verdict.
pub open spec fn playback_status(s: RtStatusFlags, verdict: PlaybackVerdict) -> RtStatusFlags {
    match verdict {
        PlaybackVerdict::NoBuffer => RtStatusFlags {
            output_buffer_miss: next_count(s.output_buffer_miss),
            ..s
        },
        PlaybackVerdict::SilenceAvailable => s.with_flag(RT_STATUS_HOST_CONTRACT_VIOLATION),
        PlaybackVerdict::Silence { .. } => s.with_flag(RT_STATUS_HOST_CONTRACT_VIOLATION),
        _ => s,
    }
}

/// The stream measurements after this outcome: starved blocks are counted.
pub open spec fn playback_streams(s: StreamStatusFlags, verdict: PlaybackVerdict) -> StreamStatusFlags {
    if verdict is Starved {
        StreamStatusFlags {
            playback_bridge_starvation: next_count(s.playback_bridge_starvation),
            ..s
        }
    } else {
        s
    }
}

fn playback_silence_verdict(b: &HostBuffer) -> (r: PlaybackVerdict)
    ensures
        r == silence_playback(*b),
{
    let (left, right) = silence_spa_channels(
        b.left.ptr,
        b.left.maxsize,
        b.right.ptr,
        b.right.maxsize,
    );
    PlaybackVerdict::Silence { left, right }
}

/// Decides on the dequeued buffer when there is nothing to play.
pub fn deliver_silence_block(
    buffer: Option<HostBuffer>,
    status: &mut RtStatusFlags,
    streams: &mut StreamStatusFlags,
) -> (verdict: PlaybackVerdict)
    ensures
        verdict == starved_verdict(buffer, *old(status)),
        *final(status) == playback_status(*old(status), verdict),
        *final(streams) == playback_streams(*old(streams), verdict),
{
    let b = match buffer {
        Some(b) => b,
        None => {
            status.output_buffer_miss = status.output_buffer_miss.wrapping_add(1);
            return PlaybackVerdict::NoBuffer;
        },
    };
    if b.regions < 2 {
        status.set_flag(RT_STATUS_HOST_CONTRACT_VIOLATION);
        return PlaybackVerdict::SilenceAvailable;
    }
    let bytes: usize = silence_window_bytes(status, b.left.maxsize, b.right.maxsize);
    match deliver_silence_pair_fail_closed(&b.left, &b.right, bytes, status, streams) {
        Some(frames) => PlaybackVerdict::Starved(frames),
        None => playback_silence_verdict(&b),
    }
}

/// The verdict on a buffer of a playback callback.
pub open spec fn playback_verdict(
    streams: StreamStatusFlags,
    block_bytes: Option<usize>,
    buffer: Option<HostBuffer>,
    s: RtStatusFlags,
) -> PlaybackVerdict {
    if streams.unmuted() && block_bytes is Some {
        delivery_verdict(buffer, block_bytes->0)
    } else {
        starved_verdict(buffer, s)
    }
}

/// Decides what a playback callback does with its buffer. While audio is muted,
/// or the bridge holds no new block, it plays silence; otherwise the block of
/// `block_bytes` bytes per channel.
pub fn playback_dsp_cycle(
    block_bytes: Option<usize>,
    buffer: Option<HostBuffer>,
    status: &mut RtStatusFlags,
    streams: &mut StreamStatusFlags,
) -> (verdict: PlaybackVerdict)
    ensures
        verdict == (if old(streams).unmuted() && block_bytes is Some {
            delivery_verdict(buffer, block_bytes->0)
        } else {
            starved_verdict(buffer, *old(status))
        }),
        verdict == playback_verdict(*old(streams), block_bytes, buffer, *old(status)),
        *final(status) == playback_status(*old(status), verdict),
        *final(streams) == playback_streams(*old(streams), verdict),
{
    if !streams.is_audio_unmuted() {
        return deliver_silence_block(buffer, status, streams);
    }
    let bytes: usize = match block_bytes {
        Some(bytes) => bytes,
        None => {
            return deliver_silence_block(buffer, status, streams);
        },
    };
    let b = match buffer {
        Some(b) => b,
        None => {
            status.output_buffer_miss = status.output_buffer_miss.wrapping_add(1);
            return PlaybackVerdict::NoBuffer;
        },
    };
    if b.regions < 2 {
        status.set_flag(RT_STATUS_HOST_CONTRACT_VIOLATION);
        return PlaybackVerdict::SilenceAvailable;
    }
    match handle_spa_pair_fail_closed(&b.left, (0, bytes), &b.right, (0, bytes), status) {
        Some((_, frames)) => PlaybackVerdict::Deliver(frames),
        None => playback_silence_verdict(&b),
    }
}

/// Whether a playback callback is timed: every sixteenth.
pub fn playback_timed(pb_frame_count: u32) -> (r: bool)
    ensures
        r == (pb_frame_count % 16 == 0),
        r == comes_round(pb_frame_count as int, 16, 0),
{
    assert((pb_frame_count & 0xF == 0) == (pb_frame_count % 16 == 0)) by (bit_vector);
    (pb_frame_count & 0xF) == 0
}

/// Counts a playback callback. Returns whether the host clock is sampled
/// before it: every 64 callbacks, from the first.
pub fn count_playback(pb_frame_count: &mut u32) -> (clock_due: bool)
    ensures
        *final(pb_frame_count) == next_count(*old(pb_frame_count)),
        clock_due == (*old(pb_frame_count) % 64 == 0),
        clock_due == comes_round(*old(pb_frame_count) as int, 64, 0),
{
    let before: u32 = *pb_frame_count;
    *pb_frame_count = before.wrapping_add(1);
    assert((before & 0x3F == 0) == (before % 64 == 0)) by (bit_vector);
    (before & 0x3F) == 0
}

/// Records a timed playback callback; `start` is zero where it is not timed.
/// Returns its duration, and the time since the capture of the same sound where
/// that is known, for the histograms.
pub fn record_playback_time(start: u64, end: u64, streams: &mut StreamStatusFlags) -> (r: Option<
    (u64, Option<u64>),
>)
    ensures
        ({
            let cap = old(streams).capture_start_tsc;
            let e2e = if cap > 0 && end > cap { Some(elapsed(cap, end)) } else { None };
            if start > 0 {
                &&& r == Some((elapsed(start, end), e2e))
                &&& *final(streams) == (StreamStatusFlags {
                    playback_cycle_time: elapsed(start, end),
                    e2e_cycle_time: match e2e {
                        Some(t) => t,
                        None => old(streams).e2e_cycle_time,
                    },
                    ..*old(streams)
                })
            } else {
                &&& r is None
                &&& *final(streams) == *old(streams)
            }
        }),
{
    if start == 0 {
        return None;
    }
    let nanos: u64 = if end > start {
        end - start
    } else {
        0
    };
    streams.playback_cycle_time = nanos;
    let cap_start: u64 = streams.capture_start_tsc;
    let mut e2e: Option<u64> = None;
    if cap_start > 0 && end > cap_start {
        streams.e2e_cycle_time = end - cap_start;
        e2e = Some(end - cap_start);
    }
    Some((nanos, e2e))
}

/// Muted audio never reaches the hardware: whatever the bridge holds, a muted
/// playback callback delivers none of it.
pub proof fn muted_playback_is_silent(buffer: Option<HostBuffer>, s: RtStatusFlags)
    ensures
        !(starved_verdict(buffer, s) is Deliver),
{
}

/// A starved callback on a well-formed pair is no contract violation, however
/// large the host's regions are.
pub proof fn starvation_is_no_violation(b: HostBuffer, s: RtStatusFlags)
    requires
        b.regions >= 2,
        b.left.maxsize % 4 == 0,
        b.right.maxsize % 4 == 0,
        b.left.ptr != 0 && b.left.ptr % 4 == 0,
        b.right.ptr != 0 && b.right.ptr % 4 == 0,
        b.left.chunk_addr != 0 && b.left.chunk_addr % 4 == 0,
        b.right.chunk_addr != 0 && b.right.chunk_addr % 4 == 0,
        b.left.ptr + b.left.maxsize <= b.right.ptr || b.right.ptr + b.right.maxsize <= b.left.ptr,
        b.left.ptr + b.left.maxsize <= usize::MAX,
        b.right.ptr + b.right.maxsize <= usize::MAX,
    ensures
        starved_verdict(Some(b), s) is Starved,
{
}

/// A block that is delivered is delivered whole, and into a sound pair: as many
/// frames as the bridge holds, inside both regions, at whole samples and apart.
pub proof fn delivered_block_is_whole(buffer: Option<HostBuffer>, bytes: usize)
    ensures
        delivery_verdict(buffer, bytes) matches PlaybackVerdict::Deliver(n) ==> {
            let b = buffer->0;
            &&& buffer is Some && b.regions >= 2
            &&& 4 * n == bytes
            &&& n <= 8192
            &&& bytes <= b.left.maxsize && bytes <= b.right.maxsize
            &&& b.left.ptr != 0 && b.left.ptr % 4 == 0
            &&& b.right.ptr != 0 && b.right.ptr % 4 == 0
            &&& b.left.chunk_addr != 0 && b.right.chunk_addr != 0
            &&& b.left.ptr + bytes <= b.right.ptr || b.right.ptr + bytes <= b.left.ptr
        },
        !(delivery_verdict(buffer, bytes) is Starved),
{
}

/// A sound stereo pair with room for the block gets it.
pub proof fn sound_pair_gets_the_block(b: HostBuffer, bytes: usize)
    requires
        b.regions >= 2,
        bytes % 4 == 0,
        bytes <= 32_768,
        bytes <= b.left.maxsize && bytes <= b.right.maxsize,
        b.left.ptr != 0 && b.left.ptr % 4 == 0,
        b.right.ptr != 0 && b.right.ptr % 4 == 0,
        b.left.chunk_addr != 0 && b.left.chunk_addr % 4 == 0,
        b.right.chunk_addr != 0 && b.right.chunk_addr % 4 == 0,
        b.left.ptr + bytes <= usize::MAX,
        b.right.ptr + bytes <= usize::MAX,
        b.left.ptr + bytes <= b.right.ptr || b.right.ptr + bytes <= b.left.ptr,
    ensures
        delivery_verdict(Some(b), bytes) is Deliver,
{
}

/// A silent block is as long as the last one; before the first as long as the
/// announced size; without that 128 frames; and never longer than a channel or
/// the bridge.
pub proof fn silence_is_as_long_as_a_block(s: RtStatusFlags, max_l: int, max_r: int)
    requires
        max_l >= 0,
        max_r >= 0,
    ensures
        ({
            let n = silence_window(s, max_l, max_r);
            let room = |k: int| k <= max_l && k <= max_r && k <= 32_768;
            &&& 0 <= n && room(n)
            &&& s.last_n_samples != 0 && room(4 * s.last_n_samples) ==> n == 4 * s.last_n_samples
            &&& s.last_n_samples == 0 && s.requested_buffer_frames != 0 && room(
                4 * s.requested_buffer_frames,
            ) ==> n == 4 * s.requested_buffer_frames
            &&& s.last_n_samples == 0 && s.requested_buffer_frames == 0 && room(512) ==> n == 512
            &&& s.last_n_samples != 0 && !room(4 * s.last_n_samples) ==> n == max_l || n == max_r
                || n == 32_768
        }),
{
}

/// A starved callback plays silence of that length, and counts it.
pub proof fn starved_block_is_silent(buffer: Option<HostBuffer>, s: RtStatusFlags)
    ensures
        starved_verdict(buffer, s) matches PlaybackVerdict::Starved(n) ==> buffer is Some && 4 * n
            <= buffer->0.left.maxsize && 4 * n <= buffer->0.right.maxsize && n <= 8192 && 4 * n
            <= silence_window(
            s,
            buffer->0.left.maxsize as int,
            buffer->0.right.maxsize as int,
        ) < 4 * n + 4,
        starved_verdict(buffer, s) is NoBuffer <==> buffer is None,
        starved_verdict(buffer, s) is SilenceAvailable <==> buffer is Some && buffer->0.regions < 2,
{
}

/// A missing buffer is counted, a breach of the host is reported, a starved
/// block is counted, and a delivered block leaves no trace.
pub proof fn playback_is_accounted_for(
    s: RtStatusFlags,
    f: StreamStatusFlags,
    verdict: PlaybackVerdict,
)
    ensures
        ({
            let t = playback_status(s, verdict);
            let g = playback_streams(f, verdict);
            &&& verdict is NoBuffer ==> t.output_buffer_miss as int == (s.output_buffer_miss + 1)
                % 0x1_0000_0000 && t.status_bits == s.status_bits
            &&& verdict is SilenceAvailable || verdict is Silence ==> t.has(
                RT_STATUS_HOST_CONTRACT_VIOLATION,
            ) && t.output_buffer_miss == s.output_buffer_miss
            &&& verdict is Starved || verdict is Deliver ==> t == s
            &&& verdict is Starved ==> g.playback_bridge_starvation as int == (
            f.playback_bridge_starvation + 1) % 0x1_0000_0000
            &&& !(verdict is Starved) ==> g == f
            &&& g.unmuted() == f.unmuted()
        }),
{
    crate::rt_status::set_flag_is_local(
        s.status_bits,
        RT_STATUS_HOST_CONTRACT_VIOLATION,
        RT_STATUS_HOST_CONTRACT_VIOLATION,
    );
}

/// The hardware gets a block of the bridge only while both formats are the
/// agreed ones, both streams are active and there is a new block, and then the
/// whole of it; at all other times a sound pair gets silence.
pub proof fn only_unmuted_blocks_are_played(
    streams: StreamStatusFlags,
    block_bytes: Option<usize>,
    buffer: Option<HostBuffer>,
    s: RtStatusFlags,
)
    ensures
        ({
            let verdict = playback_verdict(streams, block_bytes, buffer, s);
            &&& verdict matches PlaybackVerdict::Deliver(n) ==> {
                &&& streams.capture_format_ok != 0 && streams.playback_format_ok != 0
                &&& streams.capture_active != 0 && streams.playback_active != 0
                &&& block_bytes is Some && 4 * n == block_bytes->0
            }
            &&& verdict is Starved ==> block_bytes is None || streams.capture_format_ok == 0
                || streams.playback_format_ok == 0 || streams.capture_active == 0
                || streams.playback_active == 0
            &&& verdict is NoBuffer <==> buffer is None
            &&& verdict is SilenceAvailable <==> buffer is Some && buffer->0.regions < 2
            &&& verdict matches PlaybackVerdict::Silence { left, right } ==> left
                <= buffer->0.left.maxsize && left <= 32_768 && right <= buffer->0.right.maxsize
                && right <= 32_768
        }),
{
    delivered_block_is_whole(buffer, if block_bytes is Some { block_bytes->0 } else { 0 });
}

} // verus!
