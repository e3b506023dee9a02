//! What the capture callback makes of a host buffer: proof that its memory may
//! be touched, silence where it may not be used, and what goes to the recorder.
//!
//! Host memory is described by numbers: addresses, sizes and the fields of its
//! chunk headers. Nothing here reads or writes it.

use vstd::prelude::*;

use crate::payload::ControlPayload;
use crate::rings::{control_capacity, control_sent, push_control};
use crate::rt_status::{
    comes_round, next_count, RtStatusFlags, RT_STATUS_HOST_CONTRACT_VIOLATION,
    RT_STATUS_NEEDS_QUANTUM_LOG,
};
use crate::stream_status::StreamStatusFlags;

verus! {

/// Frames that the bridge between capture and playback holds.
pub const MAX_BRIDGE_BUF: usize = 8192;

/// Size and alignment of a sample, in bytes.
pub const SAMPLE_BYTES: usize = 4;

/// Bytes that one channel of a full bridge takes.
pub const MAX_CHANNEL_BYTES: usize = 32_768;

/// Alignment of a chunk header, in bytes.
pub const CHUNK_ALIGN: usize = 4;

/// Interleaved samples that one recorded block holds.
pub const MAX_BLOCK_SIZE: usize = 16_384;

/// A stretch of host memory.
#[derive(Clone, Copy, Debug, PartialEq, Eq, Structural)]
pub struct SpaRegion {
    /// Address of its first byte.
    pub base: usize,
    /// Length in bytes.
    pub len: usize,
}

/// Whether `size` bytes at `offset` of the region are whole aligned samples
/// inside it, and no more than the bridge holds.
pub open spec fn channel_fits(raw: SpaRegion, offset: int, size: int) -> bool {
    &&& raw.base % 4 == 0
    &&& offset % 4 == 0
    &&& size % 4 == 0
    &&& offset + size <= raw.len
    &&& size / 4 <= MAX_BRIDGE_BUF
}

/// Checks one channel of a host buffer. Returns the bytes and the frames.
pub fn check_ffi_contract(raw: SpaRegion, offset: usize, size: usize) -> (r: Option<(usize, usize)>)
    ensures
        r == (if channel_fits(raw, offset as int, size as int) {
            Some((size, (size / 4) as usize))
        } else {
            None
        }),
{
    if raw.base % SAMPLE_BYTES != 0 || offset % SAMPLE_BYTES != 0 {
        return None;
    }
    if size % SAMPLE_BYTES != 0 {
        return None;
    }
    let end: usize = match offset.checked_add(size) {
        Some(end) => end,
        None => {
            return None;
        },
    };
    if end > raw.len {
        return None;
    }
    let n_samples: usize = size / SAMPLE_BYTES;
    if n_samples > MAX_BRIDGE_BUF {
        return None;
    }
    Some((size, n_samples))
}

/// Whether the two stretches of `a_len` and `b_len` bytes share no address.
pub open spec fn apart(a: int, a_len: int, b: int, b_len: int) -> bool {
    a + a_len <= b || b + b_len <= a
}

/// Whether both channels fit, hold the same number of frames, end inside the
/// address space and lie apart.
pub open spec fn pair_fits(
    raw_l: SpaRegion,
    offset_l: int,
    size_l: int,
    raw_r: SpaRegion,
    offset_r: int,
    size_r: int,
) -> bool {
    &&& channel_fits(raw_l, offset_l, size_l)
    &&& channel_fits(raw_r, offset_r, size_r)
    &&& size_l == size_r
    &&& raw_l.base + offset_l + size_l <= usize::MAX
    &&& raw_r.base + offset_r + size_r <= usize::MAX
    &&& apart(raw_l.base + offset_l, size_l, raw_r.base + offset_r, size_r)
}

/// Checks both channels of a host buffer together. Returns the bytes and the
/// frames of each.
pub fn check_spa_buffer_pair(
    raw_l: SpaRegion,
    offset_l: usize,
    size_l: usize,
    raw_r: SpaRegion,
    offset_r: usize,
    size_r: usize,
) -> (r: Option<(usize, usize)>)
    ensures
        r == (if pair_fits(
            raw_l,
            offset_l as int,
            size_l as int,
            raw_r,
            offset_r as int,
            size_r as int,
        ) {
            Some((size_l, (size_l / 4) as usize))
        } else {
            None
        }),
{
    let (n_bytes_l, n_samples_l) = match check_ffi_contract(raw_l, offset_l, size_l) {
        Some(x) => x,
        None => {
            return None;
        },
    };
    let (n_bytes_r, n_samples_r) = match check_ffi_contract(raw_r, offset_r, size_r) {
        Some(x) => x,
        None => {
            return None;
        },
    };
    if n_samples_l != n_samples_r {
        return None;
    }
    let p_l: usize = match raw_l.base.checked_add(offset_l) {
        Some(p) => p,
        None => {
            return None;
        },
    };
    let p_r: usize = match raw_r.base.checked_add(offset_r) {
        Some(p) => p,
        None => {
            return None;
        },
    };
    let end_l: usize = match p_l.checked_add(n_bytes_l) {
        Some(p) => p,
        None => {
            return None;
        },
    };
    let end_r: usize = match p_r.checked_add(n_bytes_r) {
        Some(p) => p,
        None => {
            return None;
        },
    };
    if (p_l < end_r) && (p_r < end_l) {
        return None;
    }
    Some((n_bytes_l, n_samples_l))
}

/// Two accepted channels never share a byte, and each lies inside its region.
pub proof fn accepted_channels_are_disjoint(
    raw_l: SpaRegion,
    offset_l: int,
    size_l: int,
    raw_r: SpaRegion,
    offset_r: int,
    size_r: int,
    address: int,
)
    requires
        offset_l >= 0,
        offset_r >= 0,
        pair_fits(raw_l, offset_l, size_l, raw_r, offset_r, size_r),
        raw_l.base + offset_l <= address < raw_l.base + offset_l + size_l,
    ensures
        !(raw_r.base + offset_r <= address < raw_r.base + offset_r + size_r),
        raw_l.base <= address < raw_l.base + raw_l.len,
{
}

/// Bytes of a region that are zeroed after a contract violation: the declared
/// size, at most what the bridge holds, and none where the address or the size
/// is unusable.
pub open spec fn silenced_bytes(ptr: int, max: int) -> int {
    let len = if max < MAX_CHANNEL_BYTES { max } else { MAX_CHANNEL_BYTES as int };
    if ptr != 0 && ptr % 4 == 0 && len > 0 && len % 4 == 0 {
        len
    } else {
        0
    }
}

/// Bytes of one region to zero.
pub fn silence_len(ptr: usize, max: usize) -> (r: usize)
    ensures
        r == silenced_bytes(ptr as int, max as int),
        r <= MAX_CHANNEL_BYTES,
        r <= max,
{
    let len: usize = if max < MAX_CHANNEL_BYTES {
        max
    } else {
        MAX_CHANNEL_BYTES
    };
    if ptr != 0 && ptr % SAMPLE_BYTES == 0 && len > 0 && len % SAMPLE_BYTES == 0 {
        len
    } else {
        0
    }
}

/// Bytes of both regions to zero after a contract violation.
pub fn silence_spa_channels(ptr_l: usize, max_l: usize, ptr_r: usize, max_r: usize) -> (r: (
    usize,
    usize,
))
    ensures
        r.0 == silenced_bytes(ptr_l as int, max_l as int),
        r.1 == silenced_bytes(ptr_r as int, max_r as int),
        r.0 <= MAX_CHANNEL_BYTES && r.0 <= max_l,
        r.1 <= MAX_CHANNEL_BYTES && r.1 <= max_r,
{
    (silence_len(ptr_l, max_l), silence_len(ptr_r, max_r))
}

/// The fields of a chunk header.
#[derive(Clone, Copy, Debug, PartialEq, Eq, Structural)]
pub struct SpaChunk {
    /// Where the valid bytes begin.
    pub offset: u32,
    /// How many there are.
    pub size: u32,
    /// Bytes from one sample to the next.
    pub stride: i32,
    /// Flags; the lowest bit marks corruption.
    pub flags: i32,
}

/// One data region of a host buffer.
#[derive(Clone, Copy, Debug, PartialEq, Eq, Structural)]
pub struct SpaDescriptor {
    /// Address of the data.
    pub ptr: usize,
    /// Bytes that the host declares writable.
    pub maxsize: usize,
    /// Address of the chunk header.
    pub chunk_addr: usize,
    /// The header's fields, where it can be read.
    pub chunk: Option<SpaChunk>,
}

/// Whether a chunk header at this address can be read and written.
pub open spec fn chunk_readable_spec(addr: int) -> bool {
    addr != 0 && addr % 4 == 0
}

/// Whether a chunk header at this address can be read and written.
pub fn chunk_is_readable(addr: usize) -> (r: bool)
    ensures
        r == chunk_readable_spec(addr as int),
{
    addr != 0 && addr % CHUNK_ALIGN == 0
}

/// What is done to one data region of a malformed buffer.
#[derive(Clone, Copy, Debug, PartialEq, Eq, Structural)]
pub struct Silencing {
    /// Bytes to zero, from the start.
    pub bytes: usize,
    /// Whether the chunk header is stamped with offset 0, that size and a
    /// stride of one sample.
    pub stamp: bool,
}

/// Whether `r` is what is done to the region.
pub open spec fn silencing_is(d: SpaDescriptor, r: Silencing) -> bool {
    &&& r.bytes == silenced_bytes(d.ptr as int, d.maxsize as int)
    &&& r.stamp == (r.bytes > 0 && chunk_readable_spec(d.chunk_addr as int))
}

/// Decides what is done to one data region of a malformed buffer.
pub fn silence_descriptor(d: &SpaDescriptor) -> (r: Silencing)
    ensures
        silencing_is(*d, r),
{
    let bytes: usize = silence_len(d.ptr, d.maxsize);
    Silencing { bytes, stamp: bytes > 0 && chunk_is_readable(d.chunk_addr) }
}

/// Decides what is done to every data region of a malformed buffer, in order.
pub fn silence_available_descriptors(descriptors: &[SpaDescriptor]) -> (r: Vec<Silencing>)
    ensures
        r@.len() == descriptors@.len(),
        forall|i: int|
            0 <= i < r@.len() ==> silencing_is(descriptors@[i], #[trigger] r@[i]),
{
    let mut out: Vec<Silencing> = Vec::new();
    let mut i: usize = 0;
    while i < descriptors.len()
        invariant
            0 <= i <= descriptors@.len(),
            out@.len() == i,
            forall|j: int| 0 <= j < i ==> silencing_is(descriptors@[j], #[trigger] out@[j]),
        decreases descriptors@.len() - i,
    {
        out.push(silence_descriptor(&descriptors[i]));
        i = i + 1;
    }
    out
}

/// What a chunk header says about the valid bytes of its region.
#[derive(Clone, Copy, Debug, PartialEq, Eq, Structural)]
pub enum ChunkWindow {
    /// They begin at the first number; the second is how many there are.
    Valid(usize, usize),
    /// There is no header to read.
    Absent,
    /// The header is corrupted or speaks of another sample size.
    Malformed,
}

/// What a chunk header says.
pub open spec fn chunk_window(chunk: Option<SpaChunk>) -> ChunkWindow {
    match chunk {
        None => ChunkWindow::Absent,
        Some(c) => if c.stride != 4 || c.flags & 1 != 0 {
            ChunkWindow::Malformed
        } else {
            ChunkWindow::Valid(c.offset as usize, c.size as usize)
        },
    }
}

/// Reads the valid window of a chunk header.
pub fn read_chunk_meta(chunk: Option<SpaChunk>) -> (r: ChunkWindow)
    ensures
        r == chunk_window(chunk),
{
    match chunk {
        None => ChunkWindow::Absent,
        Some(c) => {
            if c.stride != 4 || (c.flags & 1) != 0 {
                ChunkWindow::Malformed
            } else {
                ChunkWindow::Valid(c.offset as usize, c.size as usize)
            }
        },
    }
}

/// The window that the capture path goes on with: an absent header counts as
/// an empty window, a malformed one as none.
pub open spec fn capture_window(chunk: Option<SpaChunk>) -> Option<(usize, usize)> {
    match chunk_window(chunk) {
        ChunkWindow::Valid(offset, size) => Some((offset, size)),
        ChunkWindow::Absent => Some((0, 0)),
        ChunkWindow::Malformed => None,
    }
}

/// Resolves one channel's window. A malformed header is reported as a contract
/// violation.
pub fn resolve_capture_chunk_window(chunk: Option<SpaChunk>, status: &mut RtStatusFlags) -> (r: Option<
    (usize, usize),
>)
    ensures
        r == capture_window(chunk),
        *final(status) == if r is None {
            old(status).with_flag(RT_STATUS_HOST_CONTRACT_VIOLATION)
        } else {
            *old(status)
        },
{
    match read_chunk_meta(chunk) {
        ChunkWindow::Valid(offset, size) => Some((offset, size)),
        ChunkWindow::Absent => Some((0, 0)),
        ChunkWindow::Malformed => {
            status.set_flag(RT_STATUS_HOST_CONTRACT_VIOLATION);
            None
        },
    }
}

/// The region of a descriptor, at most as long as a full bridge.
pub open spec fn bounded_region(d: SpaDescriptor) -> SpaRegion {
    SpaRegion {
        base: d.ptr,
        len: if d.maxsize < MAX_CHANNEL_BYTES { d.maxsize } else { MAX_CHANNEL_BYTES },
    }
}

/// Whether both descriptors may be used with the given windows.
pub open spec fn descriptors_fit(
    l: SpaDescriptor,
    window_l: (usize, usize),
    r: SpaDescriptor,
    window_r: (usize, usize),
) -> bool {
    &&& chunk_readable_spec(l.chunk_addr as int)
    &&& chunk_readable_spec(r.chunk_addr as int)
    &&& l.ptr != 0
    &&& r.ptr != 0
    &&& pair_fits(
        bounded_region(l),
        window_l.0 as int,
        window_l.1 as int,
        bounded_region(r),
        window_r.0 as int,
        window_r.1 as int,
    )
}

fn bound_region(d: &SpaDescriptor) -> (r: SpaRegion)
    ensures
        r == bounded_region(*d),
{
    let len: usize = if d.maxsize < MAX_CHANNEL_BYTES {
        d.maxsize
    } else {
        MAX_CHANNEL_BYTES
    };
    SpaRegion { base: d.ptr, len }
}

/// Checks a stereo pair of descriptors, chunk headers aside.
pub fn validate_spa_channel_pair(
    l: &SpaDescriptor,
    window_l: (usize, usize),
    r: &SpaDescriptor,
    window_r: (usize, usize),
) -> (verdict: Option<(usize, usize)>)
    ensures
        verdict == (if l.ptr != 0 && r.ptr != 0 && pair_fits(
            bounded_region(*l),
            window_l.0 as int,
            window_l.1 as int,
            bounded_region(*r),
            window_r.0 as int,
            window_r.1 as int,
        ) {
            Some((window_l.1, (window_l.1 / 4) as usize))
        } else {
            None
        }),
{
    if l.ptr == 0 || r.ptr == 0 {
        return None;
    }
    check_spa_buffer_pair(
        bound_region(l),
        window_l.0,
        window_l.1,
        bound_region(r),
        window_r.0,
        window_r.1,
    )
}

/// Checks a stereo pair of descriptors. Returns the bytes and the frames of
/// each channel; anything wrong is reported as a contract violation, after
/// which both regions are to be silenced.
pub fn handle_spa_pair_fail_closed(
    l: &SpaDescriptor,
    window_l: (usize, usize),
    r: &SpaDescriptor,
    window_r: (usize, usize),
    status: &mut RtStatusFlags,
) -> (verdict: Option<(usize, usize)>)
    ensures
        verdict == (if descriptors_fit(*l, window_l, *r, window_r) {
            Some((window_l.1, (window_l.1 / 4) as usize))
        } else {
            None
        }),
        *final(status) == if verdict is None {
            old(status).with_flag(RT_STATUS_HOST_CONTRACT_VIOLATION)
        } else {
            *old(status)
        },
{
    if !chunk_is_readable(l.chunk_addr) || !chunk_is_readable(r.chunk_addr) {
        status.set_flag(RT_STATUS_HOST_CONTRACT_VIOLATION);
        return None;
    }
    let verdict = validate_spa_channel_pair(l, window_l, r, window_r);
    if verdict.is_none() {
        status.set_flag(RT_STATUS_HOST_CONTRACT_VIOLATION);
    }
    verdict
}

/// A dequeued host buffer: how many data regions it has, and the first two.
/// Where it has fewer than two, the descriptors mean nothing.
#[derive(Clone, Copy, Debug, PartialEq, Eq, Structural)]
pub struct HostBuffer {
    /// Data regions.
    pub regions: usize,
    /// Left channel.
    pub left: SpaDescriptor,
    /// Right channel.
    pub right: SpaDescriptor,
}

/// What the capture callback does with the buffer it dequeued.
#[derive(Clone, Copy, Debug, PartialEq, Eq, Structural)]
pub enum CaptureVerdict {
    /// There was none.
    NoBuffer,
    /// The negotiated format is not the one that the DSP needs: leave it.
    Muted,
    /// It is not stereo: silence every region it has.
    SilenceAvailable,
    /// It must not be used: zero so many bytes of each channel.
    Silence {
        /// Left channel.
        left: usize,
        /// Right channel.
        right: usize,
    },
    /// It holds no frames.
    Empty,
    /// Process it.
    Process {
        /// Frames of each channel.
        frames: usize,
        /// Where the left channel begins.
        offset_l: usize,
        /// Where the right channel begins.
        offset_r: usize,
    },
}

/// The silence verdict for a buffer.
pub open spec fn silence_both(b: HostBuffer) -> CaptureVerdict {
    CaptureVerdict::Silence {
        left: silenced_bytes(b.left.ptr as int, b.left.maxsize as int) as usize,
        right: silenced_bytes(b.right.ptr as int, b.right.maxsize as int) as usize,
    }
}

/// The verdict on a dequeued buffer.
pub open spec fn capture_verdict(buffer: Option<HostBuffer>, format_ok: bool) -> CaptureVerdict {
    match buffer {
        None => CaptureVerdict::NoBuffer,
        Some(b) => if !format_ok {
            CaptureVerdict::Muted
        } else if b.regions < 2 {
            CaptureVerdict::SilenceAvailable
        } else {
            match (capture_window(b.left.chunk), capture_window(b.right.chunk)) {
                (Some(wl), Some(wr)) => if !descriptors_fit(b.left, wl, b.right, wr) {
                    silence_both(b)
                } else if wl.1 == 0 {
                    CaptureVerdict::Empty
                } else {
                    CaptureVerdict::Process {
                        frames: (wl.1 / 4) as usize,
                        offset_l: wl.0,
                        offset_r: wr.0,
                    }
                },
                _ => silence_both(b),
            }
        },
    }
}

/// The status after this outcome: a missing buffer is counted, and a buffer
/// that must be silenced is reported.
pub open spec fn capture_status(s: RtStatusFlags, verdict: CaptureVerdict) -> RtStatusFlags {
    match verdict {
        CaptureVerdict::NoBuffer => RtStatusFlags {
            input_buffer_miss: next_count(s.input_buffer_miss),
            ..s
        },
        CaptureVerdict::SilenceAvailable => s.with_flag(RT_STATUS_HOST_CONTRACT_VIOLATION),
        CaptureVerdict::Silence { .. } => s.with_flag(RT_STATUS_HOST_CONTRACT_VIOLATION),
        _ => s,
    }
}

fn silence_verdict(b: &HostBuffer) -> (r: CaptureVerdict)
    ensures
        r == silence_both(*b),
{
    let (left, right) = silence_spa_channels(
        b.left.ptr,
        b.left.maxsize,
        b.right.ptr,
        b.right.maxsize,
    );
    CaptureVerdict::Silence { left, right }
}

/// First part of processing a block: decides what is done with the dequeued
/// buffer.
pub fn admit_capture_buffer(
    buffer: Option<HostBuffer>,
    format_contract_ok: bool,
    status: &mut RtStatusFlags,
) -> (verdict: CaptureVerdict)
    ensures
        verdict == capture_verdict(buffer, format_contract_ok),
        *final(status) == capture_status(*old(status), verdict),
{
    let b = match buffer {
        Some(b) => b,
        None => {
            status.input_buffer_miss = status.input_buffer_miss.wrapping_add(1);
            return CaptureVerdict::NoBuffer;
        },
    };
    if !format_contract_ok {
        return CaptureVerdict::Muted;
    }
    if b.regions < 2 {
        status.set_flag(RT_STATUS_HOST_CONTRACT_VIOLATION);
        return CaptureVerdict::SilenceAvailable;
    }
    let window_l = match resolve_capture_chunk_window(b.left.chunk, status) {
        Some(w) => w,
        None => {
            return silence_verdict(&b);
        },
    };
    let window_r = match resolve_capture_chunk_window(b.right.chunk, status) {
        Some(w) => w,
        None => {
            return silence_verdict(&b);
        },
    };
    match handle_spa_pair_fail_closed(&b.left, window_l, &b.right, window_r, status) {
        None => silence_verdict(&b),
        Some((_, frames)) => {
            if frames > 0 {
                CaptureVerdict::Process { frames, offset_l: window_l.0, offset_r: window_r.0 }
            } else {
                CaptureVerdict::Empty
            }
        },
    }
}

/// A buffer that goes through holds between one frame and a full bridge, and
/// its channels are inside their regions and apart.
pub proof fn processed_buffer_is_safe(b: HostBuffer)
    requires
        capture_verdict(Some(b), true) is Process,
    ensures
        capture_verdict(Some(b), true) matches CaptureVerdict::Process {
            frames,
            offset_l,
            offset_r,
        } && 0 < frames <= MAX_BRIDGE_BUF && pair_fits(
            bounded_region(b.left),
            offset_l as int,
            4 * frames,
            bounded_region(b.right),
            offset_r as int,
            4 * frames,
        ),
{
}

/// What the block counter says about a block.
#[derive(Clone, Copy, Debug, PartialEq, Eq, Structural)]
pub struct BlockCadence {
    /// Whether the block is timed: every sixteenth, from the first.
    pub measure: bool,
    /// Whether the floating-point mode is set again: every 1024 blocks.
    pub refresh_fp_mode: bool,
}

/// Counts a block.
pub fn count_block(frame_count: &mut u32) -> (r: BlockCadence)
    ensures
        *final(frame_count) == next_count(*old(frame_count)),
        r.measure == (*old(frame_count) % 16 == 0),
        r.refresh_fp_mode == (*final(frame_count) % 1024 == 0),
        r.measure == comes_round(*old(frame_count) as int, 16, 0),
        r.refresh_fp_mode == comes_round(*final(frame_count) as int, 1024, 0),
{
    let before: u32 = *frame_count;
    let after: u32 = before.wrapping_add(1);
    *frame_count = after;
    assert((before & 0xF == 0) == (before % 16 == 0)) by (bit_vector);
    assert((after & 0x3FF == 0) == (after % 1024 == 0)) by (bit_vector);
    BlockCadence { measure: (before & 0xF) == 0, refresh_fp_mode: (after & 0x3FF) == 0 }
}

/// Time between two readings of the clock; none where it went back.
pub open spec fn elapsed(start: u64, end: u64) -> u64 {
    if end > start {
        (end - start) as u64
    } else {
        0
    }
}

/// Records how long a capture callback took up to the DSP, where the block is
/// timed and its start is known. Returns the duration, for the histogram.
pub fn record_capture_time(
    measure: bool,
    start: u64,
    now: u64,
    streams: &mut StreamStatusFlags,
) -> (r: Option<u64>)
    ensures
        r == (if measure && start > 0 { Some(elapsed(start, now)) } else { None }),
        *final(streams) == if measure && start > 0 {
            StreamStatusFlags {
                capture_cycle_time: elapsed(start, now),
                capture_start_tsc: start,
                ..*old(streams)
            }
        } else {
            *old(streams)
        },
{
    if !measure || start == 0 {
        return None;
    }
    let nanos: u64 = if now > start {
        now - start
    } else {
        0
    };
    streams.capture_cycle_time = nanos;
    streams.capture_start_tsc = start;
    Some(nanos)
}

/// Records how long the hand-over to the recorder took; `start` is zero where
/// it is not timed. Returns the duration, for the histogram.
pub fn record_enqueue_time(start: u64, end: u64, streams: &mut StreamStatusFlags) -> (r: Option<
    u64,
>)
    ensures
        r == (if start > 0 { Some(elapsed(start, end)) } else { None }),
        *final(streams) == if start > 0 {
            StreamStatusFlags { record_cycle_time: elapsed(start, end), ..*old(streams) }
        } else {
            *old(streams)
        },
{
    if start == 0 {
        return None;
    }
    let nanos: u64 = if end > start {
        end - start
    } else {
        0
    };
    streams.record_cycle_time = nanos;
    Some(nanos)
}

/// The status after a timed DSP run.
pub open spec fn timed_status(s: RtStatusFlags, nanos: u64, overload: bool) -> RtStatusFlags {
    RtStatusFlags {
        first_block_nanos: if s.first_block_nanos == 0 {
            if nanos == 0 {
                1
            } else {
                nanos
            }
        } else {
            s.first_block_nanos
        },
        dsp_cycle_time: nanos,
        dsp_overloads: if overload { next_count(s.dsp_overloads) } else { s.dsp_overloads },
        ..s
    }
}

/// Records a timed DSP run; `start` is zero where the block is not timed.
/// `overload` tells whether that run took more than its share of the block's
/// duration. Returns the run's duration, for the histogram.
pub fn record_dsp_time(start: u64, end: u64, overload: bool, status: &mut RtStatusFlags) -> (r: Option<
    u64,
>)
    ensures
        r == (if start > 0 { Some(elapsed(start, end)) } else { None }),
        *final(status) == if start > 0 {
            timed_status(*old(status), elapsed(start, end), overload)
        } else {
            *old(status)
        },
{
    if start == 0 {
        return None;
    }
    let nanos: u64 = if end > start {
        end - start
    } else {
        0
    };
    if status.first_block_nanos == 0 {
        status.first_block_nanos = if nanos == 0 {
            1
        } else {
            nanos
        };
    }
    status.dsp_cycle_time = nanos;
    if overload {
        status.dsp_overloads = status.dsp_overloads.wrapping_add(1);
    }
    Some(nanos)
}

/// The status after a block of `n` frames.
pub open spec fn block_size_noted(s: RtStatusFlags, n: u32) -> RtStatusFlags {
    if s.last_n_samples != n {
        RtStatusFlags { last_n_samples: n, requested_buffer_frames: n, ..s }.with_flag(
            RT_STATUS_NEEDS_QUANTUM_LOG,
        )
    } else {
        s
    }
}

/// Last part of processing a block: announces a changed block size.
pub fn note_block_size(n_samples: usize, status: &mut RtStatusFlags)
    requires
        n_samples <= MAX_BRIDGE_BUF,
    ensures
        *final(status) == block_size_noted(*old(status), n_samples as u32),
{
    let n: u32 = n_samples as u32;
    if status.last_n_samples != n {
        status.last_n_samples = n;
        status.requested_buffer_frames = n;
        status.set_flag(RT_STATUS_NEEDS_QUANTUM_LOG);
    }
}

/// The recorder's control channel, as the callback sees it.
pub struct RecordingSender {
    /// The channel; none where nothing is recorded.
    pub control: Option<rtrb::Producer<ControlPayload>>,
}

/// What the recorder is told of the audio to come.
pub open spec fn recording_header(rate: u32) -> ControlPayload {
    ControlPayload::Metadata { sample_rate: rate, bit_depth: 32, channels: 2 }
}

/// What was sent on the control channel so far.
pub open spec fn headers_sent(s: RecordingSender) -> Seq<ControlPayload> {
    match s.control {
        Some(p) => control_sent(p),
        None => Seq::empty(),
    }
}

/// How many headers the control channel holds at most.
pub open spec fn headers_held(s: RecordingSender) -> nat {
    match s.control {
        Some(p) => control_capacity(p),
        None => 0,
    }
}

impl RecordingSender {
    /// Records nothing.
    pub fn none() -> (r: Self)
        ensures
            r.control is None,
    {
        RecordingSender { control: None }
    }

    /// Offers the recorder a header. Returns whether the channel took it. One
    /// that was sent fewer headers than it holds takes it; after that the
    /// recorder's progress decides.
    pub fn try_push_metadata(&mut self, rate: u32) -> (taken: bool)
        ensures
            (final(self).control is Some) == (old(self).control is Some),
            taken ==> old(self).control is Some && headers_sent(*final(self)) == headers_sent(
                *old(self),
            ).push(recording_header(rate)),
            !taken ==> headers_sent(*final(self)) == headers_sent(*old(self)),
            headers_sent(*old(self)).len() < headers_held(*old(self)) ==> taken,
            headers_held(*final(self)) == headers_held(*old(self)),
    {
        match &mut self.control {
            Some(producer) => {
                let header = ControlPayload::Metadata {
                    sample_rate: rate,
                    bit_depth: 32,
                    channels: 2,
                };
                match push_control(producer, header) {
                    Ok(_) => true,
                    Err(_) => false,
                }
            },
            None => false,
        }
    }
}

/// What the callback knows about the recorder.
pub struct RecorderView {
    /// Whether there is a control channel.
    pub attached: bool,
    /// What was sent on it.
    pub sent: Seq<ControlPayload>,
    /// How much it holds at most.
    pub held: nat,
    /// Whether the recorder knows a rate.
    pub meta_sent: bool,
    /// Which.
    pub meta_rate: u32,
    /// Whether it was told that there is data, where it can be told.
    pub data_available: Option<bool>,
}

/// The flag set to `value`, where there is one.
pub open spec fn flag_set(flag: Option<bool>, value: bool) -> Option<bool> {
    match flag {
        Some(_) => Some(value),
        None => None,
    }
}

/// Whether telling the recorder the rate may lead from `a` to `b`: a failed
/// recorder only loses its data flag; one that knows the rate gets nothing;
/// otherwise the header is sent and confirmed, or, when the channel is full or
/// missing, unconfirmed and to be tried again. A channel that was sent fewer
/// headers than it holds is not full.
pub open spec fn metadata_outcome(
    a: RecorderView,
    rate: u32,
    failed: bool,
    b: RecorderView,
) -> bool {
    if failed {
        b == RecorderView { data_available: flag_set(a.data_available, false), ..a }
    } else if a.meta_sent && a.meta_rate == rate {
        b == a
    } else {
        ||| a.held <= a.sent.len() && b == RecorderView { meta_sent: false, ..a }
        ||| a.attached && b == RecorderView {
            sent: a.sent.push(recording_header(rate)),
            meta_sent: true,
            meta_rate: rate,
            data_available: flag_set(a.data_available, true),
            ..a
        }
    }
}

/// The recorder's side of the callback's arguments as one value.
pub open spec fn recorder_view(
    sender: RecordingSender,
    meta_sent: bool,
    meta_rate: u32,
    data_available: Option<bool>,
) -> RecorderView {
    RecorderView {
        attached: sender.control is Some,
        sent: headers_sent(sender),
        held: headers_held(sender),
        meta_sent,
        meta_rate,
        data_available,
    }
}

/// Goes by the channel's answer to a header: once taken, it is confirmed.
pub fn settle_header(
    taken: bool,
    rate: u32,
    recording_meta_sent: &mut bool,
    recording_meta_rate: &mut u32,
    recording_data_available: &mut Option<bool>,
)
    ensures
        *final(recording_meta_sent) == (taken || *old(recording_meta_sent)),
        *final(recording_meta_rate) == if taken {
            rate
        } else {
            *old(recording_meta_rate)
        },
        *final(recording_data_available) == if taken {
            flag_set(*old(recording_data_available), true)
        } else {
            *old(recording_data_available)
        },
{
    if taken {
        *recording_meta_sent = true;
        *recording_meta_rate = rate;
        if recording_data_available.is_some() {
            *recording_data_available = Some(true);
        }
    }
}

/// Tells the recorder the present rate where it does not know it. A header is
/// confirmed only once the channel took it; a failed recorder gets none.
pub fn send_recording_metadata(
    recording_sender: &mut RecordingSender,
    current_host_rate: u32,
    recording_meta_sent: &mut bool,
    recording_meta_rate: &mut u32,
    recording_data_available: &mut Option<bool>,
    recording_failed: bool,
)
    ensures
        metadata_outcome(
            recorder_view(
                *old(recording_sender),
                *old(recording_meta_sent),
                *old(recording_meta_rate),
                *old(recording_data_available),
            ),
            current_host_rate,
            recording_failed,
            recorder_view(
                *final(recording_sender),
                *final(recording_meta_sent),
                *final(recording_meta_rate),
                *final(recording_data_available),
            ),
        ),
{
    if recording_failed {
        if recording_data_available.is_some() {
            *recording_data_available = Some(false);
        }
        return;
    }
    if *recording_meta_rate != current_host_rate {
        *recording_meta_sent = false;
    }
    if *recording_meta_sent {
        return;
    }
    let taken = recording_sender.try_push_metadata(current_host_rate);
    settle_header(
        taken,
        current_host_rate,
        recording_meta_sent,
        recording_meta_rate,
        recording_data_available,
    );
}

/// What a callback does before the DSP runs.
#[derive(Clone, Copy, Debug, PartialEq, Eq, Structural)]
pub struct BlockStart {
    /// What is done with the buffer.
    pub verdict: CaptureVerdict,
    /// What the block counter says, where the block is processed.
    pub cadence: Option<BlockCadence>,
}

/// Everything up to the DSP: decides on the dequeued buffer and, where it is
/// processed, tells the recorder the rate and counts the block.
pub fn process_dsp_buffer(
    buffer: Option<HostBuffer>,
    format_contract_ok: bool,
    current_host_rate: u32,
    frame_count: &mut u32,
    status: &mut RtStatusFlags,
    recording_sender: &mut RecordingSender,
    recording_meta_sent: &mut bool,
    recording_meta_rate: &mut u32,
    recording_data_available: &mut Option<bool>,
    recording_failed: bool,
) -> (r: BlockStart)
    ensures
        r.verdict == capture_verdict(buffer, format_contract_ok),
        *final(status) == capture_status(*old(status), r.verdict),
        ({
            let a = recorder_view(
                *old(recording_sender),
                *old(recording_meta_sent),
                *old(recording_meta_rate),
                *old(recording_data_available),
            );
            let b = recorder_view(
                *final(recording_sender),
                *final(recording_meta_sent),
                *final(recording_meta_rate),
                *final(recording_data_available),
            );
            if r.verdict is Process {
                &&& metadata_outcome(a, current_host_rate, recording_failed, b)
                &&& *final(frame_count) == next_count(*old(frame_count))
                &&& r.cadence == Some(
                    BlockCadence {
                        measure: *old(frame_count) % 16 == 0,
                        refresh_fp_mode: *final(frame_count) % 1024 == 0,
                    },
                )
            } else {
                &&& a == b
                &&& *final(frame_count) == *old(frame_count)
                &&& r.cadence is None
            }
        }),
{
    let verdict = admit_capture_buffer(buffer, format_contract_ok, status);
    let goes_through = match verdict {
        CaptureVerdict::Process { .. } => true,
        _ => false,
    };
    if !goes_through {
        return BlockStart { verdict, cadence: None };
    }
    send_recording_metadata(
        recording_sender,
        current_host_rate,
        recording_meta_sent,
        recording_meta_rate,
        recording_data_available,
        recording_failed,
    );
    let cadence = count_block(frame_count);
    BlockStart { verdict, cadence: Some(cadence) }
}

/// No audio is recorded under an unknown rate: after the header step, the
/// recorder counts as informed only if it knows the present rate, or has
/// failed.
pub proof fn informed_recorder_knows_the_rate(
    a: RecorderView,
    rate: u32,
    failed: bool,
    b: RecorderView,
)
    requires
        metadata_outcome(a, rate, failed, b),
        b.meta_sent,
    ensures
        failed || b.meta_rate == rate,
{
}

/// Audio that did not reach the recorder.
#[derive(Clone, Copy, Debug, PartialEq, Eq, Structural)]
pub struct Overruns {
    /// Blocks.
    pub blocks: u64,
    /// Frames.
    pub frames: u64,
}

/// What is done with one block of audio for the recorder.
#[derive(Clone, Copy, Debug, PartialEq, Eq, Structural)]
pub enum RecordStep {
    /// Nothing.
    Skip,
    /// Hand the block to the transport and report how that went.
    Enqueue,
}

/// How the transport received a block.
#[derive(Clone, Copy, Debug, PartialEq, Eq, Structural)]
pub enum EnqueueResult {
    /// There is no transport.
    Absent,
    /// It has no room.
    Full,
    /// A place was filled but its descriptor was not passed on.
    Unpublished,
    /// It took the block.
    Published,
}

/// The sum of two 64-bit counters, wrapping.
pub open spec fn wrapped_sum(a: u64, b: int) -> u64 {
    ((a + b) % 0x1_0000_0000_0000_0000) as u64
}

/// The loss counters after one more block of `n` frames was lost.
pub open spec fn one_lost(o: Overruns, n: int) -> Overruns {
    Overruns { blocks: wrapped_sum(o.blocks, 1), frames: wrapped_sum(o.frames, n) }
}

fn count_overrun(n_pw: usize, overruns: &mut Overruns)
    ensures
        *final(overruns) == one_lost(*old(overruns), n_pw as int),
{
    overruns.blocks = overruns.blocks.wrapping_add(1);
    overruns.frames = overruns.frames.wrapping_add(n_pw as u64);
}

/// What is done with a block of `n_pw` frames.
pub open spec fn record_step(informed: bool, n_pw: int, failed: bool) -> RecordStep {
    if informed && n_pw > 0 && !failed && 2 * n_pw <= MAX_BLOCK_SIZE {
        RecordStep::Enqueue
    } else {
        RecordStep::Skip
    }
}

/// Decides what is done with a block of `n_pw` frames: before the recorder knows
/// the rate nothing, an empty one is skipped, a failed recorder gets none, and
/// one too long for a recorded block is lost.
pub fn plan_recording_audio(
    recording_meta_sent: bool,
    n_pw: usize,
    recording_failed: bool,
    recording_data_available: &mut Option<bool>,
    overruns: &mut Overruns,
) -> (r: RecordStep)
    ensures
        r == (if recording_meta_sent && n_pw > 0 && !recording_failed && 2 * n_pw
            <= MAX_BLOCK_SIZE {
            RecordStep::Enqueue
        } else {
            RecordStep::Skip
        }),
        r == record_step(recording_meta_sent, n_pw as int, recording_failed),
        *final(recording_data_available) == if recording_meta_sent && n_pw > 0
            && recording_failed {
            match *old(recording_data_available) {
                Some(_) => Some(false),
                None => None,
            }
        } else {
            *old(recording_data_available)
        },
        *final(overruns) == if recording_meta_sent && n_pw > 0 && !recording_failed && 2 * n_pw
            > MAX_BLOCK_SIZE {
            one_lost(*old(overruns), n_pw as int)
        } else {
            *old(overruns)
        },
{
    if !recording_meta_sent || n_pw == 0 {
        return RecordStep::Skip;
    }
    if recording_failed {
        if recording_data_available.is_some() {
            *recording_data_available = Some(false);
        }
        return RecordStep::Skip;
    }
    if n_pw > MAX_BLOCK_SIZE / 2 {
        count_overrun(n_pw, overruns);
        return RecordStep::Skip;
    }
    RecordStep::Enqueue
}

/// Takes down how the transport received a block of `n_pw` frames.
pub fn finish_recording_audio(
    n_pw: usize,
    result: EnqueueResult,
    recording_data_available: &mut Option<bool>,
    overruns: &mut Overruns,
)
    ensures
        *final(recording_data_available) == if result is Published {
            match *old(recording_data_available) {
                Some(_) => Some(true),
                None => None,
            }
        } else {
            *old(recording_data_available)
        },
        *final(overruns) == if result is Full {
            one_lost(*old(overruns), n_pw as int)
        } else {
            *old(overruns)
        },
{
    match result {
        EnqueueResult::Absent => {},
        EnqueueResult::Unpublished => {},
        EnqueueResult::Full => {
            count_overrun(n_pw, overruns);
        },
        EnqueueResult::Published => {
            if recording_data_available.is_some() {
                *recording_data_available = Some(true);
            }
        },
    }
}

/// Every block that a healthy recorder with a working transport is offered is
/// either taken or counted as lost, with all its frames.
pub proof fn produced_is_enqueued_or_lost(o: Overruns, n_pw: int, result: EnqueueResult)
    requires
        n_pw > 0,
        result is Published || result is Full,
        o.frames + n_pw <= u64::MAX,
    ensures
        ({
            let too_long = 2 * n_pw > MAX_BLOCK_SIZE;
            let after = if too_long || result is Full { one_lost(o, n_pw) } else { o };
            let enqueued = if !too_long && result is Published { n_pw } else { 0 };
            n_pw == enqueued + (after.frames - o.frames)
        }),
{
}

/// A buffer that is processed is processed whole: as many frames as the chunk of
/// each channel declares, from where it declares them. Both stretches then lie
/// in what the host declares writable, apart from each other, at whole samples.
pub proof fn processed_block_is_whole(b: HostBuffer)
    ensures
        match capture_verdict(Some(b), true) {
            CaptureVerdict::Process { frames, offset_l, offset_r } => {
                &&& b.regions >= 2
                &&& b.left.chunk is Some && b.right.chunk is Some
                &&& 4 * frames == b.left.chunk->0.size && 4 * frames == b.right.chunk->0.size
                &&& offset_l == b.left.chunk->0.offset && offset_r == b.right.chunk->0.offset
                &&& 0 < frames <= 8192
                &&& offset_l + 4 * frames <= b.left.maxsize
                &&& offset_r + 4 * frames <= b.right.maxsize
                &&& b.left.ptr != 0 && (b.left.ptr + offset_l) % 4 == 0
                &&& b.right.ptr != 0 && (b.right.ptr + offset_r) % 4 == 0
                &&& b.left.ptr + offset_l + 4 * frames <= b.right.ptr + offset_r || b.right.ptr
                    + offset_r + 4 * frames <= b.left.ptr + offset_l
                &&& b.left.chunk->0.stride == 4 && b.right.chunk->0.stride == 4
                &&& b.left.chunk_addr != 0 && b.right.chunk_addr != 0
            },
            _ => true,
        },
{
}

/// A well-formed stereo buffer of the agreed format is processed: both chunks
/// are sound and of one size, both stretches hold whole samples inside their
/// regions, and they lie apart.
pub proof fn sound_buffer_is_processed(b: HostBuffer)
    requires
        b.regions >= 2,
        b.left.ptr != 0 && b.left.ptr % 4 == 0,
        b.right.ptr != 0 && b.right.ptr % 4 == 0,
        b.left.chunk_addr != 0 && b.left.chunk_addr % 4 == 0,
        b.right.chunk_addr != 0 && b.right.chunk_addr % 4 == 0,
        b.left.chunk is Some && b.right.chunk is Some,
        ({
            let (l, r) = (b.left.chunk->0, b.right.chunk->0);
            &&& l.stride == 4 && r.stride == 4
            &&& l.flags & 1 == 0 && r.flags & 1 == 0
            &&& l.size == r.size && l.size > 0 && l.size % 4 == 0
            &&& l.offset % 4 == 0 && r.offset % 4 == 0
            &&& l.offset + l.size <= b.left.maxsize && l.offset + l.size <= 32_768
            &&& r.offset + r.size <= b.right.maxsize && r.offset + r.size <= 32_768
            &&& b.left.ptr + l.offset + l.size <= usize::MAX
            &&& b.right.ptr + r.offset + r.size <= usize::MAX
            &&& b.left.ptr + l.offset + l.size <= b.right.ptr + r.offset || b.right.ptr + r.offset
                + r.size <= b.left.ptr + l.offset
        }),
    ensures
        capture_verdict(Some(b), true) is Process,
{
}

/// A buffer is left alone, silenced or counted for one reason each: none came,
/// the format is not the agreed one, it is not stereo, or its parts are unsound.
/// Only what must be silenced is reported as a breach of the host.
pub proof fn refused_buffer_is_accounted_for(
    buffer: Option<HostBuffer>,
    format_ok: bool,
    s: RtStatusFlags,
)
    ensures
        ({
            let verdict = capture_verdict(buffer, format_ok);
            let t = capture_status(s, verdict);
            &&& verdict is NoBuffer <==> buffer is None
            &&& verdict is Muted <==> buffer is Some && !format_ok
            &&& verdict is SilenceAvailable <==> buffer is Some && format_ok && buffer->0.regions
                < 2
            &&& verdict is NoBuffer ==> t.input_buffer_miss as int == (s.input_buffer_miss + 1)
                % 0x1_0000_0000
            &&& !(verdict is NoBuffer) ==> t.input_buffer_miss == s.input_buffer_miss
            &&& verdict is SilenceAvailable || verdict is Silence ==> t.has(
                RT_STATUS_HOST_CONTRACT_VIOLATION,
            )
            &&& verdict is Muted || verdict is Empty || verdict is Process ==> t == s
            &&& verdict matches CaptureVerdict::Silence { left, right } ==> left
                <= buffer->0.left.maxsize && left <= 32_768 && right <= buffer->0.right.maxsize
                && right <= 32_768
        }),
{
    crate::rt_status::set_flag_is_local(
        s.status_bits,
        RT_STATUS_HOST_CONTRACT_VIOLATION,
        RT_STATUS_HOST_CONTRACT_VIOLATION,
    );
}

/// What is zeroed lies in the region and in a full bridge, at whole samples; a
/// sound region no longer than a full bridge is zeroed whole, a longer one as
/// far as a full bridge, and one without a usable address not at all.
pub proof fn silence_covers_the_region(ptr: int, max: int)
    requires
        ptr >= 0,
        max >= 0,
    ensures
        ({
            let n = silenced_bytes(ptr, max);
            &&& 0 <= n <= max && n <= 32_768 && n % 4 == 0
            &&& ptr == 0 || ptr % 4 != 0 ==> n == 0
            &&& ptr != 0 && ptr % 4 == 0 && max <= 32_768 && max % 4 == 0 ==> n == max
            &&& ptr != 0 && ptr % 4 == 0 && max >= 32_768 ==> n == 32_768
        }),
{
}

/// A chunk header is believed only where its stride is one sample and its
/// corruption bit is down; its numbers are then taken as they are.
pub proof fn chunk_is_believed_as_it_is(c: SpaChunk)
    ensures
        chunk_window(None) is Absent,
        chunk_window(Some(c)) is Valid <==> c.stride == 4 && c.flags & 1 == 0,
        !(chunk_window(Some(c)) is Absent),
        chunk_window(Some(c)) matches ChunkWindow::Valid(offset, size) ==> offset == c.offset
            && size == c.size,
        capture_window(None) == Some((0usize, 0usize)),
        capture_window(Some(c)) is None <==> c.stride != 4 || c.flags & 1 != 0,
        capture_window(Some(c)) matches Some(w) ==> w.0 == c.offset && w.1 == c.size,
{
}

/// The time between two readings makes up the difference, and is none where the
/// clock went back.
pub proof fn elapsed_time_adds_up(start: u64, end: u64)
    ensures
        end >= start ==> start + elapsed(start, end) == end,
        end <= start ==> elapsed(start, end) == 0,
{
}

/// A timed run is taken down as it was; the first one is remembered for good,
/// as some time, and an overload is counted.
pub proof fn timed_runs_are_taken_down(s: RtStatusFlags, nanos: u64, overload: bool)
    ensures
        ({
            let t = timed_status(s, nanos, overload);
            &&& t.dsp_cycle_time == nanos
            &&& t.first_block_nanos != 0
            &&& s.first_block_nanos != 0 ==> t.first_block_nanos == s.first_block_nanos
            &&& s.first_block_nanos == 0 && nanos != 0 ==> t.first_block_nanos == nanos
            &&& overload ==> t.dsp_overloads as int == (s.dsp_overloads + 1) % 0x1_0000_0000
            &&& !overload ==> t.dsp_overloads == s.dsp_overloads
            &&& t == RtStatusFlags {
                dsp_cycle_time: t.dsp_cycle_time,
                first_block_nanos: t.first_block_nanos,
                dsp_overloads: t.dsp_overloads,
                ..s
            }
        }),
{
}

/// The last block's size is always known afterwards, and a change of it is
/// announced with the new size.
pub proof fn changed_block_size_is_announced(s: RtStatusFlags, n: u32)
    ensures
        ({
            let t = block_size_noted(s, n);
            &&& t.last_n_samples == n
            &&& s.last_n_samples != n ==> t.requested_buffer_frames == n && t.has(
                RT_STATUS_NEEDS_QUANTUM_LOG,
            )
            &&& s.last_n_samples == n ==> t == s
            &&& t.previous_buffer_frames == s.previous_buffer_frames
            &&& block_size_noted(t, n) == t
        }),
{
    crate::rt_status::set_flag_is_local(
        s.status_bits,
        RT_STATUS_NEEDS_QUANTUM_LOG,
        RT_STATUS_NEEDS_QUANTUM_LOG,
    );
}

/// A healthy recorder that does not know the present rate is sent exactly one
/// header with it, where its channel has room, and knows the rate then; one that
/// knows it, or has failed, is sent none.
pub proof fn recorder_is_told_the_rate_once(
    a: RecorderView,
    rate: u32,
    failed: bool,
    b: RecorderView,
)
    requires
        metadata_outcome(a, rate, failed, b),
    ensures
        failed || (a.meta_sent && a.meta_rate == rate) ==> b.sent == a.sent && b.meta_sent
            == a.meta_sent && b.meta_rate == a.meta_rate,
        failed ==> b.data_available != Some(true) || a.data_available is None,
        !failed && !(a.meta_sent && a.meta_rate == rate) && a.sent.len() < a.held ==> {
            &&& b.meta_sent && b.meta_rate == rate
            &&& b.sent.len() == a.sent.len() + 1
            &&& b.sent.drop_last() =~= a.sent
            &&& b.sent.last() matches ControlPayload::Metadata { sample_rate, bit_depth, channels }
                && sample_rate == rate && bit_depth == 32 && channels == 2
            &&& a.data_available is Some ==> b.data_available == Some(true)
        },
        !failed && b.meta_sent ==> b.meta_rate == rate,
        b.sent.len() == a.sent.len() ==> b.sent == a.sent,
        a.data_available is None ==> b.data_available is None,
{
}

/// A lost block is counted once, with its frames.
pub proof fn lost_frames_are_counted(o: Overruns, n: int)
    requires
        n >= 0,
    ensures
        one_lost(o, n).blocks as int == (o.blocks + 1) % 0x1_0000_0000_0000_0000,
        one_lost(o, n).frames as int == (o.frames + n) % 0x1_0000_0000_0000_0000,
{
}

/// Every block that fits a recorded one goes to a healthy recorder that knows
/// the rate; no other does.
pub proof fn informed_recorder_gets_every_block(informed: bool, n_pw: int, failed: bool)
    ensures
        record_step(informed, n_pw, failed) is Enqueue ==> informed && !failed && 0 < n_pw <= 8192,
        informed && !failed && 0 < n_pw <= 8192 ==> record_step(informed, n_pw, failed) is Enqueue,
{
}

/// A silenced region is stamped exactly where something was zeroed and its
/// header lies at a usable address.
pub proof fn silenced_regions_are_stamped(d: SpaDescriptor, r: Silencing)
    requires
        silencing_is(d, r),
    ensures
        r.bytes <= d.maxsize && r.bytes <= 32_768 && r.bytes % 4 == 0,
        r.stamp <==> r.bytes > 0 && d.chunk_addr != 0 && d.chunk_addr % 4 == 0,
        d.ptr == 0 || d.ptr % 4 != 0 ==> r.bytes == 0 && !r.stamp,
        d.ptr != 0 && d.ptr % 4 == 0 && d.maxsize <= 32_768 && d.maxsize % 4 == 0 ==> r.bytes
            == d.maxsize,
{
}

/// A channel fits exactly where it is a run of whole samples at whole samples,
/// inside its region and no longer than a full bridge; a pair where both do, with
/// as many frames each, and share no byte.
pub proof fn fitting_pairs_are_sound(
    l: SpaRegion,
    offset_l: int,
    size_l: int,
    r: SpaRegion,
    offset_r: int,
    size_r: int,
)
    requires
        offset_l >= 0 && size_l >= 0,
        offset_r >= 0 && size_r >= 0,
    ensures
        channel_fits(l, offset_l, size_l) <==> l.base % 4 == 0 && offset_l % 4 == 0 && size_l % 4
            == 0 && offset_l + size_l <= l.len && size_l <= 32_768,
        pair_fits(l, offset_l, size_l, r, offset_r, size_r) ==> {
            &&& channel_fits(l, offset_l, size_l) && channel_fits(r, offset_r, size_r)
            &&& size_l == size_r
            &&& l.base + offset_l + size_l <= r.base + offset_r || r.base + offset_r + size_r
                <= l.base + offset_l
        },
        pair_fits(l, offset_l, size_l, r, offset_r, size_r) == pair_fits(
            r,
            offset_r,
            size_r,
            l,
            offset_l,
            size_l,
        ),
{
}

} // verus!
