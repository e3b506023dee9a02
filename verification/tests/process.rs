use nam_audio_pipe::payload::ControlPayload;
use nam_audio_pipe::process::{
    admit_capture_buffer, check_ffi_contract, check_spa_buffer_pair, chunk_is_readable,
    count_block, finish_recording_audio, handle_spa_pair_fail_closed, note_block_size,
    plan_recording_audio, process_dsp_buffer, read_chunk_meta, record_capture_time,
    record_dsp_time, record_enqueue_time, resolve_capture_chunk_window, send_recording_metadata,
    settle_header, silence_available_descriptors, silence_spa_channels, CaptureVerdict,
    ChunkWindow, EnqueueResult, HostBuffer, Overruns, RecordStep, RecordingSender, SpaChunk, SpaDescriptor, SpaRegion, MAX_BLOCK_SIZE,
    MAX_BRIDGE_BUF,
};
use nam_audio_pipe::stream_status::{note_stream_clock, HostClock, StreamStatusFlags};
use nam_audio_pipe::rt_status::{
    RtStatusFlags, RT_STATUS_HOST_CONTRACT_VIOLATION, RT_STATUS_NEEDS_QUANTUM_LOG,
};

const CONTROL_CAPACITY: usize = 8;
const POOL_CAPACITY: usize = 16;

fn region(bytes: &[u8]) -> SpaRegion {
    SpaRegion { base: bytes.as_ptr() as usize, len: bytes.len() }
}

/// Bytes whose first one is aligned for samples.
fn storage(samples: usize) -> Vec<u32> {
    vec![0u32; samples]
}

fn span(words: &[u32], from: usize, to: usize) -> SpaRegion {
    SpaRegion { base: words.as_ptr() as usize + from, len: to - from }
}

fn whole(words: &[u32]) -> SpaRegion {
    span(words, 0, words.len() * 4)
}

fn chunk_of(offset: u32, size: u32) -> SpaChunk {
    SpaChunk { offset, size, stride: 4, flags: 0 }
}

/// Host memory with a chunk header beside it.
struct Memory {
    words: Vec<u32>,
    header: Vec<u32>,
}

impl Memory {
    fn new(frames: usize, pattern: u8) -> Self {
        Memory {
            words: vec![u32::from_le_bytes([pattern; 4]); frames],
            header: vec![0u32; 4],
        }
    }

    fn ptr(&self) -> usize {
        self.words.as_ptr() as usize
    }

    fn maxsize(&self) -> usize {
        self.words.len() * 4
    }

    fn header_addr(&self) -> usize {
        self.header.as_ptr() as usize
    }

    fn at(&self, ptr: usize, maxsize: usize, chunk: SpaChunk) -> SpaDescriptor {
        SpaDescriptor { ptr, maxsize, chunk_addr: self.header_addr(), chunk: Some(chunk) }
    }

    fn with(&self, chunk: SpaChunk) -> SpaDescriptor {
        self.at(self.ptr(), self.maxsize(), chunk)
    }

    fn without_chunk(&self) -> SpaDescriptor {
        SpaDescriptor { ptr: self.ptr(), maxsize: self.maxsize(), chunk_addr: 0, chunk: None }
    }

    fn zero(&mut self, bytes: usize) {
        for word in self.words.iter_mut().take(bytes / 4) {
            *word = 0;
        }
    }

    fn all_zero(&self) -> bool {
        self.words.iter().all(|&w| w == 0)
    }
}

fn silence_pair(l: &mut Memory, r: &mut Memory) {
    let (bytes_l, bytes_r) = silence_spa_channels(l.ptr(), l.maxsize(), r.ptr(), r.maxsize());
    l.zero(bytes_l);
    r.zero(bytes_r);
}

fn violated(status: &RtStatusFlags) -> bool {
    status.check_flag(RT_STATUS_HOST_CONTRACT_VIOLATION)
}

fn recording_sender(capacity: usize) -> (RecordingSender, rtrb::Consumer<ControlPayload>) {
    let (producer, consumer) = rtrb::RingBuffer::new(capacity);
    (RecordingSender { control: Some(producer) }, consumer)
}

fn dummy_meta() -> ControlPayload {
    ControlPayload::Metadata { sample_rate: 48000, bit_depth: 32, channels: 2 }
}

fn expect_rate(consumer: &mut rtrb::Consumer<ControlPayload>, rate: u32) {
    match consumer.pop().unwrap() {
        ControlPayload::Metadata { sample_rate, bit_depth, channels } => {
            assert_eq!(sample_rate, rate);
            assert_eq!(bit_depth, 32);
            assert_eq!(channels, 2);
        }
    }
}

/// A stand-in for the pool transport: a bounded queue of planar blocks.
struct Pool {
    capacity: usize,
    blocks: Vec<(Vec<f32>, Vec<f32>)>,
}

impl Pool {
    fn new() -> Self {
        Pool { capacity: POOL_CAPACITY, blocks: Vec::new() }
    }

    fn publish(&mut self, l: &[f32], r: &[f32]) -> EnqueueResult {
        if self.blocks.len() == self.capacity {
            return EnqueueResult::Full;
        }
        self.blocks.push((l.to_vec(), r.to_vec()));
        EnqueueResult::Published
    }
}

fn send_recording_audio(
    pool: Option<&mut Pool>,
    n_pw: usize,
    l: &[f32],
    r: &[f32],
    flag: &mut Option<bool>,
    failed: bool,
    overruns: &mut Overruns,
) {
    if plan_recording_audio(true, n_pw, failed, flag, overruns) == RecordStep::Enqueue {
        let result = match pool {
            Some(pool) => pool.publish(&l[..n_pw], &r[..n_pw]),
            None => EnqueueResult::Absent,
        };
        finish_recording_audio(n_pw, result, flag, overruns);
    }
}

fn no_overruns() -> Overruns {
    Overruns { blocks: 0, frames: 0 }
}

#[test]
fn ffi_contract_valid_buffer() {
    let buf = storage(32);
    assert!(check_ffi_contract(whole(&buf), 0, 64).is_some());
    assert!(check_ffi_contract(whole(&buf), 4, 60).is_some());
}

#[test]
fn ffi_contract_exact_fit() {
    let buf = storage(32);
    let (n_bytes, n_samples) = check_ffi_contract(whole(&buf), 0, 128).unwrap();
    assert_eq!(n_bytes, 128);
    assert_eq!(n_samples, 32);
}

#[test]
fn ffi_contract_misaligned_byte_count_rejected() {
    let buf = storage(32);
    assert!(check_ffi_contract(whole(&buf), 0, 3).is_none());
    assert!(check_ffi_contract(whole(&buf), 0, 5).is_none());
}

#[test]
fn ffi_contract_unaligned_offset_rejected() {
    let buf = storage(32);
    assert!(check_ffi_contract(whole(&buf), 1, 4).is_none());
    assert!(check_ffi_contract(whole(&buf), 2, 8).is_none());
    assert!(check_ffi_contract(whole(&buf), 4, 8).is_some());
}

#[test]
fn ffi_contract_misaligned_base_pointer_rejected() {
    let storage = [0u8; 4 + 128];
    let base = storage.as_ptr() as usize;
    let align = std::mem::align_of::<f32>();
    let mut delta = 1usize;
    while (base + delta) % align == 0 {
        delta += 1;
    }
    let raw = region(&storage[delta..]);
    assert!(check_ffi_contract(raw, 0, 64).is_none());
    assert!(check_ffi_contract(raw, 4, 60).is_none());
}

#[test]
fn ffi_contract_offset_oob_rejected() {
    let buf = storage(32);
    assert!(check_ffi_contract(whole(&buf), 200, 64).is_none());
}

#[test]
fn ffi_contract_size_over_remaining_rejected_fail_closed() {
    let buf = storage(32);
    assert!(check_ffi_contract(whole(&buf), 64, 128).is_none());
    assert!(check_ffi_contract(whole(&buf), 128, 64).is_none());
    assert!(check_ffi_contract(whole(&buf), 64, 64).is_some());
}

#[test]
fn ffi_contract_size_exceeding_small_buffer_rejected() {
    let buf = storage(2);
    assert!(check_ffi_contract(span(&buf, 0, 5), 0, 8).is_none());
}

#[test]
fn an_offset_near_the_end_of_memory_does_not_wrap() {
    let buf = storage(32);
    assert!(check_ffi_contract(whole(&buf), usize::MAX - 3, 8).is_none());
    assert!(check_ffi_contract(whole(&buf), 4, usize::MAX - 3).is_none());
}

#[test]
fn spa_buffer_pair_accepts_disjoint_aligned_buffers() {
    let buf_l = storage(16);
    let buf_r = storage(16);
    assert_eq!(
        check_spa_buffer_pair(whole(&buf_l), 0, 32, whole(&buf_r), 0, 32),
        Some((32, 8))
    );
    assert_eq!(
        check_spa_buffer_pair(whole(&buf_l), 0, 64, whole(&buf_r), 0, 64),
        Some((64, 16))
    );
}

#[test]
fn spa_buffer_pair_accepts_adjacent_non_overlapping_regions() {
    let storage = storage(32);
    let first = span(&storage, 0, 64);
    let second = span(&storage, 64, 128);
    assert!(check_spa_buffer_pair(first, 0, 64, second, 0, 64).is_some());
}

#[test]
fn spa_buffer_pair_rejects_identical_buffers() {
    let buf = storage(16);
    assert!(check_spa_buffer_pair(whole(&buf), 0, 32, whole(&buf), 0, 32).is_none());
}

#[test]
fn spa_buffer_pair_rejects_partially_overlapping_buffers() {
    let storage = storage(24);
    let raw_l = span(&storage, 0, 64);
    let raw_r = span(&storage, 32, 96);
    assert!(check_spa_buffer_pair(raw_l, 0, 64, raw_r, 0, 64).is_none());
}

#[test]
fn spa_buffer_pair_rejects_contained_buffers() {
    let storage = storage(32);
    let raw_l = span(&storage, 0, 128);
    let raw_r = span(&storage, 32, 96);
    assert!(check_spa_buffer_pair(raw_l, 0, 128, raw_r, 0, 64).is_none());
}

#[test]
fn spa_buffer_pair_rejects_asymmetric_frame_counts() {
    let buf_l = storage(16);
    let buf_r = storage(32);
    assert!(check_spa_buffer_pair(whole(&buf_l), 0, 64, whole(&buf_r), 0, 32).is_none());
}

#[test]
fn spa_buffer_pair_rejects_misaligned_offset() {
    let buf_l = storage(16);
    let buf_r = storage(16);
    assert!(check_spa_buffer_pair(whole(&buf_l), 0, 32, whole(&buf_r), 1, 32).is_none());
}

#[test]
fn spa_buffer_pair_rejects_offset_out_of_bounds() {
    let buf_l = storage(16);
    let buf_r = storage(16);
    assert!(check_spa_buffer_pair(whole(&buf_l), 0, 32, whole(&buf_r), 48, 32).is_none());
}

#[test]
fn spa_buffer_pair_rejects_non_cardinal_size() {
    let buf_l = storage(16);
    let buf_r = storage(16);
    assert!(check_spa_buffer_pair(whole(&buf_l), 0, 32, whole(&buf_r), 0, 6).is_none());
}

#[test]
fn recording_metadata_confirmed_only_on_push_success() {
    let (mut sender, mut control_c) = recording_sender(CONTROL_CAPACITY);
    let mut meta_sent = false;
    let mut meta_rate = 0u32;
    let mut flag = Some(false);

    send_recording_metadata(&mut sender, 48000, &mut meta_sent, &mut meta_rate, &mut flag, false);

    assert!(meta_sent);
    assert_eq!(meta_rate, 48000);
    assert_eq!(flag, Some(true));
    expect_rate(&mut control_c, 48000);
}

#[test]
fn recording_metadata_not_confirmed_when_channel_full() {
    let (mut sender, mut control_c) = recording_sender(1);
    let mut meta_sent = false;
    let mut meta_rate = 0u32;
    let mut flag = None;

    sender.control.as_mut().unwrap().push(dummy_meta()).unwrap();

    send_recording_metadata(&mut sender, 48000, &mut meta_sent, &mut meta_rate, &mut flag, false);

    assert!(!meta_sent, "metadata must not be confirmed when push fails");
    assert_eq!(meta_rate, 0);

    let _ = control_c.pop().unwrap();
    send_recording_metadata(&mut sender, 48000, &mut meta_sent, &mut meta_rate, &mut flag, false);

    assert!(meta_sent);
    assert_eq!(meta_rate, 48000);
    expect_rate(&mut control_c, 48000);
}

#[test]
fn recording_metadata_reset_on_host_rate_change() {
    let (mut sender, mut control_c) = recording_sender(CONTROL_CAPACITY);
    let mut meta_sent = false;
    let mut meta_rate = 0u32;
    let mut flag = None;

    send_recording_metadata(&mut sender, 48000, &mut meta_sent, &mut meta_rate, &mut flag, false);
    assert!(meta_sent);
    assert_eq!(meta_rate, 48000);
    let _ = control_c.pop().unwrap();

    send_recording_metadata(&mut sender, 48000, &mut meta_sent, &mut meta_rate, &mut flag, false);
    assert!(control_c.pop().is_err());

    send_recording_metadata(&mut sender, 44100, &mut meta_sent, &mut meta_rate, &mut flag, false);
    assert!(meta_sent);
    assert_eq!(meta_rate, 44100);
    expect_rate(&mut control_c, 44100);
}

#[test]
fn recording_metadata_absent_producer_never_confirmed() {
    let mut sender = RecordingSender::none();
    let mut meta_sent = false;
    let mut meta_rate = 0u32;
    let mut flag = None;

    send_recording_metadata(&mut sender, 48000, &mut meta_sent, &mut meta_rate, &mut flag, false);

    assert!(!meta_sent);
    assert_eq!(meta_rate, 0);
}

#[test]
fn recording_metadata_not_pushed_when_worker_failed() {
    let (mut sender, mut control_c) = recording_sender(CONTROL_CAPACITY);
    let mut meta_sent = false;
    let mut meta_rate = 0u32;
    let mut flag = None;

    send_recording_metadata(&mut sender, 48000, &mut meta_sent, &mut meta_rate, &mut flag, true);

    assert!(!meta_sent, "metadata must not be confirmed while the worker failed");
    assert_eq!(meta_rate, 0);
    assert!(control_c.pop().is_err(), "no metadata may reach the dead worker");
}

#[test]
fn recording_audio_not_pushed_when_worker_failed() {
    let mut pool = Pool::new();
    let silence = vec![0.0f32; MAX_BLOCK_SIZE];
    let mut overruns = no_overruns();
    let mut flag = None;

    send_recording_audio(
        Some(&mut pool),
        MAX_BLOCK_SIZE,
        &silence,
        &silence,
        &mut flag,
        true,
        &mut overruns,
    );

    assert!(pool.blocks.is_empty(), "no audio may be published while the worker failed");
    assert_eq!(overruns.blocks, 0, "no overruns should be charged against a dead worker");
}

#[test]
fn recording_audio_zero_quantum_is_noop() {
    let mut pool = Pool::new();
    let silence = vec![0.0f32; MAX_BLOCK_SIZE];
    let mut overruns = no_overruns();
    send_recording_audio(Some(&mut pool), 0, &silence, &silence, &mut None, false, &mut overruns);
    assert!(pool.blocks.is_empty());
}

#[test]
fn recording_audio_sender_none_is_noop() {
    let silence = vec![0.0f32; MAX_BLOCK_SIZE];
    let mut overruns = no_overruns();
    let mut flag = Some(false);
    send_recording_audio(None, 64, &silence, &silence, &mut flag, false, &mut overruns);
    assert_eq!(overruns, no_overruns());
    assert_eq!(flag, Some(false));
}

#[test]
fn recording_audio_flag_cleared_when_worker_fails_in_flight() {
    let mut pool = Pool::new();
    let silence = vec![0.0f32; MAX_BLOCK_SIZE];
    let mut overruns = no_overruns();
    let mut flag = Some(true);

    send_recording_audio(Some(&mut pool), 4, &silence, &silence, &mut flag, false, &mut overruns);
    assert_eq!(flag, Some(true));

    send_recording_audio(Some(&mut pool), 4, &silence, &silence, &mut flag, true, &mut overruns);
    assert_eq!(flag, Some(false));

    assert_eq!(pool.blocks.len(), 1);
    assert_eq!(pool.blocks[0].0.len() + pool.blocks[0].1.len(), 8);
}

#[test]
fn recording_audio_oversized_block_dropped_and_counted() {
    let mut pool = Pool::new();
    let silence = vec![0.0f32; MAX_BLOCK_SIZE];
    let mut overruns = no_overruns();

    send_recording_audio(
        Some(&mut pool),
        MAX_BLOCK_SIZE,
        &silence,
        &silence,
        &mut None,
        false,
        &mut overruns,
    );

    assert!(pool.blocks.is_empty(), "oversized block must not be published");
    assert_eq!(overruns.blocks, 1);
    assert_eq!(
        overruns.frames, MAX_BLOCK_SIZE as u64,
        "the lost-frame counter must account the dropped block's frames"
    );
}

#[test]
fn recording_audio_normal_block_pushed() {
    let mut pool = Pool::new();
    let l: Vec<f32> = (0..4).map(|i| i as f32).collect();
    let r: Vec<f32> = (0..4).map(|i| -(i as f32)).collect();
    let mut overruns = no_overruns();
    let mut flag = Some(false);

    send_recording_audio(Some(&mut pool), 4, &l, &r, &mut flag, false, &mut overruns);

    assert_eq!(flag, Some(true));
    assert_eq!(pool.blocks[0].0, vec![0.0, 1.0, 2.0, 3.0]);
    assert_eq!(pool.blocks[0].1, vec![-0.0, -1.0, -2.0, -3.0]);
    assert_eq!(overruns, no_overruns());
}

#[test]
fn recording_audio_full_channel_counted_as_overrun() {
    let mut pool = Pool::new();
    for _ in 0..POOL_CAPACITY {
        assert_eq!(pool.publish(&[1.0], &[2.0]), EnqueueResult::Published);
    }
    let silence = vec![0.0f32; MAX_BLOCK_SIZE];
    let mut overruns = no_overruns();
    let mut flag = Some(false);

    send_recording_audio(Some(&mut pool), 4, &silence, &silence, &mut flag, false, &mut overruns);

    assert_eq!(flag, Some(false));
    assert_eq!(overruns.blocks, 1);
    assert_eq!(
        overruns.frames, 4,
        "a 4-frame block lost to an exhausted pool must be accounted in frames"
    );
}

#[test]
fn recording_audio_boundary_2048_2049_8192_frames_pushed() {
    for n_pw in [2048usize, 2049, MAX_BRIDGE_BUF] {
        let mut pool = Pool::new();
        let l = vec![0.5f32; n_pw];
        let r = vec![0.25f32; n_pw];
        let mut overruns = no_overruns();
        let mut flag = Some(false);

        send_recording_audio(Some(&mut pool), n_pw, &l, &r, &mut flag, false, &mut overruns);

        assert_eq!(flag, Some(true), "n_pw={n_pw}");
        assert_eq!(pool.blocks.len(), 1, "exactly one block per quantum");
        assert_eq!(pool.blocks[0].0.len(), n_pw, "n_pw={n_pw}");
        assert_eq!(pool.blocks[0].0.len() + pool.blocks[0].1.len(), n_pw * 2, "n_pw={n_pw}");
    }
}

#[test]
fn recording_audio_reconciliation_enqueued_plus_lost_equals_produced() {
    let frames = 2049usize;
    let mut pool = Pool::new();
    let l = vec![0.5f32; frames];
    let r = vec![0.25f32; frames];
    let mut overruns = no_overruns();

    for _ in 0..POOL_CAPACITY {
        assert_eq!(pool.publish(&l, &r), EnqueueResult::Published);
    }
    send_recording_audio(Some(&mut pool), frames, &l, &r, &mut None, false, &mut overruns);

    let enqueued_frames: usize = pool.blocks.iter().map(|b| b.0.len()).sum();
    let captured = (POOL_CAPACITY + 1) * frames;
    let lost = overruns.frames as usize;
    assert_eq!(enqueued_frames, POOL_CAPACITY * frames);
    assert_eq!(lost, frames);
    assert_eq!(captured, enqueued_frames + lost);
    assert_eq!(overruns.blocks, 1);
}

#[test]
fn recording_audio_pushed_when_gate_off_and_energy_zero() {
    let mut pool = Pool::new();
    let silence = vec![0.0f32; 64];
    let mut overruns = no_overruns();

    send_recording_audio(Some(&mut pool), 64, &silence, &silence, &mut None, false, &mut overruns);

    let (l, r) = &pool.blocks[0];
    assert_eq!(l.len() + r.len(), 128);
    assert!(l.iter().chain(r.iter()).all(|&x| x == 0.0f32));
}

#[test]
fn read_chunk_meta_rejects_null_pointer() {
    assert!(!chunk_is_readable(0));
    assert_eq!(read_chunk_meta(None), ChunkWindow::Absent);
}

#[test]
fn read_chunk_meta_reads_host_window() {
    let chunk = chunk_of(8, 64);
    assert_eq!(read_chunk_meta(Some(chunk)), ChunkWindow::Valid(8, 64));
}

#[test]
fn spa_corrupted_chunk_raises_contract_violation() {
    let mut l = Memory::new(16, 0x11);
    let mut r = Memory::new(16, 0x22);
    let mut rt = RtStatusFlags::new();
    let mut chunk = chunk_of(0, 64);
    chunk.flags = 1;

    assert_eq!(read_chunk_meta(Some(chunk)), ChunkWindow::Malformed);
    assert_eq!(resolve_capture_chunk_window(Some(chunk), &mut rt), None);
    silence_pair(&mut l, &mut r);
    assert!(violated(&rt));
    assert!(
        l.all_zero() && r.all_zero(),
        "corrupted chunk must silence both channels fail-closed"
    );
}

#[test]
fn spa_bad_stride_raises_contract_violation() {
    let mut l = Memory::new(16, 0x33);
    let mut r = Memory::new(16, 0x44);
    let mut rt = RtStatusFlags::new();
    let mut chunk = chunk_of(0, 64);
    chunk.stride = 2;

    assert_eq!(read_chunk_meta(Some(chunk)), ChunkWindow::Malformed);
    assert_eq!(resolve_capture_chunk_window(Some(chunk), &mut rt), None);
    silence_pair(&mut l, &mut r);
    assert!(violated(&rt));
    assert!(
        l.all_zero() && r.all_zero(),
        "bad-stride chunk must silence both channels fail-closed"
    );
}

#[test]
fn spa_absent_chunk_stays_silent_no_violation() {
    let l = Memory::new(16, 0);
    let r = Memory::new(16, 0);
    let mut rt = RtStatusFlags::new();
    let chunk = chunk_of(0, 0);

    assert_eq!(read_chunk_meta(Some(chunk)), ChunkWindow::Valid(0, 0));
    assert_eq!(resolve_capture_chunk_window(Some(chunk), &mut rt), Some((0, 0)));
    assert!(!violated(&rt));

    let got =
        handle_spa_pair_fail_closed(&l.with(chunk), (0, 0), &r.with(chunk), (0, 0), &mut rt);
    assert_eq!(got, Some((0, 0)));
    assert!(!violated(&rt));
}

#[test]
fn ffi_harness_accepts_valid_disjoint_pair() {
    let l = Memory::new(16, 0);
    let r = Memory::new(16, 0);
    let mut rt = RtStatusFlags::new();
    let chunk = chunk_of(0, 64);
    let got =
        handle_spa_pair_fail_closed(&l.with(chunk), (0, 64), &r.with(chunk), (0, 64), &mut rt);
    assert_eq!(got, Some((64, 16)));
    assert!(!violated(&rt));
}

#[test]
fn ffi_harness_rejects_null_data_pointer() {
    let r = Memory::new(16, 0);
    let mut rt = RtStatusFlags::new();
    let chunk = chunk_of(0, 64);
    let null = r.at(0, 64, chunk);
    assert_eq!(
        handle_spa_pair_fail_closed(&null, (0, 64), &r.with(chunk), (0, 64), &mut rt),
        None
    );
    assert!(violated(&rt));
}

#[test]
fn ffi_harness_rejects_null_chunk_pointer() {
    let l = Memory::new(16, 0);
    let r = Memory::new(16, 0);
    let mut rt = RtStatusFlags::new();
    assert_eq!(
        handle_spa_pair_fail_closed(
            &l.without_chunk(),
            (0, 64),
            &r.without_chunk(),
            (0, 64),
            &mut rt
        ),
        None
    );
    assert!(violated(&rt));
}

#[test]
fn ffi_harness_rejects_one_side_null_chunk() {
    let l = Memory::new(16, 0);
    let r = Memory::new(16, 0);
    let mut rt = RtStatusFlags::new();
    let chunk = chunk_of(0, 64);
    assert_eq!(
        handle_spa_pair_fail_closed(&l.with(chunk), (0, 64), &r.without_chunk(), (0, 64), &mut rt),
        None
    );
    assert!(violated(&rt));
}

#[test]
fn ffi_harness_rejects_unaligned_base_pointer_1_2_3() {
    for delta in [1usize, 2, 3] {
        let l = Memory::new(32, 0);
        let r = Memory::new(32, 0);
        let mut rt = RtStatusFlags::new();
        let chunk = chunk_of(0, 64);
        let shifted = l.at(l.ptr() + delta, l.maxsize().saturating_sub(delta), chunk);
        let res =
            handle_spa_pair_fail_closed(&shifted, (0, 64), &r.with(chunk), (0, 64), &mut rt);
        assert_eq!(res, None, "delta={delta}: unaligned base must be rejected");
        assert!(violated(&rt), "delta={delta}");
    }
}

#[test]
fn ffi_harness_rejects_unaligned_offset_1_2_3() {
    for delta in [1usize, 2, 3] {
        let l = Memory::new(32, 0);
        let r = Memory::new(32, 0);
        let mut rt = RtStatusFlags::new();
        let chunk = chunk_of(delta as u32, 64);
        let res = handle_spa_pair_fail_closed(
            &l.with(chunk),
            (delta, 64),
            &r.with(chunk),
            (0, 64),
            &mut rt,
        );
        assert_eq!(res, None, "delta={delta}: unaligned offset must be rejected");
        assert!(violated(&rt), "delta={delta}");
    }
}

#[test]
fn ffi_harness_rejects_identical_intervals() {
    let l = Memory::new(32, 0xAB);
    let mut rt = RtStatusFlags::new();
    let chunk = chunk_of(0, 128);
    assert_eq!(
        handle_spa_pair_fail_closed(&l.with(chunk), (0, 128), &l.with(chunk), (0, 128), &mut rt),
        None
    );
    assert!(violated(&rt));
}

#[test]
fn ffi_harness_rejects_partial_overlap() {
    let storage = Memory::new(24, 0xCD);
    let mut rt = RtStatusFlags::new();
    let d = storage.with(chunk_of(0, 64));
    assert_eq!(handle_spa_pair_fail_closed(&d, (0, 64), &d, (32, 64), &mut rt), None);
    assert!(violated(&rt));
}

#[test]
fn ffi_harness_rejects_contained_interval() {
    let storage = Memory::new(32, 0);
    let mut rt = RtStatusFlags::new();
    let d = storage.with(chunk_of(0, 128));
    assert_eq!(handle_spa_pair_fail_closed(&d, (0, 128), &d, (32, 64), &mut rt), None);
    assert!(violated(&rt));
}

#[test]
fn ffi_harness_rejects_odd_size_not_multiple_of_4() {
    let l = Memory::new(16, 0);
    let r = Memory::new(16, 0);
    for size in [3usize, 6, 10, 62] {
        let mut rt = RtStatusFlags::new();
        let chunk = chunk_of(0, size as u32);
        let res = handle_spa_pair_fail_closed(
            &l.with(chunk),
            (0, size),
            &r.with(chunk),
            (0, size),
            &mut rt,
        );
        assert_eq!(res, None, "size={size}: non-cardinal byte count must be rejected");
        assert!(violated(&rt), "size={size}");
    }
}

#[test]
fn ffi_harness_rejects_size_overflow_beyond_maxsize() {
    let l = Memory::new(16, 0);
    let r = Memory::new(16, 0);
    let mut rt = RtStatusFlags::new();
    let chunk = chunk_of(0, 64);
    assert_eq!(
        handle_spa_pair_fail_closed(&l.with(chunk), (0, 64), &r.with(chunk), (48, 32), &mut rt),
        None
    );
    assert!(violated(&rt));

    let mut rt = RtStatusFlags::new();
    let chunk = chunk_of(200, 64);
    assert_eq!(
        handle_spa_pair_fail_closed(&l.with(chunk), (200, 64), &r.with(chunk), (0, 64), &mut rt),
        None
    );
    assert!(violated(&rt));
}

#[test]
fn ffi_harness_rejects_asymmetric_frame_counts() {
    let l = Memory::new(64, 0);
    let r = Memory::new(32, 0);
    let mut rt = RtStatusFlags::new();
    let chunk = chunk_of(0, 0);
    assert_eq!(
        handle_spa_pair_fail_closed(
            &l.with(chunk),
            (0, l.maxsize()),
            &r.with(chunk),
            (0, r.maxsize()),
            &mut rt
        ),
        None
    );
    assert!(violated(&rt));
}

#[test]
fn ffi_harness_callback_rejects_and_silences_fail_closed() {
    let mut storage = Memory::new(24, 0xAB);
    let mut rt = RtStatusFlags::new();
    let d = storage.with(chunk_of(0, 64));
    let res = handle_spa_pair_fail_closed(&d, (0, 64), &d, (32, 64), &mut rt);
    assert_eq!(res, None);
    assert!(violated(&rt));
    let (left, right) = silence_spa_channels(d.ptr, d.maxsize, d.ptr, d.maxsize);
    storage.zero(left);
    storage.zero(right);
    assert!(storage.all_zero(), "fail-closed path must silence both channels");
}

#[test]
fn ffi_harness_capture_null_chunk_flagged_no_panic_no_reference() {
    let mut l = Memory::new(16, 0x11);
    let mut r = Memory::new(16, 0x22);
    let mut rt = RtStatusFlags::new();

    assert_eq!(resolve_capture_chunk_window(None, &mut rt), Some((0, 0)));
    assert_eq!(resolve_capture_chunk_window(None, &mut rt), Some((0, 0)));

    let res = handle_spa_pair_fail_closed(
        &l.without_chunk(),
        (0, 0),
        &r.without_chunk(),
        (0, 0),
        &mut rt,
    );
    assert_eq!(res, None);
    assert!(violated(&rt));
    silence_pair(&mut l, &mut r);
    assert!(l.all_zero(), "capture null chunk must silence the left channel");
    assert!(r.all_zero(), "capture null chunk must silence the right channel");
}

#[test]
fn ffi_harness_rejects_quantum_exceeding_max_bridge_buf() {
    let mut l = Memory::new(MAX_BRIDGE_BUF + 1, 0x11);
    let mut r = Memory::new(MAX_BRIDGE_BUF + 1, 0x22);
    let mut rt = RtStatusFlags::new();
    let size = (MAX_BRIDGE_BUF + 1) * 4;
    let chunk = chunk_of(0, size as u32);

    assert_eq!(
        handle_spa_pair_fail_closed(&l.with(chunk), (0, size), &r.with(chunk), (0, size), &mut rt),
        None
    );
    assert!(violated(&rt));
    silence_pair(&mut l, &mut r);
    assert!(
        l.words[..MAX_BRIDGE_BUF].iter().all(|&w| w == 0)
            && r.words[..MAX_BRIDGE_BUF].iter().all(|&w| w == 0),
        "oversized quantum must silence both channels fail-closed up to max bridge bound"
    );
}

#[test]
fn ffi_harness_accepts_max_bridge_buf_quantum() {
    let l = Memory::new(MAX_BRIDGE_BUF, 0);
    let r = Memory::new(MAX_BRIDGE_BUF, 0);
    let mut rt = RtStatusFlags::new();
    let size = MAX_BRIDGE_BUF * 4;
    let chunk = chunk_of(0, size as u32);

    assert_eq!(
        handle_spa_pair_fail_closed(&l.with(chunk), (0, size), &r.with(chunk), (0, size), &mut rt),
        Some((size, MAX_BRIDGE_BUF))
    );
    assert!(!violated(&rt));
}

#[test]
fn ffi_harness_recovers_after_oversized_quantum() {
    let big_l = Memory::new(MAX_BRIDGE_BUF + 1, 0x33);
    let big_r = Memory::new(MAX_BRIDGE_BUF + 1, 0x33);
    let mut rt = RtStatusFlags::new();
    let big = (MAX_BRIDGE_BUF + 1) * 4;
    let big_chunk = chunk_of(0, big as u32);

    assert_eq!(
        handle_spa_pair_fail_closed(
            &big_l.with(big_chunk),
            (0, big),
            &big_r.with(big_chunk),
            (0, big),
            &mut rt
        ),
        None
    );
    assert!(violated(&rt));

    let l = Memory::new(128, 0);
    let r = Memory::new(128, 0);
    let chunk = chunk_of(0, 512);
    assert_eq!(
        handle_spa_pair_fail_closed(&l.with(chunk), (0, 512), &r.with(chunk), (0, 512), &mut rt),
        Some((512, 128))
    );
}

#[test]
fn silence_spa_channels_bounds_huge_buffer_to_max_bridge_buf() {
    let total_samples = MAX_BRIDGE_BUF + 2048;
    let mut l = Memory::new(total_samples, 0x33);
    let mut r = Memory::new(total_samples, 0x44);

    silence_pair(&mut l, &mut r);

    assert!(
        l.words[..MAX_BRIDGE_BUF].iter().all(|&w| w == 0),
        "left channel must be zeroed up to MAX_BRIDGE_BUF"
    );
    assert!(
        r.words[..MAX_BRIDGE_BUF].iter().all(|&w| w == 0),
        "right channel must be zeroed up to MAX_BRIDGE_BUF"
    );
    assert!(
        l.words[MAX_BRIDGE_BUF..].iter().all(|&w| w == 0x3333_3333),
        "left trailing memory must not be touched"
    );
    assert!(
        r.words[MAX_BRIDGE_BUF..].iter().all(|&w| w == 0x4444_4444),
        "right trailing memory must not be touched"
    );
}

#[test]
fn ffi_harness_accepts_huge_maxsize_with_small_quantum() {
    let l = Memory::new(MAX_BRIDGE_BUF * 4, 0);
    let r = Memory::new(MAX_BRIDGE_BUF * 4, 0);
    let mut rt = RtStatusFlags::new();
    let chunk = chunk_of(0, 256);

    assert_eq!(
        handle_spa_pair_fail_closed(&l.with(chunk), (0, 256), &r.with(chunk), (0, 256), &mut rt),
        Some((256, 64))
    );
    assert!(!violated(&rt));
}

#[test]
fn recording_metadata_rate_change_full_control_ring_blocks_audio_until_consumed() {
    let (mut sender, mut control_c) = recording_sender(CONTROL_CAPACITY);
    let mut meta_sent = false;
    let mut meta_rate = 44100u32;
    let mut flag = None;

    send_recording_metadata(&mut sender, 44100, &mut meta_sent, &mut meta_rate, &mut flag, false);
    assert!(meta_sent);
    assert_eq!(meta_rate, 44100);
    assert_eq!(control_c.slots(), 1);

    while control_c.slots() < CONTROL_CAPACITY {
        if sender.control.as_mut().unwrap().push(dummy_meta()).is_err() {
            break;
        }
    }
    assert_eq!(control_c.slots(), CONTROL_CAPACITY);

    send_recording_metadata(&mut sender, 48000, &mut meta_sent, &mut meta_rate, &mut flag, false);

    assert!(
        !meta_sent,
        "Metadata push failure on rate change must invalidate meta_sent so audio is blocked"
    );

    let _ = control_c.pop();

    send_recording_metadata(&mut sender, 48000, &mut meta_sent, &mut meta_rate, &mut flag, false);
    assert!(
        meta_sent,
        "Metadata push on freed control slot must succeed and set meta_sent to true"
    );
    assert_eq!(meta_rate, 48000);
}

/// Does what the decisions for a malformed buffer ask for.
fn silence_all(memory: &mut Memory, chunk: &mut SpaChunk) -> usize {
    let actions = silence_available_descriptors(&[memory.with(*chunk)]);
    for action in &actions {
        memory.zero(action.bytes);
        if action.stamp {
            *chunk = SpaChunk {
                offset: 0,
                size: action.bytes as u32,
                stride: 4,
                flags: chunk.flags,
            };
        }
    }
    actions.len()
}

#[test]
fn silence_available_descriptors_empty_slice_is_noop() {
    assert!(silence_available_descriptors(&[]).is_empty());
}

#[test]
fn silence_available_descriptors_single_channel_zeros_and_stamps_chunk() {
    let mut buf = Memory::new(128, 0xAB);
    let mut chunk = chunk_of(16, 64);

    assert_eq!(silence_all(&mut buf, &mut chunk), 1);

    assert!(buf.all_zero(), "single channel descriptor must be zeroed out completely");
    assert_eq!(chunk.offset, 0);
    assert_eq!(chunk.size, 512);
    assert_eq!(chunk.stride, 4);
}

#[test]
fn silence_available_descriptors_bounds_huge_single_channel() {
    let total_samples = MAX_BRIDGE_BUF + 1024;
    let mut buf = Memory::new(total_samples, 0x5A);
    let mut chunk = chunk_of(0, 100);

    silence_all(&mut buf, &mut chunk);

    assert!(
        buf.words[..MAX_BRIDGE_BUF].iter().all(|&w| w == 0),
        "zeroing must cover up to MAX_BRIDGE_BUF"
    );
    assert!(
        buf.words[MAX_BRIDGE_BUF..].iter().all(|&w| w == 0x5A5A_5A5A),
        "trailing memory beyond MAX_BRIDGE_BUF * 4 must stay intact"
    );
    assert_eq!(chunk.offset, 0);
    assert_eq!(chunk.size, (MAX_BRIDGE_BUF * 4) as u32);
    assert_eq!(chunk.stride, 4);
}

#[test]
fn capture_datas_less_than_two_sets_contract_violation_flag() {
    let mut rt = RtStatusFlags::new();
    let mut buf = Memory::new(64, 0x77);
    let mut chunk = chunk_of(0, 256);

    let descriptor = buf.with(chunk);
    let one = HostBuffer { regions: 1, left: descriptor, right: descriptor };
    assert_eq!(
        admit_capture_buffer(Some(one), true, &mut rt),
        CaptureVerdict::SilenceAvailable
    );
    silence_all(&mut buf, &mut chunk);

    assert!(violated(&rt));
    assert!(buf.all_zero());
    assert_eq!(chunk.offset, 0);
    assert_eq!(chunk.size, 256);
    assert_eq!(chunk.stride, 4);
}

#[test]
fn every_capture_buffer_gets_its_verdict() {
    let l = Memory::new(64, 1);
    let r = Memory::new(64, 2);
    let good = HostBuffer {
        regions: 2,
        left: l.with(chunk_of(0, 128)),
        right: r.with(chunk_of(4, 128)),
    };
    let mut rt = RtStatusFlags::new();
    assert_eq!(
        admit_capture_buffer(Some(good), true, &mut rt),
        CaptureVerdict::Process { frames: 32, offset_l: 0, offset_r: 4 }
    );
    assert_eq!(admit_capture_buffer(Some(good), false, &mut rt), CaptureVerdict::Muted);
    assert_eq!(rt, RtStatusFlags::new());
    assert_eq!(admit_capture_buffer(None, true, &mut rt), CaptureVerdict::NoBuffer);
    assert_eq!(rt.input_buffer_miss, 1);
    let empty = HostBuffer {
        left: l.with(chunk_of(0, 0)),
        right: r.with(chunk_of(0, 0)),
        ..good
    };
    assert_eq!(admit_capture_buffer(Some(empty), true, &mut rt), CaptureVerdict::Empty);
    assert!(!violated(&rt));
    let aliased = HostBuffer { right: good.left, ..good };
    assert_eq!(
        admit_capture_buffer(Some(aliased), true, &mut rt),
        CaptureVerdict::Silence { left: 256, right: 256 }
    );
    assert!(violated(&rt));
}

#[test]
fn a_processed_block_is_counted_and_announced() {
    let l = Memory::new(64, 1);
    let r = Memory::new(64, 2);
    let good = HostBuffer {
        regions: 2,
        left: l.with(chunk_of(0, 256)),
        right: r.with(chunk_of(0, 256)),
    };
    let (mut sender, mut control_c) = recording_sender(2);
    let mut rt = RtStatusFlags::new();
    let mut frame_count = 0u32;
    let mut meta_sent = false;
    let mut meta_rate = 0u32;
    let mut flag = Some(false);
    let start = process_dsp_buffer(
        Some(good),
        true,
        96000,
        &mut frame_count,
        &mut rt,
        &mut sender,
        &mut meta_sent,
        &mut meta_rate,
        &mut flag,
        false,
    );
    assert_eq!(start.verdict, CaptureVerdict::Process { frames: 64, offset_l: 0, offset_r: 0 });
    let cadence = start.cadence.unwrap();
    assert!(cadence.measure);
    assert!(!cadence.refresh_fp_mode);
    assert_eq!(frame_count, 1);
    assert_eq!((meta_sent, meta_rate, flag), (true, 96000, Some(true)));
    expect_rate(&mut control_c, 96000);

    let start = process_dsp_buffer(
        None,
        true,
        48000,
        &mut frame_count,
        &mut rt,
        &mut sender,
        &mut meta_sent,
        &mut meta_rate,
        &mut flag,
        false,
    );
    assert_eq!(start.verdict, CaptureVerdict::NoBuffer);
    assert_eq!(start.cadence, None);
    assert_eq!((frame_count, meta_rate), (1, 96000));
    assert!(control_c.pop().is_err());
}

#[test]
fn blocks_are_counted_and_timed() {
    let mut frame_count = 1023u32;
    let cadence = count_block(&mut frame_count);
    assert!(!cadence.measure);
    assert!(cadence.refresh_fp_mode);
    let mut last = u32::MAX;
    count_block(&mut last);
    assert_eq!(last, 0);

    let mut rt = RtStatusFlags::new();
    assert_eq!(record_dsp_time(0, 900, true, &mut rt), None);
    assert_eq!(rt, RtStatusFlags::new());
    assert_eq!(record_dsp_time(900, 900, false, &mut rt), Some(0));
    assert_eq!((rt.first_block_nanos, rt.dsp_cycle_time, rt.dsp_overloads), (1, 0, 0));
    assert_eq!(record_dsp_time(900, 1500, true, &mut rt), Some(600));
    assert_eq!((rt.first_block_nanos, rt.dsp_cycle_time, rt.dsp_overloads), (1, 600, 1));
}

#[test]
fn a_changed_block_size_is_announced_once() {
    let mut rt = RtStatusFlags::new();
    note_block_size(256, &mut rt);
    assert_eq!((rt.last_n_samples, rt.requested_buffer_frames), (256, 256));
    assert!(rt.check_flag(RT_STATUS_NEEDS_QUANTUM_LOG));
    rt.clear_flag(RT_STATUS_NEEDS_QUANTUM_LOG);
    note_block_size(256, &mut rt);
    assert!(!rt.check_flag(RT_STATUS_NEEDS_QUANTUM_LOG));
}

#[test]
fn no_audio_is_recorded_before_the_recorder_knows_the_rate() {
    let mut flag = Some(true);
    let mut overruns = no_overruns();
    assert_eq!(
        plan_recording_audio(false, 64, false, &mut flag, &mut overruns),
        RecordStep::Skip
    );
    assert_eq!(
        plan_recording_audio(false, MAX_BLOCK_SIZE, true, &mut flag, &mut overruns),
        RecordStep::Skip
    );
    assert_eq!((flag, overruns), (Some(true), no_overruns()));
}

#[test]
fn stage_times_and_clocks_are_taken_down() {
    let mut streams = StreamStatusFlags::new();
    assert_eq!(record_capture_time(false, 10, 30, &mut streams), None);
    assert_eq!(record_capture_time(true, 0, 30, &mut streams), None);
    assert_eq!(streams, StreamStatusFlags::new());
    assert_eq!(record_capture_time(true, 10, 30, &mut streams), Some(20));
    assert_eq!((streams.capture_cycle_time, streams.capture_start_tsc), (20, 10));
    assert_eq!(record_enqueue_time(0, 5, &mut streams), None);
    assert_eq!(record_enqueue_time(7, 5, &mut streams), Some(0));
    assert_eq!(record_enqueue_time(7, 9, &mut streams), Some(2));
    assert_eq!(streams.record_cycle_time, 2);
    let clock = HostClock { now: 5, ticks: 6, delay: -1 };
    note_stream_clock(&mut streams, "playback", clock);
    assert_eq!(streams.playback_clock, clock);
    assert_eq!(streams.capture_clock, HostClock { now: 0, ticks: 0, delay: 0 });
}

#[test]
fn a_control_channel_takes_as_many_headers_as_it_holds() {
    let (producer, mut consumer) = rtrb::RingBuffer::new(2);
    let mut sender = RecordingSender { control: Some(producer) };
    assert!(sender.try_push_metadata(44_100));
    assert!(sender.try_push_metadata(48_000));
    assert!(!sender.try_push_metadata(96_000));
    for rate in [44_100, 48_000] {
        assert_eq!(
            consumer.pop(),
            Ok(ControlPayload::Metadata { sample_rate: rate, bit_depth: 32, channels: 2 })
        );
    }
    assert!(consumer.pop().is_err());
    assert!(!RecordingSender::none().try_push_metadata(48_000));
}

#[test]
fn a_header_is_confirmed_only_once_it_is_taken() {
    let (mut sent, mut rate, mut flag) = (false, 0u32, Some(false));
    settle_header(false, 48_000, &mut sent, &mut rate, &mut flag);
    assert_eq!((sent, rate, flag), (false, 0, Some(false)));
    settle_header(true, 48_000, &mut sent, &mut rate, &mut flag);
    assert_eq!((sent, rate, flag), (true, 48_000, Some(true)));
    let mut absent = None;
    settle_header(true, 44_100, &mut sent, &mut rate, &mut absent);
    assert_eq!((sent, rate, absent), (true, 44_100, None));
}
