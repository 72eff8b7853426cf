use openh264_bridge::frame::{FLAG_ANNEXB, FLAG_ENCODED, FLAG_KEYFRAME, FLAG_VIDEO_STREAM};
use openh264_bridge::{ChunkOutcome, DecodeWorker, DecodedImage, FrameFlags, PendingEntry, ReassocHeap};

fn image(width: usize, height: usize) -> DecodedImage {
    DecodedImage { width, height, rgb: vec![0u8; width * height * 3] }
}

fn encoded_flags() -> FrameFlags {
    FrameFlags::from_bits(FLAG_VIDEO_STREAM | FLAG_ENCODED | FLAG_ANNEXB)
}

#[test]
fn three_units_in_order() {
    let mut worker: DecodeWorker<u64> = DecodeWorker::new();
    let mut timestamps = Vec::new();
    let mut sources = Vec::new();
    for (ts, src) in [(10u64, 1u64), (20, 2), (30, 3)] {
        worker.accept_unit(ts, encoded_flags(), src);
        match worker.on_decode_result(Ok(Some(image(2, 2))), 0) {
            ChunkOutcome::Emit(f) => {
                timestamps.push(f.timestamp());
                sources.push(*f.source());
            }
            _ => panic!("each unit decodes synchronously to one image"),
        }
    }
    assert_eq!(timestamps, vec![10, 20, 30]);
    assert_eq!(sources, vec![1, 2, 3]);
}

#[test]
fn buffered_unit_stamps_later_output() {
    let mut worker: DecodeWorker<u64> = DecodeWorker::new();
    worker.accept_unit(5, encoded_flags(), 7);
    match worker.on_decode_result(Ok(None), 0) {
        ChunkOutcome::Buffered => {}
        _ => panic!("the codec buffered this unit"),
    }
    worker.accept_unit(15, encoded_flags(), 8);
    match worker.on_decode_result(Ok(Some(image(2, 2))), 0) {
        ChunkOutcome::Emit(f) => {
            assert_eq!(f.timestamp(), 5);
            assert_eq!(*f.source(), 7);
        }
        _ => panic!("the second unit decodes to one image"),
    }
}

#[test]
fn repeated_timestamp_does_not_grow_heap() {
    let mut worker: DecodeWorker<u64> = DecodeWorker::new();
    worker.accept_unit(42, encoded_flags(), 1);
    assert_eq!(worker.pending_len(), 1);
    worker.accept_unit(42, encoded_flags(), 1);
    assert_eq!(worker.pending_len(), 1);
    worker.accept_unit(42, encoded_flags(), 1);
    assert_eq!(worker.pending_len(), 1);
    worker.accept_unit(43, encoded_flags(), 1);
    assert_eq!(worker.pending_len(), 2);
}

#[test]
fn interleaved_outputs_nondecreasing() {
    let mut worker: DecodeWorker<u64> = DecodeWorker::new();
    let mut emitted = Vec::new();
    worker.accept_unit(1, encoded_flags(), 0);
    worker.accept_unit(2, encoded_flags(), 0);
    if let ChunkOutcome::Emit(f) = worker.on_decode_result(Ok(Some(image(1, 1))), 0) {
        emitted.push(f.timestamp());
    }
    worker.accept_unit(3, encoded_flags(), 0);
    for _ in 0..2 {
        if let ChunkOutcome::Emit(f) = worker.on_decode_result(Ok(Some(image(1, 1))), 0) {
            emitted.push(f.timestamp());
        }
    }
    assert_eq!(emitted, vec![1, 2, 3]);
    assert!(emitted.windows(2).all(|w| w[0] <= w[1]));
}

#[test]
fn underrun_emits_degraded_defaults() {
    let mut worker: DecodeWorker<u64> = DecodeWorker::new();
    assert_eq!(worker.underruns(), 0);
    let f = worker.on_image(image(2, 2), 99);
    assert_eq!(f.timestamp(), 0);
    assert_eq!(*f.source(), 99);
    assert_eq!(f.flags().bits, FLAG_VIDEO_STREAM);
    assert_eq!(worker.underruns(), 1);
}

#[test]
fn dimensions_round_trip() {
    let mut worker: DecodeWorker<u64> = DecodeWorker::new();
    worker.accept_unit(1, encoded_flags(), 0);
    match worker.on_decode_result(Ok(Some(image(3, 2))), 0) {
        ChunkOutcome::Emit(f) => {
            assert_eq!(f.dimensions(), (3, 2));
            assert_eq!(f.chunks().len(), 3 * 2 * 3);
            assert_eq!(f.into_chunks().len(), 18);
        }
        _ => panic!("the unit decodes to one image"),
    }
}

#[test]
fn emitted_frame_clears_encoded_bits() {
    let mut worker: DecodeWorker<u64> = DecodeWorker::new();
    worker.accept_unit(1, FrameFlags::from_bits(FLAG_VIDEO_STREAM | FLAG_ENCODED | FLAG_ANNEXB | FLAG_KEYFRAME), 0);
    match worker.on_decode_result(Ok(Some(image(1, 1))), 0) {
        ChunkOutcome::Emit(f) => {
            assert!(f.flags().contains(FLAG_KEYFRAME));
            assert!(f.flags().contains(FLAG_VIDEO_STREAM));
            assert!(!f.flags().contains(FLAG_ENCODED));
            assert!(!f.flags().contains(FLAG_ANNEXB));
            assert_eq!(f.codec(), [b'R', b'G', b'2', b'4']);
            assert_eq!(f.bit_depth(), 8);
        }
        _ => panic!("the unit decodes to one image"),
    }
}

#[test]
fn codec_error_stops_worker() {
    let mut worker: DecodeWorker<u64> = DecodeWorker::new();
    worker.accept_unit(1, encoded_flags(), 0);
    assert!(worker.live());
    match worker.on_decode_result(Err(String::from("corrupt bitstream")), 0) {
        ChunkOutcome::Fatal(openh264_bridge::Error::OpenH264Error(m)) => {
            assert_eq!(m, "corrupt bitstream");
        }
        _ => panic!("a codec error is fatal"),
    }
    assert!(!worker.live());
}

#[test]
fn heap_pops_min_with_insertion_tiebreak() {
    let mut heap: ReassocHeap<u64> = ReassocHeap::new();
    let flags = FrameFlags::empty();
    heap.push(PendingEntry { timestamp: 5, flags, source: 1 });
    heap.push(PendingEntry { timestamp: 3, flags, source: 2 });
    heap.push(PendingEntry { timestamp: 3, flags, source: 3 });
    heap.push(PendingEntry { timestamp: 9, flags, source: 4 });
    assert_eq!(heap.min_timestamp(), Some(3));
    let order: Vec<(u64, u64)> = std::iter::from_fn(|| heap.pop_min().map(|e| (e.timestamp, e.source))).collect();
    assert_eq!(order, vec![(3, 2), (3, 3), (5, 1), (9, 4)]);
    assert!(heap.is_empty());
    assert_eq!(heap.pop_min().map(|e| e.timestamp), None);
}

#[test]
fn heap_record_dedups_only_on_min_match() {
    let mut heap: ReassocHeap<u64> = ReassocHeap::new();
    let flags = FrameFlags::empty();
    heap.record(PendingEntry { timestamp: 4, flags, source: 0 });
    heap.record(PendingEntry { timestamp: 4, flags, source: 0 });
    assert_eq!(heap.len(), 1);
    heap.record(PendingEntry { timestamp: 6, flags, source: 0 });
    assert_eq!(heap.len(), 2);
    heap.record(PendingEntry { timestamp: 4, flags, source: 0 });
    assert_eq!(heap.len(), 2);
}
