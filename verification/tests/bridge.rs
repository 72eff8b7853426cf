use openh264_bridge::{BoundedQueue, CodecAdapter, DecodeWorker, EncodedUnit, Error, FrameFlags, SendRefused, Void};

#[test]
fn full_queue_refuses_send() {
    let mut q: BoundedQueue<u32> = BoundedQueue::new(2);
    assert!(q.try_send(1).is_ok());
    assert!(q.try_send(2).is_ok());
    assert!(q.is_full());
    match q.try_send(3) {
        Err(SendRefused::Full(x)) => assert_eq!(x, 3),
        _ => panic!("a full queue must refuse the value unsent"),
    }
    assert_eq!(q.len(), 2);
}

#[test]
fn queue_is_fifo() {
    let mut q: BoundedQueue<u32> = BoundedQueue::new(3);
    assert!(q.try_send(10).is_ok());
    assert!(q.try_send(20).is_ok());
    assert!(q.try_send(30).is_ok());
    assert_eq!(q.try_recv(), Some(10));
    assert_eq!(q.try_recv(), Some(20));
    assert!(q.try_send(40).is_ok());
    assert_eq!(q.try_recv(), Some(30));
    assert_eq!(q.try_recv(), Some(40));
    assert_eq!(q.try_recv(), None);
}

#[test]
fn closed_queue_drains_then_terminates() {
    let mut q: BoundedQueue<u32> = BoundedQueue::new(2);
    assert!(q.try_send(1).is_ok());
    assert!(q.try_send(2).is_ok());
    q.close();
    match q.try_send(3) {
        Err(SendRefused::Closed(x)) => assert_eq!(x, 3),
        _ => panic!("a closed queue must refuse new sends"),
    }
    assert!(!q.terminated());
    assert_eq!(q.try_recv(), Some(1));
    assert_eq!(q.try_recv(), Some(2));
    assert_eq!(q.try_recv(), None);
    assert!(q.terminated());
}

#[test]
fn extend_keeps_variant_and_text() {
    let io: Error<Void> = Error::IoError(String::from("short read"));
    match io.extend::<String>() {
        Error::IoError(m) => assert_eq!(m, "short read"),
        _ => panic!("the variant must carry over"),
    }
    let codec: Error<Void> = Error::OpenH264Error(String::from("bad NAL"));
    match codec.extend::<String>() {
        Error::OpenH264Error(m) => assert_eq!(m, "bad NAL"),
        _ => panic!("the variant must carry over"),
    }
    let closed: Error<Void> = Error::ChannelClosed;
    match closed.extend::<String>() {
        Error::ChannelClosed => {}
        _ => panic!("the variant must carry over"),
    }
}

#[test]
fn native_codec_buffers_header_bytes() {
    let mut codec = match CodecAdapter::new() {
        Ok(c) => c,
        Err(e) => panic!("constructing the built-in decoder failed: {e}"),
    };
    let mut worker: DecodeWorker<u64> = DecodeWorker::new();
    // An Annex-B delimiter with no payload: the codec consumes it without
    // producing a picture and without failing.
    let unit = EncodedUnit {
        timestamp: 1,
        flags: FrameFlags::empty(),
        source: 0u64,
        chunks: vec![vec![0u8, 0, 0, 1]],
    };
    let out = worker.process_unit(&mut codec, unit, 0);
    assert!(out.len() <= 1);
    for item in &out {
        if let Ok(f) = item {
            let (w, h) = f.dimensions();
            assert_eq!(f.chunks().len(), w as usize * h as usize * 3);
        }
    }
}

#[test]
fn native_codec_rejects_garbage() {
    let mut codec = match CodecAdapter::new() {
        Ok(c) => c,
        Err(e) => panic!("constructing the built-in decoder failed: {e}"),
    };
    let mut worker: DecodeWorker<u64> = DecodeWorker::new();
    let unit = EncodedUnit {
        timestamp: 1,
        flags: FrameFlags::empty(),
        source: 0u64,
        chunks: vec![vec![0u8, 0, 0, 1, 0x65, 0xff, 0x12, 0x34, 0x56]],
    };
    let out = worker.process_unit(&mut codec, unit, 0);
    // Whatever the codec decided, errors may only come last, and a fatal
    // error stops the worker.
    for item in &out[..out.len().saturating_sub(1)] {
        assert!(item.is_ok());
    }
    match out.last() {
        Some(Err(Error::OpenH264Error(_))) => assert!(!worker.live()),
        _ => assert!(worker.live()),
    }
}
