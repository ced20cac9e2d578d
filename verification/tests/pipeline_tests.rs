use framestream::registry::Registry;
use framestream::worker::WorkerState;
use framestream::FrameSlot;

/// The decimal value after `Content-Length: ` in one multipart chunk.
fn content_length_of(chunk: &[u8]) -> usize {
    let marker = b"Content-Length: ";
    let start = chunk
        .windows(marker.len())
        .position(|w| w == marker)
        .expect("chunk has no Content-Length header")
        + marker.len();
    let mut n: usize = 0;
    for &b in &chunk[start..] {
        if b.is_ascii_digit() {
            n = n * 10 + (b - b'0') as usize;
        } else {
            break;
        }
    }
    n
}

#[test]
fn three_frames_deliver_three_chunks_in_order() {
    // A client connects before the first publish, then reads one chunk per
    // published frame: the three content lengths arrive in publish order,
    // each chunk opening with the boundary marker.
    let slot = FrameSlot::new();
    let mut registry = Registry::new();
    assert!(registry.has_capacity());
    let _session = registry.register();

    let header = framestream::http::response_header();
    assert!(header.starts_with(b"HTTP/1.1 200 OK\r\n"));

    let mut worker = WorkerState::new();
    assert!(worker.step(&slot.snapshot()).is_none());

    let sizes: [usize; 3] = [100, 250, 90];
    let mut received: Vec<Vec<u8>> = Vec::new();
    for (i, &size) in sizes.iter().enumerate() {
        slot.publish(vec![i as u8; size]);
        if let Some(chunk) = worker.step(&slot.snapshot()) {
            received.push(chunk);
        }
    }

    assert_eq!(received.len(), 3);
    for (i, chunk) in received.iter().enumerate() {
        assert!(chunk.starts_with(b"--frame\r\n"));
        assert!(chunk.ends_with(b"\r\n"));
        assert_eq!(content_length_of(chunk), sizes[i]);
    }
}

#[test]
fn closing_one_client_leaves_the_other_streaming() {
    let slot = FrameSlot::new();
    let mut registry = Registry::new();
    let id_a = registry.register();
    let id_b = registry.register();
    assert_eq!(registry.count(), 2);

    let mut worker_a = WorkerState::new();
    let mut worker_b = WorkerState::new();

    slot.publish(vec![1; 8]);
    assert!(worker_a.step(&slot.snapshot()).is_some());
    assert!(worker_b.step(&slot.snapshot()).is_some());

    // client B's connection dies mid-stream: only B's session goes away
    registry.deregister(id_b);
    assert_eq!(registry.count(), 1);
    assert!(registry.is_registered(id_a));
    assert!(!registry.is_registered(id_b));

    // client A keeps receiving newer generations
    slot.publish(vec![2; 16]);
    let chunk = worker_a.step(&slot.snapshot()).expect("client A was interrupted");
    assert_eq!(content_length_of(&chunk), 16);
    assert_eq!(worker_a.last_sent, 2);

    slot.publish(vec![3; 4]);
    assert!(worker_a.step(&slot.snapshot()).is_some());
    assert_eq!(worker_a.last_sent, 3);
}

#[test]
fn registry_ids_are_unique_and_removal_is_exact() {
    let mut registry = Registry::new();
    let mut ids: Vec<u64> = Vec::new();
    for _ in 0..5 {
        assert!(registry.has_capacity());
        ids.push(registry.register());
    }
    for i in 0..5 {
        for j in (i + 1)..5 {
            assert_ne!(ids[i], ids[j]);
        }
    }
    registry.deregister(ids[2]);
    assert_eq!(registry.count(), 4);
    for (i, &id) in ids.iter().enumerate() {
        assert_eq!(registry.is_registered(id), i != 2);
    }
    // removing an id that is not there changes nothing
    registry.deregister(ids[2]);
    assert_eq!(registry.count(), 4);
}
