use framestream::slot::SlotState;
use framestream::FrameSlot;

#[test]
fn empty_slot_state_snapshot_is_none() {
    let s = SlotState::empty();
    assert!(s.snapshot().is_none());
}

#[test]
fn empty_frame_slot_snapshot_is_none() {
    let slot = FrameSlot::new();
    assert!(slot.snapshot().is_none());
}

#[test]
fn publish_then_snapshot_returns_that_frame() {
    let mut s = SlotState::empty();
    s.publish(vec![10, 20, 30]);
    let f = s.snapshot().unwrap();
    assert_eq!(f.generation, 1);
    assert_eq!(f.bytes, vec![10, 20, 30]);
}

#[test]
fn snapshot_returns_latest_generation() {
    let mut s = SlotState::empty();
    s.publish(vec![1]);
    s.publish(vec![2, 2]);
    s.publish(vec![3, 3, 3]);
    let f = s.snapshot().unwrap();
    assert_eq!(f.generation, 3);
    assert_eq!(f.bytes, vec![3, 3, 3]);
}

#[test]
fn snapshot_bytes_match_reported_generation() {
    // Each published frame's bytes encode its own generation number; every
    // snapshot's bytes must agree with the generation it reports.
    let slot = FrameSlot::new();
    for g in 1u8..=7 {
        slot.publish(vec![g, g, g]);
        let f = slot.snapshot().unwrap();
        assert_eq!(f.bytes, vec![f.generation as u8; 3]);
    }
}

#[test]
fn on_encoded_failure_publishes_nothing() {
    let mut s = SlotState::empty();
    s.publish(vec![5]);
    s.on_encoded(None);
    let f = s.snapshot().unwrap();
    assert_eq!(f.generation, 1);
    assert_eq!(f.bytes, vec![5]);
}

#[test]
fn on_encoded_success_publishes_exactly_once() {
    let mut s = SlotState::empty();
    s.on_encoded(Some(vec![9, 9]));
    let f = s.snapshot().unwrap();
    assert_eq!(f.generation, 1);
    assert_eq!(f.bytes, vec![9, 9]);
}

#[test]
fn frame_slot_publish_is_visible_to_readers() {
    let slot = FrameSlot::new();
    slot.on_encoded(Some(vec![42; 100]));
    let f = slot.snapshot().unwrap();
    assert_eq!(f.generation, 1);
    assert_eq!(f.bytes.len(), 100);
    slot.on_encoded(None);
    let f2 = slot.snapshot().unwrap();
    assert_eq!(f2.generation, 1);
}
