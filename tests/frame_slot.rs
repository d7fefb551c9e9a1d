use audioviz::capture::{on_input, FRAME_SIZE};
use audioviz::frame_slot::FrameSlot;

#[test]
fn empty_before_first_write() {
    let slot: FrameSlot<Vec<f32>> = FrameSlot::new();
    assert!(slot.peek_latest().is_none());
    assert!(slot.is_empty());
}

#[test]
fn latest_write_wins() {
    let mut slot: FrameSlot<u32> = FrameSlot::new();
    slot.write(1);
    slot.write(2);
    slot.write(3);
    assert_eq!(slot.peek_latest(), Some(&3));
    assert!(!slot.is_empty());
}

#[test]
fn peek_does_not_remove() {
    let mut slot: FrameSlot<u32> = FrameSlot::new();
    slot.write(7);
    assert_eq!(slot.peek_latest(), Some(&7));
    assert_eq!(slot.peek_latest(), Some(&7));
}

#[test]
fn many_writes_each_peek_sees_the_last() {
    let mut slot: FrameSlot<Vec<u32>> = FrameSlot::new();
    let mut last: Vec<u32> = Vec::new();
    for n in 0..10_000u32 {
        let frame: Vec<u32> = (0..8).map(|k| n * 8 + k).collect();
        slot.write(frame.clone());
        let seen = slot.peek_latest().unwrap();
        assert_eq!(seen, &frame);
        last = frame;
    }
    assert_eq!(slot.peek_latest(), Some(&last));
}

#[test]
fn callback_keeps_only_newest_block() {
    let mut slot: FrameSlot<Vec<f32>> = FrameSlot::new();
    let first: Vec<f32> = (0..FRAME_SIZE).map(|i| i as f32).collect();
    let second: Vec<f32> = (0..FRAME_SIZE).map(|i| -(i as f32)).collect();
    on_input(&mut slot, &first);
    assert_eq!(slot.peek_latest(), Some(&first));
    on_input(&mut slot, &second);
    assert_eq!(slot.peek_latest(), Some(&second));
}
