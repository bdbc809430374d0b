use video_engine::backend::PipelineState;
use video_engine::frame::{pull_for, FrameSlot, Pull, PULL_TIMEOUT_MILLIS};

#[test]
fn new_slot_has_nothing_new() {
    let mut slot = FrameSlot::new(7u32, 100);
    assert!(!slot.is_fresh());
    assert_eq!(*slot.sample(), 7);
    assert_eq!(slot.arrived(), 100);
    assert_eq!(slot.take_fresh(200), None);
}

#[test]
fn consumer_reads_the_last_of_many_writes() {
    for n in 1..50u32 {
        let mut slot = FrameSlot::new(0u32, 0);
        for k in 1..=n {
            slot.publish(k, 10 * k as u64);
        }
        assert_eq!(slot.take_fresh(10 * n as u64 + 3), Some(3));
        assert_eq!(*slot.sample(), n);
    }
}

#[test]
fn taking_lowers_the_flag_once() {
    let mut slot = FrameSlot::new("empty", 0);
    slot.publish("first", 40);
    assert!(slot.is_fresh());
    assert_eq!(slot.take_fresh(50), Some(10));
    assert!(!slot.is_fresh());
    assert_eq!(slot.take_fresh(60), None);
    assert_eq!(*slot.sample(), "first");
}

#[test]
fn latency_is_zero_when_the_clock_does_not_show_later() {
    let mut slot = FrameSlot::new(0u8, 0);
    slot.publish(1, 500);
    assert_eq!(slot.take_fresh(500), Some(0));
    slot.publish(2, 500);
    assert_eq!(slot.take_fresh(499), Some(0));
    slot.publish(3, 0);
    assert_eq!(slot.take_fresh(u64::MAX), Some(u64::MAX));
}

#[test]
fn timed_out_pull_changes_nothing() {
    let mut slot = FrameSlot::new(1u8, 5);
    assert!(!slot.offer(None, 6));
    assert!(!slot.is_fresh());
    assert_eq!(*slot.sample(), 1);
    assert_eq!(slot.arrived(), 5);
    assert!(slot.offer(Some(2), 7));
    assert!(slot.is_fresh());
    assert!(!slot.offer(None, 8));
    assert!(slot.is_fresh());
    assert_eq!(*slot.sample(), 2);
    assert_eq!(slot.arrived(), 7);
}

#[test]
fn clear_then_publish_raises_the_flag_again() {
    let mut slot = FrameSlot::new(0u8, 0);
    slot.publish(1, 1);
    slot.clear();
    assert!(!slot.is_fresh());
    assert_eq!(*slot.sample(), 1);
    slot.publish(2, 2);
    assert!(slot.is_fresh());
    assert_eq!(*slot.sample(), 2);
}

#[test]
fn pump_pulls_preroll_unless_playing() {
    assert_eq!(pull_for(PipelineState::Playing), Pull::Sample);
    assert_eq!(pull_for(PipelineState::Paused), Pull::Preroll);
    assert_eq!(pull_for(PipelineState::Ready), Pull::Preroll);
    assert_eq!(pull_for(PipelineState::Null), Pull::Preroll);
    assert_eq!(pull_for(PipelineState::VoidPending), Pull::Preroll);
    assert_eq!(PULL_TIMEOUT_MILLIS, 16);
}
