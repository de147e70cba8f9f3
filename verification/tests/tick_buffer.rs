use client_core::intent::Direction;
use client_core::intent::Intent;
use client_core::tick_buffer::InputTickBuffer;
use client_core::tick_buffer::RecordError;

#[test]
fn a_new_buffer_is_empty() {
    let buffer = InputTickBuffer::new();
    let tick: u64 = 0;
    assert_eq!(buffer.len(), 0);
    assert_eq!(buffer.latest(), None);
    assert_eq!(buffer.get(tick), None);
}

#[test]
fn recorded_intents_are_found_under_their_ticks() {
    let mut buffer = InputTickBuffer::new();
    let up = Intent::Direction(Direction { up: true, down: false, left: false, right: false });
    let first: u64 = 100;
    let second: u64 = 101;
    let third: u64 = 105;
    assert_eq!(buffer.record(first, Intent::Spawn), Ok(()));
    assert_eq!(buffer.record(second, up), Ok(()));
    assert_eq!(buffer.record(third, Intent::Delete), Ok(()));
    assert_eq!(buffer.len(), 3);
    assert_eq!(buffer.latest(), Some(third));
    assert_eq!(buffer.get(first), Some(Intent::Spawn));
    assert_eq!(buffer.get(second), Some(up));
    assert_eq!(buffer.get(third), Some(Intent::Delete));
}

#[test]
fn a_skipped_tick_has_no_intent() {
    let mut buffer = InputTickBuffer::new();
    let first: u64 = 100;
    let skipped: u64 = 103;
    let third: u64 = 105;
    assert_eq!(buffer.record(first, Intent::Idle), Ok(()));
    assert_eq!(buffer.record(third, Intent::Idle), Ok(()));
    assert_eq!(buffer.get(skipped), None);
}

#[test]
fn the_same_tick_is_not_recorded_twice() {
    let mut buffer = InputTickBuffer::new();
    let tick: u64 = 12;
    assert_eq!(buffer.record(tick, Intent::Spawn), Ok(()));
    assert_eq!(buffer.record(tick, Intent::Delete), Err(RecordError::AlreadyRecorded));
    assert_eq!(buffer.record(tick, Intent::Spawn), Err(RecordError::AlreadyRecorded));
    assert_eq!(buffer.len(), 1);
    assert_eq!(buffer.get(tick), Some(Intent::Spawn));
}

#[test]
fn a_past_tick_is_refused() {
    let mut buffer = InputTickBuffer::new();
    let early: u64 = 5;
    let skipped: u64 = 7;
    let late: u64 = 9;
    assert_eq!(buffer.record(early, Intent::Idle), Ok(()));
    assert_eq!(buffer.record(late, Intent::Idle), Ok(()));
    assert_eq!(buffer.record(skipped, Intent::Spawn), Err(RecordError::PastTick));
    assert_eq!(buffer.record(early, Intent::Spawn), Err(RecordError::PastTick));
    assert_eq!(buffer.len(), 2);
    assert_eq!(buffer.get(skipped), None);
    assert_eq!(buffer.get(early), Some(Intent::Idle));
    assert_eq!(buffer.latest(), Some(late));
}

#[test]
fn the_first_and_the_last_tick_can_be_recorded() {
    let mut buffer = InputTickBuffer::new();
    let first: u64 = 0;
    let last: u64 = u64::MAX;
    assert_eq!(buffer.record(first, Intent::Spawn), Ok(()));
    assert_eq!(buffer.record(last, Intent::Delete), Ok(()));
    assert_eq!(buffer.record(last, Intent::Delete), Err(RecordError::AlreadyRecorded));
    assert_eq!(buffer.get(first), Some(Intent::Spawn));
    assert_eq!(buffer.get(last), Some(Intent::Delete));
}

#[test]
fn forgetting_drops_the_ticks_before_the_horizon() {
    let mut buffer = InputTickBuffer::new();
    let mut tick: u64 = 10;
    while tick < 20 {
        assert_eq!(buffer.record(tick, Intent::Idle), Ok(()));
        tick += 1;
    }
    assert_eq!(buffer.forget_before(15), 5);
    assert_eq!(buffer.len(), 5);
    assert_eq!(buffer.get(14), None);
    assert_eq!(buffer.get(15), Some(Intent::Idle));
    assert_eq!(buffer.get(19), Some(Intent::Idle));
    assert_eq!(buffer.latest(), Some(19));
    assert_eq!(buffer.forget_before(15), 0);
    assert_eq!(buffer.forget_before(0), 0);
    assert_eq!(buffer.len(), 5);
}

#[test]
fn forgetting_keeps_the_newest_entry() {
    let mut buffer = InputTickBuffer::new();
    assert_eq!(buffer.forget_before(100), 0);
    assert_eq!(buffer.record(10, Intent::Spawn), Ok(()));
    assert_eq!(buffer.record(11, Intent::Delete), Ok(()));
    assert_eq!(buffer.forget_before(100), 1);
    assert_eq!(buffer.len(), 1);
    assert_eq!(buffer.latest(), Some(11));
    assert_eq!(buffer.get(11), Some(Intent::Delete));
    assert_eq!(buffer.record(11, Intent::Idle), Err(RecordError::AlreadyRecorded));
    assert_eq!(buffer.record(10, Intent::Idle), Err(RecordError::PastTick));
    assert_eq!(buffer.record(12, Intent::Idle), Ok(()));
    assert_eq!(buffer.forget_before(u64::MAX), 1);
    assert_eq!(buffer.get(12), Some(Intent::Idle));
}

#[test]
fn forgetting_leaves_a_gap_in_the_ticks_alone() {
    let mut buffer = InputTickBuffer::new();
    assert_eq!(buffer.record(1, Intent::Spawn), Ok(()));
    assert_eq!(buffer.record(5, Intent::Idle), Ok(()));
    assert_eq!(buffer.record(9, Intent::Delete), Ok(()));
    assert_eq!(buffer.forget_before(3), 1);
    assert_eq!(buffer.len(), 2);
    assert_eq!(buffer.get(5), Some(Intent::Idle));
    assert_eq!(buffer.get(9), Some(Intent::Delete));
    assert_eq!(buffer.get(1), None);
}
