use claphost::events::{EventTranslator, RawMessage, EVENT_CAPACITY};

fn msg(time: u32, bytes: &[u8]) -> RawMessage {
    RawMessage { time, bytes: bytes.to_vec() }
}

#[test]
fn short_message_becomes_one_event_with_bytes_preserved() {
    let mut t = EventTranslator::new();
    t.translate(&vec![msg(17, &[0x90, 0x3c, 0x7f])]);
    assert_eq!(t.batch.events.len(), 1);
    assert_eq!(t.batch.skipped, 0);
    let e = t.batch.events[0];
    assert_eq!(e.time, 17);
    assert_eq!(e.channel, 0);
    assert_eq!((e.b0, e.b1, e.b2), (0x90, 0x3c, 0x7f));
}

#[test]
fn shorter_payloads_are_zero_padded() {
    let mut t = EventTranslator::new();
    t.translate(&vec![msg(3, &[0xf8]), msg(4, &[0xc0, 0x05]), msg(5, &[])]);
    assert_eq!(t.batch.events.len(), 3);
    assert_eq!(t.batch.skipped, 0);
    let e0 = t.batch.events[0];
    assert_eq!((e0.b0, e0.b1, e0.b2), (0xf8, 0, 0));
    let e1 = t.batch.events[1];
    assert_eq!((e1.b0, e1.b1, e1.b2), (0xc0, 0x05, 0));
    let e2 = t.batch.events[2];
    assert_eq!((e2.b0, e2.b1, e2.b2), (0, 0, 0));
}

#[test]
fn oversized_message_yields_no_event_and_counts_as_skipped() {
    let mut t = EventTranslator::new();
    t.translate(&vec![msg(8, &[0xf0, 0x01, 0x02, 0x03, 0xf7])]);
    assert_eq!(t.batch.events.len(), 0);
    assert_eq!(t.batch.skipped, 1);
}

#[test]
fn oversized_message_is_dropped_without_affecting_the_rest_of_the_block() {
    let mut t = EventTranslator::new();
    t.translate(&vec![
        msg(0, &[0x90, 0x40, 0x60]),
        msg(2, &[0xf0, 0x00, 0x00, 0xf7]),
        msg(2, &[0x80, 0x40, 0x00]),
        msg(7, &[0xb0, 0x07, 0x64]),
    ]);
    assert_eq!(t.batch.events.len(), 3);
    assert_eq!(t.batch.skipped, 1);
    let times: Vec<u32> = t.batch.events.iter().map(|e| e.time).collect();
    assert_eq!(times, vec![0, 2, 7]);
    // the second surviving event is the one that arrived after the dropped one
    assert_eq!(t.batch.events[1].b0, 0x80);
}

#[test]
fn batch_keeps_engine_delivered_order() {
    let mut t = EventTranslator::new();
    let raws: Vec<RawMessage> =
        (0..10).map(|i| msg(i / 2, &[i as u8, 0, 0])).collect();
    t.translate(&raws);
    assert_eq!(t.batch.events.len(), 10);
    for i in 0..10usize {
        assert_eq!(t.batch.events[i].b0, i as u8);
        if i > 0 {
            assert!(t.batch.events[i - 1].time <= t.batch.events[i].time);
        }
    }
}

#[test]
fn batch_never_exceeds_capacity() {
    let mut t = EventTranslator::new();
    let raws: Vec<RawMessage> = (0..400u32).map(|i| msg(i, &[0x90, 0, 0])).collect();
    t.translate(&raws);
    assert_eq!(t.batch.events.len(), EVENT_CAPACITY);
    assert!(t.batch.events.len() <= EVENT_CAPACITY);
    // the batch holds the first EVENT_CAPACITY messages, in order
    assert_eq!(t.batch.events[0].time, 0);
    assert_eq!(t.batch.events[EVENT_CAPACITY - 1].time, EVENT_CAPACITY as u32 - 1);
}

#[test]
fn batch_is_rebuilt_from_scratch_each_block() {
    let mut t = EventTranslator::new();
    t.translate(&vec![msg(1, &[0xf8]), msg(2, &[0xfa])]);
    assert_eq!(t.batch.events.len(), 2);
    t.translate(&vec![msg(9, &[0xfc])]);
    assert_eq!(t.batch.events.len(), 1);
    assert_eq!(t.batch.events[0].time, 9);
    t.clear();
    assert_eq!(t.batch.events.len(), 0);
    assert_eq!(t.batch.skipped, 0);
}
