use vstd::prelude::*;

verus! {

/// Widest raw payload, in bytes, that fits the plugin's fixed event
/// encoding; longer messages are skipped one by one.
pub const MAX_MESSAGE_BYTES: usize = 3;

/// A batch never carries more than this many events into one block.
pub const EVENT_CAPACITY: usize = 256;

/// A timed raw message as the engine delivers it: a frame offset within
/// the current block and a short byte payload.
pub struct RawMessage {
    pub time: u32,
    pub bytes: Vec<u8>,
}

/// One translated event for the plugin: the original frame offset, the
/// outer routing channel (fixed at 0; any channel identity inside the
/// payload bytes is preserved untouched), and the payload widened to
/// exactly three bytes with zero padding.
#[derive(Clone, Copy, Debug, PartialEq, Eq, Structural)]
pub struct Event {
    pub time: u32,
    pub channel: u16,
    pub b0: u8,
    pub b1: u8,
    pub b2: u8,
}

/// A raw message is translatable when its payload fits the encoding.
pub open spec fn accepts(m: RawMessage) -> bool {
    m.bytes@.len() <= MAX_MESSAGE_BYTES as int
}

/// The three data bytes of an event, in wire order.
pub open spec fn event_data(e: Event) -> Seq<u8> {
    seq![e.b0, e.b1, e.b2]
}

/// The event a translatable raw message becomes: same frame offset,
/// routing channel 0, payload zero-padded to three bytes.
pub open spec fn event_of(m: RawMessage) -> Event {
    Event {
        time: m.time,
        channel: 0,
        b0: if m.bytes@.len() > 0 { m.bytes@[0] } else { 0u8 },
        b1: if m.bytes@.len() > 1 { m.bytes@[1] } else { 0u8 },
        b2: if m.bytes@.len() > 2 { m.bytes@[2] } else { 0u8 },
    }
}

/// The events produced from a run of raw messages, in arrival order:
/// translatable messages map to their event, oversized ones disappear.
/// Being a filter-map over the sequence, translation can neither reorder
/// events nor move one across another with the same frame offset.
pub open spec fn translated(raws: Seq<RawMessage>) -> Seq<Event>
    decreases raws.len(),
{
    if raws.len() == 0 {
        Seq::empty()
    } else {
        let rest = translated(raws.drop_last());
        if accepts(raws.last()) {
            rest.push(event_of(raws.last()))
        } else {
            rest
        }
    }
}

/// How many messages of a run are skipped for being oversized.
pub open spec fn skipped_count(raws: Seq<RawMessage>) -> nat
    decreases raws.len(),
{
    if raws.len() == 0 {
        0
    } else {
        skipped_count(raws.drop_last()) + if accepts(raws.last()) { 0nat } else { 1nat }
    }
}

/// The prefix of a block's raw messages that translation looks at: the
/// whole run when it fits the batch capacity, else the first
/// `EVENT_CAPACITY` messages. Messages beyond that are dropped without
/// notice — a known limitation of the capacity policy, not a guarantee.
pub open spec fn considered(raws: Seq<RawMessage>) -> Seq<RawMessage> {
    if raws.len() <= EVENT_CAPACITY as int {
        raws
    } else {
        raws.take(EVENT_CAPACITY as int)
    }
}

/// The ordered, capacity-bounded event list for one block, together with
/// the count of messages skipped for being oversized. Cleared and rebuilt
/// on every block; never persisted across blocks.
pub struct EventBatch {
    pub events: Vec<Event>,
    pub skipped: usize,
}

/// Converts the engine's timed raw messages into the plugin's ordered
/// event representation for one block. Owns the batch it fills.
pub struct EventTranslator {
    pub batch: EventBatch,
}

impl EventTranslator {
    /// A translator starts with an empty batch.
    pub fn new() -> (t: Self)
        ensures
            t.batch.events@ =~= Seq::<Event>::empty(),
            t.batch.skipped == 0,
    {
        EventTranslator { batch: EventBatch { events: Vec::new(), skipped: 0 } }
    }

    /// Empty the batch and reset the skipped-message count.
    pub fn clear(&mut self)
        ensures
            final(self).batch.events@ =~= Seq::<Event>::empty(),
            final(self).batch.skipped == 0,
    {
        self.batch.events.clear();
        self.batch.skipped = 0;
    }

    /// Rebuild the batch from one block's raw messages, taken in
    /// engine-delivered order. Translatable messages (payload of at most
    /// `MAX_MESSAGE_BYTES` bytes) become events with their frame offset
    /// and bytes preserved; oversized ones are skipped and counted, and
    /// the block goes on. At most `EVENT_CAPACITY` messages are examined,
    /// so the batch never outgrows its capacity.
    pub fn translate(&mut self, raw: &Vec<RawMessage>)
        ensures
            final(self).batch.events@ == translated(considered(raw@)),
            final(self).batch.skipped == skipped_count(considered(raw@)),
            final(self).batch.events@.len() <= EVENT_CAPACITY as int,
    {
        self.batch.events.clear();
        self.batch.skipped = 0;
        let n: usize = if raw.len() < EVENT_CAPACITY {
            raw.len()
        } else {
            EVENT_CAPACITY
        };
        proof {
            assert(raw@.take(n as int) =~= considered(raw@));
        }
        for i in 0..n
            invariant
                n <= raw@.len(),
                raw@.take(n as int) =~= considered(raw@),
                self.batch.events@ == translated(raw@.take(i as int)),
                self.batch.skipped == skipped_count(raw@.take(i as int)),
                self.batch.skipped <= i,
        {
            proof {
                assert(raw@.take(i + 1).drop_last() =~= raw@.take(i as int));
                assert(raw@.take(i + 1).last() == raw@[i as int]);
            }
            let m = &raw[i];
            if m.bytes.len() > MAX_MESSAGE_BYTES {
                self.batch.skipped = self.batch.skipped + 1;
            } else {
                let e = Event {
                    time: m.time,
                    channel: 0,
                    b0: if m.bytes.len() > 0 { m.bytes[0] } else { 0u8 },
                    b1: if m.bytes.len() > 1 { m.bytes[1] } else { 0u8 },
                    b2: if m.bytes.len() > 2 { m.bytes[2] } else { 0u8 },
                };
                self.batch.events.push(e);
            }
        }
        proof {
            lemma_translated_len_le(considered(raw@));
        }
    }
}

/// A run never yields more events than it has messages.
pub proof fn lemma_translated_len_le(raws: Seq<RawMessage>)
    ensures
        translated(raws).len() <= raws.len(),
    decreases raws.len(),
{
    if raws.len() > 0 {
        lemma_translated_len_le(raws.drop_last());
    }
}

/// Law: a single translatable message yields exactly one event that keeps
/// its frame offset and carries its payload bytes unchanged (padded with
/// zeros to three bytes); a single oversized message yields no event and
/// counts as one skipped.
pub proof fn lemma_translate_single(m: RawMessage)
    ensures
        accepts(m) ==> translated(seq![m]) =~= seq![event_of(m)],
        accepts(m) ==> skipped_count(seq![m]) == 0,
        !accepts(m) ==> translated(seq![m]) =~= Seq::<Event>::empty(),
        !accepts(m) ==> skipped_count(seq![m]) == 1,
        event_of(m).time == m.time,
        forall|j: int|
            0 <= j < m.bytes@.len() && m.bytes@.len() <= MAX_MESSAGE_BYTES as int ==> event_data(
                event_of(m),
            )[j] == m.bytes@[j],
{
    let s = seq![m];
    assert(s.drop_last() =~= Seq::<RawMessage>::empty());
    assert(translated(Seq::<RawMessage>::empty()) =~= Seq::<Event>::empty());
    assert(skipped_count(Seq::<RawMessage>::empty()) == 0);
    assert(s.last() == m);
}

/// If every message of a run sits at or before frame offset `t`, so does
/// every translated event.
pub proof fn lemma_translated_times_bounded(raws: Seq<RawMessage>, t: u32)
    requires
        forall|i: int| 0 <= i < raws.len() ==> raws[i].time <= t,
    ensures
        forall|j: int| 0 <= j < translated(raws).len() ==> translated(raws)[j].time <= t,
    decreases raws.len(),
{
    if raws.len() > 0 {
        let prefix = raws.drop_last();
        assert(forall|i: int| 0 <= i < prefix.len() ==> prefix[i].time <= t);
        lemma_translated_times_bounded(prefix, t);
        if accepts(raws.last()) {
            assert(translated(raws) == translated(prefix).push(event_of(raws.last())));
            assert(raws.last() == raws[raws.len() - 1]);
            assert forall|j: int|
                0 <= j < translated(raws).len() implies translated(raws)[j].time <= t by {
                if j < translated(prefix).len() {
                    assert(translated(raws)[j] == translated(prefix)[j]);
                } else {
                    assert(translated(raws)[j] == event_of(raws.last()));
                }
            }
        } else {
            assert(translated(raws) == translated(prefix));
        }
    }
}

/// Law: when the engine delivers messages in non-decreasing frame-offset
/// order, the translated batch is non-decreasing in frame offset as well.
pub proof fn lemma_translate_preserves_order(raws: Seq<RawMessage>)
    requires
        forall|i: int, j: int| 0 <= i <= j < raws.len() ==> raws[i].time <= raws[j].time,
    ensures
        forall|i: int, j: int|
            0 <= i <= j < translated(raws).len() ==> translated(raws)[i].time <= translated(
                raws,
            )[j].time,
    decreases raws.len(),
{
    if raws.len() > 0 {
        let prefix = raws.drop_last();
        assert(forall|i: int, j: int|
            0 <= i <= j < prefix.len() ==> prefix[i].time <= prefix[j].time);
        lemma_translate_preserves_order(prefix);
        assert(raws.last() == raws[raws.len() - 1]);
        assert(forall|i: int| 0 <= i < prefix.len() ==> prefix[i].time <= raws.last().time);
        lemma_translated_times_bounded(prefix, raws.last().time);
        if accepts(raws.last()) {
            let whole = translated(prefix).push(event_of(raws.last()));
            assert(translated(raws) == whole);
            assert forall|i: int, j: int|
                0 <= i <= j < whole.len() implies whole[i].time <= whole[j].time by {
                if j < translated(prefix).len() {
                    assert(whole[i] == translated(prefix)[i]);
                    assert(whole[j] == translated(prefix)[j]);
                } else {
                    assert(whole[j] == event_of(raws.last()));
                    if i < translated(prefix).len() {
                        assert(whole[i] == translated(prefix)[i]);
                    } else {
                        assert(whole[i] == event_of(raws.last()));
                    }
                }
            }
        } else {
            assert(translated(raws) == translated(prefix));
        }
    }
}

} // verus!
