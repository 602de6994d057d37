//! Cutting the byte stream of a connection into events.
use vstd::prelude::*;
use vstd::slice::slice_subrange;

use crate::codec::{
    decode_model, frame, law_complete_frame_is_decoded, law_complete_frame_is_final,
    law_decode_gives_back_encoded, law_partial_frame_is_incomplete, payload_of, CodecError,
    EventCodec,
};
use crate::protocol::{EventModel, InputEvent};
use crate::wire::{
    be_bytes, be_u32, be_value, law_bytes_add_up, lemma_be_roundtrip, lemma_spans, word_be,
};

verus! {

/// Maximum event payload size (1 MB).
pub const MAX_EVENT_SIZE: usize = 1048576;

/// How a connection goes on after some bytes were received.
#[derive(Debug, Clone, Copy, PartialEq, Eq, Structural)]
pub enum ReadOutcome {
    /// Wait for more bytes.
    Continue,
    /// The peer closed the connection.
    Closed,
    /// A frame held no event; the connection is given up.
    Malformed(CodecError),
    /// A frame announced a payload above the maximum; the connection is given up.
    TooLarge,
}

/// What a buffer of received bytes holds: the complete events at its start,
/// the bytes behind them, and how the connection goes on.
pub struct StreamModel {
    pub events: Seq<EventModel>,
    pub rest: Seq<u8>,
    pub outcome: ReadOutcome,
}

/// Whether the frame at the start of `buf`, complete or not, announces a
/// payload above the maximum.
pub open spec fn announces_too_much(buf: Seq<u8>) -> bool {
    buf.len() >= 4 && be_value(buf.take(4)) > MAX_EVENT_SIZE
}

/// A buffer that starts with no event to deliver.
pub open spec fn no_event(buf: Seq<u8>, outcome: ReadOutcome) -> StreamModel {
    StreamModel { events: Seq::empty(), rest: buf, outcome }
}

/// Takes complete events off the start of `buf` until none is left, or until a
/// frame is in the way that is malformed or too large.
pub open spec fn split_stream(buf: Seq<u8>) -> StreamModel
    decreases buf.len(),
{
    if announces_too_much(buf) {
        no_event(buf, ReadOutcome::TooLarge)
    } else {
        match decode_model(buf) {
            Ok(Some((event, used))) => {
                if 0 < used <= buf.len() {
                    let tail = split_stream(buf.skip(used as int));
                    StreamModel { events: seq![event] + tail.events, ..tail }
                } else {
                    no_event(buf, ReadOutcome::Continue)
                }
            },
            Ok(None) => no_event(buf, ReadOutcome::Continue),
            Err(error) => no_event(buf, ReadOutcome::Malformed(error)),
        }
    }
}

/// Events, with their text and bytes as sequences.
pub open spec fn models(events: Seq<InputEvent>) -> Seq<EventModel> {
    Seq::new(events.len(), |i: int| events[i]@)
}

/// The bytes of a connection that belong to no complete event yet.
pub struct EventReader {
    buf: Vec<u8>,
}

impl View for EventReader {
    type V = Seq<u8>;

    closed spec fn view(&self) -> Seq<u8> {
        self.buf@
    }
}

impl EventReader {
    /// A reader for a fresh connection.
    pub fn new() -> (reader: EventReader)
        ensures
            reader@ == Seq::<u8>::empty(),
    {
        EventReader { buf: Vec::new() }
    }

    /// Takes the bytes of one read. Returns the events that are complete now,
    /// in the order in which they were sent, and how the connection goes on.
    ///
    /// Reading no bytes means that the connection was closed. Events in front
    /// of a frame that is malformed or too large are still returned; the bytes
    /// are then kept as they are. Otherwise less than one frame is kept.
    pub fn read_step(&mut self, received: &[u8]) -> (res: (Vec<InputEvent>, ReadOutcome))
        ensures
            res.1 == ReadOutcome::Continue ==> final(self)@.len() <= MAX_EVENT_SIZE + 3,
            ({
                let all = old(self)@ + received@;
                let split = split_stream(all);
                if received@.len() == 0 {
                    &&& res.0@.len() == 0
                    &&& res.1 == ReadOutcome::Closed
                    &&& final(self)@ == old(self)@
                } else {
                    &&& models(res.0@) == split.events
                    &&& res.1 == split.outcome
                    &&& final(self)@ == if split.outcome == ReadOutcome::Continue {
                        split.rest
                    } else {
                        all
                    }
                }
            }),
    {
        let mut events: Vec<InputEvent> = Vec::new();
        if received.len() == 0 {
            return (events, ReadOutcome::Closed);
        }
        self.buf.extend_from_slice(received);
        let ghost all = old(self)@ + received@;
        assert(self.buf@ =~= all);
        let mut consumed: usize = 0;
        let total: usize = self.buf.len();
        assert(all.skip(0) =~= all);
        assert(models(events@) + split_stream(all).events =~= split_stream(all).events);
        while consumed < total
            invariant
                self.buf@ == all,
                all == old(self)@ + received@,
                received@.len() != 0,
                total == all.len(),
                consumed <= total,
                split_stream(all).events == models(events@) + split_stream(
                    all.skip(consumed as int),
                ).events,
                split_stream(all).rest == split_stream(all.skip(consumed as int)).rest,
                split_stream(all).outcome == split_stream(all.skip(consumed as int)).outcome,
            ensures
                !announces_too_much(all.skip(consumed as int)),
                decode_model(all.skip(consumed as int)) == Ok::<_, CodecError>(
                    None::<(EventModel, nat)>,
                ),
            decreases total - consumed,
        {
            let ghost tail = all.skip(consumed as int);
            let slice: &[u8] = slice_subrange(self.buf.as_slice(), consumed, total);
            assert(slice@ =~= tail);
            let ghost before = events@;
            if slice.len() >= 4 && be_u32(slice) as u64 > MAX_EVENT_SIZE as u64 {
                assert(models(events@) + Seq::<EventModel>::empty() =~= models(events@));
                return (events, ReadOutcome::TooLarge);
            }
            match EventCodec::decode(slice) {
                Ok(Some((event, used))) => {
                    let ghost decoded_event = event@;
                    consumed = consumed + used;
                    events.push(event);
                    proof {
                        assert(tail.skip(used as int) =~= all.skip(consumed as int));
                        assert(models(events@) =~= models(before) + seq![decoded_event]);
                        assert(models(before) + (seq![decoded_event] + split_stream(
                            all.skip(consumed as int),
                        ).events) =~= models(events@) + split_stream(
                            all.skip(consumed as int),
                        ).events);
                    }
                },
                Ok(None) => {
                    break;
                },
                Err(error) => {
                    assert(models(events@) + Seq::<EventModel>::empty() =~= models(events@));
                    return (events, ReadOutcome::Malformed(error));
                },
            }
        }
        assert(models(events@) + Seq::<EventModel>::empty() =~= models(events@));
        self.buf = self.buf.split_off(consumed);
        assert(self.buf@ =~= all.skip(consumed as int));
        (events, ReadOutcome::Continue)
    }
}

/// The frames of some events, one after the other.
pub open spec fn frames(events: Seq<EventModel>) -> Seq<u8>
    decreases events.len(),
{
    if events.len() == 0 {
        Seq::empty()
    } else {
        frame(payload_of(events[0])) + frames(events.drop_first())
    }
}

/// What is sent arrives: events that are written one after the other are read
/// back in the same order, and the bytes behind them are left as they are. No
/// payload may be above the maximum.
pub proof fn law_stream_gives_back_events(events: Seq<EventModel>, rest: Seq<u8>)
    requires
        forall|i: int|
            0 <= i < events.len() ==> payload_of(#[trigger] events[i]).len() <= 1048576,
    ensures
        split_stream(frames(events) + rest) == (StreamModel {
            events: events + split_stream(rest).events,
            ..split_stream(rest)
        }),
    decreases events.len(),
{
    if events.len() == 0 {
        assert(frames(events) + rest =~= rest);
        assert(events + split_stream(rest).events =~= split_stream(rest).events);
    } else {
        let head = frame(payload_of(events[0]));
        let tail = events.drop_first();
        let buf = frames(events) + rest;
        lemma_header(payload_of(events[0]), frames(tail) + rest);
        law_decode_gives_back_encoded(events[0], frames(tail) + rest);
        assert(buf =~= head + (frames(tail) + rest));
        assert(buf.skip(head.len() as int) =~= frames(tail) + rest);
        law_stream_gives_back_events(tail, rest);
        assert(seq![events[0]] + (tail + split_stream(rest).events) =~= events + split_stream(
            rest,
        ).events);
    }
}

/// An event whose payload is above the maximum is refused as soon as its header
/// has arrived, whatever follows. The events in front of it are delivered,
/// nothing of it is.
pub proof fn law_oversized_event_is_refused(
    events: Seq<EventModel>,
    oversized: EventModel,
    have: nat,
    rest: Seq<u8>,
)
    requires
        forall|i: int|
            0 <= i < events.len() ==> payload_of(#[trigger] events[i]).len() <= 1048576,
        1048576 < payload_of(oversized).len() <= u32::MAX,
        4 <= have <= frame(payload_of(oversized)).len(),
    ensures
        ({
            let arrived = frame(payload_of(oversized)).take(have as int) + rest;
            split_stream(frames(events) + arrived) == (StreamModel {
                events,
                rest: arrived,
                outcome: ReadOutcome::TooLarge,
            })
        }),
{
    let payload = payload_of(oversized);
    let arrived = frame(payload).take(have as int) + rest;
    lemma_spans();
    lemma_be_roundtrip(payload.len(), 4);
    assert(arrived.take(4) =~= be_bytes(payload.len(), 4));
    law_stream_gives_back_events(events, arrived);
    assert(events + Seq::<EventModel>::empty() =~= events);
}

/// However much of what was sent has arrived: the events read so far are the
/// first ones that were sent, nothing is malformed or too large, and less than
/// one frame is left over.
pub proof fn law_beginning_of_a_stream(events: Seq<EventModel>, have: nat)
    requires
        forall|i: int|
            0 <= i < events.len() ==> payload_of(#[trigger] events[i]).len() <= 1048576,
        have <= frames(events).len(),
    ensures
        ({
            let split = split_stream(frames(events).take(have as int));
            &&& split.outcome == ReadOutcome::Continue
            &&& split.events.len() <= events.len()
            &&& split.events == events.take(split.events.len() as int)
            &&& split.rest.len() <= 1048579
        }),
    decreases events.len(),
{
    let buf = frames(events).take(have as int);
    if events.len() == 0 {
        assert(split_stream(buf).events =~= events.take(0));
    } else {
        let head = frame(payload_of(events[0]));
        let tail = events.drop_first();
        lemma_header(payload_of(events[0]), Seq::empty());
        if have < head.len() {
            assert(buf =~= head.take(have as int));
            if have >= 4 {
                assert(buf.take(4) =~= head.take(4));
                assert((head + Seq::<u8>::empty()).take(4) =~= head.take(4));
            }
            law_partial_frame_is_incomplete(events[0], have);
            assert(split_stream(buf).events =~= events.take(0));
        } else {
            let more = (have - head.len()) as nat;
            assert(buf =~= head + frames(tail).take(more as int));
            assert(buf.skip(head.len() as int) =~= frames(tail).take(more as int));
            lemma_header(payload_of(events[0]), frames(tail).take(more as int));
            law_decode_gives_back_encoded(events[0], frames(tail).take(more as int));
            law_beginning_of_a_stream(tail, more);
            let there = split_stream(frames(tail).take(more as int)).events;
            assert(seq![events[0]] + there =~= events.take(there.len() as int + 1));
        }
    }
}

/// A frame is four bytes longer than its payload, and announces its length.
proof fn lemma_header(payload: Seq<u8>, rest: Seq<u8>)
    requires
        payload.len() <= u32::MAX,
    ensures
        frame(payload).len() == payload.len() + 4,
        be_value((frame(payload) + rest).take(4)) == payload.len(),
{
    lemma_spans();
    lemma_be_roundtrip(payload.len(), 4);
    assert((frame(payload) + rest).take(4) =~= be_bytes(payload.len(), 4));
}

/// It does not matter how the network cuts the stream: bytes that arrive later
/// only continue what the bytes so far have left over.
pub proof fn law_stream_can_be_cut_anywhere(first: Seq<u8>, later: Seq<u8>)
    requires
        split_stream(first).outcome == ReadOutcome::Continue,
    ensures
        ({
            let rest = split_stream(split_stream(first).rest + later);
            split_stream(first + later) == (StreamModel {
                events: split_stream(first).events + rest.events,
                ..rest
            })
        }),
    decreases first.len(),
{
    let rest = split_stream(split_stream(first).rest + later);
    match decode_model(first) {
        Ok(Some((event, used))) => {
            law_complete_frame_is_final(first, later);
            assert((first + later).take(4) =~= first.take(4));
            assert((first + later).skip(used as int) =~= first.skip(used as int) + later);
            law_stream_can_be_cut_anywhere(first.skip(used as int), later);
            assert(split_stream(first + later).events =~= split_stream(first).events
                + rest.events);
        },
        _ => {
            assert(split_stream(first).events + rest.events =~= rest.events);
        },
    }
}

/// A refusal stays: bytes that arrive later change neither the events in front
/// of a frame that is malformed or too large nor the outcome.
pub proof fn law_refusal_is_final(first: Seq<u8>, later: Seq<u8>)
    requires
        split_stream(first).outcome != ReadOutcome::Continue,
    ensures
        split_stream(first + later).events == split_stream(first).events,
        split_stream(first + later).outcome == split_stream(first).outcome,
    decreases first.len(),
{
    assert(first.len() >= 4 ==> (first + later).take(4) =~= first.take(4));
    if !announces_too_much(first) {
        law_complete_frame_is_final(first, later);
        match decode_model(first) {
            Ok(Some((event, used))) => {
                assert((first + later).skip(used as int) =~= first.skip(used as int) + later);
                law_refusal_is_final(first.skip(used as int), later);
            },
            _ => {},
        }
    }
}

/// What a reader that holds `buf` delivers for some reads one after the other,
/// up to a refusal.
pub open spec fn after_reads(buf: Seq<u8>, reads: Seq<Seq<u8>>) -> StreamModel
    decreases reads.len(),
{
    if reads.len() == 0 {
        no_event(buf, ReadOutcome::Continue)
    } else {
        let first = split_stream(buf + reads[0]);
        if first.outcome == ReadOutcome::Continue {
            let later = after_reads(first.rest, reads.drop_first());
            StreamModel { events: first.events + later.events, ..later }
        } else {
            first
        }
    }
}

/// Some reads put together.
pub open spec fn joined(reads: Seq<Seq<u8>>) -> Seq<u8>
    decreases reads.len(),
{
    if reads.len() == 0 {
        Seq::empty()
    } else {
        reads[0] + joined(reads.drop_first())
    }
}

/// A stream that is read in any number of pieces gives the same events, and
/// ends the same way, as one that is read at once.
pub proof fn law_reads_are_one_stream(buf: Seq<u8>, reads: Seq<Seq<u8>>)
    requires
        split_stream(buf) == no_event(buf, ReadOutcome::Continue),
    ensures
        after_reads(buf, reads).events == split_stream(buf + joined(reads)).events,
        after_reads(buf, reads).outcome == split_stream(buf + joined(reads)).outcome,
    decreases reads.len(),
{
    if reads.len() == 0 {
        assert(buf + joined(reads) =~= buf);
    } else {
        let arrived = buf + reads[0];
        let later = joined(reads.drop_first());
        assert(buf + joined(reads) =~= arrived + later);
        if split_stream(arrived).outcome == ReadOutcome::Continue {
            lemma_rest_is_split(arrived);
            law_stream_can_be_cut_anywhere(arrived, later);
            law_reads_are_one_stream(split_stream(arrived).rest, reads.drop_first());
        } else {
            law_refusal_is_final(arrived, later);
        }
    }
}

/// What is left over holds no complete event.
proof fn lemma_rest_is_split(buf: Seq<u8>)
    requires
        split_stream(buf).outcome == ReadOutcome::Continue,
    ensures
        split_stream(split_stream(buf).rest) == no_event(
            split_stream(buf).rest,
            ReadOutcome::Continue,
        ),
    decreases buf.len(),
{
    match decode_model(buf) {
        Ok(Some((event, used))) => {
            lemma_rest_is_split(buf.skip(used as int));
        },
        _ => {},
    }
}

/// What the start of a buffer decides: without a header nothing yet; a header
/// above a megabyte ends the stream, whatever else is there; a frame that is
/// not complete waits; one that holds no event ends the stream; and one that
/// holds an event is taken off.
pub proof fn law_stream_goes_by_its_first_frame(buf: Seq<u8>)
    ensures
        ({
            let split = split_stream(buf);
            let len = word_be(buf);
            if buf.len() < 4 {
                split == no_event(buf, ReadOutcome::Continue)
            } else if len > 1048576 {
                split == no_event(buf, ReadOutcome::TooLarge)
            } else if buf.len() < 4 + len {
                split == no_event(buf, ReadOutcome::Continue)
            } else {
                match decode_model(buf) {
                    Err(error) => split == no_event(buf, ReadOutcome::Malformed(error)),
                    Ok(None) => false,
                    Ok(Some((event, used))) => {
                        let tail = split_stream(buf.skip(4 + len));
                        &&& used == 4 + len
                        &&& split.events.len() == tail.events.len() + 1
                        &&& split.events[0] == event
                        &&& split.events.skip(1) == tail.events
                        &&& split.rest == tail.rest
                        &&& split.outcome == tail.outcome
                    },
                }
            }
        }),
        forall|outcome: ReadOutcome|
            (#[trigger] no_event(buf, outcome)).events.len() == 0 && no_event(buf, outcome).rest
                == buf && no_event(buf, outcome).outcome == outcome,
{
    law_complete_frame_is_decoded(buf);
    if buf.len() >= 4 {
        law_bytes_add_up(buf.take(4));
        if let Ok(Some((event, used))) = decode_model(buf) {
            let tail = split_stream(buf.skip(used as int));
            assert((seq![event] + tail.events).skip(1) =~= tail.events);
        }
    }
}

/// What is kept is the end of what came in.
pub proof fn law_rest_is_the_end_of_the_stream(buf: Seq<u8>)
    ensures
        split_stream(buf).rest.len() <= buf.len(),
        split_stream(buf).rest == buf.skip(buf.len() - split_stream(buf).rest.len()),
    decreases buf.len(),
{
    law_stream_goes_by_its_first_frame(buf);
    let split = split_stream(buf);
    if split.events.len() > 0 {
        if let Ok(Some((event, used))) = decode_model(buf) {
            let tail = buf.skip(used as int);
            law_rest_is_the_end_of_the_stream(tail);
            assert(tail.skip(tail.len() - split.rest.len()) =~= buf.skip(
                buf.len() - split.rest.len(),
            ));
        }
    } else {
        assert(buf.skip(0) =~= buf);
    }
}

/// The model of a list of events holds every event in its place.
pub proof fn law_events_are_seen_whole(events: Seq<InputEvent>, i: int)
    requires
        0 <= i < events.len(),
    ensures
        models(events).len() == events.len(),
        models(events)[i] == events[i]@,
{
}

} // verus!
