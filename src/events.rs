//! Incoming messages and the queue that holds them until they are polled.
use vstd::prelude::*;

verus! {

/// A three-byte message: status byte and two data bytes.
#[derive(Clone, Copy, Debug, PartialEq, Eq, Structural)]
pub struct MidiMessage {
    pub status: u8,
    pub data1: u8,
    pub data2: u8,
}

/// A message together with the time at which it arrived.
#[derive(Clone, Copy, Debug, PartialEq, Eq, Structural)]
pub struct MidiEvent {
    pub timestamp: u32,
    pub message: MidiMessage,
}

/// The bytes of a message as they travel on the wire.
pub open spec fn message_bytes(m: MidiMessage) -> Seq<u8> {
    seq![m.status, m.data1, m.data2]
}

/// What a raw message decodes to: a message for exactly three bytes, nothing otherwise.
pub open spec fn spec_decode(raw: Seq<u8>) -> Option<MidiMessage> {
    if raw.len() == 3 {
        Some(MidiMessage { status: raw[0], data1: raw[1], data2: raw[2] })
    } else {
        None
    }
}

impl MidiMessage {
    /// The three bytes of this message.
    pub fn to_bytes(&self) -> (r: Vec<u8>)
        ensures
            r@ == message_bytes(*self),
    {
        let r = vec![self.status, self.data1, self.data2];
        assert(r@ =~= message_bytes(*self));
        r
    }
}

/// Reads a raw message: exactly three bytes make a message, anything else is dropped.
pub fn decode_message(raw: &[u8]) -> (r: Option<MidiMessage>)
    ensures
        r == spec_decode(raw@),
{
    if raw.len() == 3 {
        Some(MidiMessage { status: raw[0], data1: raw[1], data2: raw[2] })
    } else {
        None
    }
}

/// Decoding the bytes of a message gives that message back.
pub proof fn lemma_decode_encode(m: MidiMessage)
    ensures
        spec_decode(message_bytes(m)) == Some(m),
{
}

/// A raw message that decodes consists of the bytes of what it decodes to.
pub proof fn lemma_encode_decode(raw: Seq<u8>)
    requires
        spec_decode(raw) is Some,
    ensures
        message_bytes(spec_decode(raw).unwrap()) == raw,
{
    assert(message_bytes(spec_decode(raw).unwrap()) =~= raw);
}

/// An unbounded first-in first-out buffer of events.
pub struct EventQueue {
    events: Vec<MidiEvent>,
}

impl View for EventQueue {
    type V = Seq<MidiEvent>;

    closed spec fn view(&self) -> Seq<MidiEvent> {
        self.events@
    }
}

/// The timestamp kept for a delivery time: its low 32 bits.
pub open spec fn event_time(time: u64) -> u32 {
    (time % 0x1_0000_0000) as u32
}

/// The queue after a raw message has been received at `time`.
pub open spec fn after_receive(q: Seq<MidiEvent>, time: u64, raw: Seq<u8>) -> Seq<MidiEvent> {
    match spec_decode(raw) {
        Some(m) => q.push(MidiEvent { timestamp: event_time(time), message: m }),
        None => q,
    }
}

impl EventQueue {
    pub fn new() -> (r: EventQueue)
        ensures
            r@ == Seq::<MidiEvent>::empty(),
    {
        EventQueue { events: Vec::new() }
    }

    pub fn len(&self) -> (r: usize)
        ensures
            r == self@.len(),
    {
        self.events.len()
    }

    /// Appends one event at the back.
    pub fn push(&mut self, event: MidiEvent)
        ensures
            final(self)@ == old(self)@.push(event),
    {
        self.events.push(event);
    }

    /// Producer side: a raw message that arrived at `time` (in microseconds)
    /// becomes an event if it is three bytes long, and is dropped otherwise.
    pub fn receive(&mut self, time: u64, raw: &[u8])
        ensures
            final(self)@ == after_receive(old(self)@, time, raw@),
    {
        match decode_message(raw) {
            Some(message) => {
                let timestamp = (time & 0xFFFF_FFFF) as u32;
                assert(timestamp == event_time(time)) by (bit_vector)
                    requires
                        timestamp == (time & 0xFFFF_FFFF) as u32,
                ;
                self.events.push(MidiEvent { timestamp, message });
            },
            None => {},
        }
    }

    /// Consumer side: takes every queued event, oldest first, or `None` if
    /// there were none. The queue is empty afterwards.
    pub fn poll(&mut self) -> (r: Option<Vec<MidiEvent>>)
        ensures
            final(self)@ == Seq::<MidiEvent>::empty(),
            old(self)@.len() == 0 ==> r is None,
            old(self)@.len() > 0 ==> r is Some && r.unwrap()@ == old(self)@,
    {
        if self.events.len() == 0 {
            None
        } else {
            let mut taken: Vec<MidiEvent> = Vec::new();
            std::mem::swap(&mut taken, &mut self.events);
            Some(taken)
        }
    }
}

/// Three well-formed messages received one after another on an empty queue
/// stand in the queue in arrival order, ready to be returned by one poll.
pub proof fn lemma_receive_order(
    q: Seq<MidiEvent>,
    t1: u64,
    m1: MidiMessage,
    t2: u64,
    m2: MidiMessage,
    t3: u64,
    m3: MidiMessage,
)
    requires
        q.len() == 0,
    ensures
        after_receive(
            after_receive(after_receive(q, t1, message_bytes(m1)), t2, message_bytes(m2)),
            t3,
            message_bytes(m3),
        ) == seq![
            MidiEvent { timestamp: event_time(t1), message: m1 },
            MidiEvent { timestamp: event_time(t2), message: m2 },
            MidiEvent { timestamp: event_time(t3), message: m3 },
        ],
{
    let r = after_receive(
        after_receive(after_receive(q, t1, message_bytes(m1)), t2, message_bytes(m2)),
        t3,
        message_bytes(m3),
    );
    assert(r =~= seq![
        MidiEvent { timestamp: event_time(t1), message: m1 },
        MidiEvent { timestamp: event_time(t2), message: m2 },
        MidiEvent { timestamp: event_time(t3), message: m3 },
    ]);
}

/// A raw message that is not three bytes long leaves the queue as it was, so
/// no later poll returns it.
pub proof fn lemma_short_message_dropped(q: Seq<MidiEvent>, time: u64, raw: Seq<u8>)
    requires
        raw.len() != 3,
    ensures
        after_receive(q, time, raw) == q,
{
}

} // verus!
