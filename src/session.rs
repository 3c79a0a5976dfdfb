//! A device session: frames waiting to be sent and events waiting to be polled.
use vstd::prelude::*;

use crate::events::{after_receive, EventQueue, MidiEvent};
use crate::frames::frames_view;

verus! {

/// The state shared by both device generations. Frames that the encoder
/// builds wait here until the transport takes them; raw messages from the
/// transport wait here, as events, until they are polled.
pub struct Session {
    outbox: Vec<Vec<u8>>,
    events: EventQueue,
}

impl Session {
    /// The frames built and not yet taken, oldest first.
    pub closed spec fn frames(&self) -> Seq<Seq<u8>> {
        frames_view(self.outbox@)
    }

    /// The events received and not yet polled, oldest first.
    pub closed spec fn events(&self) -> Seq<MidiEvent> {
        self.events@
    }

    pub fn new() -> (r: Session)
        ensures
            r.frames() == Seq::<Seq<u8>>::empty(),
            r.events() == Seq::<MidiEvent>::empty(),
    {
        let r = Session { outbox: Vec::new(), events: EventQueue::new() };
        assert(r.frames() =~= Seq::<Seq<u8>>::empty());
        r
    }

    /// Queues one frame for transmission.
    pub fn send(&mut self, frame: Vec<u8>)
        ensures
            final(self).frames() == old(self).frames().push(frame@),
            final(self).events() == old(self).events(),
    {
        self.outbox.push(frame);
        assert(frames_view(self.outbox@) =~= frames_view(old(self).outbox@).push(frame@));
    }

    /// Queues frames for transmission, in order.
    pub fn send_all(&mut self, frames: Vec<Vec<u8>>)
        ensures
            final(self).frames() == old(self).frames() + frames_view(frames@),
            final(self).events() == old(self).events(),
    {
        let mut i: usize = 0;
        while i < frames.len()
            invariant
                i <= frames@.len(),
                self.frames() == old(self).frames() + frames_view(frames@.take(i as int)),
                self.events() == old(self).events(),
            decreases frames@.len() - i,
        {
            let f = frames[i].clone();
            self.send(f);
            assert(frames_view(frames@.take(i + 1)) =~= frames_view(frames@.take(i as int)).push(
                frames@[i as int]@,
            ));
            assert(old(self).frames() + frames_view(frames@.take(i + 1)) =~= (old(self).frames()
                + frames_view(frames@.take(i as int))).push(frames@[i as int]@));
            i += 1;
        }
        assert(frames@.take(i as int) =~= frames@);
    }

    /// Number of frames waiting for transmission.
    pub fn pending_frames(&self) -> (r: usize)
        ensures
            r == self.frames().len(),
    {
        self.outbox.len()
    }

    /// Hands over every waiting frame, oldest first, and leaves none behind.
    pub fn take_frames(&mut self) -> (r: Vec<Vec<u8>>)
        ensures
            frames_view(r@) == old(self).frames(),
            final(self).frames() == Seq::<Seq<u8>>::empty(),
            final(self).events() == old(self).events(),
    {
        let mut taken: Vec<Vec<u8>> = Vec::new();
        std::mem::swap(&mut taken, &mut self.outbox);
        assert(frames_view(self.outbox@) =~= Seq::<Seq<u8>>::empty());
        taken
    }

    /// A raw message that arrived at `time`: kept as an event if it is three
    /// bytes long, dropped otherwise.
    pub fn receive(&mut self, time: u64, raw: &[u8])
        ensures
            final(self).events() == after_receive(old(self).events(), time, raw@),
            final(self).frames() == old(self).frames(),
    {
        self.events.receive(time, raw);
    }

    /// Takes every waiting event, oldest first, or `None` when there is none.
    pub fn poll(&mut self) -> (r: Option<Vec<MidiEvent>>)
        ensures
            final(self).events() == Seq::<MidiEvent>::empty(),
            final(self).frames() == old(self).frames(),
            old(self).events().len() == 0 ==> r is None,
            old(self).events().len() > 0 ==> r is Some && r.unwrap()@ == old(self).events(),
    {
        self.events.poll()
    }
}

} // verus!
