use vstd::prelude::*;

use crate::ring::BoundedQueue;

verus! {

/// Chunks of a body that the capture side may hold before the oldest is
/// dropped.
pub const CAPTURE_RING_CHUNKS: usize = 16;

/// The views of a sequence of chunks.
pub open spec fn chunk_views(cs: Seq<Vec<u8>>) -> Seq<Seq<u8>> {
    cs.map_values(|c: Vec<u8>| c@)
}

/// Where the capture side of a body stands.
#[derive(Clone, Copy, Debug, PartialEq, Eq, Structural)]
pub enum CaptureProgress {
    /// The body goes on; more chunks may come.
    Pending,
    /// The body has ended; `complete` says whether every chunk reached the
    /// capture side and the stream ended without error.
    Finished { complete: bool },
}

/// Splits one body stream between a live consumer, which gets every chunk
/// as soon as it is produced, and a capture consumer, which reads from a
/// bounded buffer and loses the oldest chunks when it falls behind.
pub struct BodyTee {
    ring: BoundedQueue<Vec<u8>>,
    live_open: bool,
    capture_open: bool,
    ended: bool,
    failed: bool,
    lossy: bool,
    fed: Ghost<Seq<Seq<u8>>>,
    taken: Ghost<Seq<Seq<u8>>>,
    delivered: Ghost<Seq<Seq<u8>>>,
}

impl BodyTee {
    /// The chunks produced so far.
    pub closed spec fn fed(&self) -> Seq<Seq<u8>> {
        self.fed@
    }

    /// The chunks handed to the capture side so far.
    pub closed spec fn taken(&self) -> Seq<Seq<u8>> {
        self.taken@
    }

    /// The chunks handed to the live side so far.
    pub closed spec fn delivered(&self) -> Seq<Seq<u8>> {
        self.delivered@
    }

    /// The chunks waiting for the capture side.
    pub closed spec fn waiting(&self) -> Seq<Seq<u8>> {
        chunk_views(self.ring.items())
    }

    pub closed spec fn live_open_spec(&self) -> bool {
        self.live_open
    }

    pub closed spec fn capture_open_spec(&self) -> bool {
        self.capture_open
    }

    pub closed spec fn ended_spec(&self) -> bool {
        self.ended
    }

    pub closed spec fn failed_spec(&self) -> bool {
        self.failed
    }

    /// Some chunk was dropped before the capture side read it.
    pub closed spec fn lossy_spec(&self) -> bool {
        self.lossy
    }

    pub closed spec fn capacity_spec(&self) -> nat {
        self.ring.capacity_spec()
    }

    pub closed spec fn wf(&self) -> bool {
        &&& self.ring.wf()
        &&& self.failed ==> self.ended
        &&& self.capture_open && !self.lossy ==> self.taken@ + self.waiting() == self.fed@
        &&& self.live_open ==> self.delivered@ == self.fed@
    }

    /// A tee whose capture side holds at most `capacity` chunks.
    pub fn new(capacity: usize) -> (r: BodyTee)
        requires
            capacity > 0,
        ensures
            r.wf(),
            r.capacity_spec() == capacity,
            r.fed() == Seq::<Seq<u8>>::empty(),
            r.taken() == Seq::<Seq<u8>>::empty(),
            r.delivered() == Seq::<Seq<u8>>::empty(),
            r.waiting() == Seq::<Seq<u8>>::empty(),
            r.live_open_spec() && r.capture_open_spec(),
            !r.ended_spec() && !r.failed_spec() && !r.lossy_spec(),
    {
        let r = BodyTee {
            ring: BoundedQueue::new(capacity),
            live_open: true,
            capture_open: true,
            ended: false,
            failed: false,
            lossy: false,
            fed: Ghost(Seq::empty()),
            taken: Ghost(Seq::empty()),
            delivered: Ghost(Seq::empty()),
        };
        assert(r.waiting() =~= Seq::<Seq<u8>>::empty());
        r
    }

    /// A tee with the default capture buffer of sixteen chunks.
    pub fn with_default_capacity() -> (r: BodyTee)
        ensures
            r.wf(),
            r.capacity_spec() == 16,
            r.fed() == Seq::<Seq<u8>>::empty(),
            r.taken() == Seq::<Seq<u8>>::empty(),
            r.delivered() == Seq::<Seq<u8>>::empty(),
            r.live_open_spec() && r.capture_open_spec(),
            !r.ended_spec() && !r.failed_spec() && !r.lossy_spec(),
    {
        BodyTee::new(CAPTURE_RING_CHUNKS)
    }

    /// Takes one chunk from the producer. The capture side keeps a copy,
    /// dropping its oldest chunk when full; the chunk itself is returned
    /// for the live side unless that side has gone.
    pub fn on_data(&mut self, chunk: Vec<u8>) -> (live: Option<Vec<u8>>)
        requires
            old(self).wf(),
            !old(self).ended_spec(),
        ensures
            final(self).wf(),
            final(self).fed() == old(self).fed().push(chunk@),
            final(self).taken() == old(self).taken(),
            final(self).live_open_spec() == old(self).live_open_spec(),
            final(self).capture_open_spec() == old(self).capture_open_spec(),
            !final(self).ended_spec(),
            final(self).capacity_spec() == old(self).capacity_spec(),
            old(self).live_open_spec() ==> live == Some(chunk),
            old(self).live_open_spec() ==> final(self).delivered() == old(self).delivered().push(
                chunk@,
            ),
            !old(self).live_open_spec() ==> final(self).delivered() == old(self).delivered(),
            !old(self).live_open_spec() ==> live is None,
            old(self).lossy_spec() ==> final(self).lossy_spec(),
            old(self).capture_open_spec() && old(self).waiting().len() < old(self).capacity_spec()
                ==> final(self).lossy_spec() == old(self).lossy_spec(),
    {
        let ghost old_waiting = self.waiting();
        proof {
            self.fed@ = self.fed@.push(chunk@);
        }
        if self.capture_open {
            let copy = chunk.clone();
            assert(copy@ =~= chunk@);
            let evicted = self.ring.push(copy);
            if evicted {
                self.lossy = true;
            } else {
                assert(self.waiting() =~= old_waiting.push(chunk@));
            }
        }
        if self.live_open {
            proof {
                self.delivered@ = self.delivered@.push(chunk@);
            }
            Some(chunk)
        } else {
            None
        }
    }

    /// The producer reached the end of the body.
    pub fn on_end(&mut self)
        requires
            old(self).wf(),
        ensures
            final(self).wf(),
            final(self).ended_spec(),
            final(self).failed_spec() == old(self).failed_spec(),
            final(self).lossy_spec() == old(self).lossy_spec(),
            final(self).fed() == old(self).fed(),
            final(self).taken() == old(self).taken(),
            final(self).delivered() == old(self).delivered(),
            final(self).waiting() == old(self).waiting(),
            final(self).live_open_spec() == old(self).live_open_spec(),
            final(self).capture_open_spec() == old(self).capture_open_spec(),
    {
        self.ended = true;
    }

    /// The producer's stream failed; both sides see the body end.
    pub fn on_error(&mut self)
        requires
            old(self).wf(),
        ensures
            final(self).wf(),
            final(self).ended_spec(),
            final(self).failed_spec(),
            final(self).lossy_spec() == old(self).lossy_spec(),
            final(self).fed() == old(self).fed(),
            final(self).taken() == old(self).taken(),
            final(self).delivered() == old(self).delivered(),
            final(self).waiting() == old(self).waiting(),
            final(self).live_open_spec() == old(self).live_open_spec(),
            final(self).capture_open_spec() == old(self).capture_open_spec(),
    {
        self.ended = true;
        self.failed = true;
    }

    /// The live consumer has gone; the capture side is still fed.
    pub fn close_live(&mut self)
        requires
            old(self).wf(),
        ensures
            final(self).wf(),
            !final(self).live_open_spec(),
            final(self).capture_open_spec() == old(self).capture_open_spec(),
            final(self).ended_spec() == old(self).ended_spec(),
            final(self).fed() == old(self).fed(),
            final(self).taken() == old(self).taken(),
    {
        self.live_open = false;
    }

    /// The capture consumer has gone; the live side is still fed.
    pub fn close_capture(&mut self)
        requires
            old(self).wf(),
        ensures
            final(self).wf(),
            !final(self).capture_open_spec(),
            final(self).live_open_spec() == old(self).live_open_spec(),
            final(self).ended_spec() == old(self).ended_spec(),
            final(self).fed() == old(self).fed(),
            final(self).taken() == old(self).taken(),
    {
        self.capture_open = false;
    }

    /// Whether the producer should keep reading: the body has not ended
    /// and some consumer is still there.
    pub fn wants_more(&self) -> (r: bool)
        ensures
            r == (!self.ended_spec() && (self.live_open_spec() || self.capture_open_spec())),
    {
        !self.ended && (self.live_open || self.capture_open)
    }

    /// Whether some chunk was dropped before the capture side read it.
    pub fn is_lossy(&self) -> (r: bool)
        ensures
            r == self.lossy_spec(),
    {
        self.lossy
    }

    /// Moves the chunks waiting for the capture side, oldest first, to the
    /// end of `into`, and says whether the body has ended. Once it has,
    /// a complete capture holds exactly the bytes produced, in order.
    pub fn collect_capture(&mut self, into: &mut Vec<u8>) -> (r: CaptureProgress)
        requires
            old(self).wf(),
            old(self).capture_open_spec(),
            old(into)@ == old(self).taken().flatten(),
        ensures
            final(self).wf(),
            final(self).capture_open_spec(),
            final(self).waiting() == Seq::<Seq<u8>>::empty(),
            final(self).taken() == old(self).taken() + old(self).waiting(),
            final(self).fed() == old(self).fed(),
            final(self).delivered() == old(self).delivered(),
            final(self).ended_spec() == old(self).ended_spec(),
            final(self).failed_spec() == old(self).failed_spec(),
            final(self).lossy_spec() == old(self).lossy_spec(),
            final(self).live_open_spec() == old(self).live_open_spec(),
            final(into)@ == final(self).taken().flatten(),
            !old(self).ended_spec() ==> r == CaptureProgress::Pending,
            old(self).ended_spec() ==> r == (CaptureProgress::Finished {
                complete: !old(self).lossy_spec() && !old(self).failed_spec(),
            }),
            r == (CaptureProgress::Finished { complete: true }) ==> final(into)@ == old(self).fed().flatten(),
    {
        let ghost start_waiting = self.waiting();
        let ghost start_taken = self.taken();
        while !self.ring.is_empty()
            invariant
                self.wf(),
                self.capture_open,
                self.fed() == old(self).fed(),
                self.delivered() == old(self).delivered(),
                self.ended == old(self).ended,
                self.failed == old(self).failed,
                self.lossy == old(self).lossy,
                self.live_open == old(self).live_open,
                start_taken + start_waiting == self.taken() + self.waiting(),
                into@ == self.taken().flatten(),
            decreases self.ring.items().len(),
        {
            let ghost before = self.ring.items();
            let chunk = self.ring.pop().unwrap();
            let mut i: usize = 0;
            let ghost base = into@;
            while i < chunk.len()
                invariant
                    i <= chunk@.len(),
                    into@ == base + chunk@.subrange(0, i as int),
                decreases chunk.len() - i,
            {
                into.push(chunk[i]);
                i = i + 1;
                assert(into@ =~= base + chunk@.subrange(0, i as int));
            }
            assert(chunk@.subrange(0, chunk@.len() as int) =~= chunk@);
            proof {
                self.taken@.lemma_flatten_push(chunk@);
                self.taken@ = self.taken@.push(chunk@);
                assert(chunk_views(before) =~= seq![chunk@] + chunk_views(self.ring.items()));
                assert(start_taken + start_waiting =~= self.taken() + self.waiting());
            }
        }
        proof {
            assert(self.waiting() =~= Seq::<Seq<u8>>::empty());
            assert(start_taken + start_waiting =~= self.taken());
        }
        if self.ended {
            let complete = !self.lossy && !self.failed;
            proof {
                if complete {
                    assert(self.taken() + self.waiting() =~= self.taken());
                }
            }
            CaptureProgress::Finished { complete }
        } else {
            CaptureProgress::Pending
        }
    }
}

/// While the live side is there it has received every chunk produced, in
/// the order produced, so its bytes are the body's bytes.
pub proof fn lemma_live_receives_body(t: BodyTee)
    requires
        t.wf(),
        t.live_open_spec(),
    ensures
        t.delivered() == t.fed(),
        t.delivered().flatten() == t.fed().flatten(),
{
}

} // verus!
