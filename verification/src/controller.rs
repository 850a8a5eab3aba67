//! The boundary with the controller driver: the blocking hardware interface
//! the adapter drives, and two in-memory stand-ins — a scripted controller
//! and an always-failing one — used as reference implementations and by
//! tests.

use vstd::prelude::*;

verus! {

/// A driver-level failure.  The adapter does not interpret the cause: every
/// driver failure is surfaced to the network stack as
/// [`Error::Illegal`](crate::Error::Illegal).
#[derive(Clone, Copy, Debug, PartialEq, Eq, Structural)]
pub struct DriverError;

/// The blocking controller driver the adapter drives.
///
/// Both calls block the caller for the whole frame transfer.  Only one call
/// may be in flight at a time; the adapter's exclusive claim enforces that.
pub trait Controller: Sized {
    /// How one receive call relates the driver's state and the buffer
    /// before and after it.  An implementation says here what its transfer
    /// does, and the adapter's contracts speak through it; one that keeps
    /// the default promises nothing of itself.
    open spec fn receive_rel(
        pre: Self,
        post: Self,
        buf_pre: Seq<u8>,
        buf_post: Seq<u8>,
        r: Result<usize, DriverError>,
    ) -> bool {
        true
    }

    /// How one transmit call of `buffer` relates the driver's state before
    /// and after it; as with [`Self::receive_rel`], the default promises
    /// nothing.
    open spec fn transmit_rel(
        pre: Self,
        post: Self,
        buffer: Seq<u8>,
        r: Result<(), DriverError>,
    ) -> bool {
        true
    }

    /// Block until one frame has arrived, write its bytes at the start of
    /// `buffer`, and return how many bytes were written.
    fn receive(&mut self, buffer: &mut Vec<u8>) -> (r: Result<usize, DriverError>)
        ensures
            final(buffer)@.len() == old(buffer)@.len(),
            r matches Ok(n) ==> n <= final(buffer)@.len(),
            Self::receive_rel(*old(self), *final(self), old(buffer)@, final(buffer)@, r),
    ;

    /// Block until the bytes of `buffer` have been sent as one frame.
    fn transmit(&mut self, buffer: &Vec<u8>) -> (r: Result<(), DriverError>)
        requires
            buffer@.len() <= crate::BUFFER_SIZE,
        ensures
            Self::transmit_rel(*old(self), *final(self), buffer@, r),
    ;
}

/// Byte-for-byte copy of a buffer.
pub(crate) fn copy_bytes(src: &Vec<u8>) -> (r: Vec<u8>)
    ensures
        r@ == src@,
{
    let mut r: Vec<u8> = Vec::new();
    let mut i: usize = 0;
    while i < src.len()
        invariant
            i <= src@.len(),
            r@ == src@.subrange(0, i as int),
        decreases src@.len() - i,
    {
        r.push(src[i]);
        proof {
            assert(src@.subrange(0, i as int).push(src@[i as int]) =~= src@.subrange(
                0,
                i + 1 as int,
            ));
        }
        i += 1;
    }
    proof {
        assert(src@.subrange(0, src@.len() as int) =~= src@);
    }
    r
}

/// An in-memory controller: it replays queued frames on receive and records
/// every transmitted buffer.  It stands in for the hardware in tests.
pub struct ScriptedController {
    /// Frames still to be delivered; `receive` hands out the last one first.
    pub incoming: Vec<Vec<u8>>,
    /// Every buffer handed to `transmit`, oldest first.
    pub sent: Vec<Vec<u8>>,
}

impl ScriptedController {
    /// A controller with nothing to deliver and nothing sent yet.
    pub fn new() -> (c: ScriptedController)
        ensures
            c.incoming@ == Seq::<Vec<u8>>::empty(),
            c.sent@ == Seq::<Vec<u8>>::empty(),
    {
        ScriptedController { incoming: Vec::new(), sent: Vec::new() }
    }

    /// Queue one more frame for delivery.  Frames are delivered most
    /// recently queued first.
    pub fn queue_frame(&mut self, frame: Vec<u8>)
        ensures
            final(self).incoming@ == old(self).incoming@.push(frame),
            final(self).sent == old(self).sent,
    {
        self.incoming.push(frame);
    }

    /// Whether the next `receive` call can deliver a frame into a buffer of
    /// `len` bytes: a frame is queued and the next one fits.
    pub open spec fn can_deliver(&self, len: nat) -> bool {
        self.incoming@.len() > 0 && self.incoming@.last()@.len() <= len
    }

    /// Deliver the most recently queued frame, or fail when none is queued
    /// or the next frame does not fit the buffer.  On success the frame's
    /// bytes stand at the start of the buffer, the rest of the buffer is
    /// untouched, and the frame leaves the queue.
    pub fn replay_receive(&mut self, buffer: &mut Vec<u8>) -> (r: Result<usize, DriverError>)
        ensures
            final(buffer)@.len() == old(buffer)@.len(),
            !old(self).can_deliver(old(buffer)@.len()) ==> r is Err && *final(self) == *old(self)
                && final(buffer)@ == old(buffer)@,
            old(self).can_deliver(old(buffer)@.len()) ==> {
                let frame = old(self).incoming@.last();
                &&& r == Result::<usize, DriverError>::Ok(frame@.len() as usize)
                &&& final(self).incoming@ == old(self).incoming@.drop_last()
                &&& final(self).sent == old(self).sent
                &&& final(buffer)@ == frame@ + old(buffer)@.skip(frame@.len() as int)
            },
    {
        let m = self.incoming.len();
        if m == 0 {
            return Err(DriverError);
        }
        let n = self.incoming[m - 1].len();
        if n > buffer.len() {
            return Err(DriverError);
        }
        let frame = self.incoming.pop().unwrap();
        let mut i: usize = 0;
        while i < frame.len()
            invariant
                i <= frame@.len(),
                frame@.len() == n,
                n <= buffer@.len(),
                buffer@.len() == old(buffer)@.len(),
                forall|j: int| 0 <= j < i ==> buffer@[j] == frame@[j],
                forall|j: int| i <= j < buffer@.len() ==> buffer@[j] == old(buffer)@[j],
            decreases frame@.len() - i,
        {
            buffer[i] = frame[i];
            i += 1;
        }
        proof {
            assert(buffer@ =~= frame@ + old(buffer)@.skip(frame@.len() as int));
        }
        Ok(n)
    }

    /// Record a transmitted buffer at the end of `sent`, byte for byte;
    /// this controller never fails to send.
    pub fn record_transmit(&mut self, buffer: &Vec<u8>) -> (r: Result<(), DriverError>)
        ensures
            r is Ok,
            final(self).incoming == old(self).incoming,
            final(self).sent@.len() == old(self).sent@.len() + 1,
            final(self).sent@.last()@ == buffer@,
            final(self).sent@.drop_last() == old(self).sent@,
    {
        let copy = copy_bytes(buffer);
        self.sent.push(copy);
        proof {
            assert(self.sent@.drop_last() =~= old(self).sent@);
        }
        Ok(())
    }
}

impl Controller for ScriptedController {
    /// A receive delivers the most recently queued frame into the start of
    /// the buffer and dequeues it, when one is queued and fits; otherwise
    /// it fails and changes nothing.
    open spec fn receive_rel(
        pre: Self,
        post: Self,
        buf_pre: Seq<u8>,
        buf_post: Seq<u8>,
        r: Result<usize, DriverError>,
    ) -> bool {
        if pre.can_deliver(buf_pre.len()) {
            let frame = pre.incoming@.last();
            &&& r == Result::<usize, DriverError>::Ok(frame@.len() as usize)
            &&& post.incoming@ == pre.incoming@.drop_last()
            &&& post.sent == pre.sent
            &&& buf_post == frame@ + buf_pre.skip(frame@.len() as int)
        } else {
            &&& r is Err
            &&& post == pre
            &&& buf_post == buf_pre
        }
    }

    /// A transmit always succeeds and records the buffer, byte for byte, at
    /// the end of `sent`.
    open spec fn transmit_rel(
        pre: Self,
        post: Self,
        buffer: Seq<u8>,
        r: Result<(), DriverError>,
    ) -> bool {
        &&& r is Ok
        &&& post.incoming == pre.incoming
        &&& post.sent@.len() == pre.sent@.len() + 1
        &&& post.sent@.last()@ == buffer
        &&& post.sent@.drop_last() == pre.sent@
    }

    /// Deliver the most recently queued frame, as [`Self::replay_receive`].
    fn receive(&mut self, buffer: &mut Vec<u8>) -> (r: Result<usize, DriverError>) {
        self.replay_receive(buffer)
    }

    /// Record the transmitted buffer, as [`Self::record_transmit`].
    fn transmit(&mut self, buffer: &Vec<u8>) -> (r: Result<(), DriverError>) {
        self.record_transmit(buffer)
    }
}

/// A controller whose every transfer fails: the driver-failure model, for
/// driving the adapter's hardware-error paths.
pub struct FaultyController;

impl Controller for FaultyController {
    /// A receive always fails and touches nothing.
    open spec fn receive_rel(
        pre: Self,
        post: Self,
        buf_pre: Seq<u8>,
        buf_post: Seq<u8>,
        r: Result<usize, DriverError>,
    ) -> bool {
        r is Err && post == pre && buf_post == buf_pre
    }

    /// A transmit always fails and touches nothing.
    open spec fn transmit_rel(
        pre: Self,
        post: Self,
        buffer: Seq<u8>,
        r: Result<(), DriverError>,
    ) -> bool {
        r is Err && post == pre
    }

    fn receive(&mut self, _buffer: &mut Vec<u8>) -> (r: Result<usize, DriverError>) {
        Err(DriverError)
    }

    fn transmit(&mut self, _buffer: &Vec<u8>) -> (r: Result<(), DriverError>) {
        Err(DriverError)
    }
}

/// Transmit always flushes: whatever the filling function's own outcome, a
/// transmit through the scripted controller leaves exactly one more
/// recorded frame — the buffer as it was filled.
pub proof fn lemma_transmit_always_flushes(
    pre: ScriptedController,
    post: ScriptedController,
    buffer: Seq<u8>,
    hw: Result<(), DriverError>,
)
    requires
        ScriptedController::transmit_rel(pre, post, buffer, hw),
    ensures
        post.sent@.len() == pre.sent@.len() + 1,
        post.sent@.last()@ == buffer,
{
}

/// Receive pass-through: when the scripted controller delivers its queued
/// frame, the buffer afterwards starts with exactly that frame's bytes.
pub proof fn lemma_receive_pass_through(
    pre: ScriptedController,
    post: ScriptedController,
    buf_pre: Seq<u8>,
    buf_post: Seq<u8>,
    r: Result<usize, DriverError>,
)
    requires
        pre.can_deliver(buf_pre.len()),
        ScriptedController::receive_rel(pre, post, buf_pre, buf_post, r),
    ensures
        r == Result::<usize, DriverError>::Ok(pre.incoming@.last()@.len() as usize),
        buf_post.subrange(0, pre.incoming@.last()@.len() as int) == pre.incoming@.last()@,
{
    let frame = pre.incoming@.last();
    assert(buf_post.subrange(0, frame@.len() as int) =~= frame@);
}

} // verus!
