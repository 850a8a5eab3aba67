//! The device adapter: the object the network stack polls.  It owns the
//! controller handle and the single shared frame buffer, arbitrates access
//! to them with a non-blocking exclusive claim, and hands out the
//! receive/transmit tokens that perform the actual transfers.

use vstd::prelude::*;

use crate::BUFFER_SIZE;
use crate::controller::Controller;
use crate::controller::DriverError;
use crate::token::RxToken;
use crate::token::TxToken;

verus! {

/// The link medium the adapter reports to the network stack.
#[derive(Clone, Copy, Debug, PartialEq, Eq, Structural)]
pub enum Medium {
    /// An Ethernet link.
    Ethernet,
}

/// Capability metadata the network stack queries once per poll cycle.
#[derive(Clone, Copy, Debug, PartialEq, Eq)]
pub struct Capabilities {
    /// The link medium: always Ethernet.
    pub medium: Medium,
    /// Largest frame the device accepts: the shared buffer's capacity.
    pub max_transmission_unit: usize,
    /// Most frames handled per opportunity: always one, the device holds a
    /// single frame in flight.
    pub max_burst_size: Option<usize>,
}

/// The one capability record this device ever reports.
pub open spec fn spec_capabilities() -> Capabilities {
    Capabilities {
        medium: Medium::Ethernet,
        max_transmission_unit: BUFFER_SIZE,
        max_burst_size: Some(1usize),
    }
}

/// The adapter over a controller driver `C`.  It owns the sole controller
/// handle and the single frame buffer, and lends them out together, as one
/// atomic claim, to at most one operation at a time.
pub struct SmolEnc28j60<C: Controller> {
    controller: C,
    busy: bool,
    buffer: Vec<u8>,
}

impl<C: Controller> SmolEnc28j60<C> {
    /// Whether the exclusive claim on the controller and buffer is taken.
    pub closed spec fn claimed(&self) -> bool {
        self.busy
    }

    /// The bytes of the shared frame buffer.
    pub closed spec fn buf(&self) -> Seq<u8> {
        self.buffer@
    }

    /// The state of the owned controller handle.
    pub closed spec fn ctrl(&self) -> C {
        self.controller
    }

    /// Well-formed: the buffer always holds exactly one frame's capacity.
    pub open spec fn wf(&self) -> bool {
        self.buf().len() == BUFFER_SIZE
    }

    /// An idle adapter over `controller`, its buffer zeroed.
    pub fn new(controller: C) -> (d: SmolEnc28j60<C>)
        ensures
            d.wf(),
            !d.claimed(),
            d.ctrl() == controller,
            d.buf() == Seq::<u8>::new(BUFFER_SIZE as nat, |i: int| 0u8),
    {
        let mut buffer: Vec<u8> = Vec::new();
        let mut i: usize = 0;
        while i < BUFFER_SIZE
            invariant
                i <= BUFFER_SIZE,
                buffer@.len() == i,
                forall|j: int| 0 <= j < i ==> buffer@[j] == 0u8,
            decreases BUFFER_SIZE - i,
        {
            buffer.push(0u8);
            i += 1;
        }
        proof {
            assert(buffer@ =~= Seq::<u8>::new(BUFFER_SIZE as nat, |i: int| 0u8));
        }
        SmolEnc28j60 { controller, busy: false, buffer }
    }

    /// Attempt the exclusive claim on the controller handle and the frame
    /// buffer together.  Never blocks: a refused attempt returns at once and
    /// changes nothing.
    pub fn try_claim(&mut self) -> (granted: bool)
        ensures
            try_claim_rel(*old(self), *final(self), granted),
    {
        if self.busy {
            false
        } else {
            self.busy = true;
            true
        }
    }

    /// Release the exclusive claim.  Every consume operation releases on
    /// every exit path, success or failure.
    pub fn release(&mut self)
        ensures
            release_rel(*old(self), *final(self)),
    {
        self.busy = false;
    }

    /// Report the device's capabilities.  A pure query: it touches no shared
    /// resource, and its result does not depend on the device state.
    pub fn capabilities(&self) -> (c: Capabilities)
        ensures
            c == spec_capabilities(),
    {
        Capabilities {
            medium: Medium::Ethernet,
            max_transmission_unit: BUFFER_SIZE,
            max_burst_size: Some(1),
        }
    }

    /// Read access to the owned controller, for inspection.  The handle
    /// itself never leaves the adapter.
    pub fn controller_ref(&self) -> (c: &C)
        ensures
            *c == self.ctrl(),
    {
        &self.controller
    }

    /// Read access to the shared buffer, for the processing function.
    pub(crate) fn buffer_ref(&self) -> (b: &Vec<u8>)
        ensures
            b@ == self.buf(),
    {
        &self.buffer
    }

    /// Move the shared buffer out, to hand it to a filling function.  The
    /// caller must put a full-capacity buffer back with
    /// [`Self::put_buffer`].
    pub(crate) fn take_buffer(&mut self) -> (b: Vec<u8>)
        ensures
            b@ == old(self).buf(),
            final(self).claimed() == old(self).claimed(),
            final(self).ctrl() == old(self).ctrl(),
    {
        let mut b: Vec<u8> = Vec::new();
        core::mem::swap(&mut b, &mut self.buffer);
        b
    }

    /// Put a buffer back in place of one taken with [`Self::take_buffer`].
    pub(crate) fn put_buffer(&mut self, b: Vec<u8>)
        requires
            b@.len() == BUFFER_SIZE,
        ensures
            final(self).wf(),
            final(self).buf() == b@,
            final(self).claimed() == old(self).claimed(),
            final(self).ctrl() == old(self).ctrl(),
    {
        self.buffer = b;
    }

    /// Ask the controller to receive one frame into the shared buffer.
    pub(crate) fn hw_receive(&mut self) -> (r: Result<usize, DriverError>)
        requires
            old(self).wf(),
        ensures
            final(self).wf(),
            final(self).claimed() == old(self).claimed(),
            r matches Ok(n) ==> n <= final(self).buf().len(),
            C::receive_rel(
                old(self).ctrl(),
                final(self).ctrl(),
                old(self).buf(),
                final(self).buf(),
                r,
            ),
    {
        self.controller.receive(&mut self.buffer)
    }

    /// Hand the shared buffer to the controller for transmission.
    pub(crate) fn hw_transmit(&mut self) -> (r: Result<(), DriverError>)
        requires
            old(self).wf(),
        ensures
            final(self).wf(),
            final(self).claimed() == old(self).claimed(),
            final(self).buf() == old(self).buf(),
            C::transmit_rel(old(self).ctrl(), final(self).ctrl(), old(self).buf(), r),
    {
        self.controller.transmit(&self.buffer)
    }

    /// Offer the stack one receive opportunity.  Token creation never fails:
    /// a token grants only the right to attempt a claim later, so this hands
    /// out a receive/transmit pair unconditionally and touches nothing.
    pub fn receive(&mut self) -> (r: Option<(RxToken, TxToken)>)
        ensures
            *final(self) == *old(self),
            r is Some,
    {
        Some((RxToken {}, TxToken {}))
    }

    /// Offer the stack one transmit opportunity.  As with [`Self::receive`],
    /// token creation never fails and touches nothing.
    pub fn transmit(&mut self) -> (r: Option<TxToken>)
        ensures
            *final(self) == *old(self),
            r is Some,
    {
        Some(TxToken {})
    }
}

/// How one claim attempt relates the adapter's state before it, its state
/// after it, and whether the claim was granted: granted exactly when no
/// claim was active, never touching buffer or controller, and changing
/// nothing at all when refused.
pub open spec fn try_claim_rel<C: Controller>(
    pre: SmolEnc28j60<C>,
    post: SmolEnc28j60<C>,
    granted: bool,
) -> bool {
    &&& granted == !pre.claimed()
    &&& post.claimed() == (pre.claimed() || granted)
    &&& post.buf() == pre.buf()
    &&& post.ctrl() == pre.ctrl()
    &&& !granted ==> post == pre
}

/// How a release relates the states before and after it: the claim is gone
/// and neither buffer nor controller was touched.
pub open spec fn release_rel<C: Controller>(pre: SmolEnc28j60<C>, post: SmolEnc28j60<C>) -> bool {
    &&& !post.claimed()
    &&& post.buf() == pre.buf()
    &&& post.ctrl() == pre.ctrl()
}

/// Mutual exclusion: while a claim is active, every further claim attempt is
/// refused and leaves the device exactly as it was — at most one claim is
/// ever active, whatever the sequence of attempts.
pub proof fn lemma_mutual_exclusion<C: Controller>(
    d0: SmolEnc28j60<C>,
    d1: SmolEnc28j60<C>,
    g1: bool,
    d2: SmolEnc28j60<C>,
    g2: bool,
)
    requires
        try_claim_rel(d0, d1, g1),
        g1,
        try_claim_rel(d1, d2, g2),
    ensures
        !g2,
        d2 == d1,
{
}

/// Release on exit: once a claim has been released, the next claim attempt
/// succeeds — a completed operation never causes a permanent lockout.
pub proof fn lemma_release_on_exit<C: Controller>(
    d0: SmolEnc28j60<C>,
    d1: SmolEnc28j60<C>,
    d2: SmolEnc28j60<C>,
    g: bool,
)
    requires
        release_rel(d0, d1),
        try_claim_rel(d1, d2, g),
    ensures
        g,
{
}

/// Idempotent queries: any two capability query results are identical, since
/// every query returns the one fixed capability record.
pub proof fn lemma_capabilities_idempotent(c1: Capabilities, c2: Capabilities)
    requires
        c1 == spec_capabilities(),
        c2 == spec_capabilities(),
    ensures
        c1 == c2,
{
}

} // verus!
