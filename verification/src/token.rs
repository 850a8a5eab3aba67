//! The receive/transmit tokens and their consume protocols.
//!
//! A token is a one-shot capability: it grants only the right to attempt
//! the exclusive claim, so creating one never fails and a token dropped
//! unconsumed touches nothing.  Consuming a token attempts the claim,
//! performs the hardware transfer through the controller driver, runs the
//! caller's callback against the shared buffer, and releases the claim on
//! every exit path.

use vstd::prelude::*;

use crate::BUFFER_SIZE;
use crate::Error;
use crate::controller::Controller;
use crate::controller::DriverError;
use crate::device::SmolEnc28j60;

verus! {

/// What the receive protocol returns once the hardware outcome is known: on
/// a driver failure the operation fails with [`Error::Illegal`] and the
/// processing function never runs; on a delivery of `n` bytes the
/// processing function sees exactly the first `n` bytes of the buffer and
/// its own result is the operation's result, unchanged.
pub fn finish_receive<R, F: FnOnce(Vec<u8>) -> Result<R, Error>>(
    buffer: &Vec<u8>,
    outcome: Result<usize, DriverError>,
    f: F,
) -> (r: Result<R, Error>)
    requires
        outcome matches Ok(n) ==> n <= buffer@.len(),
        forall|v: Vec<u8>| v@.len() <= buffer@.len() ==> call_requires(f, (v,)),
    ensures
        outcome matches Err(_) ==> r == Result::<R, Error>::Err(Error::Illegal),
        outcome matches Ok(n) ==> exists|v: Vec<u8>|
            v@ == buffer@.subrange(0, n as int) && #[trigger] call_ensures(f, (v,), r),
{
    match outcome {
        Err(_) => Err(Error::Illegal),
        Ok(n) => {
            let mut prefix: Vec<u8> = Vec::new();
            let mut i: usize = 0;
            while i < n
                invariant
                    i <= n,
                    n <= buffer@.len(),
                    prefix@ == buffer@.subrange(0, i as int),
                decreases n - i,
            {
                prefix.push(buffer[i]);
                proof {
                    assert(buffer@.subrange(0, i as int).push(buffer@[i as int])
                        =~= buffer@.subrange(0, i + 1 as int));
                }
                i += 1;
            }
            f(prefix)
        },
    }
}

/// The error-priority rule for transmit: the hardware outcome is
/// authoritative.  A driver failure yields [`Error::Illegal`] and supersedes
/// the filling function's own result; otherwise the filling function's
/// result stands, unchanged.
pub open spec fn spec_transmit_outcome<R>(
    fill: Result<R, Error>,
    hw: Result<(), DriverError>,
) -> Result<R, Error> {
    match hw {
        Err(_) => Err(Error::Illegal),
        Ok(_) => fill,
    }
}

/// Combine a filling function's result with the hardware outcome, by the
/// error-priority rule [`spec_transmit_outcome`].
pub fn transmit_outcome<R>(fill: Result<R, Error>, hw: Result<(), DriverError>) -> (r: Result<
    R,
    Error,
>)
    ensures
        r == spec_transmit_outcome(fill, hw),
{
    match hw {
        Err(_) => Err(Error::Illegal),
        Ok(_) => fill,
    }
}

/// Pad or cut a buffer back to the frame buffer's capacity.  A filling
/// function that plays by the rules hands the buffer back unchanged in
/// length, and then so does this.
fn fit_to_capacity(v: Vec<u8>) -> (r: Vec<u8>)
    ensures
        r@.len() == BUFFER_SIZE,
        v@.len() == BUFFER_SIZE ==> r@ == v@,
{
    let ghost orig = v;
    let mut v = v;
    if v.len() > BUFFER_SIZE {
        v.truncate(BUFFER_SIZE);
    }
    while v.len() < BUFFER_SIZE
        invariant
            v@.len() <= BUFFER_SIZE,
            orig@.len() == BUFFER_SIZE ==> v@ == orig@,
        decreases BUFFER_SIZE - v@.len(),
    {
        v.push(0u8);
    }
    v
}

/// Permission to attempt one receive operation.
pub struct RxToken {}

impl RxToken {
    /// Consume the token: claim the controller and buffer, receive one
    /// frame, run the processing function `f` on exactly the received
    /// bytes, and release the claim whatever happened.
    ///
    /// The timestamp is informational only and unused.  The operation fails
    /// with [`Error::Exhausted`] when the claim is already taken, and with
    /// [`Error::Illegal`] when the driver reports a transfer error; in both
    /// cases `f` never runs.  Otherwise `f`'s own result is the operation's
    /// result, unchanged.
    pub fn consume<C: Controller, R, F: FnOnce(Vec<u8>) -> Result<R, Error>>(
        self,
        device: &mut SmolEnc28j60<C>,
        _timestamp: i64,
        f: F,
    ) -> (r: Result<R, Error>)
        requires
            old(device).wf(),
            forall|v: Vec<u8>| v@.len() <= BUFFER_SIZE ==> call_requires(f, (v,)),
        ensures
            final(device).wf(),
            old(device).claimed() ==> *final(device) == *old(device) && r == Result::<
                R,
                Error,
            >::Err(Error::Exhausted),
            !old(device).claimed() ==> !final(device).claimed(),
            !old(device).claimed() ==> exists|hw: Result<usize, DriverError>|
                #![auto]
                C::receive_rel(
                    old(device).ctrl(),
                    final(device).ctrl(),
                    old(device).buf(),
                    final(device).buf(),
                    hw,
                ) && match hw {
                    Result::Err(_) => r == Result::<R, Error>::Err(Error::Illegal),
                    Result::Ok(n) => n <= BUFFER_SIZE && exists|v: Vec<u8>|
                        v@ == final(device).buf().subrange(0, n as int) && #[trigger] call_ensures(
                            f,
                            (v,),
                            r,
                        ),
                },
    {
        if !device.try_claim() {
            return Err(Error::Exhausted);
        }
        let outcome = device.hw_receive();
        let r = finish_receive(device.buffer_ref(), outcome, f);
        device.release();
        r
    }
}

/// Permission to attempt one transmit operation.
pub struct TxToken {}

impl TxToken {
    /// Consume the token: check the requested length against the buffer
    /// capacity, claim the controller and buffer, run the filling function
    /// `f` against the buffer, hand the buffer to the controller for
    /// transmission whatever `f` returned, and release the claim.
    ///
    /// The timestamp is informational only and unused.  The operation fails
    /// with [`Error::Exhausted`] when `length` exceeds the capacity — then
    /// neither `f` nor the driver is touched — or when the claim is already
    /// taken.  A driver failure yields [`Error::Illegal`] and supersedes
    /// `f`'s own result; otherwise `f`'s result is the operation's result.
    pub fn consume<C: Controller, R, F: FnOnce(Vec<u8>) -> (Vec<u8>, Result<R, Error>)>(
        self,
        device: &mut SmolEnc28j60<C>,
        _timestamp: i64,
        length: usize,
        f: F,
    ) -> (r: Result<R, Error>)
        requires
            old(device).wf(),
            forall|v: Vec<u8>| v@.len() == BUFFER_SIZE ==> call_requires(f, (v,)),
        ensures
            final(device).wf(),
            length > BUFFER_SIZE ==> *final(device) == *old(device) && r == Result::<
                R,
                Error,
            >::Err(Error::Exhausted),
            length <= BUFFER_SIZE && old(device).claimed() ==> *final(device) == *old(device) && r
                == Result::<R, Error>::Err(Error::Exhausted),
            length <= BUFFER_SIZE && !old(device).claimed() ==> !final(device).claimed() && exists|
                vin: Vec<u8>,
                vout: Vec<u8>,
                fill: Result<R, Error>,
                hw: Result<(), DriverError>,
            |
                #![auto]
                vin@ == old(device).buf() && call_ensures(f, (vin,), (vout, fill)) && r
                    == spec_transmit_outcome(fill, hw) && C::transmit_rel(
                    old(device).ctrl(),
                    final(device).ctrl(),
                    final(device).buf(),
                    hw,
                ) && (vout@.len() == BUFFER_SIZE ==> final(device).buf() == vout@),
    {
        if length > BUFFER_SIZE {
            return Err(Error::Exhausted);
        }
        if !device.try_claim() {
            return Err(Error::Exhausted);
        }
        let vin = device.take_buffer();
        let (vout, fill) = f(vin);
        let vout = fit_to_capacity(vout);
        device.put_buffer(vout);
        let hw = device.hw_transmit();
        device.release();
        transmit_outcome(fill, hw)
    }
}

} // verus!
