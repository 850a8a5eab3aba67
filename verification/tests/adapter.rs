use smol_enc28j60::BUFFER_SIZE;
use smol_enc28j60::CRC_SIZE;
use smol_enc28j60::Error;
use smol_enc28j60::MAX_FRAME_LENGTH;
use smol_enc28j60::controller::DriverError;
use smol_enc28j60::controller::FaultyController;
use smol_enc28j60::controller::ScriptedController;
use smol_enc28j60::device::Medium;
use smol_enc28j60::device::SmolEnc28j60;
use smol_enc28j60::token::finish_receive;
use smol_enc28j60::token::transmit_outcome;

fn pattern(n: usize) -> Vec<u8> {
    (0..n).map(|i| (i % 251) as u8).collect()
}

#[test]
fn buffer_size_is_frame_minus_crc() {
    assert_eq!(MAX_FRAME_LENGTH, 1518);
    assert_eq!(CRC_SIZE, 4);
    assert_eq!(BUFFER_SIZE, 1514);
}

#[test]
fn capabilities_report_ethernet_mtu_and_burst_one() {
    let dev = SmolEnc28j60::new(ScriptedController::new());
    let caps = dev.capabilities();
    assert_eq!(caps.medium, Medium::Ethernet);
    assert_eq!(caps.max_transmission_unit, BUFFER_SIZE);
    assert_eq!(caps.max_burst_size, Some(1));
}

#[test]
fn capabilities_are_idempotent() {
    let mut dev = SmolEnc28j60::new(ScriptedController::new());
    let first = dev.capabilities();
    assert_eq!(dev.capabilities(), first);
    assert_eq!(dev.capabilities(), first);
    // Still identical while a claim is active: a query touches no shared
    // resource.
    assert!(dev.try_claim());
    assert_eq!(dev.capabilities(), first);
}

#[test]
fn token_creation_never_fails() {
    let mut dev = SmolEnc28j60::new(ScriptedController::new());
    assert!(dev.receive().is_some());
    assert!(dev.transmit().is_some());
    // Even while a claim is active: a token grants only the right to
    // attempt a claim later.
    assert!(dev.try_claim());
    assert!(dev.receive().is_some());
    assert!(dev.transmit().is_some());
}

#[test]
fn claim_is_exclusive() {
    let mut dev = SmolEnc28j60::new(ScriptedController::new());
    assert!(dev.try_claim());
    assert!(!dev.try_claim());
    assert!(!dev.try_claim());
    dev.release();
    assert!(dev.try_claim());
}

#[test]
fn receive_fails_exhausted_while_claimed() {
    let mut ctrl = ScriptedController::new();
    ctrl.queue_frame(pattern(100));
    let mut dev = SmolEnc28j60::new(ctrl);
    assert!(dev.try_claim());
    let (rx, _tx) = dev.receive().unwrap();
    let r: Result<u8, Error> = rx.consume(&mut dev, 0, |_bytes| Ok(1));
    assert_eq!(r, Err(Error::Exhausted));
    // Neither buffer nor controller was touched: the frame is still queued.
    assert_eq!(dev.controller_ref().incoming.len(), 1);
}

#[test]
fn transmit_fails_exhausted_while_claimed() {
    let mut dev = SmolEnc28j60::new(ScriptedController::new());
    assert!(dev.try_claim());
    let tx = dev.transmit().unwrap();
    let r: Result<u8, Error> = tx.consume(&mut dev, 0, 64, |v| (v, Ok(1)));
    assert_eq!(r, Err(Error::Exhausted));
    // The controller was never asked to send.
    assert_eq!(dev.controller_ref().sent.len(), 0);
}

#[test]
fn consume_releases_on_success() {
    let mut ctrl = ScriptedController::new();
    ctrl.queue_frame(pattern(42));
    let mut dev = SmolEnc28j60::new(ctrl);
    let (rx, _tx) = dev.receive().unwrap();
    let r: Result<u8, Error> = rx.consume(&mut dev, 0, |_bytes| Ok(9));
    assert_eq!(r, Ok(9));
    // A later claim attempt succeeds: no permanent lockout.
    assert!(dev.try_claim());
}

#[test]
fn consume_releases_on_callback_error() {
    let mut ctrl = ScriptedController::new();
    ctrl.queue_frame(pattern(42));
    let mut dev = SmolEnc28j60::new(ctrl);
    let (rx, _tx) = dev.receive().unwrap();
    let r: Result<u8, Error> = rx.consume(&mut dev, 0, |_bytes| Err(Error::Illegal));
    assert_eq!(r, Err(Error::Illegal));
    assert!(dev.try_claim());
}

#[test]
fn consume_releases_on_hardware_error() {
    let mut dev = SmolEnc28j60::new(FaultyController);
    let (rx, _tx) = dev.receive().unwrap();
    let r: Result<u8, Error> = rx.consume(&mut dev, 0, |_bytes| Ok(1));
    assert_eq!(r, Err(Error::Illegal));
    assert!(dev.try_claim());
    dev.release();
    let tx = dev.transmit().unwrap();
    let r: Result<u8, Error> = tx.consume(&mut dev, 0, 8, |v| (v, Ok(1)));
    assert_eq!(r, Err(Error::Illegal));
    assert!(dev.try_claim());
}

#[test]
fn transmit_too_long_fails_without_claim_or_filler() {
    let mut dev = SmolEnc28j60::new(ScriptedController::new());
    let tx = dev.transmit().unwrap();
    let r: Result<u8, Error> = tx.consume(
        &mut dev,
        0,
        BUFFER_SIZE + 1,
        |_v: Vec<u8>| -> (Vec<u8>, Result<u8, Error>) { panic!("the filling function must not run") },
    );
    assert_eq!(r, Err(Error::Exhausted));
    // No claim was attempted: the very next attempt succeeds.
    assert!(dev.try_claim());
    assert_eq!(dev.controller_ref().sent.len(), 0);
}

#[test]
fn transmit_of_full_capacity_is_accepted() {
    let mut dev = SmolEnc28j60::new(ScriptedController::new());
    let tx = dev.transmit().unwrap();
    let r: Result<u8, Error> = tx.consume(&mut dev, 0, BUFFER_SIZE, |v| (v, Ok(1)));
    assert_eq!(r, Ok(1));
    assert_eq!(dev.controller_ref().sent.len(), 1);
}

#[test]
fn receive_passes_exactly_the_received_bytes_through() {
    let frame = pattern(300);
    let mut ctrl = ScriptedController::new();
    ctrl.queue_frame(frame.clone());
    let mut dev = SmolEnc28j60::new(ctrl);
    let (rx, _tx) = dev.receive().unwrap();
    let r: Result<Vec<u8>, Error> = rx.consume(&mut dev, 0, |bytes| Ok(bytes));
    // The processing function saw exactly the 300 bytes the controller
    // wrote, and its result is the operation's result, unchanged.
    assert_eq!(r.unwrap(), frame);
}

#[test]
fn receive_propagates_the_callback_result_verbatim() {
    let mut ctrl = ScriptedController::new();
    ctrl.queue_frame(pattern(10));
    ctrl.queue_frame(pattern(10));
    let mut dev = SmolEnc28j60::new(ctrl);
    let (rx, _tx) = dev.receive().unwrap();
    let r: Result<u64, Error> = rx.consume(&mut dev, 0, |_bytes| Ok(123456));
    assert_eq!(r, Ok(123456));
    let (rx, _tx) = dev.receive().unwrap();
    let r: Result<u64, Error> = rx.consume(&mut dev, 0, |_bytes| Err(Error::Exhausted));
    assert_eq!(r, Err(Error::Exhausted));
}

#[test]
fn receive_of_empty_frame_yields_no_bytes() {
    let mut ctrl = ScriptedController::new();
    ctrl.queue_frame(Vec::new());
    let mut dev = SmolEnc28j60::new(ctrl);
    let (rx, _tx) = dev.receive().unwrap();
    let r: Result<Vec<u8>, Error> = rx.consume(&mut dev, 0, |bytes| Ok(bytes));
    assert_eq!(r.unwrap(), Vec::<u8>::new());
}

#[test]
fn transmit_sends_the_filled_buffer() {
    let mut dev = SmolEnc28j60::new(ScriptedController::new());
    let tx = dev.transmit().unwrap();
    let r: Result<u8, Error> = tx.consume(&mut dev, 0, 4, |mut v| {
        v[0] = 0xde;
        v[1] = 0xad;
        v[2] = 0xbe;
        v[3] = 0xef;
        (v, Ok(0))
    });
    assert_eq!(r, Ok(0));
    let sent = &dev.controller_ref().sent;
    assert_eq!(sent.len(), 1);
    assert_eq!(sent[0].len(), BUFFER_SIZE);
    assert_eq!(&sent[0][..4], &[0xde, 0xad, 0xbe, 0xef]);
}

#[test]
fn transmit_flushes_even_when_the_filler_fails() {
    let mut dev = SmolEnc28j60::new(ScriptedController::new());
    let tx = dev.transmit().unwrap();
    let r: Result<u8, Error> = tx.consume(&mut dev, 0, 2, |mut v| {
        v[0] = 0xaa;
        v[1] = 0x55;
        (v, Err(Error::Illegal))
    });
    // The hardware send succeeded, so the filler's own error stands.
    assert_eq!(r, Err(Error::Illegal));
    // The buffer was still handed to the controller, bytes included.
    let sent = &dev.controller_ref().sent;
    assert_eq!(sent.len(), 1);
    assert_eq!(&sent[0][..2], &[0xaa, 0x55]);
    assert!(dev.try_claim());
}

#[test]
fn hardware_transmit_failure_supersedes_the_filler_result() {
    let mut dev = SmolEnc28j60::new(FaultyController);
    let tx = dev.transmit().unwrap();
    let r: Result<u8, Error> = tx.consume(&mut dev, 0, 2, |v| (v, Ok(7)));
    assert_eq!(r, Err(Error::Illegal));
    let r: Result<u8, Error> = tx_again(&mut dev);
    assert_eq!(r, Err(Error::Illegal));
}

fn tx_again(dev: &mut SmolEnc28j60<FaultyController>) -> Result<u8, Error> {
    let tx = dev.transmit().unwrap();
    tx.consume(dev, 0, 2, |v| (v, Err(Error::Exhausted)))
}

#[test]
fn scripted_controller_delivers_last_queued_first() {
    let mut ctrl = ScriptedController::new();
    ctrl.queue_frame(vec![1, 2, 3]);
    ctrl.queue_frame(vec![9]);
    let mut dev = SmolEnc28j60::new(ctrl);
    let (rx, _tx) = dev.receive().unwrap();
    let r: Result<Vec<u8>, Error> = rx.consume(&mut dev, 0, |bytes| Ok(bytes));
    assert_eq!(r.unwrap(), vec![9]);
    let (rx, _tx) = dev.receive().unwrap();
    let r: Result<Vec<u8>, Error> = rx.consume(&mut dev, 0, |bytes| Ok(bytes));
    assert_eq!(r.unwrap(), vec![1, 2, 3]);
}

#[test]
fn finish_receive_turns_a_driver_error_into_illegal() {
    let buffer = vec![0u8; 8];
    let r: Result<u8, Error> = finish_receive(&buffer, Err(DriverError), |_bytes| Ok(1));
    assert_eq!(r, Err(Error::Illegal));
}

#[test]
fn finish_receive_hands_over_exactly_the_filled_prefix() {
    let buffer = vec![5u8, 6, 7, 8];
    let r: Result<Vec<u8>, Error> = finish_receive(&buffer, Ok(2), |bytes| Ok(bytes));
    assert_eq!(r.unwrap(), vec![5, 6]);
}

#[test]
fn transmit_outcome_prefers_the_hardware_error() {
    assert_eq!(transmit_outcome::<u8>(Ok(3), Err(DriverError)), Err(Error::Illegal));
    assert_eq!(transmit_outcome::<u8>(Err(Error::Exhausted), Ok(())), Err(Error::Exhausted));
    assert_eq!(transmit_outcome::<u8>(Ok(3), Ok(())), Ok(3));
}

#[test]
fn scripted_controller_fails_receive_when_nothing_is_queued() {
    let mut dev = SmolEnc28j60::new(ScriptedController::new());
    let (rx, _tx) = dev.receive().unwrap();
    let r: Result<u8, Error> = rx.consume(&mut dev, 0, |_bytes| Ok(1));
    assert_eq!(r, Err(Error::Illegal));
}
