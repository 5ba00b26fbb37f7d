use twis_dma::buffer::{DmaBuffer, BUFFER_LEN};
use twis_dma::handlers::init;
use twis_dma::model::{Direction, Phase};
use twis_dma::shared::Shared;
use twis_dma::transfer::{Responder, TwisTransfer};

#[test]
fn buffer_has_eight_bytes() {
    assert_eq!(BUFFER_LEN, 8);
    assert_eq!(DmaBuffer::new().bytes().len(), 8);
}

#[test]
fn new_buffer_is_zeroed() {
    assert_eq!(DmaBuffer::new().bytes(), [0u8; 8]);
}

#[test]
fn clear_zeroes_every_byte() {
    let mut buf = DmaBuffer::from_bytes([0xFF, 1, 2, 3, 4, 5, 6, 0xFF]);
    assert_eq!(buf.bytes(), [0xFF, 1, 2, 3, 4, 5, 6, 0xFF]);
    buf.clear();
    assert_eq!(buf.bytes(), [0u8; 8]);
}

#[test]
fn store_replaces_the_contents() {
    let mut buf = DmaBuffer::new();
    buf.store(&[8, 7, 6, 5, 4, 3, 2, 1]);
    assert_eq!(buf.bytes(), [8, 7, 6, 5, 4, 3, 2, 1]);
}

#[test]
fn remove_leaves_the_slot_empty() {
    let (mut shared, _tasks) = init();
    assert!(shared.is_occupied());
    let state = shared.remove();
    assert!(!shared.is_occupied());
    assert_eq!(shared.phase(), None);
    assert_eq!(shared.buffer(), None);
    assert_eq!(shared.outgoing(), None);
    assert!(!shared.deliver(&[1; 8]));
    assert!(!shared.is_occupied());
    assert_eq!(state.phase(), Phase::Idle);
}

#[test]
fn install_fills_an_empty_slot() {
    let (mut shared, _tasks) = init();
    let state = shared.remove();
    assert!(shared.install(state).is_none());
    assert!(shared.is_occupied());
    assert_eq!(shared.phase(), Some(Phase::Idle));
}

#[test]
fn install_hands_out_what_it_displaces() {
    let (mut shared, _tasks) = init();
    let other = TwisTransfer::Idle((DmaBuffer::from_bytes([4; 8]), Responder::new(0x30)));
    let displaced = shared.install(other).expect("the slot was occupied");
    assert_eq!(displaced.phase(), Phase::Idle);
    let (buf, twis) = displaced.resolve();
    assert_eq!(buf.bytes(), [0u8; 8]);
    assert_eq!(twis.address(), 0x1A);
    assert_eq!(shared.buffer(), Some([4; 8]));
}

#[test]
fn wait_returns_the_pair_that_started_the_transfer() {
    let twis = Responder::new(0x2B);
    let tx = twis.tx(DmaBuffer::from_bytes([1, 1, 2, 3, 5, 8, 13, 21]));
    assert_eq!(tx.direction(), Direction::Transmit);
    assert_eq!(tx.outgoing(), Some([1, 1, 2, 3, 5, 8, 13, 21]));
    let (buf, twis) = tx.wait();
    assert_eq!(buf.bytes(), [1, 1, 2, 3, 5, 8, 13, 21]);
    assert_eq!(twis.address(), 0x2B);

    let mut rx = twis.rx(buf);
    assert_eq!(rx.direction(), Direction::Receive);
    assert_eq!(rx.outgoing(), None);
    assert!(rx.deliver(&[9; 8]));
    let (buf, twis) = rx.wait();
    assert_eq!(buf.bytes(), [9; 8]);
    assert_eq!(twis.address(), 0x2B);
}

#[test]
fn resolve_takes_the_pair_from_either_record() {
    let idle = TwisTransfer::Idle((DmaBuffer::from_bytes([6; 8]), Responder::new(0x11)));
    assert_eq!(idle.phase(), Phase::Idle);
    let (buf, twis) = idle.resolve();
    assert_eq!((buf.bytes(), twis.address()), ([6; 8], 0x11));

    let running = TwisTransfer::Running(twis.rx(buf));
    assert_eq!(running.phase(), Phase::Running(Direction::Receive));
    let (buf, twis) = running.resolve();
    assert_eq!((buf.bytes(), twis.address()), ([6; 8], 0x11));
}

#[test]
fn slot_built_around_a_running_transfer() {
    let tx = Responder::new(0x1A).tx(DmaBuffer::from_bytes([2; 8]));
    let shared = Shared::new(TwisTransfer::Running(tx));
    assert_eq!(shared.phase(), Some(Phase::Running(Direction::Transmit)));
    assert_eq!(shared.outgoing(), Some([2; 8]));
    assert_eq!(shared.buffer(), None);
}
