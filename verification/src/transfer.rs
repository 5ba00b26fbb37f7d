//! The records that can hold the buffer: the idle pair and the transfer in
//! flight.

use vstd::prelude::*;
use crate::buffer::DmaBuffer;
use crate::model::{received, transmitted, Direction, Phase, TransferView};

verus! {

/// The bus address on which the responder listens.
pub const RESPONDER_ADDRESS: u8 = 0x1A;

/// The responder-mode bus interface, configured for one bus address.
///
/// Like the buffer it is neither `Clone` nor `Copy`: starting a transfer
/// consumes it, and only awaiting that transfer gives it back.
#[derive(Debug)]
pub struct Responder {
    address: u8,
}

impl Responder {
    /// The bus address that the device answers to.
    pub closed spec fn spec_address(&self) -> u8 {
        self.address
    }

    /// A device that listens on `address`.
    pub fn new(address: u8) -> (device: Self)
        ensures
            device.spec_address() == address,
    {
        Responder { address }
    }

    /// The bus address that the device answers to.
    #[verifier::when_used_as_spec(spec_address)]
    pub fn address(&self) -> (address: u8)
        ensures
            address == self.spec_address(),
    {
        self.address
    }

    /// Starts a transmit that sources `buffer`, giving both up to the
    /// transfer.
    pub fn tx(self, buffer: DmaBuffer) -> (transfer: PendingTransfer)
        ensures
            transfer@ == (TransferView {
                phase: Phase::Running(Direction::Transmit),
                buffer: buffer@,
                address: self.spec_address(),
            }),
    {
        PendingTransfer { buffer, device: self, direction: Direction::Transmit }
    }

    /// Starts a receive that fills `buffer`, giving both up to the transfer.
    pub fn rx(self, buffer: DmaBuffer) -> (transfer: PendingTransfer)
        ensures
            transfer@ == (TransferView {
                phase: Phase::Running(Direction::Receive),
                buffer: buffer@,
                address: self.spec_address(),
            }),
    {
        PendingTransfer { buffer, device: self, direction: Direction::Receive }
    }
}

/// A DMA transfer in flight. It owns the buffer and the device until it is
/// awaited.
#[derive(Debug)]
pub struct PendingTransfer {
    buffer: DmaBuffer,
    device: Responder,
    direction: Direction,
}

impl View for PendingTransfer {
    type V = TransferView;

    closed spec fn view(&self) -> TransferView {
        TransferView {
            phase: Phase::Running(self.direction),
            buffer: self.buffer@,
            address: self.device.spec_address(),
        }
    }
}

impl PendingTransfer {
    /// A transfer in flight is never idle, and its buffer has the fixed length.
    pub proof fn lemma_view(&self)
        ensures
            self@.phase is Running,
            self@.wf(),
    {
        self.buffer.lemma_len();
    }

    /// Which way the transfer moves bytes.
    pub fn direction(&self) -> (direction: Direction)
        ensures
            self@.phase == Phase::Running(direction),
    {
        self.direction
    }

    /// Ends the transfer and gives back the very buffer and device that
    /// started it.
    pub fn wait(self) -> (pair: (DmaBuffer, Responder))
        ensures
            pair.0@ == self@.buffer,
            pair.1.spec_address() == self@.address,
    {
        (self.buffer, self.device)
    }

    /// The DMA engine moves `data` in from the bus. Only a receive takes it;
    /// the result says whether this transfer did.
    pub fn deliver(&mut self, data: &[u8; 8]) -> (taken: bool)
        ensures
            final(self)@ == received(old(self)@, data@),
            taken == (old(self)@.phase == Phase::Running(Direction::Receive)),
    {
        match self.direction {
            Direction::Receive => {
                self.buffer.store(data);
                true
            },
            Direction::Transmit => false,
        }
    }

    /// The bytes that the DMA engine puts on the bus: the buffer's, if this
    /// is a transmit.
    pub fn outgoing(&self) -> (bytes: Option<[u8; 8]>)
        ensures
            match bytes {
                Some(b) => transmitted(self@) == Some(b@),
                None => transmitted(self@) is None,
            },
    {
        match self.direction {
            Direction::Transmit => Some(self.buffer.bytes()),
            Direction::Receive => None,
        }
    }
}

/// The state of the responder: exactly one of the two records holds the
/// buffer and the device.
#[derive(Debug)]
pub enum TwisTransfer {
    /// A transfer is in flight and holds both.
    Running(PendingTransfer),
    /// The device listens; the buffer is free to be handed to a transfer.
    Idle((DmaBuffer, Responder)),
}

impl View for TwisTransfer {
    type V = TransferView;

    open spec fn view(&self) -> TransferView {
        match self {
            TwisTransfer::Running(transfer) => transfer@,
            TwisTransfer::Idle(pair) => TransferView {
                phase: Phase::Idle,
                buffer: pair.0@,
                address: pair.1.spec_address(),
            },
        }
    }
}

impl TwisTransfer {
    /// The variant and the phase of the view say the same, and the buffer has
    /// the fixed length.
    pub proof fn lemma_view(&self)
        ensures
            self is Idle <==> self@.phase is Idle,
            self is Running <==> self@.phase is Running,
            self@.wf(),
    {
        match self {
            TwisTransfer::Running(transfer) => {
                transfer.lemma_view();
            },
            TwisTransfer::Idle(pair) => {
                pair.0.lemma_len();
            },
        }
    }

    /// Which record holds the pair.
    pub fn phase(&self) -> (phase: Phase)
        ensures
            phase == self@.phase,
    {
        match self {
            TwisTransfer::Running(transfer) => Phase::Running(transfer.direction()),
            TwisTransfer::Idle(_) => Phase::Idle,
        }
    }

    /// Takes the buffer and the device back from whichever record holds
    /// them, awaiting the transfer if one is in flight.
    pub fn resolve(self) -> (pair: (DmaBuffer, Responder))
        ensures
            pair.0@ == self@.buffer,
            pair.1.spec_address() == self@.address,
    {
        match self {
            TwisTransfer::Running(transfer) => transfer.wait(),
            TwisTransfer::Idle(pair) => pair,
        }
    }
}

} // verus!
