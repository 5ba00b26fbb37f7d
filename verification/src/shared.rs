//! The slot through which the handlers pass the transfer state to one
//! another.

use vstd::prelude::*;
use crate::model::{received, transmitted, Direction, Phase, TransferView};
use crate::transfer::TwisTransfer;

verus! {

/// The one place where the transfer state rests between handlers.
///
/// A handler removes the state, works on it, and installs the successor
/// before it returns. The slot is empty only in between.
#[derive(Debug)]
pub struct Shared {
    transfer: Option<TwisTransfer>,
}

impl View for Shared {
    type V = Option<TransferView>;

    closed spec fn view(&self) -> Option<TransferView> {
        match self.transfer {
            Some(transfer) => Some(transfer@),
            None => None,
        }
    }
}

impl Shared {
    /// Whether the slot holds a state.
    pub open spec fn occupied(&self) -> bool {
        self@ is Some
    }

    /// A state in the slot has a buffer of the fixed length.
    pub proof fn lemma_wf(&self)
        ensures
            self@ matches Some(v) ==> v.wf(),
    {
        match self.transfer {
            Some(transfer) => {
                transfer.lemma_view();
            },
            None => {},
        }
    }

    /// A slot that holds `transfer`.
    pub fn new(transfer: TwisTransfer) -> (shared: Self)
        ensures
            shared@ == Some(transfer@),
    {
        Shared { transfer: Some(transfer) }
    }

    /// Whether the slot holds a state.
    #[verifier::when_used_as_spec(occupied)]
    pub fn is_occupied(&self) -> (b: bool)
        ensures
            b == self.occupied(),
    {
        self.transfer.is_some()
    }

    /// Takes the state out and leaves the slot empty.
    pub fn remove(&mut self) -> (transfer: TwisTransfer)
        requires
            old(self).occupied(),
        ensures
            old(self)@ == Some(transfer@),
            final(self)@ is None,
    {
        let taken = self.transfer.take();
        taken.unwrap()
    }

    /// Puts `transfer` into the slot and hands out what the slot held before,
    /// if it held anything.
    pub fn install(&mut self, transfer: TwisTransfer) -> (displaced: Option<TwisTransfer>)
        ensures
            final(self)@ == Some(transfer@),
            match displaced {
                Some(d) => old(self)@ == Some(d@),
                None => old(self)@ is None,
            },
    {
        let displaced = self.transfer.take();
        self.transfer = Some(transfer);
        displaced
    }

    /// Which record holds the buffer, if the slot is occupied.
    pub fn phase(&self) -> (phase: Option<Phase>)
        ensures
            match phase {
                Some(p) => self@ matches Some(v) && v.phase == p,
                None => self@ is None,
            },
    {
        match &self.transfer {
            Some(transfer) => Some(transfer.phase()),
            None => None,
        }
    }

    /// The buffer's bytes as software can read them: only while the idle
    /// record holds the buffer.
    pub fn buffer(&self) -> (bytes: Option<[u8; 8]>)
        ensures
            match bytes {
                Some(b) => self@ matches Some(v) && v.phase is Idle && v.buffer == b@,
                None => !(self@ matches Some(v) && v.phase is Idle),
            },
    {
        match &self.transfer {
            Some(TwisTransfer::Idle(pair)) => Some(pair.0.bytes()),
            Some(TwisTransfer::Running(transfer)) => {
                proof {
                    transfer.lemma_view();
                }
                None
            },
            None => None,
        }
    }

    /// The DMA engine moves `data` in from the bus. Only a receive in flight
    /// takes it; the result says whether one did.
    pub fn deliver(&mut self, data: &[u8; 8]) -> (taken: bool)
        ensures
            match old(self)@ {
                Some(v) => final(self)@ == Some(received(v, data@))
                    && taken == (v.phase == Phase::Running(Direction::Receive)),
                None => final(self)@ is None && !taken,
            },
    {
        match self.transfer.take() {
            Some(TwisTransfer::Running(mut transfer)) => {
                let taken = transfer.deliver(data);
                self.transfer = Some(TwisTransfer::Running(transfer));
                taken
            },
            Some(TwisTransfer::Idle(pair)) => {
                self.transfer = Some(TwisTransfer::Idle(pair));
                false
            },
            None => false,
        }
    }

    /// The bytes that the DMA engine puts on the bus: the buffer's while a
    /// transmit is in flight, none at any other time.
    pub fn outgoing(&self) -> (bytes: Option<[u8; 8]>)
        ensures
            match bytes {
                Some(b) => self@ matches Some(v) && transmitted(v) == Some(b@),
                None => !(self@ matches Some(v) && transmitted(v) is Some),
            },
    {
        match &self.transfer {
            Some(TwisTransfer::Running(transfer)) => transfer.outgoing(),
            Some(TwisTransfer::Idle(_)) => None,
            None => None,
        }
    }
}

} // verus!
