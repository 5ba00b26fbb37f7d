//! The shared DMA buffer.

use vstd::prelude::*;

verus! {

/// Number of bytes moved by one bus transaction.
pub const BUFFER_LEN: usize = 8;

/// What a buffer holds once it has been cleared.
pub open spec fn zeroed() -> Seq<u8> {
    Seq::new(BUFFER_LEN as nat, |i: int| 0u8)
}

/// The eight bytes that the responder exposes on the bus.
///
/// The type is neither `Clone` nor `Copy`: whoever holds the value is the
/// only party that can reach the bytes.
#[derive(Debug)]
pub struct DmaBuffer {
    bytes: [u8; 8],
}

impl View for DmaBuffer {
    type V = Seq<u8>;

    closed spec fn view(&self) -> Seq<u8> {
        self.bytes@
    }
}

impl DmaBuffer {
    /// A buffer of zeros, as it is at power-up.
    pub fn new() -> (buffer: Self)
        ensures
            buffer@ == zeroed(),
    {
        DmaBuffer { bytes: [0u8; 8] }
    }

    /// A buffer that holds `bytes`.
    pub fn from_bytes(bytes: [u8; 8]) -> (buffer: Self)
        ensures
            buffer@ == bytes@,
    {
        DmaBuffer { bytes }
    }

    /// A copy of the contents.
    pub fn bytes(&self) -> (bytes: [u8; 8])
        ensures
            bytes@ == self@,
    {
        self.bytes
    }

    /// Overwrites every byte with zero.
    pub fn clear(&mut self)
        ensures
            final(self)@ == zeroed(),
    {
        let mut i: usize = 0;
        while i < BUFFER_LEN
            invariant
                i <= BUFFER_LEN,
                forall|k: int| 0 <= k < i ==> self.bytes@[k] == 0u8,
            decreases BUFFER_LEN - i,
        {
            self.bytes[i] = 0;
            i = i + 1;
        }
    }

    /// Replaces the contents with `data`, as a completed receive does.
    pub fn store(&mut self, data: &[u8; 8])
        ensures
            final(self)@ == data@,
    {
        self.bytes = *data;
    }

    /// The length of every buffer.
    pub proof fn lemma_len(&self)
        ensures
            self@.len() == BUFFER_LEN,
    {
    }
}

} // verus!
