//! The controller task: what the controller-mode interface is told to do
//! after a reset.

use vstd::prelude::*;
use crate::buffer::BUFFER_LEN;
use crate::transfer::RESPONDER_ADDRESS;

verus! {

/// The bytes that the controller task writes to the responder.
pub open spec fn payload() -> Seq<u8> {
    seq![1u8, 2u8, 3u8, 4u8, 5u8, 6u8, 7u8, 8u8]
}

/// One blocking operation of the controller-mode interface.
#[derive(Clone, Copy, Debug, PartialEq, Eq)]
pub enum TwimCommand {
    /// Read `len` bytes from the device at `address`.
    Read { address: u8, len: usize },
    /// Write `payload` to the device at `address`.
    Write { address: u8, payload: [u8; 8] },
}

/// Whether `commands` is the task's program: read a buffer's worth from the
/// responder, then write the fixed payload to it.
pub open spec fn is_task_program(commands: Seq<TwimCommand>) -> bool {
    &&& commands.len() == 2
    &&& commands[0] == (TwimCommand::Read { address: RESPONDER_ADDRESS, len: BUFFER_LEN })
    &&& commands[1] matches TwimCommand::Write { address, payload: bytes }
    &&& address == RESPONDER_ADDRESS
    &&& bytes@ == payload()
}

/// The operations of one run of the controller task, in the order in which
/// they are issued.
///
/// The program is fixed before the first operation starts: what the read
/// brings back, or whether it fails, has no bearing on the write.
pub fn send_twi_cmds() -> (commands: [TwimCommand; 2])
    ensures
        is_task_program(commands@),
{
    let tx_buf: [u8; 8] = [1, 2, 3, 4, 5, 6, 7, 8];
    let commands = [
        TwimCommand::Read { address: RESPONDER_ADDRESS, len: BUFFER_LEN },
        TwimCommand::Write { address: RESPONDER_ADDRESS, payload: tx_buf },
    ];
    assert(tx_buf@ =~= payload());
    commands
}

} // verus!
