//! What a driver asks of the bus.
//!
//! The bus itself is not in this library. A driver names the transaction it
//! wants as a [`Command`]; whoever owns the wires carries it out, blocking until
//! the exchange is over, and hands back the bytes that were read or a
//! [`BusError`](crate::error::BusError). The driver then says what the answer
//! means.

use vstd::prelude::*;
use vstd::slice::slice_to_vec;

verus! {

/// The bus address of the MAX-M10S satellite receiver.
pub const MAX_M10S_ADDRESS: u8 = 0x42;

/// One transaction with the device at `address`: `opcode` is written, then
/// `response_len` bytes are read back. With nothing to read it is a plain
/// write, and with nothing to write either it only asks whether the device
/// acknowledges its address.
#[derive(Debug, PartialEq, Eq)]
pub struct Command {
    pub address: u8,
    pub opcode: Vec<u8>,
    pub response_len: usize,
}

impl Command {
    /// This command goes to `address`, writes exactly `opcode` and reads
    /// `response_len` bytes.
    pub open spec fn asks(&self, address: u8, opcode: Seq<u8>, response_len: nat) -> bool {
        &&& self.address == address
        &&& self.opcode@ == opcode
        &&& self.response_len == response_len
    }

    /// The command that writes `opcode` to `address` and reads `response_len`
    /// bytes back.
    pub fn new(address: u8, opcode: &[u8], response_len: usize) -> (command: Command)
        ensures
            command.asks(address, opcode@, response_len as nat),
    {
        Command { address, opcode: slice_to_vec(opcode), response_len }
    }

    /// Whether the command only writes. If not, it is a write followed by a
    /// read in one transaction.
    pub fn is_write(&self) -> (only_writes: bool)
        ensures
            only_writes <==> self.response_len == 0,
    {
        self.response_len == 0
    }
}

/// The unsigned number that two bytes spell when the high byte comes first.
pub open spec fn be16(high: u8, low: u8) -> int {
    high * 256 + low
}

/// Joins the two bytes of a register, high byte first.
pub fn big_endian_u16(high: u8, low: u8) -> (raw: u16)
    ensures
        raw == be16(high, low),
{
    let raw: u16 = ((high as u16) << 8) | (low as u16);
    assert(((high as u16) << 8) | (low as u16) == (high as u16) * 256 + (low as u16))
        by (bit_vector);
    raw
}

} // verus!
