//! Host-side driver for Dynamixel Protocol 2.0 servos: framing, CRC, a
//! timeout-bounded receive state machine and the command set, over a
//! byte-oriented serial transport and a clock that the user supplies.
pub mod buffer;
pub mod control_data;
pub mod control_table;
pub mod crc;
pub mod frame;
pub mod instruction;
pub mod packet_handler;

pub use control_data::OperatingMode;
pub use control_table::ControlTable;
pub use control_table::DynamixelModel;
pub use instruction::Instruction;
pub use packet_handler::CommunicationResult;
pub use packet_handler::DynamixelControl;

use vstd::prelude::*;

verus! {

/// Half-duplex serial transport to the servos.
pub trait Interface {
    /// Sends one byte.
    fn write_byte(&mut self, data: u8);

    /// Sends the bytes in order, as repeated `write_byte` would.
    fn write_bytes(&mut self, data: &[u8]);

    /// The next received byte, or `None` when none is buffered; never blocks.
    fn read_byte(&mut self) -> Option<u8>;

    /// Fills `buf` with as many buffered bytes as there are room for.
    fn read_bytes(&mut self, buf: &mut [u8]) -> Option<usize>;

    /// Drops every received byte still buffered.
    fn clear_read_buf(&mut self);
}

/// Monotonic time source.
pub trait Clock {
    /// Time elapsed since an arbitrary fixed origin.
    fn get_current_time(&self) -> core::time::Duration;
}

} // verus!
