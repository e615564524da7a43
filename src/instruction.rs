use vstd::prelude::*;

verus! {

/// Instruction codes of Protocol 2.0, carried at offset 7 of a frame.
#[derive(Clone, Copy, Debug, PartialEq, Eq, Structural)]
pub enum Instruction {
    Ping,
    Read,
    Write,
    RegWrite,
    Action,
    FactoryReset,
    Reboot,
    Clear,
    ControlTableBackup,
    Status,
    SyncRead,
    SyncWrite,
    FastSyncRead,
    BulkRead,
    BulkWrite,
    FastBulkRead,
    Unknown,
}

impl Instruction {
    /// The byte that encodes the instruction on the wire.
    pub open spec fn spec_byte(self) -> u8 {
        match self {
            Instruction::Ping => 0x01,
            Instruction::Read => 0x02,
            Instruction::Write => 0x03,
            Instruction::RegWrite => 0x04,
            Instruction::Action => 0x05,
            Instruction::FactoryReset => 0x06,
            Instruction::Reboot => 0x08,
            Instruction::Clear => 0x10,
            Instruction::ControlTableBackup => 0x20,
            Instruction::Status => 0x55,
            Instruction::SyncRead => 0x82,
            Instruction::SyncWrite => 0x83,
            Instruction::FastSyncRead => 0x8A,
            Instruction::BulkRead => 0x92,
            Instruction::BulkWrite => 0x93,
            Instruction::FastBulkRead => 0x9A,
            Instruction::Unknown => 0xFF,
        }
    }

    /// The byte that encodes the instruction on the wire.
    pub fn to_byte(&self) -> (r: u8)
        ensures
            r == self.spec_byte(),
    {
        match self {
            Instruction::Ping => 0x01,
            Instruction::Read => 0x02,
            Instruction::Write => 0x03,
            Instruction::RegWrite => 0x04,
            Instruction::Action => 0x05,
            Instruction::FactoryReset => 0x06,
            Instruction::Reboot => 0x08,
            Instruction::Clear => 0x10,
            Instruction::ControlTableBackup => 0x20,
            Instruction::Status => 0x55,
            Instruction::SyncRead => 0x82,
            Instruction::SyncWrite => 0x83,
            Instruction::FastSyncRead => 0x8A,
            Instruction::BulkRead => 0x92,
            Instruction::BulkWrite => 0x93,
            Instruction::FastBulkRead => 0x9A,
            Instruction::Unknown => 0xFF,
        }
    }
}

impl From<Instruction> for u8 {
    fn from(variant: Instruction) -> (r: u8)
        ensures
            r == variant.spec_byte(),
    {
        variant.to_byte()
    }
}

impl vstd::std_specs::convert::FromSpecImpl<Instruction> for u8 {
    open spec fn obeys_from_spec() -> bool {
        true
    }

    open spec fn from_spec(v: Instruction) -> u8 {
        v.spec_byte()
    }
}

} // verus!
