use vstd::prelude::*;

verus! {

/// Standard SPI flash command opcodes.
///
/// These are taken from the Winbond W25Q16JV and Spansion S25FL128S datasheets, but most are
/// widely applicable. If SFDP is supported, it is used to discover
/// the relevant erase opcodes and sizes.
#[derive(Copy, Clone, Debug, PartialEq, Eq, Structural)]
pub enum CommandOpCode {
    // Core instruction set: almost universally available.
    WriteEnable,
    WriteDisable,
    ReadData,
    PageProgram,
    ReadStatusRegister1,
    WriteStatusRegister1,

    // Standard instruction set: typically available.
    ReadJEDECID,
    FastRead,
    Powerdown,
    /// This is also the Read Electronic Signature command.
    ReleasePowerdown,
    ReadDeviceID,
    ChipErase,

    // Extended instruction set: may be available.
    ReadUniqueID,
    ReadSFDPRegister,
    ReadStatusRegister2,
    ReadStatusRegister3,
    ReadFlagStatusRegister,
    WriteStatusRegister2,
    WriteStatusRegister3,
    WriteEnableVolatile,
    EnableReset,
    Reset,
    SoftwareReset,
    ProgramSuspend,
    ProgramResume,

    // Erase instructions. The size affected by each erase operation can vary: typically 4kB for sector erase, 32kB for block erase 1 and 64kB for block erase 2.
    SectorErase,
    BlockErase1,
    BlockErase2,

    // Security and lock instructions.
    EraseSecurityRegisters,
    ProgramSecurityRegisters,
    ReadSecurityRegisters,
    IndividualBlockLock,
    IndividualBlockUnlock,
    ReadBlockLock,
    GlobalBlockLock,
    GlobalBlockUnlock,

    // Dual SPI reads.
    ReadDualOut,
    ReadDualIO,

    // Quad SPI reads.
    ReadQuadOut,
    ReadQuadIO,
}

impl CommandOpCode {
    /// The byte that stands for this operation on the wire.
    pub open spec fn byte(self) -> u8 {
        match self {
            CommandOpCode::WriteEnable => 0x06,
            CommandOpCode::WriteDisable => 0x04,
            CommandOpCode::ReadData => 0x03,
            CommandOpCode::PageProgram => 0x02,
            CommandOpCode::ReadStatusRegister1 => 0x05,
            CommandOpCode::WriteStatusRegister1 => 0x01,
            CommandOpCode::ReadJEDECID => 0x9F,
            CommandOpCode::FastRead => 0x0B,
            CommandOpCode::Powerdown => 0xB9,
            CommandOpCode::ReleasePowerdown => 0xAB,
            CommandOpCode::ReadDeviceID => 0x90,
            CommandOpCode::ChipErase => 0xC7,
            CommandOpCode::ReadUniqueID => 0x4B,
            CommandOpCode::ReadSFDPRegister => 0x5A,
            CommandOpCode::ReadStatusRegister2 => 0x35,
            CommandOpCode::ReadStatusRegister3 => 0x15,
            CommandOpCode::ReadFlagStatusRegister => 0x70,
            CommandOpCode::WriteStatusRegister2 => 0x31,
            CommandOpCode::WriteStatusRegister3 => 0x11,
            CommandOpCode::WriteEnableVolatile => 0x50,
            CommandOpCode::EnableReset => 0x66,
            CommandOpCode::Reset => 0x99,
            CommandOpCode::SoftwareReset => 0xF0,
            CommandOpCode::ProgramSuspend => 0x75,
            CommandOpCode::ProgramResume => 0x7A,
            CommandOpCode::SectorErase => 0x20,
            CommandOpCode::BlockErase1 => 0x52,
            CommandOpCode::BlockErase2 => 0xD8,
            CommandOpCode::EraseSecurityRegisters => 0x44,
            CommandOpCode::ProgramSecurityRegisters => 0x42,
            CommandOpCode::ReadSecurityRegisters => 0x48,
            CommandOpCode::IndividualBlockLock => 0x36,
            CommandOpCode::IndividualBlockUnlock => 0x39,
            CommandOpCode::ReadBlockLock => 0x3D,
            CommandOpCode::GlobalBlockLock => 0x7E,
            CommandOpCode::GlobalBlockUnlock => 0x98,
            CommandOpCode::ReadDualOut => 0x3B,
            CommandOpCode::ReadDualIO => 0xBB,
            CommandOpCode::ReadQuadOut => 0x6B,
            CommandOpCode::ReadQuadIO => 0xEB,
        }
    }

    /// The byte that stands for this operation on the wire.
    pub fn to_byte(self) -> (r: u8)
        ensures
            r == self.byte(),
    {
        match self {
            CommandOpCode::WriteEnable => 0x06,
            CommandOpCode::WriteDisable => 0x04,
            CommandOpCode::ReadData => 0x03,
            CommandOpCode::PageProgram => 0x02,
            CommandOpCode::ReadStatusRegister1 => 0x05,
            CommandOpCode::WriteStatusRegister1 => 0x01,
            CommandOpCode::ReadJEDECID => 0x9F,
            CommandOpCode::FastRead => 0x0B,
            CommandOpCode::Powerdown => 0xB9,
            CommandOpCode::ReleasePowerdown => 0xAB,
            CommandOpCode::ReadDeviceID => 0x90,
            CommandOpCode::ChipErase => 0xC7,
            CommandOpCode::ReadUniqueID => 0x4B,
            CommandOpCode::ReadSFDPRegister => 0x5A,
            CommandOpCode::ReadStatusRegister2 => 0x35,
            CommandOpCode::ReadStatusRegister3 => 0x15,
            CommandOpCode::ReadFlagStatusRegister => 0x70,
            CommandOpCode::WriteStatusRegister2 => 0x31,
            CommandOpCode::WriteStatusRegister3 => 0x11,
            CommandOpCode::WriteEnableVolatile => 0x50,
            CommandOpCode::EnableReset => 0x66,
            CommandOpCode::Reset => 0x99,
            CommandOpCode::SoftwareReset => 0xF0,
            CommandOpCode::ProgramSuspend => 0x75,
            CommandOpCode::ProgramResume => 0x7A,
            CommandOpCode::SectorErase => 0x20,
            CommandOpCode::BlockErase1 => 0x52,
            CommandOpCode::BlockErase2 => 0xD8,
            CommandOpCode::EraseSecurityRegisters => 0x44,
            CommandOpCode::ProgramSecurityRegisters => 0x42,
            CommandOpCode::ReadSecurityRegisters => 0x48,
            CommandOpCode::IndividualBlockLock => 0x36,
            CommandOpCode::IndividualBlockUnlock => 0x39,
            CommandOpCode::ReadBlockLock => 0x3D,
            CommandOpCode::GlobalBlockLock => 0x7E,
            CommandOpCode::GlobalBlockUnlock => 0x98,
            CommandOpCode::ReadDualOut => 0x3B,
            CommandOpCode::ReadDualIO => 0xBB,
            CommandOpCode::ReadQuadOut => 0x6B,
            CommandOpCode::ReadQuadIO => 0xEB,
        }
    }

    /// The operation that a wire byte stands for, if any.
    pub fn from_byte(b: u8) -> (r: Option<CommandOpCode>)
        ensures
            match r {
                Some(op) => op.byte() == b,
                None => forall|op: CommandOpCode| #[trigger] op.byte() != b,
            },
    {
        match b {
            0x06 => Some(CommandOpCode::WriteEnable),
            0x04 => Some(CommandOpCode::WriteDisable),
            0x03 => Some(CommandOpCode::ReadData),
            0x02 => Some(CommandOpCode::PageProgram),
            0x05 => Some(CommandOpCode::ReadStatusRegister1),
            0x01 => Some(CommandOpCode::WriteStatusRegister1),
            0x9F => Some(CommandOpCode::ReadJEDECID),
            0x0B => Some(CommandOpCode::FastRead),
            0xB9 => Some(CommandOpCode::Powerdown),
            0xAB => Some(CommandOpCode::ReleasePowerdown),
            0x90 => Some(CommandOpCode::ReadDeviceID),
            0xC7 => Some(CommandOpCode::ChipErase),
            0x4B => Some(CommandOpCode::ReadUniqueID),
            0x5A => Some(CommandOpCode::ReadSFDPRegister),
            0x35 => Some(CommandOpCode::ReadStatusRegister2),
            0x15 => Some(CommandOpCode::ReadStatusRegister3),
            0x70 => Some(CommandOpCode::ReadFlagStatusRegister),
            0x31 => Some(CommandOpCode::WriteStatusRegister2),
            0x11 => Some(CommandOpCode::WriteStatusRegister3),
            0x50 => Some(CommandOpCode::WriteEnableVolatile),
            0x66 => Some(CommandOpCode::EnableReset),
            0x99 => Some(CommandOpCode::Reset),
            0xF0 => Some(CommandOpCode::SoftwareReset),
            0x75 => Some(CommandOpCode::ProgramSuspend),
            0x7A => Some(CommandOpCode::ProgramResume),
            0x20 => Some(CommandOpCode::SectorErase),
            0x52 => Some(CommandOpCode::BlockErase1),
            0xD8 => Some(CommandOpCode::BlockErase2),
            0x44 => Some(CommandOpCode::EraseSecurityRegisters),
            0x42 => Some(CommandOpCode::ProgramSecurityRegisters),
            0x48 => Some(CommandOpCode::ReadSecurityRegisters),
            0x36 => Some(CommandOpCode::IndividualBlockLock),
            0x39 => Some(CommandOpCode::IndividualBlockUnlock),
            0x3D => Some(CommandOpCode::ReadBlockLock),
            0x7E => Some(CommandOpCode::GlobalBlockLock),
            0x98 => Some(CommandOpCode::GlobalBlockUnlock),
            0x3B => Some(CommandOpCode::ReadDualOut),
            0xBB => Some(CommandOpCode::ReadDualIO),
            0x6B => Some(CommandOpCode::ReadQuadOut),
            0xEB => Some(CommandOpCode::ReadQuadIO),
            _ => None,
        }
    }
}

impl From<CommandOpCode> for u8 {
    fn from(op: CommandOpCode) -> (r: u8)
        ensures
            r == op.byte(),
    {
        op.to_byte()
    }
}

impl vstd::std_specs::convert::FromSpecImpl<CommandOpCode> for u8 {
    open spec fn obeys_from_spec() -> bool {
        true
    }

    open spec fn from_spec(op: CommandOpCode) -> u8 {
        op.byte()
    }
}

/// Distinct operations have distinct wire bytes.
pub proof fn lemma_opcode_injective(a: CommandOpCode, b: CommandOpCode)
    ensures
        a.byte() == b.byte() ==> a == b,
{
}

} // verus!
