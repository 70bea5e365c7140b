use spi_flash::{Address, Address24Bits, Address32Bits, Command, CommandOpCode, ParseError};

const ALL_OPCODES: [CommandOpCode; 40] = [
    CommandOpCode::WriteEnable,
    CommandOpCode::WriteDisable,
    CommandOpCode::ReadData,
    CommandOpCode::PageProgram,
    CommandOpCode::ReadStatusRegister1,
    CommandOpCode::WriteStatusRegister1,
    CommandOpCode::ReadJEDECID,
    CommandOpCode::FastRead,
    CommandOpCode::Powerdown,
    CommandOpCode::ReleasePowerdown,
    CommandOpCode::ReadDeviceID,
    CommandOpCode::ChipErase,
    CommandOpCode::ReadUniqueID,
    CommandOpCode::ReadSFDPRegister,
    CommandOpCode::ReadStatusRegister2,
    CommandOpCode::ReadStatusRegister3,
    CommandOpCode::ReadFlagStatusRegister,
    CommandOpCode::WriteStatusRegister2,
    CommandOpCode::WriteStatusRegister3,
    CommandOpCode::WriteEnableVolatile,
    CommandOpCode::EnableReset,
    CommandOpCode::Reset,
    CommandOpCode::SoftwareReset,
    CommandOpCode::ProgramSuspend,
    CommandOpCode::ProgramResume,
    CommandOpCode::SectorErase,
    CommandOpCode::BlockErase1,
    CommandOpCode::BlockErase2,
    CommandOpCode::EraseSecurityRegisters,
    CommandOpCode::ProgramSecurityRegisters,
    CommandOpCode::ReadSecurityRegisters,
    CommandOpCode::IndividualBlockLock,
    CommandOpCode::IndividualBlockUnlock,
    CommandOpCode::ReadBlockLock,
    CommandOpCode::GlobalBlockLock,
    CommandOpCode::GlobalBlockUnlock,
    CommandOpCode::ReadDualOut,
    CommandOpCode::ReadDualIO,
    CommandOpCode::ReadQuadOut,
    CommandOpCode::ReadQuadIO,
];

fn no_payload_commands() -> Vec<Command> {
    vec![
        Command::ReadDeviceID,
        Command::ReadJEDECID,
        Command::ReleasePowerdown,
        Command::ReadStatusRegister1,
        Command::WriteEnable,
        Command::WriteDisable,
        Command::WriteStatusRegister1,
        Command::Powerdown,
        Command::ChipErase,
        Command::ReadUniqueID,
        Command::ReadStatusRegister2,
        Command::ReadStatusRegister3,
        Command::ReadFlagStatusRegister,
        Command::WriteStatusRegister2,
        Command::WriteStatusRegister3,
        Command::WriteEnableVolatile,
        Command::EnableReset,
        Command::Reset,
    ]
}

fn address_commands(a: Address24Bits) -> Vec<Command> {
    vec![
        Command::ReadData(a),
        Command::PageProgram(a),
        Command::FastRead(a),
        Command::ReadSFDPRegister(a),
        Command::ReadDualOut(a),
        Command::ReadQuadOut(a),
        Command::ReadDualIO(a),
        Command::ReadQuadIO(a),
    ]
}

#[test]
fn serialize_read_jedec_id() {
    let f = Command::ReadJEDECID.to_array();
    assert_eq!(f.as_slice(), &[0x9F]);
    assert_eq!(Command::ReadJEDECID.len(), 1);
}

#[test]
fn serialize_read_data() {
    let c = Command::ReadData(Address24Bits(0x000100));
    assert_eq!(c.to_array().as_slice(), &[0x03, 0x00, 0x01, 0x00]);
    assert_eq!(c.len(), 4);
}

#[test]
fn serialize_page_program() {
    let c = Command::PageProgram(Address24Bits(0xABCDEF));
    assert_eq!(c.to_array().as_slice(), &[0x02, 0xEF, 0xCD, 0xAB]);
}

#[test]
fn serialize_ignores_high_address_byte() {
    let c = Command::FastRead(Address24Bits(0x7F12_3456));
    assert_eq!(c.to_array().as_slice(), &[0x0B, 0x56, 0x34, 0x12]);
}

#[test]
fn deserialize_read_jedec_id() {
    assert_eq!(Command::try_from_byte(0x9F, None), Ok(Command::ReadJEDECID));
}

#[test]
fn deserialize_missing_address() {
    assert_eq!(Command::try_from_byte(0x03, None), Err(ParseError::MissingAddress));
}

#[test]
fn deserialize_unknown_opcode() {
    assert_eq!(Command::try_from_byte(0xFF, None), Err(ParseError::UnknownOpcode));
}

#[test]
fn deserialize_opcode_without_command_is_unknown() {
    // SectorErase has an opcode but no command.
    assert_eq!(Command::try_from_byte(0x20, None), Err(ParseError::UnknownOpcode));
}

#[test]
fn deserialize_unexpected_address() {
    let a = Some(Address::Bits24(Address24Bits(0x10)));
    assert_eq!(Command::try_from_byte(0x9F, a), Err(ParseError::UnexpectedAddress));
    let a = Some(Address::Bits32(Address32Bits(0x10)));
    assert_eq!(Command::try_from_byte(0x06, a), Err(ParseError::UnexpectedAddress));
}

#[test]
fn deserialize_address_width_mismatch() {
    let a = Some(Address::Bits32(Address32Bits(0x100)));
    assert_eq!(Command::try_from_byte(0x03, a), Err(ParseError::AddressWidthMismatch));
}

#[test]
fn deserialize_read_data() {
    let a = Address24Bits(0x123456);
    assert_eq!(
        Command::try_from_byte(0x03, Some(Address::Bits24(a))),
        Ok(Command::ReadData(a))
    );
}

#[test]
fn encode24_high_byte_ignored() {
    for v in [0u32, 1, 0x0001_0203, 0x00AB_CDEF, 0x00FF_FFFF, 0x1234_5678, u32::MAX] {
        assert_eq!(
            Address24Bits(v).to_le_bytes(),
            Address24Bits(v | 0xFF00_0000).to_le_bytes()
        );
    }
}

#[test]
fn encode24_little_endian() {
    assert_eq!(Address24Bits(0x010203).to_le_bytes(), [0x03, 0x02, 0x01]);
    assert_eq!(Address24Bits(0).to_le_bytes(), [0, 0, 0]);
    assert_eq!(Address24Bits(0xFFFF_FFFF).to_le_bytes(), [0xFF, 0xFF, 0xFF]);
}

#[test]
fn round_trip_address_commands() {
    for v in [0u32, 0x000100, 0xABCDEF, 0xFFFFFF] {
        let a = Address24Bits(v);
        for c in address_commands(a) {
            let f = c.to_array();
            assert_eq!(Command::try_from_byte(f[0], Some(Address::Bits24(a))), Ok(c));
        }
    }
}

#[test]
fn round_trip_no_payload_commands() {
    for c in no_payload_commands() {
        let f = c.to_array();
        assert_eq!(Command::try_from_byte(f[0], None), Ok(c));
    }
}

#[test]
fn len_matches_frame() {
    let mut all = no_payload_commands();
    all.extend(address_commands(Address24Bits(0x00_1234)));
    for c in all {
        assert_eq!(c.len(), c.to_array().len());
    }
}

#[test]
fn opcode_bytes_are_distinct() {
    for (i, a) in ALL_OPCODES.iter().enumerate() {
        for b in &ALL_OPCODES[i + 1..] {
            assert_ne!(u8::from(*a), u8::from(*b));
        }
    }
}

#[test]
fn opcode_from_byte_inverts_to_byte() {
    for op in ALL_OPCODES {
        assert_eq!(CommandOpCode::from_byte(op.to_byte()), Some(op));
    }
    let known = (0u16..=255)
        .filter(|b| CommandOpCode::from_byte(*b as u8).is_some())
        .count();
    assert_eq!(known, ALL_OPCODES.len());
}

#[test]
fn opcode_values() {
    assert_eq!(u8::from(CommandOpCode::ReadData), 0x03);
    assert_eq!(u8::from(CommandOpCode::ReadJEDECID), 0x9F);
    assert_eq!(u8::from(CommandOpCode::ReadQuadIO), 0xEB);
    assert_eq!(CommandOpCode::from_byte(0x5A), Some(CommandOpCode::ReadSFDPRegister));
    assert_eq!(CommandOpCode::from_byte(0x00), None);
}

#[test]
fn command_opcode_and_address() {
    let a = Address24Bits(0x42);
    assert_eq!(Command::ReadSFDPRegister(a).opcode(), CommandOpCode::ReadSFDPRegister);
    assert_eq!(Command::ReadSFDPRegister(a).address(), Some(a));
    assert_eq!(Command::Reset.opcode(), CommandOpCode::Reset);
    assert_eq!(Command::Reset.address(), None);
}

#[test]
fn address32_deref() {
    let a = Address32Bits(0xDEAD_BEEF);
    assert_eq!(*a, 0xDEAD_BEEF);
}
