use vstd::prelude::*;

use crate::address::{Address, Address24Bits};
use crate::frame::{frame_contents, frame_new, frame_push, Frame};
use crate::opcode::{lemma_opcode_injective, CommandOpCode};

verus! {

/// A command of the flash instruction set, with the address it carries if any.
///
/// Whether a command carries an address is fixed by its variant. Every variant
/// has an opcode, so encoding a command cannot fail.
#[derive(Debug, Clone, Copy, PartialEq, Eq, Structural)]
pub enum Command {
    // Device identification.
    ReadDeviceID,
    ReadJEDECID,
    ReleasePowerdown,

    // Register access, reading and programming.
    ReadStatusRegister1,
    WriteEnable,
    WriteDisable,
    ReadData(Address24Bits),
    PageProgram(Address24Bits),
    WriteStatusRegister1,
    FastRead(Address24Bits),
    Powerdown,
    ChipErase,

    // Extended instructions.
    ReadUniqueID,
    ReadSFDPRegister(Address24Bits),
    ReadStatusRegister2,
    ReadStatusRegister3,
    ReadFlagStatusRegister,
    WriteStatusRegister2,
    WriteStatusRegister3,
    WriteEnableVolatile,
    EnableReset,
    Reset,

    // Dual and quad SPI reads.
    ReadDualOut(Address24Bits),
    ReadQuadOut(Address24Bits),
    ReadDualIO(Address24Bits),
    ReadQuadIO(Address24Bits),
}

/// Why an opcode byte and an address do not make a command.
#[derive(Debug, Clone, Copy, PartialEq, Eq, Structural)]
pub enum ParseError {
    /// No command has this opcode byte.
    UnknownOpcode,
    /// The command carries an address and none was given.
    MissingAddress,
    /// The command carries no address and one was given.
    UnexpectedAddress,
    /// The command carries a 24-bit address and a 32-bit one was given.
    AddressWidthMismatch,
}

impl Command {
    /// The operation this command performs.
    pub open spec fn spec_opcode(self) -> CommandOpCode {
        match self {
            Command::ReadDeviceID => CommandOpCode::ReadDeviceID,
            Command::ReadJEDECID => CommandOpCode::ReadJEDECID,
            Command::ReleasePowerdown => CommandOpCode::ReleasePowerdown,
            Command::ReadStatusRegister1 => CommandOpCode::ReadStatusRegister1,
            Command::WriteEnable => CommandOpCode::WriteEnable,
            Command::WriteDisable => CommandOpCode::WriteDisable,
            Command::ReadData(_) => CommandOpCode::ReadData,
            Command::PageProgram(_) => CommandOpCode::PageProgram,
            Command::WriteStatusRegister1 => CommandOpCode::WriteStatusRegister1,
            Command::FastRead(_) => CommandOpCode::FastRead,
            Command::Powerdown => CommandOpCode::Powerdown,
            Command::ChipErase => CommandOpCode::ChipErase,
            Command::ReadUniqueID => CommandOpCode::ReadUniqueID,
            Command::ReadSFDPRegister(_) => CommandOpCode::ReadSFDPRegister,
            Command::ReadStatusRegister2 => CommandOpCode::ReadStatusRegister2,
            Command::ReadStatusRegister3 => CommandOpCode::ReadStatusRegister3,
            Command::ReadFlagStatusRegister => CommandOpCode::ReadFlagStatusRegister,
            Command::WriteStatusRegister2 => CommandOpCode::WriteStatusRegister2,
            Command::WriteStatusRegister3 => CommandOpCode::WriteStatusRegister3,
            Command::WriteEnableVolatile => CommandOpCode::WriteEnableVolatile,
            Command::EnableReset => CommandOpCode::EnableReset,
            Command::Reset => CommandOpCode::Reset,
            Command::ReadDualOut(_) => CommandOpCode::ReadDualOut,
            Command::ReadQuadOut(_) => CommandOpCode::ReadQuadOut,
            Command::ReadDualIO(_) => CommandOpCode::ReadDualIO,
            Command::ReadQuadIO(_) => CommandOpCode::ReadQuadIO,
        }
    }

    /// The address carried by the command, if its kind carries one.
    pub open spec fn spec_address(self) -> Option<Address24Bits> {
        match self {
            Command::ReadData(a) => Some(a),
            Command::PageProgram(a) => Some(a),
            Command::FastRead(a) => Some(a),
            Command::ReadSFDPRegister(a) => Some(a),
            Command::ReadDualOut(a) => Some(a),
            Command::ReadQuadOut(a) => Some(a),
            Command::ReadDualIO(a) => Some(a),
            Command::ReadQuadIO(a) => Some(a),
            _ => None,
        }
    }

    /// The same kind of command at address `a` (unchanged if it carries none).
    pub open spec fn with_address(self, a: Address24Bits) -> Command {
        match self {
            Command::ReadData(_) => Command::ReadData(a),
            Command::PageProgram(_) => Command::PageProgram(a),
            Command::FastRead(_) => Command::FastRead(a),
            Command::ReadSFDPRegister(_) => Command::ReadSFDPRegister(a),
            Command::ReadDualOut(_) => Command::ReadDualOut(a),
            Command::ReadQuadOut(_) => Command::ReadQuadOut(a),
            Command::ReadDualIO(_) => Command::ReadDualIO(a),
            Command::ReadQuadIO(_) => Command::ReadQuadIO(a),
            _ => self,
        }
    }

    /// The bytes sent on the wire: the opcode, then the address if any.
    pub open spec fn frame(self) -> Seq<u8> {
        seq![self.spec_opcode().byte()] + match self.spec_address() {
            Some(a) => a.le_bytes(),
            None => Seq::<u8>::empty(),
        }
    }

    /// The frame length: 4 for a command that carries an address, else 1.
    pub open spec fn frame_len(self) -> nat {
        if self.spec_address() is Some {
            4
        } else {
            1
        }
    }

    /// What an opcode byte and an optional address decode to.
    pub open spec fn decode(op_code: u8, addr: Option<Address>) -> Result<Command, ParseError> {
        if exists|c: Command| #[trigger] c.spec_opcode().byte() == op_code {
            let c = choose|c: Command| #[trigger] c.spec_opcode().byte() == op_code;
            match (c.spec_address(), addr) {
                (None, None) => Ok(c),
                (None, Some(_)) => Err(ParseError::UnexpectedAddress),
                (Some(_), None) => Err(ParseError::MissingAddress),
                (Some(_), Some(Address::Bits24(a))) => Ok(c.with_address(a)),
                (Some(_), Some(Address::Bits32(_))) => Err(ParseError::AddressWidthMismatch),
            }
        } else {
            Err(ParseError::UnknownOpcode)
        }
    }

    /// The operation this command performs.
    pub fn opcode(&self) -> (r: CommandOpCode)
        ensures
            r == self.spec_opcode(),
    {
        match *self {
            Command::ReadDeviceID => CommandOpCode::ReadDeviceID,
            Command::ReadJEDECID => CommandOpCode::ReadJEDECID,
            Command::ReleasePowerdown => CommandOpCode::ReleasePowerdown,
            Command::ReadStatusRegister1 => CommandOpCode::ReadStatusRegister1,
            Command::WriteEnable => CommandOpCode::WriteEnable,
            Command::WriteDisable => CommandOpCode::WriteDisable,
            Command::ReadData(_) => CommandOpCode::ReadData,
            Command::PageProgram(_) => CommandOpCode::PageProgram,
            Command::WriteStatusRegister1 => CommandOpCode::WriteStatusRegister1,
            Command::FastRead(_) => CommandOpCode::FastRead,
            Command::Powerdown => CommandOpCode::Powerdown,
            Command::ChipErase => CommandOpCode::ChipErase,
            Command::ReadUniqueID => CommandOpCode::ReadUniqueID,
            Command::ReadSFDPRegister(_) => CommandOpCode::ReadSFDPRegister,
            Command::ReadStatusRegister2 => CommandOpCode::ReadStatusRegister2,
            Command::ReadStatusRegister3 => CommandOpCode::ReadStatusRegister3,
            Command::ReadFlagStatusRegister => CommandOpCode::ReadFlagStatusRegister,
            Command::WriteStatusRegister2 => CommandOpCode::WriteStatusRegister2,
            Command::WriteStatusRegister3 => CommandOpCode::WriteStatusRegister3,
            Command::WriteEnableVolatile => CommandOpCode::WriteEnableVolatile,
            Command::EnableReset => CommandOpCode::EnableReset,
            Command::Reset => CommandOpCode::Reset,
            Command::ReadDualOut(_) => CommandOpCode::ReadDualOut,
            Command::ReadQuadOut(_) => CommandOpCode::ReadQuadOut,
            Command::ReadDualIO(_) => CommandOpCode::ReadDualIO,
            Command::ReadQuadIO(_) => CommandOpCode::ReadQuadIO,
        }
    }

    /// The address carried by the command, if its kind carries one.
    pub fn address(&self) -> (r: Option<Address24Bits>)
        ensures
            r == self.spec_address(),
    {
        match *self {
            Command::ReadData(a) => Some(a),
            Command::PageProgram(a) => Some(a),
            Command::FastRead(a) => Some(a),
            Command::ReadSFDPRegister(a) => Some(a),
            Command::ReadDualOut(a) => Some(a),
            Command::ReadQuadOut(a) => Some(a),
            Command::ReadDualIO(a) => Some(a),
            Command::ReadQuadIO(a) => Some(a),
            _ => None,
        }
    }

    /// The command of operation `op` at address `a` (ignored where the
    /// command carries no address), if the operation has a command.
    fn of_opcode(op: CommandOpCode, a: Address24Bits) -> (r: Option<Command>)
        ensures
            match r {
                Some(c) => c.spec_opcode() == op && c == c.with_address(a),
                None => forall|c: Command| #[trigger] c.spec_opcode() != op,
            },
    {
        match op {
            CommandOpCode::ReadDeviceID => Some(Command::ReadDeviceID),
            CommandOpCode::ReadJEDECID => Some(Command::ReadJEDECID),
            CommandOpCode::ReleasePowerdown => Some(Command::ReleasePowerdown),
            CommandOpCode::ReadStatusRegister1 => Some(Command::ReadStatusRegister1),
            CommandOpCode::WriteEnable => Some(Command::WriteEnable),
            CommandOpCode::WriteDisable => Some(Command::WriteDisable),
            CommandOpCode::ReadData => Some(Command::ReadData(a)),
            CommandOpCode::PageProgram => Some(Command::PageProgram(a)),
            CommandOpCode::WriteStatusRegister1 => Some(Command::WriteStatusRegister1),
            CommandOpCode::FastRead => Some(Command::FastRead(a)),
            CommandOpCode::Powerdown => Some(Command::Powerdown),
            CommandOpCode::ChipErase => Some(Command::ChipErase),
            CommandOpCode::ReadUniqueID => Some(Command::ReadUniqueID),
            CommandOpCode::ReadSFDPRegister => Some(Command::ReadSFDPRegister(a)),
            CommandOpCode::ReadStatusRegister2 => Some(Command::ReadStatusRegister2),
            CommandOpCode::ReadStatusRegister3 => Some(Command::ReadStatusRegister3),
            CommandOpCode::ReadFlagStatusRegister => Some(Command::ReadFlagStatusRegister),
            CommandOpCode::WriteStatusRegister2 => Some(Command::WriteStatusRegister2),
            CommandOpCode::WriteStatusRegister3 => Some(Command::WriteStatusRegister3),
            CommandOpCode::WriteEnableVolatile => Some(Command::WriteEnableVolatile),
            CommandOpCode::EnableReset => Some(Command::EnableReset),
            CommandOpCode::Reset => Some(Command::Reset),
            CommandOpCode::ReadDualOut => Some(Command::ReadDualOut(a)),
            CommandOpCode::ReadQuadOut => Some(Command::ReadQuadOut(a)),
            CommandOpCode::ReadDualIO => Some(Command::ReadDualIO(a)),
            CommandOpCode::ReadQuadIO => Some(Command::ReadQuadIO(a)),
            _ => None,
        }
    }

    /// Encodes the command as its wire frame.
    pub fn to_array(&self) -> (r: Frame)
        ensures
            frame_contents(r) == self.frame(),
    {
        let mut f = frame_new();
        frame_push(&mut f, u8::from(self.opcode()));
        match self.address() {
            Some(a) => {
                let b = a.to_le_bytes();
                frame_push(&mut f, b[0]);
                frame_push(&mut f, b[1]);
                frame_push(&mut f, b[2]);
            },
            None => {},
        }
        assert(frame_contents(f) =~= self.frame());
        f
    }

    /// The length of the command's wire frame.
    pub fn len(&self) -> (r: usize)
        ensures
            r == self.frame_len(),
    {
        match self.address() {
            Some(_) => 4,
            None => 1,
        }
    }

    /// Decodes an opcode byte, with the address received after it if any,
    /// into a command.
    pub fn try_from_byte(op_code: u8, addr: Option<Address>) -> (r: Result<Command, ParseError>)
        ensures
            r == Command::decode(op_code, addr),
    {
        let op = match CommandOpCode::from_byte(op_code) {
            Some(op) => op,
            None => return Err(ParseError::UnknownOpcode),
        };
        let a = match addr {
            Some(Address::Bits24(a)) => a,
            _ => Address24Bits(0),
        };
        let c = match Command::of_opcode(op, a) {
            Some(c) => c,
            None => return Err(ParseError::UnknownOpcode),
        };
        proof {
            let chosen = choose|c: Command| #[trigger] c.spec_opcode().byte() == op_code;
            lemma_opcode_injective(chosen.spec_opcode(), op);
            lemma_same_opcode(chosen, c, a);
        }
        match (c.address(), addr) {
            (None, None) => Ok(c),
            (None, Some(_)) => Err(ParseError::UnexpectedAddress),
            (Some(_), None) => Err(ParseError::MissingAddress),
            (Some(_), Some(Address::Bits24(_))) => Ok(c),
            (Some(_), Some(Address::Bits32(_))) => Err(ParseError::AddressWidthMismatch),
        }
    }
}

/// Two commands of one operation have the same shape: both carry an address
/// or neither does, and at a given address they are the same command.
proof fn lemma_same_opcode(c1: Command, c2: Command, a: Address24Bits)
    requires
        c1.spec_opcode() == c2.spec_opcode(),
    ensures
        (c1.spec_address() is Some) == (c2.spec_address() is Some),
        c1.with_address(a) == c2.with_address(a),
        c1.spec_address() is None ==> c1 == c2,
{
}

/// Decoding the opcode byte of an address-carrying command's frame, with the
/// command's own address, gives the command back.
pub proof fn lemma_round_trip_with_address(c: Command)
    requires
        c.spec_address() is Some,
    ensures
        Command::decode(c.frame()[0], Some(Address::Bits24(c.spec_address()->0))) == Ok::<Command, ParseError>(c),
{
    let a = c.spec_address()->0;
    let op_code = c.frame()[0];
    assert(c.spec_opcode().byte() == op_code);
    let chosen = choose|x: Command| #[trigger] x.spec_opcode().byte() == op_code;
    lemma_opcode_injective(chosen.spec_opcode(), c.spec_opcode());
    lemma_same_opcode(chosen, c, a);
}

/// Decoding the opcode byte of a command that carries no address, with no
/// address, gives the command back.
pub proof fn lemma_round_trip_without_address(c: Command)
    requires
        c.spec_address() is None,
    ensures
        Command::decode(c.frame()[0], None) == Ok::<Command, ParseError>(c),
{
    let op_code = c.frame()[0];
    assert(c.spec_opcode().byte() == op_code);
    let chosen = choose|x: Command| #[trigger] x.spec_opcode().byte() == op_code;
    lemma_opcode_injective(chosen.spec_opcode(), c.spec_opcode());
    lemma_same_opcode(chosen, c, Address24Bits(0));
}

/// The frame length of a command is the length of its encoded frame.
pub proof fn lemma_len_is_frame_length(c: Command)
    ensures
        c.frame_len() == c.frame().len(),
{
}

} // verus!
