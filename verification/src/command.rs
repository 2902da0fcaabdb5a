//! The command set: errors, baud rates, opcodes, request headers and
//! acknowledgement codes.
use crate::payload::Payload;
use crate::port::ReadExactError;
use vstd::prelude::*;

verus! {

/// Why an operation of an [`Interface`](crate::Interface) failed.
///
/// `E` is the error of the byte channel.
#[derive(PartialEq, Eq, Debug)]
pub enum Error<E> {
    /// An argument is outside what the protocol can express. Nothing was
    /// transmitted.
    InvalidArgument,
    /// A chunk arrived, here or at the appliance, with a checksum that does
    /// not match its bytes.
    IncorrectChecksum,
    /// The appliance rejected the command.
    InvalidCommand,
    /// The appliance answered with a byte that the protocol does not define.
    InvalidResponse,
    /// The channel ended in the middle of a reply.
    UnexpectedEof,
    /// The channel reported an error of its own.
    Io(E),
}

impl<E> Error<E> {
    /// The error that a failed read of the channel stands for.
    pub open spec fn of_read(err: ReadExactError<E>) -> Error<E> {
        match err {
            ReadExactError::UnexpectedEof => Error::UnexpectedEof,
            ReadExactError::Other(e) => Error::Io(e),
        }
    }

    /// Turns a failed read of the channel into the error that is reported.
    pub fn from_read(err: ReadExactError<E>) -> (r: Error<E>)
        ensures
            r == Self::of_read(err),
    {
        match err {
            ReadExactError::UnexpectedEof => Error::UnexpectedEof,
            ReadExactError::Other(e) => Error::Io(e),
        }
    }

    /// A short description of the error.
    pub fn to_string(&self) -> (r: String)
        ensures
            r@ == match *self {
                Error::InvalidArgument => "invalid argument"@,
                Error::IncorrectChecksum => "incorrect checksum"@,
                Error::InvalidCommand => "invalid command"@,
                Error::InvalidResponse => "invalid response"@,
                Error::UnexpectedEof => "unexpected end-of-file"@,
                Error::Io(_) => "input/output error"@,
            },
    {
        match self {
            Error::InvalidArgument => "invalid argument".to_string(),
            Error::IncorrectChecksum => "incorrect checksum".to_string(),
            Error::InvalidCommand => "invalid command".to_string(),
            Error::InvalidResponse => "invalid response".to_string(),
            Error::UnexpectedEof => "unexpected end-of-file".to_string(),
            Error::Io(_) => "input/output error".to_string(),
        }
    }
}

impl<E> vstd::std_specs::convert::FromSpecImpl<E> for Error<E> {
    open spec fn obeys_from_spec() -> bool {
        true
    }

    open spec fn from_spec(err: E) -> Error<E> {
        Error::Io(err)
    }
}

impl<E> From<E> for Error<E> {
    fn from(err: E) -> (r: Error<E>) {
        Error::Io(err)
    }
}

impl<E> vstd::std_specs::convert::FromSpecImpl<ReadExactError<E>> for Error<E> {
    open spec fn obeys_from_spec() -> bool {
        true
    }

    open spec fn from_spec(err: ReadExactError<E>) -> Error<E> {
        Error::of_read(err)
    }
}

impl<E> From<ReadExactError<E>> for Error<E> {
    fn from(err: ReadExactError<E>) -> (r: Error<E>) {
        Error::from_read(err)
    }
}

/// A baud rate of the diagnostic link.
#[derive(PartialEq, Eq, Structural, Copy, Clone, Debug)]
pub enum BaudRate {
    /// 2400 baud, the rate that every appliance starts with.
    Baud2400,
    /// 9600 baud.
    Baud9600,
    /// 19200 baud.
    Baud19200,
    /// 38400 baud.
    Baud38400,
    /// 57600 baud.
    Baud57600,
    /// 76800 baud.
    Baud76800,
    /// 115200 baud.
    Baud115200,
}

impl BaudRate {
    /// The index by which the protocol names this rate.
    pub open spec fn index(self) -> u8 {
        match self {
            BaudRate::Baud2400 => 0,
            BaudRate::Baud9600 => 1,
            BaudRate::Baud19200 => 2,
            BaudRate::Baud38400 => 3,
            BaudRate::Baud57600 => 4,
            BaudRate::Baud76800 => 5,
            BaudRate::Baud115200 => 6,
        }
    }

    /// The rate in bits per second.
    pub open spec fn baud(self) -> u32 {
        match self {
            BaudRate::Baud2400 => 2400,
            BaudRate::Baud9600 => 9600,
            BaudRate::Baud19200 => 19200,
            BaudRate::Baud38400 => 38400,
            BaudRate::Baud57600 => 57600,
            BaudRate::Baud76800 => 76800,
            BaudRate::Baud115200 => 115200,
        }
    }

    /// Returns the rate in bits per second.
    pub fn as_baud(self) -> (r: u32)
        ensures
            r == self.baud(),
    {
        match self {
            BaudRate::Baud2400 => 2400,
            BaudRate::Baud9600 => 9600,
            BaudRate::Baud19200 => 19200,
            BaudRate::Baud38400 => 38400,
            BaudRate::Baud57600 => 57600,
            BaudRate::Baud76800 => 76800,
            BaudRate::Baud115200 => 115200,
        }
    }

    /// Returns the index by which the protocol names this rate.
    pub fn to_repr(self) -> (r: u8)
        ensures
            r == self.index(),
    {
        match self {
            BaudRate::Baud2400 => 0,
            BaudRate::Baud9600 => 1,
            BaudRate::Baud19200 => 2,
            BaudRate::Baud38400 => 3,
            BaudRate::Baud57600 => 4,
            BaudRate::Baud76800 => 5,
            BaudRate::Baud115200 => 6,
        }
    }

    /// The rate that the protocol names by `index`, if there is one.
    pub fn from_repr(index: u8) -> (r: Option<BaudRate>)
        ensures
            match r {
                Some(rate) => rate.index() == index,
                None => index > 6,
            },
    {
        match index {
            0 => Some(BaudRate::Baud2400),
            1 => Some(BaudRate::Baud9600),
            2 => Some(BaudRate::Baud19200),
            3 => Some(BaudRate::Baud38400),
            4 => Some(BaudRate::Baud57600),
            5 => Some(BaudRate::Baud76800),
            6 => Some(BaudRate::Baud115200),
            _ => None,
        }
    }
}

/// A command of the diagnostic protocol.
#[derive(PartialEq, Eq, Structural, Copy, Clone, Debug)]
pub enum Command {
    /// Reset the access level.
    Lock,
    /// Ask for the software ID.
    QuerySoftwareId,
    /// Unlock read access with a key.
    UnlockReadAccess,
    /// Unlock the smart home functions.
    UnlockSmartHomeAccess,
    /// Read from memory.
    ReadMemory,
    /// Read from the EEPROM.
    ReadEeprom,
    /// Unlock full access with a key.
    UnlockFullAccess,
    /// Give the upper bits of the address and length of the next command.
    ExtendAddress,
    /// Ask for the highest baud rate that the appliance supports.
    QueryMaxBaudRate,
    /// Write to memory.
    WriteMemory,
    /// Write to the EEPROM.
    WriteEeprom,
    /// Call a subroutine.
    JumpToSubroutine,
    /// Stop the appliance's normal operation.
    Halt,
    /// Switch to 2400 baud.
    SetBaudRate2400,
    /// Switch to 9600 baud.
    SetBaudRate9600,
    /// Set the chunk size.
    SetChunkSize,
    /// Switch to the baud rate of a given index.
    SetBaudRate,
    /// Reset the microcontroller.
    Reset,
    /// Send a smart home request.
    RequestSmartHome,
}

impl Command {
    /// The opcode of the command.
    pub open spec fn opcode(self) -> u8 {
        match self {
            Command::Lock => 0x10,
            Command::QuerySoftwareId => 0x11,
            Command::UnlockReadAccess => 0x20,
            Command::UnlockSmartHomeAccess => 0x21,
            Command::ReadMemory => 0x30,
            Command::ReadEeprom => 0x31,
            Command::UnlockFullAccess => 0x32,
            Command::ExtendAddress => 0x37,
            Command::QueryMaxBaudRate => 0x38,
            Command::WriteMemory => 0x40,
            Command::WriteEeprom => 0x41,
            Command::JumpToSubroutine => 0x42,
            Command::Halt => 0x45,
            Command::SetBaudRate2400 => 0x46,
            Command::SetBaudRate9600 => 0x47,
            Command::SetChunkSize => 0x4a,
            Command::SetBaudRate => 0x4b,
            Command::Reset => 0x4e,
            Command::RequestSmartHome => 0x85,
        }
    }

    /// Returns the opcode of the command.
    pub fn code(self) -> (r: u8)
        ensures
            r == self.opcode(),
    {
        match self {
            Command::Lock => 0x10,
            Command::QuerySoftwareId => 0x11,
            Command::UnlockReadAccess => 0x20,
            Command::UnlockSmartHomeAccess => 0x21,
            Command::ReadMemory => 0x30,
            Command::ReadEeprom => 0x31,
            Command::UnlockFullAccess => 0x32,
            Command::ExtendAddress => 0x37,
            Command::QueryMaxBaudRate => 0x38,
            Command::WriteMemory => 0x40,
            Command::WriteEeprom => 0x41,
            Command::JumpToSubroutine => 0x42,
            Command::Halt => 0x45,
            Command::SetBaudRate2400 => 0x46,
            Command::SetBaudRate9600 => 0x47,
            Command::SetChunkSize => 0x4a,
            Command::SetBaudRate => 0x4b,
            Command::Reset => 0x4e,
            Command::RequestSmartHome => 0x85,
        }
    }
}

/// The four bytes of a request header: opcode, parameter (least significant
/// byte first) and length.
pub open spec fn header(cmd: Command, param: u16, len: u8) -> Seq<u8> {
    seq![cmd.opcode(), (param % 256) as u8, (param / 256) as u8, len]
}

/// A request header.
#[derive(Debug)]
pub struct Request {
    /// The command.
    pub cmd: Command,
    /// The command's 16-bit parameter: a key, an address, an index.
    pub param: u16,
    /// The length of what follows, or the low byte of it.
    pub len: u8,
}

impl Request {
    /// A request header of the three given parts.
    pub fn new(cmd: Command, param: u16, len: u8) -> (r: Self)
        ensures
            r.cmd == cmd,
            r.param == param,
            r.len == len,
    {
        Request { cmd, param, len }
    }

    /// The bytes of the header as they are framed and sent.
    pub open spec fn bytes(self) -> Seq<u8> {
        header(self.cmd, self.param, self.len)
    }
}

impl vstd::std_specs::convert::FromSpecImpl<Request> for Payload<4> {
    open spec fn obeys_from_spec() -> bool {
        true
    }

    open spec fn from_spec(req: Request) -> Payload<4> {
        Payload([req.cmd.opcode(), (req.param % 256) as u8, (req.param / 256) as u8, req.len])
    }
}

impl From<Request> for Payload<4> {
    fn from(req: Request) -> (r: Payload<4>) {
        let r = Payload(
            [req.cmd.code(), (req.param % 256) as u8, (req.param / 256) as u8, req.len],
        );
        proof {
            assert(r@ =~= req.bytes());
            vstd::array::axiom_array_ext_equal(
                r.0,
                [req.cmd.opcode(), (req.param % 256) as u8, (req.param / 256) as u8, req.len],
            );
        }
        r
    }
}

/// The code by which one side acknowledges a chunk of the other.
#[derive(PartialEq, Eq, Structural, Copy, Clone, Debug)]
pub enum ResponseCode {
    /// The chunk arrived intact and was accepted.
    Success,
    /// The chunk's checksum did not match.
    IncorrectChecksum,
    /// The command is unknown or not allowed at the current access level.
    InvalidCommand,
}

impl ResponseCode {
    /// The byte that stands for this code.
    pub open spec fn byte(self) -> u8 {
        match self {
            ResponseCode::Success => 0,
            ResponseCode::IncorrectChecksum => 1,
            ResponseCode::InvalidCommand => 2,
        }
    }

    /// Returns the byte that stands for this code.
    pub fn to_repr(self) -> (r: u8)
        ensures
            r == self.byte(),
    {
        match self {
            ResponseCode::Success => 0,
            ResponseCode::IncorrectChecksum => 1,
            ResponseCode::InvalidCommand => 2,
        }
    }

    /// The code that `byte` stands for, if it stands for one.
    pub fn from_repr(byte: u8) -> (r: Option<ResponseCode>)
        ensures
            match r {
                Some(code) => code.byte() == byte,
                None => byte > 2,
            },
    {
        match byte {
            0 => Some(ResponseCode::Success),
            1 => Some(ResponseCode::IncorrectChecksum),
            2 => Some(ResponseCode::InvalidCommand),
            _ => None,
        }
    }
}

/// What an acknowledgement byte from the appliance means for the operation
/// that sent the chunk.
pub open spec fn acknowledged<E>(byte: u8) -> Result<(), Error<E>> {
    if byte == 0 {
        Ok(())
    } else if byte == 1 {
        Err(Error::IncorrectChecksum)
    } else if byte == 2 {
        Err(Error::InvalidCommand)
    } else {
        Err(Error::InvalidResponse)
    }
}

/// Interprets an acknowledgement byte from the appliance: success lets the
/// transfer go on, every other byte ends it with the matching error.
pub fn check_acknowledgement<E>(byte: u8) -> (r: Result<(), Error<E>>)
    ensures
        r == acknowledged::<E>(byte),
{
    match ResponseCode::from_repr(byte) {
        Some(ResponseCode::Success) => Ok(()),
        Some(ResponseCode::IncorrectChecksum) => Err(Error::IncorrectChecksum),
        Some(ResponseCode::InvalidCommand) => Err(Error::InvalidCommand),
        None => Err(Error::InvalidResponse),
    }
}

} // verus!
