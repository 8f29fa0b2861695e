//! The one-byte command that opens every frame.
use vstd::prelude::*;

verus! {

/// What a frame asks for; its first byte on the wire.
#[derive(Clone, Copy, Debug, PartialEq, Eq, Structural)]
pub enum Command {
    Start,
    Data,
    Done,
    Unknown,
}

/// The command that a first byte stands for.
pub open spec fn command_of(b: u8) -> Command {
    if b == 1 {
        Command::Start
    } else if b == 2 {
        Command::Data
    } else if b == 3 {
        Command::Done
    } else {
        Command::Unknown
    }
}

/// The byte that a command is written as.
pub open spec fn byte_of(c: Command) -> u8 {
    match c {
        Command::Start => 1,
        Command::Data => 2,
        Command::Done => 3,
        Command::Unknown => 4,
    }
}

impl Command {
    /// The byte that this command is written as on the wire.
    pub fn to_u8(self) -> (b: u8)
        ensures
            b == byte_of(self),
    {
        match self {
            Command::Start => 1,
            Command::Data => 2,
            Command::Done => 3,
            Command::Unknown => 4,
        }
    }
}

impl From<u8> for Command {
    /// Reads a command from its byte; every byte other than 1, 2, 3 is `Unknown`.
    fn from(orig: u8) -> (cmd: Command) {
        match orig {
            1 => Command::Start,
            2 => Command::Data,
            3 => Command::Done,
            _ => Command::Unknown,
        }
    }
}

impl vstd::std_specs::convert::FromSpecImpl<u8> for Command {
    open spec fn obeys_from_spec() -> bool {
        true
    }

    open spec fn from_spec(v: u8) -> Command {
        command_of(v)
    }
}

/// Writing a command and reading the byte back gives the same command.
pub proof fn lemma_command_byte_roundtrip(c: Command)
    ensures
        command_of(byte_of(c)) == c,
{
}

/// A byte that names a known command (1, 2 or 3) is written back unchanged;
/// every other byte reads as `Unknown`.
pub proof fn lemma_byte_command_roundtrip(b: u8)
    ensures
        1 <= b <= 3 ==> byte_of(command_of(b)) == b,
        !(1 <= b <= 3) <==> command_of(b) == Command::Unknown,
{
}

} // verus!
