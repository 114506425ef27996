use vstd::prelude::*;

verus! {

/// What the user can ask of the display.
#[derive(Clone, Copy, Debug, PartialEq, Eq, Structural)]
pub enum UserInput {
    NextScreen,
    PrevScreen,
    ScreensaverOn,
    ScreensaverOff,
    Quit,
}

/// The first byte of a datagram that carries a command.
pub const COMMAND_MARKER: u8 = 0x33;

/// The length of a datagram that carries a command.
pub const COMMAND_LENGTH: usize = 2;

/// The command that a datagram carries: it is two bytes long, the first
/// one the marker, the second one the number of the command. Any other
/// datagram carries none.
pub open spec fn command_of(datagram: Seq<u8>) -> Option<UserInput> {
    if datagram.len() == COMMAND_LENGTH && datagram[0] == COMMAND_MARKER {
        if datagram[1] == 0 {
            Some(UserInput::NextScreen)
        } else if datagram[1] == 1 {
            Some(UserInput::PrevScreen)
        } else if datagram[1] == 2 {
            Some(UserInput::ScreensaverOn)
        } else if datagram[1] == 3 {
            Some(UserInput::ScreensaverOff)
        } else if datagram[1] == 4 {
            Some(UserInput::Quit)
        } else {
            None
        }
    } else {
        None
    }
}

/// Reads the command that a datagram carries, if it carries one.
pub fn decode_command(datagram: &[u8]) -> (r: Option<UserInput>)
    ensures
        r == command_of(datagram@),
{
    if datagram.len() == COMMAND_LENGTH && datagram[0] == COMMAND_MARKER {
        match datagram[1] {
            0 => Some(UserInput::NextScreen),
            1 => Some(UserInput::PrevScreen),
            2 => Some(UserInput::ScreensaverOn),
            3 => Some(UserInput::ScreensaverOff),
            4 => Some(UserInput::Quit),
            _ => None,
        }
    } else {
        None
    }
}

} // verus!
