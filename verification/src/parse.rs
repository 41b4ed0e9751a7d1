use vstd::prelude::*;
use vstd::string::StringSliceAdditionalSpecFns;
use crate::game_command::GameCommand;
use crate::piece::PieceSize;

verus! {

/// An ASCII decimal digit.
pub open spec fn is_digit(b: u8) -> bool {
    48 <= b <= 57
}

/// The numeric value of an ASCII digit.
pub open spec fn digit_value(b: u8) -> int {
    b - 48
}

/// The size a single digit selects: 1 is Small, 2 is Medium, 3 is Big.
pub open spec fn size_of_digit(b: u8) -> Option<PieceSize> {
    if b == 49 {
        Some(PieceSize::Small)
    } else if b == 50 {
        Some(PieceSize::Medium)
    } else if b == 51 {
        Some(PieceSize::Big)
    } else {
        None
    }
}

/// What `piece_size_from_number` accepts: exactly the one-character
/// strings "1", "2" and "3".
pub open spec fn piece_size_of_bytes(s: Seq<u8>) -> Result<PieceSize, ()> {
    if s.len() == 1 {
        match size_of_digit(s[0]) {
            Some(size) => Ok(size),
            None => Err(()),
        }
    } else {
        Err(())
    }
}

/// The line encoding of the console adapter: the first character selects
/// the command (1 new game, 2 put, 3 move, 4 exit), and space-delimited
/// single-digit fields follow at fixed offsets. Anything else is no
/// command. Field values are passed through unchecked; the command
/// consumer owns the range rules.
pub open spec fn parsed_command(s: Seq<u8>) -> Option<GameCommand> {
    if s.len() == 0 {
        None
    } else if s[0] == 49 {
        Some(GameCommand::NewGameCommand)
    } else if s[0] == 50 {
        if s.len() >= 7 && is_digit(s[2]) && is_digit(s[4]) && size_of_digit(s[6]) is Some {
            Some(
                GameCommand::PutPieceCommand(
                    digit_value(s[2]) as usize,
                    digit_value(s[4]) as usize,
                    size_of_digit(s[6])->Some_0,
                ),
            )
        } else {
            None
        }
    } else if s[0] == 51 {
        if s.len() >= 9 && is_digit(s[2]) && is_digit(s[4]) && is_digit(s[6]) && is_digit(s[8]) {
            Some(
                GameCommand::MovePieceCommand(
                    digit_value(s[2]) as usize,
                    digit_value(s[4]) as usize,
                    digit_value(s[6]) as usize,
                    digit_value(s[8]) as usize,
                ),
            )
        } else {
            None
        }
    } else if s[0] == 52 {
        Some(GameCommand::ExitCommand)
    } else {
        None
    }
}

/// Turns the digit that names a size into that size.
pub fn piece_size_from_number(i: &str) -> (r: Result<PieceSize, ()>)
    ensures
        r == piece_size_of_bytes(i.spec_bytes()),
{
    let bytes = i.as_bytes();
    if bytes.len() == 1 {
        match byte_to_size(bytes[0]) {
            Some(size) => Ok(size),
            None => Err(()),
        }
    } else {
        Err(())
    }
}

/// Runs `size_of_digit` in executable code.
fn byte_to_size(b: u8) -> (r: Option<PieceSize>)
    ensures
        r == size_of_digit(b),
{
    if b == 49 {
        Some(PieceSize::Small)
    } else if b == 50 {
        Some(PieceSize::Medium)
    } else if b == 51 {
        Some(PieceSize::Big)
    } else {
        None
    }
}

/// Decodes one console line, given as its bytes, into the command it
/// selects, or nothing when the line selects none.
pub fn parse_command(input: &[u8]) -> (r: Option<GameCommand>)
    ensures
        r == parsed_command(input@),
{
    if input.len() == 0 {
        return None;
    }
    let selector = input[0];
    if selector == 49 {
        Some(GameCommand::NewGameCommand)
    } else if selector == 50 {
        if input.len() >= 7 {
            let x = input[2];
            let y = input[4];
            let size = byte_to_size(input[6]);
            if 48 <= x && x <= 57 && 48 <= y && y <= 57 {
                match size {
                    Some(size) => Some(
                        GameCommand::PutPieceCommand(
                            (x - 48) as usize,
                            (y - 48) as usize,
                            size,
                        ),
                    ),
                    None => None,
                }
            } else {
                None
            }
        } else {
            None
        }
    } else if selector == 51 {
        if input.len() >= 9 {
            let ox = input[2];
            let oy = input[4];
            let dx = input[6];
            let dy = input[8];
            if 48 <= ox && ox <= 57 && 48 <= oy && oy <= 57 && 48 <= dx && dx <= 57 && 48 <= dy
                && dy <= 57 {
                Some(
                    GameCommand::MovePieceCommand(
                        (ox - 48) as usize,
                        (oy - 48) as usize,
                        (dx - 48) as usize,
                        (dy - 48) as usize,
                    ),
                )
            } else {
                None
            }
        } else {
            None
        }
    } else if selector == 52 {
        Some(GameCommand::ExitCommand)
    } else {
        None
    }
}

} // verus!
