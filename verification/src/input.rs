//! Keys and the commands they stand for.

use vstd::prelude::*;

verus! {

/// The keys that the editor tells apart; every other key is `Other`.
#[derive(Debug, Clone, Copy, PartialEq, Eq, Structural)]
pub enum KeyCode {
    Left,
    Right,
    Up,
    Down,
    Backspace,
    Enter,
    Esc,
    Char(char),
    Other,
}

/// One key press: the key, and whether the control key was held with it.
#[derive(Debug, Clone, Copy, PartialEq, Eq, Structural)]
pub struct KeyEvent {
    pub code: KeyCode,
    pub control: bool,
}

/// The four ways the cursor moves.
#[derive(Debug, Clone, Copy, PartialEq, Eq, Structural)]
pub enum Direction {
    Left,
    Right,
    Up,
    Down,
}

/// What the editor can be asked to do.
#[derive(Debug, Clone, Copy, PartialEq, Eq, Structural)]
pub enum Command {
    /// Move the cursor by one cell.
    MoveCursor(Direction),
    /// Type a character at the cursor and step to the right.
    InsertChar(char),
    /// Step to the left and delete the character there.
    DeleteCharBackward,
    /// Open an empty line at the cursor's row and step down.
    NewLine,
    /// Take the cursor's line out of the document.
    RemoveLine,
    /// Hand what follows the cursor to the line above.
    SplitUpward,
    /// Hand what follows the cursor to the line below.
    SplitDownward,
    /// Write the document out.
    Save,
    /// Take up the terminal's size anew.
    Resize,
    /// Leave the editor.
    Quit,
}

impl KeyCode {
    /// The key is one of the four arrows.
    pub open spec fn is_arrow(self) -> bool {
        self is Left || self is Right || self is Up || self is Down
    }
}

impl Command {
    /// What the command leaves to do outside the session: saving, resizing
    /// and leaving are done there, and every other command only has the page
    /// painted anew.
    pub open spec fn action(self) -> crate::manager::Action {
        match self {
            Command::Save => crate::manager::Action::Save,
            Command::Resize => crate::manager::Action::Resize,
            Command::Quit => crate::manager::Action::Quit,
            _ => crate::manager::Action::Render,
        }
    }
}

impl KeyEvent {
    /// The command that the key stands for; `None` for a key that the editor
    /// ignores.
    ///
    /// The control key turns `r`, `s` and `d` into resize, save and remove
    /// line, and the up and down arrows into the two splits. It changes no
    /// other key.
    pub open spec fn command(self) -> Option<Command> {
        match self.code {
            KeyCode::Esc => Some(Command::Quit),
            KeyCode::Left => Some(Command::MoveCursor(Direction::Left)),
            KeyCode::Right => Some(Command::MoveCursor(Direction::Right)),
            KeyCode::Up => Some(
                if self.control {
                    Command::SplitUpward
                } else {
                    Command::MoveCursor(Direction::Up)
                },
            ),
            KeyCode::Down => Some(
                if self.control {
                    Command::SplitDownward
                } else {
                    Command::MoveCursor(Direction::Down)
                },
            ),
            KeyCode::Backspace => Some(Command::DeleteCharBackward),
            KeyCode::Enter => Some(Command::NewLine),
            KeyCode::Char(ch) => Some(
                if self.control && ch == 'r' {
                    Command::Resize
                } else if self.control && ch == 's' {
                    Command::Save
                } else if self.control && ch == 'd' {
                    Command::RemoveLine
                } else {
                    Command::InsertChar(ch)
                },
            ),
            KeyCode::Other => None,
        }
    }

    /// The command that the key stands for; `None` for a key that the editor
    /// ignores.
    pub fn to_command(&self) -> (command: Option<Command>)
        ensures
            command == self.command(),
    {
        match self.code {
            KeyCode::Esc => Some(Command::Quit),
            KeyCode::Left => Some(Command::MoveCursor(Direction::Left)),
            KeyCode::Right => Some(Command::MoveCursor(Direction::Right)),
            KeyCode::Up => {
                if self.control {
                    Some(Command::SplitUpward)
                } else {
                    Some(Command::MoveCursor(Direction::Up))
                }
            },
            KeyCode::Down => {
                if self.control {
                    Some(Command::SplitDownward)
                } else {
                    Some(Command::MoveCursor(Direction::Down))
                }
            },
            KeyCode::Backspace => Some(Command::DeleteCharBackward),
            KeyCode::Enter => Some(Command::NewLine),
            KeyCode::Char('r') if self.control => Some(Command::Resize),
            KeyCode::Char('s') if self.control => Some(Command::Save),
            KeyCode::Char('d') if self.control => Some(Command::RemoveLine),
            KeyCode::Char(ch) => Some(Command::InsertChar(ch)),
            KeyCode::Other => None,
        }
    }
}

} // verus!
