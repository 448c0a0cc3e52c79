//! What each key asks of the player.

use crate::controls::{Action, Direction, Indexer, ReinitMode, RpcState, due_after};
use vstd::prelude::*;

verus! {

pub const UP: char = 'u';

pub const DOWN: char = 'j';

pub const LEFT: char = 'n';

pub const RIGHT: char = 'm';

pub const SHUFFLE: char = 'f';

pub const PLAY: char = 'p';

pub const BLACKLIST: char = 'b';

pub const STOP: char = 's';

pub const RESUME: char = 'r';

pub const LOOP: char = 'l';

pub const SPECIAL: char = 'o';

pub const QUIT: char = 'q';

pub const SEARCH: char = 'h';

pub const FULL: char = 'g';

pub const CHANGE: char = 'c';

pub const SETNEXT: char = 'e';

pub const DESEL: char = 'd';

pub const SETPLAYLIST: char = 'v';

pub const MOUSE_SUPPORT: char = 't';

/// A key as the terminal reports it, or one of the three that stand for a
/// report of the audio thread: `F13` for a song that has ended, `F14` for one
/// that goes on, `F15` for a report about another song.
#[derive(Clone, Copy, Debug, PartialEq, Eq, Structural)]
pub enum Key {
    Character(char),
    Down,
    Up,
    Left,
    Right,
    PPage,
    NPage,
    Enter,
    Backspace,
    Mouse,
    F13,
    F14,
    F15,
    Other,
}

/// What the player is asked to do.
#[derive(Clone, Copy, Debug, PartialEq, Eq, Structural)]
pub enum Command {
    /// Go on to the next song: the one that played has ended.
    SongEnded,
    /// Show how far the song has got.
    Progress,
    Quit,
    /// Move the selection, or the volume while the special mode is on.
    Move(Direction),
    Play,
    /// Switch the special mode.
    Special,
    Loop,
    Stop,
    Blacklist,
    Resume,
    SeekForward,
    SeekBackward,
    Shuffle,
    /// Start typing: 1 for a search, 2 for an artist, 3 for a playlist.
    Typing(u8),
    /// Draw everything anew.
    Full,
    SetNext,
    Desel,
    Page(Direction),
    MouseSupport,
    Nothing,
}

/// What a key asks for while nothing is being typed.
pub open spec fn spec_command_of(key: Key) -> Command {
    match key {
        Key::F13 => Command::SongEnded,
        Key::F14 => Command::Progress,
        Key::Down => Command::Move(Direction::Down),
        Key::Up => Command::Move(Direction::Up),
        Key::Right => Command::SeekForward,
        Key::Left => Command::SeekBackward,
        Key::PPage => Command::Page(Direction::Up),
        Key::NPage => Command::Page(Direction::Down),
        Key::Character(c) => if c == QUIT {
            Command::Quit
        } else if c == DOWN {
            Command::Move(Direction::Down)
        } else if c == UP {
            Command::Move(Direction::Up)
        } else if c == PLAY {
            Command::Play
        } else if c == SPECIAL {
            Command::Special
        } else if c == LOOP {
            Command::Loop
        } else if c == STOP {
            Command::Stop
        } else if c == BLACKLIST {
            Command::Blacklist
        } else if c == RESUME {
            Command::Resume
        } else if c == RIGHT {
            Command::SeekForward
        } else if c == LEFT {
            Command::SeekBackward
        } else if c == SHUFFLE {
            Command::Shuffle
        } else if c == SEARCH {
            Command::Typing(1)
        } else if c == FULL {
            Command::Full
        } else if c == CHANGE {
            Command::Typing(2)
        } else if c == SETPLAYLIST {
            Command::Typing(3)
        } else if c == SETNEXT {
            Command::SetNext
        } else if c == DESEL {
            Command::Desel
        } else if c == MOUSE_SUPPORT {
            Command::MouseSupport
        } else {
            Command::Nothing
        },
        _ => Command::Nothing,
    }
}

/// What a key asks for while nothing is being typed.
pub fn command_of(key: Key) -> (r: Command)
    ensures
        r == spec_command_of(key),
{
    match key {
        Key::F13 => Command::SongEnded,
        Key::F14 => Command::Progress,
        Key::Down => Command::Move(Direction::Down),
        Key::Up => Command::Move(Direction::Up),
        Key::Right => Command::SeekForward,
        Key::Left => Command::SeekBackward,
        Key::PPage => Command::Page(Direction::Up),
        Key::NPage => Command::Page(Direction::Down),
        Key::Character(c) => {
            if c == QUIT {
                Command::Quit
            } else if c == DOWN {
                Command::Move(Direction::Down)
            } else if c == UP {
                Command::Move(Direction::Up)
            } else if c == PLAY {
                Command::Play
            } else if c == SPECIAL {
                Command::Special
            } else if c == LOOP {
                Command::Loop
            } else if c == STOP {
                Command::Stop
            } else if c == BLACKLIST {
                Command::Blacklist
            } else if c == RESUME {
                Command::Resume
            } else if c == RIGHT {
                Command::SeekForward
            } else if c == LEFT {
                Command::SeekBackward
            } else if c == SHUFFLE {
                Command::Shuffle
            } else if c == SEARCH {
                Command::Typing(1)
            } else if c == FULL {
                Command::Full
            } else if c == CHANGE {
                Command::Typing(2)
            } else if c == SETPLAYLIST {
                Command::Typing(3)
            } else if c == SETNEXT {
                Command::SetNext
            } else if c == DESEL {
                Command::Desel
            } else if c == MOUSE_SUPPORT {
                Command::MouseSupport
            } else {
                Command::Nothing
            }
        },
        _ => Command::Nothing,
    }
}

/// What a key does to the line being typed.
#[derive(Clone, Copy, Debug, PartialEq, Eq, Structural)]
pub enum Typed {
    /// The line is done: act on it.
    Submit,
    /// Take the last character away.
    Erase,
    /// Put the character at the end.
    Put(char),
    /// The key is not for the line: it is handled as if nothing were typed.
    Pass,
}

/// What a key does while a line is being typed: return submits, backspace
/// and delete erase, any other character is typed.
pub open spec fn spec_typed(key: Key) -> Typed {
    match key {
        Key::Enter => Typed::Submit,
        Key::Backspace => Typed::Erase,
        Key::Character(c) => if c == '\n' {
            Typed::Submit
        } else if c == '\x7f' || c == '\x08' {
            Typed::Erase
        } else {
            Typed::Put(c)
        },
        _ => Typed::Pass,
    }
}

/// What a key does while a line is being typed.
pub fn typed(key: Key) -> (r: Typed)
    ensures
        r == spec_typed(key),
{
    match key {
        Key::Enter => Typed::Submit,
        Key::Backspace => Typed::Erase,
        Key::Character(c) => {
            if c == '\n' {
                Typed::Submit
            } else if c == '\x7f' || c == '\x08' {
                Typed::Erase
            } else {
                Typed::Put(c)
            }
        },
        _ => Typed::Pass,
    }
}

/// The key that stands for what a click asked, if one does.
pub open spec fn key_of(action: Action) -> Option<Key> {
    match action {
        Action::Play(_, _) => Some(Key::Character(PLAY)),
        Action::Shuffle => Some(Key::Character(SHUFFLE)),
        Action::Repeat => Some(Key::Character(LOOP)),
        Action::Rpc => None,
        Action::PgDown => Some(Key::NPage),
        Action::PgUp => Some(Key::PPage),
        Action::Nothing => None,
    }
}

/// Turns what a click asked into the key that asks the same. A click on a
/// song selects it first; a click on the presence indicator has no key, and
/// makes a renewal owed.
pub fn action_to_key(action: Action, index: &mut Indexer, rpc: &mut RpcState, now: u64) -> (r:
    Option<Key>)
    ensures
        r == key_of(action),
        *final(index) == (match action {
            Action::Play(page, row) => Indexer { page, index: row },
            _ => *old(index),
        }),
        *final(rpc) == (match action {
            Action::Rpc => RpcState { reinit: true, timer: due_after(now), mode: ReinitMode::Renew },
            _ => *old(rpc),
        }),
{
    match action {
        Action::Play(page, row) => {
            index.page = page;
            index.index = row;
            Some(Key::Character(PLAY))
        },
        Action::Shuffle => Some(Key::Character(SHUFFLE)),
        Action::Repeat => Some(Key::Character(LOOP)),
        Action::Rpc => {
            rpc.renew(now);
            None
        },
        Action::PgDown => Some(Key::NPage),
        Action::PgUp => Some(Key::PPage),
        Action::Nothing => None,
    }
}

} // verus!
