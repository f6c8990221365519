//! Maps control-surface keys to remote commands.
use vstd::prelude::*;
use crate::command::Command;

verus! {

/// A key of the control surface, as far as the routing table reads it.
#[derive(Clone, Copy, Debug, PartialEq, Eq, Structural)]
pub enum Key {
    Shtl,
    Cam4,
    Cam5,
    Cam6,
    Roll,
    StopPlay,
    /// Any other key, by its device code.
    Other(u8),
}

pub const SHTL_CODE: u8 = 28;
pub const CAM4_CODE: u8 = 54;
pub const CAM5_CODE: u8 = 55;
pub const CAM6_CODE: u8 = 56;
pub const ROLL_CODE: u8 = 11;
pub const STOP_PLAY_CODE: u8 = 60;

/// The key that the device reports under `code`.
pub open spec fn key_of_code(code: u8) -> Key {
    if code == SHTL_CODE {
        Key::Shtl
    } else if code == CAM4_CODE {
        Key::Cam4
    } else if code == CAM5_CODE {
        Key::Cam5
    } else if code == CAM6_CODE {
        Key::Cam6
    } else if code == ROLL_CODE {
        Key::Roll
    } else if code == STOP_PLAY_CODE {
        Key::StopPlay
    } else {
        Key::Other(code)
    }
}

impl Key {
    pub fn from_code(code: u8) -> (r: Key)
        ensures
            r == key_of_code(code),
    {
        if code == SHTL_CODE {
            Key::Shtl
        } else if code == CAM4_CODE {
            Key::Cam4
        } else if code == CAM5_CODE {
            Key::Cam5
        } else if code == CAM6_CODE {
            Key::Cam6
        } else if code == ROLL_CODE {
            Key::Roll
        } else if code == STOP_PLAY_CODE {
            Key::StopPlay
        } else {
            Key::Other(code)
        }
    }
}

/// The commands that a key edge asks for, in the order they are sent.
pub open spec fn key_commands(key: Key, is_down: bool) -> Seq<Command> {
    if is_down {
        match key {
            Key::Shtl => seq![Command::SwitchToWriteMode, Command::EnterNoteInput],
            Key::Cam4 => seq![Command::NoteValueEighth],
            Key::Cam5 => seq![Command::NoteValueQuarter],
            Key::Cam6 => seq![Command::NoteValueHalf],
            Key::Roll => seq![Command::SlurStart],
            Key::StopPlay => seq![Command::PlayFromSelection],
            Key::Other(_) => Seq::empty(),
        }
    } else {
        match key {
            Key::Roll => seq![Command::SlurStop],
            _ => Seq::empty(),
        }
    }
}

/// The commands for one key edge. The table is static: the result depends on
/// the key and the edge alone.
pub fn route_key(key: Key, is_down: bool) -> (r: Vec<Command>)
    ensures
        r@ == key_commands(key, is_down),
{
    let mut r: Vec<Command> = Vec::new();
    if is_down {
        match key {
            Key::Shtl => {
                r.push(Command::SwitchToWriteMode);
                r.push(Command::EnterNoteInput);
            },
            Key::Cam4 => r.push(Command::NoteValueEighth),
            Key::Cam5 => r.push(Command::NoteValueQuarter),
            Key::Cam6 => r.push(Command::NoteValueHalf),
            Key::Roll => r.push(Command::SlurStart),
            Key::StopPlay => r.push(Command::PlayFromSelection),
            Key::Other(_) => {},
        }
    } else {
        match key {
            Key::Roll => r.push(Command::SlurStop),
            _ => {},
        }
    }
    proof {
        assert(r@ =~= key_commands(key, is_down));
    }
    r
}

} // verus!
