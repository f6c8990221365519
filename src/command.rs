//! Remote commands and the text of the messages that carry them.
use vstd::prelude::*;
use vstd::string::StringExecFns;

verus! {

/// A command understood by the remote editor.
#[derive(Clone, Copy, Debug, PartialEq, Eq, Structural)]
pub enum Command {
    SwitchToWriteMode,
    EnterNoteInput,
    NoteValueEighth,
    NoteValueQuarter,
    NoteValueHalf,
    SlurStart,
    SlurStop,
    PlayFromSelection,
    MoveRight,
    MoveLeft,
    NavigateRight,
    NavigateLeft,
}

impl Command {
    /// The protocol name of the command.
    pub open spec fn spec_name(self) -> Seq<char> {
        match self {
            Command::SwitchToWriteMode => "Window.SwitchMode?WindowMode=kWriteMode"@,
            Command::EnterNoteInput => "NoteInput.Enter?Set=true"@,
            Command::NoteValueEighth => "NoteInput.NoteValue?LogDuration=kQuaver"@,
            Command::NoteValueQuarter => "NoteInput.NoteValue?LogDuration=kCrotchet"@,
            Command::NoteValueHalf => "NoteInput.NoteValue?LogDuration=kMinim"@,
            Command::SlurStart => "NoteInput.SlurStart"@,
            Command::SlurStop => "NoteInput.SlurStop"@,
            Command::PlayFromSelection => "Play.StartOrStop?PlayFromLocation=kSelection"@,
            Command::MoveRight => "NoteInput.MoveRight"@,
            Command::MoveLeft => "NoteInput.MoveLeft"@,
            Command::NavigateRight => "EventEdit.NavigateRight"@,
            Command::NavigateLeft => "EventEdit.NavigateLeft"@,
        }
    }

    pub fn name(&self) -> (r: &'static str)
        ensures
            r@ == self.spec_name(),
    {
        match self {
            Command::SwitchToWriteMode => "Window.SwitchMode?WindowMode=kWriteMode",
            Command::EnterNoteInput => "NoteInput.Enter?Set=true",
            Command::NoteValueEighth => "NoteInput.NoteValue?LogDuration=kQuaver",
            Command::NoteValueQuarter => "NoteInput.NoteValue?LogDuration=kCrotchet",
            Command::NoteValueHalf => "NoteInput.NoteValue?LogDuration=kMinim",
            Command::SlurStart => "NoteInput.SlurStart",
            Command::SlurStop => "NoteInput.SlurStop",
            Command::PlayFromSelection => "Play.StartOrStop?PlayFromLocation=kSelection",
            Command::MoveRight => "NoteInput.MoveRight",
            Command::MoveLeft => "NoteInput.MoveLeft",
            Command::NavigateRight => "EventEdit.NavigateRight",
            Command::NavigateLeft => "EventEdit.NavigateLeft",
        }
    }
}

/// The text of the message that accepts a session token.
pub open spec fn accept_text(token: Seq<char>) -> Seq<char> {
    "{\"message\": \"acceptsessiontoken\",\"sessionToken\":\""@ + token + "\"}"@
}

/// The text of the message that asks the editor to run `msg` under `token`.
pub open spec fn command_text(msg: Seq<char>, token: Seq<char>) -> Seq<char> {
    "{\"message\": \"command\",\"sessionToken\":\""@ + token + "\",\"command\":\""@ + msg
        + "\"}"@
}

/// The opening message of the handshake.
pub open spec fn connect_text() -> Seq<char> {
    "{\"message\": \"connect\",\"clientName\": \"TestClient\",\"handshakeVersion\": \"1.0\"}"@
}

pub fn dorico_connect_message() -> (r: String)
    ensures
        r@ == connect_text(),
{
    String::from_str(
        "{\"message\": \"connect\",\"clientName\": \"TestClient\",\"handshakeVersion\": \"1.0\"}",
    )
}

pub fn dorico_accept_message(session_token: &str) -> (r: String)
    ensures
        r@ == accept_text(session_token@),
{
    let mut r = String::from_str("{\"message\": \"acceptsessiontoken\",\"sessionToken\":\"");
    r.append(session_token);
    r.append("\"}");
    r
}

pub fn dorico_command(msg: &str, session_token: &str) -> (r: String)
    ensures
        r@ == command_text(msg@, session_token@),
{
    let mut r = String::from_str("{\"message\": \"command\",\"sessionToken\":\"");
    r.append(session_token);
    r.append("\",\"command\":\"");
    r.append(msg);
    r.append("\"}");
    r
}

} // verus!
