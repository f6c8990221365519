//! The session handshake: connect, receive a token, accept it, and receive
//! the connection result.
use vstd::prelude::*;
use vstd::string::StringExecFns;
use crate::command::{accept_text, connect_text, dorico_accept_message, dorico_connect_message};
use crate::json::{json_object, Member, MemberView, Object};

verus! {

/// Why a handshake reply was refused. Every refusal is fatal to the session.
#[derive(Clone, Copy, Debug, PartialEq, Eq, Structural)]
pub enum ProtocolViolation {
    /// The reply is not a JSON object.
    NotAnObject,
    /// A field that the step needs is absent.
    MissingField,
    /// A field that must hold a string holds something else.
    NotAString,
    /// The `message` field is not `sessiontoken`.
    UnexpectedMessage,
    /// The `code` field is not `kConnected`.
    NotConnected,
}

/// The string under `key`, or why there is none.
pub open spec fn string_field(m: Map<Seq<char>, MemberView>, key: Seq<char>) -> Result<
    Seq<char>,
    ProtocolViolation,
> {
    if !m.contains_key(key) {
        Err(ProtocolViolation::MissingField)
    } else {
        match m[key] {
            MemberView::Str(s) => Ok(s),
            _ => Err(ProtocolViolation::NotAString),
        }
    }
}

/// The token that a `sessiontoken` reply carries.
pub open spec fn token_of(reply: Option<Map<Seq<char>, MemberView>>) -> Result<
    Seq<char>,
    ProtocolViolation,
> {
    match reply {
        None => Err(ProtocolViolation::NotAnObject),
        Some(m) => match string_field(m, "message"@) {
            Err(e) => Err(e),
            Ok(msg) => if msg == "sessiontoken"@ {
                string_field(m, "sessionToken"@)
            } else {
                Err(ProtocolViolation::UnexpectedMessage)
            },
        },
    }
}

/// Whether the reply to the acceptance reports a connection.
pub open spec fn connection_of(reply: Option<Map<Seq<char>, MemberView>>) -> Result<
    (),
    ProtocolViolation,
> {
    match reply {
        None => Err(ProtocolViolation::NotAnObject),
        Some(m) => match string_field(m, "code"@) {
            Err(e) => Err(e),
            Ok(code) => if code == "kConnected"@ {
                Ok(())
            } else {
                Err(ProtocolViolation::NotConnected)
            },
        },
    }
}

fn string_field_of(obj: &Object, key: &str) -> (r: Result<String, ProtocolViolation>)
    requires
        obj.wf(),
    ensures
        match r {
            Ok(s) => string_field(obj@, key@) == Ok::<Seq<char>, ProtocolViolation>(s@),
            Err(e) => string_field(obj@, key@) == Err::<Seq<char>, ProtocolViolation>(e),
        },
{
    match obj.get(key) {
        None => Err(ProtocolViolation::MissingField),
        Some(Member::Str(s)) => Ok(s.clone()),
        Some(_) => Err(ProtocolViolation::NotAString),
    }
}

/// The session token that a decoded `sessiontoken` reply carries.
pub fn session_token_of(reply: Option<&Object>) -> (r: Result<String, ProtocolViolation>)
    requires
        reply matches Some(o) ==> o.wf(),
    ensures
        match r {
            Ok(s) => token_of(view_of(reply)) == Ok::<Seq<char>, ProtocolViolation>(s@),
            Err(e) => token_of(view_of(reply)) == Err::<Seq<char>, ProtocolViolation>(e),
        },
{
    match reply {
        None => Err(ProtocolViolation::NotAnObject),
        Some(obj) => {
            let msg = string_field_of(obj, "message")?;
            if msg == String::from_str("sessiontoken") {
                string_field_of(obj, "sessionToken")
            } else {
                Err(ProtocolViolation::UnexpectedMessage)
            }
        },
    }
}

/// Whether a decoded reply to the acceptance reports a connection.
pub fn connection_result_of(reply: Option<&Object>) -> (r: Result<(), ProtocolViolation>)
    requires
        reply matches Some(o) ==> o.wf(),
    ensures
        r == connection_of(view_of(reply)),
{
    match reply {
        None => Err(ProtocolViolation::NotAnObject),
        Some(obj) => {
            let code = string_field_of(obj, "code")?;
            if code == String::from_str("kConnected") {
                Ok(())
            } else {
                Err(ProtocolViolation::NotConnected)
            }
        },
    }
}

/// The members of a decoded reply, if it decoded.
pub open spec fn view_of(reply: Option<&Object>) -> Option<Map<Seq<char>, MemberView>> {
    match reply {
        None => None,
        Some(o) => Some(o@),
    }
}

/// The state of a handshake, as mathematical values.
pub enum HandshakeView {
    AwaitingToken,
    AwaitingConnection(Seq<char>),
    Established(Seq<char>),
    Failed(ProtocolViolation),
}

/// Whether the handshake still reads a reply.
pub open spec fn awaits_reply(s: HandshakeView) -> bool {
    s is AwaitingToken || s is AwaitingConnection
}

/// One step of the handshake on a reply: the next state, and the message to
/// send, if any. A state that awaits no reply is left as it is.
pub open spec fn handshake_next(
    s: HandshakeView,
    reply: Option<Map<Seq<char>, MemberView>>,
) -> (HandshakeView, Option<Seq<char>>) {
    match s {
        HandshakeView::AwaitingToken => match token_of(reply) {
            Ok(t) => (HandshakeView::AwaitingConnection(t), Some(accept_text(t))),
            Err(e) => (HandshakeView::Failed(e), None),
        },
        HandshakeView::AwaitingConnection(t) => match connection_of(reply) {
            Ok(_) => (HandshakeView::Established(t), None),
            Err(e) => (HandshakeView::Failed(e), None),
        },
        _ => (s, None),
    }
}

pub open spec fn text_view(o: Option<String>) -> Option<Seq<char>> {
    match o {
        None => None,
        Some(s) => Some(s@),
    }
}

/// The session handshake with the remote editor.
#[derive(Debug)]
pub enum Handshake {
    AwaitingToken,
    AwaitingConnection(String),
    Established(String),
    Failed(ProtocolViolation),
}

impl View for Handshake {
    type V = HandshakeView;

    open spec fn view(&self) -> HandshakeView {
        match self {
            Handshake::AwaitingToken => HandshakeView::AwaitingToken,
            Handshake::AwaitingConnection(t) => HandshakeView::AwaitingConnection(t@),
            Handshake::Established(t) => HandshakeView::Established(t@),
            Handshake::Failed(e) => HandshakeView::Failed(*e),
        }
    }
}

impl Handshake {
    /// A new handshake and the `connect` message that opens it.
    pub fn start() -> (r: (Handshake, String))
        ensures
            r.0@ == HandshakeView::AwaitingToken,
            r.1@ == connect_text(),
    {
        (Handshake::AwaitingToken, dorico_connect_message())
    }

    /// Advances on a decoded reply; returns the message to send next, if any.
    pub fn receive_object(&mut self, reply: Option<&Object>) -> (r: Option<String>)
        requires
            reply matches Some(o) ==> o.wf(),
        ensures
            (final(self)@, text_view(r)) == handshake_next(old(self)@, view_of(reply)),
    {
        match self {
            Handshake::AwaitingToken => match session_token_of(reply) {
                Ok(t) => {
                    let msg = dorico_accept_message(t.as_str());
                    *self = Handshake::AwaitingConnection(t);
                    Some(msg)
                },
                Err(e) => {
                    *self = Handshake::Failed(e);
                    None
                },
            },
            Handshake::AwaitingConnection(t) => match connection_result_of(reply) {
                Ok(_) => {
                    let t = t.clone();
                    *self = Handshake::Established(t);
                    None
                },
                Err(e) => {
                    *self = Handshake::Failed(e);
                    None
                },
            },
            _ => None,
        }
    }

    /// Advances on the text of a reply; returns the message to send next, if any.
    pub fn receive(&mut self, text: &str) -> (r: Option<String>)
        ensures
            (final(self)@, text_view(r)) == handshake_next(old(self)@, json_object(text@)),
    {
        let reply = Object::parse(text);
        match reply {
            None => self.receive_object(None),
            Some(o) => self.receive_object(Some(&o)),
        }
    }

    /// Whether the handshake still reads a reply.
    pub fn is_pending(&self) -> (r: bool)
        ensures
            r == awaits_reply(self@),
    {
        match self {
            Handshake::AwaitingToken => true,
            Handshake::AwaitingConnection(_) => true,
            _ => false,
        }
    }

    /// The session token, once the handshake is established.
    pub fn session_token(&self) -> (r: Option<String>)
        ensures
            match self@ {
                HandshakeView::Established(t) => text_view(r) == Some(t),
                _ => r is None,
            },
    {
        match self {
            Handshake::Established(t) => Some(t.clone()),
            _ => None,
        }
    }

    /// Why the handshake failed, if it did.
    pub fn failure(&self) -> (r: Option<ProtocolViolation>)
        ensures
            match self@ {
                HandshakeView::Failed(e) => r == Some(e),
                _ => r is None,
            },
    {
        match self {
            Handshake::Failed(e) => Some(*e),
            _ => None,
        }
    }
}

/// A well-formed `sessiontoken` reply followed by a `kConnected` reply
/// establishes a session whose token is the one received, after sending the
/// acceptance of exactly that token.
pub proof fn lemma_handshake_establishes(
    first: Map<Seq<char>, MemberView>,
    second: Map<Seq<char>, MemberView>,
    token: Seq<char>,
)
    requires
        first.contains_key("message"@),
        first["message"@] == MemberView::Str("sessiontoken"@),
        first.contains_key("sessionToken"@),
        first["sessionToken"@] == MemberView::Str(token),
        second.contains_key("code"@),
        second["code"@] == MemberView::Str("kConnected"@),
    ensures
        handshake_next(HandshakeView::AwaitingToken, Some(first)) == (
        HandshakeView::AwaitingConnection(token),
        Some(accept_text(token)),
        ),
        handshake_next(HandshakeView::AwaitingConnection(token), Some(second)).0
            == HandshakeView::Established(token),
{
}

/// A first reply without a `sessionToken` fails the handshake at once: it sends
/// nothing and reads no second reply.
pub proof fn lemma_missing_token_fails(first: Option<Map<Seq<char>, MemberView>>)
    requires
        first matches Some(m) ==> !m.contains_key("sessionToken"@),
    ensures
        handshake_next(HandshakeView::AwaitingToken, first).0 is Failed,
        handshake_next(HandshakeView::AwaitingToken, first).1 is None,
        !awaits_reply(handshake_next(HandshakeView::AwaitingToken, first).0),
        forall|later: Option<Map<Seq<char>, MemberView>>|
            #[trigger] handshake_next(handshake_next(HandshakeView::AwaitingToken, first).0, later)
                == (handshake_next(HandshakeView::AwaitingToken, first).0, None::<Seq<char>>),
{
}

} // verus!
