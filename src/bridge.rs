//! The event loop's decisions: one serial consumer owns the context, the jog
//! accumulator and the session token, and turns each inbound event into the
//! messages to send.
use vstd::prelude::*;
use vstd::string::StringExecFns;
use crate::command::{command_text, dorico_command, Command};
use crate::handshake::string_field;
use crate::jog::{jog_step, JogIntegrator};
use crate::json::{json_object, Member, MemberView, Object};
use crate::router::{key_commands, route_key, Key};

verus! {

/// State that the remote editor reports and the routing reads.
#[derive(Clone, Copy, Debug, PartialEq, Eq, Structural)]
pub struct Context {
    pub note_input_active: bool,
}

/// The note-input flag after a status push: its boolean `noteInputActive`
/// field if it has one, else the flag as it was.
pub open spec fn status_update(active: bool, status: Map<Seq<char>, MemberView>) -> bool {
    if status.contains_key("noteInputActive"@) {
        match status["noteInputActive"@] {
            MemberView::Bool(b) => b,
            _ => active,
        }
    } else {
        active
    }
}

impl Context {
    pub fn new() -> (r: Context)
        ensures
            !r.note_input_active,
    {
        Context { note_input_active: false }
    }

    /// Takes in a status push. A missing or non-boolean field changes nothing.
    pub fn apply_status(&mut self, status: &Object)
        requires
            status.wf(),
        ensures
            final(self).note_input_active == status_update(
                old(self).note_input_active,
                status@,
            ),
    {
        match status.get("noteInputActive") {
            Some(Member::Bool(b)) => self.note_input_active = *b,
            _ => {},
        }
    }
}

/// An event from the control surface or from the remote editor.
#[derive(Debug)]
pub enum InboundEvent {
    RemoteStatus(Object),
    RemoteSelectionChanged(Object),
    DeviceKey(Key, bool),
    DeviceJog(u8, i32),
}

/// An inbound event, as mathematical values.
pub enum EventView {
    RemoteStatus(Map<Seq<char>, MemberView>),
    RemoteSelectionChanged(Map<Seq<char>, MemberView>),
    DeviceKey(Key, bool),
    DeviceJog(u8, int),
}

impl View for InboundEvent {
    type V = EventView;

    open spec fn view(&self) -> EventView {
        match self {
            InboundEvent::RemoteStatus(o) => EventView::RemoteStatus(o@),
            InboundEvent::RemoteSelectionChanged(o) => EventView::RemoteSelectionChanged(o@),
            InboundEvent::DeviceKey(k, d) => EventView::DeviceKey(*k, *d),
            InboundEvent::DeviceJog(m, d) => EventView::DeviceJog(*m, *d as int),
        }
    }
}

impl InboundEvent {
    /// Decoded objects in the event are well formed.
    pub open spec fn wf(&self) -> bool {
        match self {
            InboundEvent::RemoteStatus(o) => o.wf(),
            InboundEvent::RemoteSelectionChanged(o) => o.wf(),
            _ => true,
        }
    }
}

/// What a message pushed by the remote editor is.
pub enum RemoteKind {
    Status,
    SelectionChanged,
    Response,
    Unrecognized(Seq<char>),
    Malformed,
}

/// The kind of a decoded remote message, by its `message` field.
pub open spec fn remote_kind(msg: Option<Map<Seq<char>, MemberView>>) -> RemoteKind {
    match msg {
        None => RemoteKind::Malformed,
        Some(m) => match string_field(m, "message"@) {
            Err(_) => RemoteKind::Malformed,
            Ok(s) => if s == "status"@ {
                RemoteKind::Status
            } else if s == "selectionchanged"@ {
                RemoteKind::SelectionChanged
            } else if s == "response"@ {
                RemoteKind::Response
            } else {
                RemoteKind::Unrecognized(s)
            },
        },
    }
}

/// A message pushed by the remote editor, sorted for the event loop.
#[derive(Debug)]
pub enum RemoteMessage {
    /// A status or selection push, to be queued.
    Event(InboundEvent),
    /// A response to a command: not matched to its request.
    Response,
    /// A message of another type, by its `message` field.
    Unrecognized(String),
    /// Not an object with a string `message` field.
    Malformed,
}

/// Sorts the text of a remote message.
pub fn classify_remote(text: &str) -> (r: RemoteMessage)
    ensures
        match r {
            RemoteMessage::Event(e) => e.wf() && match e {
                InboundEvent::RemoteStatus(o) => remote_kind(json_object(text@)) is Status
                    && json_object(text@) == Some(o@),
                InboundEvent::RemoteSelectionChanged(o) => remote_kind(json_object(text@))
                    is SelectionChanged && json_object(text@) == Some(o@),
                _ => false,
            },
            RemoteMessage::Response => remote_kind(json_object(text@)) is Response,
            RemoteMessage::Unrecognized(s) => remote_kind(json_object(text@))
                == RemoteKind::Unrecognized(s@),
            RemoteMessage::Malformed => remote_kind(json_object(text@)) is Malformed,
        },
{
    let obj = match Object::parse(text) {
        None => return RemoteMessage::Malformed,
        Some(o) => o,
    };
    let msg = match obj.get("message") {
        Some(Member::Str(s)) => s.clone(),
        _ => return RemoteMessage::Malformed,
    };
    if msg == String::from_str("status") {
        RemoteMessage::Event(InboundEvent::RemoteStatus(obj))
    } else if msg == String::from_str("selectionchanged") {
        RemoteMessage::Event(InboundEvent::RemoteSelectionChanged(obj))
    } else if msg == String::from_str("response") {
        RemoteMessage::Response
    } else {
        RemoteMessage::Unrecognized(msg)
    }
}

/// The state that the event loop owns, as mathematical values.
pub struct BridgeView {
    pub token: Seq<char>,
    pub note_input_active: bool,
    pub jog: int,
}

/// The commands of an optional one.
pub open spec fn opt_commands(c: Option<Command>) -> Seq<Command> {
    match c {
        Some(c) => seq![c],
        None => Seq::empty(),
    }
}

/// One step of the event loop: the next state and the commands to send, in order.
pub open spec fn bridge_step(s: BridgeView, e: EventView) -> (BridgeView, Seq<Command>) {
    match e {
        EventView::RemoteStatus(m) => (
            BridgeView { note_input_active: status_update(s.note_input_active, m), ..s },
            Seq::empty(),
        ),
        EventView::RemoteSelectionChanged(_) => (s, Seq::empty()),
        EventView::DeviceKey(k, d) => (s, key_commands(k, d)),
        EventView::DeviceJog(_, delta) => {
            let step = jog_step(s.jog, delta, s.note_input_active);
            (BridgeView { jog: step.0, ..s }, opt_commands(step.1))
        },
    }
}

/// The texts of the messages that carry `cmds` under `token`.
pub open spec fn command_texts(cmds: Seq<Command>, token: Seq<char>) -> Seq<Seq<char>> {
    cmds.map_values(|c: Command| command_text(c.spec_name(), token))
}

/// The single consumer of inbound events.
pub struct Bridge {
    token: String,
    context: Context,
    jog: JogIntegrator,
}

impl View for Bridge {
    type V = BridgeView;

    closed spec fn view(&self) -> BridgeView {
        BridgeView {
            token: self.token@,
            note_input_active: self.context.note_input_active,
            jog: self.jog.spec_value(),
        }
    }
}

impl Bridge {
    pub closed spec fn wf(&self) -> bool {
        self.jog.wf()
    }

    /// A bridge for an established session, with the default context.
    pub fn new(session_token: String) -> (r: Bridge)
        ensures
            r.wf(),
            r@ == (BridgeView { token: session_token@, note_input_active: false, jog: 0 }),
    {
        Bridge { token: session_token, context: Context::new(), jog: JogIntegrator::new() }
    }

    pub fn context(&self) -> (r: Context)
        ensures
            r.note_input_active == self@.note_input_active,
    {
        self.context
    }

    pub fn jog_value(&self) -> (r: i32)
        requires
            self.wf(),
        ensures
            r as int == self@.jog,
    {
        self.jog.value()
    }

    /// Takes one event and returns the commands it asks for, in order.
    pub fn decide(&mut self, event: &InboundEvent) -> (r: Vec<Command>)
        requires
            old(self).wf(),
            event.wf(),
        ensures
            final(self).wf(),
            (final(self)@, r@) == bridge_step(old(self)@, event@),
    {
        match event {
            InboundEvent::RemoteStatus(o) => {
                self.context.apply_status(o);
                Vec::new()
            },
            InboundEvent::RemoteSelectionChanged(_) => Vec::new(),
            InboundEvent::DeviceKey(k, d) => route_key(*k, *d),
            InboundEvent::DeviceJog(_, delta) => {
                let mut r: Vec<Command> = Vec::new();
                match self.jog.feed(*delta, self.context.note_input_active) {
                    Some(c) => r.push(c),
                    None => {},
                }
                proof {
                    assert(r@ =~= opt_commands(jog_step(old(self)@.jog, *delta as int, old(self)@.note_input_active).1));
                }
                r
            },
        }
    }

    /// Takes one event and returns the texts of the messages to send, in order.
    pub fn handle(&mut self, event: &InboundEvent) -> (r: Vec<String>)
        requires
            old(self).wf(),
            event.wf(),
        ensures
            final(self).wf(),
            final(self)@ == bridge_step(old(self)@, event@).0,
            r@.map_values(|s: String| s@) == command_texts(
                bridge_step(old(self)@, event@).1,
                old(self)@.token,
            ),
    {
        let cmds = self.decide(event);
        let mut r: Vec<String> = Vec::new();
        let n = cmds.len();
        let mut i: usize = 0;
        while i < n
            invariant
                n == cmds.len(),
                0 <= i <= n,
                r.len() == i,
                forall|j: int|
                    0 <= j < i ==> (#[trigger] r@[j])@ == command_text(
                        cmds@[j].spec_name(),
                        self.token@,
                    ),
            decreases n - i,
        {
            r.push(dorico_command(cmds[i].name(), self.token.as_str()));
            i += 1;
        }
        proof {
            assert(r@.map_values(|s: String| s@) =~= command_texts(cmds@, self.token@));
        }
        r
    }
}

/// A status push changes only the context: the accumulated jog motion is kept
/// as it was, and the next jog step is checked against the threshold of the
/// new context.
pub proof fn lemma_status_keeps_jog(
    s: BridgeView,
    status: Map<Seq<char>, MemberView>,
    mode: u8,
    delta: int,
)
    ensures
        bridge_step(s, EventView::RemoteStatus(status)).0.jog == s.jog,
        bridge_step(s, EventView::RemoteStatus(status)).1.len() == 0,
        ({
            let s1 = bridge_step(s, EventView::RemoteStatus(status)).0;
            let step = jog_step(s.jog, delta, status_update(s.note_input_active, status));
            bridge_step(s1, EventView::DeviceJog(mode, delta)) == (
            BridgeView { jog: step.0, ..s1 },
            opt_commands(step.1),
            )
        }),
{
}

/// The commands for a key edge depend on the key, the edge and the context
/// alone, never on what came before; routing a key changes no state.
pub proof fn lemma_key_routing_is_pure(s1: BridgeView, s2: BridgeView, key: Key, is_down: bool)
    requires
        s1.note_input_active == s2.note_input_active,
    ensures
        bridge_step(s1, EventView::DeviceKey(key, is_down)).1 == bridge_step(
            s2,
            EventView::DeviceKey(key, is_down),
        ).1,
        bridge_step(s1, EventView::DeviceKey(key, is_down)).1 == key_commands(key, is_down),
        bridge_step(s1, EventView::DeviceKey(key, is_down)).0 == s1,
{
}

} // verus!
