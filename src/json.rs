//! Decoded remote messages: the members of a JSON object, as far as the
//! protocol logic reads them.
use vstd::prelude::*;
use vstd::string::StringExecFns;

verus! {

/// The value of one member of a decoded object.
#[derive(Debug)]
pub enum Member {
    Str(String),
    Bool(bool),
    /// A number, null, array or object: the logic reads none of these.
    Other,
}

/// What a member holds, as mathematical values.
pub enum MemberView {
    Str(Seq<char>),
    Bool(bool),
    Other,
}

impl View for Member {
    type V = MemberView;

    open spec fn view(&self) -> MemberView {
        match self {
            Member::Str(s) => MemberView::Str(s@),
            Member::Bool(b) => MemberView::Bool(*b),
            Member::Other => MemberView::Other,
        }
    }
}

/// No two entries share a key.
pub open spec fn distinct_keys(s: Seq<(String, Member)>) -> bool {
    forall|i: int, j: int|
        0 <= i < s.len() && 0 <= j < s.len() && i != j ==> #[trigger] s[i].0@ != #[trigger] s[j].0@
}

/// The entries as a map from key to value.
pub open spec fn members_map(s: Seq<(String, Member)>) -> Map<Seq<char>, MemberView> {
    Map::new(
        |k: Seq<char>| exists|i: int| 0 <= i < s.len() && #[trigger] s[i].0@ == k,
        |k: Seq<char>| s[choose|i: int| 0 <= i < s.len() && #[trigger] s[i].0@ == k].1@,
    )
}

/// The members of the JSON object that `text` encodes; `None` where `text`
/// is not valid JSON or encodes something other than an object.
pub uninterp spec fn json_object(text: Seq<char>) -> Option<Map<Seq<char>, MemberView>>;

/// Relies on tinyjson's `FromStr` for `JsonValue` to parse the text, and on its
/// `TryFrom<JsonValue>` for `HashMap<String, JsonValue>` to accept objects only.
/// The keys of that map are distinct; each value is carried over by its variant.
#[verifier::external_body]
fn decode_object(text: &str) -> (r: Option<Vec<(String, Member)>>)
    ensures
        match r {
            None => json_object(text@) is None,
            Some(v) => distinct_keys(v@) && json_object(text@) == Some(members_map(v@)),
        },
{
    let value: tinyjson::JsonValue = text.parse().ok()?;
    let object: std::collections::HashMap<String, tinyjson::JsonValue> = value.try_into().ok()?;
    Some(object.into_iter().map(|(k, v)| (k, match v {
        tinyjson::JsonValue::String(s) => Member::Str(s),
        tinyjson::JsonValue::Boolean(b) => Member::Bool(b),
        _ => Member::Other,
    })).collect())
}

/// A decoded JSON object.
#[derive(Debug)]
pub struct Object {
    members: Vec<(String, Member)>,
}

impl View for Object {
    type V = Map<Seq<char>, MemberView>;

    closed spec fn view(&self) -> Map<Seq<char>, MemberView> {
        members_map(self.members@)
    }
}

impl Object {
    pub closed spec fn wf(&self) -> bool {
        distinct_keys(self.members@)
    }

    /// Decodes `text` as a JSON object.
    pub fn parse(text: &str) -> (r: Option<Object>)
        ensures
            match r {
                None => json_object(text@) is None,
                Some(o) => o.wf() && json_object(text@) == Some(o@),
            },
    {
        match decode_object(text) {
            None => None,
            Some(members) => Some(Object { members }),
        }
    }

    /// The member under `key`, if any.
    pub fn get(&self, key: &str) -> (r: Option<&Member>)
        requires
            self.wf(),
        ensures
            match r {
                None => !self@.contains_key(key@),
                Some(m) => self@.contains_key(key@) && self@[key@] == m@,
            },
    {
        let wanted = String::from_str(key);
        let n = self.members.len();
        let mut i: usize = 0;
        while i < n
            invariant
                n == self.members.len(),
                wanted@ == key@,
                self.wf(),
                0 <= i <= n,
                forall|j: int| 0 <= j < i ==> #[trigger] self.members@[j].0@ != key@,
            decreases n - i,
        {
            if self.members[i].0 == wanted {
                let r = &self.members[i].1;
                proof {
                    let s = self.members@;
                    let j = choose|j: int| 0 <= j < s.len() && #[trigger] s[j].0@ == key@;
                    assert(s[i as int].0@ == key@);
                    assert(j == i);
                }
                return Some(r);
            }
            i += 1;
        }
        None
    }
}

} // verus!
