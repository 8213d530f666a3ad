//! Push events of the control API, and the keys under which they are subscribed to.

use crate::json::{field, has, holds, json_items, json_text, FromJson};
use crate::text::{
    chars_of, has_prefix, push_sanitized, replace_char, spells, starts_with, string_of,
    strip_leading,
};
use vstd::prelude::*;
use vstd::string::StringExecFns;

verus! {

/// What happened to the resource that a push event is about.
#[derive(Debug, Clone, Copy, PartialEq, Eq, Structural)]
pub enum EventType {
    Create,
    Update,
    Delete,
}

impl EventType {
    /// The variant that the client writes as `name`; `None` where it writes none so.
    pub open spec fn known(name: Seq<char>) -> Option<EventType> {
        if name == "Create"@ {
            Some(EventType::Create)
        } else if name == "Update"@ {
            Some(EventType::Update)
        } else if name == "Delete"@ {
            Some(EventType::Delete)
        } else {
            None
        }
    }

    /// What `name()` returns.
    pub open spec fn label(self) -> Seq<char> {
        match self {
            EventType::Create => "Create"@,
            EventType::Update => "Update"@,
            EventType::Delete => "Delete"@,
        }
    }

    /// Looks `name` up in the vocabulary.
    pub fn lookup(name: &str) -> (r: Option<EventType>)
        ensures
            r == Self::known(name@),
    {
        let chars = chars_of(name);
        if spells(&chars, "Create") {
            Some(EventType::Create)
        } else if spells(&chars, "Update") {
            Some(EventType::Update)
        } else if spells(&chars, "Delete") {
            Some(EventType::Delete)
        } else {
            None
        }
    }

    /// The variant's name.
    pub fn name(&self) -> (r: &'static str)
        ensures
            r@ == self.label(),
    {
        match self {
            EventType::Create => "Create",
            EventType::Update => "Update",
            EventType::Delete => "Delete",
        }
    }
}

/// A string of the vocabulary, and no other.
impl FromJson for EventType {
    open spec fn fits(v: serde_json::Value) -> bool {
        json_text(v) matches Some(name) && Self::known(name) is Some
    }

    open spec fn read_from(self, v: serde_json::Value) -> bool {
        json_text(v) matches Some(name) && Self::known(name) == Some(self)
    }

    fn decode(v: &serde_json::Value) -> (r: Option<EventType>) {
        Self::lookup(v.as_str()?)
    }
}

/// What to subscribe to on the websocket.
///
/// A path names a resource of the control API, such as `/lol-gameflow/v1/gameflow-phase`.
#[derive(Debug, Clone, PartialEq, Eq)]
pub enum LcuSubscriptionType {
    /// Every event of the JSON API.
    AllJsonApiEvents,
    /// Every event of the LCDS bridge. On the wire this key is written like
    /// `AllJsonApiEvents`.
    AllLcdsEvents,
    /// The events of one resource of the JSON API.
    JsonApiEvent(String),
    /// The events of one resource of the LCDS bridge.
    LcdsEvent(String),
}

/// An `LcuSubscriptionType` with its path as a sequence of characters.
pub enum LcuSubscriptionView {
    AllJsonApiEvents,
    AllLcdsEvents,
    JsonApiEvent(Seq<char>),
    LcdsEvent(Seq<char>),
}

impl View for LcuSubscriptionType {
    type V = LcuSubscriptionView;

    open spec fn view(&self) -> LcuSubscriptionView {
        match self {
            LcuSubscriptionType::AllJsonApiEvents => LcuSubscriptionView::AllJsonApiEvents,
            LcuSubscriptionType::AllLcdsEvents => LcuSubscriptionView::AllLcdsEvents,
            LcuSubscriptionType::JsonApiEvent(path) => LcuSubscriptionView::JsonApiEvent(path@),
            LcuSubscriptionType::LcdsEvent(path) => LcuSubscriptionView::LcdsEvent(path@),
        }
    }
}

/// A path as it stands in a wire string: without leading slashes, and with every other slash
/// written as an underscore.
pub open spec fn sanitized(path: Seq<char>) -> Seq<char> {
    replace_char(strip_leading(path, '/'), '/', '_')
}

/// What follows a marker of `marker_len` characters in `wire`: nothing where `wire` ends with
/// the marker, else the text behind the one character that parts the two.
pub open spec fn wire_suffix(wire: Seq<char>, marker_len: int) -> Option<Seq<char>> {
    if wire.len() > marker_len {
        Some(wire.subrange(marker_len + 1, wire.len() as int))
    } else {
        None
    }
}

impl LcuSubscriptionView {
    /// The wire string of a key: the event bus's marker, and for a path an underscore and the
    /// sanitized path. Both keys without a path are written `OnJsonApiEvent`.
    pub open spec fn wire(self) -> Seq<char> {
        match self {
            LcuSubscriptionView::AllJsonApiEvents => "OnJsonApiEvent"@,
            LcuSubscriptionView::AllLcdsEvents => "OnJsonApiEvent"@,
            LcuSubscriptionView::JsonApiEvent(path) => "OnJsonApiEvent_"@ + sanitized(path),
            LcuSubscriptionView::LcdsEvent(path) => "OnLcdsEvent_"@ + sanitized(path),
        }
    }

    /// The key that a wire string stands for; `None` where it begins with neither marker.
    ///
    /// The marker `OnJsonApiEvent` is tried first, then `OnLcdsEvent`, the same marker that
    /// `wire` writes. A marker alone is the key for all events of its bus.
    pub open spec fn parsed(wire: Seq<char>) -> Option<LcuSubscriptionView> {
        if has_prefix(wire, "OnJsonApiEvent"@) {
            Some(
                match wire_suffix(wire, 14) {
                    Some(path) => LcuSubscriptionView::JsonApiEvent(path),
                    None => LcuSubscriptionView::AllJsonApiEvents,
                },
            )
        } else if has_prefix(wire, "OnLcdsEvent"@) {
            Some(
                match wire_suffix(wire, 11) {
                    Some(path) => LcuSubscriptionView::LcdsEvent(path),
                    None => LcuSubscriptionView::AllLcdsEvents,
                },
            )
        } else {
            None
        }
    }
}

impl LcuSubscriptionType {
    /// The string that names this key on the wire, in subscribe and unsubscribe requests.
    pub fn to_wire(&self) -> (r: String)
        ensures
            r@ == self@.wire(),
    {
        match self {
            LcuSubscriptionType::AllJsonApiEvents => String::from_str("OnJsonApiEvent"),
            LcuSubscriptionType::AllLcdsEvents => String::from_str("OnJsonApiEvent"),
            LcuSubscriptionType::JsonApiEvent(path) => {
                let mut out = String::from_str("OnJsonApiEvent_");
                push_sanitized(&mut out, &chars_of(path.as_str()), '/', '/', '_');
                out
            },
            LcuSubscriptionType::LcdsEvent(path) => {
                let mut out = String::from_str("OnLcdsEvent_");
                push_sanitized(&mut out, &chars_of(path.as_str()), '/', '/', '_');
                out
            },
        }
    }

    /// Reads a key from its wire string; `None` where the string begins with neither marker.
    pub fn from_wire(wire: &str) -> (r: Option<LcuSubscriptionType>)
        ensures
            r is Some <==> LcuSubscriptionView::parsed(wire@) is Some,
            r matches Some(key) ==> LcuSubscriptionView::parsed(wire@) == Some(key@),
    {
        let chars = chars_of(wire);
        if starts_with(&chars, "OnJsonApiEvent") {
            if chars.len() > 14 {
                Some(LcuSubscriptionType::JsonApiEvent(string_of(&chars, 15, chars.len())))
            } else {
                Some(LcuSubscriptionType::AllJsonApiEvents)
            }
        } else if starts_with(&chars, "OnLcdsEvent") {
            if chars.len() > 11 {
                Some(LcuSubscriptionType::LcdsEvent(string_of(&chars, 12, chars.len())))
            } else {
                Some(LcuSubscriptionType::AllLcdsEvents)
            }
        } else {
            None
        }
    }
}

/// What a push event says of its resource.
#[derive(Debug, Clone, PartialEq, Eq)]
pub struct LcuEventData {
    /// The resource's new state, a JSON document that is handed on as it came.
    pub data: serde_json::Value,
    pub event_type: EventType,
    /// The path of the resource.
    pub uri: String,
}

/// An object with the members `data`, `eventType` and `uri`.
impl FromJson for LcuEventData {
    open spec fn fits(v: serde_json::Value) -> bool {
        &&& has::<serde_json::Value>(v, "data"@)
        &&& has::<EventType>(v, "eventType"@)
        &&& has::<String>(v, "uri"@)
    }

    open spec fn read_from(self, v: serde_json::Value) -> bool {
        &&& holds(self.data, v, "data"@)
        &&& holds(self.event_type, v, "eventType"@)
        &&& holds(self.uri, v, "uri"@)
    }

    fn decode(v: &serde_json::Value) -> (r: Option<LcuEventData>) {
        let data = field::<serde_json::Value>(v, "data")?;
        let event_type = field::<EventType>(v, "eventType")?;
        let uri = field::<String>(v, "uri")?;
        Some(LcuEventData { data, event_type, uri })
    }
}

/// The wire string of a subscription key.
impl FromJson for LcuSubscriptionType {
    open spec fn fits(v: serde_json::Value) -> bool {
        json_text(v) matches Some(wire) && LcuSubscriptionView::parsed(wire) is Some
    }

    open spec fn read_from(self, v: serde_json::Value) -> bool {
        json_text(v) matches Some(wire) && LcuSubscriptionView::parsed(wire) == Some(self@)
    }

    fn decode(v: &serde_json::Value) -> (r: Option<LcuSubscriptionType>) {
        LcuSubscriptionType::from_wire(v.as_str()?)
    }
}

/// One push event of the websocket: the frame `[opcode, key, payload]`.
#[derive(Debug, Clone, PartialEq, Eq)]
pub struct LcuEvent {
    /// The frame's opcode.
    pub opcode: u8,
    /// The subscription under which the event was sent.
    pub subscription_type: LcuSubscriptionType,
    pub payload: LcuEventData,
}

/// An array of exactly three items: an opcode from 0 to 255, the wire string of a
/// subscription key, and a payload.
impl FromJson for LcuEvent {
    open spec fn fits(v: serde_json::Value) -> bool {
        json_items(v) matches Some(items) && {
            &&& items.len() == 3
            &&& u8::fits(items[0])
            &&& LcuSubscriptionType::fits(items[1])
            &&& LcuEventData::fits(items[2])
        }
    }

    open spec fn read_from(self, v: serde_json::Value) -> bool {
        json_items(v) matches Some(items) && {
            &&& items.len() == 3
            &&& self.opcode.read_from(items[0])
            &&& self.subscription_type.read_from(items[1])
            &&& self.payload.read_from(items[2])
        }
    }

    fn decode(v: &serde_json::Value) -> (r: Option<LcuEvent>) {
        let items = v.as_array()?;
        if items.len() != 3 {
            return None;
        }
        let opcode = u8::decode(&items[0])?;
        let subscription_type = LcuSubscriptionType::decode(&items[1])?;
        let payload = LcuEventData::decode(&items[2])?;
        Some(LcuEvent { opcode, subscription_type, payload })
    }
}

/// A sanitized path holds no slash.
pub proof fn lemma_sanitized_has_no_slash(path: Seq<char>)
    ensures
        forall|i: int| 0 <= i < sanitized(path).len() ==> sanitized(path)[i] != '/',
{
}

/// Sanitizing changes nothing in a path without slashes; so sanitizing twice is sanitizing
/// once.
pub proof fn lemma_sanitized_is_stable(path: Seq<char>)
    ensures
        (forall|i: int| 0 <= i < path.len() ==> path[i] != '/') ==> sanitized(path) == path,
        sanitized(sanitized(path)) == sanitized(path),
{
    if forall|i: int| 0 <= i < path.len() ==> path[i] != '/' {
        assert(strip_leading(path, '/') =~= path);
        assert(sanitized(path) =~= path);
    }
    let once = sanitized(path);
    lemma_sanitized_has_no_slash(path);
    assert(strip_leading(once, '/') =~= once);
    assert(sanitized(once) =~= once);
}

/// Every key can be read back from its wire string, and what is read back asks for the same
/// subscription: it has the same wire string.
pub proof fn lemma_wire_round_trip(key: LcuSubscriptionView)
    ensures
        LcuSubscriptionView::parsed(key.wire()) is Some,
        LcuSubscriptionView::parsed(key.wire())->0.wire() == key.wire(),
{
    reveal_strlit("OnJsonApiEvent");
    reveal_strlit("OnJsonApiEvent_");
    reveal_strlit("OnLcdsEvent");
    reveal_strlit("OnLcdsEvent_");
    let wire = key.wire();
    match key {
        LcuSubscriptionView::AllJsonApiEvents | LcuSubscriptionView::AllLcdsEvents => {
            assert(wire.subrange(0, 14) =~= wire);
        },
        LcuSubscriptionView::JsonApiEvent(path) => {
            let clean = sanitized(path);
            lemma_sanitized_is_stable(path);
            assert(wire.subrange(0, 14) =~= "OnJsonApiEvent"@);
            assert(wire.subrange(15, wire.len() as int) =~= clean);
        },
        LcuSubscriptionView::LcdsEvent(path) => {
            let clean = sanitized(path);
            lemma_sanitized_is_stable(path);
            if wire.len() >= 14 {
                assert(wire.subrange(0, 14)[2] == 'L');
            }
            assert(wire.subrange(0, 11) =~= "OnLcdsEvent"@);
            assert(wire.subrange(12, wire.len() as int) =~= clean);
        },
    }
}

/// A key with a path that is already sanitized is read back exactly from its wire string.
pub proof fn lemma_sanitized_key_round_trip(key: LcuSubscriptionView)
    requires
        match key {
            LcuSubscriptionView::JsonApiEvent(path) => sanitized(path) == path,
            LcuSubscriptionView::LcdsEvent(path) => sanitized(path) == path,
            _ => false,
        },
    ensures
        LcuSubscriptionView::parsed(key.wire()) == Some(key),
{
    reveal_strlit("OnJsonApiEvent");
    reveal_strlit("OnJsonApiEvent_");
    reveal_strlit("OnLcdsEvent");
    reveal_strlit("OnLcdsEvent_");
    let wire = key.wire();
    match key {
        LcuSubscriptionView::JsonApiEvent(path) => {
            assert(wire.subrange(0, 14) =~= "OnJsonApiEvent"@);
            assert(wire.subrange(15, wire.len() as int) =~= path);
        },
        LcuSubscriptionView::LcdsEvent(path) => {
            if wire.len() >= 14 {
                assert(wire.subrange(0, 14)[2] == 'L');
            }
            assert(wire.subrange(0, 11) =~= "OnLcdsEvent"@);
            assert(wire.subrange(12, wire.len() as int) =~= path);
        },
        _ => {},
    }
}

/// Both keys without a path are read back as `AllJsonApiEvents`: their wire strings are the
/// same.
pub proof fn lemma_keys_without_path_collapse()
    ensures
        LcuSubscriptionView::parsed(LcuSubscriptionView::AllJsonApiEvents.wire()) == Some(
            LcuSubscriptionView::AllJsonApiEvents,
        ),
        LcuSubscriptionView::parsed(LcuSubscriptionView::AllLcdsEvents.wire()) == Some(
            LcuSubscriptionView::AllJsonApiEvents,
        ),
{
    reveal_strlit("OnJsonApiEvent");
    let wire = "OnJsonApiEvent"@;
    assert(wire.subrange(0, 14) =~= wire);
}

} // verus!
