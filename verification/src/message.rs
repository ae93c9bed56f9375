//! Recipient tokens and notification messages, with their wire form.

use crate::error::DecodeError;
use crate::json::{
    array_value, get_text, json_of, json_seq, json_text, number_value, object_value, parse,
    parsed_json, print, push_member, text_value, with_member, Json, JsonNumber,
};
use crate::text::{ends_with, same_text, starts_with};
use serde_json::Value;
use vstd::prelude::*;
use vstd::string::StringSliceAdditionalSpecFns;

verus! {

/// Whether a text has the form of a push token: it starts with
/// `ExponentPushToken[` or `ExpoPushToken[` and ends with `]`. What stands
/// between the brackets is not looked at.
pub open spec fn is_push_token(s: Seq<char>) -> bool {
    ("ExponentPushToken["@.is_prefix_of(s) || "ExpoPushToken["@.is_prefix_of(s)) && "]"@.is_suffix_of(
        s,
    )
}

/// Both prefixes followed by any content and a closing bracket are push tokens.
pub proof fn lemma_bracketed_is_push_token(content: Seq<char>)
    ensures
        is_push_token("ExpoPushToken["@ + content + "]"@),
        is_push_token("ExponentPushToken["@ + content + "]"@),
{
    let short = "ExpoPushToken["@;
    let long = "ExponentPushToken["@;
    let close = "]"@;
    assert((short + content + close).subrange(0, short.len() as int) =~= short);
    assert((long + content + close).subrange(0, long.len() as int) =~= long);
    assert((short + content + close).subrange(
        (short + content + close).len() - close.len(),
        (short + content + close).len() as int,
    ) =~= close);
    assert((long + content + close).subrange(
        (long + content + close).len() - close.len(),
        (long + content + close).len() as int,
    ) =~= close);
}

/// A text that lacks both prefixes, or the closing bracket, is no push token.
pub proof fn lemma_unbracketed_is_no_push_token(s: Seq<char>)
    requires
        (!"ExponentPushToken["@.is_prefix_of(s) && !"ExpoPushToken["@.is_prefix_of(s)) || !"]"@.is_suffix_of(
            s,
        ),
    ensures
        !is_push_token(s),
{
}

/// A push token is one of the two prefixes, some content and a closing bracket.
pub proof fn lemma_push_token_is_bracketed(s: Seq<char>)
    requires
        is_push_token(s),
    ensures
        exists|content: Seq<char>|
            s == "ExpoPushToken["@ + content + "]"@ || s == "ExponentPushToken["@ + content + "]"@,
{
    reveal_strlit("ExpoPushToken[");
    reveal_strlit("ExponentPushToken[");
    reveal_strlit("]");
    let close = "]"@;
    let prefix = if "ExpoPushToken["@.is_prefix_of(s) {
        "ExpoPushToken["@
    } else {
        "ExponentPushToken["@
    };
    assert(prefix.is_prefix_of(s));
    assert(s[s.len() - 1] == close[0]);
    assert(prefix[prefix.len() - 1] == '[');
    assert(s.subrange(0, prefix.len() as int)[prefix.len() - 1] == s[prefix.len() - 1]);
    assert(s.len() > prefix.len());
    let content = s.subrange(prefix.len() as int, s.len() - 1);
    assert(s =~= prefix + content + close);
}

/// A recipient of push notifications, of the form `ExpoPushToken[xxx]` or
/// `ExponentPushToken[xxx]`.
#[derive(Debug, PartialEq, Eq)]
pub struct PushToken(String);

/// The refusal of a text that is no push token. It holds the text.
#[derive(Debug, PartialEq, Eq)]
pub struct PushTokenParseError(String);

impl View for PushToken {
    type V = Seq<char>;

    closed spec fn view(&self) -> Seq<char> {
        self.0@
    }
}

impl View for PushTokenParseError {
    type V = Seq<char>;

    closed spec fn view(&self) -> Seq<char> {
        self.0@
    }
}

impl PushToken {
    #[verifier::type_invariant]
    spec fn well_formed(self) -> bool {
        is_push_token(self.0@)
    }

    /// The token's text.
    pub fn as_str(&self) -> (s: &str)
        ensures
            s@ == self@,
            is_push_token(s@),
    {
        proof {
            use_type_invariant(self);
        }
        self.0.as_str()
    }
}

impl Clone for PushToken {
    fn clone(&self) -> (res: Self)
        ensures
            res@ == self@,
    {
        proof {
            use_type_invariant(self);
        }
        PushToken(self.0.clone())
    }
}

impl vstd::std_specs::convert::TryFromSpecImpl<String> for PushToken {
    open spec fn obeys_try_from_spec() -> bool {
        true
    }

    closed spec fn try_from_spec(s: String) -> Result<Self, Self::Error> {
        if is_push_token(s@) {
            Ok(PushToken(s))
        } else {
            Err(PushTokenParseError(s))
        }
    }
}

impl TryFrom<String> for PushToken {
    type Error = PushTokenParseError;

    /// Accepts a text exactly when it has the form of a push token, and
    /// otherwise hands it back in the error.
    fn try_from(s: String) -> (res: Result<Self, Self::Error>)
        ensures
            match res {
                Ok(token) => is_push_token(s@) && token@ == s@,
                Err(refused) => !is_push_token(s@) && refused@ == s@,
            },
    {
        if (starts_with(s.as_str(), "ExponentPushToken[") || starts_with(
            s.as_str(),
            "ExpoPushToken[",
        )) && ends_with(s.as_str(), "]") {
            Ok(PushToken(s))
        } else {
            Err(PushTokenParseError(s))
        }
    }
}

impl PushTokenParseError {
    /// The text that was refused.
    pub fn input(&self) -> (s: &str)
        ensures
            s@ == self@,
    {
        self.0.as_str()
    }

    /// What went wrong, in words, with the refused text at the end.
    pub fn message(&self) -> (text: String)
        ensures
            text@ == "expect format `ExpoPushToken[xxx]` or `ExponentPushToken[xxx]` but given "@
                + self@,
    {
        String::from_str(
            "expect format `ExpoPushToken[xxx]` or `ExponentPushToken[xxx]` but given ",
        ).concat(self.0.as_str())
    }
}

/// The delivery priority of a message. `Default` stands for the default of
/// each platform, which is `Normal` on Android and `High` on iOS.
#[derive(Debug, Clone, Copy, PartialEq, Eq, Structural)]
pub enum Priority {
    Default,
    Normal,
    High,
}

impl Priority {
    /// The name of the priority on the wire.
    pub open spec fn name(self) -> Seq<char> {
        match self {
            Priority::Default => "default"@,
            Priority::Normal => "normal"@,
            Priority::High => "high"@,
        }
    }

    /// The priority that a name stands for, if any.
    pub open spec fn named(name: Seq<char>) -> Option<Priority> {
        if name == "default"@ {
            Some(Priority::Default)
        } else if name == "normal"@ {
            Some(Priority::Normal)
        } else if name == "high"@ {
            Some(Priority::High)
        } else {
            None
        }
    }

    /// The priority that a JSON text stands for: a string that holds a name.
    pub open spec fn parsed(doc: Option<Json>) -> Result<Priority, DecodeError> {
        match doc {
            Some(Json::Text(name)) => match Priority::named(name) {
                Some(priority) => Ok(priority),
                None => Err(DecodeError::UnknownName),
            },
            Some(_) => Err(DecodeError::UnknownName),
            None => Err(DecodeError::InvalidJson),
        }
    }

    /// The name of the priority on the wire.
    pub fn as_str(&self) -> (name: &'static str)
        ensures
            name@ == self.name(),
    {
        match self {
            Priority::Default => "default",
            Priority::Normal => "normal",
            Priority::High => "high",
        }
    }

    /// Reads a priority from its name.
    pub fn from_name(name: &str) -> (res: Option<Priority>)
        ensures
            res == Priority::named(name@),
    {
        if same_text(name, "default") {
            Some(Priority::Default)
        } else if same_text(name, "normal") {
            Some(Priority::Normal)
        } else if same_text(name, "high") {
            Some(Priority::High)
        } else {
            None
        }
    }

    /// Reads a priority from a JSON value: a string that holds a name.
    pub fn from_json(v: &Value) -> (res: Result<Priority, DecodeError>)
        ensures
            res == Priority::parsed(Some(json_of(*v))),
    {
        match get_text(v) {
            Some(name) => match Priority::from_name(name) {
                Some(priority) => Ok(priority),
                None => Err(DecodeError::UnknownName),
            },
            None => Err(DecodeError::UnknownName),
        }
    }
}

impl Default for Priority {
    fn default() -> (priority: Self)
        ensures
            priority == Priority::Default,
    {
        Priority::Default
    }
}

impl std::str::FromStr for Priority {
    type Err = DecodeError;

    /// Reads a priority from a JSON text such as `"high"`, quotes included.
    fn from_str(s: &str) -> (res: Result<Priority, DecodeError>)
        ensures
            res == Priority::parsed(parsed_json(s.spec_bytes())),
    {
        match parse(s.as_bytes()) {
            Ok(v) => Priority::from_json(&v),
            Err(_) => Err(DecodeError::InvalidJson),
        }
    }
}

/// The sound to play when the recipient receives a notification. A message
/// without a sound plays none.
#[derive(Debug, Clone, Copy, PartialEq, Eq, Structural)]
pub enum Sound {
    Default,
}

impl Sound {
    /// The name of the sound on the wire.
    pub open spec fn name(self) -> Seq<char> {
        "default"@
    }

    /// The sound that a name stands for, if any.
    pub open spec fn named(name: Seq<char>) -> Option<Sound> {
        if name == "default"@ {
            Some(Sound::Default)
        } else {
            None
        }
    }

    /// The sound that a JSON text stands for: a string that holds a name.
    pub open spec fn parsed(doc: Option<Json>) -> Result<Sound, DecodeError> {
        match doc {
            Some(Json::Text(name)) => match Sound::named(name) {
                Some(sound) => Ok(sound),
                None => Err(DecodeError::UnknownName),
            },
            Some(_) => Err(DecodeError::UnknownName),
            None => Err(DecodeError::InvalidJson),
        }
    }

    /// The name of the sound on the wire.
    pub fn as_str(&self) -> (name: &'static str)
        ensures
            name@ == self.name(),
    {
        "default"
    }

    /// Reads a sound from its name.
    pub fn from_name(name: &str) -> (res: Option<Sound>)
        ensures
            res == Sound::named(name@),
    {
        if same_text(name, "default") {
            Some(Sound::Default)
        } else {
            None
        }
    }

    /// Reads a sound from a JSON value: a string that holds a name.
    pub fn from_json(v: &Value) -> (res: Result<Sound, DecodeError>)
        ensures
            res == Sound::parsed(Some(json_of(*v))),
    {
        match get_text(v) {
            Some(name) => match Sound::from_name(name) {
                Some(sound) => Ok(sound),
                None => Err(DecodeError::UnknownName),
            },
            None => Err(DecodeError::UnknownName),
        }
    }
}

impl Default for Sound {
    fn default() -> (sound: Self)
        ensures
            sound == Sound::Default,
    {
        Sound::Default
    }
}

impl std::str::FromStr for Sound {
    type Err = DecodeError;

    /// Reads a sound from a JSON text such as `"default"`, quotes included.
    fn from_str(s: &str) -> (res: Result<Sound, DecodeError>)
        ensures
            res == Sound::parsed(parsed_json(s.spec_bytes())),
    {
        match parse(s.as_bytes()) {
            Ok(v) => Sound::from_json(&v),
            Err(_) => Err(DecodeError::InvalidJson),
        }
    }
}

/// One notification. Only the recipient is required; a field that is `None`
/// does not appear on the wire.
#[derive(Debug, PartialEq)]
pub struct PushMessage {
    pub to: PushToken,
    /// Any JSON document, handed to the app that receives the notification.
    pub data: Option<Value>,
    pub title: Option<String>,
    pub body: Option<String>,
    pub sound: Option<Sound>,
    /// The time to live, in seconds.
    pub ttl: Option<u32>,
    /// The time at which the message expires, in seconds since the epoch.
    pub expiration: Option<u32>,
    pub priority: Option<Priority>,
    /// The number to show on the app's icon.
    pub badge: Option<u32>,
}

/// What a message holds.
pub struct PushMessageView {
    pub to: Seq<char>,
    pub data: Option<Json>,
    pub title: Option<Seq<char>>,
    pub body: Option<Seq<char>>,
    pub sound: Option<Sound>,
    pub ttl: Option<u32>,
    pub expiration: Option<u32>,
    pub priority: Option<Priority>,
    pub badge: Option<u32>,
}

/// The characters of a string that may be absent.
pub open spec fn text_of(s: Option<String>) -> Option<Seq<char>> {
    match s {
        Some(s) => Some(s@),
        None => None,
    }
}

impl View for PushMessage {
    type V = PushMessageView;

    open spec fn view(&self) -> PushMessageView {
        PushMessageView {
            to: self.to@,
            data: match self.data {
                Some(v) => Some(json_of(v)),
                None => None,
            },
            title: text_of(self.title),
            body: text_of(self.body),
            sound: self.sound,
            ttl: self.ttl,
            expiration: self.expiration,
            priority: self.priority,
            badge: self.badge,
        }
    }
}

/// Copies a string that may be absent.
fn clone_text(s: &Option<String>) -> (res: Option<String>)
    ensures
        text_of(res) == text_of(*s),
{
    match s {
        Some(s) => Some(s.clone()),
        None => None,
    }
}

impl Clone for PushMessage {
    fn clone(&self) -> (res: Self)
        ensures
            res@ == self@,
    {
        PushMessage {
            to: self.to.clone(),
            data: match &self.data {
                Some(data) => Some(data.clone()),
                None => None,
            },
            title: clone_text(&self.title),
            body: clone_text(&self.body),
            sound: self.sound,
            ttl: self.ttl,
            expiration: self.expiration,
            priority: self.priority,
            badge: self.badge,
        }
    }
}

/// The wire form of a text that may be absent.
pub open spec fn text_json(s: Option<Seq<char>>) -> Option<Json> {
    match s {
        Some(s) => Some(Json::Text(s)),
        None => None,
    }
}

/// The wire form of a number that may be absent.
pub open spec fn number_json(n: Option<u32>) -> Option<Json> {
    match n {
        Some(n) => Some(Json::Number(JsonNumber::Integer(n as int))),
        None => None,
    }
}

/// The wire form of a sound that may be absent.
pub open spec fn sound_json(sound: Option<Sound>) -> Option<Json> {
    match sound {
        Some(sound) => Some(Json::Text(sound.name())),
        None => None,
    }
}

/// The wire form of a priority that may be absent.
pub open spec fn priority_json(priority: Option<Priority>) -> Option<Json> {
    match priority {
        Some(priority) => Some(Json::Text(priority.name())),
        None => None,
    }
}

/// The members of a message on the wire: the recipient, and each optional
/// field that is set.
pub open spec fn message_members(m: PushMessageView) -> Map<Seq<char>, Json> {
    let o = with_member(Map::empty(), "to"@, Some(Json::Text(m.to)));
    let o = with_member(o, "data"@, m.data);
    let o = with_member(o, "title"@, text_json(m.title));
    let o = with_member(o, "body"@, text_json(m.body));
    let o = with_member(o, "sound"@, sound_json(m.sound));
    let o = with_member(o, "ttl"@, number_json(m.ttl));
    let o = with_member(o, "expiration"@, number_json(m.expiration));
    let o = with_member(o, "priority"@, priority_json(m.priority));
    with_member(o, "badge"@, number_json(m.badge))
}

/// The wire form of a message: a JSON object.
pub open spec fn message_json(m: PushMessageView) -> Json {
    Json::Object(message_members(m))
}

/// The wire form of a batch: the array of its messages, in their order.
pub open spec fn batch_json(messages: Seq<PushMessage>) -> Json {
    Json::Array(messages.map_values(|m: PushMessage| message_json(m@)))
}

/// Makes the names of the members known as sequences of characters.
proof fn reveal_member_names()
    ensures
        "to"@ == seq!['t', 'o'],
        "data"@ == seq!['d', 'a', 't', 'a'],
        "title"@ == seq!['t', 'i', 't', 'l', 'e'],
        "body"@ == seq!['b', 'o', 'd', 'y'],
        "sound"@ == seq!['s', 'o', 'u', 'n', 'd'],
        "ttl"@ == seq!['t', 't', 'l'],
        "expiration"@ == seq!['e', 'x', 'p', 'i', 'r', 'a', 't', 'i', 'o', 'n'],
        "priority"@ == seq!['p', 'r', 'i', 'o', 'r', 'i', 't', 'y'],
        "badge"@ == seq!['b', 'a', 'd', 'g', 'e'],
{
    reveal_strlit("to");
    reveal_strlit("data");
    reveal_strlit("title");
    reveal_strlit("body");
    reveal_strlit("sound");
    reveal_strlit("ttl");
    reveal_strlit("expiration");
    reveal_strlit("priority");
    reveal_strlit("badge");
    assert("to"@ =~= seq!['t', 'o']);
    assert("data"@ =~= seq!['d', 'a', 't', 'a']);
    assert("title"@ =~= seq!['t', 'i', 't', 'l', 'e']);
    assert("body"@ =~= seq!['b', 'o', 'd', 'y']);
    assert("sound"@ =~= seq!['s', 'o', 'u', 'n', 'd']);
    assert("ttl"@ =~= seq!['t', 't', 'l']);
    assert("expiration"@ =~= seq!['e', 'x', 'p', 'i', 'r', 'a', 't', 'i', 'o', 'n']);
    assert("priority"@ =~= seq!['p', 'r', 'i', 'o', 'r', 'i', 't', 'y']);
    assert("badge"@ =~= seq!['b', 'a', 'd', 'g', 'e']);
}

/// The nine names of the members are pairwise different.
proof fn lemma_member_names_differ()
    ensures
        "to"@ != "data"@ && "to"@ != "title"@ && "to"@ != "body"@ && "to"@ != "sound"@ && "to"@
            != "ttl"@ && "to"@ != "expiration"@ && "to"@ != "priority"@ && "to"@ != "badge"@,
        "data"@ != "title"@ && "data"@ != "body"@ && "data"@ != "sound"@ && "data"@ != "ttl"@
            && "data"@ != "expiration"@ && "data"@ != "priority"@ && "data"@ != "badge"@,
        "title"@ != "body"@ && "title"@ != "sound"@ && "title"@ != "ttl"@ && "title"@
            != "expiration"@ && "title"@ != "priority"@ && "title"@ != "badge"@,
        "body"@ != "sound"@ && "body"@ != "ttl"@ && "body"@ != "expiration"@ && "body"@
            != "priority"@ && "body"@ != "badge"@,
        "sound"@ != "ttl"@ && "sound"@ != "expiration"@ && "sound"@ != "priority"@ && "sound"@
            != "badge"@,
        "ttl"@ != "expiration"@ && "ttl"@ != "priority"@ && "ttl"@ != "badge"@,
        "expiration"@ != "priority"@ && "expiration"@ != "badge"@,
        "priority"@ != "badge"@,
{
    reveal_member_names();
    assert("data"@[0] != "body"@[0]);
    assert("title"@[0] != "sound"@[0]);
    assert("title"@[0] != "badge"@[0]);
    assert("sound"@[0] != "badge"@[0]);
}

/// A message on the wire is an object that holds the recipient under `to`
/// and each optional field exactly where it is set, under its own name, with
/// its value. It holds nothing else: a field that is not set is left out, and
/// is never written as `null`.
pub proof fn lemma_unset_fields_are_omitted(m: PushMessageView)
    ensures
        message_json(m) is Object,
        message_json(m).has_field("to"@) && message_json(m).field("to"@) == Json::Text(m.to),
        message_json(m).has_field("data"@) <==> m.data is Some,
        message_json(m).has_field("title"@) <==> m.title is Some,
        message_json(m).has_field("body"@) <==> m.body is Some,
        message_json(m).has_field("sound"@) <==> m.sound is Some,
        message_json(m).has_field("ttl"@) <==> m.ttl is Some,
        message_json(m).has_field("expiration"@) <==> m.expiration is Some,
        message_json(m).has_field("priority"@) <==> m.priority is Some,
        message_json(m).has_field("badge"@) <==> m.badge is Some,
        m.data is Some ==> message_json(m).field("data"@) == m.data->Some_0,
        m.title is Some ==> message_json(m).field("title"@) == Json::Text(m.title->Some_0),
        m.body is Some ==> message_json(m).field("body"@) == Json::Text(m.body->Some_0),
        m.sound is Some ==> message_json(m).field("sound"@) == Json::Text(m.sound->Some_0.name()),
        m.ttl is Some ==> message_json(m).field("ttl"@) == Json::Number(
            JsonNumber::Integer(m.ttl->Some_0 as int),
        ),
        m.expiration is Some ==> message_json(m).field("expiration"@) == Json::Number(
            JsonNumber::Integer(m.expiration->Some_0 as int),
        ),
        m.priority is Some ==> message_json(m).field("priority"@) == Json::Text(
            m.priority->Some_0.name(),
        ),
        m.badge is Some ==> message_json(m).field("badge"@) == Json::Number(
            JsonNumber::Integer(m.badge->Some_0 as int),
        ),
        forall|name: Seq<char>| #[trigger]
            message_json(m).has_field(name) ==> name == "to"@ || name == "data"@ || name
                == "title"@ || name == "body"@ || name == "sound"@ || name == "ttl"@ || name
                == "expiration"@ || name == "priority"@ || name == "badge"@,
{
    lemma_member_names_differ();
}

/// A message with only a recipient and a body has exactly the members `to`
/// and `body` on the wire.
pub proof fn lemma_recipient_and_body_only(m: PushMessageView)
    requires
        m.body is Some,
        m.data is None,
        m.title is None,
        m.sound is None,
        m.ttl is None,
        m.expiration is None,
        m.priority is None,
        m.badge is None,
    ensures
        message_json(m) == Json::Object(
            map!["to"@ => Json::Text(m.to), "body"@ => Json::Text(m.body->Some_0)],
        ),
{
    assert(message_members(m) =~= map!["to"@ => Json::Text(m.to), "body"@ => Json::Text(m.body->Some_0)]);
}

impl PushMessage {
    /// A message for a recipient, with no optional field set.
    pub fn new(push_token: PushToken) -> (message: PushMessage)
        ensures
            message@ == (PushMessageView {
                to: push_token@,
                data: None,
                title: None,
                body: None,
                sound: None,
                ttl: None,
                expiration: None,
                priority: None,
                badge: None,
            }),
    {
        PushMessage {
            to: push_token,
            data: None,
            title: None,
            body: None,
            sound: None,
            ttl: None,
            expiration: None,
            priority: None,
            badge: None,
        }
    }

    /// Sets the data.
    pub fn data(self, data: Value) -> (message: PushMessage)
        ensures
            message@ == (PushMessageView { data: Some(json_of(data)), ..self@ }),
    {
        let mut message = self;
        message.data = Some(data);
        message
    }

    /// Sets the title.
    pub fn title(self, title: String) -> (message: PushMessage)
        ensures
            message@ == (PushMessageView { title: Some(title@), ..self@ }),
    {
        let mut message = self;
        message.title = Some(title);
        message
    }

    /// Sets the body.
    pub fn body(self, body: String) -> (message: PushMessage)
        ensures
            message@ == (PushMessageView { body: Some(body@), ..self@ }),
    {
        let mut message = self;
        message.body = Some(body);
        message
    }

    /// Sets the sound.
    pub fn sound(self, sound: Sound) -> (message: PushMessage)
        ensures
            message@ == (PushMessageView { sound: Some(sound), ..self@ }),
    {
        let mut message = self;
        message.sound = Some(sound);
        message
    }

    /// Sets the time to live, in seconds.
    pub fn ttl(self, ttl: u32) -> (message: PushMessage)
        ensures
            message@ == (PushMessageView { ttl: Some(ttl), ..self@ }),
    {
        let mut message = self;
        message.ttl = Some(ttl);
        message
    }

    /// Sets the time of expiry, in seconds since the epoch.
    pub fn expiration(self, expiration: u32) -> (message: PushMessage)
        ensures
            message@ == (PushMessageView { expiration: Some(expiration), ..self@ }),
    {
        let mut message = self;
        message.expiration = Some(expiration);
        message
    }

    /// Sets the priority.
    pub fn priority(self, priority: Priority) -> (message: PushMessage)
        ensures
            message@ == (PushMessageView { priority: Some(priority), ..self@ }),
    {
        let mut message = self;
        message.priority = Some(priority);
        message
    }

    /// Sets the badge.
    pub fn badge(self, badge: u32) -> (message: PushMessage)
        ensures
            message@ == (PushMessageView { badge: Some(badge), ..self@ }),
    {
        let mut message = self;
        message.badge = Some(badge);
        message
    }

    /// The wire form of the message, as a JSON value.
    pub fn to_json(&self) -> (v: Value)
        ensures
            json_of(v) == message_json(self@),
    {
        let mut members: Vec<(String, Value)> = Vec::new();
        proof {
            lemma_member_names_differ();
        }
        push_member(&mut members, "to", Some(text_value(self.to.as_str().to_owned())));
        push_member(
            &mut members,
            "data",
            match &self.data {
                Some(data) => Some(data.clone()),
                None => None,
            },
        );
        push_member(
            &mut members,
            "title",
            match &self.title {
                Some(title) => Some(text_value(title.clone())),
                None => None,
            },
        );
        push_member(
            &mut members,
            "body",
            match &self.body {
                Some(body) => Some(text_value(body.clone())),
                None => None,
            },
        );
        push_member(
            &mut members,
            "sound",
            match &self.sound {
                Some(sound) => Some(text_value(sound.as_str().to_owned())),
                None => None,
            },
        );
        push_member(
            &mut members,
            "ttl",
            match self.ttl {
                Some(ttl) => Some(number_value(ttl)),
                None => None,
            },
        );
        push_member(
            &mut members,
            "expiration",
            match self.expiration {
                Some(expiration) => Some(number_value(expiration)),
                None => None,
            },
        );
        push_member(
            &mut members,
            "priority",
            match &self.priority {
                Some(priority) => Some(text_value(priority.as_str().to_owned())),
                None => None,
            },
        );
        push_member(
            &mut members,
            "badge",
            match self.badge {
                Some(badge) => Some(number_value(badge)),
                None => None,
            },
        );
        object_value(members)
    }
}

/// The wire form of a batch of messages, as a JSON value: an array that
/// holds the messages in their order.
pub fn batch_to_json(messages: &[PushMessage]) -> (v: Value)
    ensures
        json_of(v) == batch_json(messages@),
{
    let mut items: Vec<Value> = Vec::new();
    let mut i: usize = 0;
    while i < messages.len()
        invariant
            i <= messages.len(),
            items.len() == i,
            forall|k: int| 0 <= k < i ==> json_of(#[trigger] items[k]) == message_json(messages[k]@),
        decreases messages.len() - i,
    {
        items.push(messages[i].to_json());
        i += 1;
    }
    proof {
        assert(json_seq(items@) =~= messages@.map_values(|m: PushMessage| message_json(m@)));
    }
    array_value(items)
}

/// The text of a batch on the wire, where it can be written.
pub open spec fn batch_text(messages: Seq<PushMessage>) -> Option<Seq<u8>> {
    json_text(batch_json(messages))
}

/// Serializes a batch of messages. Whether that succeeds rests with the
/// serializer alone.
pub fn serialize_messages(messages: &[PushMessage]) -> (res: Option<Vec<u8>>)
    ensures
        match res {
            Some(bytes) => batch_text(messages@) == Some(bytes@),
            None => batch_text(messages@) is None,
        },
{
    let v = batch_to_json(messages);
    match print(&v) {
        Ok(bytes) => Some(bytes),
        Err(_) => None,
    }
}

} // verus!
