//! The records that travel over the message bus.

use vstd::prelude::*;

verus! {

#[verifier::external_type_specification]
#[verifier::external_body]
pub struct ExJsonValue(serde_json::Value);

#[verifier::external_type_specification]
#[verifier::external_body]
#[verifier::reject_recursive_types(K)]
#[verifier::reject_recursive_types(V)]
pub struct ExJsonMap<K, V>(serde_json::Map<K, V>);

/// The keys that a metadata mapping holds.
pub uninterp spec fn metadata_keys(m: serde_json::Map<String, serde_json::Value>) -> Set<
    Seq<char>,
>;

/// Relies on the `Clone` impl of serde_json::Map, which copies every entry.
pub assume_specification[ <serde_json::Map<String, serde_json::Value> as Clone>::clone ](
    m: &serde_json::Map<String, serde_json::Value>,
) -> (r: serde_json::Map<String, serde_json::Value>)
    ensures
        metadata_keys(r) == metadata_keys(*m),
;

/// Open-ended metadata of a message: each key maps to an arbitrary value.
pub type Metadata = serde_json::Map<String, serde_json::Value>;

/// Relies on serde_json::Map::new: a mapping with no entries.
#[verifier::external_body]
fn empty_metadata() -> (r: Metadata)
    ensures
        metadata_keys(r) == Set::<Seq<char>>::empty(),
{
    serde_json::Map::new()
}

/// Relies on SystemTime::now, read as whole milliseconds since the Unix
/// epoch (0 for a clock set before it). Nothing is promised of the value.
#[verifier::external_body]
fn now_millis() -> (r: u64) {
    std::time::SystemTime::now().duration_since(std::time::UNIX_EPOCH).map(
        |d| d.as_millis() as u64,
    ).unwrap_or(0)
}

/// What `{:?}` prints for a string: the text quoted, with escapes.
pub uninterp spec fn debug_text(s: Seq<char>) -> Seq<char>;

/// Relies on the `Debug` impl of `str`, which depends on the characters alone.
#[verifier::external_body]
fn debug_quote(s: &str) -> (r: String)
    ensures
        r@ == debug_text(s@),
{
    format!("{:?}", s)
}

/// A message received from a chat channel.
#[derive(Clone, Debug, PartialEq)]
pub struct InboundMessage {
    pub channel: String,
    pub sender_id: String,
    pub chat_id: String,
    pub content: String,
    /// Milliseconds since the Unix epoch.
    pub timestamp_ms: u64,
    pub media: Vec<String>,
    pub metadata: Metadata,
}

/// The key under which the conversation of a message is kept.
pub open spec fn session_key_of(channel: Seq<char>, chat_id: Seq<char>) -> Seq<char> {
    channel + seq![':'] + chat_id
}

impl InboundMessage {
    /// A message; the timestamp defaults to the current time, the media list
    /// and the metadata to empty.
    pub fn new(
        channel: String,
        sender_id: String,
        chat_id: String,
        content: String,
        timestamp_ms: Option<u64>,
        media: Option<Vec<String>>,
        metadata: Option<Metadata>,
    ) -> (r: Self)
        ensures
            r.channel == channel,
            r.sender_id == sender_id,
            r.chat_id == chat_id,
            r.content == content,
            timestamp_ms is Some ==> r.timestamp_ms == timestamp_ms->0,
            media is Some ==> r.media == media->0,
            media is None ==> r.media@ == Seq::<String>::empty(),
            metadata is Some ==> r.metadata == metadata->0,
            metadata is None ==> metadata_keys(r.metadata) == Set::<Seq<char>>::empty(),
    {
        let ts = match timestamp_ms {
            Some(t) => t,
            None => now_millis(),
        };
        let media = match media {
            Some(m) => m,
            None => Vec::new(),
        };
        let metadata = match metadata {
            Some(m) => m,
            None => empty_metadata(),
        };
        InboundMessage { channel, sender_id, chat_id, content, timestamp_ms: ts, media, metadata }
    }

    /// `channel:chat_id`, the key of the conversation this message belongs to.
    pub fn session_key(&self) -> (r: String)
        ensures
            r@ == session_key_of(self.channel@, self.chat_id@),
    {
        let mut r = self.channel.clone();
        proof {
            reveal_strlit(":");
        }
        r.append(":");
        r.append(self.chat_id.as_str());
        r
    }

    pub fn metadata(&self) -> (r: &Metadata)
        ensures
            *r == self.metadata,
    {
        &self.metadata
    }

    /// Replaces the whole metadata mapping.
    pub fn set_metadata(&mut self, value: Metadata)
        ensures
            *final(self) == (InboundMessage { metadata: value, ..*old(self) }),
    {
        self.metadata = value;
    }

    /// A one-line description naming the channel, sender, chat and content.
    pub fn repr(&self) -> (r: String)
        ensures
            r@ == "InboundMessage(channel="@ + debug_text(self.channel@) + ", sender_id="@
                + debug_text(self.sender_id@) + ", chat_id="@ + debug_text(self.chat_id@)
                + ", content="@ + debug_text(self.content@) + ")"@,
    {
        let channel = debug_quote(self.channel.as_str());
        let sender = debug_quote(self.sender_id.as_str());
        let chat = debug_quote(self.chat_id.as_str());
        let content = debug_quote(self.content.as_str());
        let mut r = String::from_str("InboundMessage(channel=");
        r.append(channel.as_str());
        r.append(", sender_id=");
        r.append(sender.as_str());
        r.append(", chat_id=");
        r.append(chat.as_str());
        r.append(", content=");
        r.append(content.as_str());
        r.append(")");
        r
    }
}

/// A message to send to a chat channel.
#[derive(Clone, Debug, PartialEq)]
pub struct OutboundMessage {
    pub channel: String,
    pub chat_id: String,
    pub content: String,
    pub reply_to: Option<String>,
    pub media: Vec<String>,
    pub metadata: Metadata,
}

impl OutboundMessage {
    /// A message; the media list and the metadata default to empty.
    pub fn new(
        channel: String,
        chat_id: String,
        content: String,
        reply_to: Option<String>,
        media: Option<Vec<String>>,
        metadata: Option<Metadata>,
    ) -> (r: Self)
        ensures
            r.channel == channel,
            r.chat_id == chat_id,
            r.content == content,
            r.reply_to == reply_to,
            media is Some ==> r.media == media->0,
            media is None ==> r.media@ == Seq::<String>::empty(),
            metadata is Some ==> r.metadata == metadata->0,
            metadata is None ==> metadata_keys(r.metadata) == Set::<Seq<char>>::empty(),
    {
        let media = match media {
            Some(m) => m,
            None => Vec::new(),
        };
        let metadata = match metadata {
            Some(m) => m,
            None => empty_metadata(),
        };
        OutboundMessage { channel, chat_id, content, reply_to, media, metadata }
    }

    pub fn metadata(&self) -> (r: &Metadata)
        ensures
            *r == self.metadata,
    {
        &self.metadata
    }

    /// Replaces the whole metadata mapping.
    pub fn set_metadata(&mut self, value: Metadata)
        ensures
            *final(self) == (OutboundMessage { metadata: value, ..*old(self) }),
    {
        self.metadata = value;
    }

    /// A one-line description naming the channel, chat and content.
    pub fn repr(&self) -> (r: String)
        ensures
            r@ == "OutboundMessage(channel="@ + debug_text(self.channel@) + ", chat_id="@
                + debug_text(self.chat_id@) + ", content="@ + debug_text(self.content@) + ")"@,
    {
        let channel = debug_quote(self.channel.as_str());
        let chat = debug_quote(self.chat_id.as_str());
        let content = debug_quote(self.content.as_str());
        let mut r = String::from_str("OutboundMessage(channel=");
        r.append(channel.as_str());
        r.append(", chat_id=");
        r.append(chat.as_str());
        r.append(", content=");
        r.append(content.as_str());
        r.append(")");
        r
    }
}

} // verus!
