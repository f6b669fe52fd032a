//! The identifiers of a chat: of its channels, senders, messages and participants.

use vstd::prelude::*;

verus! {

/// Names a channel.
#[derive(Debug, PartialEq, Eq)]
pub struct ChannelUri {
    text: String,
}

impl View for ChannelUri {
    type V = Seq<char>;

    closed spec fn view(&self) -> Seq<char> {
        self.text@
    }
}

impl ChannelUri {
    /// The channel of that name.
    pub fn new(text: &str) -> (uri: Self)
        ensures
            uri@ == text@,
    {
        ChannelUri { text: text.to_owned() }
    }

    /// The name as text.
    pub fn as_str(&self) -> (text: &str)
        ensures
            text@ == self@,
    {
        self.text.as_str()
    }
}

impl Clone for ChannelUri {
    fn clone(&self) -> (result: Self)
        ensures
            result@ == self@,
    {
        ChannelUri { text: self.text.clone() }
    }
}

/// Names a sender.
#[derive(Debug, PartialEq, Eq)]
pub struct SenderUri {
    text: String,
}

impl View for SenderUri {
    type V = Seq<char>;

    closed spec fn view(&self) -> Seq<char> {
        self.text@
    }
}

impl SenderUri {
    /// The sender of that name.
    pub fn new(text: &str) -> (uri: Self)
        ensures
            uri@ == text@,
    {
        SenderUri { text: text.to_owned() }
    }

    /// The name as text.
    pub fn as_str(&self) -> (text: &str)
        ensures
            text@ == self@,
    {
        self.text.as_str()
    }
}

impl Clone for SenderUri {
    fn clone(&self) -> (result: Self)
        ensures
            result@ == self@,
    {
        SenderUri { text: self.text.clone() }
    }
}

/// Names a message.
#[derive(Debug, PartialEq, Eq)]
pub struct MessageUri {
    text: String,
}

impl View for MessageUri {
    type V = Seq<char>;

    closed spec fn view(&self) -> Seq<char> {
        self.text@
    }
}

impl MessageUri {
    /// The message of that name.
    pub fn new(text: &str) -> (uri: Self)
        ensures
            uri@ == text@,
    {
        MessageUri { text: text.to_owned() }
    }

    /// The name as text.
    pub fn as_str(&self) -> (text: &str)
        ensures
            text@ == self@,
    {
        self.text.as_str()
    }
}

impl Clone for MessageUri {
    fn clone(&self) -> (result: Self)
        ensures
            result@ == self@,
    {
        MessageUri { text: self.text.clone() }
    }
}

/// Names a participant.
#[derive(Debug, PartialEq, Eq)]
pub struct ParticipantId {
    text: String,
}

impl View for ParticipantId {
    type V = Seq<char>;

    closed spec fn view(&self) -> Seq<char> {
        self.text@
    }
}

impl ParticipantId {
    /// The participant of that name.
    pub fn new(text: &str) -> (id: Self)
        ensures
            id@ == text@,
    {
        ParticipantId { text: text.to_owned() }
    }

    /// The name as text.
    pub fn as_str(&self) -> (text: &str)
        ensures
            text@ == self@,
    {
        self.text.as_str()
    }

    /// Whether this is the participant `other`.
    pub fn same(&self, other: &Self) -> (result: bool)
        ensures
            result == (self@ == other@),
    {
        self.text == other.text
    }
}

impl Clone for ParticipantId {
    fn clone(&self) -> (result: Self)
        ensures
            result@ == self@,
    {
        ParticipantId { text: self.text.clone() }
    }
}

/// A point in time: seconds since the Unix epoch, and the nanoseconds past them.
#[derive(Debug, Clone, Copy, PartialEq, Eq, Structural)]
pub struct Timestamp {
    pub seconds: i64,
    pub nanoseconds: u32,
}

} // verus!
