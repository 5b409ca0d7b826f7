//! Chats and chat messages, as the interface keeps them.
use vstd::prelude::*;

use crate::text::{starts_with_char, to_lowercase, lowercase_of};

verus! {

/// The kind of a chat message.
#[derive(Clone, Copy, Debug, PartialEq, Eq, Structural)]
pub enum MessageType {
    Text,
    Action,
    System,
}

/// A chat message.
#[derive(Clone, Debug)]
pub struct Message {
    pub username: String,
    pub text: String,
    pub message_type: MessageType,
    /// Whether the message mentions the user or one of their highlight keywords.
    pub highlight: bool,
    /// The position of the message in its chat, once it has been added to one.
    pub id: Option<usize>,
    /// For a copy kept in the highlights tab: the chat the message was sent to.
    pub original_chat: Option<String>,
}

fn copy_opt_string(s: &Option<String>) -> (r: Option<String>)
    ensures
        r == *s,
{
    match s {
        Some(x) => Some(x.clone()),
        None => None,
    }
}

impl Message {
    fn make(username: &str, text: &str, message_type: MessageType) -> (m: Message)
        ensures
            m.username@ == username@,
            m.text@ == text@,
            m.message_type == message_type,
            !m.highlight,
            m.id is None,
            m.original_chat is None,
    {
        Message {
            username: username.to_owned(),
            text: text.to_owned(),
            message_type,
            highlight: false,
            id: None,
            original_chat: None,
        }
    }

    /// A regular text message.
    pub fn new_text(username: &str, text: &str) -> (m: Message)
        ensures
            m.username@ == username@,
            m.text@ == text@,
            m.message_type == MessageType::Text,
            !m.highlight,
            m.id is None,
            m.original_chat is None,
    {
        Self::make(username, text, MessageType::Text)
    }

    /// A third-person action (`/me`).
    pub fn new_action(username: &str, text: &str) -> (m: Message)
        ensures
            m.username@ == username@,
            m.text@ == text@,
            m.message_type == MessageType::Action,
            !m.highlight,
            m.id is None,
            m.original_chat is None,
    {
        Self::make(username, text, MessageType::Action)
    }

    /// A message from the chat server, with no author.
    pub fn new_system(text: &str) -> (m: Message)
        ensures
            m.username@ == Seq::<char>::empty(),
            m.text@ == text@,
            m.message_type == MessageType::System,
            !m.highlight,
            m.id is None,
            m.original_chat is None,
    {
        proof {
            reveal_strlit("");
        }
        Self::make("", text, MessageType::System)
    }

    /// An exact copy of the message.
    pub fn duplicate(&self) -> (r: Message)
        ensures
            r == *self,
    {
        Message {
            username: self.username.clone(),
            text: self.text.clone(),
            message_type: self.message_type,
            highlight: self.highlight,
            id: self.id,
            original_chat: copy_opt_string(&self.original_chat),
        }
    }

    /// Records the chat a highlighted message was sent to.
    pub fn set_original_chat(&mut self, chat_name: &str)
        ensures
            final(self).original_chat matches Some(c) && c@ == chat_name@,
            final(self).username == old(self).username,
            final(self).text == old(self).text,
            final(self).message_type == old(self).message_type,
            final(self).highlight == old(self).highlight,
            final(self).id == old(self).id,
    {
        self.original_chat = Some(chat_name.to_owned());
    }
}

/// Whether a chat name is the name of a public channel: it starts with `#`.
pub open spec fn is_channel_name(name: Seq<char>) -> bool {
    name.len() > 0 && name[0] == '#'
}

/// Whether a chat name is the name of one of the interface's own tabs: it starts with `$`.
pub open spec fn is_system_name(name: Seq<char>) -> bool {
    name.len() > 0 && name[0] == '$'
}

/// Whether a chat name is the name of a public channel.
pub fn is_channel(name: &str) -> (r: bool)
    ensures
        r == is_channel_name(name@),
{
    starts_with_char(name, '#')
}

/// The kind of a chat.
#[derive(Clone, Copy, Debug, PartialEq, Eq, Structural)]
pub enum ChatType {
    Channel,
    Person,
    System,
}

/// The kind of chat a name stands for.
pub open spec fn spec_chat_type(name: Seq<char>) -> ChatType {
    if is_channel_name(name) {
        ChatType::Channel
    } else if is_system_name(name) {
        ChatType::System
    } else {
        ChatType::Person
    }
}

/// The kind of chat a name stands for.
pub fn chat_type(name: &str) -> (r: ChatType)
    ensures
        r == spec_chat_type(name@),
{
    if starts_with_char(name, '#') {
        ChatType::Channel
    } else if starts_with_char(name, '$') {
        ChatType::System
    } else {
        ChatType::Person
    }
}

/// The normalized form of a chat name: its lowercase mapping.
pub fn normalize(name: &str) -> (r: String)
    ensures
        r@ == lowercase_of(name@),
{
    to_lowercase(name)
}

/// Whether the user is in a channel.
#[derive(Clone, Copy, Debug, PartialEq, Eq, Structural)]
pub enum ChatState {
    Left,
    JoinInProgress,
    Joined,
}

/// The connection to the chat server.
#[derive(Clone, Copy, Debug, PartialEq, Eq, Structural)]
pub enum ConnectionStatus {
    Disconnected { auth_failed: bool },
    InProgress,
    /// A reconnection attempt is scheduled at the given UNIX time, in seconds.
    Scheduled(i64),
    Connected,
}

/// A chat tab: a channel, a private chat, or one of the interface's own tabs.
#[derive(Debug)]
pub struct Chat {
    /// The name as it was last seen from the server.
    pub name: String,
    /// The name in lowercase, which identifies the chat.
    pub normalized_name: String,
    pub messages: Vec<Message>,
    pub state: ChatState,
    /// The position of the unread marker.
    pub prev_unread_pointer: usize,
}

impl Chat {
    /// A chat with no messages.
    pub fn new(name: &str) -> (c: Chat)
        ensures
            c.name@ == name@,
            c.normalized_name@ == lowercase_of(name@),
            c.messages@.len() == 0,
            c.state == ChatState::Left,
            c.prev_unread_pointer == 0,
    {
        Chat {
            name: name.to_owned(),
            normalized_name: normalize(name),
            messages: Vec::new(),
            state: ChatState::Left,
            prev_unread_pointer: 0,
        }
    }

    /// Where the unread marker stands after a message is added to a chat with `count`
    /// messages and the marker at `pointer`: in the tab the user is looking at, a chat read to
    /// its end stays read to its end; otherwise the marker stays before the first unread
    /// message.
    pub open spec fn pointer_after_push(pointer: usize, count: nat, is_tab_active: bool) -> usize {
        if is_tab_active && pointer == count {
            (count + 1) as usize
        } else {
            pointer
        }
    }

    /// Appends a message; `is_tab_active` tells whether the chat's tab is the one shown.
    pub fn push(&mut self, message: Message, is_tab_active: bool)
        ensures
            final(self).messages@ == old(self).messages@.push(message),
            final(self).name == old(self).name,
            final(self).normalized_name == old(self).normalized_name,
            final(self).state == old(self).state,
            final(self).prev_unread_pointer == Chat::pointer_after_push(
                old(self).prev_unread_pointer,
                old(self).messages@.len(),
                is_tab_active,
            ),
    {
        let read_to_end = self.prev_unread_pointer == self.messages.len();
        self.messages.push(message);
        if is_tab_active && read_to_end {
            self.prev_unread_pointer = self.messages.len();
        }
    }

    /// Marks every message read: the unread marker moves past the last one.
    pub fn mark_as_read(&mut self)
        ensures
            final(self).prev_unread_pointer == old(self).messages@.len(),
            final(self).messages == old(self).messages,
            final(self).name == old(self).name,
            final(self).normalized_name == old(self).normalized_name,
            final(self).state == old(self).state,
    {
        self.prev_unread_pointer = self.messages.len();
    }

    /// Removes all messages.
    pub fn clear(&mut self)
        ensures
            final(self).messages@.len() == 0,
            final(self).prev_unread_pointer == 0,
            final(self).name == old(self).name,
            final(self).normalized_name == old(self).normalized_name,
            final(self).state == old(self).state,
    {
        self.messages = Vec::new();
        self.prev_unread_pointer = 0;
    }

    /// Changes the membership state.
    pub fn set_state(&mut self, state: ChatState)
        ensures
            final(self).state == state,
            final(self).messages == old(self).messages,
            final(self).name == old(self).name,
            final(self).normalized_name == old(self).normalized_name,
            final(self).prev_unread_pointer == old(self).prev_unread_pointer,
    {
        self.state = state;
    }
}

} // verus!
