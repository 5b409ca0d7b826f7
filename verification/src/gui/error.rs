//! Errors the interface reports to the user.
use vstd::prelude::*;

use crate::text::{decimal, push_decimal, push_str};

verus! {

/// A reference to a chat or a message that no longer exists.
#[derive(Debug)]
pub enum GuiError {
    MessageNotFound { message_id: usize, chat_name: String },
    ChatNotFound { chat_name: String },
}

impl GuiError {
    /// A message that is no longer in its chat.
    pub fn message_not_found(message_id: usize, chat_name: String) -> (e: Self)
        ensures
            e matches GuiError::MessageNotFound { message_id: id, chat_name: name } && id
                == message_id && name == chat_name,
    {
        GuiError::MessageNotFound { message_id, chat_name }
    }

    /// A chat that is no longer open.
    pub fn chat_not_found(chat_name: String) -> (e: Self)
        ensures
            e matches GuiError::ChatNotFound { chat_name: name } && name == chat_name,
    {
        GuiError::ChatNotFound { chat_name }
    }

    /// The text shown to the user.
    pub fn message(&self) -> (s: String)
        ensures
            s@ == match self {
                GuiError::MessageNotFound { message_id, chat_name } => "Failed to find message #"@
                    + decimal(*message_id as nat) + " in chat "@ + chat_name@
                    + " -- it is probably already closed"@,
                GuiError::ChatNotFound { chat_name } => "Chat '"@ + chat_name@ + "' not found"@,
            },
    {
        let mut s = String::new();
        match self {
            GuiError::MessageNotFound { message_id, chat_name } => {
                push_str(&mut s, "Failed to find message #");
                push_decimal(&mut s, *message_id as u64);
                push_str(&mut s, " in chat ");
                push_str(&mut s, chat_name.as_str());
                push_str(&mut s, " -- it is probably already closed");
            },
            GuiError::ChatNotFound { chat_name } => {
                push_str(&mut s, "Chat '");
                push_str(&mut s, chat_name.as_str());
                push_str(&mut s, "' not found");
            },
        }
        s
    }
}

} // verus!
