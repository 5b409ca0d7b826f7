//! The views of all open chats.
use vstd::prelude::*;

use crate::app_core::settings::ChatPosition;
use crate::collections::NameMap;
use crate::gui::chat::chat_view::{fresh_view, ChatView};
use crate::text::{lowercase_of, to_lowercase};

verus! {

/// The row to scroll to for the message at position `message_id`: with messages at the
/// bottom, a filler row comes first.
pub open spec fn scroll_row(position: ChatPosition, message_id: nat) -> nat {
    match position {
        ChatPosition::Bottom => message_id + 1,
        ChatPosition::Top => message_id,
    }
}

/// The row to scroll to for a message.
pub fn scroll_target(position: ChatPosition, message_id: usize) -> (r: usize)
    requires
        message_id < usize::MAX,
    ensures
        r == scroll_row(position, message_id as nat),
{
    match position {
        ChatPosition::Bottom => message_id + 1,
        ChatPosition::Top => message_id,
    }
}

/// The views of the open chats, by chat name.
#[derive(Debug)]
pub struct ChatViewController {
    views: NameMap<ChatView>,
}

impl ChatViewController {
    /// The views, by chat name.
    pub closed spec fn views(self) -> Map<Seq<char>, ChatView> {
        self.views@
    }

    /// Every view is consistent.
    pub closed spec fn wf(self) -> bool {
        forall|k: Seq<char>| #[trigger] self.views@.dom().contains(k) ==> self.views@[k].wf()
    }

    /// No views.
    pub fn new() -> (c: Self)
        ensures
            c.wf(),
            c.views() == Map::<Seq<char>, ChatView>::empty(),
    {
        ChatViewController { views: NameMap::new() }
    }

    /// Adds a fresh view of a chat, replacing one it had.
    pub fn add(&mut self, chat_name: String)
        requires
            old(self).wf(),
        ensures
            final(self).wf(),
            final(self).views().dom() == old(self).views().dom().insert(chat_name@),
            fresh_view(final(self).views()[chat_name@], chat_name@),
            forall|k: Seq<char>|
                #[trigger] old(self).views().dom().contains(k) && k != chat_name@
                    ==> final(self).views()[k] == old(self).views()[k],
    {
        let view = ChatView::new(chat_name.clone());
        self.views.insert(chat_name, view);
    }

    /// Removes the view of a chat, by its name in any case.
    pub fn remove(&mut self, name: &str)
        requires
            old(self).wf(),
        ensures
            final(self).wf(),
            final(self).views() == old(self).views().remove(lowercase_of(name@)),
    {
        let key = to_lowercase(name);
        self.views.remove(key.as_str());
    }

    /// Whether a chat has a view.
    pub fn has_view(&self, name: &str) -> (r: bool)
        ensures
            r == self.views().dom().contains(name@),
    {
        self.views.contains_key(name)
    }

    /// Scrolls the view of a chat to a message.
    pub fn scroll_chat_to(&mut self, position: ChatPosition, lowercase_name: &str, message_id: usize)
        requires
            old(self).wf(),
            message_id < usize::MAX,
        ensures
            final(self).wf(),
            final(self).views().dom() == old(self).views().dom(),
            old(self).views().dom().contains(lowercase_name@) ==> {
                let v0 = old(self).views()[lowercase_name@];
                let v1 = final(self).views()[lowercase_name@];
                &&& v1.scroll_target() == Some(scroll_target_spec(position, message_id))
                &&& v1.name() == v0.name() && v1.input() == v0.input()
                &&& v1.search() == v0.search() && v1.attempts() == v0.attempts()
            },
            forall|k: Seq<char>|
                #[trigger] old(self).views().dom().contains(k) && k != lowercase_name@
                    ==> final(self).views()[k] == old(self).views()[k],
            !old(self).views().dom().contains(lowercase_name@) ==> final(self).views() == old(self).views(),
    {
        match self.views.take(lowercase_name) {
            Some(mut view) => {
                view.scroll_to_message(scroll_target(position, message_id));
                self.views.insert(lowercase_name.to_owned(), view);
                assert(self.views@.dom() =~= old(self).views@.dom());
            },
            None => {
                assert(self.views@ =~= old(self).views@);
            },
        }
    }

    /// Opens the search panel of a chat's view.
    pub fn enable_filter(&mut self, active_chat_name: &str)
        requires
            old(self).wf(),
        ensures
            final(self).wf(),
            final(self).views().dom() == old(self).views().dom(),
            old(self).views().dom().contains(active_chat_name@) ==> {
                let v0 = old(self).views()[active_chat_name@];
                let v1 = final(self).views()[active_chat_name@];
                &&& v1.search().shown()
                &&& v1.search().user_input() == v0.search().user_input()
                &&& v1.search().text_input() == v0.search().text_input()
                &&& v1.search().results() == v0.search().results()
                &&& v1.search().current() == v0.search().current()
                &&& v1.search().last_query() == v0.search().last_query()
                &&& v1.search().performed() == v0.search().performed()
                &&& v1.name() == v0.name() && v1.input() == v0.input()
                &&& v1.scroll_target() == v0.scroll_target() && v1.attempts() == v0.attempts()
            },
            forall|k: Seq<char>|
                #[trigger] old(self).views().dom().contains(k) && k != active_chat_name@
                    ==> final(self).views()[k] == old(self).views()[k],
            !old(self).views().dom().contains(active_chat_name@) ==> final(self).views() == old(self).views(),
    {
        match self.views.take(active_chat_name) {
            Some(mut view) => {
                view.enable_filter();
                self.views.insert(active_chat_name.to_owned(), view);
                assert(self.views@.dom() =~= old(self).views@.dom());
            },
            None => {
                assert(self.views@ =~= old(self).views@);
            },
        }
    }
}

/// The row to scroll to, as a machine integer.
pub open spec fn scroll_target_spec(position: ChatPosition, message_id: usize) -> usize {
    scroll_row(position, message_id as nat) as usize
}

} // verus!
