//! The chat-wide message filter: by author and by text.
use vstd::prelude::*;

use crate::app_core::chat::Message;
use crate::text::{contains_seq, lowercase_of, occurs_at, str_contains, to_lowercase};

verus! {

/// A condition on messages that the user can clear.
pub trait FilterCondition: Sized {
    /// The messages the condition lets through.
    spec fn accepts(&self, message: Message) -> bool;

    /// The condition after it is cleared.
    spec fn is_cleared(&self) -> bool;

    fn matches(&self, message: &Message) -> (r: bool)
        ensures
            r == self.accepts(*message),
    ;

    fn reset(&mut self)
        ensures
            final(self).is_cleared(),
    ;
}

/// Lets through the messages whose author's lowercase name contains the input.
#[derive(Debug)]
pub struct UsernameFilter {
    pub input: String,
}

impl UsernameFilter {
    /// A filter for the lowercase form of `value`.
    pub fn new(value: &str) -> (f: Self)
        ensures
            f.input@ == lowercase_of(value@),
    {
        UsernameFilter { input: to_lowercase(value) }
    }
}

impl FilterCondition for UsernameFilter {
    open spec fn accepts(&self, message: Message) -> bool {
        self.input@.len() == 0 || contains_seq(lowercase_of(message.username@), self.input@)
    }

    open spec fn is_cleared(&self) -> bool {
        self.input@.len() == 0
    }

    fn matches(&self, message: &Message) -> (r: bool) {
        if self.input.as_str().is_empty() {
            return true;
        }
        let lowered = to_lowercase(message.username.as_str());
        str_contains(lowered.as_str(), self.input.as_str())
    }

    fn reset(&mut self) {
        self.input = String::new();
    }
}

/// Lets through the messages whose lowercase text contains the input.
#[derive(Debug)]
pub struct TextFilter {
    pub input: String,
}

impl TextFilter {
    /// A filter for the lowercase form of `value`.
    pub fn new(value: &str) -> (f: Self)
        ensures
            f.input@ == lowercase_of(value@),
    {
        TextFilter { input: to_lowercase(value) }
    }
}

impl FilterCondition for TextFilter {
    open spec fn accepts(&self, message: Message) -> bool {
        self.input@.len() == 0 || contains_seq(lowercase_of(message.text@), self.input@)
    }

    open spec fn is_cleared(&self) -> bool {
        self.input@.len() == 0
    }

    fn matches(&self, message: &Message) -> (r: bool) {
        if self.input.as_str().is_empty() {
            return true;
        }
        let lowered = to_lowercase(message.text.as_str());
        str_contains(lowered.as_str(), self.input.as_str())
    }

    fn reset(&mut self) {
        self.input = String::new();
    }
}

/// Both filters, and whether they apply.
#[derive(Debug)]
pub struct FilterCollection {
    pub username: UsernameFilter,
    pub text: TextFilter,
    pub active: bool,
}

impl FilterCollection {
    /// An inactive collection with empty filters.
    pub fn new() -> (f: Self)
        ensures
            !f.active,
            f.username.input@.len() == 0,
            f.text.input@.len() == 0,
    {
        FilterCollection {
            username: UsernameFilter { input: String::new() },
            text: TextFilter { input: String::new() },
            active: false,
        }
    }

    /// Every message passes an inactive collection; an active one asks both filters.
    pub fn matches(&self, message: &Message) -> (r: bool)
        ensures
            r == (!self.active || (self.username.accepts(*message) && self.text.accepts(
                *message,
            ))),
    {
        if !self.active {
            return true;
        }
        self.username.matches(message) && self.text.matches(message)
    }

    /// Whether the collection lets a message through.
    pub open spec fn passes(self, message: Message) -> bool {
        !self.active || (self.username.accepts(message) && self.text.accepts(message))
    }

    /// The positions of the messages that the collection lets through, in order.
    pub open spec fn passing_positions(self, messages: Seq<Message>) -> Seq<usize>
        decreases messages.len(),
    {
        if messages.len() == 0 {
            seq![]
        } else {
            let rest = self.passing_positions(messages.drop_last());
            if self.passes(messages.last()) {
                rest.push((messages.len() - 1) as usize)
            } else {
                rest
            }
        }
    }

    /// The positions of the messages that the collection lets through, in order: the rows of
    /// the filtered chat view.
    pub fn filtered_positions(&self, messages: &[Message]) -> (r: Vec<usize>)
        ensures
            r@ == self.passing_positions(messages@),
    {
        let mut r: Vec<usize> = Vec::new();
        let n = messages.len();
        for i in 0..n
            invariant
                n == messages@.len(),
                r@ == self.passing_positions(messages@.take(i as int)),
        {
            assert(messages@.take(i + 1).drop_last() == messages@.take(i as int));
            if self.matches(&messages[i]) {
                r.push(i);
            }
        }
        assert(messages@.take(n as int) == messages@);
        r
    }

    /// Clears both filters.
    pub fn reset(&mut self)
        ensures
            final(self).username.input@.len() == 0,
            final(self).text.input@.len() == 0,
            final(self).active == old(self).active,
    {
        self.username.reset();
        self.text.reset();
    }
}

/// The filter window: open or closed.
#[derive(Debug)]
pub struct FilterWindow {
    show_ui: bool,
}

impl FilterWindow {
    /// A closed window.
    pub fn new() -> (w: Self)
        ensures
            !w.is_shown(),
    {
        FilterWindow { show_ui: false }
    }

    /// Whether the window is open.
    pub closed spec fn is_shown(self) -> bool {
        self.show_ui
    }

    /// Whether the window is open.
    pub fn shown(&self) -> (r: bool)
        ensures
            r == self.is_shown(),
    {
        self.show_ui
    }

    /// Reacts to the open shortcut and to Escape: the shortcut opens a closed window and
    /// activates the filters, Escape closes an open one, and a closed window deactivates them.
    /// Returns whether the window was opened now.
    pub fn handle_input(
        &mut self,
        filter: &mut FilterCollection,
        shortcut_pressed: bool,
        escape_pressed: bool,
    ) -> (activated_now: bool)
        ensures
            final(self).is_shown() == ((old(self).is_shown() || shortcut_pressed) && !escape_pressed),
            activated_now == (!old(self).is_shown() && shortcut_pressed && !escape_pressed),
            final(filter).active == (if final(self).is_shown() {
                old(filter).active || (!old(self).is_shown() && shortcut_pressed)
            } else {
                false
            }),
            final(filter).username == old(filter).username,
            final(filter).text == old(filter).text,
    {
        let mut activated_now = false;
        if !self.show_ui && shortcut_pressed {
            self.show_ui = true;
            filter.active = true;
            activated_now = true;
        }
        if self.show_ui && escape_pressed {
            self.show_ui = false;
            activated_now = false;
        }
        if !self.show_ui {
            filter.active = false;
        }
        activated_now
    }

    /// Closes the window (its close button).
    pub fn close(&mut self)
        ensures
            !final(self).is_shown(),
    {
        self.show_ui = false;
    }
}

/// A text filter accepts a message exactly when its input is empty or the message's lowercase
/// text has the input somewhere in it, with any text before and after.
pub proof fn lemma_text_filter_finds_input_inside_text(
    f: TextFilter,
    message: Message,
    before: Seq<char>,
    after: Seq<char>,
)
    ensures
        lowercase_of(message.text@) == before + f.input@ + after ==> f.accepts(message),
        f.accepts(message) && f.input@.len() > 0 ==> exists|b: Seq<char>, e: Seq<char>|
            lowercase_of(message.text@) == b + f.input@ + e,
{
    let hay = lowercase_of(message.text@);
    let needle = f.input@;
    if hay == before + needle + after {
        assert(hay.subrange(before.len() as int, (before.len() + needle.len()) as int) =~= needle);
        assert(occurs_at(hay, needle, before.len() as int));
    }
    if f.accepts(message) && needle.len() > 0 {
        let i = choose|i: int| occurs_at(hay, needle, i);
        assert(hay =~= hay.take(i) + needle + hay.skip(i + needle.len()));
    }
}

/// A user filter accepts a message exactly when its input is empty or the author's lowercase
/// name has the input somewhere in it.
pub proof fn lemma_user_filter_finds_input_inside_name(
    f: UsernameFilter,
    message: Message,
    before: Seq<char>,
    after: Seq<char>,
)
    ensures
        lowercase_of(message.username@) == before + f.input@ + after ==> f.accepts(message),
        f.accepts(message) && f.input@.len() > 0 ==> exists|b: Seq<char>, e: Seq<char>|
            lowercase_of(message.username@) == b + f.input@ + e,
{
    let hay = lowercase_of(message.username@);
    let needle = f.input@;
    if hay == before + needle + after {
        assert(hay.subrange(before.len() as int, (before.len() + needle.len()) as int) =~= needle);
        assert(occurs_at(hay, needle, before.len() as int));
    }
    if f.accepts(message) && needle.len() > 0 {
        let i = choose|i: int| occurs_at(hay, needle, i);
        assert(hay =~= hay.take(i) + needle + hay.skip(i + needle.len()));
    }
}

} // verus!
