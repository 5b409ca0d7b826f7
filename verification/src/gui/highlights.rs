//! Which chat tabs hold unread messages, and the messages that highlighted the user.
use vstd::prelude::*;

use crate::app_core::chat::Message;
use crate::collections::{collect_nonempty, nonempty_names, NameMap, NameSet};

verus! {

/// Why a tab is marked unread.
#[derive(Clone, Copy, Debug, PartialEq, Eq, Structural)]
pub enum UnreadType {
    Regular,
    Highlight,
}

/// The unread state of the tab `name` after a regular message: a tab that is already unread
/// (in particular, highlighted) keeps its state.
pub open spec fn after_mark_unread(
    tabs: Map<Seq<char>, UnreadType>,
    name: Seq<char>,
) -> Map<Seq<char>, UnreadType> {
    if tabs.dom().contains(name) {
        tabs
    } else {
        tabs.insert(name, UnreadType::Regular)
    }
}

/// Tracks unread tabs and highlights.
#[derive(Debug)]
pub struct HighlightTracker {
    ordered: Vec<(String, Message)>,
    keywords: NameSet,
    unread_tabs: NameMap<UnreadType>,
}

impl HighlightTracker {
    /// The tabs marked unread, and why.
    pub closed spec fn unread(self) -> Map<Seq<char>, UnreadType> {
        self.unread_tabs@
    }

    /// The messages that highlighted the user, oldest first, with the chat they came from.
    pub closed spec fn highlights(self) -> Seq<(String, Message)> {
        self.ordered@
    }

    /// The highlight keywords.
    pub closed spec fn keyword_set(self) -> Set<Seq<char>> {
        self.keywords@
    }

    /// A tracker with nothing unread, no highlights and no keywords.
    pub fn new() -> (t: Self)
        ensures
            t.unread() == Map::<Seq<char>, UnreadType>::empty(),
            t.highlights().len() == 0,
            t.keyword_set() == Set::<Seq<char>>::empty(),
    {
        HighlightTracker {
            ordered: Vec::new(),
            keywords: NameSet::new(),
            unread_tabs: NameMap::new(),
        }
    }

    /// Replaces the highlight keywords by the non-empty strings of `hl`.
    pub fn set_highlights(&mut self, hl: &[String])
        ensures
            final(self).keyword_set() == nonempty_names(hl@),
            final(self).unread() == old(self).unread(),
            final(self).highlights() == old(self).highlights(),
    {
        self.keywords = collect_nonempty(hl);
    }

    /// The highlight keywords.
    pub fn keywords(&self) -> (r: &NameSet)
        ensures
            r@ == self.keyword_set(),
    {
        &self.keywords
    }

    /// Records a message that highlighted the user, with the chat it came from.
    pub fn add(&mut self, normalized_chat_name: &str, msg: &Message)
        ensures
            final(self).highlights().len() == old(self).highlights().len() + 1,
            final(self).highlights().drop_last() == old(self).highlights(),
            final(self).highlights().last().0@ == normalized_chat_name@,
            final(self).highlights().last().1 == *msg,
            final(self).unread() == old(self).unread(),
            final(self).keyword_set() == old(self).keyword_set(),
    {
        self.ordered.push((normalized_chat_name.to_owned(), msg.duplicate()));
    }

    /// The messages that highlighted the user, oldest first.
    pub fn ordered(&self) -> (r: &Vec<(String, Message)>)
        ensures
            r@ == self.highlights(),
    {
        &self.ordered
    }

    /// Why a tab is unread, if it is.
    pub fn unread_type(&self, tab_name: &str) -> (r: Option<&UnreadType>)
        ensures
            r == (if self.unread().dom().contains(tab_name@) {
                Some(&self.unread()[tab_name@])
            } else {
                None
            }),
    {
        self.unread_tabs.get(tab_name)
    }

    /// Forgets a closed tab: it is no longer unread.
    pub fn drop(&mut self, name: &str)
        ensures
            final(self).unread() == old(self).unread().remove(name@),
            final(self).highlights() == old(self).highlights(),
            final(self).keyword_set() == old(self).keyword_set(),
    {
        self.mark_as_read(name);
    }

    /// Marks a tab read.
    pub fn mark_as_read(&mut self, name: &str)
        ensures
            final(self).unread() == old(self).unread().remove(name@),
            final(self).highlights() == old(self).highlights(),
            final(self).keyword_set() == old(self).keyword_set(),
    {
        self.unread_tabs.remove(name);
    }

    /// Marks a tab unread because of a regular message, unless it is unread already.
    pub fn mark_as_unread(&mut self, name: &str)
        ensures
            final(self).unread() == after_mark_unread(old(self).unread(), name@),
            final(self).highlights() == old(self).highlights(),
            final(self).keyword_set() == old(self).keyword_set(),
    {
        if !self.unread_tabs.contains_key(name) {
            self.unread_tabs.insert(name.to_owned(), UnreadType::Regular);
        }
    }

    /// Marks a tab as holding a highlight.
    pub fn mark_as_highlighted(&mut self, name: &str)
        ensures
            final(self).unread() == old(self).unread().insert(name@, UnreadType::Highlight),
            final(self).highlights() == old(self).highlights(),
            final(self).keyword_set() == old(self).keyword_set(),
    {
        self.unread_tabs.insert(name.to_owned(), UnreadType::Highlight);
    }
}

/// Marking a tab unread because of a regular message changes nothing for a tab that is already
/// unread (a highlighted tab stays highlighted), makes a read tab regularly unread, and leaves
/// every other tab as it was.
pub proof fn lemma_mark_unread_keeps_unread_tabs(tabs: Map<Seq<char>, UnreadType>, name: Seq<char>)
    ensures
        after_mark_unread(tabs, name).dom() == tabs.dom().insert(name),
        forall|k: Seq<char>| #[trigger] tabs.dom().contains(k) ==> after_mark_unread(tabs, name)[k]
            == tabs[k],
        !tabs.dom().contains(name) ==> after_mark_unread(tabs, name)[name] == UnreadType::Regular,
        after_mark_unread(tabs.insert(name, UnreadType::Highlight), name) == tabs.insert(
            name,
            UnreadType::Highlight,
        ),
{
    if tabs.dom().contains(name) {
        assert(tabs.dom().insert(name) =~= tabs.dom());
    }
    assert(tabs.insert(name, UnreadType::Highlight).dom().contains(name));
}

} // verus!
