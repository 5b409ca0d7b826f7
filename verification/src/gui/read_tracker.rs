//! Which chat tabs hold unread messages, where each chat's unread marker stands, and the
//! messages that highlighted the user.
use vstd::prelude::*;

use crate::app_core::chat::Message;
use crate::collections::{collect_nonempty, nonempty_names, NameMap, NameSet};

verus! {

/// Why a tab is marked unread.
#[derive(Clone, Copy, Debug, PartialEq, Eq, Structural)]
pub enum UnreadType {
    Regular,
    Highlight,
}

/// The unread state of the tab `name` after a regular message: a tab that is already unread
/// (in particular, highlighted) keeps its state.
pub open spec fn after_mark_unread(
    tabs: Map<Seq<char>, UnreadType>,
    name: Seq<char>,
) -> Map<Seq<char>, UnreadType> {
    if tabs.dom().contains(name) {
        tabs
    } else {
        tabs.insert(name, UnreadType::Regular)
    }
}

/// The unread markers after switching from `old_chat` (empty when no chat was open) to
/// `new_chat`, where the chat left behind has `count` messages: the marker of the chat left
/// behind moves to its end, and a marker of the new chat that stands at `count` is dropped.
pub open spec fn after_chat_switch(
    markers: Map<Seq<char>, usize>,
    old_chat: Seq<char>,
    new_chat: Seq<char>,
    count: usize,
) -> Map<Seq<char>, usize> {
    let m = if old_chat.len() > 0 {
        markers.insert(old_chat, count)
    } else {
        markers
    };
    if m.dom().contains(new_chat) && m[new_chat] == count {
        m.remove(new_chat)
    } else {
        m
    }
}

/// Tracks unread tabs, unread markers and highlights.
#[derive(Debug)]
pub struct ReadTracker {
    unread_tabs: NameMap<UnreadType>,
    last_read_messages: NameMap<usize>,
    ordered_highlights: Vec<(String, Message)>,
    highlight_keywords: NameSet,
}

impl ReadTracker {
    /// The tabs marked unread, and why.
    pub closed spec fn unread(self) -> Map<Seq<char>, UnreadType> {
        self.unread_tabs@
    }

    /// The position of the unread marker of each chat that has one.
    pub closed spec fn markers(self) -> Map<Seq<char>, usize> {
        self.last_read_messages@
    }

    /// The messages that highlighted the user, oldest first, with the chat they came from.
    pub closed spec fn highlights(self) -> Seq<(String, Message)> {
        self.ordered_highlights@
    }

    /// The highlight keywords.
    pub closed spec fn keyword_set(self) -> Set<Seq<char>> {
        self.highlight_keywords@
    }

    /// A tracker with nothing unread, no markers, no highlights and no keywords.
    pub fn new() -> (t: Self)
        ensures
            t.unread() == Map::<Seq<char>, UnreadType>::empty(),
            t.markers() == Map::<Seq<char>, usize>::empty(),
            t.highlights().len() == 0,
            t.keyword_set() == Set::<Seq<char>>::empty(),
    {
        ReadTracker {
            unread_tabs: NameMap::new(),
            last_read_messages: NameMap::new(),
            ordered_highlights: Vec::new(),
            highlight_keywords: NameSet::new(),
        }
    }

    /// Places the unread marker of a chat.
    pub fn set_last_read_position(&mut self, chat_name: &str, position: usize)
        ensures
            final(self).markers() == old(self).markers().insert(chat_name@, position),
            final(self).unread() == old(self).unread(),
            final(self).highlights() == old(self).highlights(),
            final(self).keyword_set() == old(self).keyword_set(),
    {
        self.last_read_messages.insert(chat_name.to_owned(), position);
    }

    /// The position of a chat's unread marker, if it has one.
    pub fn get_last_read_position(&self, chat_name: &str) -> (r: Option<usize>)
        ensures
            r == (if self.markers().dom().contains(chat_name@) {
                Some(self.markers()[chat_name@])
            } else {
                None
            }),
    {
        match self.last_read_messages.get(chat_name) {
            Some(p) => Some(*p),
            None => None,
        }
    }

    /// Removes a chat's unread marker.
    pub fn remove_last_read_position(&mut self, chat_name: &str)
        ensures
            final(self).markers() == old(self).markers().remove(chat_name@),
            final(self).unread() == old(self).unread(),
            final(self).highlights() == old(self).highlights(),
            final(self).keyword_set() == old(self).keyword_set(),
    {
        self.last_read_messages.remove(chat_name);
    }

    /// Moves the unread markers when the user switches from `old_chat` to `new_chat`.
    pub fn update_chat_tracking(&mut self, old_chat: &str, new_chat: &str, message_count: usize)
        ensures
            final(self).markers() == after_chat_switch(
                old(self).markers(),
                old_chat@,
                new_chat@,
                message_count,
            ),
            final(self).unread() == old(self).unread(),
            final(self).highlights() == old(self).highlights(),
            final(self).keyword_set() == old(self).keyword_set(),
    {
        if !old_chat.is_empty() {
            self.set_last_read_position(old_chat, message_count);
        }
        if let Some(last_idx) = self.get_last_read_position(new_chat) {
            if last_idx == message_count {
                self.remove_last_read_position(new_chat);
            }
        }
    }

    /// Replaces the highlight keywords by the non-empty strings of `hl`.
    pub fn set_highlights(&mut self, hl: &[String])
        ensures
            final(self).keyword_set() == nonempty_names(hl@),
            !final(self).keyword_set().contains(Seq::<char>::empty()),
            final(self).unread() == old(self).unread(),
            final(self).markers() == old(self).markers(),
            final(self).highlights() == old(self).highlights(),
    {
        let keywords = collect_nonempty(hl);
        assert(!keywords@.contains(Seq::<char>::empty()));
        self.highlight_keywords = keywords;
    }

    /// The highlight keywords.
    pub fn keywords(&self) -> (r: &NameSet)
        ensures
            r@ == self.keyword_set(),
    {
        &self.highlight_keywords
    }

    /// Records a message that highlighted the user, with the chat it came from.
    pub fn add_highlight(&mut self, normalized_chat_name: &str, msg: &Message)
        ensures
            final(self).highlights().len() == old(self).highlights().len() + 1,
            final(self).highlights().drop_last() == old(self).highlights(),
            final(self).highlights().last().0@ == normalized_chat_name@,
            final(self).highlights().last().1 == *msg,
            final(self).unread() == old(self).unread(),
            final(self).markers() == old(self).markers(),
            final(self).keyword_set() == old(self).keyword_set(),
    {
        self.ordered_highlights.push((normalized_chat_name.to_owned(), msg.duplicate()));
    }

    /// The messages that highlighted the user, oldest first.
    pub fn ordered_highlights(&self) -> (r: &Vec<(String, Message)>)
        ensures
            r@ == self.highlights(),
    {
        &self.ordered_highlights
    }

    /// Why a tab is unread, if it is.
    pub fn unread_type(&self, tab_name: &str) -> (r: Option<&UnreadType>)
        ensures
            r == (if self.unread().dom().contains(tab_name@) {
                Some(&self.unread()[tab_name@])
            } else {
                None
            }),
    {
        self.unread_tabs.get(tab_name)
    }

    /// Forgets a closed tab: it is no longer unread and loses its unread marker.
    pub fn drop(&mut self, name: &str)
        ensures
            final(self).unread() == old(self).unread().remove(name@),
            final(self).markers() == old(self).markers().remove(name@),
            final(self).highlights() == old(self).highlights(),
            final(self).keyword_set() == old(self).keyword_set(),
    {
        self.mark_as_read(name);
        self.remove_last_read_position(name);
    }

    /// Marks a tab read.
    pub fn mark_as_read(&mut self, name: &str)
        ensures
            final(self).unread() == old(self).unread().remove(name@),
            final(self).markers() == old(self).markers(),
            final(self).highlights() == old(self).highlights(),
            final(self).keyword_set() == old(self).keyword_set(),
    {
        self.unread_tabs.remove(name);
    }

    /// Marks a tab unread because of a regular message, unless it is unread already.
    pub fn mark_as_unread(&mut self, name: &str)
        ensures
            final(self).unread() == after_mark_unread(old(self).unread(), name@),
            final(self).markers() == old(self).markers(),
            final(self).highlights() == old(self).highlights(),
            final(self).keyword_set() == old(self).keyword_set(),
    {
        if !self.unread_tabs.contains_key(name) {
            self.unread_tabs.insert(name.to_owned(), UnreadType::Regular);
        }
    }

    /// Marks a tab as holding a highlight.
    pub fn mark_as_highlighted(&mut self, name: &str)
        ensures
            final(self).unread() == old(self).unread().insert(name@, UnreadType::Highlight),
            final(self).markers() == old(self).markers(),
            final(self).highlights() == old(self).highlights(),
            final(self).keyword_set() == old(self).keyword_set(),
    {
        self.unread_tabs.insert(name.to_owned(), UnreadType::Highlight);
    }
}

/// A tab that holds a highlight stays highlighted when a regular message arrives.
pub proof fn lemma_highlight_not_downgraded(tabs: Map<Seq<char>, UnreadType>, name: Seq<char>)
    ensures
        after_mark_unread(tabs.insert(name, UnreadType::Highlight), name)
            == tabs.insert(name, UnreadType::Highlight),
{
}

/// Marking a tab unread twice is the same as marking it once.
pub proof fn lemma_mark_unread_idempotent(tabs: Map<Seq<char>, UnreadType>, name: Seq<char>)
    ensures
        after_mark_unread(after_mark_unread(tabs, name), name) == after_mark_unread(tabs, name),
{
}

/// Leaving a chat and coming straight back to it, with no new message, leaves it without an
/// unread marker.
pub proof fn lemma_switch_back_drops_marker(
    markers: Map<Seq<char>, usize>,
    a: Seq<char>,
    b: Seq<char>,
    count: usize,
)
    requires
        a.len() > 0,
        b.len() > 0,
        a != b,
    ensures
        !after_chat_switch(after_chat_switch(markers, a, b, count), b, a, count).dom().contains(a),
{
}

/// The keywords a tracker holds are never empty: it starts with none, and replacing them keeps
/// only the non-empty strings given; no other operation changes them.
pub proof fn lemma_keywords_nonempty(hl: Seq<String>)
    ensures
        !nonempty_names(hl).contains(Seq::<char>::empty()),
        forall|k: Seq<char>| nonempty_names(hl).contains(k) <==> (k.len() > 0 && exists|i: int| 0 <= i < hl.len() && #[trigger] hl[i]@ == k),
{
}

/// A call on a tracker, with its arguments.
#[derive(Debug)]
pub enum TrackerOp {
    SetLastReadPosition(String, usize),
    RemoveLastReadPosition(String),
    UpdateChatTracking(String, String, usize),
    SetHighlights(Vec<String>),
    AddHighlight(String, Message),
    Drop(String),
    MarkAsRead(String),
    MarkAsUnread(String),
    MarkAsHighlighted(String),
}

/// The tracker `after` is what the call `op` makes of the tracker `before`, as each method
/// states it.
pub open spec fn applied(before: ReadTracker, after: ReadTracker, op: TrackerOp) -> bool {
    let unread_kept = after.unread() == before.unread();
    let markers_kept = after.markers() == before.markers();
    let highlights_kept = after.highlights() == before.highlights();
    let keywords_kept = after.keyword_set() == before.keyword_set();
    match op {
        TrackerOp::SetLastReadPosition(name, position) => after.markers()
            == before.markers().insert(name@, position) && unread_kept && highlights_kept
            && keywords_kept,
        TrackerOp::RemoveLastReadPosition(name) => after.markers() == before.markers().remove(
            name@,
        ) && unread_kept && highlights_kept && keywords_kept,
        TrackerOp::UpdateChatTracking(old_chat, new_chat, count) => after.markers()
            == after_chat_switch(before.markers(), old_chat@, new_chat@, count) && unread_kept
            && highlights_kept && keywords_kept,
        TrackerOp::SetHighlights(hl) => after.keyword_set() == nonempty_names(hl@) && unread_kept
            && markers_kept && highlights_kept,
        TrackerOp::AddHighlight(name, msg) => after.highlights().len() == before.highlights().len()
            + 1 && after.highlights().drop_last() == before.highlights()
            && after.highlights().last().0@ == name@ && after.highlights().last().1 == msg
            && unread_kept && markers_kept && keywords_kept,
        TrackerOp::Drop(name) => after.unread() == before.unread().remove(name@)
            && after.markers() == before.markers().remove(name@) && highlights_kept
            && keywords_kept,
        TrackerOp::MarkAsRead(name) => after.unread() == before.unread().remove(name@)
            && markers_kept && highlights_kept && keywords_kept,
        TrackerOp::MarkAsUnread(name) => after.unread() == after_mark_unread(before.unread(), name@)
            && markers_kept && highlights_kept && keywords_kept,
        TrackerOp::MarkAsHighlighted(name) => after.unread() == before.unread().insert(
            name@,
            UnreadType::Highlight,
        ) && markers_kept && highlights_kept && keywords_kept,
    }
}

impl ReadTracker {
    /// Makes the call `op`.
    pub fn apply(&mut self, op: TrackerOp)
        ensures
            applied(*old(self), *final(self), op),
    {
        match op {
            TrackerOp::SetLastReadPosition(name, position) => {
                self.set_last_read_position(name.as_str(), position);
            },
            TrackerOp::RemoveLastReadPosition(name) => {
                self.remove_last_read_position(name.as_str());
            },
            TrackerOp::UpdateChatTracking(old_chat, new_chat, count) => {
                self.update_chat_tracking(old_chat.as_str(), new_chat.as_str(), count);
            },
            TrackerOp::SetHighlights(hl) => {
                self.set_highlights(hl.as_slice());
            },
            TrackerOp::AddHighlight(name, msg) => {
                self.add_highlight(name.as_str(), &msg);
            },
            TrackerOp::Drop(name) => {
                self.drop(name.as_str());
            },
            TrackerOp::MarkAsRead(name) => {
                self.mark_as_read(name.as_str());
            },
            TrackerOp::MarkAsUnread(name) => {
                self.mark_as_unread(name.as_str());
            },
            TrackerOp::MarkAsHighlighted(name) => {
                self.mark_as_highlighted(name.as_str());
            },
        }
    }
}

/// A tracker as `new` makes it.
pub open spec fn fresh(t: ReadTracker) -> bool {
    &&& t.unread() == Map::<Seq<char>, UnreadType>::empty()
    &&& t.markers() == Map::<Seq<char>, usize>::empty()
    &&& t.highlights().len() == 0
    &&& t.keyword_set() == Set::<Seq<char>>::empty()
}

/// In step `j` of the run, the call `ops[j]` took the tracker from `ts[j]` to `ts[j + 1]`.
pub open spec fn step_applied(ts: Seq<ReadTracker>, ops: Seq<TrackerOp>, j: int) -> bool {
    applied(ts[j], ts[j + 1], ops[j])
}

/// The trackers `ts` are those a new tracker goes through under the calls `ops`, in turn.
pub open spec fn tracker_run(ts: Seq<ReadTracker>, ops: Seq<TrackerOp>) -> bool {
    &&& ts.len() == ops.len() + 1
    &&& fresh(ts[0])
    &&& forall|j: int| 0 <= j < ops.len() ==> #[trigger] step_applied(ts, ops, j)
}

/// The keywords after the calls `ops`: the non-empty strings of the last list given to
/// `set_highlights`, or none when it was never called.
pub open spec fn last_keywords(ops: Seq<TrackerOp>) -> Set<Seq<char>>
    decreases ops.len(),
{
    if ops.len() == 0 {
        Set::empty()
    } else {
        match ops.last() {
            TrackerOp::SetHighlights(hl) => nonempty_names(hl@),
            _ => last_keywords(ops.drop_last()),
        }
    }
}

/// Why the tab `name` is unread after the calls `ops`: at first it is not; `mark_as_read` and
/// `drop` of it make it read; `mark_as_highlighted` of it makes it highlighted; `mark_as_unread`
/// of it makes a read tab regularly unread and keeps an unread one as it is; every other call
/// leaves it as it was.
pub open spec fn unread_after(ops: Seq<TrackerOp>, name: Seq<char>) -> Option<UnreadType>
    decreases ops.len(),
{
    if ops.len() == 0 {
        None
    } else {
        let before = unread_after(ops.drop_last(), name);
        match ops.last() {
            TrackerOp::MarkAsRead(n) => if n@ == name { None } else { before },
            TrackerOp::Drop(n) => if n@ == name { None } else { before },
            TrackerOp::MarkAsHighlighted(n) => if n@ == name {
                Some(UnreadType::Highlight)
            } else {
                before
            },
            TrackerOp::MarkAsUnread(n) => if n@ == name && before is None {
                Some(UnreadType::Regular)
            } else {
                before
            },
            _ => before,
        }
    }
}

/// The first `n` trackers of a run are a run of the first `n - 1` calls.
proof fn lemma_run_prefix(ts: Seq<ReadTracker>, ops: Seq<TrackerOp>)
    requires
        tracker_run(ts, ops),
        ops.len() > 0,
    ensures
        tracker_run(ts.drop_last(), ops.drop_last()),
        applied(ts[ops.len() - 1], ts.last(), ops.last()),
{
    assert(step_applied(ts, ops, ops.len() - 1));
    assert forall|j: int| 0 <= j < ops.len() - 1 implies #[trigger] step_applied(
        ts.drop_last(),
        ops.drop_last(),
        j,
    ) by {
        assert(step_applied(ts, ops, j));
    }
}

/// Whatever calls a new tracker goes through, its keywords are the non-empty strings of the
/// last list given to `set_highlights` (none if there was no such call), and never the empty
/// string.
pub proof fn lemma_keywords_follow_last_setting(ts: Seq<ReadTracker>, ops: Seq<TrackerOp>)
    requires
        tracker_run(ts, ops),
    ensures
        ts.last().keyword_set() == last_keywords(ops),
        !ts.last().keyword_set().contains(Seq::<char>::empty()),
    decreases ops.len(),
{
    if ops.len() > 0 {
        lemma_run_prefix(ts, ops);
        lemma_keywords_follow_last_setting(ts.drop_last(), ops.drop_last());
        match ops.last() {
            TrackerOp::SetHighlights(hl) => {
                lemma_keywords_nonempty(hl@);
            },
            _ => {},
        }
    }
}

/// The highlights list only grows at its end: along any run, the list at an earlier step is a
/// prefix of the list at a later one.
pub proof fn lemma_highlights_append_only(ts: Seq<ReadTracker>, ops: Seq<TrackerOp>, i: int, k: int)
    requires
        tracker_run(ts, ops),
        0 <= i <= k < ts.len(),
    ensures
        ts[i].highlights().len() <= ts[k].highlights().len(),
        ts[k].highlights().take(ts[i].highlights().len() as int) == ts[i].highlights(),
    decreases k - i,
{
    if i < k {
        lemma_highlights_append_only(ts, ops, i, k - 1);
        assert(step_applied(ts, ops, k - 1));
        let h0 = ts[i].highlights();
        let h1 = ts[k - 1].highlights();
        let h2 = ts[k].highlights();
        assert(h2 == h1 || (h2.len() == h1.len() + 1 && h2.drop_last() == h1));
        if h2 != h1 {
            assert(h2.take(h1.len() as int) =~= h2.drop_last());
        }
        assert(h2.take(h0.len() as int) =~= h1.take(h0.len() as int));
    } else {
        assert(ts[k].highlights().take(ts[k].highlights().len() as int) =~= ts[k].highlights());
    }
}

/// Whatever calls a new tracker goes through, why a tab is unread follows the calls on that
/// tab as `unread_after` says.
pub proof fn lemma_unread_type_follows_calls(ts: Seq<ReadTracker>, ops: Seq<TrackerOp>, name: Seq<char>)
    requires
        tracker_run(ts, ops),
    ensures
        unread_after(ops, name) == (if ts.last().unread().dom().contains(name) {
            Some(ts.last().unread()[name])
        } else {
            None
        }),
    decreases ops.len(),
{
    if ops.len() > 0 {
        lemma_run_prefix(ts, ops);
        lemma_unread_type_follows_calls(ts.drop_last(), ops.drop_last(), name);
    }
}

} // verus!
