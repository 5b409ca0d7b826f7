//! The chat list: adding chats by name, the colour of each tab, and reordering tabs by
//! dragging them within their list.
use vstd::prelude::*;

use crate::app_core::chat::{Chat, ChatType, is_channel, is_channel_name};
use crate::app_core::settings::Colour;
use crate::gui::read_tracker::UnreadType;
use crate::gui::{chat_target, spec_chat_target, valid_chat_name, validate_chat_name};

verus! {

/// The fields in which a channel or a user is typed to open a chat.
#[derive(Debug)]
pub struct ChatTabs {
    pub new_channel_input: String,
    pub new_chat_input: String,
}

impl ChatTabs {
    /// The field for chats of the given kind: channels, or anything else (users).
    pub open spec fn input_for(self, kind: ChatType) -> String {
        if kind == ChatType::Channel {
            self.new_channel_input
        } else {
            self.new_chat_input
        }
    }

    /// Both fields empty.
    pub fn new() -> (t: Self)
        ensures
            t.new_channel_input@.len() == 0,
            t.new_chat_input@.len() == 0,
    {
        ChatTabs { new_channel_input: String::new(), new_chat_input: String::new() }
    }

    /// The chat to open for what is typed in the field of the given kind, when it is a valid
    /// name (a channel gets a leading `#` when it has none); the field is then emptied.
    pub fn submit(&mut self, kind: ChatType) -> (r: Option<String>)
        ensures
            ({
                let input = old(self).input_for(kind)@;
                &&& (r is Some) == (input.len() > 0 && valid_chat_name(input, kind))
                &&& r matches Some(t) ==> t@ == spec_chat_target(input, kind)
                    && final(self).input_for(kind)@.len() == 0
                &&& r is None ==> final(self).input_for(kind) == old(self).input_for(kind)
            }),
            kind == ChatType::Channel ==> final(self).new_chat_input == old(self).new_chat_input,
            kind != ChatType::Channel ==> final(self).new_channel_input
                == old(self).new_channel_input,
    {
        let input = match kind {
            ChatType::Channel => &self.new_channel_input,
            _ => &self.new_chat_input,
        };
        if input.as_str().is_empty() {
            return None;
        }
        match validate_chat_name(input.as_str(), kind) {
            Ok(()) => {
                let target = chat_target(input.as_str(), kind);
                match kind {
                    ChatType::Channel => {
                        self.new_channel_input = String::new();
                    },
                    _ => {
                        self.new_chat_input = String::new();
                    },
                }
                Some(target)
            },
            Err(_) => None,
        }
    }
}

/// The colour of a tab: the highlight colour for unread highlights, the unread colour for
/// other unread messages, and the read colour otherwise.
pub fn pick_tab_colour(
    unread: Option<UnreadType>,
    read_colour: Colour,
    unread_colour: Colour,
    highlight_colour: Colour,
) -> (c: Colour)
    ensures
        c == match unread {
            None => read_colour,
            Some(UnreadType::Highlight) => highlight_colour,
            Some(UnreadType::Regular) => unread_colour,
        },
{
    match unread {
        None => read_colour,
        Some(UnreadType::Highlight) => highlight_colour,
        Some(UnreadType::Regular) => unread_colour,
    }
}

/// Whether a chat is listed among the channels (for `Channel`) or among the other chats.
pub open spec fn listed_under(c: Chat, kind: ChatType) -> bool {
    is_channel_name(c.name@) == (kind == ChatType::Channel)
}

/// The positions of the chats listed under the given kind, in order.
pub open spec fn listed_positions(chats: Seq<Chat>, kind: ChatType) -> Seq<usize>
    decreases chats.len(),
{
    if chats.len() == 0 {
        seq![]
    } else {
        let rest = listed_positions(chats.drop_last(), kind);
        if listed_under(chats.last(), kind) {
            rest.push((chats.len() - 1) as usize)
        } else {
            rest
        }
    }
}

proof fn lemma_listed_positions_bounded(chats: Seq<Chat>, kind: ChatType)
    ensures
        forall|k: int|
            0 <= k < listed_positions(chats, kind).len() ==> #[trigger] listed_positions(
                chats,
                kind,
            )[k] < chats.len(),
    decreases chats.len(),
{
    if chats.len() > 0 {
        let rest = listed_positions(chats.drop_last(), kind);
        lemma_listed_positions_bounded(chats.drop_last(), kind);
        assert forall|k: int| 0 <= k < listed_positions(chats, kind).len() implies #[trigger] listed_positions(chats, kind)[k] < chats.len() by {
            if k < rest.len() {
                assert(rest[k] < chats.drop_last().len());
            }
        }
    }
}

/// The positions of the chats listed under the given kind, in order.
pub fn relevant_chat_positions(chats: &[Chat], kind: ChatType) -> (r: Vec<usize>)
    ensures
        r@ == listed_positions(chats@, kind),
        forall|k: int| 0 <= k < r@.len() ==> #[trigger] r@[k] < chats@.len(),
{
    let mut r: Vec<usize> = Vec::new();
    let n = chats.len();
    for i in 0..n
        invariant
            n == chats@.len(),
            r@ == listed_positions(chats@.take(i as int), kind),
    {
        assert(chats@.take(i + 1).drop_last() == chats@.take(i as int));
        let channel = is_channel(chats[i].name.as_str());
        let wanted = match kind {
            ChatType::Channel => channel,
            _ => !channel,
        };
        if wanted {
            r.push(i);
        }
    }
    assert(chats@.take(n as int) == chats@);
    proof {
        lemma_listed_positions_bounded(chats@, kind);
    }
    r
}

/// Where a tab dragged within its list moves in the whole list of chats: from the position
/// of the dragged tab to that of the tab it was dropped before, or to the end when it was
/// dropped after the last tab of its list.
pub fn reorder_bounds(listed: &[usize], total: usize, from: usize, to: usize) -> (r: (usize, usize))
    requires
        from < listed@.len(),
        to <= listed@.len(),
    ensures
        r.0 == listed@[from as int],
        r.1 == (if to == listed@.len() {
            total
        } else {
            listed@[to as int]
        }),
{
    let target = if to == listed.len() {
        total
    } else {
        listed[to]
    };
    (listed[from], target)
}

/// A sequence with the item at `from` moved to stand before the item that was at `to` (or
/// at the end, when `to` is the length).
pub open spec fn shifted<T>(s: Seq<T>, from: int, to: int) -> Seq<T> {
    if from < to {
        s.take(from) + s.subrange(from + 1, to) + seq![s[from]] + s.skip(to)
    } else {
        s.take(to) + seq![s[from]] + s.subrange(to, from) + s.skip(from + 1)
    }
}

/// Moves the item at `from` to stand before the item that was at `to`, or at the end when
/// `to` is the length.
pub fn shift_item<T>(v: &mut Vec<T>, from: usize, to: usize)
    requires
        from < old(v)@.len(),
        to <= old(v)@.len(),
    ensures
        final(v)@ == shifted(old(v)@, from as int, to as int),
{
    let ghost s = v@;
    let item = v.remove(from);
    if from < to {
        v.insert(to - 1, item);
        assert(v@ =~= shifted(s, from as int, to as int));
    } else {
        v.insert(to, item);
        assert(v@ =~= shifted(s, from as int, to as int));
    }
}

/// Moving a tab keeps the number of tabs, and puts the moved tab where it was dropped: before
/// the tab that was at `to`.
pub proof fn lemma_shift_places_item<T>(s: Seq<T>, from: int, to: int)
    requires
        0 <= from < s.len(),
        0 <= to <= s.len(),
    ensures
        shifted(s, from, to).len() == s.len(),
        shifted(s, from, to)[if from < to { to - 1 } else { to }] == s[from],
{
}

} // verus!
