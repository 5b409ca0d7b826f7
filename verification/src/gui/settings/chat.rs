//! The lists of chats opened after connecting, as edited in the settings.
use vstd::prelude::*;

use crate::app_core::chat::{ChatType, is_channel, is_channel_name};
use crate::collections::{list_contains, names_of, retain_names, without_names};
use crate::gui::{chat_target, spec_chat_target, valid_chat_name, validate_chat_name};

verus! {

/// The fields in which channels and users are typed to be added to the auto-join list.
#[derive(Debug)]
pub struct AutojoinSection {
    autojoin_channel_input: String,
    autojoin_user_input: String,
}

/// Whether an auto-join entry belongs to the list of the given kind: channels for channels,
/// everything else for users.
pub open spec fn entry_of_kind(entry: Seq<char>, kind: ChatType) -> bool {
    is_channel_name(entry) == (kind == ChatType::Channel)
}

/// The entries of the auto-join list of the given kind, in their order.
pub open spec fn entries_of_kind(list: Seq<String>, kind: ChatType) -> Seq<String>
    decreases list.len(),
{
    if list.len() == 0 {
        seq![]
    } else {
        let rest = entries_of_kind(list.drop_last(), kind);
        if entry_of_kind(list.last()@, kind) {
            rest.push(list.last())
        } else {
            rest
        }
    }
}

impl AutojoinSection {
    /// The text typed in the channel field.
    pub closed spec fn channel_input(self) -> String {
        self.autojoin_channel_input
    }

    /// The text typed in the user field.
    pub closed spec fn user_input(self) -> String {
        self.autojoin_user_input
    }

    /// The field for the given kind.
    pub open spec fn input_for(self, kind: ChatType) -> String {
        if kind == ChatType::Channel {
            self.channel_input()
        } else {
            self.user_input()
        }
    }

    /// Both fields empty.
    pub fn new() -> (s: Self)
        ensures
            s.channel_input()@.len() == 0,
            s.user_input()@.len() == 0,
    {
        AutojoinSection { autojoin_channel_input: String::new(), autojoin_user_input: String::new() }
    }

    /// Replaces the text of the field for the given kind.
    pub fn set_input(&mut self, kind: ChatType, text: String)
        ensures
            final(self).input_for(kind) == text,
            kind == ChatType::Channel ==> final(self).user_input() == old(self).user_input(),
            kind != ChatType::Channel ==> final(self).channel_input() == old(self).channel_input(),
    {
        match kind {
            ChatType::Channel => {
                self.autojoin_channel_input = text;
            },
            _ => {
                self.autojoin_user_input = text;
            },
        }
    }

    /// Adds what is typed in the field for the given kind to the auto-join list, when it is a
    /// valid name: a channel gets a leading `#` when it has none, and an entry already in the
    /// list is not added twice. The field is then emptied. Tells whether the field was taken.
    pub fn add(&mut self, kind: ChatType, autojoin: &mut Vec<String>) -> (taken: bool)
        ensures
            ({
                let input = old(self).input_for(kind)@;
                let entry = spec_chat_target(input, kind);
                &&& taken == (input.len() > 0 && valid_chat_name(input, kind))
                &&& taken ==> final(self).input_for(kind)@.len() == 0
                &&& taken ==> final(autojoin)@.map_values(|s: String| s@) == (if names_of(
                    old(autojoin)@,
                ).contains(entry) {
                    old(autojoin)@.map_values(|s: String| s@)
                } else {
                    old(autojoin)@.map_values(|s: String| s@).push(entry)
                })
                &&& !taken ==> final(autojoin)@ == old(autojoin)@ && final(self).input_for(kind)
                    == old(self).input_for(kind)
            }),
            kind == ChatType::Channel ==> final(self).user_input() == old(self).user_input(),
            kind != ChatType::Channel ==> final(self).channel_input() == old(self).channel_input(),
    {
        let input = match kind {
            ChatType::Channel => &self.autojoin_channel_input,
            _ => &self.autojoin_user_input,
        };
        if input.as_str().is_empty() {
            return false;
        }
        match validate_chat_name(input.as_str(), kind) {
            Ok(()) => {
                let entry = chat_target(input.as_str(), kind);
                let ghost before = autojoin@;
                if !list_contains(autojoin.as_slice(), entry.as_str()) {
                    autojoin.push(entry);
                    assert(autojoin@.map_values(|s: String| s@) == before.map_values(
                        |s: String| s@,
                    ).push(spec_chat_target(old(self).input_for(kind)@, kind)));
                }
                self.set_input(kind, String::new());
                true
            },
            Err(_) => false,
        }
    }

    /// The entries of the auto-join list of the given kind, in their order.
    pub fn entries(autojoin: &[String], kind: ChatType) -> (r: Vec<String>)
        ensures
            r@ == entries_of_kind(autojoin@, kind),
    {
        let mut r: Vec<String> = Vec::new();
        let n = autojoin.len();
        for i in 0..n
            invariant
                n == autojoin@.len(),
                r@ == entries_of_kind(autojoin@.take(i as int), kind),
        {
            assert(autojoin@.take(i + 1).drop_last() == autojoin@.take(i as int));
            let channel = is_channel(autojoin[i].as_str());
            let wanted = match kind {
                ChatType::Channel => channel,
                _ => !channel,
            };
            if wanted {
                r.push(autojoin[i].clone());
            }
        }
        assert(autojoin@.take(n as int) == autojoin@);
        r
    }

    /// Takes the given entries out of the auto-join list, keeping the order of the others.
    pub fn remove(autojoin: &mut Vec<String>, to_remove: &[String])
        ensures
            final(autojoin)@ == without_names(old(autojoin)@, names_of(to_remove@)),
    {
        retain_names(autojoin, to_remove);
    }
}

/// Adding an entry keeps an auto-join list free of repeated names.
pub proof fn lemma_add_keeps_names_distinct(names: Seq<Seq<char>>, entry: Seq<char>)
    requires
        names.no_duplicates(),
    ensures
        (if names.contains(entry) { names } else { names.push(entry) }).no_duplicates(),
{
    if !names.contains(entry) {
        let p = names.push(entry);
        assert forall|i: int, j: int| 0 <= i < p.len() && 0 <= j < p.len() && i != j implies p[i] != p[j] by {
            if i == names.len() as int {
                assert(names[j] == p[j]);
            } else if j == names.len() as int {
                assert(names[i] == p[i]);
            }
        }
    }
}

} // verus!
