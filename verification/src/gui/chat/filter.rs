//! The per-chat search panel: finds the messages whose author and text contain the entered
//! strings, and steps through the results.
use vstd::prelude::*;

use crate::app_core::chat::{Chat, Message, MessageType};
use crate::text::{contains_seq, lowercase_of, push_decimal, push_str, str_contains, to_lowercase};

verus! {

/// What the search panel asks for after Enter or the Find button.
#[derive(Clone, Copy, Debug, PartialEq, Eq, Structural)]
pub enum FilterAction {
    Search,
    NavigateToResult(usize),
}

/// Whether a message matches a query: it is not a system message, and its author's and its
/// text's lowercase forms contain the (non-empty) username and message queries.
pub open spec fn message_matches(m: Message, user_query: Seq<char>, text_query: Seq<char>) -> bool {
    &&& m.message_type != MessageType::System
    &&& (user_query.len() == 0 || contains_seq(lowercase_of(m.username@), user_query))
    &&& (text_query.len() == 0 || contains_seq(lowercase_of(m.text@), text_query))
}

/// The positions below `n` of the messages matching a query, in increasing order.
pub open spec fn matching_positions(
    msgs: Seq<Message>,
    user_query: Seq<char>,
    text_query: Seq<char>,
    n: nat,
) -> Seq<usize>
    decreases n,
{
    if n == 0 {
        seq![]
    } else {
        let before = matching_positions(msgs, user_query, text_query, (n - 1) as nat);
        if message_matches(msgs[n - 1], user_query, text_query) {
            before.push((n - 1) as usize)
        } else {
            before
        }
    }
}

/// The results of a search: none for an empty query, else the positions of the matching
/// messages, in increasing order.
pub open spec fn search_results(
    msgs: Seq<Message>,
    user_query: Seq<char>,
    text_query: Seq<char>,
) -> Seq<usize> {
    if user_query.len() == 0 && text_query.len() == 0 {
        seq![]
    } else {
        matching_positions(msgs, user_query, text_query, msgs.len())
    }
}

/// The result after `i` when stepping forward through `n` results, wrapping around.
pub open spec fn next_index(i: int, n: int) -> int {
    (i + 1) % n
}

/// The result before `i` when stepping back through `n` results, wrapping around.
pub open spec fn prev_index(i: int, n: int) -> int {
    (n + i - 1) % n
}

/// `f` and `r` are what the search shortcut and Escape make of the panel `o`: the shortcut opens
/// a hidden panel (without searching) or steps to the next result (previous with Shift) of an
/// open one; Escape then closes an open panel and forgets the search. `r` tells whether the
/// panel was opened now, and the position of a message to scroll to.
pub open spec fn input_handled(
    o: ChatFilter,
    f: ChatFilter,
    shortcut_pressed: bool,
    shift_pressed: bool,
    escape_pressed: bool,
    r: (bool, Option<usize>),
) -> bool {
    let cleared = escape_pressed && (o.shown() || shortcut_pressed);
    let steps = shortcut_pressed && o.shown() && o.results().len() > 0;
    let n = o.results().len() as int;
    let stepped = if shift_pressed {
        prev_index(o.current(), n)
    } else {
        next_index(o.current(), n)
    };
    &&& f.user_input() == o.user_input()
    &&& f.text_input() == o.text_input()
    &&& f.shown() == ((o.shown() || shortcut_pressed) && !cleared)
    &&& r.0 == (shortcut_pressed && !o.shown() && !escape_pressed)
    &&& r.1 == (if steps {
        Some(o.results()[stepped])
    } else {
        None
    })
    &&& if cleared {
        &&& f.results().len() == 0
        &&& f.current() == 0
        &&& !f.performed()
        &&& f.last_query() == (Seq::<char>::empty(), Seq::<char>::empty())
    } else {
        &&& f.results() == o.results()
        &&& f.performed() == o.performed()
        &&& f.last_query() == o.last_query()
        &&& f.current() == (if steps {
            stepped
        } else {
            o.current()
        })
    }
}

/// `f` and `r` are what Enter (or the Find button) in the panel `o` of a chat with the messages
/// `msgs` leads to: with Shift, a step to the previous result; otherwise a new search when there
/// are no results or the query changed (which keeps the results of an unchanged query), else a
/// step to the next result. `r` is the position of a message to scroll to.
pub open spec fn submitted(o: ChatFilter, f: ChatFilter, msgs: Seq<Message>, shift_pressed: bool, r: Option<usize>) -> bool {
    let n = o.results().len() as int;
    &&& f.user_input() == o.user_input()
    &&& f.text_input() == o.text_input()
    &&& f.shown() == o.shown()
    &&& if shift_pressed || (n > 0 && o.last_query() == o.entered_query()) {
        let i = if shift_pressed {
            prev_index(o.current(), n)
        } else {
            next_index(o.current(), n)
        };
        &&& f.results() == o.results()
        &&& f.performed() == o.performed()
        &&& f.last_query() == o.last_query()
        &&& if n > 0 {
            f.current() == i && r == Some(o.results()[i])
        } else {
            f.current() == o.current() && r is None
        }
    } else {
        &&& f.performed()
        &&& f.last_query() == o.entered_query()
        &&& f.results() == (if o.entered_query() != o.last_query() {
            search_results(msgs, o.user_input(), o.text_input())
        } else {
            o.results()
        })
        &&& f.results().len() > 0 ==> f.current() == 0
        &&& r == (if f.results().len() > 0 {
            Some(f.results()[0])
        } else {
            None
        })
    }
}

/// The search state of one chat.
#[derive(Debug)]
pub struct ChatFilter {
    pub should_show_filter: bool,
    pub user_filter_input: String,
    pub message_filter_input: String,

    cached_search_results: Vec<usize>,
    current_search_index: usize,
    last_search_query: (String, String),
    search_performed: bool,
}

impl ChatFilter {
    /// The result being shown is one of the results.
    pub closed spec fn wf(self) -> bool {
        self.results().len() > 0 ==> self.current() < self.results().len()
    }

    /// The positions of the messages found by the last search.
    pub closed spec fn results(self) -> Seq<usize> {
        self.cached_search_results@
    }

    /// The index, among the results, of the result being shown.
    pub closed spec fn current(self) -> int {
        self.current_search_index as int
    }

    /// The query of the last search: username and message text.
    pub closed spec fn last_query(self) -> (Seq<char>, Seq<char>) {
        (self.last_search_query.0@, self.last_search_query.1@)
    }

    /// Whether a search was run since the panel was last closed.
    pub closed spec fn performed(self) -> bool {
        self.search_performed
    }

    /// Whether the panel is shown.
    pub closed spec fn shown(self) -> bool {
        self.should_show_filter
    }

    /// The entered username query.
    pub closed spec fn user_input(self) -> Seq<char> {
        self.user_filter_input@
    }

    /// The entered message query.
    pub closed spec fn text_input(self) -> Seq<char> {
        self.message_filter_input@
    }

    /// The query as it is entered now.
    pub closed spec fn entered_query(self) -> (Seq<char>, Seq<char>) {
        (self.user_filter_input@, self.message_filter_input@)
    }

    /// A hidden panel with empty inputs and no results.
    pub fn new() -> (f: Self)
        ensures
            f.wf(),
            !f.shown(),
            f.user_input().len() == 0,
            f.text_input().len() == 0,
            f.results().len() == 0,
            f.current() == 0,
            f.last_query() == (Seq::<char>::empty(), Seq::<char>::empty()),
            !f.performed(),
    {
        ChatFilter {
            should_show_filter: false,
            user_filter_input: String::new(),
            message_filter_input: String::new(),
            cached_search_results: Vec::new(),
            current_search_index: 0,
            last_search_query: (String::new(), String::new()),
            search_performed: false,
        }
    }

    /// Shows the panel.
    pub fn enable(&mut self)
        ensures
            final(self).wf() == old(self).wf(),
            final(self).shown(),
            final(self).user_input() == old(self).user_input(),
            final(self).text_input() == old(self).text_input(),
            final(self).results() == old(self).results(),
            final(self).current() == old(self).current(),
            final(self).last_query() == old(self).last_query(),
            final(self).performed() == old(self).performed(),
    {
        self.should_show_filter = true;
    }

    /// Whether the panel is shown.
    pub fn is_shown(&self) -> (r: bool)
        ensures
            r == self.shown(),
    {
        self.should_show_filter
    }

    /// Whether the panel is shown with the results of a search.
    pub fn is_active(&self) -> (r: bool)
        ensures
            r == (self.shown() && self.performed() && self.results().len() > 0),
    {
        self.should_show_filter && self.search_performed && self.cached_search_results.len() > 0
    }

    /// Whether the last search found anything.
    pub fn has_results(&self) -> (r: bool)
        ensures
            r == (self.results().len() > 0),
    {
        self.cached_search_results.len() > 0
    }

    /// The position of the message being shown, if any.
    pub fn get_current_result_index(&self) -> (r: Option<usize>)
        ensures
            r == (if 0 <= self.current() < self.results().len() {
                Some(self.results()[self.current()])
            } else {
                None
            }),
    {
        if self.current_search_index < self.cached_search_results.len() {
            Some(self.cached_search_results[self.current_search_index])
        } else {
            None
        }
    }

    /// For a message found by the search while the panel is shown: whether it is the result
    /// being shown.
    pub fn is_message_highlighted(&self, message_idx: usize) -> (r: Option<bool>)
        ensures
            r == (if !self.shown() || !self.results().contains(message_idx) {
                None::<bool>
            } else {
                Some(
                    0 <= self.current() < self.results().len() && self.results()[self.current()]
                        == message_idx,
                )
            }),
    {
        if !self.should_show_filter {
            return None;
        }
        let n = self.cached_search_results.len();
        let mut found = false;
        for i in 0..n
            invariant
                n == self.results().len(),
                found == (exists|j: int| 0 <= j < i && self.results()[j] == message_idx),
        {
            if self.cached_search_results[i] == message_idx {
                found = true;
            }
        }
        if !found {
            return None;
        }
        let is_current_result = match self.get_current_result_index() {
            Some(current_idx) => current_idx == message_idx,
            None => false,
        };
        Some(is_current_result)
    }

    /// Runs the search if the entered query differs from the last one.
    pub fn search_messages(&mut self, chat: &Chat)
        ensures
            final(self).shown() == old(self).shown(),
            final(self).user_input() == old(self).user_input(),
            final(self).text_input() == old(self).text_input(),
            final(self).performed() == old(self).performed(),
            old(self).wf() ==> final(self).wf(),
            if old(self).entered_query() != old(self).last_query() {
                &&& final(self).results() == search_results(
                    chat.messages@,
                    old(self).user_input(),
                    old(self).text_input(),
                )
                &&& final(self).current() == 0
                &&& final(self).last_query() == old(self).entered_query()
            } else {
                &&& final(self).results() == old(self).results()
                &&& final(self).current() == old(self).current()
                &&& final(self).last_query() == old(self).last_query()
            },
    {
        let same_user = self.user_filter_input == self.last_search_query.0;
        let same_text = self.message_filter_input == self.last_search_query.1;
        if same_user && same_text {
            return;
        }
        self.cached_search_results = Vec::new();
        self.current_search_index = 0;
        self.last_search_query = (self.user_filter_input.clone(), self.message_filter_input.clone());

        let user_query = self.user_filter_input.as_str();
        let text_query = self.message_filter_input.as_str();
        if user_query.is_empty() && text_query.is_empty() {
            return;
        }
        let n = chat.messages.len();
        let mut results: Vec<usize> = Vec::new();
        for idx in 0..n
            invariant
                n == chat.messages@.len(),
                results@ == matching_positions(
                    chat.messages@,
                    user_query@,
                    text_query@,
                    idx as nat,
                ),
        {
            let message = &chat.messages[idx];
            if message.message_type != MessageType::System {
                let username_matches = user_query.is_empty() || {
                    let lowered = to_lowercase(message.username.as_str());
                    str_contains(lowered.as_str(), user_query)
                };
                let message_matches = text_query.is_empty() || {
                    let lowered = to_lowercase(message.text.as_str());
                    str_contains(lowered.as_str(), text_query)
                };
                if username_matches && message_matches {
                    results.push(idx);
                }
            }
        }
        self.cached_search_results = results;
    }

    /// Steps to the next result, wrapping around, and returns its position.
    pub fn navigate_to_next_result(&mut self) -> (r: Option<usize>)
        requires
            old(self).wf(),
        ensures
            final(self).wf(),
            final(self).results() == old(self).results(),
            final(self).last_query() == old(self).last_query(),
            final(self).performed() == old(self).performed(),
            final(self).shown() == old(self).shown(),
            final(self).user_input() == old(self).user_input(),
            final(self).text_input() == old(self).text_input(),
            if old(self).results().len() > 0 {
                &&& final(self).current() == next_index(
                    old(self).current(),
                    old(self).results().len() as int,
                )
                &&& r == Some(final(self).results()[final(self).current()])
            } else {
                &&& final(self).current() == old(self).current()
                &&& r is None
            },
    {
        let n = self.cached_search_results.len();
        if n > 0 {
            self.current_search_index = (self.current_search_index + 1) % n;
            Some(self.cached_search_results[self.current_search_index])
        } else {
            None
        }
    }

    /// Steps to the previous result, wrapping around, and returns its position.
    pub fn navigate_to_prev_result(&mut self) -> (r: Option<usize>)
        requires
            old(self).wf(),
        ensures
            final(self).wf(),
            final(self).results() == old(self).results(),
            final(self).last_query() == old(self).last_query(),
            final(self).performed() == old(self).performed(),
            final(self).shown() == old(self).shown(),
            final(self).user_input() == old(self).user_input(),
            final(self).text_input() == old(self).text_input(),
            if old(self).results().len() > 0 {
                &&& final(self).current() == prev_index(
                    old(self).current(),
                    old(self).results().len() as int,
                )
                &&& r == Some(final(self).results()[final(self).current()])
            } else {
                &&& final(self).current() == old(self).current()
                &&& r is None
            },
    {
        let n = self.cached_search_results.len();
        if n > 0 {
            self.current_search_index = if self.current_search_index == 0 {
                n - 1
            } else {
                self.current_search_index - 1
            };
            assert(self.current() == prev_index(old(self).current(), n as int)) by {
                let i = old(self).current();
                if i == 0 {
                    vstd::arithmetic::div_mod::lemma_small_mod((n - 1) as nat, n as nat);
                } else {
                    vstd::arithmetic::div_mod::lemma_mod_add_multiples_vanish(i - 1, n as int);
                    vstd::arithmetic::div_mod::lemma_small_mod((i - 1) as nat, n as nat);
                }
            }
            Some(self.cached_search_results[self.current_search_index])
        } else {
            None
        }
    }

    /// Forgets the last search.
    pub fn clear_search_cache(&mut self)
        ensures
            final(self).wf(),
            final(self).results().len() == 0,
            final(self).current() == 0,
            final(self).last_query() == (Seq::<char>::empty(), Seq::<char>::empty()),
            !final(self).performed(),
            final(self).shown() == old(self).shown(),
            final(self).user_input() == old(self).user_input(),
            final(self).text_input() == old(self).text_input(),
            final(self).entered_query() == old(self).entered_query(),
    {
        self.cached_search_results = Vec::new();
        self.current_search_index = 0;
        self.last_search_query = (String::new(), String::new());
        self.search_performed = false;
    }

    /// Runs the search for the entered query and returns the position of its first result.
    pub fn perform_search(&mut self, chat: &Chat) -> (r: Option<usize>)
        requires
            old(self).wf(),
        ensures
            final(self).wf(),
            final(self).performed(),
            final(self).last_query() == old(self).entered_query(),
            final(self).shown() == old(self).shown(),
            final(self).user_input() == old(self).user_input(),
            final(self).text_input() == old(self).text_input(),
            old(self).entered_query() != old(self).last_query() ==> final(self).results()
                == search_results(
                chat.messages@,
                old(self).user_input(),
                old(self).text_input(),
            ),
            old(self).entered_query() == old(self).last_query() ==> final(self).results()
                == old(self).results(),
            final(self).results().len() > 0 ==> final(self).current() == 0,
            r == (if final(self).results().len() > 0 {
                Some(final(self).results()[0])
            } else {
                None
            }),
    {
        self.search_messages(chat);
        self.search_performed = true;
        if self.cached_search_results.len() > 0 {
            self.current_search_index = 0;
            Some(self.cached_search_results[0])
        } else {
            None
        }
    }

    /// What Enter (or the Find button) asks for: with Shift, the previous result; otherwise a
    /// new search when there are no results or the query changed, else the next result.
    pub fn handle_search_navigation(&mut self, shift_pressed: bool) -> (r: Option<FilterAction>)
        requires
            old(self).wf(),
        ensures
            final(self).wf(),
            final(self).results() == old(self).results(),
            final(self).last_query() == old(self).last_query(),
            final(self).performed() == old(self).performed(),
            final(self).shown() == old(self).shown(),
            final(self).user_input() == old(self).user_input(),
            final(self).text_input() == old(self).text_input(),
            shift_pressed ==> (if old(self).results().len() > 0 {
                &&& final(self).current() == prev_index(
                    old(self).current(),
                    old(self).results().len() as int,
                )
                &&& r == Some(FilterAction::NavigateToResult(final(self).results()[final(self).current()]))
            } else {
                final(self).current() == old(self).current() && r is None
            }),
            !shift_pressed ==> (if old(self).results().len() == 0 || old(self).last_query()
                != old(self).entered_query() {
                final(self).current() == old(self).current() && r == Some(FilterAction::Search)
            } else {
                &&& final(self).current() == next_index(
                    old(self).current(),
                    old(self).results().len() as int,
                )
                &&& r == Some(FilterAction::NavigateToResult(final(self).results()[final(self).current()]))
            }),
    {
        if shift_pressed {
            match self.navigate_to_prev_result() {
                Some(i) => Some(FilterAction::NavigateToResult(i)),
                None => None,
            }
        } else {
            let same_query = self.last_search_query.0 == self.user_filter_input
                && self.last_search_query.1 == self.message_filter_input;
            if self.cached_search_results.len() == 0 || !same_query {
                Some(FilterAction::Search)
            } else {
                match self.navigate_to_next_result() {
                    Some(i) => Some(FilterAction::NavigateToResult(i)),
                    None => None,
                }
            }
        }
    }

    /// Reacts to the search shortcut and to Escape. The shortcut opens a hidden panel (without
    /// searching), or steps to the next result (previous with Shift) in an open one; Escape
    /// closes an open panel and forgets the search. Returns whether the panel was opened now,
    /// and the position of a message to scroll to.
    pub fn handle_input(
        &mut self,
        shortcut_pressed: bool,
        shift_pressed: bool,
        escape_pressed: bool,
    ) -> (r: (bool, Option<usize>))
        requires
            old(self).wf(),
        ensures
            final(self).wf(),
            input_handled(*old(self), *final(self), shortcut_pressed, shift_pressed, escape_pressed, r),
    {
        let mut activated_now = false;
        let mut scroll_to = None;
        if shortcut_pressed {
            if !self.should_show_filter {
                self.should_show_filter = true;
                activated_now = true;
            } else if shift_pressed {
                scroll_to = self.navigate_to_prev_result();
            } else {
                scroll_to = self.navigate_to_next_result();
            }
        }
        if self.should_show_filter && escape_pressed {
            self.should_show_filter = false;
            self.clear_search_cache();
            activated_now = false;
        }
        (activated_now, scroll_to)
    }

    /// Carries out what the panel asked for this frame, and returns the position of a message
    /// to scroll to.
    pub fn apply_action(&mut self, action: Option<FilterAction>, chat: &Chat) -> (r: Option<usize>)
        requires
            old(self).wf(),
        ensures
            final(self).wf(),
            match action {
                Some(FilterAction::Search) => {
                    &&& final(self).performed()
                    &&& final(self).last_query() == old(self).entered_query()
                    &&& final(self).shown() == old(self).shown()
                    &&& final(self).user_input() == old(self).user_input()
                    &&& final(self).text_input() == old(self).text_input()
                    &&& final(self).results() == (if old(self).entered_query()
                        != old(self).last_query() {
                        search_results(chat.messages@, old(self).user_input(), old(self).text_input())
                    } else {
                        old(self).results()
                    })
                    &&& final(self).results().len() > 0 ==> final(self).current() == 0
                    &&& r == (if final(self).results().len() > 0 {
                        Some(final(self).results()[0])
                    } else {
                        None
                    })
                },
                Some(FilterAction::NavigateToResult(i)) => r == Some(i) && *final(self) == *old(self),
                None => r is None && *final(self) == *old(self),
            },
    {
        match action {
            Some(FilterAction::Search) => self.perform_search(chat),
            Some(FilterAction::NavigateToResult(i)) => Some(i),
            None => None,
        }
    }

    /// What Enter (or the Find button) does in the panel: decides on a step or a search, carries
    /// it out, and returns the position of a message to scroll to.
    pub fn submit(&mut self, chat: &Chat, shift_pressed: bool) -> (r: Option<usize>)
        requires
            old(self).wf(),
        ensures
            final(self).wf(),
            submitted(*old(self), *final(self), chat.messages@, shift_pressed, r),
    {
        let action = self.handle_search_navigation(shift_pressed);
        self.apply_action(action, chat)
    }

    /// Replaces the username query; as the panel does with an edit, it is kept in lowercase.
    pub fn set_user_filter_input(&mut self, text: &str)
        requires
            old(self).wf(),
        ensures
            final(self).wf(),
            final(self).user_input() == lowercase_of(text@),
            final(self).text_input() == old(self).text_input(),
            final(self).shown() == old(self).shown(),
            final(self).results() == old(self).results(),
            final(self).current() == old(self).current(),
            final(self).last_query() == old(self).last_query(),
            final(self).performed() == old(self).performed(),
    {
        self.user_filter_input = to_lowercase(text);
    }

    /// Replaces the message query; as the panel does with an edit, it is kept in lowercase.
    pub fn set_message_filter_input(&mut self, text: &str)
        requires
            old(self).wf(),
        ensures
            final(self).wf(),
            final(self).text_input() == lowercase_of(text@),
            final(self).user_input() == old(self).user_input(),
            final(self).shown() == old(self).shown(),
            final(self).results() == old(self).results(),
            final(self).current() == old(self).current(),
            final(self).last_query() == old(self).last_query(),
            final(self).performed() == old(self).performed(),
    {
        self.message_filter_input = to_lowercase(text);
    }

    /// In a consistent panel the result being shown is one of the results, when there are
    /// any, and its index is never negative; there is a result being shown exactly when there
    /// are results. The entered query is the username and the message query.
    pub proof fn lemma_current_in_range(self)
        requires
            self.wf(),
        ensures
            0 <= self.current(),
            self.results().len() > 0 ==> self.current() < self.results().len(),
            (self.results().len() > 0) == (0 <= self.current() < self.results().len()),
            self.entered_query() == (self.user_input(), self.text_input()),
    {
    }

    /// The line shown beside the Find button: "N of M results", "No results" after a search
    /// that found nothing, or nothing before a search.
    pub fn results_label(&self) -> (r: Option<String>)
        requires
            self.wf(),
        ensures
            self.results().len() > 0 ==> (r matches Some(s) && s@ == crate::text::decimal(
                (self.current() + 1) as nat,
            ) + " of "@ + crate::text::decimal(self.results().len()) + " results"@),
            self.results().len() == 0 && self.performed() ==> (r matches Some(s) && s@
                == "No results"@),
            self.results().len() == 0 && !self.performed() ==> r is None,
    {
        let n = self.cached_search_results.len();
        if n > 0 {
            let mut s = String::new();
            push_decimal(&mut s, (self.current_search_index + 1) as u64);
            push_str(&mut s, " of ");
            push_decimal(&mut s, n as u64);
            push_str(&mut s, " results");
            Some(s)
        } else if self.search_performed {
            Some(String::from_str("No results"))
        } else {
            None
        }
    }
}

/// Stepping back undoes stepping forward through the results, and stepping forward undoes
/// stepping back; both stay among the results.
pub proof fn lemma_prev_undoes_next(i: int, n: int)
    requires
        0 <= i < n,
    ensures
        0 <= next_index(i, n) < n,
        0 <= prev_index(i, n) < n,
        prev_index(next_index(i, n), n) == i,
        next_index(prev_index(i, n), n) == i,
{
    if i + 1 < n {
        vstd::arithmetic::div_mod::lemma_small_mod((i + 1) as nat, n as nat);
        vstd::arithmetic::div_mod::lemma_mod_add_multiples_vanish(i, n);
        vstd::arithmetic::div_mod::lemma_small_mod(i as nat, n as nat);
    } else {
        vstd::arithmetic::div_mod::lemma_mod_self_0(n);
        vstd::arithmetic::div_mod::lemma_small_mod((n - 1) as nat, n as nat);
    }
    if i > 0 {
        vstd::arithmetic::div_mod::lemma_mod_add_multiples_vanish(i - 1, n);
        vstd::arithmetic::div_mod::lemma_small_mod((i - 1) as nat, n as nat);
        vstd::arithmetic::div_mod::lemma_small_mod(i as nat, n as nat);
    } else {
        vstd::arithmetic::div_mod::lemma_small_mod((n - 1) as nat, n as nat);
        vstd::arithmetic::div_mod::lemma_mod_self_0(n);
    }
}

/// The result reached from `i` after `k` steps forward through `n` results.
pub open spec fn advance(i: int, n: int, k: nat) -> int
    decreases k,
{
    if k == 0 {
        i
    } else {
        next_index(advance(i, n, (k - 1) as nat), n)
    }
}

proof fn lemma_advance_mod(i: int, n: int, k: nat)
    requires
        0 <= i < n,
    ensures
        advance(i, n, k) == (i + k) % n,
    decreases k,
{
    if k == 0 {
        vstd::arithmetic::div_mod::lemma_small_mod(i as nat, n as nat);
    } else {
        lemma_advance_mod(i, n, (k - 1) as nat);
        vstd::arithmetic::div_mod::lemma_add_mod_noop(i + k - 1, 1, n);
        if n > 1 {
            vstd::arithmetic::div_mod::lemma_small_mod(1, n as nat);
        } else {
            vstd::arithmetic::div_mod::lemma_mod_multiples_basic(i + k, 1);
            vstd::arithmetic::div_mod::lemma_mod_multiples_basic(advance(i, n, (k - 1) as nat) + 1, 1);
        }
    }
}

/// Stepping forward through all `n` results comes back to the result one started from.
pub proof fn lemma_full_cycle(i: int, n: int)
    requires
        0 <= i < n,
    ensures
        advance(i, n, n as nat) == i,
{
    lemma_advance_mod(i, n, n as nat);
    vstd::arithmetic::div_mod::lemma_mod_add_multiples_vanish(i, n);
    vstd::arithmetic::div_mod::lemma_small_mod(i as nat, n as nat);
}

/// In a panel with results, stepping to the next result and then back to the previous one
/// returns to the result shown before.
pub proof fn lemma_panel_prev_undoes_next(f: ChatFilter)
    requires
        f.wf(),
        f.results().len() > 0,
    ensures
        prev_index(next_index(f.current(), f.results().len() as int), f.results().len() as int)
            == f.current(),
{
    f.lemma_current_in_range();
    lemma_prev_undoes_next(f.current(), f.results().len() as int);
}

} // verus!
