//! One chat's view: the rows of the message table, the message input, mentions, and
//! scrolling to a message.
use vstd::prelude::*;

use crate::app_core::chat::Chat;
use crate::gui::chat::filter::{input_handled, submitted, ChatFilter};
use crate::gui::command::{CommandAction, CommandHelper, opens_chat_without_target};
use crate::text::{chars_of, lowercase_of, push_chars, push_str, string_of, trim, trim_seq};

verus! {

/// The longest message the server accepts, in bytes.
pub const MAX_MESSAGE_LENGTH: usize = 450;

/// A row of the message table.
#[derive(Clone, Copy, Debug, PartialEq, Eq, Structural)]
pub enum RowMetadata {
    /// Empty space above the messages, so that they stick to the bottom of the view.
    Filler,
    /// The line above the first unread message.
    UnreadMarker,
    /// A message, by its position in the chat.
    Message { message_idx: usize },
}

/// The rows for the first `n` messages: each message, preceded by the unread marker when it
/// stands at `pointer` and the marker is shown.
pub open spec fn message_rows(n: nat, marker: bool, pointer: nat) -> Seq<RowMetadata>
    decreases n,
{
    if n == 0 {
        seq![]
    } else {
        let idx = (n - 1) as nat;
        let before = message_rows(idx, marker, pointer);
        let with_marker = if marker && pointer == idx {
            before.push(RowMetadata::UnreadMarker)
        } else {
            before
        };
        with_marker.push(RowMetadata::Message { message_idx: idx as usize })
    }
}

/// All rows of the table: the filler row if asked for, then the message rows.
pub open spec fn chat_rows(add_filler: bool, marker: bool, pointer: nat, n: nat) -> Seq<
    RowMetadata,
> {
    (if add_filler {
        seq![RowMetadata::Filler]
    } else {
        seq![]
    }) + message_rows(n, marker, pointer)
}

/// Builds the table's rows. The unread marker is shown when unread tracking is on, the chat
/// is the active one, and the marker stands before one of the messages. Returns the rows and
/// whether the marker is among them.
pub fn build_row_metadata(
    add_filler_space: bool,
    track_unread_messages: bool,
    is_active_chat: bool,
    prev_unread_pointer: usize,
    message_count: usize,
) -> (r: (Vec<RowMetadata>, bool))
    ensures
        r.0@ == chat_rows(
            add_filler_space,
            track_unread_messages && is_active_chat,
            prev_unread_pointer as nat,
            message_count as nat,
        ),
        r.1 == (track_unread_messages && is_active_chat && prev_unread_pointer < message_count),
{
    let mut rows: Vec<RowMetadata> = Vec::new();
    if add_filler_space {
        rows.push(RowMetadata::Filler);
    }
    let ghost head = rows@;
    let marker = track_unread_messages && is_active_chat;
    let mut unread_marker_active = false;
    for idx in 0..message_count
        invariant
            marker == (track_unread_messages && is_active_chat),
            head == (if add_filler_space {
                seq![RowMetadata::Filler]
            } else {
                seq![]
            }),
            rows@ == head + message_rows(idx as nat, marker, prev_unread_pointer as nat),
            unread_marker_active == (marker && prev_unread_pointer < idx),
    {
        if marker && prev_unread_pointer == idx {
            rows.push(RowMetadata::UnreadMarker);
            unread_marker_active = true;
        }
        rows.push(RowMetadata::Message { message_idx: idx });
    }
    (rows, unread_marker_active)
}

/// The row of the message at position `message_id`, given the table's layout.
pub open spec fn row_of(
    add_filler: bool,
    unread_marker_active: bool,
    pointer: nat,
    message_id: nat,
) -> nat {
    (if add_filler {
        1nat
    } else {
        0nat
    }) + message_id + (if unread_marker_active && pointer <= message_id {
        1nat
    } else {
        0nat
    })
}

/// The row of the message at position `message_id`: past the filler row, and past the unread
/// marker when the message follows it.
pub fn adjusted_row_id(
    add_filler_space: bool,
    unread_marker_active: bool,
    prev_unread_pointer: usize,
    message_id: usize,
) -> (r: usize)
    requires
        message_id + 2 <= usize::MAX,
    ensures
        r == row_of(
            add_filler_space,
            unread_marker_active,
            prev_unread_pointer as nat,
            message_id as nat,
        ),
{
    let filler: usize = if add_filler_space {
        1
    } else {
        0
    };
    let past_marker: usize = if unread_marker_active && prev_unread_pointer <= message_id {
        1
    } else {
        0
    };
    filler + message_id + past_marker
}

/// A view as it is when opened for the chat `name`: empty input, not scrolling, no scroll
/// attempts, and a closed search panel.
pub open spec fn fresh_view(v: ChatView, name: Seq<char>) -> bool {
    &&& v.name() == name
    &&& v.input().len() == 0
    &&& v.scroll_target() is None
    &&& v.attempts() == 0
    &&& !v.search().shown()
}

/// The text and cursor after a mention is inserted into `chars`, the input with the selection
/// removed, at `pos`: into empty input the mention is followed by `: `; at the end of the input
/// it is preceded by a space unless the input ends with one; elsewhere it is inserted as is.
pub open spec fn mention_text(chars: Seq<char>, pos: int, username: Seq<char>) -> Seq<char> {
    if chars.len() == 0 {
        username + ": "@
    } else if pos == chars.len() {
        if chars.last() == ' ' {
            username
        } else {
            seq![' '] + username
        }
    } else {
        username
    }
}

/// The input with the selected characters `start..end` removed.
pub open spec fn without_selection(chars: Seq<char>, start: int, end: int) -> Seq<char> {
    if start != end {
        chars.subrange(0, start) + chars.subrange(end, chars.len() as int)
    } else {
        chars
    }
}

/// The selection's bounds: its smaller and larger end, or the start of the input without one.
pub open spec fn selection_bounds(cursor: Option<(usize, usize)>) -> (int, int) {
    match cursor {
        None => (0, 0),
        Some((a, b)) => if a <= b {
            (a as int, b as int)
        } else {
            (b as int, a as int)
        },
    }
}

/// The input after a mention of `username` replaces the selection, and the new cursor.
pub open spec fn spec_insert_mention(
    input: Seq<char>,
    cursor: Option<(usize, usize)>,
    username: Seq<char>,
) -> (Seq<char>, int) {
    let (start, end) = selection_bounds(cursor);
    let chars = without_selection(input, start, end);
    let insertion = mention_text(chars, start, username);
    (chars.take(start) + insertion + chars.skip(start), start + insertion.len())
}

/// Inserts a mention of `username` at the cursor of a text input, replacing the selection.
/// Returns the new text and the new cursor position.
pub fn insert_mention(input: &str, cursor: Option<(usize, usize)>, username: &str) -> (r: (
    String,
    usize,
))
    requires
        match cursor {
            Some((a, b)) => a <= input@.len() && b <= input@.len(),
            None => true,
        },
        input@.len() + username@.len() + 2 <= usize::MAX,
    ensures
        r.0@ == spec_insert_mention(input@, cursor, username@).0,
        r.1 == spec_insert_mention(input@, cursor, username@).1,
{
    let (start, end) = match cursor {
        None => (0usize, 0usize),
        Some((a, b)) => if a <= b {
            (a, b)
        } else {
            (b, a)
        },
    };
    let cs = chars_of(input);
    let mut chars: Vec<char> = Vec::new();
    if start != end {
        for i in 0..start
            invariant
                start <= cs@.len(),
                chars@ == cs@.subrange(0, i as int),
        {
            chars.push(cs[i]);
            assert(cs@.subrange(0, i + 1) == cs@.subrange(0, i as int).push(cs@[i as int]));
        }
        let n = cs.len();
        for i in end..n
            invariant
                start <= end <= n,
                n == cs@.len(),
                chars@ == cs@.subrange(0, start as int) + cs@.subrange(end as int, i as int),
        {
            chars.push(cs[i]);
            assert(cs@.subrange(end as int, i + 1) == cs@.subrange(end as int, i as int).push(
                cs@[i as int],
            ));
        }
    } else {
        chars = cs;
    }
    assert(chars@ == without_selection(input@, start as int, end as int));
    let user = chars_of(username);
    let mut insertion: Vec<char> = Vec::new();
    if chars.len() == 0 {
        insertion = user;
        insertion.push(':');
        insertion.push(' ');
        proof {
            reveal_strlit(": ");
        }
        assert(insertion@ == username@ + ": "@);
    } else if start == chars.len() {
        if chars[chars.len() - 1] == ' ' {
            insertion = user;
        } else {
            insertion.push(' ');
            let m = user.len();
            for i in 0..m
                invariant
                    m == user@.len(),
                    insertion@ == seq![' '] + user@.take(i as int),
            {
                insertion.push(user[i]);
                assert(user@.take(i + 1) == user@.take(i as int).push(user@[i as int]));
            }
            assert(user@.take(m as int) == user@);
        }
    } else {
        insertion = user;
    }
    let mut out = String::new();
    let n = chars.len();
    for i in 0..start
        invariant
            n == chars@.len(),
            start <= n,
            out@ == chars@.take(i as int),
    {
        crate::text::push_char(&mut out, chars[i]);
        assert(chars@.take(i + 1) == chars@.take(i as int).push(chars@[i as int]));
    }
    push_chars(&mut out, insertion.as_slice());
    let ghost mid = out@;
    for i in start..n
        invariant
            n == chars@.len(),
            start <= n,
            out@ == mid + chars@.subrange(start as int, i as int),
    {
        crate::text::push_char(&mut out, chars[i]);
        assert(chars@.subrange(start as int, i + 1) == chars@.subrange(start as int, i as int).push(
            chars@[i as int],
        ));
    }
    assert(chars@.subrange(start as int, n as int) == chars@.skip(start as int));
    (out, start + insertion.len())
}

/// What Enter in the message input leads to.
#[derive(Debug)]
pub enum InputOutcome {
    /// A command ran.
    Command(CommandAction),
    /// The trimmed text is to be sent to the chat.
    Send(String),
    /// Nothing but white space was typed.
    Nothing,
}

/// One chat's view.
#[derive(Debug)]
pub struct ChatView {
    chat_name: String,
    chat_input: String,
    pub scroll_to: Option<usize>,
    scroll_to_attempts: u8,
    command_helper: CommandHelper,
    filter: ChatFilter,
}

impl ChatView {
    /// The chat shown.
    pub closed spec fn name(self) -> Seq<char> {
        self.chat_name@
    }

    /// The text in the message input.
    pub closed spec fn input(self) -> Seq<char> {
        self.chat_input@
    }

    /// The message the view is scrolling to, if any.
    pub closed spec fn scroll_target(self) -> Option<usize> {
        self.scroll_to
    }

    /// How many frames the view has been scrolling to its target.
    pub closed spec fn attempts(self) -> nat {
        self.scroll_to_attempts as nat
    }

    /// The search panel of the view.
    pub closed spec fn search(self) -> ChatFilter {
        self.filter
    }

    /// The view's parts are consistent.
    pub closed spec fn wf(self) -> bool {
        self.command_helper.wf() && self.filter.wf() && self.scroll_to_attempts < 3
    }

    /// A view of the named chat with empty input, not scrolling, and a closed search panel.
    pub fn new(chat_name: String) -> (v: Self)
        ensures
            v.wf(),
            fresh_view(v, chat_name@),
    {
        ChatView {
            chat_name,
            chat_input: String::new(),
            scroll_to: None,
            scroll_to_attempts: 0,
            command_helper: CommandHelper::new(),
            filter: ChatFilter::new(),
        }
    }

    /// The text in the message input.
    pub fn chat_input(&self) -> (r: &str)
        ensures
            r@ == self.input(),
    {
        self.chat_input.as_str()
    }

    /// Replaces the text in the message input (typing).
    pub fn set_chat_input(&mut self, text: String)
        requires
            old(self).wf(),
        ensures
            final(self).wf(),
            final(self).input() == text@,
            final(self).name() == old(self).name(),
            final(self).scroll_target() == old(self).scroll_target(),
            final(self).search() == old(self).search(),
    {
        self.chat_input = text;
    }

    /// Whether the input holds at least as many bytes as a message may have.
    pub fn message_length_exceeded(&self) -> (r: bool)
        ensures
            r == (vstd::utf8::encode_utf8(self.input()).len() as usize >= MAX_MESSAGE_LENGTH),
    {
        self.chat_input.as_str().len() >= MAX_MESSAGE_LENGTH
    }

    /// Opens the search panel.
    pub fn enable_filter(&mut self)
        requires
            old(self).wf(),
        ensures
            final(self).wf(),
            final(self).search().shown(),
            final(self).search().user_input() == old(self).search().user_input(),
            final(self).search().text_input() == old(self).search().text_input(),
            final(self).search().results() == old(self).search().results(),
            final(self).search().current() == old(self).search().current(),
            final(self).search().last_query() == old(self).search().last_query(),
            final(self).search().performed() == old(self).search().performed(),
            final(self).input() == old(self).input(),
            final(self).name() == old(self).name(),
            final(self).scroll_target() == old(self).scroll_target(),
            final(self).attempts() == old(self).attempts(),
    {
        self.filter.enable();
    }

    /// The search panel.
    pub fn filter(&self) -> (r: &ChatFilter)
        ensures
            *r == self.search(),
    {
        &self.filter
    }

    /// Reacts to the search shortcut and to Escape in this frame (see `input_handled`); a
    /// result stepped to becomes the scroll target. Returns whether the panel was opened now,
    /// and the result stepped to.
    pub fn filter_input(&mut self, shortcut_pressed: bool, shift_pressed: bool, escape_pressed: bool) -> (r: (bool, Option<usize>))
        requires
            old(self).wf(),
        ensures
            final(self).wf(),
            input_handled(old(self).search(), final(self).search(), shortcut_pressed, shift_pressed, escape_pressed, r),
            final(self).scroll_target() == (if r.1 is Some { r.1 } else { old(self).scroll_target() }),
            final(self).input() == old(self).input(),
            final(self).name() == old(self).name(),
    {
        let r = self.filter.handle_input(shortcut_pressed, shift_pressed, escape_pressed);
        match r.1 {
            Some(i) => {
                self.scroll_to = Some(i);
            },
            None => {},
        }
        r
    }

    /// Enter (or the Find button) in the search panel of this view's chat, whose messages are
    /// `chat`'s: nothing when the panel is hidden; otherwise a step or a search (see
    /// `submitted`), whose result becomes the scroll target.
    pub fn filter_submit(&mut self, chat: &Chat, shift_pressed: bool) -> (r: Option<usize>)
        requires
            old(self).wf(),
        ensures
            final(self).wf(),
            !old(self).search().shown() ==> r is None && final(self).search() == old(self).search(),
            old(self).search().shown() ==> submitted(old(self).search(), final(self).search(), chat.messages@, shift_pressed, r),
            final(self).scroll_target() == (if r is Some { r } else { old(self).scroll_target() }),
            final(self).input() == old(self).input(),
            final(self).name() == old(self).name(),
    {
        if !self.filter.is_shown() {
            return None;
        }
        let r = self.filter.submit(chat, shift_pressed);
        match r {
            Some(i) => {
                self.scroll_to = Some(i);
            },
            None => {},
        }
        r
    }

    /// Edits the username query of the search panel (kept in lowercase).
    pub fn set_user_filter(&mut self, text: &str)
        requires
            old(self).wf(),
        ensures
            final(self).wf(),
            final(self).search().user_input() == lowercase_of(text@),
            final(self).search().text_input() == old(self).search().text_input(),
            final(self).search().shown() == old(self).search().shown(),
            final(self).search().results() == old(self).search().results(),
            final(self).search().current() == old(self).search().current(),
            final(self).search().last_query() == old(self).search().last_query(),
            final(self).search().performed() == old(self).search().performed(),
            final(self).scroll_target() == old(self).scroll_target(),
            final(self).input() == old(self).input(),
            final(self).name() == old(self).name(),
    {
        self.filter.set_user_filter_input(text);
    }

    /// Edits the message query of the search panel (kept in lowercase).
    pub fn set_message_filter(&mut self, text: &str)
        requires
            old(self).wf(),
        ensures
            final(self).wf(),
            final(self).search().text_input() == lowercase_of(text@),
            final(self).search().user_input() == old(self).search().user_input(),
            final(self).search().shown() == old(self).search().shown(),
            final(self).search().results() == old(self).search().results(),
            final(self).search().current() == old(self).search().current(),
            final(self).search().last_query() == old(self).search().last_query(),
            final(self).search().performed() == old(self).search().performed(),
            final(self).scroll_target() == old(self).scroll_target(),
            final(self).input() == old(self).input(),
            final(self).name() == old(self).name(),
    {
        self.filter.set_message_filter_input(text);
    }

    /// Inserts a mention of `username` at the input's cursor, replacing its selection; returns
    /// the new cursor position.
    pub fn insert_user_mention(&mut self, cursor: Option<(usize, usize)>, username: &str) -> (r:
        usize)
        requires
            old(self).wf(),
            match cursor {
                Some((a, b)) => a <= old(self).input().len() && b <= old(self).input().len(),
                None => true,
            },
            old(self).input().len() + username@.len() + 2 <= usize::MAX,
        ensures
            final(self).wf(),
            final(self).input() == spec_insert_mention(old(self).input(), cursor, username@).0,
            r == spec_insert_mention(old(self).input(), cursor, username@).1,
            final(self).name() == old(self).name(),
            final(self).scroll_target() == old(self).scroll_target(),
            final(self).search() == old(self).search(),
    {
        let (text, pos) = insert_mention(self.chat_input.as_str(), cursor, username);
        self.chat_input = text;
        pos
    }

    /// Starts scrolling to a message.
    pub fn scroll_to_message(&mut self, message_id: usize)
        requires
            old(self).wf(),
        ensures
            final(self).wf(),
            final(self).scroll_target() == Some(message_id),
            final(self).input() == old(self).input(),
            final(self).name() == old(self).name(),
            final(self).search() == old(self).search(),
            final(self).attempts() == old(self).attempts(),
    {
        self.scroll_to = Some(message_id);
    }

    /// The message to scroll to in this frame. A target is kept for three frames, so that the
    /// scroll takes effect, and then dropped.
    pub fn next_scroll_target(&mut self) -> (r: Option<usize>)
        requires
            old(self).wf(),
        ensures
            final(self).wf(),
            r == old(self).scroll_target(),
            old(self).scroll_target() is None ==> final(self).attempts() == old(self).attempts()
                && final(self).scroll_target() is None,
            old(self).scroll_target() is Some ==> if old(self).attempts() + 1 >= 3 {
                final(self).scroll_target() is None && final(self).attempts() == 0
            } else {
                final(self).scroll_target() == old(self).scroll_target() && final(self).attempts()
                    == old(self).attempts() + 1
            },
            final(self).input() == old(self).input(),
            final(self).name() == old(self).name(),
            final(self).search() == old(self).search(),
    {
        let target = self.scroll_to;
        if target.is_some() {
            self.scroll_to_attempts = self.scroll_to_attempts + 1;
            if self.scroll_to_attempts >= 3 {
                self.scroll_to = None;
                self.scroll_to_attempts = 0;
            }
        }
        target
    }

    /// Enter in the message input: runs a command, or hands over the trimmed text to send.
    /// The input is cleared either way.
    pub fn submit_input(&mut self) -> (r: InputOutcome)
        requires
            old(self).wf(),
            !opens_chat_without_target(old(self).input()),
        ensures
            final(self).wf(),
            final(self).input().len() == 0,
            final(self).name() == old(self).name(),
            final(self).scroll_target() == old(self).scroll_target(),
            final(self).search() == old(self).search(),
            match r {
                InputOutcome::Command(a) => crate::gui::command::is_command_input(old(self).input())
                    && crate::gui::command::command_for(crate::text::words(old(self).input())[0])
                    is Some && crate::gui::command::action_of(
                    crate::gui::command::command_for(crate::text::words(old(self).input())[0])->0,
                    crate::text::words(old(self).input()).drop_first(),
                    a,
                ),
                InputOutcome::Send(t) => t@ == trim_seq(old(self).input()) && t@.len() > 0,
                InputOutcome::Nothing => trim_seq(old(self).input()).len() == 0,
            },
            (crate::gui::command::is_command_input(old(self).input())
                && crate::gui::command::command_for(crate::text::words(old(self).input())[0])
                is Some) == (r is Command),
    {
        match self.command_helper.detect_and_run(&mut self.chat_input) {
            Some(action) => {
                self.chat_input = String::new();
                InputOutcome::Command(action)
            },
            None => {
                let trimmed = trim(self.chat_input.as_str());
                self.chat_input = String::new();
                if trimmed.as_str().is_empty() {
                    InputOutcome::Nothing
                } else {
                    InputOutcome::Send(trimmed)
                }
            },
        }
    }
}

proof fn lemma_message_rows_len(n: nat, marker: bool, pointer: nat)
    ensures
        message_rows(n, marker, pointer).len() == n + (if marker && pointer < n { 1int } else { 0int }),
    decreases n,
{
    if n > 0 {
        lemma_message_rows_len((n - 1) as nat, marker, pointer);
    }
}

proof fn lemma_message_rows_at(n: nat, marker: bool, pointer: nat, id: nat)
    requires
        id < n,
    ensures
        message_rows(n, marker, pointer)[id + (if marker && pointer <= id { 1int } else { 0int })]
            == (RowMetadata::Message { message_idx: id as usize }),
    decreases n,
{
    let idx = (n - 1) as nat;
    lemma_message_rows_len(idx, marker, pointer);
    if id < idx {
        lemma_message_rows_at(idx, marker, pointer, id);
    }
}

/// Every message of the table stands at the row `row_of` gives for it: past the filler row,
/// and past the unread marker when the message follows it.
pub proof fn lemma_row_of_message(add_filler: bool, marker: bool, pointer: nat, n: nat, id: nat)
    requires
        id < n,
    ensures
        row_of(add_filler, marker, pointer, id) < chat_rows(add_filler, marker, pointer, n).len(),
        chat_rows(add_filler, marker, pointer, n)[row_of(add_filler, marker, pointer, id) as int]
            == (RowMetadata::Message { message_idx: id as usize }),
{
    lemma_message_rows_len(n, marker, pointer);
    lemma_message_rows_at(n, marker, pointer, id);
}

/// Clicking a name with the cursor at the end of a non-empty input, nothing selected, adds the
/// name as a word of its own: the result is the input, then a space (the input's own when it
/// already ends with one), then the name, and the cursor stands after the name. The name never
/// joins the last word typed.
pub proof fn lemma_mention_at_end_is_its_own_word(input: Seq<char>, username: Seq<char>, n: usize)
    requires
        input.len() > 0,
        n == input.len(),
    ensures
        ({
            let (t, c) = spec_insert_mention(input, Some((n, n)), username);
            &&& t.len() == input.len() + username.len() + (if input.last() == ' ' {
                0int
            } else {
                1int
            })
            &&& t.take(input.len() as int) == input
            &&& t.skip(t.len() - username.len()) == username
            &&& t[t.len() - username.len() - 1] == ' '
            &&& c == t.len()
        }),
{
    let (t, c) = spec_insert_mention(input, Some((n, n)), username);
    assert(input.take(n as int) =~= input);
    assert(input.skip(n as int) =~= Seq::<char>::empty());
    if input.last() == ' ' {
        assert(t =~= input + username);
        assert(t[t.len() - username.len() - 1] == input[input.len() - 1]);
    } else {
        assert(t =~= input + (seq![' '] + username));
        assert(t[t.len() - username.len() - 1] == ' ');
    }
    assert(t.take(input.len() as int) =~= input);
    assert(t.skip(t.len() - username.len()) =~= username);
}

} // verus!
