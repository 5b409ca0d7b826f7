//! The chat window's logic: tabs, unread state, search, commands and input validation.
pub mod chat;
pub mod chat_tabs;
pub mod command;
pub mod context_menu;
pub mod error;
pub mod filter;
pub mod menu;
pub mod highlights;
pub mod read_tracker;
pub mod settings;
pub mod state;
pub mod update_window;
pub mod usage;
pub mod widgets;
pub mod window;

use vstd::prelude::*;

use crate::app_core::chat::{ChatType, is_channel, is_channel_name};
use crate::text::{ascii_alnum, chars_of, is_ascii_alnum, push_str};

verus! {

/// The name of the tab that collects highlighted messages.
pub const HIGHLIGHTS_TAB_NAME: &'static str = "$highlights";

/// The name of the tab that shows messages from the chat server.
pub const SERVER_TAB_NAME: &'static str = "$server";

/// How highlight keywords are separated in the settings.
pub const HIGHLIGHTS_SEPARATOR: &'static str = ", ";

/// Characters allowed in a username: ASCII letters and digits, and `-`, `_`, space, `[`, `]`, `@`.
pub open spec fn is_username_char(c: char) -> bool {
    is_ascii_alnum(c) || c == '-' || c == '_' || c == ' ' || c == '[' || c == ']' || c == '@'
}

/// Characters allowed in a channel name: ASCII letters and digits, `#` and `_`.
pub open spec fn is_channel_name_char(c: char) -> bool {
    is_ascii_alnum(c) || c == '#' || c == '_'
}

/// Accepts a username made of allowed characters only.
pub fn validate_username(input: &str) -> (r: Result<(), &'static str>)
    ensures
        r is Ok <==> (forall|i: int| 0 <= i < input@.len() ==> is_username_char(#[trigger] input@[i])),
        r matches Err(e) ==> e@ == "invalid username"@,
{
    let cs = chars_of(input);
    let n = cs.len();
    for i in 0..n
        invariant
            n == cs@.len(),
            cs@ == input@,
            forall|j: int| 0 <= j < i ==> is_username_char(#[trigger] input@[j]),
    {
        let ch = cs[i];
        if !(ascii_alnum(ch) || ch == '-' || ch == '_' || ch == ' ' || ch == '[' || ch == ']'
            || ch == '@') {
            proof {
                reveal_strlit("invalid username");
            }
            return Err("invalid username");
        }
    }
    Ok(())
}

/// Accepts a channel name made of allowed characters only.
pub fn validate_channel_name(input: &str) -> (r: Result<(), &'static str>)
    ensures
        r is Ok <==> (forall|i: int|
            0 <= i < input@.len() ==> is_channel_name_char(#[trigger] input@[i])),
        r matches Err(e) ==> e@ == "invalid channel name"@,
{
    let cs = chars_of(input);
    let n = cs.len();
    for i in 0..n
        invariant
            n == cs@.len(),
            cs@ == input@,
            forall|j: int| 0 <= j < i ==> is_channel_name_char(#[trigger] input@[j]),
    {
        let ch = cs[i];
        if !(ascii_alnum(ch) || ch == '#' || ch == '_') {
            proof {
                reveal_strlit("invalid channel name");
            }
            return Err("invalid channel name");
        }
    }
    Ok(())
}

/// Whether `input` is a valid name for a chat of the given kind: a channel name for a
/// channel, a username for any other chat.
pub open spec fn valid_chat_name(input: Seq<char>, kind: ChatType) -> bool {
    if kind == ChatType::Channel {
        forall|i: int| 0 <= i < input.len() ==> is_channel_name_char(#[trigger] input[i])
    } else {
        forall|i: int| 0 <= i < input.len() ==> is_username_char(#[trigger] input[i])
    }
}

/// Checks `input` as a name for a chat of the given kind.
pub fn validate_chat_name(input: &str, kind: ChatType) -> (r: Result<(), &'static str>)
    ensures
        r is Ok <==> valid_chat_name(input@, kind),
{
    match kind {
        ChatType::Channel => validate_channel_name(input),
        _ => validate_username(input),
    }
}

/// The chat a name typed for a chat of the given kind stands for: a channel name gets a
/// leading `#` when it has none.
pub open spec fn spec_chat_target(input: Seq<char>, kind: ChatType) -> Seq<char> {
    if kind == ChatType::Channel && !is_channel_name(input) {
        seq!['#'] + input
    } else {
        input
    }
}

/// The chat a name typed for a chat of the given kind stands for.
pub fn chat_target(input: &str, kind: ChatType) -> (r: String)
    ensures
        r@ == spec_chat_target(input@, kind),
{
    if kind == ChatType::Channel && !is_channel(input) {
        let mut r = String::new();
        push_str(&mut r, "#");
        push_str(&mut r, input);
        proof {
            reveal_strlit("#");
        }
        r
    } else {
        input.to_owned()
    }
}

/// Typing a channel with or without its `#` names the same channel: turning a name into a
/// chat target a second time changes nothing.
pub proof fn lemma_chat_target_idempotent(input: Seq<char>, kind: ChatType)
    ensures
        spec_chat_target(spec_chat_target(input, kind), kind) == spec_chat_target(input, kind),
{
    if kind == ChatType::Channel && !is_channel_name(input) {
        assert((seq!['#'] + input)[0] == '#');
    }
}

#[verifier::external_type_specification]
#[verifier::external_body]
pub struct ExDecodingError(png::DecodingError);

/// Whether `png` reads the header of an image from these bytes.
pub uninterp spec fn png_info_readable(bytes: Seq<u8>) -> bool;

/// The first frame `png` decodes from these bytes, as its pixel bytes, width and height; `None`
/// when decoding the frame fails.
pub uninterp spec fn png_first_frame(bytes: Seq<u8>) -> Option<(Seq<u8>, u32, u32)>;

/// Calls `png::Decoder::read_info` on the bytes and tells whether it succeeds; the contract
/// names the outcome.
#[verifier::external_body]
fn png_header_readable(bytes: &[u8]) -> (r: bool)
    ensures
        r == png_info_readable(bytes@),
{
    png::Decoder::new(std::io::Cursor::new(bytes)).read_info().is_ok()
}

/// Reads the header with `png::Decoder::read_info` (which succeeds on these bytes), then the
/// first frame with `Reader::next_frame` into a buffer of `output_buffer_size` bytes; returns the
/// buffer and `Info::size`. The contract names the outcome; allocation failure is not covered.
#[verifier::external_body]
fn png_decode_first_frame(bytes: &[u8]) -> (r: Result<(Vec<u8>, (u32, u32)), png::DecodingError>)
    requires
        png_info_readable(bytes@),
    ensures
        (r is Ok) == (png_first_frame(bytes@) is Some),
        r matches Ok((buf, (w, h))) ==> png_first_frame(bytes@) == Some((buf@, w, h)),
{
    let mut reader = png::Decoder::new(std::io::Cursor::new(bytes)).read_info().unwrap();
    let mut buf = vec![0; reader.output_buffer_size()];
    match reader.next_frame(&mut buf) {
        Ok(_) => Ok((buf, reader.info().size())),
        Err(e) => Err(e),
    }
}

/// Decodes the first frame of a PNG image whose header is readable: its pixel bytes, and its
/// width and height.
pub fn png_to_rgba(bytes: &[u8]) -> (r: Result<(Vec<u8>, (u32, u32)), png::DecodingError>)
    requires
        png_info_readable(bytes@),
    ensures
        (r is Ok) == (png_first_frame(bytes@) is Some),
        r matches Ok((buf, (w, h))) ==> png_first_frame(bytes@) == Some((buf@, w, h)),
{
    png_decode_first_frame(bytes)
}

/// Decodes a PNG image as `png_to_rgba` does, after checking that its header is readable;
/// `None` when it is not.
pub fn try_png_to_rgba(bytes: &[u8]) -> (r: Option<Result<(Vec<u8>, (u32, u32)), png::DecodingError>>)
    ensures
        (r is Some) == png_info_readable(bytes@),
        r matches Some(d) ==> (d is Ok) == (png_first_frame(bytes@) is Some),
        r matches Some(Ok((buf, (w, h)))) ==> png_first_frame(bytes@) == Some((buf@, w, h)),
{
    if png_header_readable(bytes) {
        Some(png_to_rgba(bytes))
    } else {
        None
    }
}

/// A name is a valid username, and opens a private chat, exactly when each of its characters is
/// an ASCII letter or digit or one of `-`, `_`, space, `[`, `]` and `@`.
pub proof fn lemma_username_alphabet(name: Seq<char>)
    ensures
        valid_chat_name(name, ChatType::Person) <==> forall|i: int|
            0 <= i < name.len() ==> is_ascii_alnum(#[trigger] name[i]) || "-_ []@"@.contains(
                name[i],
            ),
        (forall|i: int| 0 <= i < name.len() ==> is_username_char(#[trigger] name[i]))
            == valid_chat_name(name, ChatType::Person),
{
    reveal_strlit("-_ []@");
    let allowed = "-_ []@"@;
    assert forall|c: char| is_username_char(c) <==> (is_ascii_alnum(c) || allowed.contains(c)) by {
        if c == '-' { assert(allowed[0] == c); }
        if c == '_' { assert(allowed[1] == c); }
        if c == ' ' { assert(allowed[2] == c); }
        if c == '[' { assert(allowed[3] == c); }
        if c == ']' { assert(allowed[4] == c); }
        if c == '@' { assert(allowed[5] == c); }
    }
}

} // verus!
