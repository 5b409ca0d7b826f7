//! The context menus of chat tabs, usernames and links: their entries, and the pages they open.
use vstd::prelude::*;

use crate::app_core::chat::ChatType;
use crate::text::push_str;

verus! {

/// The entries of the context menus.
#[derive(Clone, Copy, Debug, PartialEq, Eq, Structural)]
pub enum MenuItem {
    OpenChat,
    OpenChatUserProfile,
    TranslateMessage,
    CopyUsername,
    CopyMessage,
    OpenChatLog,
    AddToFavourites,
    RemoveFromFavourites,
    ClearChatTab,
    DetachChat,
    ReattachChat,
    CopyUrl,
}

/// The text of a menu entry, with its icon or without.
pub open spec fn item_label(item: MenuItem, show_icon: bool) -> Seq<char> {
    match item {
        MenuItem::OpenChat => if show_icon { "💬 Open chat"@ } else { "Open chat"@ },
        MenuItem::OpenChatUserProfile => if show_icon { "🔎 View profile"@ } else { "View profile"@ },
        MenuItem::TranslateMessage => if show_icon {
            "🌐 Translate message"@
        } else {
            "Translate message"@
        },
        MenuItem::CopyUsername => if show_icon { "📋 Copy username"@ } else { "Copy username"@ },
        MenuItem::CopyMessage => if show_icon { "📋 Copy message"@ } else { "Copy message"@ },
        MenuItem::OpenChatLog => if show_icon { "📜 Open chat log"@ } else { "Open chat log"@ },
        MenuItem::AddToFavourites => if show_icon {
            "❤️ Add to favourites"@
        } else {
            "Add to favourites"@
        },
        MenuItem::RemoveFromFavourites => if show_icon {
            "❤️ Remove from favourites"@
        } else {
            "Remove from favourites"@
        },
        MenuItem::ClearChatTab => if show_icon { "🧼 Clear chat"@ } else { "Clear chat"@ },
        MenuItem::DetachChat => if show_icon {
            "🗗 Open in a separate window"@
        } else {
            "Open in a separate window"@
        },
        MenuItem::ReattachChat => if show_icon {
            "🗖 Return to the main window"@
        } else {
            "Return to the main window"@
        },
        MenuItem::CopyUrl => "Copy URL"@,
    }
}

/// The text of a menu entry, with its icon or without.
pub fn label(item: MenuItem, show_icon: bool) -> (r: &'static str)
    ensures
        r@ == item_label(item, show_icon),
{
    match item {
        MenuItem::OpenChat => if show_icon { "💬 Open chat" } else { "Open chat" },
        MenuItem::OpenChatUserProfile => if show_icon { "🔎 View profile" } else { "View profile" },
        MenuItem::TranslateMessage => if show_icon {
            "🌐 Translate message"
        } else {
            "Translate message"
        },
        MenuItem::CopyUsername => if show_icon { "📋 Copy username" } else { "Copy username" },
        MenuItem::CopyMessage => if show_icon { "📋 Copy message" } else { "Copy message" },
        MenuItem::OpenChatLog => if show_icon { "📜 Open chat log" } else { "Open chat log" },
        MenuItem::AddToFavourites => if show_icon {
            "❤️ Add to favourites"
        } else {
            "Add to favourites"
        },
        MenuItem::RemoveFromFavourites => if show_icon {
            "❤️ Remove from favourites"
        } else {
            "Remove from favourites"
        },
        MenuItem::ClearChatTab => if show_icon { "🧼 Clear chat" } else { "Clear chat" },
        MenuItem::DetachChat => if show_icon {
            "🗗 Open in a separate window"
        } else {
            "Open in a separate window"
        },
        MenuItem::ReattachChat => if show_icon {
            "🗖 Return to the main window"
        } else {
            "Return to the main window"
        },
        MenuItem::CopyUrl => "Copy URL",
    }
}

/// The entry that closes a chat: "Leave" for a channel, "Close" for a private chat, and none
/// for the interface's own tabs.
pub fn close_chat_label(mode: ChatType, show_icon: bool) -> (r: Option<&'static str>)
    ensures
        match mode {
            ChatType::Channel => r matches Some(t) && t@ == (if show_icon {
                "✖ Leave"@
            } else {
                "Leave"@
            }),
            ChatType::Person => r matches Some(t) && t@ == (if show_icon {
                "✖ Close"@
            } else {
                "Close"@
            }),
            ChatType::System => r is None,
        },
{
    match mode {
        ChatType::Channel => Some(if show_icon { "✖ Leave" } else { "Leave" }),
        ChatType::Person => Some(if show_icon { "✖ Close" } else { "Close" }),
        ChatType::System => None,
    }
}

/// The profile page of a user.
pub fn profile_url(target: &str) -> (r: String)
    ensures
        r@ == "https://osu.ppy.sh/users/@"@ + target@,
{
    let mut r = String::new();
    push_str(&mut r, "https://osu.ppy.sh/users/@");
    push_str(&mut r, target);
    r
}

/// Whether a byte is an ASCII letter or digit.
pub open spec fn alnum_byte(b: u8) -> bool {
    (48 <= b <= 57) || (65 <= b <= 90) || (97 <= b <= 122)
}

/// An uppercase hexadecimal digit.
pub open spec fn hex_digit(d: u8) -> char {
    if d < 10 {
        (48 + d) as char
    } else {
        (55 + d) as char
    }
}

/// Bytes percent-encoded: ASCII letters and digits stay, every other byte becomes `%` and two
/// uppercase hexadecimal digits.
pub open spec fn percent_encoded(bytes: Seq<u8>) -> Seq<char>
    decreases bytes.len(),
{
    if bytes.len() == 0 {
        seq![]
    } else {
        let b = bytes.last();
        percent_encoded(bytes.drop_last()) + if alnum_byte(b) {
            seq![b as char]
        } else {
            seq!['%', hex_digit(b / 16), hex_digit(b % 16)]
        }
    }
}

/// Calls `percent_encoding::utf8_percent_encode` with `NON_ALPHANUMERIC` on `text`: its UTF-8
/// bytes, with every byte that is not an ASCII letter or digit written as `%XX` (uppercase
/// hexadecimal), as the crate's source shows.
#[verifier::external_body]
fn percent_encode(text: &str) -> (r: String)
    ensures
        r@ == percent_encoded(vstd::utf8::encode_utf8(text@)),
{
    percent_encoding::utf8_percent_encode(text, percent_encoding::NON_ALPHANUMERIC).to_string()
}

/// The translation page for a message: automatic source language, English target, the
/// message percent-encoded.
pub fn translate_url(message_text: &str) -> (r: String)
    ensures
        r@ == "https://translate.google.com/?sl=auto&tl=en&text="@ + percent_encoded(
            vstd::utf8::encode_utf8(message_text@),
        ) + "&op=translate"@,
{
    let encoded = percent_encode(message_text);
    let mut r = String::new();
    push_str(&mut r, "https://translate.google.com/?sl=auto&tl=en&text=");
    push_str(&mut r, encoded.as_str());
    push_str(&mut r, "&op=translate");
    r
}

} // verus!
