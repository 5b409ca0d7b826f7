//! Chat names for the visual test harness, which fills the interface with test chats.
use vstd::prelude::*;

use crate::text::{decimal, push_decimal, push_str};

verus! {

/// The names of the private chats the harness opens, in order.
pub open spec fn private_chat_names() -> Seq<Seq<char>> {
    seq![
        "African clawed frog"@,
        "Bass"@,
        "Crane"@,
        "Dragonfish"@,
        "Eel"@,
        "Feral hog"@,
        "Goldfish"@,
        "Hedge hawk"@,
        "Iguana"@,
        "Jellyfish"@,
    ]
}

/// How many private chat names there are.
pub const PRIVATE_CHAT_COUNT: usize = 10;

/// The private chat name at position `i`.
pub fn private_chat_name(i: usize) -> (r: &'static str)
    requires
        i < PRIVATE_CHAT_COUNT,
    ensures
        r@ == private_chat_names()[i as int],
{
    match i {
        0 => "African clawed frog",
        1 => "Bass",
        2 => "Crane",
        3 => "Dragonfish",
        4 => "Eel",
        5 => "Feral hog",
        6 => "Goldfish",
        7 => "Hedge hawk",
        8 => "Iguana",
        _ => "Jellyfish",
    }
}

/// The name of the test channel number `i`: `#test-<i>`.
pub open spec fn test_channel(i: nat) -> Seq<char> {
    "#test-"@ + decimal(i)
}

/// The chats the harness targets: `channels` test channels, then the first `private_chats`
/// private chat names (all of them when there are fewer).
pub fn build_all_targets(channels: usize, private_chats: usize) -> (r: Vec<String>)
    ensures
        ({
            let p = if private_chats < PRIVATE_CHAT_COUNT { private_chats as int } else { PRIVATE_CHAT_COUNT as int };
            &&& r@.len() == channels + p
            &&& forall|i: int| 0 <= i < channels ==> (#[trigger] r@[i])@ == test_channel(i as nat)
            &&& forall|k: int| 0 <= k < p ==> (#[trigger] r@[channels + k])@ == private_chat_names()[k]
        }),
{
    let mut all_targets: Vec<String> = Vec::new();
    for i in 0..channels
        invariant
            all_targets@.len() == i,
            forall|j: int| 0 <= j < i ==> (#[trigger] all_targets@[j])@ == test_channel(j as nat),
    {
        let mut name = String::new();
        push_str(&mut name, "#test-");
        push_decimal(&mut name, i as u64);
        all_targets.push(name);
    }
    let take = if private_chats < PRIVATE_CHAT_COUNT { private_chats } else { PRIVATE_CHAT_COUNT };
    for k in 0..take
        invariant
            take <= PRIVATE_CHAT_COUNT,
            all_targets@.len() == channels + k,
            forall|j: int| 0 <= j < channels ==> (#[trigger] all_targets@[j])@ == test_channel(j as nat),
            forall|j: int| 0 <= j < k ==> (#[trigger] all_targets@[channels + j])@ == private_chat_names()[j],
    {
        all_targets.push(private_chat_name(k).to_owned());
    }
    all_targets
}

/// How the harness sends messages.
#[derive(Clone, Copy, Debug, PartialEq, Eq, Structural)]
pub enum MessageMode {
    Off,
    Random,
    Target,
}

/// The chat that messages go to: for the random mode, the target at position `pick` (chosen
/// by the caller at random below the number of targets); otherwise the given target, or
/// `#test-0` when none is given.
pub fn get_target_for_mode(
    mode: Option<MessageMode>,
    target: Option<&str>,
    channels: usize,
    private_chats: usize,
    pick: usize,
) -> (r: Option<String>)
    ensures
        mode == Some(MessageMode::Random) ==> match r {
            Some(t) => {
                let p = if private_chats < PRIVATE_CHAT_COUNT { private_chats as int } else { PRIVATE_CHAT_COUNT as int };
                &&& pick < channels + p
                &&& t@ == (if pick < channels {
                    test_channel(pick as nat)
                } else {
                    private_chat_names()[pick - channels]
                })
            },
            None => pick >= channels + (if private_chats < PRIVATE_CHAT_COUNT { private_chats as int } else { PRIVATE_CHAT_COUNT as int }),
        },
        mode != Some(MessageMode::Random) ==> (r matches Some(t) && t@ == match target {
            Some(x) => x@,
            None => "#test-0"@,
        }),
{
    match mode {
        Some(MessageMode::Random) => {
            let all_targets = build_all_targets(channels, private_chats);
            if pick < all_targets.len() {
                let t = all_targets[pick].clone();
                proof {
                    if pick >= channels {
                        let k = pick - channels;
                        assert(all_targets@[channels + k] == all_targets@[pick as int]);
                    }
                }
                Some(t)
            } else {
                None
            }
        },
        _ => match target {
            Some(x) => Some(x.to_owned()),
            None => Some("#test-0".to_owned()),
        },
    }
}

} // verus!
