//! Chat commands typed in the message input: `/me`, `/chat`, `/close`, `/clear` and their
//! aliases.
use vstd::prelude::*;

use crate::text::{
    chars_of, chars_start_with, ends_with_char, push_char, push_chars, split_whitespace_chars,
    starts_with_char, starts_with_seq, words,
};

verus! {

/// The character that starts a command.
pub const COMMAND_PREFIX: char = '/';

/// The commands.
#[derive(Clone, Copy, Debug, PartialEq, Eq, Structural)]
pub enum CommandKind {
    /// Sends a third-person action.
    Me,
    /// Opens a private chat or joins a channel.
    OpenChat,
    /// Closes the active tab.
    CloseChat,
    /// Removes the messages of the active tab.
    ClearChat,
}

/// The aliases of a command; the first one is the preferred one.
pub open spec fn kind_aliases(kind: CommandKind) -> Seq<Seq<char>> {
    match kind {
        CommandKind::Me => seq!["/me"@],
        CommandKind::OpenChat => seq!["/chat"@, "/query"@, "/q"@, "/join"@],
        CommandKind::CloseChat => seq!["/close"@, "/part"@],
        CommandKind::ClearChat => seq!["/clear"@, "/c"@],
    }
}

/// How many arguments a command takes.
pub open spec fn kind_argcount(kind: CommandKind) -> nat {
    match kind {
        CommandKind::Me => 1,
        CommandKind::OpenChat => 1,
        CommandKind::CloseChat => 0,
        CommandKind::ClearChat => 0,
    }
}

/// What running a command asks the application to do.
#[derive(Debug)]
pub enum CommandAction {
    /// Send the text as an action to the active chat.
    SendAction(String),
    /// Open a chat with the user, or join the channel.
    OpenChat(String),
    /// Close the active tab.
    CloseActiveChat,
    /// Clear the active tab.
    ClearActiveChat,
}

/// Words joined by single spaces.
pub open spec fn join_words(ws: Seq<Seq<char>>) -> Seq<char>
    decreases ws.len(),
{
    if ws.len() == 0 {
        seq![]
    } else if ws.len() == 1 {
        ws[0]
    } else {
        join_words(ws.drop_last()) + seq![' '] + ws.last()
    }
}

/// What a command does with the words that follow it.
pub open spec fn action_of(kind: CommandKind, args: Seq<Seq<char>>, a: CommandAction) -> bool {
    match kind {
        CommandKind::Me => a matches CommandAction::SendAction(t) && t@ == join_words(args),
        CommandKind::OpenChat => a matches CommandAction::OpenChat(t) && args.len() > 0 && t@
            == args[0],
        CommandKind::CloseChat => a is CloseActiveChat,
        CommandKind::ClearChat => a is ClearActiveChat,
    }
}

/// A command with its aliases.
#[derive(Debug)]
pub struct Command {
    kind: CommandKind,
    aliases: Vec<String>,
}

impl Command {
    /// The aliases, as character sequences.
    pub closed spec fn alias_seq(self) -> Seq<Seq<char>> {
        self.aliases@.map_values(|a: String| a@)
    }

    /// Which command this is.
    pub closed spec fn spec_kind(self) -> CommandKind {
        self.kind
    }

    /// A command and its aliases are as the table above gives them.
    pub closed spec fn wf(self) -> bool {
        self.alias_seq() == kind_aliases(self.kind)
    }

    /// The command of the given kind.
    pub fn new(kind: CommandKind) -> (c: Self)
        ensures
            c.wf(),
            c.spec_kind() == kind,
    {
        let mut aliases: Vec<String> = Vec::new();
        match kind {
            CommandKind::Me => {
                aliases.push(String::from_str("/me"));
            },
            CommandKind::OpenChat => {
                aliases.push(String::from_str("/chat"));
                aliases.push(String::from_str("/query"));
                aliases.push(String::from_str("/q"));
                aliases.push(String::from_str("/join"));
            },
            CommandKind::CloseChat => {
                aliases.push(String::from_str("/close"));
                aliases.push(String::from_str("/part"));
            },
            CommandKind::ClearChat => {
                aliases.push(String::from_str("/clear"));
                aliases.push(String::from_str("/c"));
            },
        }
        let c = Command { kind, aliases };
        assert(c.alias_seq() =~= kind_aliases(kind));
        c
    }

    /// Which command this is.
    pub fn kind(&self) -> (k: CommandKind)
        ensures
            k == self.spec_kind(),
    {
        self.kind
    }

    /// The aliases.
    pub fn aliases(&self) -> (r: &Vec<String>)
        ensures
            r@.map_values(|a: String| a@) == self.alias_seq(),
    {
        &self.aliases
    }

    /// The first alias.
    pub fn preferred_alias(&self) -> (r: &String)
        requires
            self.wf(),
        ensures
            r@ == kind_aliases(self.spec_kind())[0],
    {
        assert(kind_aliases(self.kind).len() > 0);
        assert(self.alias_seq().len() == self.aliases@.len());
        assert(self.alias_seq()[0] == self.aliases@[0]@);
        &self.aliases[0]
    }

    /// How many arguments the command takes.
    pub fn argcount(&self) -> (n: usize)
        ensures
            n == kind_argcount(self.spec_kind()),
    {
        match self.kind {
            CommandKind::Me => 1,
            CommandKind::OpenChat => 1,
            CommandKind::CloseChat => 0,
            CommandKind::ClearChat => 0,
        }
    }

    /// What the command does.
    pub fn description(&self) -> (r: &'static str)
        ensures
            r@ == match self.spec_kind() {
                CommandKind::Me => "send a third-person action to the chat"@,
                CommandKind::OpenChat => "open a chat tab with user, or join a new #channel"@,
                CommandKind::CloseChat => "close the active tab, or leave the channel"@,
                CommandKind::ClearChat => "clear the active tab, removing all messages"@,
            },
    {
        match self.kind {
            CommandKind::Me => "send a third-person action to the chat",
            CommandKind::OpenChat => "open a chat tab with user, or join a new #channel",
            CommandKind::CloseChat => "close the active tab, or leave the channel",
            CommandKind::ClearChat => "clear the active tab, removing all messages",
        }
    }

    /// An example of use.
    pub fn example(&self) -> (r: String)
        requires
            self.wf(),
        ensures
            r@ == match self.spec_kind() {
                CommandKind::Me => "/me gets to live one more day"@,
                CommandKind::OpenChat => "/chat #russian"@,
                _ => kind_aliases(self.spec_kind())[0],
            },
    {
        match self.kind {
            CommandKind::Me => String::from_str("/me gets to live one more day"),
            CommandKind::OpenChat => String::from_str("/chat #russian"),
            _ => self.preferred_alias().clone(),
        }
    }

    /// The title of the command's hint button.
    pub fn ui_title(&self) -> (r: String)
        requires
            self.wf(),
        ensures
            r@ == match self.spec_kind() {
                CommandKind::Me => "/me <action>"@,
                CommandKind::OpenChat => "/chat <user or #channel>"@,
                _ => kind_aliases(self.spec_kind())[0],
            },
    {
        match self.kind {
            CommandKind::Me => String::from_str("/me <action>"),
            CommandKind::OpenChat => String::from_str("/chat <user or #channel>"),
            _ => self.preferred_alias().clone(),
        }
    }

    /// Whether to offer the command while the user types `input_prefix` followed by `argcount`
    /// words: an alias starts with the prefix, and the command still wants arguments (or takes
    /// none and none were typed).
    pub fn should_be_hinted(&self, input_prefix: &str, argcount: usize) -> (r: bool)
        ensures
            r == ((exists|i: int|
                0 <= i < self.alias_seq().len() && starts_with_seq(
                    #[trigger] self.alias_seq()[i],
                    input_prefix@,
                )) && (argcount < kind_argcount(self.spec_kind()) || argcount == 0
                && kind_argcount(self.spec_kind()) == 0)),
    {
        let prefix = chars_of(input_prefix);
        let n = self.aliases.len();
        let mut any = false;
        for i in 0..n
            invariant
                n == self.aliases@.len(),
                prefix@ == input_prefix@,
                any == (exists|j: int|
                    0 <= j < i && starts_with_seq(#[trigger] self.alias_seq()[j], input_prefix@)),
        {
            let a = chars_of(self.aliases[i].as_str());
            assert(self.alias_seq()[i as int] == a@);
            if chars_start_with(a.as_slice(), prefix.as_slice()) {
                any = true;
            }
        }
        let expected = self.argcount();
        any && (argcount < expected || argcount == 0 && expected == 0)
    }

    /// Whether `input_prefix` is one of the aliases.
    pub fn is_applicable(&self, input_prefix: &str) -> (r: bool)
        ensures
            r == self.alias_seq().contains(input_prefix@),
    {
        let n = self.aliases.len();
        for i in 0..n
            invariant
                n == self.aliases@.len(),
                forall|j: int| 0 <= j < i ==> self.alias_seq()[j] != input_prefix@,
        {
            if crate::text::str_eq(self.aliases[i].as_str(), input_prefix) {
                assert(self.alias_seq()[i as int] == input_prefix@);
                return true;
            }
        }
        false
    }

    /// What the command does with the words that follow it.
    pub fn action(&self, args: &[Vec<char>]) -> (a: CommandAction)
        requires
            self.spec_kind() == CommandKind::OpenChat ==> args@.len() > 0,
        ensures
            action_of(self.spec_kind(), args@.map_values(|w: Vec<char>| w@), a),
    {
        let ghost ws = args@.map_values(|w: Vec<char>| w@);
        match self.kind {
            CommandKind::Me => {
                let mut text = String::new();
                let n = args.len();
                for i in 0..n
                    invariant
                        n == args@.len(),
                        ws == args@.map_values(|w: Vec<char>| w@),
                        text@ == join_words(ws.take(i as int)),
                {
                    if i > 0 {
                        push_char(&mut text, ' ');
                    }
                    push_chars(&mut text, args[i].as_slice());
                    assert(ws.take(i + 1).drop_last() == ws.take(i as int));
                }
                assert(ws.take(n as int) == ws);
                CommandAction::SendAction(text)
            },
            CommandKind::OpenChat => {
                let mut target = String::new();
                push_chars(&mut target, args[0].as_slice());
                CommandAction::OpenChat(target)
            },
            CommandKind::CloseChat => CommandAction::CloseActiveChat,
            CommandKind::ClearChat => CommandAction::ClearActiveChat,
        }
    }
}

/// Whether `alias` is one of the aliases of a command.
pub open spec fn is_alias_of(kind: CommandKind, alias: Seq<char>) -> bool {
    match kind {
        CommandKind::Me => alias == "/me"@,
        CommandKind::OpenChat => alias == "/chat"@ || alias == "/query"@ || alias == "/q"@ || alias
            == "/join"@,
        CommandKind::CloseChat => alias == "/close"@ || alias == "/part"@,
        CommandKind::ClearChat => alias == "/clear"@ || alias == "/c"@,
    }
}

/// The alias table and the alias test agree.
pub proof fn lemma_alias_table(kind: CommandKind, alias: Seq<char>)
    ensures
        kind_aliases(kind).contains(alias) <==> is_alias_of(kind, alias),
{
    let ka = kind_aliases(kind);
    if ka.contains(alias) {
        let j = choose|j: int| 0 <= j < ka.len() && ka[j] == alias;
        assert(ka[j] == alias);
    }
    if is_alias_of(kind, alias) {
        match kind {
            CommandKind::Me => {
                assert(ka[0] == alias);
            },
            CommandKind::OpenChat => {
                if alias == "/chat"@ {
                    assert(ka[0] == alias);
                } else if alias == "/query"@ {
                    assert(ka[1] == alias);
                } else if alias == "/q"@ {
                    assert(ka[2] == alias);
                } else {
                    assert(ka[3] == alias);
                }
            },
            CommandKind::CloseChat => {
                if alias == "/close"@ {
                    assert(ka[0] == alias);
                } else {
                    assert(ka[1] == alias);
                }
            },
            CommandKind::ClearChat => {
                if alias == "/clear"@ {
                    assert(ka[0] == alias);
                } else {
                    assert(ka[1] == alias);
                }
            },
        }
    }
}

/// The command an alias belongs to, if any.
pub open spec fn command_for(alias: Seq<char>) -> Option<CommandKind> {
    if is_alias_of(CommandKind::Me, alias) {
        Some(CommandKind::Me)
    } else if is_alias_of(CommandKind::OpenChat, alias) {
        Some(CommandKind::OpenChat)
    } else if is_alias_of(CommandKind::CloseChat, alias) {
        Some(CommandKind::CloseChat)
    } else if is_alias_of(CommandKind::ClearChat, alias) {
        Some(CommandKind::ClearChat)
    } else {
        None
    }
}

/// No alias belongs to two commands.
pub proof fn lemma_aliases_disjoint(kind: CommandKind, alias: Seq<char>)
    requires
        is_alias_of(kind, alias),
    ensures
        command_for(alias) == Some(kind),
{
    reveal_strlit("/me");
    reveal_strlit("/chat");
    reveal_strlit("/query");
    reveal_strlit("/q");
    reveal_strlit("/join");
    reveal_strlit("/close");
    reveal_strlit("/part");
    reveal_strlit("/clear");
    reveal_strlit("/c");
    assert("/chat"@[1] == 'c' && "/join"@[1] == 'j' && "/part"@[1] == 'p');
    assert("/query"@[1] == 'q' && "/close"@[1] == 'c' && "/clear"@[1] == 'c');
    assert("/close"@[3] == 'o' && "/clear"@[3] == 'e');
    assert("/q"@[1] == 'q' && "/c"@[1] == 'c');
    if alias.len() == 2 {
        assert(alias[1] == 'q' || alias[1] == 'c');
    }
    if alias.len() == 5 {
        assert(alias[1] == 'c' || alias[1] == 'j' || alias[1] == 'p');
    }
    if alias.len() == 6 {
        assert(alias[1] == 'q' || alias[3] == 'o' || alias[3] == 'e');
    }
}

/// Whether typed input is a command: it starts with `/`.
pub open spec fn is_command_input(input: Seq<char>) -> bool {
    input.len() > 0 && input[0] == COMMAND_PREFIX
}

/// Typed input that names the chat command but no chat to open (the command needs one).
pub open spec fn opens_chat_without_target(input: Seq<char>) -> bool {
    is_command_input(input) && command_for(words(input)[0]) == Some(CommandKind::OpenChat)
        && words(input).len() < 2
}

/// The commands offered to the user.
#[derive(Debug)]
pub struct CommandHelper {
    commands: Vec<Command>,
}

/// The commands in the order they are offered: by preferred alias, alphabetically.
pub open spec fn offered_kinds() -> Seq<CommandKind> {
    seq![CommandKind::OpenChat, CommandKind::ClearChat, CommandKind::CloseChat, CommandKind::Me]
}

/// Command input starts with a word.
pub proof fn lemma_command_input_has_words(input: Seq<char>)
    requires
        is_command_input(input),
    ensures
        words(input).len() > 0,
        words(input)[0].len() > 0 && words(input)[0][0] == COMMAND_PREFIX,
{
    lemma_words_first(input, seq![], seq![]);
}

proof fn lemma_words_first(s: Seq<char>, done: Seq<Seq<char>>, cur: Seq<char>)
    requires
        (done.len() > 0 && done[0].len() > 0 && done[0][0] == COMMAND_PREFIX) || (done.len() == 0
            && ((cur.len() > 0 && cur[0] == COMMAND_PREFIX) || (cur.len() == 0 && s.len() > 0
            && s[0] == COMMAND_PREFIX))),
    ensures
        crate::text::words_from(s, done, cur).len() > 0,
        crate::text::words_from(s, done, cur)[0].len() > 0 && crate::text::words_from(
            s,
            done,
            cur,
        )[0][0] == COMMAND_PREFIX,
    decreases s.len(),
{
    if s.len() == 0 {
    } else if crate::text::is_white_space(s[0]) {
        let d = if cur.len() > 0 { done.push(cur) } else { done };
        lemma_words_first(s.drop_first(), d, seq![]);
    } else {
        lemma_words_first(s.drop_first(), done, cur.push(s[0]));
    }
}

impl CommandHelper {
    /// The kinds of the commands offered, in order.
    pub closed spec fn kinds(self) -> Seq<CommandKind> {
        self.commands@.map_values(|c: Command| c.spec_kind())
    }

    /// Every command offered is well formed, and they are offered in the usual order.
    pub closed spec fn wf(self) -> bool {
        &&& forall|i: int| 0 <= i < self.commands@.len() ==> #[trigger] self.commands@[i].wf()
        &&& self.kinds() == offered_kinds()
    }

    /// All four commands, ordered by preferred alias.
    pub fn new() -> (h: Self)
        ensures
            h.wf(),
    {
        let mut commands: Vec<Command> = Vec::new();
        commands.push(Command::new(CommandKind::OpenChat));
        commands.push(Command::new(CommandKind::ClearChat));
        commands.push(Command::new(CommandKind::CloseChat));
        commands.push(Command::new(CommandKind::Me));
        let h = CommandHelper { commands };
        assert(h.kinds() =~= offered_kinds());
        h
    }

    /// The commands offered.
    pub fn commands(&self) -> (r: &Vec<Command>)
        ensures
            r@.map_values(|c: Command| c.spec_kind()) == self.kinds(),
            self.wf() ==> forall|i: int| 0 <= i < r@.len() ==> #[trigger] r@[i].wf(),
    {
        &self.commands
    }

    /// Whether the input is a command.
    pub fn contains_command(&self, input: &str) -> (r: bool)
        ensures
            r == is_command_input(input@),
    {
        starts_with_char(input, COMMAND_PREFIX)
    }

    fn find_applicable(&self, alias: &[char]) -> (r: Option<usize>)
        requires
            self.wf(),
        ensures
            match r {
                Some(k) => k < self.kinds().len() && command_for(alias@) == Some(
                    self.kinds()[k as int],
                ),
                None => command_for(alias@) is None,
            },
    {
        let s = crate::text::string_of(alias);
        let n = self.commands.len();
        for k in 0..n
            invariant
                n == self.commands@.len(),
                self.wf(),
                s@ == alias@,
                forall|j: int|
                    0 <= j < k ==> !kind_aliases(#[trigger] self.kinds()[j]).contains(alias@),
        {
            assert(self.commands@[k as int].wf());
            assert(self.kinds()[k as int] == self.commands@[k as int].spec_kind());
            if self.commands[k].is_applicable(s.as_str()) {
                proof {
                    lemma_alias_table(self.kinds()[k as int], alias@);
                    lemma_aliases_disjoint(self.kinds()[k as int], alias@);
                }
                return Some(k);
            }
        }
        assert(command_for(alias@) is None) by {
            assert(self.kinds().len() == n);
            assert(offered_kinds().len() == 4);
            assert(offered_kinds()[0] == CommandKind::OpenChat);
            assert(offered_kinds()[1] == CommandKind::ClearChat);
            assert(offered_kinds()[2] == CommandKind::CloseChat);
            assert(offered_kinds()[3] == CommandKind::Me);
            assert(!kind_aliases(self.kinds()[0]).contains(alias@));
            assert(!kind_aliases(self.kinds()[1]).contains(alias@));
            assert(!kind_aliases(self.kinds()[2]).contains(alias@));
            assert(!kind_aliases(self.kinds()[3]).contains(alias@));
            lemma_alias_table(CommandKind::OpenChat, alias@);
            lemma_alias_table(CommandKind::ClearChat, alias@);
            lemma_alias_table(CommandKind::CloseChat, alias@);
            lemma_alias_table(CommandKind::Me, alias@);
        }
        None
    }

    /// Runs the command typed in `input`, if its first word is an alias: returns what the
    /// command asks for and clears the input. Other input is left as it is.
    pub fn detect_and_run(&self, input: &mut String) -> (r: Option<CommandAction>)
        requires
            self.wf(),
            !opens_chat_without_target(old(input)@),
        ensures
            !is_command_input(old(input)@) ==> r is None && final(input)@ == old(input)@,
            is_command_input(old(input)@) ==> match command_for(words(old(input)@)[0]) {
                Some(kind) => {
                    &&& r matches Some(a) && action_of(kind, words(old(input)@).drop_first(), a)
                    &&& final(input)@.len() == 0
                },
                None => r is None && final(input)@ == old(input)@,
            },
    {
        if !self.contains_command(input.as_str()) {
            return None;
        }
        let cs = chars_of(input.as_str());
        let args = split_whitespace_chars(cs.as_slice());
        proof {
            lemma_command_input_has_words(input@);
        }
        match self.find_applicable(args[0].as_slice()) {
            Some(k) => {
                let rest = slice_tail(&args);
                proof {
                    assert(rest@.map_values(|w: Vec<char>| w@) =~= words(input@).drop_first());
                }
                assert(self.commands@[k as int].wf());
                let a = self.commands[k].action(rest.as_slice());
                *input = String::new();
                Some(a)
            },
            None => None,
        }
    }

    /// The positions of the commands offered for the typed input.
    pub fn hinted_commands(&self, input: &str) -> (r: Vec<usize>)
        requires
            self.wf(),
            is_command_input(input@),
        ensures
            forall|j: int| 0 <= j < r@.len() ==> #[trigger] r@[j] < self.kinds().len(),
            forall|k: int|
                0 <= k < self.kinds().len() ==> (r@.contains(k as usize) <==> hinted(
                    self.kinds()[k],
                    words(input@),
                )),
    {
        let cs = chars_of(input);
        let args = split_whitespace_chars(cs.as_slice());
        proof {
            lemma_command_input_has_words(input@);
        }
        let argcount = args.len() - 1;
        let first = crate::text::string_of(args[0].as_slice());
        let mut r: Vec<usize> = Vec::new();
        let n = self.commands.len();
        for k in 0..n
            invariant
                n == self.commands@.len(),
                self.wf(),
                first@ == words(input@)[0],
                argcount == words(input@).len() - 1,
                forall|j: int| 0 <= j < r@.len() ==> #[trigger] r@[j] < k,
                forall|q: int|
                    0 <= q < k ==> (r@.contains(q as usize) <==> hinted(
                        self.kinds()[q],
                        words(input@),
                    )),
        {
            assert(self.commands@[k as int].wf());
            assert(self.kinds()[k as int] == self.commands@[k as int].spec_kind());
            let ghost before = r@;
            if self.commands[k].should_be_hinted(first.as_str(), argcount) {
                r.push(k);
            }
            assert forall|q: int| 0 <= q < k + 1 implies (r@.contains(q as usize) <==> hinted(
                self.kinds()[q],
                words(input@),
            )) by {
                if q < k {
                    if r@.contains(q as usize) {
                        let j = choose|j: int| 0 <= j < r@.len() && r@[j] == q as usize;
                        if j == before.len() {
                        } else {
                            assert(before[j] == q as usize);
                        }
                    }
                    if before.contains(q as usize) {
                        let j = choose|j: int| 0 <= j < before.len() && before[j] == q as usize;
                        assert(r@[j] == q as usize);
                    }
                } else {
                    if r@.contains(q as usize) {
                        let j = choose|j: int| 0 <= j < r@.len() && r@[j] == q as usize;
                        if j < before.len() {
                            assert(before[j] < k);
                        }
                    }
                    if hinted(self.kinds()[q], words(input@)) {
                        assert(r@[r@.len() - 1] == k);
                    }
                }
            }
        }
        r
    }

    /// The user clicked the hint of the command at position `index`: an input holding only the
    /// command's prefix is completed to its preferred alias and a space; a command that still
    /// wants arguments gets a space after the input; a command that takes no arguments runs
    /// at once, and the input is cleared.
    pub fn hint_clicked(&self, index: usize, input: &mut String) -> (r: Option<CommandAction>)
        requires
            self.wf(),
            index < self.kinds().len(),
            is_command_input(old(input)@),
        ensures
            ({
                let ws = words(old(input)@);
                let kind = self.kinds()[index as int];
                let argcount = ws.len() - 1;
                if kind_argcount(kind) == 0 {
                    &&& r matches Some(a) && action_of(kind, ws.drop_first(), a)
                    &&& final(input)@.len() == 0
                } else {
                    &&& r is None
                    &&& final(input)@ == if argcount == 0 {
                        kind_aliases(kind)[0] + seq![' ']
                    } else if argcount < kind_argcount(kind) && !(old(input)@.last() == ' ') {
                        old(input)@.push(' ')
                    } else {
                        old(input)@
                    }
                }
            }),
    {
        let cs = chars_of(input.as_str());
        let args = split_whitespace_chars(cs.as_slice());
        proof {
            lemma_command_input_has_words(input@);
        }
        let argcount = args.len() - 1;
        assert(self.commands@[index as int].wf());
        assert(self.kinds()[index as int] == self.commands@[index as int].spec_kind());
        let cmd = &self.commands[index];
        if argcount == 0 {
            let mut completed = cmd.preferred_alias().clone();
            push_char(&mut completed, ' ');
            *input = completed;
        } else if argcount < cmd.argcount() && !ends_with_char(input.as_str(), ' ') {
            push_char(input, ' ');
        }
        if cmd.argcount() == 0 {
            let rest = slice_tail(&args);
            proof {
                assert(rest@.map_values(|w: Vec<char>| w@) =~= words(old(input)@).drop_first());
            }
            let a = cmd.action(rest.as_slice());
            *input = String::new();
            Some(a)
        } else {
            None
        }
    }
}

/// Whether a command is offered for typed words: an alias starts with the first word, and the
/// command still wants arguments (or takes none and none were typed).
pub open spec fn hinted(kind: CommandKind, ws: Seq<Seq<char>>) -> bool {
    &&& exists|i: int|
        0 <= i < kind_aliases(kind).len() && starts_with_seq(#[trigger] kind_aliases(kind)[i], ws[0])
    &&& (ws.len() - 1 < kind_argcount(kind) || ws.len() - 1 == 0 && kind_argcount(kind) == 0)
}

fn slice_tail(v: &Vec<Vec<char>>) -> (r: Vec<Vec<char>>)
    requires
        v@.len() > 0,
    ensures
        r@.map_values(|w: Vec<char>| w@) == v@.map_values(|w: Vec<char>| w@).drop_first(),
{
    let mut r: Vec<Vec<char>> = Vec::new();
    let n = v.len();
    for i in 1..n
        invariant
            n == v@.len(),
            r@.len() == i - 1,
            forall|j: int| 0 <= j < r@.len() ==> #[trigger] r@[j]@ == v@[j + 1]@,
    {
        r.push(v[i].clone());
    }
    assert(r@.map_values(|w: Vec<char>| w@) =~= v@.map_values(|w: Vec<char>| w@).drop_first());
    r
}

/// Clicking a command's hint runs it at once only when it needs no words from the input: a
/// command that runs at once (it takes no arguments) does the same whatever words follow it,
/// and a command whose action is built from the typed words (sending text, opening a chat)
/// waits for them, so a hint click never sends an action or opens a chat with no words.
pub proof fn lemma_hint_runs_only_wordless_commands(
    kind: CommandKind,
    args: Seq<Seq<char>>,
    a: CommandAction,
)
    requires
        action_of(kind, args, a),
    ensures
        kind_argcount(kind) == 0 ==> forall|other: Seq<Seq<char>>| #[trigger]
            action_of(kind, other, a),
        (a is SendAction || a is OpenChat) ==> kind_argcount(kind) >= 1,
{
    if kind_argcount(kind) == 0 {
        assert forall|other: Seq<Seq<char>>| #[trigger] action_of(kind, other, a) by {}
    }
}

/// Once a word follows the command name, no command is hinted any more: each command is
/// complete with the first word typed after it (`/me` sends it, `/chat` opens it) or takes none.
pub proof fn lemma_no_hint_after_first_word(kind: CommandKind, ws: Seq<Seq<char>>)
    requires
        ws.len() >= 2,
    ensures
        !hinted(kind, ws),
        kind_argcount(kind) <= 1,
{
}

} // verus!
