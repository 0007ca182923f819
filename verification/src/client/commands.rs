//! Command parsing — all commands of the terminal interface.

use vstd::prelude::*;
use vstd::utf8::*;

use crate::text;

verus! {

#[derive(Debug, Clone)]
#[verifier::ext_equal]
pub enum Command<T = String> {
    Message(T),
    /// /request <username> — send a chat request
    Request(T),
    /// /accept <username> — accept a pending chat request
    Accept(T),
    /// /reject <username> — reject a pending chat request
    Reject(T),
    Select(T),
    /// /remove <username> — remove a contact
    Remove(T),
    Alias(T, T),
    /// /verify [username] — show the safety number with a contact
    Verify(Option<T>),
    Clear,
    History(bool),
    Purge,
    File(T),
    Help,
    Panic,
    Quit,
    Contacts,
    /// /requests — show pending incoming chat requests
    Requests,
    Status,
    Reconnect,
    Lock,
    /// What was typed on a locked screen
    Unlock(T),
    Unknown(T),
}

/// The view of a [`Command`].
pub type CommandView = Command<Seq<char>>;

impl View for Command<String> {
    type V = Command<Seq<char>>;

    open spec fn view(&self) -> Command<Seq<char>> {
        match *self {
            Command::Message(t) => Command::Message(t@),
            Command::Request(t) => Command::Request(t@),
            Command::Accept(t) => Command::Accept(t@),
            Command::Reject(t) => Command::Reject(t@),
            Command::Select(t) => Command::Select(t@),
            Command::Remove(t) => Command::Remove(t@),
            Command::Alias(t, u) => Command::Alias(t@, u@),
            Command::Verify(t) => Command::Verify(text::opt_text(t)),
            Command::Clear => Command::Clear,
            Command::History(on) => Command::History(on),
            Command::Purge => Command::Purge,
            Command::File(t) => Command::File(t@),
            Command::Help => Command::Help,
            Command::Panic => Command::Panic,
            Command::Quit => Command::Quit,
            Command::Contacts => Command::Contacts,
            Command::Requests => Command::Requests,
            Command::Status => Command::Status,
            Command::Reconnect => Command::Reconnect,
            Command::Lock => Command::Lock,
            Command::Unlock(t) => Command::Unlock(t@),
            Command::Unknown(t) => Command::Unknown(t@),
        }
    }
}

/// The first word of what follows a command.
pub open spec fn argument(rest: Option<Seq<char>>) -> Option<Seq<char>> {
    match rest {
        Some(r) => Some(text::before(r, ' ')),
        None => None,
    }
}

/// What follows the first word of what follows a command.
pub open spec fn further(rest: Option<Seq<char>>) -> Option<Seq<char>> {
    match rest {
        Some(r) => text::after(r, ' '),
        None => None,
    }
}

/// A text, or nothing at all as the empty one.
pub open spec fn or_empty(t: Option<Seq<char>>) -> Seq<char> {
    match t {
        Some(s) => s,
        None => seq![],
    }
}

/// What a command in lower case means. `rest` is what follows its first space;
/// `option` is the first word of that, in lower case.
pub open spec fn meaning(
    cmd: Seq<char>,
    rest: Option<Seq<char>>,
    option: Seq<char>,
) -> CommandView {
    let word = argument(rest);
    let more = further(rest);
    if cmd == "/request"@ || cmd == "/req"@ || cmd == "/add"@ {
        match word {
            Some(user) => Command::Request(user),
            None => Command::Unknown("Usage: /request <username>"@),
        }
    } else if cmd == "/accept"@ {
        match word {
            Some(user) => Command::Accept(user),
            None => Command::Unknown("Usage: /accept <username>"@),
        }
    } else if cmd == "/reject"@ || cmd == "/deny"@ {
        match word {
            Some(user) => Command::Reject(user),
            None => Command::Unknown("Usage: /reject <username>"@),
        }
    } else if cmd == "/select"@ || cmd == "/s"@ || cmd == "/chat"@ {
        match word {
            Some(user) => Command::Select(user),
            None => Command::Unknown("Usage: /select <username>"@),
        }
    } else if cmd == "/remove"@ {
        match word {
            Some(user) => Command::Remove(user),
            None => Command::Unknown("Usage: /remove <username>"@),
        }
    } else if cmd == "/alias"@ {
        match (word, more) {
            (Some(user), Some(alias)) => Command::Alias(user, alias),
            _ => Command::Unknown("Usage: /alias <username> <alias>"@),
        }
    } else if cmd == "/verify"@ || cmd == "/v"@ {
        Command::Verify(word)
    } else if cmd == "/clear"@ || cmd == "/cls"@ {
        Command::Clear
    } else if cmd == "/history"@ {
        if word is None {
            Command::Unknown("Usage: /history on|off"@)
        } else if option == "on"@ || option == "enable"@ || option == "true"@ || option == "1"@ {
            Command::History(true)
        } else if option == "off"@ || option == "disable"@ || option == "false"@ || option
            == "0"@ {
            Command::History(false)
        } else {
            Command::Unknown("Usage: /history on|off"@)
        }
    } else if cmd == "/purge"@ {
        Command::Purge
    } else if cmd == "/file"@ || cmd == "/f"@ || cmd == "/send"@ {
        match rest {
            Some(path) => Command::File(text::trimmed(path)),
            None => Command::Unknown("Usage: /file <path>"@),
        }
    } else if cmd == "/help"@ || cmd == "/h"@ || cmd == "/?"@ {
        Command::Help
    } else if cmd == "/quit"@ || cmd == "/exit"@ || cmd == "/q!"@ {
        Command::Quit
    } else if cmd == "/contacts"@ || cmd == "/c"@ || cmd == "/list"@ {
        Command::Contacts
    } else if cmd == "/requests"@ || cmd == "/pending"@ {
        Command::Requests
    } else if cmd == "/status"@ {
        Command::Status
    } else if cmd == "/reconnect"@ {
        Command::Reconnect
    } else if cmd == "/lock"@ {
        Command::Lock
    } else {
        Command::Unknown("Unknown command: "@ + cmd)
    }
}

/// The first word of a line that holds a command.
pub open spec fn command_word(input: Seq<char>) -> Seq<char> {
    text::before(text::trimmed(input), ' ')
}

/// What follows the first space of a line that holds a command.
pub open spec fn command_rest(input: Seq<char>) -> Option<Seq<char>> {
    text::after(text::trimmed(input), ' ')
}

/// The second word of a line that holds a command.
pub open spec fn command_option(input: Seq<char>) -> Seq<char> {
    or_empty(argument(command_rest(input)))
}

/// What a line of input means. The case of its first word does not matter, nor
/// that of the word that switches the history on or off.
pub open spec fn parsed(input: Seq<char>) -> CommandView {
    let line = text::trimmed(input);
    if line.len() == 0 {
        Command::Message(seq![])
    } else if line == "!panic"@ {
        Command::Panic
    } else if line[0] != '/' {
        Command::Message(line)
    } else {
        meaning(
            text::in_lower_case(command_word(input)),
            command_rest(input),
            text::in_lower_case(command_option(input)),
        )
    }
}

fn is_one_of(cmd: &str, a: &str, b: &str, c: &str) -> (r: bool)
    ensures
        r == (cmd@ == a@ || cmd@ == b@ || cmd@ == c@),
{
    text::same_text(cmd, a) || text::same_text(cmd, b) || text::same_text(cmd, c)
}

fn usage(line: &str) -> (r: Command)
    ensures
        r@ == Command::Unknown(line@),
{
    Command::Unknown(line.to_owned())
}

impl Command {
    /// What a command in lower case means. `rest` is what follows its first
    /// space; `option` is the first word of that, in lower case.
    pub fn interpret(cmd: &str, rest: Option<String>, option: &str) -> (r: Command)
        ensures
            r@ == meaning(cmd@, text::opt_text(rest), option@),
    {
        let (word, more) = match &rest {
            Some(r) => {
                let (w, m) = text::split_first(r.as_str(), ' ');
                (Some(w), m)
            },
            None => (None, None),
        };
        if is_one_of(cmd, "/request", "/req", "/add") {
            match word {
                Some(user) => Command::Request(user),
                None => usage("Usage: /request <username>"),
            }
        } else if text::same_text(cmd, "/accept") {
            match word {
                Some(user) => Command::Accept(user),
                None => usage("Usage: /accept <username>"),
            }
        } else if is_one_of(cmd, "/reject", "/deny", "/deny") {
            match word {
                Some(user) => Command::Reject(user),
                None => usage("Usage: /reject <username>"),
            }
        } else if is_one_of(cmd, "/select", "/s", "/chat") {
            match word {
                Some(user) => Command::Select(user),
                None => usage("Usage: /select <username>"),
            }
        } else if text::same_text(cmd, "/remove") {
            match word {
                Some(user) => Command::Remove(user),
                None => usage("Usage: /remove <username>"),
            }
        } else if text::same_text(cmd, "/alias") {
            match (word, more) {
                (Some(user), Some(alias)) => Command::Alias(user, alias),
                _ => usage("Usage: /alias <username> <alias>"),
            }
        } else if is_one_of(cmd, "/verify", "/v", "/v") {
            Command::Verify(word)
        } else if is_one_of(cmd, "/clear", "/cls", "/cls") {
            Command::Clear
        } else if text::same_text(cmd, "/history") {
            if word.is_none() {
                usage("Usage: /history on|off")
            } else if is_one_of(option, "on", "enable", "true") || text::same_text(option, "1") {
                Command::History(true)
            } else if is_one_of(option, "off", "disable", "false") || text::same_text(option, "0") {
                Command::History(false)
            } else {
                usage("Usage: /history on|off")
            }
        } else if text::same_text(cmd, "/purge") {
            Command::Purge
        } else if is_one_of(cmd, "/file", "/f", "/send") {
            match rest {
                Some(path) => Command::File(text::trim(path.as_str())),
                None => usage("Usage: /file <path>"),
            }
        } else if is_one_of(cmd, "/help", "/h", "/?") {
            Command::Help
        } else if is_one_of(cmd, "/quit", "/exit", "/q!") {
            Command::Quit
        } else if is_one_of(cmd, "/contacts", "/c", "/list") {
            Command::Contacts
        } else if is_one_of(cmd, "/requests", "/pending", "/pending") {
            Command::Requests
        } else if text::same_text(cmd, "/status") {
            Command::Status
        } else if text::same_text(cmd, "/reconnect") {
            Command::Reconnect
        } else if text::same_text(cmd, "/lock") {
            Command::Lock
        } else {
            Command::Unknown(text::join2("Unknown command: ", cmd))
        }
    }

    /// Parses a line of input.
    pub fn parse(input: &str) -> (r: Command)
        ensures
            r@ == parsed(input@),
    {
        let line = text::trim(input);
        if line.as_str().is_empty() {
            return Command::Message(String::new());
        }
        if text::same_text(line.as_str(), "!panic") {
            return Command::Panic;
        }
        if !text::begins_with(line.as_str(), '/') {
            return Command::Message(line);
        }
        let (first, rest) = text::split_first(line.as_str(), ' ');
        let option = match &rest {
            Some(r) => text::split_first(r.as_str(), ' ').0,
            None => String::new(),
        };
        Command::interpret(
            text::lower_case(first.as_str()).as_str(),
            rest,
            text::lower_case(option.as_str()).as_str(),
        )
    }
}

/// The lines of the help screen.
pub open spec fn help_lines() -> Seq<Seq<char>> {
    seq![
        "╔══════════════════════════════════════════════════════╗"@,
        "║              ZEROSUM COMMAND REFERENCE               ║"@,
        "╠══════════════════════════════════════════════════════╣"@,
        "║  CHAT REQUESTS                                       ║"@,
        "║  /request <user>    Send a chat request              ║"@,
        "║  /accept <user>     Accept a chat request            ║"@,
        "║  /reject <user>     Reject a chat request            ║"@,
        "║  /requests          Show pending requests            ║"@,
        "║                                                      ║"@,
        "║  MESSAGING                                           ║"@,
        "║  /select <user>     Select contact to chat with      ║"@,
        "║  /alias <user> <n>  Set display name for contact     ║"@,
        "║  /file <path>       Send an encrypted file           ║"@,
        "║  /contacts          List all contacts                ║"@,
        "║                                                      ║"@,
        "║  SECURITY                                            ║"@,
        "║  /verify [user]     Show safety number               ║"@,
        "║  /lock              Lock screen                      ║"@,
        "║  !panic             ⚠ DESTROY ALL LOCAL DATA         ║"@,
        "║                                                      ║"@,
        "║  HISTORY                                             ║"@,
        "║  /history on|off    Toggle local history storage     ║"@,
        "║  /purge             Securely delete history file     ║"@,
        "║  /clear             Clear chat display               ║"@,
        "║                                                      ║"@,
        "║  SYSTEM                                              ║"@,
        "║  /status            Show connection status           ║"@,
        "║  /help              Show this help                   ║"@,
        "║  /quit              Exit ZeroSum                     ║"@,
        "╚══════════════════════════════════════════════════════╝"@,
    ]
}

fn push_line(lines: &mut Vec<String>, line: &str)
    ensures
        final(lines)@.map_values(|s: String| s@) == old(lines)@.map_values(|s: String| s@).push(
            line@,
        ),
{
    lines.push(line.to_owned());
    assert(lines@.map_values(|s: String| s@) =~= old(lines)@.map_values(|s: String| s@).push(
        line@,
    ));
}

/// The help screen.
pub fn help_text() -> (r: Vec<String>)
    ensures
        r@.map_values(|s: String| s@) == help_lines(),
{
    let mut lines: Vec<String> = Vec::new();
    assert(lines@.map_values(|s: String| s@) =~= seq![]);
    push_line(&mut lines, "╔══════════════════════════════════════════════════════╗");
    push_line(&mut lines, "║              ZEROSUM COMMAND REFERENCE               ║");
    push_line(&mut lines, "╠══════════════════════════════════════════════════════╣");
    push_line(&mut lines, "║  CHAT REQUESTS                                       ║");
    push_line(&mut lines, "║  /request <user>    Send a chat request              ║");
    push_line(&mut lines, "║  /accept <user>     Accept a chat request            ║");
    push_line(&mut lines, "║  /reject <user>     Reject a chat request            ║");
    push_line(&mut lines, "║  /requests          Show pending requests            ║");
    push_line(&mut lines, "║                                                      ║");
    push_line(&mut lines, "║  MESSAGING                                           ║");
    push_line(&mut lines, "║  /select <user>     Select contact to chat with      ║");
    push_line(&mut lines, "║  /alias <user> <n>  Set display name for contact     ║");
    push_line(&mut lines, "║  /file <path>       Send an encrypted file           ║");
    push_line(&mut lines, "║  /contacts          List all contacts                ║");
    push_line(&mut lines, "║                                                      ║");
    push_line(&mut lines, "║  SECURITY                                            ║");
    push_line(&mut lines, "║  /verify [user]     Show safety number               ║");
    push_line(&mut lines, "║  /lock              Lock screen                      ║");
    push_line(&mut lines, "║  !panic             ⚠ DESTROY ALL LOCAL DATA         ║");
    push_line(&mut lines, "║                                                      ║");
    push_line(&mut lines, "║  HISTORY                                             ║");
    push_line(&mut lines, "║  /history on|off    Toggle local history storage     ║");
    push_line(&mut lines, "║  /purge             Securely delete history file     ║");
    push_line(&mut lines, "║  /clear             Clear chat display               ║");
    push_line(&mut lines, "║                                                      ║");
    push_line(&mut lines, "║  SYSTEM                                              ║");
    push_line(&mut lines, "║  /status            Show connection status           ║");
    push_line(&mut lines, "║  /help              Show this help                   ║");
    push_line(&mut lines, "║  /quit              Exit ZeroSum                     ║");
    push_line(&mut lines, "╚══════════════════════════════════════════════════════╝");
    assert(lines@.map_values(|s: String| s@) =~= help_lines());
    lines
}

// ── Laws ────────────────────────────────────────────────────

/// What does not begin with a slash is a message, word for word, unless it is
/// the emergency word: no command can be given by accident.
pub proof fn law_plain_text_is_a_message(input: Seq<char>)
    requires
        text::trimmed(input).len() > 0,
        text::trimmed(input)[0] != '/',
        text::trimmed(input) != "!panic"@,
    ensures
        parsed(input) == Command::Message(text::trimmed(input)),
{
}

/// Everything is destroyed on the emergency word alone.
pub proof fn law_panic_needs_the_exact_word(input: Seq<char>)
    ensures
        parsed(input) is Panic <==> text::trimmed(input) == "!panic"@,
{
    reveal_strlit("!panic");
    assert("!panic"@.len() == 6);
}

/// What begins with a slash is never sent to anybody as a message.
pub proof fn law_commands_are_not_messages(input: Seq<char>)
    requires
        text::trimmed(input).len() > 0,
        text::trimmed(input)[0] == '/',
    ensures
        !(parsed(input) is Message),
{
    reveal_strlit("!panic");
}

/// The command word may be written in capitals or not: two lines that begin
/// with a word in basic Latin, a slash in front, and that differ in the case of
/// this word alone, mean the same.
pub proof fn law_command_word_has_no_case(a: Seq<char>, b: Seq<char>)
    requires
        text::trimmed(a).len() > 0,
        text::trimmed(b).len() > 0,
        text::trimmed(a)[0] == '/',
        text::trimmed(b)[0] == '/',
        is_ascii_chars(command_word(a)),
        is_ascii_chars(command_word(b)),
        text::small_letters(command_word(a)) == text::small_letters(command_word(b)),
        command_rest(a) == command_rest(b),
    ensures
        parsed(a) == parsed(b),
{
    reveal_strlit("!panic");
}

/// The command that a line of the help screen names, if it names one: the word
/// at its left margin.
pub open spec fn named_command(line: Seq<char>) -> Option<Seq<char>> {
    if line.len() > 3 && (line[3] == '/' || line[3] == '!') {
        Some(text::before(line.skip(3), ' '))
    } else {
        None
    }
}

/// What a line of the help screen lists behind a command.
pub ghost enum Listed {
    Nothing,
    /// A user or a path
    One,
    /// A user and a name
    Two,
    /// A user, or nothing
    Maybe,
    /// On or off
    Switch,
}

/// What the help screen lists behind the command in its line `k`.
pub open spec fn listed_behind(k: int) -> Listed {
    if k == 4 || k == 5 || k == 6 || k == 10 || k == 12 {
        Listed::One
    } else if k == 11 {
        Listed::Two
    } else if k == 16 {
        Listed::Maybe
    } else if k == 21 {
        Listed::Switch
    } else {
        Listed::Nothing
    }
}

/// A line of input gives a command with what is listed behind it.
pub open spec fn filled_in(input: Seq<char>, word: Seq<char>, behind: Listed) -> bool {
    let rest = command_rest(input);
    &&& command_word(input) == word
    &&& match behind {
        Listed::Nothing => rest is None,
        Listed::One => rest is Some,
        Listed::Two => further(rest) is Some,
        Listed::Maybe => true,
        Listed::Switch => rest is Some && (command_option(input) == "on"@ || command_option(input)
            == "off"@),
    }
}

/// The help screen has thirty lines of fifty-six characters.
pub proof fn law_help_screen_is_square()
    ensures
        help_lines().len() == 30,
        forall|k: int| 0 <= k < 30 ==> (#[trigger] help_lines()[k]).len() == 56,
{
    reveal_strlit("╔══════════════════════════════════════════════════════╗");
    reveal_strlit("║              ZEROSUM COMMAND REFERENCE               ║");
    reveal_strlit("╠══════════════════════════════════════════════════════╣");
    reveal_strlit("║  CHAT REQUESTS                                       ║");
    reveal_strlit("║  /request <user>    Send a chat request              ║");
    reveal_strlit("║  /accept <user>     Accept a chat request            ║");
    reveal_strlit("║  /reject <user>     Reject a chat request            ║");
    reveal_strlit("║  /requests          Show pending requests            ║");
    reveal_strlit("║                                                      ║");
    reveal_strlit("║  MESSAGING                                           ║");
    reveal_strlit("║  /select <user>     Select contact to chat with      ║");
    reveal_strlit("║  /alias <user> <n>  Set display name for contact     ║");
    reveal_strlit("║  /file <path>       Send an encrypted file           ║");
    reveal_strlit("║  /contacts          List all contacts                ║");
    reveal_strlit("║                                                      ║");
    reveal_strlit("║  SECURITY                                            ║");
    reveal_strlit("║  /verify [user]     Show safety number               ║");
    reveal_strlit("║  /lock              Lock screen                      ║");
    reveal_strlit("║  !panic             ⚠ DESTROY ALL LOCAL DATA         ║");
    reveal_strlit("║                                                      ║");
    reveal_strlit("║  HISTORY                                             ║");
    reveal_strlit("║  /history on|off    Toggle local history storage     ║");
    reveal_strlit("║  /purge             Securely delete history file     ║");
    reveal_strlit("║  /clear             Clear chat display               ║");
    reveal_strlit("║                                                      ║");
    reveal_strlit("║  SYSTEM                                              ║");
    reveal_strlit("║  /status            Show connection status           ║");
    reveal_strlit("║  /help              Show this help                   ║");
    reveal_strlit("║  /quit              Exit ZeroSum                     ║");
    reveal_strlit("╚══════════════════════════════════════════════════════╝");
}

proof fn lemma_named(line: Seq<char>, word: Seq<char>)
    requires
        line.len() > 3 + word.len(),
        word.len() > 0,
        word[0] == '/' || word[0] == '!',
        forall|j: int| 0 <= j < word.len() ==> #[trigger] line[3 + j] == word[j],
        forall|j: int| 0 <= j < word.len() ==> #[trigger] word[j] != ' ',
        line[3 + word.len() as int] == ' ',
    ensures
        named_command(line) == Some(word),
{
    let tail = line.skip(3);
    let n = word.len() as int;
    assert forall|j: int| 0 <= j < n implies #[trigger] tail[j] != ' ' by {
        assert(line[3 + j] == word[j]);
        assert(word[j] != ' ');
    }
    assert(line[3 + 0int] == word[0]);
    text::lemma_first_of(tail, ' ', n);
    assert(tail.take(n) =~= word) by {
        assert forall|j: int| 0 <= j < n implies tail.take(n)[j] == word[j] by {
            assert(line[3 + j] == word[j]);
        }
    }
}

/// The commands that the help screen names, by line.
pub open spec fn help_command(k: int) -> Option<Seq<char>> {
    if k == 4 {
        Some("/request"@)
    } else if k == 5 {
        Some("/accept"@)
    } else if k == 6 {
        Some("/reject"@)
    } else if k == 7 {
        Some("/requests"@)
    } else if k == 10 {
        Some("/select"@)
    } else if k == 11 {
        Some("/alias"@)
    } else if k == 12 {
        Some("/file"@)
    } else if k == 13 {
        Some("/contacts"@)
    } else if k == 16 {
        Some("/verify"@)
    } else if k == 17 {
        Some("/lock"@)
    } else if k == 18 {
        Some("!panic"@)
    } else if k == 21 {
        Some("/history"@)
    } else if k == 22 {
        Some("/purge"@)
    } else if k == 23 {
        Some("/clear"@)
    } else if k == 26 {
        Some("/status"@)
    } else if k == 27 {
        Some("/help"@)
    } else if k == 28 {
        Some("/quit"@)
    } else {
        None
    }
}

proof fn lemma_help_commands(k: int)
    requires
        0 <= k < 30,
    ensures
        named_command(help_lines()[k]) == help_command(k),
{
    if k == 0 {
        reveal_strlit("╔══════════════════════════════════════════════════════╗");
    }
    if k == 1 {
        reveal_strlit("║              ZEROSUM COMMAND REFERENCE               ║");
    }
    if k == 2 {
        reveal_strlit("╠══════════════════════════════════════════════════════╣");
    }
    if k == 3 {
        reveal_strlit("║  CHAT REQUESTS                                       ║");
    }
    if k == 4 {
        reveal_strlit("║  /request <user>    Send a chat request              ║");
        reveal_strlit("/request");
        lemma_named("║  /request <user>    Send a chat request              ║"@, "/request"@);
    }
    if k == 5 {
        reveal_strlit("║  /accept <user>     Accept a chat request            ║");
        reveal_strlit("/accept");
        lemma_named("║  /accept <user>     Accept a chat request            ║"@, "/accept"@);
    }
    if k == 6 {
        reveal_strlit("║  /reject <user>     Reject a chat request            ║");
        reveal_strlit("/reject");
        lemma_named("║  /reject <user>     Reject a chat request            ║"@, "/reject"@);
    }
    if k == 7 {
        reveal_strlit("║  /requests          Show pending requests            ║");
        reveal_strlit("/requests");
        lemma_named("║  /requests          Show pending requests            ║"@, "/requests"@);
    }
    if k == 8 {
        reveal_strlit("║                                                      ║");
    }
    if k == 9 {
        reveal_strlit("║  MESSAGING                                           ║");
    }
    if k == 10 {
        reveal_strlit("║  /select <user>     Select contact to chat with      ║");
        reveal_strlit("/select");
        lemma_named("║  /select <user>     Select contact to chat with      ║"@, "/select"@);
    }
    if k == 11 {
        reveal_strlit("║  /alias <user> <n>  Set display name for contact     ║");
        reveal_strlit("/alias");
        lemma_named("║  /alias <user> <n>  Set display name for contact     ║"@, "/alias"@);
    }
    if k == 12 {
        reveal_strlit("║  /file <path>       Send an encrypted file           ║");
        reveal_strlit("/file");
        lemma_named("║  /file <path>       Send an encrypted file           ║"@, "/file"@);
    }
    if k == 13 {
        reveal_strlit("║  /contacts          List all contacts                ║");
        reveal_strlit("/contacts");
        lemma_named("║  /contacts          List all contacts                ║"@, "/contacts"@);
    }
    if k == 14 {
        reveal_strlit("║                                                      ║");
    }
    if k == 15 {
        reveal_strlit("║  SECURITY                                            ║");
    }
    if k == 16 {
        reveal_strlit("║  /verify [user]     Show safety number               ║");
        reveal_strlit("/verify");
        lemma_named("║  /verify [user]     Show safety number               ║"@, "/verify"@);
    }
    if k == 17 {
        reveal_strlit("║  /lock              Lock screen                      ║");
        reveal_strlit("/lock");
        lemma_named("║  /lock              Lock screen                      ║"@, "/lock"@);
    }
    if k == 18 {
        reveal_strlit("║  !panic             ⚠ DESTROY ALL LOCAL DATA         ║");
        reveal_strlit("!panic");
        lemma_named("║  !panic             ⚠ DESTROY ALL LOCAL DATA         ║"@, "!panic"@);
    }
    if k == 19 {
        reveal_strlit("║                                                      ║");
    }
    if k == 20 {
        reveal_strlit("║  HISTORY                                             ║");
    }
    if k == 21 {
        reveal_strlit("║  /history on|off    Toggle local history storage     ║");
        reveal_strlit("/history");
        lemma_named("║  /history on|off    Toggle local history storage     ║"@, "/history"@);
    }
    if k == 22 {
        reveal_strlit("║  /purge             Securely delete history file     ║");
        reveal_strlit("/purge");
        lemma_named("║  /purge             Securely delete history file     ║"@, "/purge"@);
    }
    if k == 23 {
        reveal_strlit("║  /clear             Clear chat display               ║");
        reveal_strlit("/clear");
        lemma_named("║  /clear             Clear chat display               ║"@, "/clear"@);
    }
    if k == 24 {
        reveal_strlit("║                                                      ║");
    }
    if k == 25 {
        reveal_strlit("║  SYSTEM                                              ║");
    }
    if k == 26 {
        reveal_strlit("║  /status            Show connection status           ║");
        reveal_strlit("/status");
        lemma_named("║  /status            Show connection status           ║"@, "/status"@);
    }
    if k == 27 {
        reveal_strlit("║  /help              Show this help                   ║");
        reveal_strlit("/help");
        lemma_named("║  /help              Show this help                   ║"@, "/help"@);
    }
    if k == 28 {
        reveal_strlit("║  /quit              Exit ZeroSum                     ║");
        reveal_strlit("/quit");
        lemma_named("║  /quit              Exit ZeroSum                     ║"@, "/quit"@);
    }
    if k == 29 {
        reveal_strlit("╚══════════════════════════════════════════════════════╝");
    }
}

proof fn lemma_command_line(input: Seq<char>)
    requires
        command_word(input).len() > 0,
        command_word(input)[0] == '/',
    ensures
        text::trimmed(input).len() > 0,
        text::trimmed(input)[0] == '/',
        text::trimmed(input) != "!panic"@,
{
    text::lemma_first_of_bound(text::trimmed(input), ' ');
    reveal_strlit("!panic");
}

proof fn lemma_words_are_known(
    k: int,
    rest: Option<Seq<char>>,
    option: Seq<char>,
    behind: Listed,
)
    requires
        0 <= k < 30,
        k != 18,
        help_command(k) is Some,
        behind == listed_behind(k),
        match behind {
            Listed::Nothing => rest is None,
            Listed::One => rest is Some,
            Listed::Two => further(rest) is Some,
            Listed::Maybe => true,
            Listed::Switch => rest is Some && (option == "on"@ || option == "off"@),
        },
    ensures
        !(meaning(help_command(k)->Some_0, rest, option) is Unknown),
        !(meaning(help_command(k)->Some_0, rest, option) is Message),
{
    reveal_strlit("/?");
    reveal_strlit("/accept");
    reveal_strlit("/add");
    reveal_strlit("/alias");
    reveal_strlit("/c");
    reveal_strlit("/chat");
    reveal_strlit("/clear");
    reveal_strlit("/cls");
    reveal_strlit("/contacts");
    reveal_strlit("/deny");
    reveal_strlit("/exit");
    reveal_strlit("/f");
    reveal_strlit("/file");
    reveal_strlit("/h");
    reveal_strlit("/help");
    reveal_strlit("/history");
    reveal_strlit("/list");
    reveal_strlit("/lock");
    reveal_strlit("/pending");
    reveal_strlit("/purge");
    reveal_strlit("/q!");
    reveal_strlit("/quit");
    reveal_strlit("/reconnect");
    reveal_strlit("/reject");
    reveal_strlit("/remove");
    reveal_strlit("/req");
    reveal_strlit("/request");
    reveal_strlit("/requests");
    reveal_strlit("/s");
    reveal_strlit("/select");
    reveal_strlit("/send");
    reveal_strlit("/status");
    reveal_strlit("/v");
    reveal_strlit("/verify");
    reveal_strlit("on");
    reveal_strlit("off");
    reveal_strlit("enable");
    reveal_strlit("true");
    reveal_strlit("1");
    reveal_strlit("disable");
    reveal_strlit("false");
    reveal_strlit("0");
    assert("/reject"@[1] != "/accept"@[1]);
    assert("/requests"@[1] != "/contacts"@[1]);
    assert("/select"@[1] != "/accept"@[1]);
    assert("/select"@[1] != "/reject"@[1]);
    assert("/file"@[1] != "/deny"@[1]);
    assert("/file"@[1] != "/chat"@[1]);
    assert("/verify"@[1] != "/accept"@[1]);
    assert("/verify"@[1] != "/reject"@[1]);
    assert("/verify"@[1] != "/select"@[1]);
    assert("/verify"@[1] != "/remove"@[1]);
    assert("/lock"@[1] != "/deny"@[1]);
    assert("/lock"@[1] != "/chat"@[1]);
    assert("/lock"@[1] != "/file"@[1]);
    assert("/lock"@[1] != "/send"@[1]);
    assert("/lock"@[1] != "/help"@[1]);
    assert("/lock"@[1] != "/quit"@[1]);
    assert("/lock"@[1] != "/exit"@[1]);
    assert("/lock"@[2] != "/list"@[2]);
    assert("/history"@[1] != "/request"@[1]);
    assert("/purge"@[1] != "/alias"@[1]);
    assert("/purge"@[1] != "/clear"@[1]);
    assert("/clear"@[1] != "/alias"@[1]);
    assert("/status"@[1] != "/accept"@[1]);
    assert("/status"@[1] != "/reject"@[1]);
    assert("/status"@[2] != "/select"@[2]);
    assert("/status"@[1] != "/remove"@[1]);
    assert("/status"@[1] != "/verify"@[1]);
    assert("/help"@[1] != "/deny"@[1]);
    assert("/help"@[1] != "/chat"@[1]);
    assert("/help"@[1] != "/file"@[1]);
    assert("/help"@[1] != "/send"@[1]);
    assert("/quit"@[1] != "/deny"@[1]);
    assert("/quit"@[1] != "/chat"@[1]);
    assert("/quit"@[1] != "/file"@[1]);
    assert("/quit"@[1] != "/send"@[1]);
    assert("/quit"@[1] != "/help"@[1]);
    assert("/request"@.len() == 8);
    assert("/req"@.len() == 4);
    assert("/add"@.len() == 4);
    assert("/accept"@.len() == 7);
    assert("/reject"@.len() == 7);
    assert("/deny"@.len() == 5);
    assert("/select"@.len() == 7);
    assert("/s"@.len() == 2);
    assert("/chat"@.len() == 5);
    assert("/remove"@.len() == 7);
    assert("/alias"@.len() == 6);
    assert("/verify"@.len() == 7);
    assert("/v"@.len() == 2);
    assert("/clear"@.len() == 6);
    assert("/cls"@.len() == 4);
    assert("/history"@.len() == 8);
    assert("/purge"@.len() == 6);
    assert("/file"@.len() == 5);
    assert("/f"@.len() == 2);
    assert("/send"@.len() == 5);
    assert("/help"@.len() == 5);
    assert("/h"@.len() == 2);
    assert("/?"@.len() == 2);
    assert("/quit"@.len() == 5);
    assert("/exit"@.len() == 5);
    assert("/q!"@.len() == 3);
    assert("/contacts"@.len() == 9);
    assert("/c"@.len() == 2);
    assert("/list"@.len() == 5);
    assert("/requests"@.len() == 9);
    assert("/pending"@.len() == 8);
    assert("/status"@.len() == 7);
    assert("/reconnect"@.len() == 10);
    assert("/lock"@.len() == 5);
}

proof fn lemma_small_words(k: int)
    requires
        help_command(k) is Some,
    ensures
        text::in_lower_case(help_command(k)->Some_0) == help_command(k)->Some_0,
        help_command(k)->Some_0.len() > 0,
        k != 18 ==> help_command(k)->Some_0[0] == '/',
        text::in_lower_case("on"@) == "on"@,
        text::in_lower_case("off"@) == "off"@,
{
    reveal_strlit("/request");
    reveal_strlit("/accept");
    reveal_strlit("/reject");
    reveal_strlit("/requests");
    reveal_strlit("/select");
    reveal_strlit("/alias");
    reveal_strlit("/file");
    reveal_strlit("/contacts");
    reveal_strlit("/verify");
    reveal_strlit("/lock");
    reveal_strlit("!panic");
    reveal_strlit("/history");
    reveal_strlit("/purge");
    reveal_strlit("/clear");
    reveal_strlit("/status");
    reveal_strlit("/help");
    reveal_strlit("/quit");
    reveal_strlit("on");
    reveal_strlit("off");
    let word = help_command(k)->Some_0;
    assert(text::small_letters(word) =~= word);
    assert(text::small_letters("on"@) =~= "on"@);
    assert(text::small_letters("off"@) =~= "off"@);
}

/// Every command that the help screen names is understood: given with what is
/// listed behind it, it is neither unknown nor a message.
pub proof fn law_help_is_understood(k: int, input: Seq<char>)
    requires
        0 <= k < help_lines().len(),
        named_command(help_lines()[k]) matches Some(word) && filled_in(
            input,
            word,
            listed_behind(k),
        ),
    ensures
        !(parsed(input) is Unknown),
        !(parsed(input) is Message),
{
    lemma_help_commands(k);
    lemma_small_words(k);
    if k == 18 {
        let line = text::trimmed(input);
        text::lemma_first_of_bound(line, ' ');
        assert(line.take(line.len() as int) =~= line);
        reveal_strlit("!panic");
    } else {
        lemma_command_line(input);
        lemma_words_are_known(
            k,
            command_rest(input),
            text::in_lower_case(command_option(input)),
            listed_behind(k),
        );
    }
}

/// Every word means one command, with what follows it: who is asked, answered,
/// shown or removed is the first word behind it, an alias is all that follows
/// the name, and a path is all that follows, without white space at its ends.
/// Where something is missing the user is told what to write.
#[verifier::rlimit(60)]
pub proof fn law_words_mean_their_commands(
    cmd: Seq<char>,
    rest: Option<Seq<char>>,
    option: Seq<char>,
)
    ensures
        cmd == "/request"@ || cmd == "/req"@ || cmd == "/add"@ ==> match rest {
            Some(r) => meaning(cmd, rest, option) == Command::Request(text::before(r, ' ')),
            None => meaning(cmd, rest, option) == Command::Unknown("Usage: /request <username>"@),
        },
        cmd == "/accept"@ ==> match rest {
            Some(r) => meaning(cmd, rest, option) == Command::Accept(text::before(r, ' ')),
            None => meaning(cmd, rest, option) == Command::Unknown("Usage: /accept <username>"@),
        },
        cmd == "/reject"@ || cmd == "/deny"@ ==> match rest {
            Some(r) => meaning(cmd, rest, option) == Command::Reject(text::before(r, ' ')),
            None => meaning(cmd, rest, option) == Command::Unknown("Usage: /reject <username>"@),
        },
        cmd == "/select"@ || cmd == "/s"@ || cmd == "/chat"@ ==> match rest {
            Some(r) => meaning(cmd, rest, option) == Command::Select(text::before(r, ' ')),
            None => meaning(cmd, rest, option) == Command::Unknown("Usage: /select <username>"@),
        },
        cmd == "/remove"@ ==> match rest {
            Some(r) => meaning(cmd, rest, option) == Command::Remove(text::before(r, ' ')),
            None => meaning(cmd, rest, option) == Command::Unknown("Usage: /remove <username>"@),
        },
        cmd == "/alias"@ ==> match rest {
            Some(r) => match text::after(r, ' ') {
                Some(alias) => meaning(cmd, rest, option) == Command::Alias(
                    text::before(r, ' '),
                    alias,
                ),
                None => meaning(cmd, rest, option) == Command::Unknown(
                    "Usage: /alias <username> <alias>"@,
                ),
            },
            None => meaning(cmd, rest, option) == Command::Unknown(
                "Usage: /alias <username> <alias>"@,
            ),
        },
        cmd == "/verify"@ || cmd == "/v"@ ==> meaning(cmd, rest, option) == Command::Verify(
            match rest {
                Some(r) => Some(text::before(r, ' ')),
                None => None,
            },
        ),
        cmd == "/history"@ && rest is Some && (option == "on"@ || option == "enable"@ || option
            == "true"@ || option == "1"@) ==> meaning(cmd, rest, option) == Command::<
            Seq<char>,
        >::History(true),
        cmd == "/history"@ && rest is Some && (option == "off"@ || option == "disable"@ || option
            == "false"@ || option == "0"@) ==> meaning(cmd, rest, option) == Command::<
            Seq<char>,
        >::History(false),
        cmd == "/history"@ && meaning(cmd, rest, option) is History ==> rest is Some,
        cmd == "/file"@ || cmd == "/f"@ || cmd == "/send"@ ==> match rest {
            Some(r) => meaning(cmd, rest, option) == Command::File(text::trimmed(r)),
            None => meaning(cmd, rest, option) == Command::Unknown("Usage: /file <path>"@),
        },
        cmd == "/clear"@ || cmd == "/cls"@ ==> meaning(cmd, rest, option) is Clear,
        cmd == "/purge"@ ==> meaning(cmd, rest, option) is Purge,
        cmd == "/help"@ || cmd == "/h"@ || cmd == "/?"@ ==> meaning(cmd, rest, option) is Help,
        cmd == "/quit"@ || cmd == "/exit"@ || cmd == "/q!"@ ==> meaning(cmd, rest, option) is Quit,
        cmd == "/contacts"@ || cmd == "/c"@ || cmd == "/list"@ ==> meaning(cmd, rest, option) is Contacts,
        cmd == "/requests"@ || cmd == "/pending"@ ==> meaning(cmd, rest, option) is Requests,
        cmd == "/status"@ ==> meaning(cmd, rest, option) is Status,
        cmd == "/reconnect"@ ==> meaning(cmd, rest, option) is Reconnect,
        cmd == "/lock"@ ==> meaning(cmd, rest, option) is Lock,
{
    reveal_strlit("/request");
    reveal_strlit("/req");
    reveal_strlit("/add");
    reveal_strlit("/accept");
    reveal_strlit("/reject");
    reveal_strlit("/deny");
    reveal_strlit("/select");
    reveal_strlit("/s");
    reveal_strlit("/chat");
    reveal_strlit("/remove");
    reveal_strlit("/alias");
    reveal_strlit("/verify");
    reveal_strlit("/v");
    reveal_strlit("/clear");
    reveal_strlit("/cls");
    reveal_strlit("/history");
    reveal_strlit("/purge");
    reveal_strlit("/file");
    reveal_strlit("/f");
    reveal_strlit("/send");
    reveal_strlit("/help");
    reveal_strlit("/h");
    reveal_strlit("/?");
    reveal_strlit("/quit");
    reveal_strlit("/exit");
    reveal_strlit("/q!");
    reveal_strlit("/contacts");
    reveal_strlit("/c");
    reveal_strlit("/list");
    reveal_strlit("/requests");
    reveal_strlit("/pending");
    reveal_strlit("/status");
    reveal_strlit("/reconnect");
    reveal_strlit("/lock");
    reveal_strlit("on");
    reveal_strlit("enable");
    reveal_strlit("true");
    reveal_strlit("1");
    reveal_strlit("off");
    reveal_strlit("disable");
    reveal_strlit("false");
    reveal_strlit("0");
    assert("/request"@.len() == 8);
    assert("/req"@.len() == 4);
    assert("/add"@.len() == 4);
    assert("/accept"@.len() == 7);
    assert("/reject"@.len() == 7);
    assert("/deny"@.len() == 5);
    assert("/select"@.len() == 7);
    assert("/s"@.len() == 2);
    assert("/chat"@.len() == 5);
    assert("/remove"@.len() == 7);
    assert("/alias"@.len() == 6);
    assert("/verify"@.len() == 7);
    assert("/v"@.len() == 2);
    assert("/clear"@.len() == 6);
    assert("/cls"@.len() == 4);
    assert("/history"@.len() == 8);
    assert("/purge"@.len() == 6);
    assert("/file"@.len() == 5);
    assert("/f"@.len() == 2);
    assert("/send"@.len() == 5);
    assert("/help"@.len() == 5);
    assert("/h"@.len() == 2);
    assert("/?"@.len() == 2);
    assert("/quit"@.len() == 5);
    assert("/exit"@.len() == 5);
    assert("/q!"@.len() == 3);
    assert("/contacts"@.len() == 9);
    assert("/c"@.len() == 2);
    assert("/list"@.len() == 5);
    assert("/requests"@.len() == 9);
    assert("/pending"@.len() == 8);
    assert("/status"@.len() == 7);
    assert("/reconnect"@.len() == 10);
    assert("/lock"@.len() == 5);
    assert("on"@.len() == 2);
    assert("enable"@.len() == 6);
    assert("true"@.len() == 4);
    assert("1"@.len() == 1);
    assert("off"@.len() == 3);
    assert("disable"@.len() == 7);
    assert("false"@.len() == 5);
    assert("0"@.len() == 1);
    assert("/request"@[1] != "/history"@[1]);
    assert("/request"@[1] != "/pending"@[1]);
    assert("/req"@[1] != "/add"@[1]);
    assert("/req"@[1] != "/cls"@[1]);
    assert("/add"@[1] != "/cls"@[1]);
    assert("/accept"@[1] != "/reject"@[1]);
    assert("/accept"@[1] != "/select"@[1]);
    assert("/accept"@[1] != "/remove"@[1]);
    assert("/accept"@[1] != "/verify"@[1]);
    assert("/accept"@[1] != "/status"@[1]);
    assert("/reject"@[1] != "/select"@[1]);
    assert("/reject"@[3] != "/remove"@[3]);
    assert("/reject"@[1] != "/verify"@[1]);
    assert("/reject"@[1] != "/status"@[1]);
    assert("/deny"@[1] != "/chat"@[1]);
    assert("/deny"@[1] != "/file"@[1]);
    assert("/deny"@[1] != "/send"@[1]);
    assert("/deny"@[1] != "/help"@[1]);
    assert("/deny"@[1] != "/quit"@[1]);
    assert("/deny"@[1] != "/exit"@[1]);
    assert("/deny"@[1] != "/list"@[1]);
    assert("/deny"@[1] != "/lock"@[1]);
    assert("/select"@[1] != "/remove"@[1]);
    assert("/select"@[1] != "/verify"@[1]);
    assert("/select"@[2] != "/status"@[2]);
    assert("/s"@[1] != "/v"@[1]);
    assert("/s"@[1] != "/f"@[1]);
    assert("/s"@[1] != "/h"@[1]);
    assert("/s"@[1] != "/?"@[1]);
    assert("/s"@[1] != "/c"@[1]);
    assert("/chat"@[1] != "/file"@[1]);
    assert("/chat"@[1] != "/send"@[1]);
    assert("/chat"@[1] != "/help"@[1]);
    assert("/chat"@[1] != "/quit"@[1]);
    assert("/chat"@[1] != "/exit"@[1]);
    assert("/chat"@[1] != "/list"@[1]);
    assert("/chat"@[1] != "/lock"@[1]);
    assert("/remove"@[1] != "/verify"@[1]);
    assert("/remove"@[1] != "/status"@[1]);
    assert("/alias"@[1] != "/clear"@[1]);
    assert("/alias"@[1] != "/purge"@[1]);
    assert("/verify"@[1] != "/status"@[1]);
    assert("/v"@[1] != "/f"@[1]);
    assert("/v"@[1] != "/h"@[1]);
    assert("/v"@[1] != "/?"@[1]);
    assert("/v"@[1] != "/c"@[1]);
    assert("/clear"@[1] != "/purge"@[1]);
    assert("/history"@[1] != "/pending"@[1]);
    assert("/file"@[1] != "/send"@[1]);
    assert("/file"@[1] != "/help"@[1]);
    assert("/file"@[1] != "/quit"@[1]);
    assert("/file"@[1] != "/exit"@[1]);
    assert("/file"@[1] != "/list"@[1]);
    assert("/file"@[1] != "/lock"@[1]);
    assert("/f"@[1] != "/h"@[1]);
    assert("/f"@[1] != "/?"@[1]);
    assert("/f"@[1] != "/c"@[1]);
    assert("/send"@[1] != "/help"@[1]);
    assert("/send"@[1] != "/quit"@[1]);
    assert("/send"@[1] != "/exit"@[1]);
    assert("/send"@[1] != "/list"@[1]);
    assert("/send"@[1] != "/lock"@[1]);
    assert("/help"@[1] != "/quit"@[1]);
    assert("/help"@[1] != "/exit"@[1]);
    assert("/help"@[1] != "/list"@[1]);
    assert("/help"@[1] != "/lock"@[1]);
    assert("/h"@[1] != "/?"@[1]);
    assert("/h"@[1] != "/c"@[1]);
    assert("/?"@[1] != "/c"@[1]);
    assert("/quit"@[1] != "/exit"@[1]);
    assert("/quit"@[1] != "/list"@[1]);
    assert("/quit"@[1] != "/lock"@[1]);
    assert("/exit"@[1] != "/list"@[1]);
    assert("/exit"@[1] != "/lock"@[1]);
    assert("/contacts"@[1] != "/requests"@[1]);
    assert("/list"@[2] != "/lock"@[2]);
    assert("1"@[0] != "0"@[0]);
}

/// A line is cut at its first spaces: the command is what stands in front of the
/// first one, and everything behind it belongs to the command. Only the case of
/// the command is passed over.
pub proof fn law_line_is_command_and_rest(input: Seq<char>)
    requires
        text::trimmed(input).len() > 0,
        text::trimmed(input)[0] == '/',
    ensures
        parsed(input) == meaning(
            text::in_lower_case(text::before(text::trimmed(input), ' ')),
            text::after(text::trimmed(input), ' '),
            text::in_lower_case(
                match text::after(text::trimmed(input), ' ') {
                    Some(r) => text::before(r, ' '),
                    None => Seq::<char>::empty(),
                },
            ),
        ),
{
    reveal_strlit("!panic");
}

} // verus!
