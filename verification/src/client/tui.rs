//! The state behind the terminal interface: what is shown, and what a key
//! does.

use vstd::prelude::*;
use vstd::utf8::*;

use crate::client::commands;
use crate::client::commands::{Command, CommandView};
use crate::clock;
use crate::text;
use crate::textmap::TextMap;

verus! {

// ── Messages and contacts ───────────────────────────────────

/// A chat message for display
#[derive(Debug, Clone)]
pub struct ChatMessage {
    pub timestamp: String,
    pub sender: String,
    pub content: String,
    pub is_system: bool,
}

/// The view of a [`ChatMessage`]: what is said of a message, whenever it came.
#[verifier::ext_equal]
pub ghost struct LineView {
    pub sender: Seq<char>,
    pub content: Seq<char>,
    pub is_system: bool,
}

impl View for ChatMessage {
    type V = LineView;

    open spec fn view(&self) -> LineView {
        LineView { sender: self.sender@, content: self.content@, is_system: self.is_system }
    }
}

/// The views of a list of messages.
pub open spec fn line_views(messages: Seq<ChatMessage>) -> Seq<LineView> {
    messages.map_values(|m: ChatMessage| m@)
}

/// A line of the system log.
pub open spec fn system_line(content: Seq<char>) -> LineView {
    LineView { sender: "system"@, content, is_system: true }
}

/// A message of a chat.
pub open spec fn chat_line(sender: Seq<char>, content: Seq<char>) -> LineView {
    LineView { sender, content, is_system: false }
}

#[derive(Debug, Clone)]
#[verifier::ext_equal]
pub struct ContactDisplay<T = String> {
    pub username: T,
    pub alias: Option<T>,
    pub online: bool,
    pub verified: bool,
    pub unread: u32,
}

/// The view of a [`ContactDisplay`].
pub type DisplayView = ContactDisplay<Seq<char>>;

impl View for ContactDisplay<String> {
    type V = ContactDisplay<Seq<char>>;

    open spec fn view(&self) -> ContactDisplay<Seq<char>> {
        ContactDisplay {
            username: self.username@,
            alias: text::opt_text(self.alias),
            online: self.online,
            verified: self.verified,
            unread: self.unread,
        }
    }
}

/// The views of a list of contacts.
pub open spec fn display_views(contacts: Seq<ContactDisplay>) -> Seq<DisplayView> {
    contacts.map_values(|c: ContactDisplay| c@)
}

/// Where a user first occurs in a list of contacts; its length where it does
/// not.
pub open spec fn position(contacts: Seq<DisplayView>, username: Seq<char>) -> int
    decreases contacts.len(),
{
    if contacts.len() == 0 || contacts[0].username == username {
        0
    } else {
        1 + position(contacts.skip(1), username)
    }
}

pub proof fn lemma_position(contacts: Seq<DisplayView>, username: Seq<char>, i: int)
    requires
        0 <= i <= contacts.len(),
        forall|j: int| 0 <= j < i ==> (#[trigger] contacts[j]).username != username,
        i < contacts.len() ==> contacts[i].username == username,
    ensures
        position(contacts, username) == i,
    decreases i,
{
    if i > 0 {
        assert(contacts[0].username != username);
        let rest = contacts.skip(1);
        assert forall|j: int| 0 <= j < i - 1 implies (#[trigger] rest[j]).username != username by {
            assert(contacts[j + 1].username != username);
        }
        lemma_position(rest, username, i - 1);
    }
}

/// Whether a user is in a list of contacts.
pub open spec fn listed(contacts: Seq<DisplayView>, username: Seq<char>) -> bool {
    position(contacts, username) < contacts.len()
}

// ── The state ───────────────────────────────────────────────

/// State for the TUI
#[derive(Debug)]
pub struct AppState {
    /// Current input buffer
    pub input: String,
    /// Cursor position in input, in bytes
    pub cursor_pos: usize,
    /// Currently selected contact index
    pub selected_contact: Option<usize>,
    /// Active chat peer (username)
    pub active_peer: Option<String>,
    /// Chat messages per peer
    pub messages: TextMap<Vec<ChatMessage>>,
    /// System messages (global log)
    pub system_messages: Vec<ChatMessage>,
    /// Contact list
    pub contacts: Vec<ContactDisplay>,
    /// Connection status
    pub connected: bool,
    /// Username
    pub username: String,
    /// Show help overlay
    pub show_help: bool,
    /// Whether the screen is locked
    pub locked: bool,
    /// Scroll offset for chat
    pub chat_scroll: u16,
    /// Whether the app should quit
    pub should_quit: bool,
    /// History enabled
    pub history_enabled: bool,
    /// Input history for up/down arrow
    pub input_history: Vec<String>,
    pub input_history_idx: Option<usize>,
}

/// The view of an [`AppState`].
#[verifier::ext_equal]
pub ghost struct AppView {
    pub input: Seq<char>,
    pub cursor_pos: usize,
    pub selected_contact: Option<usize>,
    pub active_peer: Option<Seq<char>>,
    pub messages: Map<Seq<char>, Seq<LineView>>,
    pub system_messages: Seq<LineView>,
    pub contacts: Seq<DisplayView>,
    pub connected: bool,
    pub username: Seq<char>,
    pub show_help: bool,
    pub locked: bool,
    pub chat_scroll: u16,
    pub should_quit: bool,
    pub history_enabled: bool,
    pub input_history: Seq<Seq<char>>,
    pub input_history_idx: Option<usize>,
}

/// The texts of a list of strings.
pub open spec fn texts(strings: Seq<String>) -> Seq<Seq<char>> {
    strings.map_values(|s: String| s@)
}

/// The messages of each peer.
pub open spec fn chats(m: Map<Seq<char>, Vec<ChatMessage>>) -> Map<Seq<char>, Seq<LineView>> {
    m.map_values(|v: Vec<ChatMessage>| line_views(v@))
}

impl View for AppState {
    type V = AppView;

    open spec fn view(&self) -> AppView {
        AppView {
            input: self.input@,
            cursor_pos: self.cursor_pos,
            selected_contact: self.selected_contact,
            active_peer: text::opt_text(self.active_peer),
            messages: chats(self.messages@),
            system_messages: line_views(self.system_messages@),
            contacts: display_views(self.contacts@),
            connected: self.connected,
            username: self.username@,
            show_help: self.show_help,
            locked: self.locked,
            chat_scroll: self.chat_scroll,
            should_quit: self.should_quit,
            history_enabled: self.history_enabled,
            input_history: texts(self.input_history@),
            input_history_idx: self.input_history_idx,
        }
    }
}

/// The state of a client that has just been started.
pub open spec fn initial(username: Seq<char>) -> AppView {
    AppView {
        input: seq![],
        cursor_pos: 0,
        selected_contact: None,
        active_peer: None,
        messages: Map::empty(),
        system_messages: seq![],
        contacts: seq![],
        connected: false,
        username,
        show_help: false,
        locked: false,
        chat_scroll: 0,
        should_quit: false,
        history_enabled: false,
        input_history: seq![],
        input_history_idx: None,
    }
}

/// The state with one more line in the system log.
pub open spec fn logged(s: AppView, line: Seq<char>) -> AppView {
    AppView { system_messages: s.system_messages.push(system_line(line)), ..s }
}

/// The messages of a peer.
pub open spec fn chat_with(s: AppView, peer: Seq<char>) -> Seq<LineView> {
    if s.messages.contains_key(peer) {
        s.messages[peer]
    } else {
        seq![]
    }
}

/// The contacts with one more unread message of a user that is listed.
pub open spec fn bumped(contacts: Seq<DisplayView>, username: Seq<char>) -> Seq<DisplayView> {
    let i = position(contacts, username);
    if i < contacts.len() {
        contacts.update(
            i,
            ContactDisplay { unread: (contacts[i].unread + 1) as u32, ..contacts[i] },
        )
    } else {
        contacts
    }
}

/// The state with one more message in a chat; it counts as unread unless the
/// chat is on the screen.
pub open spec fn chatted(
    s: AppView,
    peer: Seq<char>,
    sender: Seq<char>,
    content: Seq<char>,
) -> AppView {
    AppView {
        messages: s.messages.insert(peer, chat_with(s, peer).push(chat_line(sender, content))),
        contacts: if s.active_peer == Some(peer) {
            s.contacts
        } else {
            bumped(s.contacts, peer)
        },
        ..s
    }
}

/// Whether the unread counter of a user can go up.
pub open spec fn can_bump(s: AppView, peer: Seq<char>) -> bool {
    s.active_peer != Some(peer) && listed(s.contacts, peer) ==> s.contacts[position(
        s.contacts,
        peer,
    )].unread < u32::MAX
}

/// The messages on the screen: those of the active chat, or the system log.
pub open spec fn on_screen(s: AppView) -> Seq<LineView> {
    match s.active_peer {
        Some(peer) => chat_with(s, peer),
        None => s.system_messages,
    }
}

/// Where a user first occurs among the contacts.
pub fn find_contact(contacts: &Vec<ContactDisplay>, username: &str) -> (r: Option<usize>)
    ensures
        match r {
            Some(i) => i == position(display_views(contacts@), username@) && i < contacts@.len(),
            None => !listed(display_views(contacts@), username@) && position(
                display_views(contacts@),
                username@,
            ) == contacts@.len(),
        },
{
    let n: usize = contacts.len();
    let ghost all = display_views(contacts@);
    for i in 0..n
        invariant
            n == contacts@.len(),
            all == display_views(contacts@),
            forall|j: int| 0 <= j < i ==> (#[trigger] all[j]).username != username@,
    {
        assert(all[i as int] == contacts@[i as int]@);
        if text::same_text(contacts[i].username.as_str(), username) {
            proof {
                lemma_position(all, username@, i as int);
            }
            return Some(i);
        }
    }
    proof {
        lemma_position(all, username@, n as int);
    }
    None
}

/// Whether a contact is somebody else.
pub open spec fn other_than(username: Seq<char>) -> spec_fn(DisplayView) -> bool {
    |d: DisplayView| d.username != username
}

/// The contacts without a user.
pub open spec fn without(contacts: Seq<DisplayView>, username: Seq<char>) -> Seq<DisplayView> {
    contacts.filter(other_than(username))
}

/// The contacts without a user.
pub fn without_contact(contacts: Vec<ContactDisplay>, username: &str) -> (r: Vec<ContactDisplay>)
    ensures
        display_views(r@) == without(display_views(contacts@), username@),
{
    let ghost all = display_views(contacts@);
    let ghost keep = other_than(username@);
    let mut out: Vec<ContactDisplay> = Vec::new();
    assert(display_views(out@) =~= all.take(0).filter(keep)) by {
        reveal(Seq::filter);
    }
    for c in it: contacts
        invariant
            it.seq() == contacts@,
            all == display_views(contacts@),
            keep == other_than(username@),
            display_views(out@) == all.take(it.index()).filter(keep),
    {
        let ghost before = out@;
        proof {
            reveal(Seq::filter);
            let prefix = all.take(it.index() + 1);
            assert(prefix.drop_last() =~= all.take(it.index()));
            assert(prefix.last() == c@);
        }
        if !text::same_text(c.username.as_str(), username) {
            out.push(c);
            assert(display_views(out@) =~= display_views(before).push(c@));
        }
    }
    assert(all.take(all.len() as int) =~= all);
    out
}

/// Whoever is taken from the contacts is not listed any more, and everybody
/// else still is.
pub proof fn lemma_without(contacts: Seq<DisplayView>, username: Seq<char>)
    ensures
        !listed(without(contacts, username), username),
        forall|d: DisplayView|
            d.username != username ==> (#[trigger] without(contacts, username).contains(d)
                <==> contacts.contains(d)),
{
    let left = without(contacts, username);
    let keep = other_than(username);
    assert forall|i: int| 0 <= i < left.len() implies (#[trigger] left[i]).username
        != username by {
        contacts.lemma_filter_pred(keep, i);
    }
    lemma_position(left, username, left.len() as int);
    assert forall|d: DisplayView| d.username != username implies (#[trigger] left.contains(d)
        <==> contacts.contains(d)) by {
        if contacts.contains(d) {
            let i = contacts.index_of(d);
            contacts.lemma_filter_contains(keep, i);
        }
        if left.contains(d) {
            contacts.lemma_filter_contains_rev(keep, d);
        }
    }
}

/// A list of messages goes on from an earlier one: nothing in it has changed,
/// not even a time.
pub open spec fn goes_on(before: Seq<ChatMessage>, after: Seq<ChatMessage>) -> bool {
    &&& before.len() <= after.len()
    &&& forall|i: int| 0 <= i < before.len() ==> #[trigger] after[i] == before[i]
}

/// The messages of a peer, with their times.
pub open spec fn lines_of(chats: Map<Seq<char>, Vec<ChatMessage>>, peer: Seq<char>) -> Seq<
    ChatMessage,
> {
    if chats.contains_key(peer) {
        chats[peer]@
    } else {
        seq![]
    }
}

/// A log and chats go on from earlier ones.
#[verifier::opaque]
pub open spec fn all_go_on(
    log: Seq<ChatMessage>,
    chats: Map<Seq<char>, Vec<ChatMessage>>,
    later_log: Seq<ChatMessage>,
    later_chats: Map<Seq<char>, Vec<ChatMessage>>,
) -> bool {
    &&& goes_on(log, later_log)
    &&& forall|peer: Seq<char>|
        goes_on(lines_of(chats, peer), #[trigger] lines_of(later_chats, peer))
}

/// What has not changed goes on.
pub broadcast proof fn lemma_same_goes_on(
    log: Seq<ChatMessage>,
    chats: Map<Seq<char>, Vec<ChatMessage>>,
)
    ensures
        #[trigger] all_go_on(log, chats, log, chats),
{
    reveal(all_go_on);
}

/// What goes on twice goes on.
pub broadcast proof fn lemma_goes_on_further(
    log: Seq<ChatMessage>,
    chats: Map<Seq<char>, Vec<ChatMessage>>,
    later_log: Seq<ChatMessage>,
    later_chats: Map<Seq<char>, Vec<ChatMessage>>,
    last_log: Seq<ChatMessage>,
    last_chats: Map<Seq<char>, Vec<ChatMessage>>,
)
    requires
        #[trigger] all_go_on(log, chats, later_log, later_chats),
        #[trigger] all_go_on(later_log, later_chats, last_log, last_chats),
    ensures
        all_go_on(log, chats, last_log, last_chats),
{
    reveal(all_go_on);
    assert forall|i: int| 0 <= i < log.len() implies #[trigger] last_log[i] == log[i] by {
        assert(later_log[i] == log[i]);
    }
    assert forall|peer: Seq<char>| goes_on(
        lines_of(chats, peer),
        #[trigger] lines_of(last_chats, peer),
    ) by {
        let first = lines_of(chats, peer);
        let second = lines_of(later_chats, peer);
        let third = lines_of(last_chats, peer);
        assert(goes_on(first, second));
        assert(goes_on(second, third));
        assert forall|i: int| 0 <= i < first.len() implies #[trigger] third[i] == first[i] by {
            assert(second[i] == first[i]);
        }
    }
}

impl AppState {
    /// The messages of a peer, with their times.
    pub open spec fn chat_lines(&self, peer: Seq<char>) -> Seq<ChatMessage> {
        lines_of(self.messages@, peer)
    }

    /// The messages on the screen, with their times.
    pub open spec fn shown_messages(&self) -> Seq<ChatMessage> {
        match self.active_peer {
            Some(peer) => self.chat_lines(peer@),
            None => self.system_messages@,
        }
    }

    /// The log and every chat go on from an earlier state.
    pub open spec fn lines_go_on(&self, before: AppState) -> bool {
        all_go_on(
            before.system_messages@,
            before.messages@,
            self.system_messages@,
            self.messages@,
        )
    }

    /// The log and every chat are those of an earlier state, or empty.
    pub open spec fn lines_left(&self, before: AppState) -> bool {
        &&& self.system_messages@ == before.system_messages@ || self.system_messages@.len() == 0
        &&& forall|peer: Seq<char>|
            #![trigger self.chat_lines(peer)]
            self.chat_lines(peer) == before.chat_lines(peer) || self.chat_lines(peer).len() == 0
    }

    /// The log and every chat are those of an earlier state.
    pub open spec fn lines_are_same(&self, before: AppState) -> bool {
        &&& self.system_messages@ == before.system_messages@
        &&& self.messages@ == before.messages@
    }

    pub fn new(username: String) -> (r: AppState)
        ensures
            r@ == initial(username@),
    {
        let r = AppState {
            input: String::new(),
            cursor_pos: 0,
            selected_contact: None,
            active_peer: None,
            messages: TextMap::new(),
            system_messages: Vec::new(),
            contacts: Vec::new(),
            connected: false,
            username,
            show_help: false,
            locked: false,
            chat_scroll: 0,
            should_quit: false,
            history_enabled: false,
            input_history: Vec::new(),
            input_history_idx: None,
        };
        assert(r@ =~= initial(username@));
        r
    }

    /// Adds a line to the system log, at the present time.
    pub fn add_system_message(&mut self, msg: &str)
        ensures
            final(self)@ == logged(old(self)@, msg@),
            final(self).lines_go_on(*old(self)),
    {
        let now = clock::local_time_text();
        self.add_system_message_at(msg, now);
    }

    /// Adds a line to the system log, with a given time.
    pub fn add_system_message_at(&mut self, msg: &str, timestamp: String)
        ensures
            final(self)@ == logged(old(self)@, msg@),
            final(self).system_messages@.last().timestamp == timestamp,
            final(self).system_messages@.drop_last() == old(self).system_messages@,
            final(self).messages@ == old(self).messages@,
            final(self).lines_go_on(*old(self)),
    {
        self.system_messages.push(
            ChatMessage {
                timestamp,
                sender: "system".to_owned(),
                content: msg.to_owned(),
                is_system: true,
            },
        );
        assert(self@.system_messages =~= old(self)@.system_messages.push(system_line(msg@)));
        assert(self.system_messages@.drop_last() =~= old(self).system_messages@);
        assert(self.lines_go_on(*old(self))) by {
            reveal(all_go_on);
        }
    }

    /// Adds a message to a chat, at the present time.
    pub fn add_chat_message(&mut self, peer: &str, sender: &str, content: &str)
        requires
            can_bump(old(self)@, peer@),
        ensures
            final(self)@ == chatted(old(self)@, peer@, sender@, content@),
            final(self).lines_go_on(*old(self)),
    {
        let now = clock::local_time_text();
        self.add_chat_message_at(peer, sender, content, now);
    }

    /// Adds a message to a chat, with a given time.
    pub fn add_chat_message_at(
        &mut self,
        peer: &str,
        sender: &str,
        content: &str,
        timestamp: String,
    )
        requires
            can_bump(old(self)@, peer@),
        ensures
            final(self)@ == chatted(old(self)@, peer@, sender@, content@),
            final(self).chat_lines(peer@).last().timestamp == timestamp,
            final(self).chat_lines(peer@).drop_last() == old(self).chat_lines(peer@),
            final(self).messages@.remove(peer@) == old(self).messages@.remove(peer@),
            final(self).system_messages@ == old(self).system_messages@,
            final(self).lines_go_on(*old(self)),
    {
        let msg = ChatMessage {
            timestamp,
            sender: sender.to_owned(),
            content: content.to_owned(),
            is_system: false,
        };
        let ghost before = self.messages@;
        if self.messages.contains_key(peer) {
            if let Some(chat) = self.messages.get_mut(peer) {
                chat.push(msg);
            }
        } else {
            let mut chat: Vec<ChatMessage> = Vec::new();
            chat.push(msg);
            self.messages.insert(peer.to_owned(), chat);
        }
        proof {
            let chat = self.messages@[peer@];
            assert(self.messages@ == before.insert(peer@, chat));
            assert(line_views(chat@) =~= chat_with(old(self)@, peer@).push(msg@));
            assert(chats(self.messages@) =~= chats(before).insert(peer@, line_views(chat@)));
            assert(chat@.drop_last() =~= old(self).chat_lines(peer@));
            assert(self.messages@.remove(peer@) =~= before.remove(peer@));
            assert(self.lines_go_on(*old(self))) by {
                reveal(all_go_on);
            }
        }
        let is_active = match &self.active_peer {
            Some(p) => text::same_text(p.as_str(), peer),
            None => false,
        };
        if !is_active {
            if let Some(i) = find_contact(&self.contacts, peer) {
                let ghost contacts = self@.contacts;
                assert(contacts[i as int] == self.contacts@[i as int]@);
                self.contacts[i].unread = self.contacts[i].unread + 1;
                assert(self@.contacts =~= bumped(contacts, peer@));
            }
        }
    }

    /// Whether the unread counter of a user can go up.
    pub fn can_count(&self, peer: &str) -> (r: bool)
        ensures
            r == can_bump(self@, peer@),
    {
        let is_active = match &self.active_peer {
            Some(p) => text::same_text(p.as_str(), peer),
            None => false,
        };
        if is_active {
            return true;
        }
        match find_contact(&self.contacts, peer) {
            Some(i) => {
                assert(self@.contacts[i as int] == self.contacts@[i as int]@);
                self.contacts[i].unread < u32::MAX
            },
            None => true,
        }
    }

    /// The messages on the screen: those of the active chat, or the system
    /// log.
    pub fn active_messages(&self) -> (r: &[ChatMessage])
        ensures
            r@ == self.shown_messages(),
            line_views(r@) == on_screen(self@),
    {
        match &self.active_peer {
            Some(peer) => match self.messages.get(peer.as_str()) {
                Some(chat) => chat.as_slice(),
                None => {
                    let none: &[ChatMessage] = &[];
                    assert(none@ =~= seq![]);
                    assert(line_views(none@) =~= seq![]);
                    none
                },
            },
            None => self.system_messages.as_slice(),
        }
    }
}

// ── Keys ────────────────────────────────────────────────────

/// A key.
#[derive(Debug, Clone, Copy, PartialEq, Eq, Structural)]
pub enum KeyCode {
    Enter,
    Char(char),
    Backspace,
    Delete,
    Left,
    Right,
    Home,
    End,
    Up,
    Down,
    Tab,
    Esc,
    F(u8),
    Other,
}

/// A key that was pressed, perhaps together with Control.
#[derive(Debug, Clone, Copy, PartialEq, Eq, Structural)]
pub struct KeyEvent {
    pub code: KeyCode,
    pub control: bool,
}

/// Whether a key opens and closes the help overlay.
pub open spec fn is_help_key(key: KeyEvent) -> bool {
    key.code == KeyCode::F(1) || (key.control && key.code == KeyCode::Char('h'))
}

/// Whether a character with Control is a command of its own.
pub open spec fn is_shortcut(c: char) -> bool {
    c == 'c' || c == 'q' || c == 'l' || c == 'h'
}

/// The state with another input line, the cursor at its end.
pub open spec fn with_input(s: AppView, input: Seq<char>) -> AppView {
    AppView { input, cursor_pos: text::byte_len(input) as usize, ..s }
}

/// The state with an empty input line.
pub open spec fn without_input(s: AppView) -> AppView {
    AppView { input: seq![], cursor_pos: 0, ..s }
}

/// The place in the input history that the arrow up leads to.
pub open spec fn earlier(s: AppView) -> int {
    match s.input_history_idx {
        Some(i) => if i > 0 {
            i - 1
        } else {
            0
        },
        None => s.input_history.len() - 1,
    }
}

/// The contact that Tab leads to.
pub open spec fn next_contact(s: AppView) -> int {
    match s.selected_contact {
        Some(i) => (i + 1) % (s.contacts.len() as int),
        None => 0,
    }
}

/// A chat is opened: it becomes the active one, and nothing of it is unread.
pub open spec fn opened(s: AppView, i: int) -> AppView {
    AppView {
        selected_contact: Some(i as usize),
        active_peer: Some(s.contacts[i].username),
        contacts: s.contacts.update(i, ContactDisplay { unread: 0, ..s.contacts[i] }),
        ..s
    }
}

/// Whether a key can be handled in a state. The cursor counts bytes and moves
/// by one for each character: behind a character of several bytes it may stand
/// where the line cannot be changed.
pub open spec fn can_press(s: AppView, key: KeyEvent) -> bool {
    s.locked || s.show_help || match key.code {
        KeyCode::Char(c) => (key.control && is_shortcut(c)) || (text::can_cut(
            s.input,
            s.cursor_pos as int,
        ) && s.cursor_pos < usize::MAX),
        KeyCode::Backspace => s.cursor_pos > 0 ==> text::can_cut(s.input, s.cursor_pos - 1)
            && s.cursor_pos - 1 < text::byte_len(s.input),
        KeyCode::Delete => s.cursor_pos < text::byte_len(s.input) ==> text::can_cut(
            s.input,
            s.cursor_pos as int,
        ),
        KeyCode::Up => s.input_history.len() > 0 ==> earlier(s) < s.input_history.len(),
        KeyCode::Down => s.input_history_idx matches Some(i) ==> i < usize::MAX,
        KeyCode::Tab => s.selected_contact matches Some(i) ==> i < usize::MAX,
        _ => true,
    }
}

/// What a key does on a locked screen: a password can be typed and handed in,
/// and the client can be quit. Nothing else is possible.
pub open spec fn pressed_locked(s: AppView, key: KeyEvent) -> (AppView, Option<CommandView>) {
    match key.code {
        KeyCode::Enter => if s.input.len() == 0 {
            (s, None)
        } else {
            (without_input(s), Some(Command::Unlock(s.input)))
        },
        KeyCode::Char(c) => if key.control && (c == 'c' || c == 'q') {
            (s, Some(Command::Quit))
        } else if key.control {
            (s, None)
        } else {
            (AppView { input: s.input.push(c), cursor_pos: 0, ..s }, None)
        },
        KeyCode::Backspace => if s.input.len() == 0 {
            (s, None)
        } else {
            (AppView { input: s.input.drop_last(), cursor_pos: 0, ..s }, None)
        },
        _ => (s, None),
    }
}

/// What a key does: the state after it, and the command that it gives.
pub open spec fn pressed(s: AppView, key: KeyEvent) -> (AppView, Option<CommandView>) {
    if s.locked {
        pressed_locked(s, key)
    } else if s.show_help {
        if key.code == KeyCode::Esc || is_help_key(key) {
            (AppView { show_help: false, ..s }, None)
        } else {
            (s, None)
        }
    } else {
        match key.code {
            KeyCode::Enter => if s.input.len() == 0 {
                (s, None)
            } else {
                (
                    AppView {
                        input_history: s.input_history.push(s.input),
                        input_history_idx: None,
                        ..without_input(s)
                    },
                    Some(commands::parsed(s.input)),
                )
            },
            KeyCode::Char(c) => if key.control && (c == 'c' || c == 'q') {
                (s, Some(Command::Quit))
            } else if key.control && c == 'l' {
                (s, Some(Command::Clear))
            } else if key.control && c == 'h' {
                (AppView { show_help: true, ..s }, None)
            } else {
                let at = s.cursor_pos as int;
                (
                    AppView {
                        input: text::front(s.input, at).push(c) + text::back(s.input, at),
                        cursor_pos: (s.cursor_pos + 1) as usize,
                        ..s
                    },
                    None,
                )
            },
            KeyCode::Backspace => if s.cursor_pos > 0 {
                let at = s.cursor_pos - 1;
                (
                    AppView {
                        input: text::front(s.input, at) + text::back(s.input, at).skip(1),
                        cursor_pos: at as usize,
                        ..s
                    },
                    None,
                )
            } else {
                (s, None)
            },
            KeyCode::Delete => if s.cursor_pos < text::byte_len(s.input) {
                let at = s.cursor_pos as int;
                (
                    AppView {
                        input: text::front(s.input, at) + text::back(s.input, at).skip(1),
                        ..s
                    },
                    None,
                )
            } else {
                (s, None)
            },
            KeyCode::Left => if s.cursor_pos > 0 {
                (AppView { cursor_pos: (s.cursor_pos - 1) as usize, ..s }, None)
            } else {
                (s, None)
            },
            KeyCode::Right => if s.cursor_pos < text::byte_len(s.input) {
                (AppView { cursor_pos: (s.cursor_pos + 1) as usize, ..s }, None)
            } else {
                (s, None)
            },
            KeyCode::Home => (AppView { cursor_pos: 0, ..s }, None),
            KeyCode::End => (AppView { cursor_pos: text::byte_len(s.input) as usize, ..s }, None),
            KeyCode::Up => if s.input_history.len() > 0 {
                (
                    AppView {
                        input_history_idx: Some(earlier(s) as usize),
                        ..with_input(s, s.input_history[earlier(s)])
                    },
                    None,
                )
            } else {
                (s, None)
            },
            KeyCode::Down => match s.input_history_idx {
                Some(i) => if i + 1 < s.input_history.len() {
                    (
                        AppView {
                            input_history_idx: Some((i + 1) as usize),
                            ..with_input(s, s.input_history[i + 1])
                        },
                        None,
                    )
                } else {
                    (AppView { input_history_idx: None, ..without_input(s) }, None)
                },
                None => (s, None),
            },
            KeyCode::Tab => if s.contacts.len() > 0 {
                (opened(s, next_contact(s)), None)
            } else {
                (s, None)
            },
            KeyCode::Esc => (AppView { active_peer: None, selected_contact: None, ..s }, None),
            KeyCode::F(n) => if n == 1 {
                (AppView { show_help: true, ..s }, None)
            } else {
                (s, None)
            },
            KeyCode::Other => (s, None),
        }
    }
}

/// The view of an optional command.
pub open spec fn opt_command(c: Option<Command>) -> Option<CommandView> {
    match c {
        Some(c) => Some(c@),
        None => None,
    }
}

impl AppState {
    /// Whether a key can be handled in this state.
    pub fn accepts(&self, key: KeyEvent) -> (r: bool)
        ensures
            r == can_press(self@, key),
    {
        if self.locked || self.show_help {
            return true;
        }
        let at: usize = self.cursor_pos;
        let line = self.input.as_str();
        match key.code {
            KeyCode::Char(c) => (key.control && (c == 'c' || c == 'q' || c == 'l' || c == 'h')) || (
            text::is_cut(line, at) && at < usize::MAX),
            KeyCode::Backspace => at == 0 || (text::is_cut(line, at - 1) && at - 1
                < text::byte_count(line)),
            KeyCode::Delete => at >= text::byte_count(line) || text::is_cut(line, at),
            KeyCode::Up => match self.input_history_idx {
                Some(i) => self.input_history.len() == 0 || i <= self.input_history.len(),
                None => true,
            },
            KeyCode::Down => match self.input_history_idx {
                Some(i) => i < usize::MAX,
                None => true,
            },
            KeyCode::Tab => match self.selected_contact {
                Some(i) => i < usize::MAX,
                None => true,
            },
            _ => true,
        }
    }

    fn recall(&mut self, i: usize)
        requires
            i < old(self)@.input_history.len(),
        ensures
            final(self)@ == (AppView {
                input_history_idx: Some(i),
                ..with_input(old(self)@, old(self)@.input_history[i as int])
            }),
            final(self).lines_are_same(*old(self)),
    {
        let line = self.input_history[i].clone();
        assert(line@ == self@.input_history[i as int]);
        self.input_history_idx = Some(i);
        self.cursor_pos = text::byte_count(line.as_str());
        self.input = line;
    }

    fn press_locked(&mut self, key: KeyEvent) -> (r: Option<Command>)
        ensures
            (final(self)@, opt_command(r)) == pressed_locked(old(self)@, key),
            final(self).lines_are_same(*old(self)),
    {
        match key.code {
            KeyCode::Enter => {
                if self.input.as_str().is_empty() {
                    return None;
                }
                let password = self.input.clone();
                self.input = String::new();
                self.cursor_pos = 0;
                assert(self@.input =~= seq![]);
                Some(Command::Unlock(password))
            },
            KeyCode::Char(c) => {
                if key.control {
                    return if c == 'c' || c == 'q' {
                        Some(Command::Quit)
                    } else {
                        None
                    };
                }
                self.input.push(c);
                self.cursor_pos = 0;
                None
            },
            KeyCode::Backspace => {
                if !self.input.as_str().is_empty() {
                    self.input = text::without_last(self.input.as_str());
                    self.cursor_pos = 0;
                }
                None
            },
            _ => None,
        }
    }
}

/// Handle keyboard input, return the command if the user pressed Enter
pub fn handle_key_event(state: &mut AppState, key: KeyEvent) -> (r: Option<Command>)
    requires
        can_press(old(state)@, key),
    ensures
        (final(state)@, opt_command(r)) == pressed(old(state)@, key),
        final(state).lines_are_same(*old(state)),
{
    if state.locked {
        return state.press_locked(key);
    }
    if state.show_help {
        let closes = match key.code {
            KeyCode::Esc => true,
            KeyCode::F(n) => n == 1,
            KeyCode::Char(c) => key.control && c == 'h',
            _ => false,
        };
        if closes {
            state.show_help = false;
        }
        return None;
    }
    match key.code {
        KeyCode::Enter => {
            if state.input.as_str().is_empty() {
                return None;
            }
            let input = state.input.clone();
            let ghost before = state.input_history@;
            state.input_history.push(input.clone());
            assert(texts(state.input_history@) =~= texts(before).push(input@));
            state.input_history_idx = None;
            state.input = String::new();
            state.cursor_pos = 0;
            assert(state@.input =~= seq![]);
            Some(Command::parse(input.as_str()))
        },
        KeyCode::Char(c) => {
            if key.control {
                if c == 'c' || c == 'q' {
                    return Some(Command::Quit);
                }
                if c == 'l' {
                    return Some(Command::Clear);
                }
                if c == 'h' {
                    state.show_help = true;
                    return None;
                }
            }
            state.input = text::insert_char(state.input.as_str(), state.cursor_pos, c);
            state.cursor_pos = state.cursor_pos + 1;
            None
        },
        KeyCode::Backspace => {
            if state.cursor_pos > 0 {
                state.cursor_pos = state.cursor_pos - 1;
                state.input = text::remove_char(state.input.as_str(), state.cursor_pos);
            }
            None
        },
        KeyCode::Delete => {
            if state.cursor_pos < text::byte_count(state.input.as_str()) {
                state.input = text::remove_char(state.input.as_str(), state.cursor_pos);
            }
            None
        },
        KeyCode::Left => {
            if state.cursor_pos > 0 {
                state.cursor_pos = state.cursor_pos - 1;
            }
            None
        },
        KeyCode::Right => {
            if state.cursor_pos < text::byte_count(state.input.as_str()) {
                state.cursor_pos = state.cursor_pos + 1;
            }
            None
        },
        KeyCode::Home => {
            state.cursor_pos = 0;
            None
        },
        KeyCode::End => {
            state.cursor_pos = text::byte_count(state.input.as_str());
            None
        },
        KeyCode::Up => {
            let n: usize = state.input_history.len();
            if n > 0 {
                let idx: usize = match state.input_history_idx {
                    Some(i) => if i > 0 {
                        i - 1
                    } else {
                        0
                    },
                    None => n - 1,
                };
                state.recall(idx);
            }
            None
        },
        KeyCode::Down => {
            if let Some(idx) = state.input_history_idx {
                if idx + 1 < state.input_history.len() {
                    state.recall(idx + 1);
                } else {
                    state.input_history_idx = None;
                    state.input = String::new();
                    state.cursor_pos = 0;
                    assert(state@.input =~= seq![]);
                }
            }
            None
        },
        KeyCode::Tab => {
            let n: usize = state.contacts.len();
            if n > 0 {
                let next: usize = match state.selected_contact {
                    Some(i) => (i + 1) % n,
                    None => 0,
                };
                assert(state@.contacts[next as int] == state.contacts@[next as int]@);
                state.selected_contact = Some(next);
                state.active_peer = Some(state.contacts[next].username.clone());
                state.contacts[next].unread = 0;
                assert(state@.contacts =~= opened(old(state)@, next as int).contacts);
            }
            None
        },
        KeyCode::Esc => {
            state.active_peer = None;
            state.selected_contact = None;
            None
        },
        KeyCode::F(n) => {
            if n == 1 {
                state.show_help = true;
            }
            None
        },
        KeyCode::Other => None,
    }
}

// ── Laws ────────────────────────────────────────────────────

/// A state that was made by typing basic Latin: the cursor is inside the line,
/// and the place in the input history exists.
pub open spec fn tidy(s: AppView) -> bool {
    &&& is_ascii_chars(s.input)
    &&& s.cursor_pos <= s.input.len() < usize::MAX
    &&& forall|i: int|
        0 <= i < s.input_history.len() ==> is_ascii_chars(#[trigger] s.input_history[i])
            && s.input_history[i].len() < usize::MAX
    &&& s.input_history_idx matches Some(i) ==> i < s.input_history.len()
    &&& s.selected_contact matches Some(i) ==> i < s.contacts.len()
    &&& s.contacts.len() < usize::MAX
    &&& s.input_history.len() < usize::MAX
}

/// Whoever types basic Latin can press any key at any time: every key is
/// handled, and the state stays tidy.
pub proof fn law_typing_keeps_state_tidy(s: AppView, key: KeyEvent)
    requires
        tidy(s),
        key.code matches KeyCode::Char(c) ==> (c as u32) < 128,
        s.input.len() + 1 < usize::MAX,
        s.input_history.len() + 1 < usize::MAX,
    ensures
        can_press(s, key),
        tidy(pressed(s, key).0),
{
    let after = pressed(s, key).0;
    let at = s.cursor_pos as int;
    text::lemma_latin_cut(s.input, at);
    if at > 0 {
        text::lemma_latin_cut(s.input, at - 1);
    }
    match key.code {
        KeyCode::Up => {
            if !s.locked && !s.show_help && s.input_history.len() > 0 {
                let line = s.input_history[earlier(s)];
                text::lemma_latin_cut(line, 0);
            }
        },
        KeyCode::Down => {
            if !s.show_help && s.input_history_idx is Some {
                let i = s.input_history_idx->Some_0;
                if i + 1 < s.input_history.len() {
                    text::lemma_latin_cut(s.input_history[i + 1], 0);
                }
            }
        },
        _ => {},
    }
}

/// A character that was typed is taken back by Backspace.
pub proof fn law_backspace_undoes_typing(s: AppView, c: char)
    requires
        tidy(s),
        !s.locked,
        !s.show_help,
        (c as u32) < 128,
    ensures
        ({
            let typed = pressed(s, KeyEvent { code: KeyCode::Char(c), control: false }).0;
            pressed(typed, KeyEvent { code: KeyCode::Backspace, control: false }).0 == s
        }),
{
    let at = s.cursor_pos as int;
    let typed = pressed(s, KeyEvent { code: KeyCode::Char(c), control: false }).0;
    text::lemma_latin_cut(s.input, at);
    assert(typed.input =~= s.input.take(at).push(c) + s.input.skip(at));
    assert(is_ascii_chars(typed.input));
    text::lemma_latin_cut(typed.input, at);
    assert(typed.input.take(at) + typed.input.skip(at).skip(1) =~= s.input);
}

/// The help overlay can always be closed, and while it is open no key does
/// anything else.
pub proof fn law_help_overlay_takes_all_keys(s: AppView, key: KeyEvent)
    requires
        !s.locked,
        s.show_help,
    ensures
        pressed(s, key).1 is None,
        pressed(s, key).0 == s || pressed(s, key).0 == (AppView { show_help: false, ..s }),
        pressed(s, KeyEvent { code: KeyCode::Esc, control: false }).0 == (AppView {
            show_help: false,
            ..s
        }),
{
}

/// A locked screen takes no key but those of a password: whatever is pressed,
/// nothing but the line being typed changes, and no command comes of it but to
/// unlock, or to quit where Control is held.
pub proof fn law_locked_screen_takes_no_keys(s: AppView, key: KeyEvent)
    requires
        s.locked,
    ensures
        can_press(s, key),
        pressed(s, key).0 == (AppView {
            input: pressed(s, key).0.input,
            cursor_pos: pressed(s, key).0.cursor_pos,
            ..s
        }),
        pressed(s, key).1 matches Some(cmd) ==> cmd == Command::Unlock(s.input) || (cmd is Quit
            && key.control),
{
}

/// The help key is a toggle.
pub proof fn law_help_key_toggles(s: AppView, key: KeyEvent)
    requires
        !s.locked,
        is_help_key(key),
    ensures
        pressed(s, key).0 == (AppView { show_help: !s.show_help, ..s }),
{
}

/// Tab goes through all contacts in turn: from any contact it leads to the
/// next one, and from the last to the first.
pub proof fn law_tab_cycles(s: AppView)
    requires
        tidy(s),
        !s.locked,
        !s.show_help,
        s.contacts.len() > 0,
        s.selected_contact is Some,
    ensures
        ({
            let i = s.selected_contact->Some_0;
            let after = pressed(s, KeyEvent { code: KeyCode::Tab, control: false }).0;
            let next = if i + 1 < s.contacts.len() {
                i + 1
            } else {
                0
            };
            &&& after.selected_contact == Some(next as usize)
            &&& after.active_peer == Some(s.contacts[next].username)
            &&& after.contacts[next].unread == 0
        }),
{
    let i = s.selected_contact->Some_0 as int;
    let n = s.contacts.len() as int;
    if i + 1 < n {
        vstd::arithmetic::div_mod::lemma_small_mod((i + 1) as nat, n as nat);
    } else {
        vstd::arithmetic::div_mod::lemma_mod_self_0(n);
    }
}

/// Every line that was entered is kept in the input history, and the arrow up
/// brings the last one back.
pub proof fn law_arrow_up_recalls_last_line(s: AppView)
    requires
        !s.locked,
        !s.show_help,
        s.input.len() > 0,
    ensures
        ({
            let entered = pressed(s, KeyEvent { code: KeyCode::Enter, control: false }).0;
            let up = pressed(entered, KeyEvent { code: KeyCode::Up, control: false }).0;
            entered.input.len() == 0 && up.input == s.input
        }),
{
}

/// A user's place in the list of contacts is the first entry under that name;
/// whoever has no entry has a place behind the end.
pub proof fn law_position_is_the_first_entry(contacts: Seq<DisplayView>, username: Seq<char>)
    ensures
        0 <= position(contacts, username) <= contacts.len(),
        position(contacts, username) < contacts.len() ==> contacts[position(
            contacts,
            username,
        )].username == username,
        forall|j: int|
            0 <= j < position(contacts, username) ==> (#[trigger] contacts[j]).username != username,
        listed(contacts, username) <==> exists|j: int|
            0 <= j < contacts.len() && (#[trigger] contacts[j]).username == username,
    decreases contacts.len(),
{
    if contacts.len() > 0 && contacts[0].username != username {
        let rest = contacts.skip(1);
        law_position_is_the_first_entry(rest, username);
        assert forall|j: int| 0 <= j < position(contacts, username) implies (
        #[trigger] contacts[j]).username != username by {
            if j > 0 {
                assert(rest[j - 1].username != username);
            }
        }
        if exists|j: int| 0 <= j < contacts.len() && (#[trigger] contacts[j]).username == username {
            let j = choose|j: int|
                0 <= j < contacts.len() && (#[trigger] contacts[j]).username == username;
            assert(rest[j - 1].username == username);
        }
    }
}

/// A line that is logged stands at the end of the system log, as a line of the
/// system, and is the only thing that changes.
pub proof fn law_log_grows_by_one_line(s: AppView, line: Seq<char>)
    ensures
        logged(s, line) == (AppView {
            system_messages: s.system_messages.push(
                LineView { sender: "system"@, content: line, is_system: true },
            ),
            ..s
        }),
{
}

/// A message stands at the end of its own chat, under its sender's name and in
/// its own words, and in no other chat. It counts as one more unread message of
/// that contact, unless the chat is on the screen. Nothing else changes.
pub proof fn law_chat_grows_by_one_message(
    s: AppView,
    peer: Seq<char>,
    sender: Seq<char>,
    content: Seq<char>,
    other: Seq<char>,
    i: int,
)
    requires
        can_bump(s, peer),
    ensures
        ({
            let after = chatted(s, peer, sender, content);
            &&& chat_with(after, peer) == chat_with(s, peer).push(
                LineView { sender, content, is_system: false },
            )
            &&& after.messages.contains_key(peer) && after.messages[peer] == chat_with(after, peer)
            &&& other != peer ==> after.messages.contains_key(other) == s.messages.contains_key(
                other,
            ) && chat_with(after, other) == chat_with(s, other)
            &&& after.contacts.len() == s.contacts.len()
            &&& s.active_peer == Some(peer) ==> after.contacts == s.contacts
            &&& s.active_peer != Some(peer) && 0 <= i < s.contacts.len() ==> after.contacts[i] == (
            ContactDisplay {
                unread: if i == position(s.contacts, peer) {
                    (s.contacts[i].unread + 1) as u32
                } else {
                    s.contacts[i].unread
                },
                ..s.contacts[i]
            })
            &&& after == (AppView { messages: after.messages, contacts: after.contacts, ..s })
        }),
{
    law_position_is_the_first_entry(s.contacts, peer);
}

/// A chat that nothing was said in is empty; a chat that something was said in
/// is what was said. The screen shows the active chat, or else the log.
pub proof fn law_screen_shows_the_active_chat(s: AppView, peer: Seq<char>)
    ensures
        s.messages.contains_key(peer) ==> chat_with(s, peer) == s.messages[peer],
        !s.messages.contains_key(peer) ==> chat_with(s, peer).len() == 0,
        s.active_peer == Some(peer) ==> on_screen(s) == chat_with(s, peer),
        s.active_peer is None ==> on_screen(s) == s.system_messages,
{
}

/// A client that has just been started has nothing on the screen, is not
/// connected, not locked, and keeps no history.
pub proof fn law_client_starts_empty(username: Seq<char>)
    ensures
        ({
            let s = initial(username);
            &&& s.username == username && s.input.len() == 0 && s.cursor_pos == 0
            &&& s.active_peer is None && s.selected_contact is None && s.contacts.len() == 0
            &&& s.messages == Map::<Seq<char>, Seq<LineView>>::empty()
            &&& s.system_messages.len() == 0 && s.input_history.len() == 0
            &&& s.input_history_idx is None && s.chat_scroll == 0
            &&& !s.connected && !s.show_help && !s.locked && !s.should_quit && !s.history_enabled
        }),
{
}

/// Enter hands in the line that was typed: the command is what that line means,
/// the line is empty again, and is remembered. An empty line is not handed in.
pub proof fn law_enter_hands_in_the_line(s: AppView, control: bool)
    requires
        !s.locked,
        !s.show_help,
    ensures
        ({
            let (after, command) = pressed(s, KeyEvent { code: KeyCode::Enter, control });
            &&& s.input.len() == 0 ==> after == s && command is None
            &&& s.input.len() > 0 ==> command == Some(commands::parsed(s.input)) && after == (
            AppView {
                input: Seq::<char>::empty(),
                cursor_pos: 0,
                input_history: s.input_history.push(s.input),
                input_history_idx: None,
                ..s
            })
        }),
{
}

/// A character that is typed stands where the cursor was, and the cursor behind
/// it.
pub proof fn law_characters_are_typed_at_the_cursor(s: AppView, c: char, control: bool)
    requires
        tidy(s),
        !s.locked,
        !s.show_help,
        control ==> c != 'c' && c != 'q' && c != 'l' && c != 'h',
    ensures
        pressed(s, KeyEvent { code: KeyCode::Char(c), control }) == (
            AppView {
                input: s.input.insert(s.cursor_pos as int, c),
                cursor_pos: (s.cursor_pos + 1) as usize,
                ..s
            },
            None::<CommandView>,
        ),
{
    let at = s.cursor_pos as int;
    text::lemma_latin_cut(s.input, at);
    assert(s.input.take(at).push(c) + s.input.skip(at) =~= s.input.insert(at, c));
}

/// With Control some letters are commands: to quit, to clear the screen, and to
/// open the help.
pub proof fn law_control_keys_are_commands(s: AppView)
    requires
        !s.locked,
        !s.show_help,
    ensures
        pressed(s, KeyEvent { code: KeyCode::Char('c'), control: true }) == (
            s,
            Some(Command::<Seq<char>>::Quit),
        ),
        pressed(s, KeyEvent { code: KeyCode::Char('q'), control: true }) == (
            s,
            Some(Command::<Seq<char>>::Quit),
        ),
        pressed(s, KeyEvent { code: KeyCode::Char('l'), control: true }) == (
            s,
            Some(Command::<Seq<char>>::Clear),
        ),
        pressed(s, KeyEvent { code: KeyCode::Char('h'), control: true }) == (
            AppView { show_help: true, ..s },
            None::<CommandView>,
        ),
{
}

/// Backspace takes the character in front of the cursor, Delete the one behind
/// it; where there is none, nothing happens.
pub proof fn law_characters_are_taken_out_at_the_cursor(s: AppView, control: bool)
    requires
        tidy(s),
        !s.locked,
        !s.show_help,
    ensures
        s.cursor_pos > 0 ==> pressed(s, KeyEvent { code: KeyCode::Backspace, control }) == (
            AppView {
                input: s.input.remove(s.cursor_pos - 1),
                cursor_pos: (s.cursor_pos - 1) as usize,
                ..s
            },
            None::<CommandView>,
        ),
        s.cursor_pos == 0 ==> pressed(s, KeyEvent { code: KeyCode::Backspace, control }) == (
            s,
            None::<CommandView>,
        ),
        s.cursor_pos < s.input.len() ==> pressed(
            s,
            KeyEvent { code: KeyCode::Delete, control },
        ) == (
            AppView { input: s.input.remove(s.cursor_pos as int), ..s },
            None::<CommandView>,
        ),
        s.cursor_pos == s.input.len() ==> pressed(
            s,
            KeyEvent { code: KeyCode::Delete, control },
        ) == (s, None::<CommandView>),
{
    let at = s.cursor_pos as int;
    text::lemma_latin_cut(s.input, at);
    if at > 0 {
        text::lemma_latin_cut(s.input, at - 1);
        assert(s.input.take(at - 1) + s.input.skip(at - 1).skip(1) =~= s.input.remove(at - 1));
    }
    if at < s.input.len() {
        assert(s.input.take(at) + s.input.skip(at).skip(1) =~= s.input.remove(at));
    }
}

/// The arrows move the cursor by one and stop at the ends of the line; Home and
/// End lead there. The line stays as it is.
pub proof fn law_cursor_moves_inside_the_line(s: AppView, control: bool)
    requires
        tidy(s),
        !s.locked,
        !s.show_help,
    ensures
        ({
            let left = pressed(s, KeyEvent { code: KeyCode::Left, control });
            let right = pressed(s, KeyEvent { code: KeyCode::Right, control });
            let home = pressed(s, KeyEvent { code: KeyCode::Home, control });
            let end = pressed(s, KeyEvent { code: KeyCode::End, control });
            &&& left.0.cursor_pos == if s.cursor_pos > 0 {
                s.cursor_pos - 1
            } else {
                0
            }
            &&& right.0.cursor_pos == if s.cursor_pos < s.input.len() {
                s.cursor_pos + 1
            } else {
                s.cursor_pos as int
            }
            &&& home.0.cursor_pos == 0
            &&& end.0.cursor_pos == s.input.len()
            &&& left.0 == (AppView { cursor_pos: left.0.cursor_pos, ..s }) && left.1 is None
            &&& right.0 == (AppView { cursor_pos: right.0.cursor_pos, ..s }) && right.1 is None
            &&& home.0 == (AppView { cursor_pos: home.0.cursor_pos, ..s }) && home.1 is None
            &&& end.0 == (AppView { cursor_pos: end.0.cursor_pos, ..s }) && end.1 is None
        }),
{
    text::lemma_latin_cut(s.input, 0);
}

/// The arrows up and down go through the lines that were entered, to the one
/// before and to the one after, and put that line into the input, the cursor
/// behind it. Below the last one there is an empty line.
pub proof fn law_arrows_go_through_entered_lines(s: AppView, control: bool)
    requires
        tidy(s),
        !s.locked,
        !s.show_help,
    ensures
        ({
            let up = pressed(s, KeyEvent { code: KeyCode::Up, control });
            let down = pressed(s, KeyEvent { code: KeyCode::Down, control });
            let n = s.input_history.len();
            &&& n == 0 ==> up.0 == s
            &&& n > 0 ==> {
                let to = match s.input_history_idx {
                    Some(i) => if i > 0 {
                        i - 1
                    } else {
                        0
                    },
                    None => n - 1,
                };
                up.0 == (AppView {
                    input: s.input_history[to],
                    cursor_pos: s.input_history[to].len() as usize,
                    input_history_idx: Some(to as usize),
                    ..s
                })
            }
            &&& s.input_history_idx is None ==> down.0 == s
            &&& s.input_history_idx matches Some(i) ==> {
                &&& i + 1 < n ==> down.0 == (AppView {
                    input: s.input_history[i + 1],
                    cursor_pos: s.input_history[i + 1].len() as usize,
                    input_history_idx: Some((i + 1) as usize),
                    ..s
                })
                &&& i + 1 >= n ==> down.0 == (AppView {
                    input: Seq::<char>::empty(),
                    cursor_pos: 0,
                    input_history_idx: None,
                    ..s
                })
            }
            &&& up.1 is None && down.1 is None
        }),
{
    if s.input_history.len() > 0 {
        text::lemma_latin_cut(s.input_history[earlier(s)], 0);
    }
    if let Some(i) = s.input_history_idx {
        if i + 1 < s.input_history.len() {
            text::lemma_latin_cut(s.input_history[i + 1], 0);
        }
    }
}

/// Tab opens a chat: the contact that it leads to is the active one, has nothing
/// unread, and no other contact changes. Escape leaves the chat. Neither is a
/// command.
pub proof fn law_tab_opens_and_escape_leaves(s: AppView, control: bool, other: int)
    requires
        tidy(s),
        !s.locked,
        !s.show_help,
    ensures
        ({
            let tab = pressed(s, KeyEvent { code: KeyCode::Tab, control });
            let esc = pressed(s, KeyEvent { code: KeyCode::Esc, control });
            &&& esc == (
                AppView { active_peer: None, selected_contact: None, ..s },
                None::<CommandView>,
            )
            &&& tab.1 is None
            &&& s.contacts.len() == 0 ==> tab.0 == s
            &&& s.contacts.len() > 0 ==> {
                &&& tab.0.selected_contact matches Some(i) && i < s.contacts.len()
                    && tab.0.active_peer == Some(s.contacts[i as int].username)
                    && tab.0.contacts[i as int] == (ContactDisplay {
                    unread: 0,
                    ..s.contacts[i as int]
                }) && (0 <= other < s.contacts.len() && other != i ==> tab.0.contacts[other]
                    == s.contacts[other])
                &&& tab.0 == (AppView {
                    selected_contact: tab.0.selected_contact,
                    active_peer: tab.0.active_peer,
                    contacts: tab.0.contacts,
                    ..s
                })
                &&& s.selected_contact is None ==> tab.0.selected_contact == Some(0usize)
            }
        }),
{
    if s.contacts.len() > 0 && s.selected_contact is Some {
        let i = s.selected_contact->Some_0 as int;
        vstd::arithmetic::div_mod::lemma_mod_bound(i + 1, s.contacts.len() as int);
    }
}

/// On a locked screen a password is typed character by character, taken back
/// from the end, and handed in as it was typed; then the line is empty.
pub proof fn law_password_is_typed_on_a_locked_screen(s: AppView, c: char, control: bool)
    requires
        s.locked,
    ensures
        pressed(s, KeyEvent { code: KeyCode::Char(c), control: false }) == (
            AppView { input: s.input.push(c), cursor_pos: 0, ..s },
            None::<CommandView>,
        ),
        s.input.len() > 0 ==> pressed(s, KeyEvent { code: KeyCode::Backspace, control }) == (
            AppView { input: s.input.drop_last(), cursor_pos: 0, ..s },
            None::<CommandView>,
        ),
        s.input.len() > 0 ==> pressed(s, KeyEvent { code: KeyCode::Enter, control }) == (
            AppView { input: Seq::<char>::empty(), cursor_pos: 0, ..s },
            Some(Command::Unlock(s.input)),
        ),
        s.input.len() == 0 ==> pressed(s, KeyEvent { code: KeyCode::Enter, control }) == (
            s,
            None::<CommandView>,
        ),
{
}

/// A key that does nothing does nothing.
pub proof fn law_other_keys_do_nothing(s: AppView, n: u8, control: bool)
    requires
        !s.locked,
        n != 1,
    ensures
        pressed(s, KeyEvent { code: KeyCode::Other, control }) == (s, None::<CommandView>),
        pressed(s, KeyEvent { code: KeyCode::F(n), control }) == (s, None::<CommandView>),
{
}

/// In any script a character is typed between what stands in front of the cursor
/// and what stands behind it, and Backspace and Delete take one character out
/// between two such parts; the parts stay as they are.
pub proof fn law_line_is_changed_at_the_cursor(s: AppView, c: char, control: bool)
    requires
        !s.locked,
        !s.show_help,
        control ==> c != 'c' && c != 'q' && c != 'l' && c != 'h',
    ensures
        can_press(s, KeyEvent { code: KeyCode::Char(c), control }) ==> {
            let typed = pressed(s, KeyEvent { code: KeyCode::Char(c), control });
            &&& typed.1 is None
            &&& typed.0.cursor_pos == s.cursor_pos + 1
            &&& exists|a: Seq<char>, b: Seq<char>|
                s.input == #[trigger] (a + b) && text::byte_len(a) == s.cursor_pos && typed.0.input
                    == a.push(c) + b
            &&& typed.0 == (AppView {
                input: typed.0.input,
                cursor_pos: typed.0.cursor_pos,
                ..s
            })
        },
        s.cursor_pos > 0 && can_press(s, KeyEvent { code: KeyCode::Backspace, control }) ==> {
            let cut = pressed(s, KeyEvent { code: KeyCode::Backspace, control });
            &&& cut.1 is None
            &&& cut.0.cursor_pos == s.cursor_pos - 1
            &&& exists|a: Seq<char>, b: Seq<char>|
                s.input == #[trigger] (a + b) && b.len() > 0 && text::byte_len(a) == s.cursor_pos
                    - 1 && cut.0.input == a + b.skip(1)
            &&& cut.0 == (AppView { input: cut.0.input, cursor_pos: cut.0.cursor_pos, ..s })
        },
        s.cursor_pos < text::byte_len(s.input) && can_press(
            s,
            KeyEvent { code: KeyCode::Delete, control },
        ) ==> {
            let cut = pressed(s, KeyEvent { code: KeyCode::Delete, control });
            &&& cut.1 is None
            &&& exists|a: Seq<char>, b: Seq<char>|
                s.input == #[trigger] (a + b) && b.len() > 0 && text::byte_len(a) == s.cursor_pos
                    && cut.0.input == a + b.skip(1)
            &&& cut.0 == (AppView { input: cut.0.input, ..s })
        },
{
    let at = s.cursor_pos as int;
    if text::can_cut(s.input, at) {
        text::law_cut_parts_make_up_the_text(s.input, at);
        let a = text::front(s.input, at);
        let b = text::back(s.input, at);
        assert(s.input == a + b);
    }
    if at > 0 && text::can_cut(s.input, at - 1) {
        text::law_cut_parts_make_up_the_text(s.input, at - 1);
        let a = text::front(s.input, at - 1);
        let b = text::back(s.input, at - 1);
        assert(s.input == a + b);
    }
}

} // verus!
