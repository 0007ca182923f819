//! What is drawn: the texts of every part of the screen, and where the parts
//! stand. Colours and borders are the terminal's business.

use vstd::prelude::*;

use crate::client::tui;
use crate::client::tui::{AppState, AppView, ChatMessage, ContactDisplay, DisplayView};
use crate::text;

verus! {

// ── Layout ──────────────────────────────────────────────────

/// The width of the list of contacts: a quarter of the screen, at most 24
/// columns.
pub fn sidebar_width(screen: u16) -> (r: u16)
    ensures
        r == if screen / 4 < 24 {
            screen / 4
        } else {
            24
        },
{
    if screen / 4 < 24 {
        screen / 4
    } else {
        24
    }
}

/// A rectangle of the screen.
#[derive(Debug, Clone, Copy, PartialEq, Eq, Structural)]
pub struct Area {
    pub x: u16,
    pub y: u16,
    pub width: u16,
    pub height: u16,
}

/// The size of the help overlay along one side of the screen: as much as it
/// wants, as long as four columns or rows are left.
pub open spec fn overlay_side(wanted: u16, screen: u16) -> u16 {
    let room = if screen >= 4 {
        (screen - 4) as u16
    } else {
        0u16
    };
    if wanted < room {
        wanted
    } else {
        room
    }
}

fn fit(wanted: u16, screen: u16) -> (r: u16)
    ensures
        r == overlay_side(wanted, screen),
        r <= screen,
{
    let room: u16 = if screen >= 4 {
        screen - 4
    } else {
        0
    };
    if wanted < room {
        wanted
    } else {
        room
    }
}

/// The help overlay, in the middle of the screen.
pub fn help_area(width: u16, height: u16) -> (r: Area)
    ensures
        r.width == overlay_side(58, width),
        r.height == overlay_side(28, height),
        r.x == (width - r.width) / 2,
        r.y == (height - r.height) / 2,
        r.x + r.width <= width,
        r.y + r.height <= height,
{
    let w: u16 = fit(58, width);
    let h: u16 = fit(28, height);
    Area { x: (width - w) / 2, y: (height - h) / 2, width: w, height: h }
}

/// The place of the cursor in the input line, which stands at `x` and `y`.
pub fn cursor_place(x: u16, y: u16, cursor_pos: usize) -> (r: (u16, u16))
    requires
        x + 3 + (cursor_pos as u16) <= u16::MAX,
        y < u16::MAX,
    ensures
        r.0 == x + 3 + (cursor_pos as u16),
        r.1 == y + 1,
{
    let column: u16 = #[verifier::truncate]
    (cursor_pos as u16);
    (x + 3 + column, y + 1)
}

// ── Contacts ────────────────────────────────────────────────

/// A line of the list of contacts.
#[derive(Debug, Clone)]
#[verifier::ext_equal]
pub struct ContactRow<T = String> {
    pub status: T,
    pub name: T,
    pub unread: T,
    pub online: bool,
}

impl View for ContactRow<String> {
    type V = ContactRow<Seq<char>>;

    open spec fn view(&self) -> ContactRow<Seq<char>> {
        ContactRow {
            status: self.status@,
            name: self.name@,
            unread: self.unread@,
            online: self.online,
        }
    }
}

/// The line for a contact.
pub open spec fn contact_row(d: DisplayView) -> ContactRow<Seq<char>> {
    ContactRow {
        status: (if d.online {
            "●"@
        } else {
            "○"@
        }) + " "@,
        name: (if d.verified {
            "✓"@
        } else {
            " "@
        }) + (match d.alias {
            Some(alias) => alias,
            None => d.username,
        }),
        unread: if d.unread > 0 {
            " ("@ + text::decimal(d.unread as nat) + ")"@
        } else {
            seq![]
        },
        online: d.online,
    }
}

fn row_for(c: &ContactDisplay) -> (r: ContactRow)
    ensures
        r@ == contact_row(c@),
{
    let status = if c.online {
        "●"
    } else {
        "○"
    };
    let verified = if c.verified {
        "✓"
    } else {
        " "
    };
    let name = match &c.alias {
        Some(alias) => alias.as_str(),
        None => c.username.as_str(),
    };
    let unread = if c.unread > 0 {
        text::join3(" (", text::decimal_text(c.unread as u64).as_str(), ")")
    } else {
        String::new()
    };
    let r = ContactRow {
        status: text::join2(status, " "),
        name: text::join2(verified, name),
        unread,
        online: c.online,
    };
    assert(r@ =~= contact_row(c@));
    r
}

/// The lines of the list of contacts.
pub fn draw_sidebar(state: &AppState) -> (r: Vec<ContactRow>)
    ensures
        r@.map_values(|row: ContactRow| row@) == state@.contacts.map_values(
            |d: DisplayView| contact_row(d),
        ),
{
    let mut rows: Vec<ContactRow> = Vec::new();
    let n: usize = state.contacts.len();
    for i in 0..n
        invariant
            n == state.contacts@.len(),
            rows@.len() == i,
            forall|j: int|
                0 <= j < i ==> (#[trigger] rows@[j])@ == contact_row(state@.contacts[j]),
    {
        assert(state@.contacts[i as int] == state.contacts@[i as int]@);
        rows.push(row_for(&state.contacts[i]));
    }
    assert(rows@.map_values(|row: ContactRow| row@) =~= state@.contacts.map_values(
        |d: DisplayView| contact_row(d),
    ));
    rows
}

/// The title of the list of contacts.
pub fn sidebar_title(state: &AppState) -> (r: String)
    ensures
        r@ == " "@ + state@.username + " "@,
{
    text::join3(" ", state.username.as_str(), " ")
}

// ── Header ──────────────────────────────────────────────────

/// What the header says of the chat on the screen.
pub open spec fn peer_info(s: AppView) -> Seq<char> {
    match s.active_peer {
        Some(peer) => " chatting with: "@ + peer + (if tui::listed(s.contacts, peer) {
            if s.contacts[tui::position(s.contacts, peer)].verified {
                " ✓verified"@
            } else {
                " ⚠unverified"@
            }
        } else {
            ""@
        }) + " "@,
        None => " system log "@,
    }
}

/// The two parts of the header: whether there is a connection, and the chat on
/// the screen.
pub fn draw_header(state: &AppState) -> (r: (String, String))
    ensures
        r.0@ == (if state@.connected {
            "🔗"@
        } else {
            "⛓"@
        }) + " "@,
        r.1@ == peer_info(state@),
{
    let status = if state.connected {
        "🔗"
    } else {
        "⛓"
    };
    let info = match &state.active_peer {
        Some(peer) => {
            let verified = match tui::find_contact(&state.contacts, peer.as_str()) {
                Some(i) => {
                    assert(state@.contacts[i as int] == state.contacts@[i as int]@);
                    if state.contacts[i].verified {
                        " ✓verified"
                    } else {
                        " ⚠unverified"
                    }
                },
                None => "",
            };
            text::join4(" chatting with: ", peer.as_str(), verified, " ")
        },
        None => " system log ".to_owned(),
    };
    (text::join2(status, " "), info)
}

// ── Messages ────────────────────────────────────────────────

/// Who a message is from.
#[derive(Debug, Clone, Copy, PartialEq, Eq, Structural)]
pub enum Origin {
    System,
    Own,
    Other,
}

/// A line of the chat.
#[derive(Debug, Clone)]
#[verifier::ext_equal]
pub struct MessageRow<T = String> {
    pub time: T,
    pub sender: T,
    pub content: T,
    pub origin: Origin,
}

impl View for MessageRow<String> {
    type V = MessageRow<Seq<char>>;

    open spec fn view(&self) -> MessageRow<Seq<char>> {
        MessageRow {
            time: self.time@,
            sender: self.sender@,
            content: self.content@,
            origin: self.origin,
        }
    }
}

/// The line for a message. A line of the system log names no sender.
pub open spec fn message_row(m: ChatMessage, username: Seq<char>) -> MessageRow<Seq<char>> {
    MessageRow {
        time: "["@ + m.timestamp@ + "] "@,
        sender: if m.is_system {
            seq![]
        } else {
            m.sender@ + ": "@
        },
        content: m.content@,
        origin: if m.is_system {
            Origin::System
        } else if m.sender@ == username {
            Origin::Own
        } else {
            Origin::Other
        },
    }
}

/// The lines of the chat.
pub fn draw_messages(state: &AppState) -> (r: Vec<MessageRow>)
    ensures
        r@.map_values(|row: MessageRow| row@) == state.shown_messages().map_values(
            |m: ChatMessage| message_row(m, state@.username),
        ),
{
    let messages = state.active_messages();
    let mut rows: Vec<MessageRow> = Vec::new();
    let n: usize = messages.len();
    for i in 0..n
        invariant
            n == messages@.len(),
            rows@.len() == i,
            forall|j: int|
                0 <= j < i ==> (#[trigger] rows@[j])@ == message_row(
                    messages@[j],
                    state@.username,
                ),
    {
        let m = &messages[i];
        let (sender, origin) = if m.is_system {
            (String::new(), Origin::System)
        } else {
            let origin = if text::same_text(m.sender.as_str(), state.username.as_str()) {
                Origin::Own
            } else {
                Origin::Other
            };
            (text::join2(m.sender.as_str(), ": "), origin)
        };
        let row = MessageRow {
            time: text::join3("[", m.timestamp.as_str(), "] "),
            sender,
            content: m.content.clone(),
            origin,
        };
        assert(row@ =~= message_row(*m, state@.username));
        rows.push(row);
    }
    assert(rows@.map_values(|row: MessageRow| row@) =~= messages@.map_values(
        |m: ChatMessage| message_row(m, state@.username),
    ));
    rows
}

// ── Input ───────────────────────────────────────────────────

/// The title of the input line.
pub fn input_title(state: &AppState) -> (r: &'static str)
    ensures
        r@ == if state@.history_enabled {
            " input [history:on] "@
        } else {
            " input "@
        },
{
    if state.history_enabled {
        " input [history:on] "
    } else {
        " input "
    }
}

// ── Laws ────────────────────────────────────────────────────

/// A contact is marked as verified in the list exactly if it is.
pub proof fn law_verified_mark_is_true(d: DisplayView)
    ensures
        d.verified ==> contact_row(d).name[0] == '✓' && contact_row(d).name.len() > 0,
        !d.verified ==> contact_row(d).name[0] == ' ' && contact_row(d).name.len() > 0,
{
    reveal_strlit("✓");
    reveal_strlit(" ");
}

/// A contact's line says who it is, whether it is online, and how much of it is
/// unread.
pub proof fn law_contact_line_tells_all(d: DisplayView)
    ensures
        ({
            let row = contact_row(d);
            let name = match d.alias {
                Some(alias) => alias,
                None => d.username,
            };
            &&& row.name.skip(1) == name
            &&& row.online == d.online
            &&& d.online ==> row.status == "●"@ + " "@
            &&& !d.online ==> row.status == "○"@ + " "@
            &&& d.unread == 0 ==> row.unread.len() == 0
            &&& d.unread > 0 ==> row.unread == " ("@ + text::decimal(d.unread as nat) + ")"@
        }),
{
    reveal_strlit("✓");
    reveal_strlit(" ");
    let row = contact_row(d);
    let name = match d.alias {
        Some(alias) => alias,
        None => d.username,
    };
    assert(row.name.skip(1) =~= name);
}

/// The header names the chat on the screen, and says that it is verified exactly
/// if its contact is.
pub proof fn law_header_tells_whether_a_chat_is_verified(s: AppView, peer: Seq<char>)
    requires
        s.active_peer == Some(peer),
    ensures
        tui::listed(s.contacts, peer) && s.contacts[tui::position(s.contacts, peer)].verified
            ==> peer_info(s) == " chatting with: "@ + peer + " ✓verified"@ + " "@,
        tui::listed(s.contacts, peer) && !s.contacts[tui::position(s.contacts, peer)].verified
            ==> peer_info(s) == " chatting with: "@ + peer + " ⚠unverified"@ + " "@,
        !tui::listed(s.contacts, peer) ==> peer_info(s) == " chatting with: "@ + peer + ""@ + " "@,
        peer_info(AppView { active_peer: None, ..s }) == " system log "@,
{
}

/// A message is drawn with its time and its words; its sender is named unless it
/// is a line of the log, and the own messages are told from those of others.
pub proof fn law_message_line_tells_all(m: ChatMessage, username: Seq<char>)
    ensures
        ({
            let row = message_row(m, username);
            &&& row.content == m.content@
            &&& row.time == "["@ + m.timestamp@ + "] "@
            &&& m.is_system ==> row.sender.len() == 0
            &&& !m.is_system ==> row.sender == m.sender@ + ": "@
            &&& row.origin == Origin::System <==> m.is_system
            &&& row.origin == Origin::Own <==> !m.is_system && m.sender@ == username
            &&& row.origin == Origin::Other <==> !m.is_system && m.sender@ != username
        }),
{
}

/// The help overlay is as large as it wants to be, as long as four columns or rows
/// are left.
pub proof fn law_overlay_leaves_room(wanted: u16, screen: u16)
    ensures
        overlay_side(wanted, screen) <= wanted,
        screen >= 4 ==> overlay_side(wanted, screen) <= screen - 4,
        screen < 4 ==> overlay_side(wanted, screen) == 0,
        wanted + 4 <= screen ==> overlay_side(wanted, screen) == wanted,
        wanted + 4 > screen && screen >= 4 ==> overlay_side(wanted, screen) == screen - 4,
{
}

} // verus!
