//! The main screen: the list of joined rooms, the transcript, and the room
//! that is selected, which both parts go by.

use vstd::prelude::*;
use termion::event::MouseButton;
use crate::block::{Block, BlockView, BorderType, Borders};
use crate::buffer::Buffer;
use crate::layout::{all_fit, fits, fits_in, split, split_allows, Constraint, Direction, Rect};
use crate::request::RoomEntry;
use crate::style::Style;

verus! {

/// The list of joined rooms and the position of the highlighted one.
#[derive(Debug, Clone, PartialEq, Eq)]
pub struct RoomsWidget {
    pub rooms: Vec<RoomEntry>,
    pub selected: usize,
}

/// One line of the transcript.
#[derive(Debug, Clone, PartialEq, Eq)]
pub struct Message {
    pub user: String,
    pub body: String,
    pub room: String,
}

/// The transcript: every message received, oldest first.
#[derive(Debug, Clone, PartialEq, Eq)]
pub struct MessageWidget {
    pub messages: Vec<Message>,
}

#[derive(Debug, Clone, PartialEq, Eq)]
pub struct ChatWidget {
    /// The id of the room that is open. The room list and the transcript both
    /// read it from here.
    pub current_room: Option<String>,
    pub room: RoomsWidget,
    pub msgs: MessageWidget,
    pub main_screen: bool,
}

/// The main screen as plain values.
pub struct ChatView {
    pub current_room: Option<String>,
    pub rooms: Seq<RoomEntry>,
    pub selected: nat,
    pub messages: Seq<Message>,
    pub main_screen: bool,
}

/// The position after `selected` in a list of `len`, going round from the
/// last to the first.
pub open spec fn next_position(selected: nat, len: nat) -> nat {
    if len == 0 || selected + 1 >= len {
        0
    } else {
        selected + 1
    }
}

/// The position before `selected` in a list of `len`, going round from the
/// first to the last.
pub open spec fn previous_position(selected: nat, len: nat) -> nat {
    if len == 0 {
        0
    } else if selected == 0 || selected >= len {
        (len - 1) as nat
    } else {
        (selected - 1) as nat
    }
}

/// The room that is open after a snapshot of rooms came: its first room.
pub open spec fn first_room(rooms: Seq<RoomEntry>) -> Option<String> {
    if rooms.len() == 0 {
        None
    } else {
        Some(rooms[0].id)
    }
}

impl ChatView {
    /// Nothing joined, nothing received, main screen not shown.
    pub open spec fn blank() -> ChatView {
        ChatView {
            current_room: None,
            rooms: Seq::empty(),
            selected: 0,
            messages: Seq::empty(),
            main_screen: false,
        }
    }

    /// The highlight is on a room of the list, or at 0 when the list is empty.
    pub open spec fn is_valid(self) -> bool {
        self.selected < self.rooms.len() || self.selected == 0
    }

    /// The chat once the joined rooms are known: the list holds exactly the
    /// snapshot, the highlight and the open room are on its first room, and
    /// the transcript is kept.
    pub open spec fn set_room_state(self, rooms: Seq<RoomEntry>) -> ChatView {
        ChatView { current_room: first_room(rooms), rooms, selected: 0, ..self }
    }

    pub open spec fn add_message(self, message: Message) -> ChatView {
        ChatView { messages: self.messages.push(message), ..self }
    }

    pub open spec fn select_next(self) -> ChatView {
        ChatView { selected: next_position(self.selected, self.rooms.len()), ..self }
    }

    pub open spec fn select_previous(self) -> ChatView {
        ChatView { selected: previous_position(self.selected, self.rooms.len()), ..self }
    }
}

impl View for ChatWidget {
    type V = ChatView;

    open spec fn view(&self) -> ChatView {
        ChatView {
            current_room: self.current_room,
            rooms: self.room.rooms@,
            selected: self.room.selected as nat,
            messages: self.msgs.messages@,
            main_screen: self.main_screen,
        }
    }
}

impl RoomsWidget {
    pub fn new() -> (r: RoomsWidget)
        ensures
            r.rooms@ == Seq::<RoomEntry>::empty(),
            r.selected == 0,
    {
        RoomsWidget { rooms: Vec::new(), selected: 0 }
    }

    pub fn select_next(&mut self)
        ensures
            final(self).rooms == old(self).rooms,
            final(self).selected == next_position(
                old(self).selected as nat,
                old(self).rooms@.len(),
            ),
    {
        if self.rooms.len() == 0 || self.selected >= self.rooms.len() - 1 {
            self.selected = 0;
        } else {
            self.selected = self.selected + 1;
        }
    }

    pub fn select_previous(&mut self)
        ensures
            final(self).rooms == old(self).rooms,
            final(self).selected == previous_position(
                old(self).selected as nat,
                old(self).rooms@.len(),
            ),
    {
        if self.rooms.len() == 0 {
            self.selected = 0;
        } else if self.selected == 0 || self.selected >= self.rooms.len() {
            self.selected = self.rooms.len() - 1;
        } else {
            self.selected = self.selected - 1;
        }
    }

    /// A click on the list changes nothing.
    pub fn on_click(&mut self, btn: MouseButton, x: u16, y: u16)
        ensures
            *final(self) == *old(self),
    {
    }
}

impl MessageWidget {
    pub fn new() -> (r: MessageWidget)
        ensures
            r.messages@ == Seq::<Message>::empty(),
    {
        MessageWidget { messages: Vec::new() }
    }

    /// Appends a message at the end of the transcript.
    pub fn add_message(&mut self, user: String, body: String, room: String)
        ensures
            final(self).messages@ == old(self).messages@.push(Message { user, body, room }),
    {
        self.messages.push(Message { user, body, room });
    }
}

/// A frame with borders all round and a title, in the default style.
pub open spec fn titled_frame(title: Seq<char>) -> BlockView {
    BlockView {
        title: Some(title),
        title_style: Style::spec_default(),
        borders: Borders::spec_all(),
        border_style: Style::spec_default(),
        border_type: BorderType::Plain,
        style: Style::spec_default(),
    }
}

/// How a buffer looks after the main screen was drawn on the two parts
/// handed out, the room list's frame first and the transcript's after it,
/// or, with no parts, after nothing was drawn.
pub open spec fn panes_drawn(before: Buffer, after: Buffer, parts: Option<(Rect, Rect)>) -> bool {
    &&& after.area == before.area
    &&& match parts {
        Some((list, transcript)) => forall|x: int, y: int|
            before.area.covers(x, y) ==> #[trigger] after.cell(x, y) == titled_frame(
                "Messages"@,
            ).render_cell(
                transcript,
                x,
                y,
                titled_frame("Rooms"@).render_cell(list, x, y, before.cell(x, y)),
            ),
        None => forall|x: int, y: int|
            before.area.covers(x, y) ==> #[trigger] after.cell(x, y) == before.cell(x, y),
    }
}

/// How the main screen is cut: three tenths of the width for the room list,
/// seven for the transcript.
pub open spec fn pane_constraints() -> Seq<Constraint> {
    seq![Constraint::Percentage(30), Constraint::Percentage(70)]
}

/// The two panes out of what the layout handed out for the main screen: its
/// two parts, where it handed out two and both are valid areas inside the
/// buffer's area; none otherwise.
pub open spec fn spec_panes(found: Option<Vec<Rect>>, buffer_area: Rect) -> Option<(Rect, Rect)> {
    match found {
        Some(chunks) => if chunks@.len() == 2 && fits_in(chunks@[0], buffer_area) && fits_in(
            chunks@[1],
            buffer_area,
        ) {
            Some((chunks@[0], chunks@[1]))
        } else {
            None
        },
        None => None,
    }
}

impl ChatWidget {
    /// Draws the main screen on `area`: the room list's frame on the part
    /// that the layout gives to the first three tenths of the width, the
    /// transcript's frame on the rest. Returns the two parts. Nothing is
    /// drawn and nothing returned where `area` is no part of the buffer or
    /// the layout hands out no parts. The layout is asked for a horizontal
    /// cut of `area` by `pane_constraints`, and what it hands out decides
    /// the rest, as `render_parts` says.
    pub fn render(&self, area: Rect, buf: &mut Buffer) -> (parts: Option<(Rect, Rect)>)
        requires
            old(buf).is_valid(),
        ensures
            final(buf).is_valid(),
            panes_drawn(*old(buf), *final(buf), parts),
            parts matches Some((list, transcript)) ==> fits_in(list, area) && fits_in(
                transcript,
                area,
            ) && fits_in(area, old(buf).area),
            !fits_in(area, old(buf).area) ==> parts.is_none(),
            fits_in(area, old(buf).area) ==> exists|found: Option<Vec<Rect>>|
                split_allows(pane_constraints(), area, found) && parts == #[trigger] spec_panes(
                    found,
                    old(buf).area,
                ),
    {
        if !fits(area, buf.area) {
            return None;
        }
        let mut constraints: Vec<Constraint> = Vec::new();
        constraints.push(Constraint::Percentage(30));
        constraints.push(Constraint::Percentage(70));
        assert(constraints@ =~= pane_constraints());
        let found = split(Direction::Horizontal, &constraints, area);
        let ghost found_seen = found;
        let parts = self.render_parts(found, buf);
        assert(split_allows(pane_constraints(), area, found_seen) && parts == spec_panes(
            found_seen,
            old(buf).area,
        ));
        parts
    }

    /// Draws the main screen on the parts that the layout handed out: the
    /// room list's frame on the first, then the transcript's frame on the
    /// second, where there are exactly two and both lie in the buffer.
    /// Returns the two parts where it drew; else nothing is drawn and
    /// nothing returned.
    pub fn render_parts(&self, found: Option<Vec<Rect>>, buf: &mut Buffer) -> (parts: Option<
        (Rect, Rect),
    >)
        requires
            old(buf).is_valid(),
        ensures
            final(buf).is_valid(),
            parts == spec_panes(found, old(buf).area),
            panes_drawn(*old(buf), *final(buf), parts),
    {
        let chunks = match found {
            Some(chunks) => chunks,
            None => {
                return None;
            },
        };
        if chunks.len() != 2 || !fits(chunks[0], buf.area) || !fits(chunks[1], buf.area) {
            return None;
        }
        Block::default().borders(Borders::all()).title("Rooms").render(chunks[0], buf);
        Block::default().borders(Borders::all()).title("Messages").render(chunks[1], buf);
        Some((chunks[0], chunks[1]))
    }

    pub fn new() -> (r: ChatWidget)
        ensures
            r@ == ChatView::blank(),
    {
        ChatWidget {
            current_room: None,
            room: RoomsWidget::new(),
            msgs: MessageWidget::new(),
            main_screen: false,
        }
    }

    pub fn set_room_state(&mut self, rooms: Vec<RoomEntry>)
        ensures
            final(self)@ == old(self)@.set_room_state(rooms@),
            final(self)@.is_valid(),
    {
        if rooms.len() == 0 {
            self.current_room = None;
        } else {
            self.current_room = Some(rooms[0].id.clone());
        }
        self.room.rooms = rooms;
        self.room.selected = 0;
    }

    /// A click on the chat changes nothing.
    pub fn on_click(&mut self, btn: MouseButton, x: u16, y: u16)
        ensures
            *final(self) == *old(self),
    {
    }
}

/// Moving through the list keeps the highlight on a room of the list.
pub proof fn lemma_selection_stays_valid(chat: ChatView)
    ensures
        chat.select_next().is_valid(),
        chat.select_previous().is_valid(),
        chat.select_next().rooms == chat.rooms,
        chat.select_previous().rooms == chat.rooms,
{
}

} // verus!
