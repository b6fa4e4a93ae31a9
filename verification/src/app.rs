//! The application's UI-side state and the steps that change it: key
//! presses, and the tick that takes in what the worker has sent.

use vstd::prelude::*;
use termion::event::MouseButton;
use tokio::sync::mpsc::{Receiver, Sender};
use crate::block::{Block, BlockView, BorderType, Borders};
use crate::buffer::Buffer;
use crate::channel::{enqueue_outcome, try_receive_from, try_send_to};
use crate::channel::{spec_enqueue_outcome, EnqueueError, Polled, Rejected};
use crate::chat::{ChatView, ChatWidget, Message};
use crate::layout::{fits_in, split, Constraint, Direction, Rect};
use crate::login::{LoginView, LoginWidget};
use crate::request::{ProtocolError, RequestResult, StateResult, UserRequest};
use crate::style::{Color, Modifier, Style};
use crate::sync::{MatrixEventHandle, SyncEvent, SyncState};

verus! {

/// What the UI shows in place of its screens when something went wrong.
#[derive(Debug, Clone, PartialEq, Eq)]
pub enum AppError {
    /// The worker is gone: a channel to or from it is closed. Persistent.
    Disconnected,
    /// The remote service failed an operation. Shown until the next tick.
    Protocol(ProtocolError),
}

/// The screen that fills the area under the title.
#[derive(Debug, Clone, Copy, PartialEq, Eq, Structural)]
pub enum Screen {
    Error,
    Login,
    Chat,
}

pub struct AppWidget {
    /// Title of the app.
    pub title: String,
    /// When user quits this is true,
    pub should_quit: bool,
    /// Have we started the sync loop yet.
    pub sync_started: bool,
    /// The login element. It holds the state of logging in.
    pub login_w: LoginWidget,
    /// The main screen. Holds the state once a user is logged in.
    pub chat: ChatWidget,
    /// The lifecycle of the background worker.
    pub ev_loop: MatrixEventHandle,
    /// Sends requests to the worker.
    pub send_jobs: Sender<UserRequest>,
    /// The result of any request.
    pub ev_msgs: Receiver<RequestResult>,
    /// The events of the sync loop.
    pub emitter_msgs: Receiver<StateResult>,
    pub error: Option<AppError>,
}

/// The UI-relevant state as plain values: everything but the channel halves.
pub struct AppState {
    pub should_quit: bool,
    pub sync_started: bool,
    pub login: LoginView,
    pub chat: ChatView,
    pub sync: SyncState,
    pub error: Option<AppError>,
}

impl AppState {
    /// The state at application start.
    pub open spec fn initial() -> AppState {
        AppState {
            should_quit: false,
            sync_started: false,
            login: LoginView::blank(),
            chat: ChatView::blank(),
            sync: SyncState::Idle,
            error: None,
        }
    }

    /// Arrow up: on the login form the focus changes field; on the main
    /// screen the highlight moves to the room before.
    pub open spec fn on_up(self) -> AppState {
        if !self.login.logged_in {
            AppState { login: self.login.select_other(), ..self }
        } else if self.chat.main_screen {
            AppState { chat: self.chat.select_previous(), ..self }
        } else {
            self
        }
    }

    /// Arrow down: as arrow up, with the highlight moving to the room after.
    pub open spec fn on_down(self) -> AppState {
        if !self.login.logged_in {
            AppState { login: self.login.select_other(), ..self }
        } else if self.chat.main_screen {
            AppState { chat: self.chat.select_next(), ..self }
        } else {
            self
        }
    }

    /// Backspace edits the login form until the user is logged in.
    pub open spec fn on_backspace(self) -> AppState {
        if !self.login.logged_in {
            AppState { login: self.login.pop(), ..self }
        } else {
            self
        }
    }

    /// Whether typing `c` submits the login form.
    pub open spec fn submits(self, c: char) -> bool {
        !self.login.logged_in && c == '\n' && self.login.try_login()
    }

    /// The state once the queue has answered a submitted login: queued, the
    /// login is under way; busy, nothing is shown and the user may submit
    /// again; closed, the worker is gone.
    pub open spec fn login_submitted(self, outcome: Result<(), EnqueueError>) -> AppState {
        match outcome {
            Ok(()) => AppState { login: LoginView { logging_in: true, ..self.login }, ..self },
            Err(EnqueueError::Busy) => self,
            Err(EnqueueError::QueueClosed) => AppState {
                error: Some(AppError::Disconnected),
                ..self
            },
        }
    }

    /// A key press. Before login, a newline on a filled-in form submits it,
    /// and every character, the newline too, is typed into the field that
    /// has the focus. After login keys are ignored.
    pub open spec fn on_key(self, c: char, outcome: Result<(), EnqueueError>) -> AppState {
        if self.login.logged_in {
            self
        } else {
            let submitted = if self.submits(c) {
                self.login_submitted(outcome)
            } else {
                self
            };
            AppState { login: submitted.login.push(c), ..submitted }
        }
    }

    /// A failure of the remote service is shown for one tick only.
    pub open spec fn clear_transient(self) -> AppState {
        match self.error {
            Some(AppError::Protocol(_)) => AppState { error: None, ..self },
            _ => self,
        }
    }

    /// Whether the sync loop is due to start: the user is logged in and it
    /// was not started before.
    pub open spec fn sync_due(self) -> bool {
        self.login.logged_in && !self.sync_started
    }

    pub open spec fn start_if_due(self) -> AppState {
        if self.sync_due() {
            AppState { sync_started: true, sync: self.sync.next(SyncEvent::Start), ..self }
        } else {
            self
        }
    }

    /// Whether the caller has to spawn the worker loop on this tick.
    pub open spec fn spawns(self) -> bool {
        self.sync_due() && self.sync.spawns(SyncEvent::Start)
    }

    /// The worker was found gone: the error stays, and the worker's life is
    /// recorded as ended.
    pub open spec fn disconnected(self) -> AppState {
        AppState {
            error: Some(AppError::Disconnected),
            sync: self.sync.next(SyncEvent::Exited),
            ..self
        }
    }

    /// Takes in what one receive on the result channel found. A successful
    /// login opens the main screen on the joined rooms; a failed one ends the
    /// attempt and records the failure; a failed send records its failure; an
    /// acknowledged send and an empty channel change nothing.
    pub open spec fn apply_result(self, polled: Polled<RequestResult>) -> AppState {
        match polled {
            Polled::Item(RequestResult::Login(Ok(rooms))) => AppState {
                login: LoginView { logged_in: true, logging_in: false, ..self.login },
                chat: (ChatView { main_screen: true, ..self.chat }).set_room_state(rooms@),
                ..self
            },
            Polled::Item(RequestResult::Login(Err(e))) => AppState {
                login: LoginView { logging_in: false, ..self.login },
                error: Some(AppError::Protocol(e)),
                ..self
            },
            Polled::Item(RequestResult::SendMessage(Ok(()))) => self,
            Polled::Item(RequestResult::SendMessage(Err(e))) => AppState {
                error: Some(AppError::Protocol(e)),
                ..self
            },
            Polled::Empty => self,
            Polled::Closed => self.disconnected(),
        }
    }

    /// Takes in what one receive on the event stream found. A message is
    /// appended to the transcript; a sync failure is recorded and puts a
    /// running worker to stopping; a change of sync state and an empty
    /// stream change nothing.
    pub open spec fn apply_event(self, polled: Polled<StateResult>) -> AppState {
        match polled {
            Polled::Item(StateResult::Message(user, body, room)) => AppState {
                chat: self.chat.add_message(Message { user, body, room }),
                ..self
            },
            Polled::Item(StateResult::SyncStateChanged) => self,
            Polled::Item(StateResult::SyncFailed(e)) => AppState {
                error: Some(AppError::Protocol(e)),
                sync: self.sync.next(SyncEvent::Failed),
                ..self
            },
            Polled::Empty => self,
            Polled::Closed => self.disconnected(),
        }
    }

    /// One tick: drop last tick's service failure, start the sync loop if it
    /// is due, take in one result at most, then one event at most.
    pub open spec fn tick(
        self,
        result: Polled<RequestResult>,
        event: Polled<StateResult>,
    ) -> AppState {
        self.clear_transient().start_if_due().apply_result(result).apply_event(event)
    }

    /// An error takes the screen; without one, the login form shows until
    /// the user is logged in, and the chat from then on.
    pub open spec fn screen(self) -> Screen {
        if self.error.is_some() {
            Screen::Error
        } else if !self.login.logged_in {
            Screen::Login
        } else {
            Screen::Chat
        }
    }

    /// Quitting signals cancellation to the worker and changes nothing else.
    pub open spec fn on_quit(self) -> AppState {
        AppState { sync: self.sync.next(SyncEvent::Quit), ..self }
    }
}

impl View for AppWidget {
    type V = AppState;

    open spec fn view(&self) -> AppState {
        AppState {
            should_quit: self.should_quit,
            sync_started: self.sync_started,
            login: self.login_w@,
            chat: self.chat@,
            sync: self.ev_loop.state,
            error: self.error,
        }
    }
}

impl AppWidget {
    /// The frame of the title bar: borders all round, the application's
    /// title on it in bold green.
    pub open spec fn title_block(self) -> BlockView {
        BlockView {
            title: Some(self.title@),
            title_style: Style {
                fg: Color::Green,
                bg: Color::Reset,
                modifier: Modifier { bits: 1 },
            },
            borders: Borders::spec_all(),
            border_style: Style::spec_default(),
            border_type: BorderType::Plain,
            style: Style::spec_default(),
        }
    }

    /// How a buffer looks after the title bar was drawn on `head`, or, with
    /// no `head`, after nothing was drawn.
    pub open spec fn header_drawn(self, before: Buffer, after: Buffer, head: Option<Rect>) -> bool {
        &&& after.area == before.area
        &&& match head {
            Some(h) => fits_in(h, before.area) && forall|x: int, y: int|
                before.area.covers(x, y) ==> #[trigger] after.cell(x, y)
                    == self.title_block().render_cell(h, x, y, before.cell(x, y)),
            None => forall|x: int, y: int|
                before.area.covers(x, y) ==> #[trigger] after.cell(x, y) == before.cell(x, y),
        }
    }

    /// The screen to draw under the title.
    pub fn screen(&self) -> (r: Screen)
        ensures
            r == self@.screen(),
    {
        if self.error.is_some() {
            Screen::Error
        } else if !self.login_w.logged_in {
            Screen::Login
        } else {
            Screen::Chat
        }
    }

    /// Draws the frame of the application on the whole buffer: the title bar
    /// on the part cut off at the top, two rows high if the layout grants it.
    /// Returns the screen to draw under it and the area that screen gets.
    /// Where the layout hands out no parts, nothing is drawn and nothing
    /// returned; where it hands out no area for the screen, the title bar
    /// alone is drawn.
    pub fn draw(&self, buf: &mut Buffer) -> (body: Option<(Screen, Rect)>)
        requires
            old(buf).is_valid(),
        ensures
            final(buf).is_valid(),
            exists|head: Option<Rect>| #[trigger] self.header_drawn(*old(buf), *final(buf), head),
            body matches Some((screen, area)) ==> screen == self@.screen() && fits_in(
                area,
                old(buf).area,
            ),
    {
        let mut constraints: Vec<Constraint> = Vec::new();
        constraints.push(Constraint::Length(2));
        constraints.push(Constraint::Min(0));
        let chunks = match split(Direction::Vertical, &constraints, buf.area) {
            Some(chunks) => chunks,
            None => {
                assert(self.header_drawn(*old(buf), *buf, None));
                return None;
            },
        };
        let head = chunks[0];
        Block::default().borders(Borders::all()).title(self.title.as_str()).title_style(
            Style::default().fg(Color::Green).modifier(Modifier::bold()),
        ).render(head, buf);
        assert(self.header_drawn(*old(buf), *buf, Some(head)));

        let mut whole: Vec<Constraint> = Vec::new();
        whole.push(Constraint::Percentage(100));
        match split(Direction::Vertical, &whole, chunks[1]) {
            Some(chunks2) => Some((self.screen(), chunks2[0])),
            None => None,
        }
    }

    /// The application at start, on the UI's three channel halves.
    pub fn new(
        send_jobs: Sender<UserRequest>,
        ev_msgs: Receiver<RequestResult>,
        emitter_msgs: Receiver<StateResult>,
    ) -> (app: AppWidget)
        ensures
            app@ == AppState::initial(),
            app.title@ == "RumaTui"@,
    {
        AppWidget {
            title: "RumaTui".to_owned(),
            should_quit: false,
            sync_started: false,
            login_w: LoginWidget::new(),
            chat: ChatWidget::new(),
            ev_loop: MatrixEventHandle::new(),
            send_jobs,
            ev_msgs,
            emitter_msgs,
            error: None,
        }
    }

    pub fn on_click(&mut self, btn: MouseButton, x: u16, y: u16)
        ensures
            final(self)@ == old(self)@,
    {
        if !self.login_w.logged_in {
            self.login_w.on_click(btn, x, y);
        }
        self.chat.room.on_click(btn, x, y)
    }

    pub fn on_up(&mut self)
        ensures
            final(self)@ == old(self)@.on_up(),
    {
        if !self.login_w.logged_in {
            self.login_w.select_other();
        } else if self.chat.main_screen {
            self.chat.room.select_previous()
        }
    }

    pub fn on_down(&mut self)
        ensures
            final(self)@ == old(self)@.on_down(),
    {
        if !self.login_w.logged_in {
            self.login_w.select_other();
        } else if self.chat.main_screen {
            self.chat.room.select_next()
        }
    }

    pub fn on_right(&mut self)
        ensures
            final(self)@ == old(self)@,
    {
    }

    pub fn on_left(&mut self)
        ensures
            final(self)@ == old(self)@,
    {
    }

    /// The request that submitting the login form sends, if the form can be
    /// submitted now.
    pub fn login_request(&self) -> (request: Option<UserRequest>)
        ensures
            request.is_some() == (!self@.login.logged_in && self@.login.try_login()),
            request matches Some(r) ==> r == UserRequest::Login(
                self.login_w.login.username,
                self.login_w.login.password,
            ),
    {
        if !self.login_w.logged_in && self.login_w.try_login() {
            Some(
                UserRequest::Login(
                    self.login_w.login.username.clone(),
                    self.login_w.login.password.clone(),
                ),
            )
        } else {
            None
        }
    }

    /// Records the queue's answer to a submitted login.
    pub fn login_submitted(&mut self, outcome: Result<(), EnqueueError>)
        ensures
            final(self)@ == old(self)@.login_submitted(outcome),
    {
        match outcome {
            Ok(()) => {
                self.login_w.logging_in = true;
            },
            Err(EnqueueError::Busy) => {},
            Err(EnqueueError::QueueClosed) => {
                self.set_error(AppError::Disconnected);
            },
        }
    }

    fn add_char(&mut self, c: char)
        ensures
            exists|sent: Result<(), Rejected<UserRequest>>|
                final(self)@ == old(self)@.on_key(c, #[trigger] spec_enqueue_outcome(sent)),
    {
        if !self.login_w.logged_in {
            let mut sent: Result<(), Rejected<UserRequest>> = Ok(());
            if c == '\n' {
                match self.login_request() {
                    Some(request) => {
                        sent = try_send_to(&mut self.send_jobs, request);
                        self.login_submitted(enqueue_outcome(sent));
                    },
                    None => {},
                }
            }
            self.login_w.push(c);
            assert(self@ == old(self)@.on_key(c, spec_enqueue_outcome(sent)));
        } else {
            assert(self@ == old(self)@.on_key(c, spec_enqueue_outcome(Ok(()))));
        }
    }

    /// A key press. Where it submits the login form, the request goes to the
    /// worker's queue without blocking, and the queue's answer decides what
    /// the form shows.
    pub fn on_key(&mut self, c: char)
        ensures
            exists|sent: Result<(), Rejected<UserRequest>>|
                final(self)@ == old(self)@.on_key(c, #[trigger] spec_enqueue_outcome(sent)),
            !old(self)@.submits(c) ==> final(self)@ == old(self)@.on_key(c, Ok(())),
    {
        self.add_char(c);
    }

    pub fn on_backspace(&mut self)
        ensures
            final(self)@ == old(self)@.on_backspace(),
    {
        if !self.login_w.logged_in {
            self.login_w.pop();
        }
    }

    pub fn on_delete(&mut self)
        ensures
            final(self)@ == old(self)@,
    {
    }

    pub fn set_error(&mut self, e: AppError)
        ensures
            final(self)@ == (AppState { error: Some(e), ..old(self)@ }),
    {
        self.error = Some(e);
    }

    /// Takes in what one receive on the result channel found.
    pub fn apply_result(&mut self, polled: Polled<RequestResult>)
        ensures
            final(self)@ == old(self)@.apply_result(polled),
    {
        match polled {
            Polled::Item(res) => match res {
                RequestResult::Login(Ok(rooms)) => {
                    self.login_w.logged_in = true;
                    self.chat.main_screen = true;
                    self.login_w.logging_in = false;
                    self.chat.set_room_state(rooms);
                },
                RequestResult::Login(Err(e)) => {
                    self.login_w.logging_in = false;
                    self.set_error(AppError::Protocol(e))
                },
                RequestResult::SendMessage(Ok(())) => {},
                RequestResult::SendMessage(Err(e)) => self.set_error(AppError::Protocol(e)),
            },
            Polled::Empty => {},
            Polled::Closed => {
                self.ev_loop.worker_exited();
                self.set_error(AppError::Disconnected);
            },
        }
    }

    /// Takes in what one receive on the event stream found.
    pub fn apply_event(&mut self, polled: Polled<StateResult>)
        ensures
            final(self)@ == old(self)@.apply_event(polled),
    {
        match polled {
            Polled::Item(res) => match res {
                StateResult::Message(user, msg, room) => self.chat.msgs.add_message(
                    user,
                    msg,
                    room,
                ),
                StateResult::SyncStateChanged => {},
                StateResult::SyncFailed(e) => {
                    self.ev_loop.worker_failed();
                    self.set_error(AppError::Protocol(e));
                },
            },
            Polled::Empty => {},
            Polled::Closed => {
                self.ev_loop.worker_exited();
                self.set_error(AppError::Disconnected);
            },
        }
    }

    /// Drops a service failure that the last tick recorded.
    pub fn clear_transient(&mut self)
        ensures
            final(self)@ == old(self)@.clear_transient(),
    {
        let transient = match &self.error {
            Some(AppError::Protocol(_)) => true,
            _ => false,
        };
        if transient {
            self.error = None;
        }
    }

    /// This checks once then returns to continue the ui loop: it never
    /// waits for the worker. Returns whether the caller has to spawn the
    /// worker's sync loop now.
    pub fn on_tick(&mut self) -> (spawn: bool)
        ensures
            exists|result: Polled<RequestResult>, event: Polled<StateResult>|
                final(self)@ == #[trigger] old(self)@.tick(result, event),
            spawn == old(self)@.spawns(),
    {
        self.clear_transient();
        let mut spawn = false;
        if self.login_w.logged_in && !self.sync_started {
            self.sync_started = true;
            spawn = self.ev_loop.start_sync();
        }
        // this will login, send messages, and any other user initiated requests
        let result = try_receive_from(&mut self.ev_msgs);
        let ghost result_seen = result;
        self.apply_result(result);

        let event = try_receive_from(&mut self.emitter_msgs);
        let ghost event_seen = event;
        self.apply_event(event);
        assert(self@ == old(self)@.tick(result_seen, event_seen));
        spawn
    }

    /// Signals cancellation to the worker and queues `Quit` for it. A queue
    /// that does not take the request is no failure: either the worker is
    /// gone already, or it will see the signal.
    pub fn on_quit(&mut self)
        ensures
            final(self)@ == old(self)@.on_quit(),
    {
        self.ev_loop.quit_sync();
        let sent = try_send_to(&mut self.send_jobs, UserRequest::Quit);
        if sent.is_err() {
            return ;
        }
    }
}

/// A tick on which nothing has arrived changes nothing but what the tick
/// itself owes: last tick's service failure is dropped and the sync loop is
/// started if due.
pub proof fn lemma_idle_tick(s: AppState)
    ensures
        s.tick(Polled::Empty, Polled::Empty) == s.clear_transient().start_if_due(),
        s.error.is_none() && !s.sync_due() ==> s.tick(Polled::Empty, Polled::Empty) == s,
{
}

/// The sync loop is started once: after a tick on which it was due, it is
/// due on no later tick, whatever arrives, so no tick spawns a second worker.
pub proof fn lemma_tick_starts_sync_once(
    s: AppState,
    result: Polled<RequestResult>,
    event: Polled<StateResult>,
)
    ensures
        s.sync_started ==> s.tick(result, event).sync_started,
        s.sync_due() ==> s.tick(result, event).sync_started && !s.tick(result, event).spawns(),
        s.tick(result, event).sync.workers() <= 1,
{
}

/// Once the user has quit, no tick spawns a worker, whatever arrives before
/// or after.
pub proof fn lemma_no_spawn_after_quit(
    s: AppState,
    result: Polled<RequestResult>,
    event: Polled<StateResult>,
)
    ensures
        !s.on_quit().spawns(),
        !s.on_quit().tick(result, event).spawns(),
        s.on_quit().tick(result, event).sync.cancelled(),
{
}

} // verus!
