use rumatui::app::{AppError, AppWidget};
use rumatui::channel::{enqueue, try_receive, EnqueueError, Polled, QUEUE_CAPACITY};
use rumatui::login::LoginSelect;
use rumatui::request::{ProtocolError, RequestResult, RoomEntry, StateResult, UserRequest};
use rumatui::sync::{result_for, MatrixEventHandle, ProtocolOutcome, SyncState, Worker, WorkerAction};
use std::time::{Duration, Instant};
use tokio::sync::mpsc::{channel, Receiver, Sender};

struct WorkerSide {
    jobs: Receiver<UserRequest>,
    results: Sender<RequestResult>,
    events: Sender<StateResult>,
}

fn wire() -> (AppWidget, WorkerSide) {
    let (send_jobs, jobs) = channel(QUEUE_CAPACITY);
    let (results, ev_msgs) = channel(QUEUE_CAPACITY);
    let (events, emitter_msgs) = channel(QUEUE_CAPACITY);
    (AppWidget::new(send_jobs, ev_msgs, emitter_msgs), WorkerSide { jobs, results, events })
}

fn type_text(app: &mut AppWidget, text: &str) {
    for c in text.chars() {
        app.on_key(c);
    }
}

fn room(id: &str, name: &str) -> RoomEntry {
    RoomEntry { id: id.to_string(), name: name.to_string() }
}

fn submit_login(app: &mut AppWidget, user: &str, password: &str) {
    type_text(app, user);
    app.on_down();
    type_text(app, password);
    app.on_key('\n');
}

#[test]
fn a_new_app_is_idle_and_blank() {
    let (app, _worker) = wire();
    assert_eq!(app.title, "RumaTui");
    assert!(!app.should_quit);
    assert!(!app.sync_started);
    assert!(!app.login_w.logged_in);
    assert!(!app.login_w.logging_in);
    assert_eq!(app.login_w.login.selected, LoginSelect::Username);
    assert_eq!(app.ev_loop.state, SyncState::Idle);
    assert!(app.error.is_none());
    assert!(app.chat.room.rooms.is_empty());
}

#[test]
fn successful_login_opens_the_main_screen_with_two_rooms() {
    let (mut app, mut worker_side) = wire();
    submit_login(&mut app, "alice", "pw");
    assert!(app.login_w.logging_in);

    let mut handle = MatrixEventHandle::new();
    assert!(handle.start_sync());
    let mut worker = Worker::new();
    let action = worker.next_action(handle.is_cancelled(), false, try_receive(&mut worker_side.jobs));
    assert_eq!(action, WorkerAction::Login("alice".to_string(), "pw".to_string()));
    let rooms = vec![room("!r1:example.org", "room1"), room("!r2:example.org", "room2")];
    let result = result_for(&action, ProtocolOutcome::Login(Ok(rooms.clone())));
    assert_eq!(result, Some(RequestResult::Login(Ok(rooms.clone()))));
    worker_side.results.try_send(result.unwrap()).unwrap();

    let spawn = app.on_tick();
    assert!(!spawn);
    assert!(app.login_w.logged_in);
    assert!(!app.login_w.logging_in);
    assert!(app.chat.main_screen);
    assert_eq!(app.chat.room.rooms, rooms);
    assert_eq!(app.chat.room.selected, 0);
    assert_eq!(app.chat.current_room, Some("!r1:example.org".to_string()));
    assert!(app.error.is_none());

    // The tick after the login starts the sync loop, once.
    assert!(app.on_tick());
    assert!(app.sync_started);
    assert_eq!(app.ev_loop.state, SyncState::Running);
    assert!(!app.on_tick());
    assert_eq!(app.ev_loop.state, SyncState::Running);
}

#[test]
fn failed_login_records_the_error_and_stays_logged_out() {
    let (mut app, mut worker_side) = wire();
    submit_login(&mut app, "alice", "bad");
    let mut worker = Worker::new();
    let action = worker.next_action(false, false, try_receive(&mut worker_side.jobs));
    assert_eq!(action, WorkerAction::Login("alice".to_string(), "bad".to_string()));
    let result = result_for(&action, ProtocolOutcome::Login(Err(ProtocolError::AuthFailed)));
    assert_eq!(result, Some(RequestResult::Login(Err(ProtocolError::AuthFailed))));
    worker_side.results.try_send(result.unwrap()).unwrap();

    assert!(!app.on_tick());
    assert!(!app.login_w.logged_in);
    assert!(!app.login_w.logging_in);
    assert!(!app.chat.main_screen);
    assert_eq!(app.error, Some(AppError::Protocol(ProtocolError::AuthFailed)));
    assert!(!app.sync_started);

    // The failure is shown for one tick.
    assert!(!app.on_tick());
    assert!(app.error.is_none());
    assert!(!app.login_w.logged_in);
}

#[test]
fn events_arrive_without_any_request() {
    let (mut app, mut worker_side) = wire();
    for i in 0..3 {
        let event = StateResult::Message(
            "bob".to_string(),
            format!("hello {}", i),
            "!r1:example.org".to_string(),
        );
        worker_side.events.try_send(event).unwrap();
    }
    for i in 0..3 {
        app.on_tick();
        assert_eq!(app.chat.msgs.messages.len(), i + 1);
        let last = &app.chat.msgs.messages[i];
        assert_eq!(last.user, "bob");
        assert_eq!(last.body, format!("hello {}", i));
        assert_eq!(last.room, "!r1:example.org");
    }
    app.on_tick();
    assert_eq!(app.chat.msgs.messages.len(), 3);
    assert!(app.error.is_none());
}

#[test]
fn one_tick_takes_one_result_and_one_event_at_most() {
    let (mut app, mut worker_side) = wire();
    worker_side.results.try_send(RequestResult::SendMessage(Ok(()))).unwrap();
    worker_side.results.try_send(RequestResult::SendMessage(Err(ProtocolError::SendFailed))).unwrap();
    worker_side.events.try_send(StateResult::SyncStateChanged).unwrap();
    worker_side
        .events
        .try_send(StateResult::Message("bob".into(), "hi".into(), "!r".into()))
        .unwrap();
    app.on_tick();
    assert!(app.error.is_none());
    assert!(app.chat.msgs.messages.is_empty());
    app.on_tick();
    assert_eq!(app.error, Some(AppError::Protocol(ProtocolError::SendFailed)));
    assert_eq!(app.chat.msgs.messages.len(), 1);
}

#[test]
fn quit_drops_a_queued_send_and_closes_the_queue() {
    let (mut app, mut worker_side) = wire();
    let queued = UserRequest::SendMessage("!r1:example.org".to_string(), "hi".to_string());
    assert_eq!(enqueue(&mut app.send_jobs, queued), Ok(()));
    app.ev_loop.start_sync();
    app.on_quit();
    assert_eq!(app.ev_loop.state, SyncState::Stopping);

    let mut worker = Worker::new();
    let cancelled = app.ev_loop.is_cancelled();
    assert!(cancelled);
    let action = worker.next_action(cancelled, true, try_receive(&mut worker_side.jobs));
    assert_eq!(action, WorkerAction::Exit);
    assert!(worker.stopped);
    assert_eq!(result_for(&action, ProtocolOutcome::SendMessage(Ok(()))), None);
    drop(worker_side);

    let late = UserRequest::SendMessage("!r1:example.org".to_string(), "late".to_string());
    assert_eq!(enqueue(&mut app.send_jobs, late), Err(EnqueueError::QueueClosed));
    app.on_tick();
    assert_eq!(app.error, Some(AppError::Disconnected));
    assert_eq!(app.ev_loop.state, SyncState::Stopped);
    // Disconnection stays.
    app.on_tick();
    assert_eq!(app.error, Some(AppError::Disconnected));
}

#[test]
fn quit_on_a_closed_queue_is_no_failure() {
    let (mut app, mut worker_side) = wire();
    drop(worker_side);
    app.on_quit();
    assert!(app.error.is_none());
    assert_eq!(app.ev_loop.state, SyncState::Stopped);
    app.on_quit();
    assert_eq!(app.ev_loop.state, SyncState::Stopped);
    assert!(!app.ev_loop.start_sync());
}

#[test]
fn try_receive_on_an_empty_open_channel_is_empty_at_once() {
    let (mut tx, mut rx) = channel::<RequestResult>(8);
    let begun = Instant::now();
    assert_eq!(try_receive(&mut rx), Polled::Empty);
    assert!(begun.elapsed() < Duration::from_millis(100));
    tx.try_send(RequestResult::SendMessage(Ok(()))).unwrap();
    assert_eq!(try_receive(&mut rx), Polled::Item(RequestResult::SendMessage(Ok(()))));
    assert_eq!(try_receive(&mut rx), Polled::Empty);
    drop(tx);
    assert_eq!(try_receive(&mut rx), Polled::Closed);
}

#[test]
fn try_receive_is_first_in_first_out() {
    let (mut tx, mut rx) = channel::<UserRequest>(8);
    assert_eq!(enqueue(&mut tx, UserRequest::Login("a".into(), "b".into())), Ok(()));
    assert_eq!(enqueue(&mut tx, UserRequest::Quit), Ok(()));
    assert_eq!(try_receive(&mut rx), Polled::Item(UserRequest::Login("a".into(), "b".into())));
    assert_eq!(try_receive(&mut rx), Polled::Item(UserRequest::Quit));
    assert_eq!(try_receive(&mut rx), Polled::Empty);
}

#[test]
fn a_full_queue_is_busy_and_a_closed_one_is_closed() {
    let (mut tx, mut rx) = channel::<UserRequest>(1);
    assert_eq!(enqueue(&mut tx, UserRequest::Quit), Ok(()));
    assert_eq!(enqueue(&mut tx, UserRequest::Quit), Err(EnqueueError::Busy));
    assert_eq!(try_receive(&mut rx), Polled::Item(UserRequest::Quit));
    assert_eq!(enqueue(&mut tx, UserRequest::Quit), Ok(()));
    drop(rx);
    assert_eq!(enqueue(&mut tx, UserRequest::Quit), Err(EnqueueError::QueueClosed));
}

#[test]
fn the_queue_takes_its_capacity_and_no_more() {
    assert_eq!(QUEUE_CAPACITY, 1024);
    let (mut tx, _rx) = channel::<UserRequest>(QUEUE_CAPACITY);
    for _ in 0..QUEUE_CAPACITY {
        assert_eq!(enqueue(&mut tx, UserRequest::Quit), Ok(()));
    }
    assert_eq!(enqueue(&mut tx, UserRequest::Quit), Err(EnqueueError::Busy));
}

#[test]
fn starting_twice_leaves_one_worker() {
    let mut handle = MatrixEventHandle::new();
    assert!(!handle.is_running());
    assert!(handle.start_sync());
    assert_eq!(handle.state, SyncState::Running);
    assert!(!handle.start_sync());
    assert_eq!(handle.state, SyncState::Running);
    assert!(handle.is_running());
}

#[test]
fn the_handle_walks_its_lifecycle() {
    let mut handle = MatrixEventHandle::new();
    assert_eq!(handle.state, SyncState::Idle);
    assert!(!handle.is_cancelled());
    handle.worker_failed();
    assert_eq!(handle.state, SyncState::Idle);
    handle.start_sync();
    handle.quit_sync();
    assert_eq!(handle.state, SyncState::Stopping);
    assert!(handle.is_cancelled());
    handle.quit_sync();
    assert_eq!(handle.state, SyncState::Stopping);
    handle.worker_exited();
    assert_eq!(handle.state, SyncState::Stopped);
    assert!(!handle.start_sync());
    assert_eq!(handle.state, SyncState::Stopped);

    let mut failing = MatrixEventHandle::new();
    failing.start_sync();
    failing.worker_failed();
    assert_eq!(failing.state, SyncState::Stopping);

    let mut early = MatrixEventHandle::new();
    early.quit_sync();
    assert_eq!(early.state, SyncState::Stopped);
    assert!(!early.start_sync());
}

#[test]
fn the_worker_answers_each_request_before_quit_once() {
    let mut worker = Worker::new();
    let requests = vec![
        UserRequest::Login("alice".into(), "pw".into()),
        UserRequest::SendMessage("!r".into(), "one".into()),
        UserRequest::Quit,
        UserRequest::SendMessage("!r".into(), "two".into()),
    ];
    let mut actions = Vec::new();
    for request in requests {
        actions.push(worker.next_action(false, true, Polled::Item(request)));
    }
    assert_eq!(
        actions,
        vec![
            WorkerAction::Login("alice".into(), "pw".into()),
            WorkerAction::SendMessage("!r".into(), "one".into()),
            WorkerAction::Exit,
            WorkerAction::Exit,
        ]
    );
    assert!(worker.stopped);
    assert_eq!(
        result_for(&actions[1], ProtocolOutcome::SendMessage(Err(ProtocolError::SendFailed))),
        Some(RequestResult::SendMessage(Err(ProtocolError::SendFailed)))
    );
    assert_eq!(result_for(&actions[1], ProtocolOutcome::Login(Ok(vec![]))), None);
    assert_eq!(result_for(&actions[2], ProtocolOutcome::SendMessage(Ok(()))), None);
}

#[test]
fn the_worker_waits_on_an_empty_queue_and_exits_on_a_closed_one() {
    let mut worker = Worker::new();
    assert_eq!(worker.next_action(false, false, Polled::Empty), WorkerAction::Wait);
    assert_eq!(worker.next_action(false, true, Polled::Empty), WorkerAction::Sync);
    assert!(!worker.stopped);
    assert_eq!(result_for(&WorkerAction::Sync, ProtocolOutcome::SendMessage(Ok(()))), None);
    assert_eq!(worker.next_action(false, true, Polled::Closed), WorkerAction::Exit);
    assert!(worker.stopped);
    assert_eq!(worker.next_action(false, true, Polled::Empty), WorkerAction::Exit);

    let mut failing = Worker::new();
    failing.fail();
    assert_eq!(
        failing.next_action(false, true, Polled::Item(UserRequest::Login("a".into(), "b".into()))),
        WorkerAction::Exit
    );
}

#[test]
fn keys_edit_the_login_form() {
    let (mut app, mut worker_side) = wire();
    type_text(&mut app, "al");
    app.on_backspace();
    type_text(&mut app, "b");
    assert_eq!(app.login_w.login.username, "ab");
    app.on_up();
    assert_eq!(app.login_w.login.selected, LoginSelect::Password);
    app.on_backspace();
    assert_eq!(app.login_w.login.password, "");
    // A newline on a form that is not filled in is typed, not sent.
    app.on_key('\n');
    assert_eq!(app.login_w.login.password, "\n");
    assert!(!app.login_w.logging_in);
    assert_eq!(try_receive(&mut worker_side.jobs), Polled::Empty);
    app.on_backspace();
    type_text(&mut app, "pw");
    app.on_down();
    assert_eq!(app.login_w.login.selected, LoginSelect::Username);
    assert_eq!(app.login_request(), Some(UserRequest::Login("ab".into(), "pw".into())));
    app.on_key('\n');
    assert!(app.login_w.logging_in);
    assert_eq!(app.login_w.login.username, "ab\n");
    assert_eq!(
        try_receive(&mut worker_side.jobs),
        Polled::Item(UserRequest::Login("ab".into(), "pw".into()))
    );
    app.on_left();
    app.on_right();
    app.on_delete();
    app.on_click(termion::event::MouseButton::Left, 1, 1);
    assert_eq!(app.login_w.login.username, "ab\n");
}

#[test]
fn a_login_on_a_closed_queue_shows_disconnection() {
    let (mut app, mut worker_side) = wire();
    drop(worker_side);
    submit_login(&mut app, "alice", "pw");
    assert!(!app.login_w.logging_in);
    assert_eq!(app.error, Some(AppError::Disconnected));
}

#[test]
fn arrows_move_through_the_rooms_after_login() {
    let (mut app, mut worker_side) = wire();
    let rooms = vec![room("a", "A"), room("b", "B"), room("c", "C")];
    worker_side.results.try_send(RequestResult::Login(Ok(rooms))).unwrap();
    app.on_tick();
    app.on_down();
    assert_eq!(app.chat.room.selected, 1);
    app.on_down();
    app.on_down();
    assert_eq!(app.chat.room.selected, 0);
    app.on_up();
    assert_eq!(app.chat.room.selected, 2);
    app.on_up();
    assert_eq!(app.chat.room.selected, 1);
    type_text(&mut app, "x");
    app.on_backspace();
    assert_eq!(app.login_w.login.username, "");
}

#[test]
fn a_sync_failure_stops_a_running_worker() {
    let (mut app, mut worker_side) = wire();
    worker_side.results.try_send(RequestResult::Login(Ok(vec![]))).unwrap();
    app.on_tick();
    assert_eq!(app.chat.current_room, None);
    assert!(app.on_tick());
    worker_side
        .events
        .try_send(StateResult::SyncFailed(ProtocolError::Transport("reset".into())))
        .unwrap();
    app.on_tick();
    assert_eq!(app.ev_loop.state, SyncState::Stopping);
    assert_eq!(app.error, Some(AppError::Protocol(ProtocolError::Transport("reset".into()))));
}
