//! The background worker: the UI-side handle that owns its lifecycle, and the
//! decisions the worker itself takes between two network operations.

use vstd::prelude::*;
use crate::channel::Polled;
use crate::request::{ProtocolError, RequestResult, RoomEntry, UserRequest};

verus! {

/// Where the worker's life stands.
#[derive(Debug, Clone, Copy, PartialEq, Eq, Structural)]
pub enum SyncState {
    /// Not started yet.
    Idle,
    /// The worker loop is running.
    Running,
    /// Cancellation was signalled; the loop has not exited yet.
    Stopping,
    /// The loop has exited and dropped its channel halves. Terminal.
    Stopped,
}

/// What can happen to the handle.
#[derive(Debug, Clone, Copy, PartialEq, Eq, Structural)]
pub enum SyncEvent {
    Start,
    Quit,
    /// The worker met an error it cannot go on from.
    Failed,
    /// The worker's loop has returned.
    Exited,
}

impl SyncState {
    /// The lifecycle: `Idle → Running → Stopping → Stopped`. A quit before any
    /// start ends the life at once, since there is no loop to wait for; an
    /// exit is final from wherever the loop stood.
    pub open spec fn next(self, event: SyncEvent) -> SyncState {
        match (self, event) {
            (SyncState::Idle, SyncEvent::Start) => SyncState::Running,
            (SyncState::Idle, SyncEvent::Quit) => SyncState::Stopped,
            (SyncState::Running, SyncEvent::Quit) => SyncState::Stopping,
            (SyncState::Running, SyncEvent::Failed) => SyncState::Stopping,
            (SyncState::Running, SyncEvent::Exited) => SyncState::Stopped,
            (SyncState::Stopping, SyncEvent::Exited) => SyncState::Stopped,
            _ => self,
        }
    }

    /// Whether this event makes the owner spawn a worker: only a start from
    /// `Idle` does.
    pub open spec fn spawns(self, event: SyncEvent) -> bool {
        self == SyncState::Idle && event == SyncEvent::Start
    }

    /// How many worker loops are alive in this state.
    pub open spec fn workers(self) -> nat {
        match self {
            SyncState::Running | SyncState::Stopping => 1,
            _ => 0,
        }
    }

    /// The worker has been told to stop, or has stopped.
    pub open spec fn cancelled(self) -> bool {
        self == SyncState::Stopping || self == SyncState::Stopped
    }
}

/// Owns the lifecycle of the background worker, on the UI side.
#[derive(Debug, Clone, Copy, PartialEq, Eq, Structural)]
pub struct MatrixEventHandle {
    pub state: SyncState,
}

impl MatrixEventHandle {
    pub fn new() -> (r: MatrixEventHandle)
        ensures
            r.state == SyncState::Idle,
    {
        MatrixEventHandle { state: SyncState::Idle }
    }

    /// Starts the worker unless it was started before. Returns whether the
    /// caller has to spawn the worker loop now.
    pub fn start_sync(&mut self) -> (spawn: bool)
        ensures
            final(self).state == old(self).state.next(SyncEvent::Start),
            spawn == old(self).state.spawns(SyncEvent::Start),
    {
        match self.state {
            SyncState::Idle => {
                self.state = SyncState::Running;
                true
            },
            _ => false,
        }
    }

    /// Signals cancellation. Safe at any time, any number of times.
    pub fn quit_sync(&mut self)
        ensures
            final(self).state == old(self).state.next(SyncEvent::Quit),
            final(self).state.cancelled(),
    {
        match self.state {
            SyncState::Idle => {
                self.state = SyncState::Stopped;
            },
            SyncState::Running => {
                self.state = SyncState::Stopping;
            },
            _ => {},
        }
    }

    /// Records a fatal error of the worker: a running worker is stopping.
    pub fn worker_failed(&mut self)
        ensures
            final(self).state == old(self).state.next(SyncEvent::Failed),
    {
        match self.state {
            SyncState::Running => {
                self.state = SyncState::Stopping;
            },
            _ => {},
        }
    }

    /// Records that the worker's loop has returned.
    pub fn worker_exited(&mut self)
        ensures
            final(self).state == old(self).state.next(SyncEvent::Exited),
    {
        match self.state {
            SyncState::Running | SyncState::Stopping => {
                self.state = SyncState::Stopped;
            },
            _ => {},
        }
    }

    /// The cancellation signal, as the worker has to see it.
    pub fn is_cancelled(&self) -> (r: bool)
        ensures
            r == self.state.cancelled(),
    {
        match self.state {
            SyncState::Stopping | SyncState::Stopped => true,
            _ => false,
        }
    }

    pub fn is_running(&self) -> (r: bool)
        ensures
            r == (self.state == SyncState::Running),
    {
        match self.state {
            SyncState::Running => true,
            _ => false,
        }
    }
}

/// The state after a sequence of events, taken in order.
pub open spec fn state_after(start: SyncState, events: Seq<SyncEvent>) -> SyncState
    decreases events.len(),
{
    if events.len() == 0 {
        start
    } else {
        state_after(start, events.drop_last()).next(events.last())
    }
}

/// How many workers a sequence of events has the owner spawn.
pub open spec fn spawned(start: SyncState, events: Seq<SyncEvent>) -> nat
    decreases events.len(),
{
    if events.len() == 0 {
        0
    } else {
        let before = state_after(start, events.drop_last());
        spawned(start, events.drop_last()) + if before.spawns(events.last()) {
            1nat
        } else {
            0nat
        }
    }
}

/// Starting twice is starting once: the second start changes nothing, spawns
/// nothing, and one worker at most is alive afterwards.
pub proof fn lemma_start_sync_idempotent(s: SyncState)
    ensures
        s.next(SyncEvent::Start).next(SyncEvent::Start) == s.next(SyncEvent::Start),
        !s.next(SyncEvent::Start).spawns(SyncEvent::Start),
        s.next(SyncEvent::Start).workers() <= 1,
        s == SyncState::Idle ==> s.next(SyncEvent::Start).workers() == 1,
{
}

/// Quitting twice is quitting once, and a quit always leaves the cancellation
/// signal set.
pub proof fn lemma_quit_sync_idempotent(s: SyncState)
    ensures
        s.next(SyncEvent::Quit).next(SyncEvent::Quit) == s.next(SyncEvent::Quit),
        s.next(SyncEvent::Quit).cancelled(),
{
}

/// Whatever happens to a handle that starts idle, it never has more than one
/// worker alive, spawns one worker at most over its whole life, and once
/// cancelled stays cancelled.
pub proof fn lemma_at_most_one_worker(events: Seq<SyncEvent>)
    ensures
        state_after(SyncState::Idle, events).workers() <= 1,
        spawned(SyncState::Idle, events) <= 1,
        spawned(SyncState::Idle, events) == 0 ==> state_after(SyncState::Idle, events).workers()
            == 0,
        state_after(SyncState::Idle, events) == SyncState::Idle <==> spawned(
            SyncState::Idle,
            events,
        ) == 0 && !state_after(SyncState::Idle, events).cancelled(),
    decreases events.len(),
{
    if events.len() > 0 {
        lemma_at_most_one_worker(events.drop_last());
    }
}

/// Once the signal is set no later event clears it, and no worker is spawned
/// after it.
pub proof fn lemma_cancelled_is_final(s: SyncState, event: SyncEvent)
    requires
        s.cancelled(),
    ensures
        s.next(event).cancelled(),
        !s.spawns(event),
{
}

/// Once cancelled, a handle stays cancelled through every later sequence of
/// events.
pub proof fn lemma_cancelled_stays(s: SyncState, later: Seq<SyncEvent>)
    requires
        s.cancelled(),
    ensures
        state_after(s, later).cancelled(),
        spawned(s, later) == 0,
    decreases later.len(),
{
    if later.len() > 0 {
        lemma_cancelled_stays(s, later.drop_last());
    }
}

/// What the worker does next.
#[derive(Debug, Clone, PartialEq, Eq)]
pub enum WorkerAction {
    /// Leave the loop and drop the channel halves.
    Exit,
    /// Nothing to do now: poll again after a pause.
    Wait,
    /// No request waits: run one round of the sync stream, forward its
    /// events, and poll again.
    Sync,
    /// Log in with this user name and password, then send the result.
    Login(String, String),
    /// Send this body to this room (id first), then send the result.
    SendMessage(String, String),
}

impl WorkerAction {
    /// A network operation that owes the UI one result.
    pub open spec fn performs(self) -> bool {
        self is Login || self is SendMessage
    }
}

/// What the remote service answered to the operation of one action.
#[derive(Debug, PartialEq, Eq)]
pub enum ProtocolOutcome {
    Login(Result<Vec<RoomEntry>, ProtocolError>),
    SendMessage(Result<(), ProtocolError>),
}

/// The worker's own record: whether its loop has ended.
#[derive(Debug, Clone, Copy, PartialEq, Eq, Structural)]
pub struct Worker {
    pub stopped: bool,
}

/// The operation that carries out a request.
pub open spec fn action_of(request: UserRequest) -> WorkerAction {
    match request {
        UserRequest::Login(username, password) => WorkerAction::Login(username, password),
        UserRequest::SendMessage(room_id, body) => WorkerAction::SendMessage(room_id, body),
        UserRequest::Quit => WorkerAction::Exit,
    }
}

impl Worker {
    /// One turn of the worker loop. A stopped worker stays stopped and exits.
    /// The cancellation signal comes before anything polled: a request that
    /// was waiting in the queue is then dropped unexecuted. A closed queue and
    /// `Quit` end the loop; on an empty queue the worker syncs if the sync
    /// loop was started and waits if not; any other request is carried out.
    pub open spec fn spec_step(
        self,
        cancelled: bool,
        syncing: bool,
        polled: Polled<UserRequest>,
    ) -> (Worker, WorkerAction) {
        if self.stopped || cancelled {
            (Worker { stopped: true }, WorkerAction::Exit)
        } else {
            match polled {
                Polled::Empty => (
                    self,
                    if syncing {
                        WorkerAction::Sync
                    } else {
                        WorkerAction::Wait
                    },
                ),
                Polled::Closed => (Worker { stopped: true }, WorkerAction::Exit),
                Polled::Item(request) => (
                    Worker { stopped: request is Quit },
                    action_of(request),
                ),
            }
        }
    }

    pub fn new() -> (r: Worker)
        ensures
            !r.stopped,
    {
        Worker { stopped: false }
    }

    /// Records an error that the worker cannot go on from: it is stopped, and
    /// its next turn exits.
    pub fn fail(&mut self)
        ensures
            final(self).stopped,
    {
        self.stopped = true;
    }

    /// Decides the next action from the cancellation signal, from whether the
    /// sync loop was started, and from what the request queue gave.
    pub fn next_action(
        &mut self,
        cancelled: bool,
        syncing: bool,
        polled: Polled<UserRequest>,
    ) -> (action: WorkerAction)
        ensures
            (*final(self), action) == old(self).spec_step(cancelled, syncing, polled),
    {
        if self.stopped || cancelled {
            self.stopped = true;
            return WorkerAction::Exit;
        }
        match polled {
            Polled::Empty => if syncing {
                WorkerAction::Sync
            } else {
                WorkerAction::Wait
            },
            Polled::Closed => {
                self.stopped = true;
                WorkerAction::Exit
            },
            Polled::Item(request) => match request {
                UserRequest::Login(username, password) => WorkerAction::Login(username, password),
                UserRequest::SendMessage(room_id, body) => WorkerAction::SendMessage(
                    room_id,
                    body,
                ),
                UserRequest::Quit => {
                    self.stopped = true;
                    WorkerAction::Exit
                },
            },
        }
    }
}

/// The result owed for an action, given the service's answer: the answer,
/// wrapped, where it is the answer to that kind of operation; nothing for a
/// mismatched answer or for an action that performs no operation.
pub open spec fn spec_result_for(action: WorkerAction, outcome: ProtocolOutcome) -> Option<
    RequestResult,
> {
    match (action, outcome) {
        (WorkerAction::Login(_, _), ProtocolOutcome::Login(r)) => Some(RequestResult::Login(r)),
        (WorkerAction::SendMessage(_, _), ProtocolOutcome::SendMessage(r)) => Some(
            RequestResult::SendMessage(r),
        ),
        _ => None,
    }
}

/// Turns the service's answer into the result to send back for `action`.
pub fn result_for(action: &WorkerAction, outcome: ProtocolOutcome) -> (r: Option<RequestResult>)
    ensures
        r == spec_result_for(*action, outcome),
{
    match action {
        WorkerAction::Login(_, _) => match outcome {
            ProtocolOutcome::Login(r) => Some(RequestResult::Login(r)),
            _ => None,
        },
        WorkerAction::SendMessage(_, _) => match outcome {
            ProtocolOutcome::SendMessage(r) => Some(RequestResult::SendMessage(r)),
            _ => None,
        },
        _ => None,
    }
}

/// The worker after it was handed these requests one by one, never
/// cancelled. Whether the sync loop runs makes no difference to a turn on
/// which a request was polled.
pub open spec fn worker_after(start: Worker, requests: Seq<UserRequest>) -> Worker
    decreases requests.len(),
{
    if requests.len() == 0 {
        start
    } else {
        worker_after(start, requests.drop_last()).spec_step(
            false,
            false,
            Polled::Item(requests.last()),
        ).0
    }
}

/// What the worker does with the request at index `i` of those it is handed.
pub open spec fn action_at(start: Worker, requests: Seq<UserRequest>, i: int) -> WorkerAction
    recommends
        0 <= i < requests.len(),
{
    worker_after(start, requests.take(i)).spec_step(false, false, Polled::Item(requests[i])).1
}

/// No `Quit` among the first `n` requests.
pub open spec fn no_quit_before(requests: Seq<UserRequest>, n: int) -> bool {
    forall|j: int| 0 <= j < n && j < requests.len() ==> !(#[trigger] requests[j] is Quit)
}

/// A fresh worker is stopped after a run of requests exactly when `Quit` was
/// among them.
pub proof fn lemma_stopped_iff_quit(requests: Seq<UserRequest>)
    ensures
        worker_after(Worker { stopped: false }, requests).stopped <==> !no_quit_before(
            requests,
            requests.len() as int,
        ),
    decreases requests.len(),
{
    if requests.len() > 0 {
        let front = requests.drop_last();
        lemma_stopped_iff_quit(front);
        assert(forall|j: int| 0 <= j < front.len() ==> front[j] == requests[j]);
        if no_quit_before(front, front.len() as int) {
            if !(requests.last() is Quit) {
                assert(no_quit_before(requests, requests.len() as int));
            } else {
                assert(requests[requests.len() - 1] is Quit);
            }
        } else {
            let j = choose|j: int| 0 <= j < front.len() && front[j] is Quit;
            assert(requests[j] is Quit);
        }
    }
}

/// Each request handed to a fresh worker before any `Quit` is carried out
/// once, as its own operation, and that operation is owed exactly one result:
/// the service's answer to it. `Quit` itself, and every request after it, is
/// answered by `Exit`, which owes none.
pub proof fn lemma_one_result_per_request(requests: Seq<UserRequest>, i: int)
    requires
        0 <= i < requests.len(),
    ensures
        no_quit_before(requests, i + 1) ==> {
            let action = action_at(Worker { stopped: false }, requests, i);
            &&& action == action_of(requests[i])
            &&& action.performs()
            &&& requests[i].expects_result()
            &&& forall|r: Result<Vec<RoomEntry>, ProtocolError>|
                action is Login ==> #[trigger] spec_result_for(action, ProtocolOutcome::Login(r))
                    == Some(RequestResult::Login(r))
            &&& forall|r: Result<(), ProtocolError>|
                action is SendMessage ==> #[trigger] spec_result_for(
                    action,
                    ProtocolOutcome::SendMessage(r),
                ) == Some(RequestResult::SendMessage(r))
        },
        !no_quit_before(requests, i + 1) ==> {
            let action = action_at(Worker { stopped: false }, requests, i);
            &&& action == WorkerAction::Exit
            &&& !action.performs()
            &&& forall|o: ProtocolOutcome| #[trigger] spec_result_for(action, o).is_none()
        },
{
    let front = requests.take(i);
    lemma_stopped_iff_quit(front);
    assert(forall|j: int| 0 <= j < i ==> front[j] == requests[j]);
    if no_quit_before(requests, i + 1) {
        assert(no_quit_before(front, front.len() as int));
        assert(!(requests[i] is Quit));
    } else {
        let j = choose|j: int| 0 <= j < i + 1 && j < requests.len() && requests[j] is Quit;
        if j < i {
            assert(front[j] is Quit);
            assert(!no_quit_before(front, front.len() as int));
        }
    }
}

/// A worker that has seen the cancellation signal carries out nothing: the
/// request it polled, if any, is dropped, and every later turn exits too,
/// whatever the queue holds and whether or not the signal is still read.
pub proof fn lemma_nothing_after_cancel(
    w: Worker,
    syncing: bool,
    polled: Polled<UserRequest>,
    later_cancelled: bool,
    later: Polled<UserRequest>,
)
    ensures
        w.spec_step(true, syncing, polled).1 == WorkerAction::Exit,
        w.spec_step(true, syncing, polled).0.stopped,
        w.spec_step(true, syncing, polled).0.spec_step(later_cancelled, syncing, later).1
            == WorkerAction::Exit,
        w.spec_step(true, syncing, polled).0.spec_step(later_cancelled, syncing, later).0.stopped,
{
}

/// Whether the sync loop runs changes nothing on a turn on which a request
/// was polled: the request is treated alike.
pub proof fn lemma_sync_leaves_requests_alone(
    w: Worker,
    cancelled: bool,
    request: UserRequest,
)
    ensures
        w.spec_step(cancelled, true, Polled::Item(request)) == w.spec_step(
            cancelled,
            false,
            Polled::Item(request),
        ),
{
}

/// After a quit, whatever happens to the handle later, the signal it shows
/// is set, and a worker that reads it carries out nothing: not the request
/// it has just polled, and none on any later turn.
pub proof fn lemma_quit_stops_the_worker(
    s: SyncState,
    later: Seq<SyncEvent>,
    w: Worker,
    syncing: bool,
    polled: Polled<UserRequest>,
)
    ensures
        state_after(s.next(SyncEvent::Quit), later).cancelled(),
        spawned(s.next(SyncEvent::Quit), later) == 0,
        w.spec_step(
            state_after(s.next(SyncEvent::Quit), later).cancelled(),
            syncing,
            polled,
        ) == (Worker { stopped: true }, WorkerAction::Exit),
{
    lemma_cancelled_stays(s.next(SyncEvent::Quit), later);
}

} // verus!
