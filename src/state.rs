//! The startup protocol as a state machine over the shared state: a caller
//! of `start` tests and sets the spawn flag in one step, and the listener
//! publishes its port in one step. The laws below hold of every sequence of
//! such steps. `server::Server` makes each step with one atomic operation and
//! decides its outcome with this model's own functions, applied to the values
//! that operation read.

use vstd::prelude::*;
use crate::host::{host_for_port, host_text, host_with_protocol_for_port, host_with_protocol_text};

verus! {

/// What a caller of `start` does after its step on the spawn flag.
#[derive(Clone, Copy, Debug, PartialEq, Eq, Structural)]
pub enum StartAction {
    /// This caller set the flag: it creates the listener thread, then waits.
    Spawn,
    /// The flag was already set: it only waits for the port.
    Wait,
}

/// Why a port could not be published.
#[derive(Clone, Copy, Debug, PartialEq, Eq, Structural)]
pub enum PublishError {
    /// Port 0 means "not bound" and cannot be published.
    ZeroPort,
    /// No listener thread was spawned.
    NotSpawned,
    /// A port was published before; it never changes.
    AlreadyBound,
}

/// One atomic step on the shared state.
pub enum Event {
    /// A caller of `start` tests and sets the spawn flag.
    Start,
    /// The listener publishes the port it was bound to.
    Bound(usize),
}

/// The shared state: whether the listener thread was spawned, and its port
/// (0 while not bound).
#[derive(Clone, Copy, Debug, PartialEq, Eq, Structural)]
pub struct ServerState {
    pub spawned: bool,
    pub port: usize,
}

/// The state at process start.
pub open spec fn initial_state() -> ServerState {
    ServerState { spawned: false, port: 0 }
}

/// A bound port implies a spawned listener.
pub open spec fn state_wf(s: ServerState) -> bool {
    s.port != 0 ==> s.spawned
}

/// The state after a caller's step on the spawn flag.
pub open spec fn after_start(s: ServerState) -> ServerState {
    ServerState { spawned: true, port: s.port }
}

/// What the caller does after that step.
pub open spec fn start_action_of(s: ServerState) -> StartAction {
    if s.spawned {
        StartAction::Wait
    } else {
        StartAction::Spawn
    }
}

/// The outcome of publishing `p` in state `s`.
pub open spec fn publish_result(s: ServerState, p: usize) -> Result<(), PublishError> {
    if p == 0 {
        Err(PublishError::ZeroPort)
    } else if !s.spawned {
        Err(PublishError::NotSpawned)
    } else if s.port != 0 {
        Err(PublishError::AlreadyBound)
    } else {
        Ok(())
    }
}

/// The state after publishing `p` in state `s`: changed only on success.
pub open spec fn after_publish(s: ServerState, p: usize) -> ServerState {
    if publish_result(s, p) is Ok {
        ServerState { spawned: s.spawned, port: p }
    } else {
        s
    }
}

/// What one poll of a waiting caller gives when the port holds `port`: the
/// port once bound, `None` before. A caller of `start` returns on `Some`.
pub open spec fn poll_result(port: usize) -> Option<usize> {
    if port == 0 {
        None
    } else {
        Some(port)
    }
}

/// The state after one step.
pub open spec fn step(s: ServerState, e: Event) -> ServerState {
    match e {
        Event::Start => after_start(s),
        Event::Bound(p) => after_publish(s, p),
    }
}

/// The state after a sequence of steps.
pub open spec fn run(s: ServerState, events: Seq<Event>) -> ServerState
    decreases events.len(),
{
    if events.len() == 0 {
        s
    } else {
        run(step(s, events[0]), events.drop_first())
    }
}

/// How many callers in a sequence of steps create a listener thread.
pub open spec fn spawn_count(s: ServerState, events: Seq<Event>) -> nat
    decreases events.len(),
{
    if events.len() == 0 {
        0
    } else {
        let here: nat = if events[0] is Start && start_action_of(s) == StartAction::Spawn {
            1
        } else {
            0
        };
        here + spawn_count(step(s, events[0]), events.drop_first())
    }
}

impl ServerState {
    /// The state at process start: nothing spawned, no port.
    pub fn new() -> (r: ServerState)
        ensures
            r == initial_state(),
            state_wf(r),
    {
        ServerState { spawned: false, port: 0 }
    }

    /// A caller's step on the spawn flag: sets it, and says whether this
    /// caller was the one that set it.
    pub fn start(&mut self) -> (a: StartAction)
        ensures
            a == start_action_of(*old(self)),
            *final(self) == after_start(*old(self)),
            state_wf(*old(self)) ==> state_wf(*final(self)),
    {
        let a = if self.spawned {
            StartAction::Wait
        } else {
            StartAction::Spawn
        };
        self.spawned = true;
        a
    }

    /// The listener publishes the port it was bound to.
    pub fn publish_port(&mut self, p: usize) -> (r: Result<(), PublishError>)
        ensures
            r == publish_result(*old(self), p),
            *final(self) == after_publish(*old(self), p),
            state_wf(*old(self)) ==> state_wf(*final(self)),
    {
        if p == 0 {
            Err(PublishError::ZeroPort)
        } else if !self.spawned {
            Err(PublishError::NotSpawned)
        } else if self.port != 0 {
            Err(PublishError::AlreadyBound)
        } else {
            self.port = p;
            Ok(())
        }
    }

    /// Whether the listener thread was spawned.
    pub fn is_server_thread_spawned(&self) -> (r: bool)
        ensures
            r == self.spawned,
    {
        self.spawned
    }

    /// Whether a port was published.
    pub fn is_listening(&self) -> (r: bool)
        ensures
            r == (self.port != 0),
    {
        self.port != 0
    }

    /// The published port, 0 while not bound.
    pub fn port(&self) -> (r: usize)
        ensures
            r == self.port,
    {
        self.port
    }

    /// `127.0.0.1:<port>`.
    pub fn host(&self) -> (r: String)
        ensures
            r@ == host_text(self.port as nat),
    {
        host_for_port(self.port)
    }

    /// `http://127.0.0.1:<port>`.
    pub fn host_with_protocol(&self) -> (r: String)
        ensures
            r@ == host_with_protocol_text(self.port as nat),
    {
        host_with_protocol_for_port(self.port)
    }
}

/// Every step keeps the state well formed: a port is published only after
/// the listener was spawned.
pub proof fn lemma_run_keeps_wf(s: ServerState, events: Seq<Event>)
    requires
        state_wf(s),
    ensures
        state_wf(run(s, events)),
    decreases events.len(),
{
    if events.len() > 0 {
        lemma_run_keeps_wf(step(s, events[0]), events.drop_first());
    }
}

/// Once a port is published it never changes, whatever steps follow; and
/// the spawn flag never goes back to false.
pub proof fn lemma_port_stable(s: ServerState, events: Seq<Event>)
    ensures
        s.port != 0 ==> run(s, events).port == s.port,
        s.spawned ==> run(s, events).spawned,
    decreases events.len(),
{
    if events.len() > 0 {
        lemma_port_stable(step(s, events[0]), events.drop_first());
    }
}

/// Once the flag is set no later caller creates a listener.
pub proof fn lemma_no_spawn_after_flag(s: ServerState, events: Seq<Event>)
    requires
        s.spawned,
    ensures
        spawn_count(s, events) == 0,
    decreases events.len(),
{
    if events.len() > 0 {
        lemma_no_spawn_after_flag(step(s, events[0]), events.drop_first());
    }
}

/// From process start, any interleaving of callers of `start` and of port
/// publication creates at most one listener thread; exactly one as soon as
/// any caller has called `start`, and the flag is then set.
pub proof fn lemma_single_spawn(events: Seq<Event>)
    ensures
        spawn_count(initial_state(), events) <= 1,
        (exists|i: int| 0 <= i < events.len() && events[i] is Start) ==> (spawn_count(
            initial_state(),
            events,
        ) == 1 && run(initial_state(), events).spawned),
{
    lemma_single_spawn_from(initial_state(), events);
}

/// From any state without a spawned listener: at most one spawn, and one
/// exactly when some step is a call of `start`.
proof fn lemma_single_spawn_from(s: ServerState, events: Seq<Event>)
    requires
        !s.spawned,
    ensures
        spawn_count(s, events) <= 1,
        (exists|i: int| 0 <= i < events.len() && events[i] is Start) ==> (spawn_count(s, events)
            == 1 && run(s, events).spawned),
    decreases events.len(),
{
    if events.len() > 0 {
        let rest = events.drop_first();
        let next = step(s, events[0]);
        if events[0] is Start {
            lemma_no_spawn_after_flag(next, rest);
            lemma_port_stable(next, rest);
        } else {
            lemma_single_spawn_from(next, rest);
            if exists|i: int| 0 <= i < events.len() && events[i] is Start {
                let i = choose|i: int| 0 <= i < events.len() && events[i] is Start;
                assert(rest[i - 1] is Start);
            }
        }
    }
}

/// Running two sequences of steps one after the other is running their
/// concatenation.
proof fn lemma_run_append(s: ServerState, a: Seq<Event>, b: Seq<Event>)
    ensures
        run(s, a + b) == run(run(s, a), b),
    decreases a.len(),
{
    if a.len() > 0 {
        assert((a + b).drop_first() =~= a.drop_first() + b);
        lemma_run_append(step(s, a[0]), a.drop_first(), b);
    }
}

/// Observers at two points of one interleaving: if the earlier one saw a
/// published port, the later one sees the same port.
pub proof fn lemma_port_agreed(events: Seq<Event>, i: int, j: int)
    requires
        0 <= i <= j <= events.len(),
        run(initial_state(), events.take(i)).port != 0,
    ensures
        run(initial_state(), events.take(j)).port == run(initial_state(), events.take(i)).port,
{
    let a = events.take(i);
    let b = events.subrange(i, j);
    assert(events.take(j) =~= a + b);
    lemma_run_append(initial_state(), a, b);
    lemma_port_stable(run(initial_state(), a), b);
}

/// Two callers of `start` that return after polls at any two points of one
/// interleaving return with the same port, and it is not 0.
pub proof fn lemma_returning_callers_agree(events: Seq<Event>, i: int, j: int)
    requires
        0 <= i <= events.len(),
        0 <= j <= events.len(),
        poll_result(run(initial_state(), events.take(i)).port) is Some,
        poll_result(run(initial_state(), events.take(j)).port) is Some,
    ensures
        poll_result(run(initial_state(), events.take(i)).port) == poll_result(
            run(initial_state(), events.take(j)).port,
        ),
        run(initial_state(), events.take(i)).port != 0,
{
    if i <= j {
        lemma_port_agreed(events, i, j);
    } else {
        lemma_port_agreed(events, j, i);
    }
}

} // verus!
