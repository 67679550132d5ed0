//! The shared state as one service object whose two fields are atomics, read
//! and written with sequentially consistent ordering. Each method makes one
//! step of the protocol in `state` with one atomic operation, and hands the
//! values it read to a function below whose contract is the model's own:
//! `begin_start` tests and sets the spawn flag with one compare-and-swap, and
//! `publish_port` sets the port once with another.
//!
//! The values of the atomics change under other threads and have no model
//! here, so the methods' own contracts speak only of what holds whatever was
//! read.

use vstd::prelude::*;
use std::sync::atomic::{AtomicBool, AtomicUsize, Ordering};
use crate::host::{host_for_port, host_text, host_with_protocol_for_port, host_with_protocol_text};
use crate::state::{poll_result, publish_result, start_action_of, PublishError, ServerState, StartAction};

verus! {

/// The step of a caller of `start`, decided from what its compare-and-swap
/// of the flag from `false` to `true` returned: `Ok` when this caller set the
/// flag, `Err` when it was set already.
pub fn start_action_after_swap(swapped: Result<bool, bool>) -> (a: StartAction)
    ensures
        a == start_action_of(ServerState { spawned: swapped is Err, port: 0 }),
{
    let mut s = ServerState { spawned: swapped.is_err(), port: 0 };
    s.start()
}

/// The outcome of publishing `p` when the flag read `spawned` and the port
/// held `prev_port` just before.
pub fn publish_outcome(p: usize, spawned: bool, prev_port: usize) -> (r: Result<(), PublishError>)
    ensures
        r == publish_result(ServerState { spawned, port: prev_port }, p),
{
    let mut s = ServerState { spawned, port: prev_port };
    s.publish_port(p)
}

/// Whether a listener with port value `p` read from the state is bound.
pub fn is_listening_port(p: usize) -> (r: bool)
    ensures
        r == (p != 0),
{
    p != 0
}

/// The end of a wait for the listener, given the port value `p` read from
/// the state: the port once bound, `None` before.
pub fn listening_port_of(p: usize) -> (r: Option<usize>)
    ensures
        r == poll_result(p),
{
    if p == 0 {
        None
    } else {
        Some(p)
    }
}

/// The process-wide state of the listener, shared by reference between the
/// callers of `start` and the listener thread.
pub struct Server {
    spawned: AtomicBool,
    port: AtomicUsize,
}

impl Server {
    /// Nothing spawned, no port.
    pub fn new() -> (r: Server) {
        Server { spawned: AtomicBool::new(false), port: AtomicUsize::new(0) }
    }

    /// Whether the listener thread was spawned.
    pub fn is_server_thread_spawned(&self) -> (r: bool) {
        self.spawned.load(Ordering::SeqCst)
    }

    /// The published port, 0 while not bound.
    pub fn port(&self) -> (r: usize) {
        self.port.load(Ordering::SeqCst)
    }

    /// Whether a port was published, with the port read once.
    pub fn is_listening(&self) -> (r: bool) {
        is_listening_port(self.port())
    }

    /// One poll of the port, for a caller waiting until the listener is
    /// bound: the port if one was published, else `None`.
    pub fn listening_port(&self) -> (r: Option<usize>)
        ensures
            r matches Some(p) ==> p != 0,
    {
        listening_port_of(self.port())
    }

    /// `127.0.0.1:<port>`, with the port read once.
    pub fn host(&self) -> (r: String)
        ensures
            exists|p: usize| r@ == host_text(p as nat),
    {
        let p = self.port();
        host_for_port(p)
    }

    /// `http://127.0.0.1:<port>`, with the port read once.
    pub fn host_with_protocol(&self) -> (r: String)
        ensures
            exists|p: usize| r@ == host_with_protocol_text(p as nat),
    {
        let p = self.port();
        host_with_protocol_for_port(p)
    }

    /// A caller's step on the spawn flag: `Spawn` for the one caller whose
    /// compare-and-swap set it, `Wait` for every other.
    pub fn begin_start(&self) -> (a: StartAction) {
        let swapped = self.spawned.compare_exchange(false, true, Ordering::SeqCst, Ordering::SeqCst);
        start_action_after_swap(swapped)
    }

    /// The listener publishes the port it was bound to: the model's outcome
    /// for the flag and the port as read. Port 0 is refused; otherwise the
    /// port is set, by one compare-and-swap from 0, only if the flag is set
    /// and no port was published before.
    pub fn publish_port(&self, p: usize) -> (r: Result<(), PublishError>)
        ensures
            (r == Err::<(), PublishError>(PublishError::ZeroPort)) <==> p == 0,
            r is Ok ==> p != 0,
            exists|spawned: bool, prev_port: usize|
                r == publish_result(ServerState { spawned, port: prev_port }, p),
    {
        let spawned = self.spawned.load(Ordering::SeqCst);
        let prev_port = if p != 0 && spawned {
            match self.port.compare_exchange(0, p, Ordering::SeqCst, Ordering::SeqCst) {
                Ok(prev) => prev,
                Err(prev) => prev,
            }
        } else {
            self.port.load(Ordering::SeqCst)
        };
        let r = publish_outcome(p, spawned, prev_port);
        assert(r == publish_result(ServerState { spawned, port: prev_port }, p));
        r
    }
}

} // verus!
