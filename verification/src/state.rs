//! Shared connection state and command dispatch.
//!
//! One `ConnectionState` exists per protocol. The surrounding application
//! keeps it under a mutual-exclusion lock; every method here is a short
//! critical section with no suspension point inside. The supervisor stores
//! and clears the write handle; the dispatcher reads it to decide whether a
//! command can go out.
use vstd::prelude::*;

verus! {

/// Holder of the live outbound half of one protocol's transport, plus the
/// guard flag that keeps a second supervisor loop from being spawned for the
/// same protocol.
pub struct ConnectionState<T> {
    /// The outbound write handle, present exactly while connected.
    pub write_handle: Option<T>,
    /// True from the first accepted start request on; a start request that
    /// finds it set is a no-op.
    pub is_connecting: bool,
}

impl<T> ConnectionState<T> {
    /// The state a protocol begins in: no handle, no supervisor running.
    pub fn new() -> (s: ConnectionState<T>)
        ensures
            s.write_handle is None,
            !s.is_connecting,
    {
        ConnectionState { write_handle: None, is_connecting: false }
    }

    /// Check-then-set of the guard flag, done as one step under the state's
    /// lock: returns true — the caller may spawn the supervisor loop — only
    /// if no earlier start request was accepted; afterwards the flag is set
    /// either way, so of any number of start requests exactly the first
    /// spawns a loop.
    pub fn begin_connect(&mut self) -> (started: bool)
        ensures
            started == !old(self).is_connecting,
            final(self).is_connecting,
            final(self).write_handle == old(self).write_handle,
    {
        if self.is_connecting {
            false
        } else {
            self.is_connecting = true;
            true
        }
    }

    /// Store the write half of a freshly connected transport.
    pub fn publish(&mut self, handle: T)
        ensures
            final(self).write_handle == Some(handle),
            final(self).is_connecting == old(self).is_connecting,
    {
        self.write_handle = Some(handle);
    }

    /// Drop the write handle on disconnect or error.
    pub fn clear(&mut self)
        ensures
            final(self).write_handle is None,
            final(self).is_connecting == old(self).is_connecting,
    {
        self.write_handle = None;
    }

    /// Whether a command sent now would reach a live transport.
    pub fn has_handle(&self) -> (r: bool)
        ensures
            r == (self.write_handle is Some),
    {
        match &self.write_handle {
            Some(_) => true,
            None => false,
        }
    }
}

/// The start guard admits exactly one of two requests. The state's lock
/// serializes two concurrent start requests into two `begin_connect` calls
/// in some order; whichever order, the later call finds the flag set and is
/// refused, so at most one caller spawns a supervisor loop — and on a fresh
/// state, exactly one. The `requires` are the two calls' contracts in
/// sequence: `s0` before the first call, `s1` between, `s2` after.
pub proof fn lemma_start_guard_serializes<T>(
    s0: ConnectionState<T>,
    s1: ConnectionState<T>,
    s2: ConnectionState<T>,
    r1: bool,
    r2: bool,
)
    requires
        r1 == !s0.is_connecting,
        s1.is_connecting,
        r2 == !s1.is_connecting,
        s2.is_connecting,
    ensures
        !r2,
        !s0.is_connecting ==> r1 && !r2,
{
}

/// The terminator appended to every outbound line-protocol command.
pub open spec fn crlf() -> Seq<u8> {
    seq![13u8, 10u8]
}

/// A line-protocol command as written to the wire: the command text with
/// `\r\n` appended.
pub fn frame_line_command(cmd: &[u8]) -> (w: Vec<u8>)
    ensures
        w@ == cmd@ + crlf(),
{
    let mut w: Vec<u8> = Vec::new();
    let mut i: usize = 0;
    while i < cmd.len()
        invariant
            0 <= i <= cmd@.len(),
            w@ == cmd@.take(i as int),
        decreases cmd@.len() - i,
    {
        w.push(cmd[i]);
        proof {
            assert(cmd@.take(i + 1) =~= cmd@.take(i as int).push(cmd@[i as int]));
        }
        i = i + 1;
    }
    w.push(13);
    w.push(10);
    proof {
        assert(cmd@.take(cmd@.len() as int) =~= cmd@);
        assert(w@ =~= cmd@ + crlf());
    }
    w
}

/// Decide one line-protocol send. With a write handle present the command
/// goes out with `\r\n` appended (the caller writes and flushes it); with
/// none the command is dropped: the caller performs no I/O, and the send
/// still reports success — a deliberate best-effort policy, not an error.
pub fn plan_send_line<T>(conn: &ConnectionState<T>, cmd: &[u8]) -> (plan: Option<Vec<u8>>)
    ensures
        (plan is Some) <==> (conn.write_handle is Some),
        plan matches Some(w) ==> w@ == cmd@ + crlf(),
{
    if conn.has_handle() {
        Some(frame_line_command(cmd))
    } else {
        None
    }
}

/// Decide one WebSocket send. With a write handle present the command goes
/// out verbatim as a single text frame; with none it is dropped, again with
/// success reported to the caller.
pub fn plan_send_ws<T>(conn: &ConnectionState<T>, cmd: String) -> (plan: Option<String>)
    ensures
        (plan is Some) <==> (conn.write_handle is Some),
        plan matches Some(t) ==> t@ == cmd@,
{
    if conn.has_handle() {
        Some(cmd)
    } else {
        None
    }
}

} // verus!
