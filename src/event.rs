use vstd::prelude::*;

use crate::pid::Pid;

verus! {

/// A decoded notification about the traced process.
#[derive(Clone, Copy, Debug, PartialEq, Eq, Structural)]
pub enum TraceEvent {
    /// A fresh child was created under tracing.
    Spawned(Pid),
    /// Tracing was attached to a running process.
    Attached(Pid),
    /// The process entered the system call with this number.
    SyscallEntered { number: u64 },
    /// The process left the system call with this number, returning `value`.
    SyscallExited { number: u64, value: i64 },
    /// A signal reached the process.
    Signal(i32),
    /// The process stopped at the caller's request.
    Paused,
    /// The process exited with this code.
    Exited(i32),
    /// The process was ended by this signal.
    Terminated(i32),
    /// The process was killed by the session.
    Killed,
}

/// A first-in, first-out queue of trace events.
pub struct MessageQueue {
    events: Vec<TraceEvent>,
}

impl View for MessageQueue {
    type V = Seq<TraceEvent>;

    closed spec fn view(&self) -> Seq<TraceEvent> {
        self.events@
    }
}

impl MessageQueue {
    /// An empty queue.
    pub fn new() -> (r: MessageQueue)
        ensures
            r@ == Seq::<TraceEvent>::empty(),
    {
        MessageQueue { events: Vec::new() }
    }

    /// Adds an event behind every event already queued.
    pub fn push(&mut self, event: TraceEvent)
        ensures
            final(self)@ == old(self)@.push(event),
    {
        self.events.push(event);
    }

    /// Removes and returns the oldest event, if any.
    pub fn pop(&mut self) -> (r: Option<TraceEvent>)
        ensures
            old(self)@.len() == 0 ==> r is None && final(self)@ == old(self)@,
            old(self)@.len() > 0 ==> r == Some(old(self)@[0]) && final(self)@ == old(self)@.drop_first(),
    {
        if self.events.len() == 0 {
            None
        } else {
            let e = self.events.remove(0);
            proof {
                assert(self.events@ =~= old(self)@.drop_first());
            }
            Some(e)
        }
    }

    /// Removes every queued event and returns them, oldest first.
    pub fn drain(&mut self) -> (r: Vec<TraceEvent>)
        ensures
            r@ == old(self)@,
            final(self)@ == Seq::<TraceEvent>::empty(),
    {
        let mut out: Vec<TraceEvent> = Vec::new();
        std::mem::swap(&mut out, &mut self.events);
        out
    }

    /// The number of queued events.
    pub fn len(&self) -> (r: usize)
        ensures
            r == self@.len(),
    {
        self.events.len()
    }

    /// Whether no event is queued.
    pub fn is_empty(&self) -> (r: bool)
        ensures
            r == (self@.len() == 0),
    {
        self.events.len() == 0
    }
}

} // verus!
