//! The tracing session: its lifecycle, the decision taken on each stop the
//! host reports, and the checks on memory transfers.

use vstd::prelude::*;

use crate::error::{is_gone, Error, OsError};
use crate::event::{MessageQueue, TraceEvent};
use crate::pid::Pid;

verus! {

/// Where a traced process stands in its lifecycle. A handle exists only once
/// spawning or attaching succeeded, so it never holds a state before that.
#[derive(Clone, Copy, Debug, PartialEq, Eq, Structural)]
pub enum ExecutionState {
    Running,
    Paused,
    Exited(i32),
    Killed,
    Detached,
    /// Tracing broke off without a report of how the process ended.
    Unknown,
}

/// What the host reported when waiting on the traced process, decoded into
/// the cases the session tells apart.
#[derive(Clone, Copy, Debug, PartialEq, Eq, Structural)]
pub enum Stop {
    /// A signal is about to be delivered; it is passed on when resuming.
    Signal(i32),
    /// The stop signal reached the process.
    Halt(i32),
    /// The trap signal that tracing itself raises (exec, breakpoint).
    Trap(i32),
    /// A system call boundary, with the call's number and current return value.
    Syscall { number: u64, value: i64 },
    /// The process exited with this code.
    Exited(i32),
    /// The process was ended by this signal.
    Terminated(i32),
    /// The host no longer knows the process as traced by this session.
    Lost,
    /// The wait returned nothing the session acts on (it was interrupted,
    /// or reported a resumption): wait again.
    Interrupted,
}

/// How to resume a stopped process.
#[derive(Clone, Copy, Debug, PartialEq, Eq, Structural)]
pub struct Resume {
    /// Stop again at the next system call boundary.
    pub syscalls: bool,
    /// Signal to deliver on resuming; 0 for none.
    pub signal: i32,
}

/// What the loop driving a session does after a stop was handled.
#[derive(Clone, Copy, Debug, PartialEq, Eq, Structural)]
pub enum Action {
    /// Resume the process as given and wait for its next stop.
    Resume(Resume),
    /// Leave the process stopped until the caller resumes it.
    Hold,
    /// Wait again without resuming.
    Wait,
    /// The session is over: leave the loop.
    Finish,
}

/// The abstract state of a session.
pub ghost struct Session {
    pub pid: Pid,
    pub state: ExecutionState,
    /// Whether resuming stops again at system call boundaries.
    pub syscalls: bool,
    /// Whether the last system call stop was an entry.
    pub in_syscall: bool,
    /// Whether a stop was requested and not yet observed.
    pub pause_requested: bool,
    /// Signal held back at a requested stop, delivered on the next resume; 0 for none.
    pub pending_signal: i32,
    /// Whether the driving loop has ended.
    pub finished: bool,
    /// Events queued and not yet taken.
    pub events: Seq<TraceEvent>,
}

/// Whether the process has left tracing for good.
pub open spec fn is_terminal(state: ExecutionState) -> bool {
    match state {
        ExecutionState::Exited(_)
        | ExecutionState::Killed
        | ExecutionState::Detached
        | ExecutionState::Unknown => true,
        _ => false,
    }
}

/// A pause request is only ever outstanding while the process runs.
pub open spec fn is_wf(s: Session) -> bool {
    s.pause_requested ==> s.state == ExecutionState::Running
}

/// Whether caller requests still act on the session.
pub open spec fn is_live(s: Session) -> bool {
    !s.finished && !is_terminal(s.state)
}

/// A fresh session, stopped before its first instruction runs unobserved.
pub open spec fn initial(pid: Pid, events: Seq<TraceEvent>) -> Session {
    Session {
        pid,
        state: ExecutionState::Paused,
        syscalls: false,
        in_syscall: false,
        pause_requested: false,
        pending_signal: 0,
        finished: false,
        events,
    }
}

/// The session once it is resumed: a syscall entry is only pending while
/// syscall stops are still asked for, and no signal is held back.
pub open spec fn resumed(s: Session) -> Session {
    Session {
        state: ExecutionState::Running,
        in_syscall: s.in_syscall && s.syscalls,
        pending_signal: 0,
        ..s
    }
}

/// Resume after a stop, delivering `signal`.
pub open spec fn resume_with(s: Session, signal: i32) -> (Session, Action) {
    (resumed(s), Action::Resume(Resume { syscalls: s.syscalls, signal }))
}

/// After a stop recorded as `events`, in which the process carries `signal`
/// for delivery: a requested pause holds the process here with the signal
/// kept for the next resume; otherwise the process is resumed with it.
pub open spec fn settle(s: Session, events: Seq<TraceEvent>, signal: i32) -> (Session, Action) {
    if s.pause_requested {
        (Session {
            state: ExecutionState::Paused,
            pause_requested: false,
            pending_signal: signal,
            events: events.push(TraceEvent::Paused),
            ..s
        }, Action::Hold)
    } else {
        resume_with(Session { events, ..s }, signal)
    }
}

/// The session ends after recording `events`.
pub open spec fn finish(s: Session, state: ExecutionState, events: Seq<TraceEvent>) -> (Session, Action) {
    (Session { state, finished: true, pause_requested: false, events, ..s }, Action::Finish)
}

/// How a session handles one stop reported by the host.
pub open spec fn step(s: Session, stop: Stop) -> (Session, Action) {
    if s.finished {
        (s, Action::Finish)
    } else if stop is Interrupted {
        (s, Action::Wait)
    } else if s.state == ExecutionState::Killed {
        finish(s, s.state, s.events.push(TraceEvent::Killed))
    } else if is_terminal(s.state) {
        finish(s, s.state, s.events)
    } else {
        match stop {
            Stop::Exited(code) =>
                finish(s, ExecutionState::Exited(code), s.events.push(TraceEvent::Exited(code))),
            Stop::Terminated(sig) =>
                finish(s, ExecutionState::Killed, s.events.push(TraceEvent::Terminated(sig))),
            Stop::Lost => finish(s, ExecutionState::Unknown, s.events),
            Stop::Halt(sig) =>
                if s.pause_requested {
                    settle(s, s.events, 0)
                } else {
                    settle(s, s.events.push(TraceEvent::Signal(sig)), 0)
                },
            Stop::Trap(sig) => settle(s, s.events.push(TraceEvent::Signal(sig)), 0),
            Stop::Signal(sig) => settle(s, s.events.push(TraceEvent::Signal(sig)), sig),
            Stop::Syscall { number, value } =>
                if s.in_syscall {
                    settle(
                        Session { in_syscall: false, ..s },
                        s.events.push(TraceEvent::SyscallExited { number, value }),
                        0,
                    )
                } else {
                    settle(
                        Session { in_syscall: true, ..s },
                        s.events.push(TraceEvent::SyscallEntered { number }),
                        0,
                    )
                },
            Stop::Interrupted => (s, Action::Wait),
        }
    }
}

/// The session once the caller killed the process.
pub open spec fn killed(s: Session) -> Session {
    Session { state: ExecutionState::Killed, pause_requested: false, ..s }
}

/// The session once the caller detached from the process.
pub open spec fn detached(s: Session) -> Session {
    Session { state: ExecutionState::Detached, pause_requested: false, ..s }
}

/// The session with syscall stops asked for or not.
pub open spec fn with_syscalls(s: Session, enabled: bool) -> Session {
    Session { syscalls: enabled, ..s }
}

/// Once a live session is killed, the next stop the host reports (other than
/// an interrupted wait) ends the driving loop with a single `Killed` event,
/// and no stop after that adds an event.
pub proof fn lemma_kill_ends_run(s: Session, stop: Stop, later: Stop)
    requires
        is_live(s),
        !(stop is Interrupted),
    ensures
        step(killed(s), stop).1 == Action::Finish,
        step(killed(s), stop).0.events == s.events.push(TraceEvent::Killed),
        step(step(killed(s), stop).0, later) == (step(killed(s), stop).0, Action::Finish),
{
}

/// Once a live session is detached, the next stop the host reports (other
/// than an interrupted wait) ends the driving loop without an event, and no
/// stop after that adds one.
pub proof fn lemma_detach_ends_reports(s: Session, stop: Stop, later: Stop)
    requires
        is_live(s),
        !(stop is Interrupted),
    ensures
        step(detached(s), stop).1 == Action::Finish,
        step(detached(s), stop).0.events == s.events,
        step(detached(s), stop).0.state == ExecutionState::Detached,
        step(step(detached(s), stop).0, later) == (step(detached(s), stop).0, Action::Finish),
{
}

/// Turning syscall tracing on before resuming a paused session resumes it with
/// syscall stops, and of the first two syscall stops that follow, at least
/// one is reported as an entry.
pub proof fn lemma_syscall_tracing_reports_entry(s: Session, n1: u64, v1: i64, n2: u64, v2: i64)
    requires
        is_wf(s),
        is_live(s),
        s.state == ExecutionState::Paused,
    ensures
        ({
            let t = resumed(with_syscalls(s, true));
            let (t1, a1) = step(t, Stop::Syscall { number: n1, value: v1 });
            let (t2, a2) = step(t1, Stop::Syscall { number: n2, value: v2 });
            &&& t.syscalls
            &&& a1 == Action::Resume(Resume { syscalls: true, signal: 0 })
            &&& a2 == Action::Resume(Resume { syscalls: true, signal: 0 })
            &&& (t1.events.last() == TraceEvent::SyscallEntered { number: n1 }
                || t2.events.last() == TraceEvent::SyscallEntered { number: n2 })
        }),
{
}

/// Handling a stop moves a session only along the lifecycle: a terminal
/// state is never left, a stop is entered only at the caller's request, and
/// an ended loop changes nothing.
pub proof fn lemma_step_follows_lifecycle(s: Session, stop: Stop)
    requires
        is_wf(s),
    ensures
        ({
            let t = step(s, stop).0;
            &&& is_wf(t)
            &&& is_terminal(s.state) ==> t.state == s.state
            &&& t.state == ExecutionState::Unknown ==> (s.state == ExecutionState::Unknown || stop is Lost)
            &&& (t.state == ExecutionState::Paused && s.state != ExecutionState::Paused) ==> s.pause_requested
            &&& t.state == ExecutionState::Detached ==> s.state == ExecutionState::Detached
            &&& s.finished ==> t == s
            &&& t.events.len() <= s.events.len() + 2
        }),
{
}

/// A stop requested of a running session takes hold at the very next stop
/// the host reports, whatever its kind, short of the process ending: the
/// stop is recorded, the process is held, and a signal it carried is kept for
/// the next resume.
pub proof fn lemma_pause_holds_at_next_stop(s: Session, stop: Stop)
    requires
        is_wf(s),
        is_live(s),
        s.state == ExecutionState::Running,
        stop is Signal || stop is Halt || stop is Trap || stop is Syscall,
    ensures
        ({
            let p = Session { pause_requested: true, ..s };
            let (t, a) = step(p, stop);
            &&& a == Action::Hold
            &&& t.state == ExecutionState::Paused
            &&& !t.pause_requested
            &&& t.events.last() == TraceEvent::Paused
            &&& t.pending_signal == (match stop {
                Stop::Signal(sig) => sig,
                _ => 0i32,
            })
        }),
{
}

/// Whether `path` holds a NUL character.
pub open spec fn has_nul(path: Seq<char>) -> bool {
    exists|i: int| 0 <= i < path.len() && path[i] == '\0'
}

/// A validated request to create a traced child process: its path holds no
/// NUL character.
pub struct SpawnRequest {
    queue: MessageQueue,
    path: String,
    args: Vec<String>,
}

/// A process under tracing.
pub struct Debugger {
    pid: Pid,
    queue: MessageQueue,
    state: ExecutionState,
    syscalls: bool,
    in_syscall: bool,
    pause_requested: bool,
    pending_signal: i32,
    finished: bool,
}

impl View for Debugger {
    type V = Session;

    closed spec fn view(&self) -> Session {
        Session {
            pid: self.pid,
            state: self.state,
            syscalls: self.syscalls,
            in_syscall: self.in_syscall,
            pause_requested: self.pause_requested && self.state == ExecutionState::Running,
            pending_signal: self.pending_signal,
            finished: self.finished,
            events: self.queue@,
        }
    }
}

fn contains_nul(path: &str) -> (r: bool)
    ensures
        r == has_nul(path@),
{
    let n = path.unicode_len();
    let mut i: usize = 0;
    while i < n
        invariant
            n == path@.len(),
            0 <= i <= n,
            forall|j: int| 0 <= j < i ==> path@[j] != '\0',
        decreases n - i,
    {
        if path.get_char(i) == '\0' {
            return true;
        }
        i = i + 1;
    }
    false
}

impl SpawnRequest {
    #[verifier::type_invariant]
    spec fn wf(&self) -> bool {
        !has_nul(self.path@)
    }

    /// The events queued before the process exists.
    pub closed spec fn queued(&self) -> Seq<TraceEvent> {
        self.queue@
    }

    /// The path of the program to run.
    pub closed spec fn spec_path(&self) -> Seq<char> {
        self.path@
    }

    /// The argument list, program name first by convention.
    pub closed spec fn spec_args(&self) -> Seq<String> {
        self.args@
    }

    /// The path of the program to run; it holds no NUL character.
    pub fn path(&self) -> (r: &str)
        ensures
            r@ == self.spec_path(),
            !has_nul(r@),
    {
        proof {
            use_type_invariant(self);
        }
        self.path.as_str()
    }

    /// The argument list.
    pub fn args(&self) -> (r: &Vec<String>)
        ensures
            r@ == self.spec_args(),
    {
        &self.args
    }

    /// Whether no event is queued yet.
    pub fn has_no_events(&self) -> (r: bool)
        ensures
            r == (self.queued().len() == 0),
    {
        self.queue.is_empty()
    }

    /// Takes the host's answer to creating the child: on success the child is
    /// traced and stopped before its first instruction.
    pub fn launched(self, outcome: Result<Pid, OsError>) -> (r: Result<Debugger, Error>)
        ensures
            match outcome {
                Ok(pid) => r is Ok && r->Ok_0@ == initial(pid, self.queued().push(TraceEvent::Spawned(pid))),
                Err(e) => r == Err::<Debugger, Error>(Error::Kernel(e)),
            },
    {
        match outcome {
            Ok(pid) => {
                let mut queue = self.queue;
                queue.push(TraceEvent::Spawned(pid));
                Ok(Debugger::new(pid, queue))
            },
            Err(e) => Err(Error::Kernel(e)),
        }
    }
}

impl Debugger {
    fn new(pid: Pid, queue: MessageQueue) -> (r: Debugger)
        ensures
            r@ == initial(pid, queue@),
    {
        Debugger {
            pid,
            queue,
            state: ExecutionState::Paused,
            syscalls: false,
            in_syscall: false,
            pause_requested: false,
            pending_signal: 0,
            finished: false,
        }
    }

    /// Prepares to run `path` with `args` under tracing. A path that the host
    /// cannot take as a C string is refused before anything is created.
    pub fn spawn(queue: MessageQueue, path: &str, args: Vec<String>) -> (r: Result<SpawnRequest, Error>)
        ensures
            has_nul(path@) <==> r is Err,
            has_nul(path@) ==> r == Err::<SpawnRequest, Error>(Error::InvalidPathName),
            !has_nul(path@) ==> r is Ok && r->Ok_0.spec_path() == path@ && r->Ok_0.spec_args() == args@
                && r->Ok_0.queued() == queue@,
    {
        if contains_nul(path) {
            Err(Error::InvalidPathName)
        } else {
            Ok(SpawnRequest { queue, path: path.to_owned(), args })
        }
    }

    /// Takes the host's answer to attaching to `pid`: on success the process is
    /// traced and stopped.
    pub fn attach(queue: MessageQueue, pid: Pid, outcome: Result<(), OsError>) -> (r: Result<Debugger, Error>)
        ensures
            match outcome {
                Ok(()) => r is Ok && r->Ok_0@ == initial(pid, queue@.push(TraceEvent::Attached(pid))),
                Err(e) => r == Err::<Debugger, Error>(Error::Kernel(e)),
            },
    {
        match outcome {
            Ok(()) => {
                let mut queue = queue;
                queue.push(TraceEvent::Attached(pid));
                Ok(Debugger::new(pid, queue))
            },
            Err(e) => Err(Error::Kernel(e)),
        }
    }

    /// The process under tracing.
    pub fn pid(&self) -> (r: Pid)
        ensures
            r == self@.pid,
    {
        self.pid
    }

    /// Where the process stands. The session it reports is well formed.
    pub fn state(&self) -> (r: ExecutionState)
        ensures
            r == self@.state,
            is_wf(self@),
    {
        self.state
    }

    /// Whether the driving loop has ended.
    pub fn is_finished(&self) -> (r: bool)
        ensures
            r == self@.finished,
    {
        self.finished
    }

    /// Takes every event queued so far, oldest first.
    pub fn take_events(&mut self) -> (r: Vec<TraceEvent>)
        ensures
            r@ == old(self)@.events,
            final(self)@ == (Session { events: Seq::empty(), ..old(self)@ }),
    {
        self.queue.drain()
    }

    /// Chooses whether resuming stops again at system call boundaries; it
    /// takes effect from the next resume on.
    pub fn trace_syscalls(&mut self, enabled: bool)
        ensures
            final(self)@ == with_syscalls(old(self)@, enabled),
    {
        self.syscalls = enabled;
    }

    /// Handles one stop reported by the host and says what the driving loop
    /// does next.
    pub fn handle_stop(&mut self, stop: Stop) -> (r: Action)
        ensures
            (final(self)@, r) == step(old(self)@, stop),
    {
        if self.finished {
            return Action::Finish;
        }
        if let Stop::Interrupted = stop {
            return Action::Wait;
        }
        match self.state {
            ExecutionState::Killed => {
                self.queue.push(TraceEvent::Killed);
                self.pause_requested = false;
                self.finished = true;
                return Action::Finish;
            },
            ExecutionState::Detached | ExecutionState::Exited(_) | ExecutionState::Unknown => {
                self.pause_requested = false;
                self.finished = true;
                return Action::Finish;
            },
            _ => {},
        }
        match stop {
            Stop::Exited(code) => {
                self.queue.push(TraceEvent::Exited(code));
                self.pause_requested = false;
                self.state = ExecutionState::Exited(code);
                self.finished = true;
                Action::Finish
            },
            Stop::Terminated(sig) => {
                self.queue.push(TraceEvent::Terminated(sig));
                self.pause_requested = false;
                self.state = ExecutionState::Killed;
                self.finished = true;
                Action::Finish
            },
            Stop::Lost => {
                self.pause_requested = false;
                self.state = ExecutionState::Unknown;
                self.finished = true;
                Action::Finish
            },
            Stop::Halt(sig) => {
                if !(self.pause_requested && self.state == ExecutionState::Running) {
                    self.queue.push(TraceEvent::Signal(sig));
                }
                self.settle(0)
            },
            Stop::Trap(sig) => {
                self.queue.push(TraceEvent::Signal(sig));
                self.settle(0)
            },
            Stop::Signal(sig) => {
                self.queue.push(TraceEvent::Signal(sig));
                self.settle(sig)
            },
            Stop::Syscall { number, value } => {
                if self.in_syscall {
                    self.queue.push(TraceEvent::SyscallExited { number, value });
                    self.in_syscall = false;
                } else {
                    self.queue.push(TraceEvent::SyscallEntered { number });
                    self.in_syscall = true;
                }
                self.settle(0)
            },
            Stop::Interrupted => Action::Wait,
        }
    }

    /// Holds the process where a pause was requested, else resumes it.
    fn settle(&mut self, signal: i32) -> (r: Action)
        ensures
            (final(self)@, r) == settle(old(self)@, old(self)@.events, signal),
    {
        if self.pause_requested && self.state == ExecutionState::Running {
            self.pause_requested = false;
            self.queue.push(TraceEvent::Paused);
            self.state = ExecutionState::Paused;
            self.pending_signal = signal;
            Action::Hold
        } else {
            self.resume(signal)
        }
    }

    fn resume(&mut self, signal: i32) -> (r: Action)
        ensures
            (final(self)@, r) == resume_with(old(self)@, signal),
    {
        self.pause_requested = self.pause_requested && self.state == ExecutionState::Running;
        self.state = ExecutionState::Running;
        self.in_syscall = self.in_syscall && self.syscalls;
        self.pending_signal = 0;
        Action::Resume(Resume { syscalls: self.syscalls, signal })
    }

    /// Asks a running process to stop. Returns whether the host must be sent
    /// the stop request; the stop itself is observed by the driving loop.
    pub fn pause(&mut self) -> (r: bool)
        ensures
            r == (is_live(old(self)@) && old(self)@.state == ExecutionState::Running),
            final(self)@ == (if r { Session { pause_requested: true, ..old(self)@ } } else { old(self)@ }),
    {
        if !self.finished && self.state == ExecutionState::Running {
            self.pause_requested = true;
            true
        } else {
            false
        }
    }

    /// Resumes a paused process, delivering any signal held back when it
    /// stopped. Returns how the host resumes it, or `None` where the process
    /// is not paused.
    pub fn kontinue(&mut self) -> (r: Option<Resume>)
        ensures
            (is_live(old(self)@) && old(self)@.state == ExecutionState::Paused) ==> r == Some(
                Resume { syscalls: old(self)@.syscalls, signal: old(self)@.pending_signal },
            ) && final(self)@ == resumed(old(self)@),
            !(is_live(old(self)@) && old(self)@.state == ExecutionState::Paused) ==> r is None
                && final(self)@ == old(self)@,
    {
        if !self.finished && self.state == ExecutionState::Paused {
            match self.resume(self.pending_signal) {
                Action::Resume(how) => Some(how),
                _ => None,
            }
        } else {
            None
        }
    }

    /// Ends the process. Returns whether the host must be told to kill it;
    /// the driving loop then reports the kill and stops.
    pub fn kill(&mut self) -> (r: bool)
        ensures
            r == is_live(old(self)@),
            final(self)@ == (if r { killed(old(self)@) } else { old(self)@ }),
    {
        if !self.finished && !self.is_terminal() {
            self.pause_requested = false;
            self.state = ExecutionState::Killed;
            true
        } else {
            false
        }
    }

    /// Leaves the process running on its own. Returns whether the host must be
    /// told to stop tracing it; this cannot be undone.
    pub fn detach(&mut self) -> (r: bool)
        ensures
            r == is_live(old(self)@),
            final(self)@ == (if r { detached(old(self)@) } else { old(self)@ }),
    {
        if !self.finished && !self.is_terminal() {
            self.pause_requested = false;
            self.state = ExecutionState::Detached;
            true
        } else {
            false
        }
    }

    fn is_terminal(&self) -> (r: bool)
        ensures
            r == is_terminal(self@.state),
    {
        match self.state {
            ExecutionState::Exited(_)
            | ExecutionState::Killed
            | ExecutionState::Detached
            | ExecutionState::Unknown => true,
            _ => false,
        }
    }

    /// Whether the process memory may be accessed: only while the session is
    /// live. Callers ask before making the host call.
    pub fn memory_access(&self) -> (r: Result<(), Error>)
        ensures
            r is Ok <==> is_live(self@),
            r is Err ==> is_gone(r->Err_0),
    {
        if !self.finished && !self.is_terminal() {
            Ok(())
        } else {
            Err(Error::Kernel(OsError::no_such_process()))
        }
    }

    /// Checks what the host copied out of the process for a read of `length`
    /// bytes: all of it, or the counts of a short read. Once the session is
    /// no longer live the read is refused, whatever the host answered.
    pub fn read_process_memory(&self, length: usize, transferred: Result<Vec<u8>, OsError>) -> (r: Result<Vec<u8>, Error>)
        requires
            transferred is Ok ==> transferred->Ok_0@.len() <= length,
        ensures
            !is_live(self@) ==> r is Err && is_gone(r->Err_0),
            is_live(self@) ==> match transferred {
                Ok(bytes) => if bytes@.len() == length {
                    r is Ok && r->Ok_0@ == bytes@
                } else {
                    r == Err::<Vec<u8>, Error>(Error::IncompleteRead(length, bytes@.len() as usize))
                },
                Err(e) => r == Err::<Vec<u8>, Error>(Error::Kernel(e)),
            },
    {
        if let Err(e) = self.memory_access() {
            return Err(e);
        }
        match transferred {
            Ok(bytes) => {
                if bytes.len() == length {
                    Ok(bytes)
                } else {
                    Err(Error::IncompleteRead(length, bytes.len()))
                }
            },
            Err(e) => Err(Error::Kernel(e)),
        }
    }

    /// Checks what the host reported of a write of `bytes`: all of them, or
    /// the counts of a short write. Once the session is no longer live the
    /// write is refused, whatever the host answered.
    pub fn write_process_memory(&mut self, bytes: &[u8], written: Result<usize, OsError>) -> (r: Result<(), Error>)
        requires
            written is Ok ==> written->Ok_0 <= bytes@.len(),
        ensures
            final(self)@ == old(self)@,
            !is_live(old(self)@) ==> r is Err && is_gone(r->Err_0),
            is_live(old(self)@) ==> match written {
                Ok(n) => if n == bytes@.len() {
                    r is Ok
                } else {
                    r == Err::<(), Error>(Error::IncompleteWrite(bytes@.len() as usize, n))
                },
                Err(e) => r == Err::<(), Error>(Error::Kernel(e)),
            },
    {
        if let Err(e) = self.memory_access() {
            return Err(e);
        }
        match written {
            Ok(n) => {
                if n == bytes.len() {
                    Ok(())
                } else {
                    Err(Error::IncompleteWrite(bytes.len(), n))
                }
            },
            Err(e) => Err(Error::Kernel(e)),
        }
    }
}

} // verus!
