//! Lifecycle of the connection to the kernel queueing subsystem, as a state
//! machine: setup (open, unbind, bind, create queue, set copy mode), the
//! non-blocking receive/parse loop, and teardown (destroy queue, close
//! handle).
//!
//! The machine is driven from outside: the surrounding program performs the
//! call named by each [`Action`], reports its outcome as an [`Event`], and
//! the [`Controller`] decides the next state and action. Every setup failure
//! is fatal; a failed parse is logged and the loop continues; a blocking
//! receive silently retries.

use crate::config::{CopyMode, ProtocolFamily, QueueConfig};
use vstd::prelude::*;

verus! {

/// What the process is waiting on next.
#[derive(Clone, Copy, Debug, PartialEq, Eq, Structural)]
pub enum LifecycleState {
    /// Nothing has happened yet.
    Idle,
    /// The open call is in flight.
    AwaitOpen,
    /// The unbind call for the protocol family is in flight.
    AwaitUnbind,
    /// The bind call for the protocol family is in flight.
    AwaitBind,
    /// The create-queue call is in flight.
    AwaitCreateQueue,
    /// The set-copy-mode call is in flight.
    AwaitSetMode,
    /// The lookup of the connection's socket descriptor is in flight.
    AwaitSocket,
    /// In the loop: a non-blocking receive on socket `fd` is in flight.
    AwaitRecv { fd: i32 },
    /// In the loop: a buffer received on socket `fd` is with the
    /// subsystem's parser.
    AwaitParse { fd: i32 },
    /// Tearing down: the destroy-queue call is in flight.
    AwaitDestroy,
    /// Tearing down: the close-handle call is in flight.
    AwaitClose,
    /// Teardown finished; the connection is gone.
    Finished,
    /// A setup call failed; the process is aborting.
    Failed,
}

/// The outcome of one outside call, reported back to the controller.
#[derive(Clone, Copy, Debug, PartialEq, Eq)]
pub enum Event {
    /// Begin: nothing has been called yet.
    Start,
    /// The open call returned; `handle_valid` is false on a null handle.
    OpenReturned { handle_valid: bool },
    /// The unbind call returned this code; negative means failure.
    UnbindReturned { rc: i32 },
    /// The bind call returned this code; negative means failure.
    BindReturned { rc: i32 },
    /// The create-queue call returned; `descriptor_valid` is false on a null
    /// descriptor.
    CreateQueueReturned { descriptor_valid: bool },
    /// The set-copy-mode call returned this code; negative means failure.
    SetModeReturned { rc: i32 },
    /// The socket-descriptor lookup returned `fd`.
    SocketObtained { fd: i32 },
    /// The non-blocking receive returned this value; negative means no data
    /// was available (or any other receive error), non-negative is the
    /// number of bytes received.
    RecvReturned { received: isize },
    /// The parse-and-dispatch call returned this code; negative means the
    /// buffer could not be processed.
    ParseReturned { rc: i32 },
    /// A termination signal: leave the loop and tear the connection down.
    ShutdownRequested,
    /// The destroy-queue call completed.
    DestroyCompleted,
    /// The close-handle call completed.
    CloseCompleted,
}

/// Which setup call failed. Every one of these is fatal: the process cannot
/// intercept traffic at all and must terminate with a diagnostic.
#[derive(Clone, Copy, Debug, PartialEq, Eq, Structural)]
pub enum SetupError {
    /// The subsystem returned a null handle.
    OpenFailed,
    /// Unbinding the protocol family failed.
    UnbindFailed,
    /// Binding the protocol family failed.
    BindFailed,
    /// The subsystem returned a null queue descriptor.
    CreateQueueFailed,
    /// Configuring the copy mode failed.
    SetModeFailed,
}

impl SetupError {
    /// The diagnostic to print to the standard error stream before the
    /// process terminates.
    pub fn diagnostic(&self) -> (m: &'static str)
        ensures
            *self == SetupError::OpenFailed ==> m@ == "Could not open handler"@,
            *self == SetupError::UnbindFailed ==> m@ == "Failed to unbind"@,
            *self == SetupError::BindFailed ==> m@ == "Failed to bind"@,
            *self == SetupError::CreateQueueFailed ==> m@ == "Could not create queue"@,
            *self == SetupError::SetModeFailed ==> m@ == "Could not set mode"@,
    {
        match self {
            SetupError::OpenFailed => "Could not open handler",
            SetupError::UnbindFailed => "Failed to unbind",
            SetupError::BindFailed => "Failed to bind",
            SetupError::CreateQueueFailed => "Could not create queue",
            SetupError::SetModeFailed => "Could not set mode",
        }
    }
}

/// The next call the surrounding program must perform, with its arguments.
#[derive(Clone, Copy, Debug, PartialEq, Eq, Structural)]
pub enum Action {
    /// Open a handle to the queueing subsystem.
    Open,
    /// Release any existing binding for the family, stale ones included.
    Unbind { family: ProtocolFamily },
    /// Register this handle as the receiver for the family's packets.
    Bind { family: ProtocolFamily },
    /// Create the numbered queue and register the per-packet callback.
    CreateQueue { queue_num: u16 },
    /// Configure how much of each packet the kernel copies.
    SetMode { copy_mode: CopyMode, copy_range: u32 },
    /// Look up the connection's underlying socket descriptor, which the
    /// receive loop uses from then on.
    ObtainSocket,
    /// Issue a non-blocking receive on socket `fd`.
    Receive { fd: i32 },
    /// Hand the received `len` bytes to the subsystem's parser, which
    /// invokes the registered callback once per contained packet.
    Parse { len: usize },
    /// Print one diagnostic line for the failed parse, then receive again on
    /// the same socket `fd`, still valid. This is the only recoverable error
    /// path.
    LogParseErrorThenReceive { fd: i32 },
    /// Destroy the queue descriptor. Must precede the handle close.
    DestroyQueue,
    /// Close the subsystem handle: the final subsystem call.
    CloseHandle,
    /// Teardown is complete; nothing remains to call.
    Done,
    /// Terminate the process with the error's diagnostic.
    Fail { error: SetupError },
}

/// One step of the lifecycle machine: in state `s`, event `e` leads to the
/// next state and the next action, or to nothing when `e` is not the outcome
/// the state waits on.
pub open spec fn spec_step(c: QueueConfig, s: LifecycleState, e: Event) -> Option<
    (LifecycleState, Action),
> {
    match (s, e) {
        (LifecycleState::Idle, Event::Start) => Some(
            (LifecycleState::AwaitOpen, Action::Open),
        ),
        (LifecycleState::AwaitOpen, Event::OpenReturned { handle_valid }) => if handle_valid {
            Some((LifecycleState::AwaitUnbind, Action::Unbind { family: c.family }))
        } else {
            Some((LifecycleState::Failed, Action::Fail { error: SetupError::OpenFailed }))
        },
        (LifecycleState::AwaitUnbind, Event::UnbindReturned { rc }) => if rc >= 0 {
            Some((LifecycleState::AwaitBind, Action::Bind { family: c.family }))
        } else {
            Some((LifecycleState::Failed, Action::Fail { error: SetupError::UnbindFailed }))
        },
        (LifecycleState::AwaitBind, Event::BindReturned { rc }) => if rc >= 0 {
            Some((LifecycleState::AwaitCreateQueue, Action::CreateQueue { queue_num: c.queue_num }))
        } else {
            Some((LifecycleState::Failed, Action::Fail { error: SetupError::BindFailed }))
        },
        (LifecycleState::AwaitCreateQueue, Event::CreateQueueReturned { descriptor_valid }) => if descriptor_valid {
            Some(
                (
                    LifecycleState::AwaitSetMode,
                    Action::SetMode { copy_mode: c.copy_mode, copy_range: c.copy_range },
                ),
            )
        } else {
            Some((LifecycleState::Failed, Action::Fail { error: SetupError::CreateQueueFailed }))
        },
        (LifecycleState::AwaitSetMode, Event::SetModeReturned { rc }) => if rc >= 0 {
            Some((LifecycleState::AwaitSocket, Action::ObtainSocket))
        } else {
            Some((LifecycleState::Failed, Action::Fail { error: SetupError::SetModeFailed }))
        },
        (LifecycleState::AwaitSocket, Event::SocketObtained { fd }) => Some(
            (LifecycleState::AwaitRecv { fd }, Action::Receive { fd }),
        ),
        (LifecycleState::AwaitRecv { fd }, Event::RecvReturned { received }) => if received < 0 {
            Some((LifecycleState::AwaitRecv { fd }, Action::Receive { fd }))
        } else {
            Some((LifecycleState::AwaitParse { fd }, Action::Parse { len: received as usize }))
        },
        (LifecycleState::AwaitRecv { .. }, Event::ShutdownRequested) => Some(
            (LifecycleState::AwaitDestroy, Action::DestroyQueue),
        ),
        (LifecycleState::AwaitParse { fd }, Event::ParseReturned { rc }) => if rc < 0 {
            Some((LifecycleState::AwaitRecv { fd }, Action::LogParseErrorThenReceive { fd }))
        } else {
            Some((LifecycleState::AwaitRecv { fd }, Action::Receive { fd }))
        },
        (LifecycleState::AwaitDestroy, Event::DestroyCompleted) => Some(
            (LifecycleState::AwaitClose, Action::CloseHandle),
        ),
        (LifecycleState::AwaitClose, Event::CloseCompleted) => Some(
            (LifecycleState::Finished, Action::Done),
        ),
        _ => None,
    }
}

/// Whether `e` is an outcome state `s` waits on. The configuration never
/// affects this.
pub open spec fn expects(s: LifecycleState, e: Event) -> bool {
    match (s, e) {
        (LifecycleState::Idle, Event::Start) => true,
        (LifecycleState::AwaitOpen, Event::OpenReturned { .. }) => true,
        (LifecycleState::AwaitUnbind, Event::UnbindReturned { .. }) => true,
        (LifecycleState::AwaitBind, Event::BindReturned { .. }) => true,
        (LifecycleState::AwaitCreateQueue, Event::CreateQueueReturned { .. }) => true,
        (LifecycleState::AwaitSetMode, Event::SetModeReturned { .. }) => true,
        (LifecycleState::AwaitSocket, Event::SocketObtained { .. }) => true,
        (LifecycleState::AwaitRecv { .. }, Event::RecvReturned { .. }) => true,
        (LifecycleState::AwaitRecv { .. }, Event::ShutdownRequested) => true,
        (LifecycleState::AwaitParse { .. }, Event::ParseReturned { .. }) => true,
        (LifecycleState::AwaitDestroy, Event::DestroyCompleted) => true,
        (LifecycleState::AwaitClose, Event::CloseCompleted) => true,
        _ => false,
    }
}

/// The queue controller: the configuration, and where in the lifecycle the
/// connection stands. The surrounding program performs each action this
/// controller hands out and reports the outcome back through [`Controller::step`].
pub struct Controller {
    /// The configuration every setup argument is drawn from.
    pub config: QueueConfig,
    /// Where in the lifecycle the connection stands.
    pub state: LifecycleState,
}

impl Controller {
    /// A controller for one connection, before anything has been called.
    pub fn new(config: QueueConfig) -> (c: Controller)
        ensures
            c.config == config,
            c.state == LifecycleState::Idle,
    {
        Controller { config, state: LifecycleState::Idle }
    }

    /// Whether `event` is the outcome the controller is waiting on.
    pub fn accepts(&self, event: &Event) -> (b: bool)
        ensures
            b == expects(self.state, *event),
    {
        match (self.state, *event) {
            (LifecycleState::Idle, Event::Start) => true,
            (LifecycleState::AwaitOpen, Event::OpenReturned { .. }) => true,
            (LifecycleState::AwaitUnbind, Event::UnbindReturned { .. }) => true,
            (LifecycleState::AwaitBind, Event::BindReturned { .. }) => true,
            (LifecycleState::AwaitCreateQueue, Event::CreateQueueReturned { .. }) => true,
            (LifecycleState::AwaitSetMode, Event::SetModeReturned { .. }) => true,
            (LifecycleState::AwaitSocket, Event::SocketObtained { .. }) => true,
            (LifecycleState::AwaitRecv { .. }, Event::RecvReturned { .. }) => true,
            (LifecycleState::AwaitRecv { .. }, Event::ShutdownRequested) => true,
            (LifecycleState::AwaitParse { .. }, Event::ParseReturned { .. }) => true,
            (LifecycleState::AwaitDestroy, Event::DestroyCompleted) => true,
            (LifecycleState::AwaitClose, Event::CloseCompleted) => true,
            _ => false,
        }
    }

    /// Digest the outcome of the last call and decide the next action:
    /// exactly the step of [`spec_step`]. The configuration never changes.
    pub fn step(&mut self, event: Event) -> (action: Action)
        requires
            expects(old(self).state, event),
        ensures
            final(self).config == old(self).config,
            spec_step(old(self).config, old(self).state, event) == Some(
                (final(self).state, action),
            ),
    {
        let (next, action): (LifecycleState, Action) = match (self.state, event) {
            (LifecycleState::Idle, Event::Start) => (LifecycleState::AwaitOpen, Action::Open),
            (LifecycleState::AwaitOpen, Event::OpenReturned { handle_valid }) => if handle_valid {
                (LifecycleState::AwaitUnbind, Action::Unbind { family: self.config.family })
            } else {
                (LifecycleState::Failed, Action::Fail { error: SetupError::OpenFailed })
            },
            (LifecycleState::AwaitUnbind, Event::UnbindReturned { rc }) => if rc >= 0 {
                (LifecycleState::AwaitBind, Action::Bind { family: self.config.family })
            } else {
                (LifecycleState::Failed, Action::Fail { error: SetupError::UnbindFailed })
            },
            (LifecycleState::AwaitBind, Event::BindReturned { rc }) => if rc >= 0 {
                (
                    LifecycleState::AwaitCreateQueue,
                    Action::CreateQueue { queue_num: self.config.queue_num },
                )
            } else {
                (LifecycleState::Failed, Action::Fail { error: SetupError::BindFailed })
            },
            (
                LifecycleState::AwaitCreateQueue,
                Event::CreateQueueReturned { descriptor_valid },
            ) => if descriptor_valid {
                (
                    LifecycleState::AwaitSetMode,
                    Action::SetMode {
                        copy_mode: self.config.copy_mode,
                        copy_range: self.config.copy_range,
                    },
                )
            } else {
                (LifecycleState::Failed, Action::Fail { error: SetupError::CreateQueueFailed })
            },
            (LifecycleState::AwaitSetMode, Event::SetModeReturned { rc }) => if rc >= 0 {
                (LifecycleState::AwaitSocket, Action::ObtainSocket)
            } else {
                (LifecycleState::Failed, Action::Fail { error: SetupError::SetModeFailed })
            },
            (LifecycleState::AwaitSocket, Event::SocketObtained { fd }) => (
                LifecycleState::AwaitRecv { fd },
                Action::Receive { fd },
            ),
            (LifecycleState::AwaitRecv { fd }, Event::RecvReturned { received }) => if received
                < 0 {
                (LifecycleState::AwaitRecv { fd }, Action::Receive { fd })
            } else {
                (LifecycleState::AwaitParse { fd }, Action::Parse { len: received as usize })
            },
            (LifecycleState::AwaitRecv { .. }, Event::ShutdownRequested) => (
                LifecycleState::AwaitDestroy,
                Action::DestroyQueue,
            ),
            (LifecycleState::AwaitParse { fd }, Event::ParseReturned { rc }) => if rc < 0 {
                (LifecycleState::AwaitRecv { fd }, Action::LogParseErrorThenReceive { fd })
            } else {
                (LifecycleState::AwaitRecv { fd }, Action::Receive { fd })
            },
            (LifecycleState::AwaitDestroy, Event::DestroyCompleted) => (
                LifecycleState::AwaitClose,
                Action::CloseHandle,
            ),
            (LifecycleState::AwaitClose, Event::CloseCompleted) => (
                LifecycleState::Finished,
                Action::Done,
            ),
            _ => unreached(),
        };
        self.state = next;
        action
    }
}

/// The state the machine reaches from `s0` after the first `n` events of
/// `events`. An event a state does not expect leaves the state as it is; a
/// valid run (see [`valid_run_from`]) has no such event.
pub open spec fn state_from(
    c: QueueConfig,
    s0: LifecycleState,
    events: Seq<Event>,
    n: int,
) -> LifecycleState
    decreases n,
{
    if n <= 0 {
        s0
    } else {
        let prev = state_from(c, s0, events, n - 1);
        if expects(prev, events[n - 1]) {
            (spec_step(c, prev, events[n - 1])->0).0
        } else {
            prev
        }
    }
}

/// The action the machine issues when it consumes event `i` of a run from
/// `s0`.
pub open spec fn action_from(c: QueueConfig, s0: LifecycleState, events: Seq<Event>, i: int) -> Action {
    (spec_step(c, state_from(c, s0, events, i), events[i])->0).1
}

/// A run from `s0`: every event is the outcome the state reached before it
/// waits on.
pub open spec fn valid_run_from(c: QueueConfig, s0: LifecycleState, events: Seq<Event>) -> bool {
    forall|i: int|
        0 <= i < events.len() ==> expects(state_from(c, s0, events, i), #[trigger] events[i])
}

/// Law (idempotent setup): in every run of the machine from the beginning,
/// a bind request is issued only on the step right after an unbind request
/// for the same family completed without error — the unbind is attempted
/// unconditionally first, whatever binding a previous run may have left
/// behind, so a stale binding cannot block the bind.
pub proof fn lemma_unbind_precedes_bind(c: QueueConfig, events: Seq<Event>, i: int)
    requires
        valid_run_from(c, LifecycleState::Idle, events),
        0 <= i < events.len(),
        action_from(c, LifecycleState::Idle, events, i) matches Action::Bind { .. },
    ensures
        1 <= i,
        action_from(c, LifecycleState::Idle, events, i - 1) == (Action::Unbind {
            family: c.family,
        }),
        action_from(c, LifecycleState::Idle, events, i) == (Action::Bind { family: c.family }),
{
    assert(state_from(c, LifecycleState::Idle, events, i) == LifecycleState::AwaitUnbind);
    assert(expects(state_from(c, LifecycleState::Idle, events, i - 1), events[i - 1]));
}

/// Law (teardown ordering, first half): in every run from the beginning, the
/// close-handle call is issued only on the step right after the destroy-queue
/// call completed — the queue is destroyed before its parent handle is
/// closed.
pub proof fn lemma_destroy_precedes_close(c: QueueConfig, events: Seq<Event>, i: int)
    requires
        valid_run_from(c, LifecycleState::Idle, events),
        0 <= i < events.len(),
        action_from(c, LifecycleState::Idle, events, i) == Action::CloseHandle,
    ensures
        1 <= i,
        action_from(c, LifecycleState::Idle, events, i - 1) == Action::DestroyQueue,
{
    assert(state_from(c, LifecycleState::Idle, events, i) == LifecycleState::AwaitDestroy);
    assert(expects(state_from(c, LifecycleState::Idle, events, i - 1), events[i - 1]));
}

/// Law (teardown ordering, second half): the close-handle call is the final
/// subsystem call. Once it is issued, a run can only extend by one more
/// event, the close's own completion, whose action calls nothing.
pub proof fn lemma_close_is_final(c: QueueConfig, events: Seq<Event>, i: int, j: int)
    requires
        valid_run_from(c, LifecycleState::Idle, events),
        0 <= i < events.len(),
        action_from(c, LifecycleState::Idle, events, i) == Action::CloseHandle,
        i < j < events.len(),
    ensures
        j == i + 1,
        action_from(c, LifecycleState::Idle, events, j) == Action::Done,
{
    assert(state_from(c, LifecycleState::Idle, events, i) == LifecycleState::AwaitDestroy);
    assert(state_from(c, LifecycleState::Idle, events, i + 1) == LifecycleState::AwaitClose);
    assert(expects(state_from(c, LifecycleState::Idle, events, i + 1), events[i + 1]));
    assert(state_from(c, LifecycleState::Idle, events, i + 2) == LifecycleState::Finished);
    if j > i + 1 {
        lemma_state_stays_finished(c, events, i + 2, j);
        assert(expects(state_from(c, LifecycleState::Idle, events, j), events[j]));
        assert(false);
    }
}

/// From the `Finished` state no event is expected, so a run that has reached
/// it at step `n` is still there at any later step `m`.
proof fn lemma_state_stays_finished(c: QueueConfig, events: Seq<Event>, n: int, m: int)
    requires
        0 <= n <= m,
        state_from(c, LifecycleState::Idle, events, n) == LifecycleState::Finished,
    ensures
        state_from(c, LifecycleState::Idle, events, m) == LifecycleState::Finished,
    decreases m - n,
{
    if m > n {
        lemma_state_stays_finished(c, events, n, m - 1);
    }
}

/// Law (non-blocking resilience): while in the receiving state every receive
/// outcome is negative ("would block"), the machine stays in the receiving
/// state on the same socket and every decision is to retry the receive — the
/// loop neither terminates nor fails nor logs, and it still accepts the next
/// receive outcome.
pub proof fn lemma_busy_poll_retries(c: QueueConfig, fd: i32, events: Seq<Event>, n: int)
    requires
        0 <= n <= events.len(),
        forall|k: int|
            0 <= k < n ==> ((#[trigger] events[k]) matches Event::RecvReturned { received }
                && received < 0),
    ensures
        state_from(c, LifecycleState::AwaitRecv { fd }, events, n) == (LifecycleState::AwaitRecv {
            fd,
        }),
        forall|k: int|
            0 <= k < n ==> #[trigger] action_from(
                c,
                LifecycleState::AwaitRecv { fd },
                events,
                k,
            ) == (Action::Receive { fd }),
    decreases n,
{
    if n > 0 {
        lemma_busy_poll_retries(c, fd, events, n - 1);
    }
}

} // verus!
