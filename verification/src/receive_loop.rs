//! The decisions of the UDP receiving thread.
//!
//! The thread binds its socket (retrying every second while binding
//! fails), sets a one-second read timeout (binding again when that is
//! refused), then blocks on receiving. Each datagram is recorded and the
//! datagrams already queued behind it are read without blocking and
//! recorded too, after which blocking mode and the timeout are restored.
//! Errors are never fatal. The thread looks at its `running` flag where it
//! is about to bind, wait or receive, and stops there once the flag is
//! down; a datagram already read is always recorded.
//!
//! [`receiver_step`] is that thread as a step function: given the phase it
//! is in, the flag and the outcome of the last action, it returns the next
//! phase and the next action. The caller performs the actions on a real
//! socket and reports what happened.

use vstd::prelude::*;

verus! {

/// How long to wait before binding again after binding failed.
pub const BIND_RETRY_MILLIS: u64 = 1000;

/// The read timeout of a blocking receive.
pub const RECEIVE_TIMEOUT_MILLIS: u64 = 1000;

/// Where the thread is.
#[derive(Debug, Clone, Copy, PartialEq, Eq, Structural)]
pub enum ReceiverPhase {
    /// Not started yet.
    Starting,
    /// Getting a bound socket.
    Binding,
    /// Setting the read timeout of a freshly bound socket.
    Configuring,
    /// Blocking on the socket.
    Receiving,
    /// Reading the datagrams already queued, without blocking.
    Draining,
    /// Done.
    Stopped,
}

/// What happened when the last action was carried out.
#[derive(Debug, Clone, Copy, PartialEq, Eq, Structural)]
pub enum ReceiverEvent {
    /// The thread starts.
    Started,
    /// Binding the socket failed.
    BindFailed,
    /// The socket is bound.
    Bound,
    /// The wait before binding again is over.
    Slept,
    /// The socket refused the read timeout.
    TimeoutRefused,
    /// The read timeout is set.
    TimeoutSet,
    /// A datagram was read.
    Datagram,
    /// A blocking receive failed or timed out.
    ReceiveError,
    /// The socket refused non-blocking mode.
    NonblockingRefused,
    /// No more datagram is queued.
    QueueEmpty,
    /// Blocking mode and the read timeout were put back.
    Restored,
}

/// What to do next.
#[derive(Debug, Clone, Copy, PartialEq, Eq, Structural)]
pub enum ReceiverAction {
    /// Bind the socket (dropping any socket held).
    Bind,
    /// Wait before binding again.
    Sleep { millis: u64 },
    /// Set the socket's read timeout.
    SetReadTimeout { millis: u64 },
    /// Receive one datagram, blocking up to the read timeout.
    Receive,
    /// Record the datagram just received, switch the socket to
    /// non-blocking mode and, when it accepts, read a queued datagram.
    RecordThenDrain,
    /// Record the queued datagram just read and read another one.
    RecordQueued,
    /// Switch the socket back to blocking mode with the read timeout
    /// (whether it accepts is not looked at).
    RestoreBlocking { timeout_millis: u64 },
    /// End the thread.
    Stop,
}

/// The next phase and action after `event`, with the thread running.
pub open spec fn receiver_transition(phase: ReceiverPhase, event: ReceiverEvent) -> (
    ReceiverPhase,
    ReceiverAction,
) {
    if phase is Stopped {
        (ReceiverPhase::Stopped, ReceiverAction::Stop)
    } else {
        match event {
            ReceiverEvent::Started => (ReceiverPhase::Binding, ReceiverAction::Bind),
            ReceiverEvent::BindFailed => (
                ReceiverPhase::Binding,
                ReceiverAction::Sleep { millis: BIND_RETRY_MILLIS },
            ),
            ReceiverEvent::Slept => (ReceiverPhase::Binding, ReceiverAction::Bind),
            ReceiverEvent::Bound => (
                ReceiverPhase::Configuring,
                ReceiverAction::SetReadTimeout { millis: RECEIVE_TIMEOUT_MILLIS },
            ),
            ReceiverEvent::TimeoutRefused => (ReceiverPhase::Binding, ReceiverAction::Bind),
            ReceiverEvent::TimeoutSet => (ReceiverPhase::Receiving, ReceiverAction::Receive),
            ReceiverEvent::Datagram => if phase is Draining {
                (ReceiverPhase::Draining, ReceiverAction::RecordQueued)
            } else {
                (ReceiverPhase::Draining, ReceiverAction::RecordThenDrain)
            },
            ReceiverEvent::ReceiveError => (ReceiverPhase::Receiving, ReceiverAction::Receive),
            ReceiverEvent::NonblockingRefused => (
                ReceiverPhase::Receiving,
                ReceiverAction::Receive,
            ),
            ReceiverEvent::QueueEmpty => (
                ReceiverPhase::Receiving,
                ReceiverAction::RestoreBlocking { timeout_millis: RECEIVE_TIMEOUT_MILLIS },
            ),
            ReceiverEvent::Restored => (ReceiverPhase::Receiving, ReceiverAction::Receive),
        }
    }
}

/// The actions before which the thread looks at its `running` flag: the
/// heads of its bind and receive loops.
pub open spec fn checks_running(action: ReceiverAction) -> bool {
    action is Bind || action is Sleep || action is Receive
}

/// The next phase and action: the transition, except that with the flag
/// down the thread stops instead of binding, waiting or receiving.
pub open spec fn receiver_next(phase: ReceiverPhase, running: bool, event: ReceiverEvent) -> (
    ReceiverPhase,
    ReceiverAction,
) {
    let next = receiver_transition(phase, event);
    if !running && checks_running(next.1) {
        (ReceiverPhase::Stopped, ReceiverAction::Stop)
    } else {
        next
    }
}

/// An action that records a datagram.
pub open spec fn records(action: ReceiverAction) -> bool {
    action is RecordThenDrain || action is RecordQueued
}

/// Decides the receiving thread's next phase and action from its phase,
/// its `running` flag and what the last action led to.
pub fn receiver_step(phase: ReceiverPhase, running: bool, event: ReceiverEvent) -> (next: (
    ReceiverPhase,
    ReceiverAction,
))
    ensures
        next == receiver_next(phase, running, event),
{
    let next = match phase {
        ReceiverPhase::Stopped => (ReceiverPhase::Stopped, ReceiverAction::Stop),
        _ => match event {
            ReceiverEvent::Started => (ReceiverPhase::Binding, ReceiverAction::Bind),
            ReceiverEvent::BindFailed => (
                ReceiverPhase::Binding,
                ReceiverAction::Sleep { millis: BIND_RETRY_MILLIS },
            ),
            ReceiverEvent::Slept => (ReceiverPhase::Binding, ReceiverAction::Bind),
            ReceiverEvent::Bound => (
                ReceiverPhase::Configuring,
                ReceiverAction::SetReadTimeout { millis: RECEIVE_TIMEOUT_MILLIS },
            ),
            ReceiverEvent::TimeoutRefused => (ReceiverPhase::Binding, ReceiverAction::Bind),
            ReceiverEvent::TimeoutSet => (ReceiverPhase::Receiving, ReceiverAction::Receive),
            ReceiverEvent::Datagram => match phase {
                ReceiverPhase::Draining => (ReceiverPhase::Draining, ReceiverAction::RecordQueued),
                _ => (ReceiverPhase::Draining, ReceiverAction::RecordThenDrain),
            },
            ReceiverEvent::ReceiveError => (ReceiverPhase::Receiving, ReceiverAction::Receive),
            ReceiverEvent::NonblockingRefused => (
                ReceiverPhase::Receiving,
                ReceiverAction::Receive,
            ),
            ReceiverEvent::QueueEmpty => (
                ReceiverPhase::Receiving,
                ReceiverAction::RestoreBlocking { timeout_millis: RECEIVE_TIMEOUT_MILLIS },
            ),
            ReceiverEvent::Restored => (ReceiverPhase::Receiving, ReceiverAction::Receive),
        },
    };
    let waits = match next.1 {
        ReceiverAction::Bind => true,
        ReceiverAction::Sleep { .. } => true,
        ReceiverAction::Receive => true,
        _ => false,
    };
    if !running && waits {
        (ReceiverPhase::Stopped, ReceiverAction::Stop)
    } else {
        next
    }
}

/// Every datagram read is recorded exactly once: a `Datagram` event (in
/// any phase but `Stopped`) leads to one recording action, whatever the
/// flag, and no other event does.
pub proof fn lemma_each_datagram_is_recorded_once(
    phase: ReceiverPhase,
    running: bool,
    event: ReceiverEvent,
)
    requires
        !(phase is Stopped),
    ensures
        records(receiver_next(phase, running, event).1) <==> event is Datagram,
{
}

/// Errors are never fatal: while the thread runs, no event stops it, and
/// each failure leads back to binding (after a one-second wait when
/// binding itself failed) or to receiving.
pub proof fn lemma_errors_never_stop_a_running_thread(phase: ReceiverPhase, event: ReceiverEvent)
    requires
        !(phase is Stopped),
    ensures
        receiver_next(phase, true, event).1 != ReceiverAction::Stop,
        event is BindFailed ==> receiver_next(phase, true, event).1 == (ReceiverAction::Sleep {
            millis: 1000,
        }),
        event is TimeoutRefused ==> receiver_next(phase, true, event).1 == ReceiverAction::Bind,
        event is ReceiveError ==> receiver_next(phase, true, event).1 == ReceiverAction::Receive,
        event is NonblockingRefused ==> receiver_next(phase, true, event).1
            == ReceiverAction::Receive,
{
}

/// Once the flag is down, the thread binds, waits and receives no more:
/// every step either stops it or finishes work on a datagram already read
/// (recording, draining, restoring blocking mode), and a stopped thread
/// stays stopped.
pub proof fn lemma_lowered_flag_stops_at_the_next_wait(phase: ReceiverPhase, event: ReceiverEvent)
    ensures
        !checks_running(receiver_next(phase, false, event).1),
        receiver_next(phase, false, event).1 is Stop <==> (phase is Stopped || checks_running(
            receiver_transition(phase, event).1,
        )),
        receiver_next(ReceiverPhase::Stopped, true, event) == (
            ReceiverPhase::Stopped,
            ReceiverAction::Stop,
        ),
{
}

} // verus!
