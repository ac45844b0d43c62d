//! The scancode source and the scancode stream: the interrupt-context
//! producer pushes one byte per invocation into the relay queue and triggers
//! the notifier; the consumer pulls bytes with an exact double-check
//! sequence that closes the race between "queue empty" and "waiter
//! registered". The queue and notifier are owned by one explicit context,
//! created once during startup and handed by reference to both sides.

use vstd::prelude::*;
use vstd::pervasive::unreached;
use core::task::Waker;
use crate::notifier::WakeNotifier;
use crate::queue::RelayQueue;

verus! {

/// Fixed capacity of the relay queue: at most this many scancodes wait
/// between the interrupt handler and the consumer task.
pub const RELAY_QUEUE_CAPACITY: usize = 100;

/// The singleton state shared by the interrupt-context producer and the
/// consumer task: the relay queue (created lazily, by the stream) and the
/// wake notifier. Exactly one of these stands for the process lifetime.
pub struct InputContext {
    queue: Option<RelayQueue>,
    notifier: WakeNotifier,
    stream_taken: bool,
}

/// A protocol-level view of the shared state: the scancodes waiting in the
/// relay queue, the queue's bound, and whether a resume handle stands
/// registered with the notifier.
pub struct ProtocolState {
    pub pending: Seq<u8>,
    pub cap: nat,
    pub waiter: bool,
}

/// Consumer, step two of the poll sequence: register the calling task's
/// resume handle with the notifier.
pub open spec fn register_step(s: ProtocolState) -> ProtocolState {
    ProtocolState { waiter: true, ..s }
}

/// Producer: the scancode source offers one byte. When a slot is free the
/// byte is appended and the notifier is triggered, which wakes and clears
/// the registered waiter, if any; when the queue is full the byte is
/// rejected and nothing else changes. The second component says whether the
/// byte was accepted.
pub open spec fn source_step(s: ProtocolState, b: u8) -> (ProtocolState, bool) {
    if s.pending.len() < s.cap {
        (ProtocolState { pending: s.pending.push(b), waiter: false, ..s }, true)
    } else {
        (s, false)
    }
}

/// Consumer, step three of the poll sequence: check the queue once more. A
/// byte that arrived between registration and this re-check is taken here,
/// and the registration is cleared; only an empty queue leaves the waiter
/// standing.
pub open spec fn recheck_step(s: ProtocolState) -> (ProtocolState, Option<u8>) {
    if s.pending.len() > 0 {
        (ProtocolState { pending: s.pending.drop_first(), waiter: false, ..s }, Some(s.pending[0]))
    } else {
        (s, None)
    }
}

/// One whole poll, run with no producer in between: the fast path takes the
/// oldest byte without touching the registration; otherwise the consumer
/// registers and re-checks.
pub open spec fn poll_step(s: ProtocolState) -> (ProtocolState, Option<u8>) {
    if s.pending.len() > 0 {
        (ProtocolState { pending: s.pending.drop_first(), ..s }, Some(s.pending[0]))
    } else {
        recheck_step(register_step(s))
    }
}

/// Liveness law (no missed wakeup): a byte inserted after the consumer has
/// registered with the notifier and before its re-check is accepted, fires
/// the wakeup while the waiter stands registered, and is observed by the
/// re-check itself — it does not wait for another, unrelated byte.
pub proof fn lemma_no_missed_wakeup(s: ProtocolState, b: u8)
    requires
        s.pending.len() == 0,
        s.cap >= 1,
    ensures
        ({
            let s1 = register_step(s);
            let (s2, accepted) = source_step(s1, b);
            let (s3, observed) = recheck_step(s2);
            &&& s1.waiter
            &&& accepted
            &&& observed == Some(b)
            &&& s3.pending == s.pending
        }),
{
    let s1 = register_step(s);
    let (s2, accepted) = source_step(s1, b);
    assert(s2.pending == s.pending.push(b));
    assert(s2.pending[0] == b);
    assert(s2.pending.drop_first() =~= s.pending);
}

/// What a single interrupt-context insertion did; the two failure outcomes
/// each carry their own best-effort diagnostic at the caller.
#[derive(PartialEq, Eq, Structural, Clone, Copy, Debug)]
pub enum SourceOutcome {
    /// The byte is in the relay queue and the notifier was triggered.
    Delivered,
    /// The relay queue was full: the newest byte was dropped, the held bytes
    /// untouched.
    QueueFull,
    /// The relay queue does not exist yet — a startup-ordering bug diagnosed
    /// elsewhere; the byte was dropped.
    Uninitialized,
}

impl InputContext {
    /// Whether the relay queue has been created.
    pub closed spec fn initialized(&self) -> bool {
        self.queue is Some
    }

    /// The scancodes waiting in the relay queue, oldest first (empty while
    /// the queue does not exist yet).
    pub closed spec fn scancodes(&self) -> Seq<u8> {
        match self.queue {
            Some(q) => q@,
            None => Seq::empty(),
        }
    }

    /// The relay queue's bound.
    pub closed spec fn capacity(&self) -> nat {
        match self.queue {
            Some(q) => q.capacity(),
            None => 0,
        }
    }

    /// Whether a resume handle stands registered with the notifier.
    pub closed spec fn has_waiter(&self) -> bool {
        self.notifier.has_waiter()
    }

    /// Whether the one scancode stream has already been created.
    pub closed spec fn stream_taken(&self) -> bool {
        self.stream_taken
    }

    /// The protocol-level view of this context.
    pub open spec fn protocol(&self) -> ProtocolState {
        ProtocolState { pending: self.scancodes(), cap: self.capacity(), waiter: self.has_waiter() }
    }

    /// Whether the relay queue exists yet, for a caller that must test it
    /// before polling.
    pub fn is_initialized(&self) -> (r: bool)
        ensures
            r == self.initialized(),
    {
        self.queue.is_some()
    }

    /// A fresh context: no relay queue yet, no registered waiter, and the
    /// stream not yet taken.
    pub fn new() -> (ctx: InputContext)
        ensures
            !ctx.initialized(),
            !ctx.has_waiter(),
            !ctx.stream_taken(),
    {
        InputContext { queue: None, notifier: WakeNotifier::new(), stream_taken: false }
    }
}

/// Called by the keyboard interrupt handler with one raw byte. It never
/// blocks, never allocates and never suspends: one non-blocking insert, and
/// on success one trigger of the notifier. On overflow the newest byte is
/// dropped and the held bytes stand untouched; before the queue exists the
/// byte is dropped as well. Either failure is reported in the outcome so the
/// caller can emit its diagnostic without this path ever waiting.
pub fn add_scancode(ctx: &mut InputContext, scancode: u8) -> (r: SourceOutcome)
    ensures
        final(ctx).initialized() == old(ctx).initialized(),
        final(ctx).stream_taken() == old(ctx).stream_taken(),
        !old(ctx).initialized() ==> {
            &&& r == SourceOutcome::Uninitialized
            &&& final(ctx).protocol() == old(ctx).protocol()
        },
        old(ctx).initialized() ==> {
            let (s2, accepted) = source_step(old(ctx).protocol(), scancode);
            &&& final(ctx).protocol() == s2
            &&& r == (if accepted { SourceOutcome::Delivered } else { SourceOutcome::QueueFull })
        },
{
    match &mut ctx.queue {
        Some(q) => {
            match q.push(scancode) {
                Ok(()) => {
                    ctx.notifier.wake();
                    SourceOutcome::Delivered
                },
                Err(_) => SourceOutcome::QueueFull,
            }
        },
        None => SourceOutcome::Uninitialized,
    }
}

/// The error of a second attempt to create the scancode stream: a
/// startup-ordering bug, to be failed loudly, never retried.
#[derive(PartialEq, Eq, Structural, Clone, Copy, Debug)]
pub enum StreamInitError {
    AlreadyCreated,
}

/// The outcome of one poll of the scancode stream: a scancode, or the signal
/// to suspend until the notifier is triggered. The stream never signals
/// termination — it is conceptually infinite.
#[derive(PartialEq, Eq, Structural, Clone, Copy, Debug)]
pub enum PollOutcome {
    Ready(u8),
    Pending,
}

/// A pull-based producer of scancodes. Exactly one instance may exist per
/// context; it references the context's relay queue and notifier and has no
/// buffering of its own.
pub struct ScancodeStream {
    _private: (),
}

impl ScancodeStream {
    /// Creates the one scancode stream, creating the relay queue with it. A
    /// second attempt fails predictably with an error rather than silently
    /// sharing state; nothing else about the context changes then.
    pub fn new(ctx: &mut InputContext) -> (r: Result<ScancodeStream, StreamInitError>)
        ensures
            final(ctx).has_waiter() == old(ctx).has_waiter(),
            !old(ctx).stream_taken() ==> {
                &&& r is Ok
                &&& final(ctx).stream_taken()
                &&& final(ctx).initialized()
                &&& final(ctx).scancodes() == Seq::<u8>::empty()
                &&& final(ctx).capacity() == RELAY_QUEUE_CAPACITY as nat
            },
            old(ctx).stream_taken() ==> {
                &&& r == Err::<ScancodeStream, StreamInitError>(StreamInitError::AlreadyCreated)
                &&& *final(ctx) == *old(ctx)
            },
    {
        if ctx.stream_taken {
            Err(StreamInitError::AlreadyCreated)
        } else {
            ctx.queue = Some(RelayQueue::new(RELAY_QUEUE_CAPACITY));
            ctx.stream_taken = true;
            Ok(ScancodeStream { _private: () })
        }
    }

    /// One poll, the exact double-check sequence: try a non-blocking remove
    /// (fast path); otherwise register the calling task's resume handle with
    /// the notifier and check the queue once more, so that a byte delivered
    /// between the first check and the registration is still observed; only
    /// then signal "suspend". Omitting the re-check would be a missed-wakeup
    /// race.
    pub fn poll_next(&mut self, ctx: &mut InputContext, waker: &Waker) -> (r: PollOutcome)
        requires
            old(ctx).initialized(),
        ensures
            final(ctx).initialized(),
            final(ctx).stream_taken() == old(ctx).stream_taken(),
            ({
                let (s2, got) = poll_step(old(ctx).protocol());
                &&& final(ctx).protocol() == s2
                &&& r == (match got {
                    Some(b) => PollOutcome::Ready(b),
                    None => PollOutcome::Pending,
                })
            }),
    {
        let queue_ref = match &mut ctx.queue {
            Some(q) => q,
            None => unreached(),
        };

        // fast path
        if let Some(scancode) = queue_ref.pop() {
            return PollOutcome::Ready(scancode);
        }

        ctx.notifier.register(waker);
        match queue_ref.pop() {
            Some(scancode) => {
                let _ = ctx.notifier.take();
                PollOutcome::Ready(scancode)
            },
            None => PollOutcome::Pending,
        }
    }
}

} // verus!
