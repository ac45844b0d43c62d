//! The relay queue, scancode source and scancode stream, driven end to end
//! with the real lock-free queue and waker underneath.

use eclipse_input::keyboard::{
    add_scancode, InputContext, PollOutcome, ScancodeStream, SourceOutcome, StreamInitError,
};
use futures_util::task::{noop_waker, waker, ArcWake};
use std::sync::atomic::{AtomicBool, Ordering};
use std::sync::Arc;

struct WakeFlag(AtomicBool);

impl ArcWake for WakeFlag {
    fn wake_by_ref(arc_self: &Arc<WakeFlag>) {
        arc_self.0.store(true, Ordering::SeqCst);
    }
}

#[test]
fn source_before_initialization_reports_uninitialized() {
    let mut ctx = InputContext::new();
    assert_eq!(add_scancode(&mut ctx, 0x1E), SourceOutcome::Uninitialized);
    assert_eq!(add_scancode(&mut ctx, 0x1F), SourceOutcome::Uninitialized);
}

#[test]
fn stream_singleton_second_creation_fails() {
    let mut ctx = InputContext::new();
    let first = ScancodeStream::new(&mut ctx);
    assert!(first.is_ok());
    let second = ScancodeStream::new(&mut ctx);
    assert_eq!(second.err(), Some(StreamInitError::AlreadyCreated));
    let third = ScancodeStream::new(&mut ctx);
    assert_eq!(third.err(), Some(StreamInitError::AlreadyCreated));
}

#[test]
fn fifo_order_over_interleaved_inserts_and_removes() {
    let mut ctx = InputContext::new();
    let mut stream = ScancodeStream::new(&mut ctx).unwrap();
    let waker = noop_waker();
    assert_eq!(add_scancode(&mut ctx, 10), SourceOutcome::Delivered);
    assert_eq!(add_scancode(&mut ctx, 20), SourceOutcome::Delivered);
    assert_eq!(stream.poll_next(&mut ctx, &waker), PollOutcome::Ready(10));
    assert_eq!(add_scancode(&mut ctx, 30), SourceOutcome::Delivered);
    assert_eq!(add_scancode(&mut ctx, 40), SourceOutcome::Delivered);
    assert_eq!(stream.poll_next(&mut ctx, &waker), PollOutcome::Ready(20));
    assert_eq!(stream.poll_next(&mut ctx, &waker), PollOutcome::Ready(30));
    assert_eq!(stream.poll_next(&mut ctx, &waker), PollOutcome::Ready(40));
    assert_eq!(stream.poll_next(&mut ctx, &waker), PollOutcome::Pending);
}

#[test]
fn overflow_drops_newest_and_keeps_first_hundred_in_order() {
    let mut ctx = InputContext::new();
    let mut stream = ScancodeStream::new(&mut ctx).unwrap();
    let waker = noop_waker();
    let mut outcomes: Vec<SourceOutcome> = Vec::new();
    for i in 0..101u32 {
        outcomes.push(add_scancode(&mut ctx, (i % 256) as u8));
    }
    for i in 0..100usize {
        assert_eq!(outcomes[i], SourceOutcome::Delivered);
    }
    assert_eq!(outcomes[100], SourceOutcome::QueueFull);
    for i in 0..100u32 {
        assert_eq!(stream.poll_next(&mut ctx, &waker), PollOutcome::Ready((i % 256) as u8));
    }
    assert_eq!(stream.poll_next(&mut ctx, &waker), PollOutcome::Pending);
}

#[test]
fn full_queue_rejects_without_corrupting_entries() {
    let mut ctx = InputContext::new();
    let mut stream = ScancodeStream::new(&mut ctx).unwrap();
    let waker = noop_waker();
    for i in 0..100u32 {
        assert_eq!(add_scancode(&mut ctx, i as u8), SourceOutcome::Delivered);
    }
    assert_eq!(add_scancode(&mut ctx, 200), SourceOutcome::QueueFull);
    assert_eq!(add_scancode(&mut ctx, 201), SourceOutcome::QueueFull);
    assert_eq!(stream.poll_next(&mut ctx, &waker), PollOutcome::Ready(0));
    assert_eq!(add_scancode(&mut ctx, 202), SourceOutcome::Delivered);
    for i in 1..100u32 {
        assert_eq!(stream.poll_next(&mut ctx, &waker), PollOutcome::Ready(i as u8));
    }
    assert_eq!(stream.poll_next(&mut ctx, &waker), PollOutcome::Ready(202));
    assert_eq!(stream.poll_next(&mut ctx, &waker), PollOutcome::Pending);
}

#[test]
fn delivery_after_registration_wakes_the_registered_task() {
    let mut ctx = InputContext::new();
    let mut stream = ScancodeStream::new(&mut ctx).unwrap();
    let flag = Arc::new(WakeFlag(AtomicBool::new(false)));
    let task_waker = waker(flag.clone());
    // The consumer suspends: its resume handle is registered.
    assert_eq!(stream.poll_next(&mut ctx, &task_waker), PollOutcome::Pending);
    assert!(!flag.0.load(Ordering::SeqCst));
    // The interrupt delivers a byte: the registered task must be woken.
    assert_eq!(add_scancode(&mut ctx, 5), SourceOutcome::Delivered);
    assert!(flag.0.load(Ordering::SeqCst));
    // The poll that the wakeup causes observes the byte.
    assert_eq!(stream.poll_next(&mut ctx, &task_waker), PollOutcome::Ready(5));
}

#[test]
fn byte_after_registration_is_seen_by_the_next_poll() {
    let mut ctx = InputContext::new();
    let mut stream = ScancodeStream::new(&mut ctx).unwrap();
    let waker = noop_waker();
    // The consumer finds nothing and registers with the notifier.
    assert_eq!(stream.poll_next(&mut ctx, &waker), PollOutcome::Pending);
    // A byte arrives afterwards; the wake fires with the waiter registered.
    assert_eq!(add_scancode(&mut ctx, 0x2A), SourceOutcome::Delivered);
    // The poll that the wakeup causes observes that very byte.
    assert_eq!(stream.poll_next(&mut ctx, &waker), PollOutcome::Ready(0x2A));
    assert_eq!(stream.poll_next(&mut ctx, &waker), PollOutcome::Pending);
}
