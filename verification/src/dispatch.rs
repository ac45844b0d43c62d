//! The input dispatcher: a stateless mapping from a decoded key to terminal
//! actions, and the one consumer turn that feeds a scancode to the decoder
//! and dispatches whatever key it yields. No state is kept between
//! dispatch calls.

use vstd::prelude::*;
use crate::decoder::{decode_step, decoder_history, Key, KeyboardDecoder, NamedKey};

verus! {

/// One primitive of the terminal collaborator: print one character at the
/// cursor, erase the last printed character (a no-op on an empty screen, by
/// the collaborator's own contract), or clear the screen.
#[derive(Clone, Copy, Debug, PartialEq, Eq)]
pub enum TerminalOp {
    PutChar(char),
    EraseLast,
    ClearScreen,
}

/// The actions for a named key: backspace and delete erase the last
/// character; tab prints four spaces; the modifier and navigation keys are
/// silently consumed, reserved for future editing features; any other named
/// key prints its textual fallback representation.
pub open spec fn dispatch_named_spec(k: NamedKey) -> Seq<TerminalOp> {
    match k {
        NamedKey::Backspace => seq![TerminalOp::EraseLast],
        NamedKey::Delete => seq![TerminalOp::EraseLast],
        NamedKey::Tab => four_spaces(),
        NamedKey::Escape => Seq::empty(),
        NamedKey::LShift => Seq::empty(),
        NamedKey::RShift => Seq::empty(),
        NamedKey::LControl => Seq::empty(),
        NamedKey::RControl => Seq::empty(),
        NamedKey::LAlt => Seq::empty(),
        NamedKey::RAltGr => Seq::empty(),
        NamedKey::ArrowUp => Seq::empty(),
        NamedKey::ArrowDown => Seq::empty(),
        NamedKey::ArrowLeft => Seq::empty(),
        NamedKey::ArrowRight => Seq::empty(),
        NamedKey::Home => Seq::empty(),
        NamedKey::PageUp => Seq::empty(),
        NamedKey::PageDown => Seq::empty(),
        NamedKey::CapsLock => Seq::empty(),
        NamedKey::Other(text) => put_chars_spec(text@),
    }
}

/// One print action per character of the text, in order.
pub open spec fn put_chars_spec(s: Seq<char>) -> Seq<TerminalOp>
    decreases s.len(),
{
    if s.len() == 0 {
        Seq::empty()
    } else {
        put_chars_spec(s.drop_last()).push(TerminalOp::PutChar(s.last()))
    }
}

/// Four printed spaces: what a tab comes to on the terminal.
pub open spec fn four_spaces() -> Seq<TerminalOp> {
    seq![
        TerminalOp::PutChar(' '),
        TerminalOp::PutChar(' '),
        TerminalOp::PutChar(' '),
        TerminalOp::PutChar(' '),
    ]
}

/// The stateless mapping from one decoded key to terminal actions. Among
/// printable characters, the backspace and delete characters erase the last
/// character, and the tab character — the form in which the tab key reaches
/// the dispatcher under this layout — prints four spaces; every other
/// printable character is printed as itself.
pub open spec fn dispatch_spec(k: Key) -> Seq<TerminalOp> {
    match k {
        Key::Printable(c) => {
            if c == '\u{0008}' || c == '\u{007F}' {
                seq![TerminalOp::EraseLast]
            } else if c == '\u{0009}' {
                four_spaces()
            } else {
                seq![TerminalOp::PutChar(c)]
            }
        },
        Key::Named(nk) => dispatch_named_spec(nk),
    }
}

/// Maps one decoded key to the terminal actions it calls for.
pub fn dispatch(key: &Key) -> (ops: Vec<TerminalOp>)
    ensures
        ops@ == dispatch_spec(*key),
{
    let mut ops: Vec<TerminalOp> = Vec::new();
    match key {
        Key::Printable(c) => {
            if *c == '\u{0008}' || *c == '\u{007F}' {
                ops.push(TerminalOp::EraseLast);
                assert(ops@ =~= dispatch_spec(*key));
            } else if *c == '\u{0009}' {
                push_four_spaces(&mut ops);
                assert(ops@ =~= dispatch_spec(*key));
            } else {
                ops.push(TerminalOp::PutChar(*c));
                assert(ops@ =~= dispatch_spec(*key));
            }
        },
        Key::Named(NamedKey::Backspace) | Key::Named(NamedKey::Delete) => {
            ops.push(TerminalOp::EraseLast);
            assert(ops@ =~= dispatch_spec(*key));
        },
        Key::Named(NamedKey::Tab) => {
            push_four_spaces(&mut ops);
            assert(ops@ =~= dispatch_spec(*key));
        },
        Key::Named(NamedKey::Other(text)) => {
            ops = chars_ops(text, text.len());
            proof {
                assert(text@.take(text@.len() as int) =~= text@);
            }
            assert(ops@ =~= dispatch_spec(*key));
        },
        Key::Named(_) => {
            assert(ops@ =~= dispatch_spec(*key));
        },
    }
    ops
}

/// One print action per character of the first `upto` characters of the
/// text, in order.
fn chars_ops(text: &Vec<char>, upto: usize) -> (ops: Vec<TerminalOp>)
    requires
        upto <= text@.len(),
    ensures
        ops@ == put_chars_spec(text@.take(upto as int)),
    decreases upto,
{
    if upto == 0 {
        let ops: Vec<TerminalOp> = Vec::new();
        assert(ops@ =~= put_chars_spec(text@.take(0)));
        ops
    } else {
        let mut ops = chars_ops(text, upto - 1);
        let c = char_at(text, upto - 1);
        ops.push(TerminalOp::PutChar(c));
        proof {
            let t = text@.take(upto as int);
            assert(t.drop_last() =~= text@.take(upto as int - 1));
            assert(t.last() == text@[upto as int - 1]);
            assert(ops@ == put_chars_spec(t));
        }
        ops
    }
}

/// One character of the text, read by index.
fn char_at(text: &Vec<char>, i: usize) -> (c: char)
    requires
        i < text@.len(),
    ensures
        c == text@[i as int],
{
    text[i]
}

/// Appends the four spaces a tab prints.
fn push_four_spaces(ops: &mut Vec<TerminalOp>)
    ensures
        final(ops)@ == old(ops)@ + four_spaces(),
{
    ops.push(TerminalOp::PutChar(' '));
    ops.push(TerminalOp::PutChar(' '));
    ops.push(TerminalOp::PutChar(' '));
    ops.push(TerminalOp::PutChar(' '));
    assert(ops@ =~= old(ops)@ + four_spaces());
}

/// One turn of the consumer loop: feed one scancode to the decoder, and map
/// the key it yields — if it yields one — to terminal actions. A byte that
/// completes no key yields no action at all.
pub fn process_scancode(decoder: &mut KeyboardDecoder, scancode: u8) -> (ops: Vec<TerminalOp>)
    ensures
        decoder_history(*final(decoder)) == decoder_history(*old(decoder)).push(scancode),
        ops@ == (match decode_step(decoder_history(*old(decoder)), scancode) {
            Some(k) => dispatch_spec(k),
            None => Seq::<TerminalOp>::empty(),
        }),
{
    match decoder.feed(scancode) {
        Some(key) => dispatch(&key),
        None => Vec::new(),
    }
}

} // verus!
