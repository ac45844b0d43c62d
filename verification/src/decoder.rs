//! The keyboard decoder: a stateful translator from raw scancode bytes to
//! decoded keys — printable characters or named key identifiers. The
//! translation itself is pc_keyboard's (scancode set 1, US 104-key layout,
//! control keys left alone); it is deterministic, a function of the bytes
//! consumed so far, and is named here rather than restated.

use vstd::prelude::*;
use pc_keyboard::{layouts, HandleControl, Keyboard, KeyCode, ScancodeSet1};

verus! {

/// A named, non-printable key the decoder can resolve. The keys the
/// dispatcher treats specially have variants of their own; any other
/// resolved key carries its textual fallback representation.
#[derive(Debug, PartialEq, Eq)]
pub enum NamedKey {
    Backspace,
    Delete,
    Tab,
    Escape,
    LShift,
    RShift,
    LControl,
    RControl,
    LAlt,
    RAltGr,
    ArrowUp,
    ArrowDown,
    ArrowLeft,
    ArrowRight,
    Home,
    PageUp,
    PageDown,
    CapsLock,
    Other(Vec<char>),
}

/// A decoded key: either a printable character or a named key identifier.
#[derive(Debug, PartialEq, Eq)]
pub enum Key {
    Printable(char),
    Named(NamedKey),
}

/// pc_keyboard's key identifier, declared so that the conversion below can
/// take it. Verus sees nothing inside such a value.
#[verifier::external_type_specification]
#[verifier::external_body]
pub struct ExKeyCode(KeyCode);

/// Relies on `pc_keyboard::KeyCode` and its `Debug` impl: each variant the
/// dispatcher distinguishes maps to its own name, any other to its textual
/// representation. Pure conversion, one arm per distinguished variant.
#[verifier::external_body]
fn named_key_of(k: KeyCode) -> NamedKey {
    match k {
        KeyCode::Backspace => NamedKey::Backspace, KeyCode::Delete => NamedKey::Delete,
        KeyCode::Tab => NamedKey::Tab, KeyCode::Escape => NamedKey::Escape,
        KeyCode::LShift => NamedKey::LShift, KeyCode::RShift => NamedKey::RShift,
        KeyCode::LControl => NamedKey::LControl, KeyCode::RControl => NamedKey::RControl,
        KeyCode::LAlt => NamedKey::LAlt, KeyCode::RAltGr => NamedKey::RAltGr,
        KeyCode::ArrowUp => NamedKey::ArrowUp, KeyCode::ArrowDown => NamedKey::ArrowDown,
        KeyCode::ArrowLeft => NamedKey::ArrowLeft, KeyCode::ArrowRight => NamedKey::ArrowRight,
        KeyCode::Home => NamedKey::Home, KeyCode::PageUp => NamedKey::PageUp,
        KeyCode::PageDown => NamedKey::PageDown, KeyCode::CapsLock => NamedKey::CapsLock,
        other => NamedKey::Other(format!("{:?}", other).chars().collect()),
    }
}

/// The stateful decoder. It holds pc_keyboard's machine — modifier state and
/// any pending multi-byte prefix — behind a trusted boundary; everything it
/// will ever do is determined by the bytes it has consumed.
#[verifier::external_body]
pub struct KeyboardDecoder {
    inner: Keyboard<layouts::Us104Key, ScancodeSet1>,
}

/// The bytes the decoder has consumed since its creation, in order.
pub uninterp spec fn decoder_history(d: KeyboardDecoder) -> Seq<u8>;

/// What one more byte yields from a decoder that has consumed `history`:
/// nothing (the byte only extends a partial sequence, or is a release that
/// the decoder suppresses), or exactly one decoded key. This names the
/// result of pc_keyboard's per-byte decoding, which depends on the consumed
/// bytes alone; no shorter statement of it exists.
pub uninterp spec fn decode_step(history: Seq<u8>, byte: u8) -> Option<Key>;

impl KeyboardDecoder {
    /// Relies on `pc_keyboard::Keyboard::new` with `ScancodeSet1`, the US
    /// 104-key layout and `HandleControl::Ignore`: a fresh decoder that has
    /// consumed nothing.
    #[verifier::external_body]
    pub fn new() -> (d: KeyboardDecoder)
        ensures
            decoder_history(d) == Seq::<u8>::empty(),
    {
        KeyboardDecoder {
            inner: Keyboard::new(ScancodeSet1::new(), layouts::Us104Key, HandleControl::Ignore),
        }
    }

    /// Relies on `pc_keyboard::Keyboard::add_byte` and `process_keyevent`,
    /// chained as the consumer runs them: one byte advances the decoder and
    /// yields at most one decoded key, a function of the consumed bytes
    /// alone. A byte that completes no event, a suppressed release, and a
    /// protocol error alike yield nothing.
    #[verifier::external_body]
    pub fn feed(&mut self, byte: u8) -> (r: Option<Key>)
        ensures
            decoder_history(*final(self)) == decoder_history(*old(self)).push(byte),
            r == decode_step(decoder_history(*old(self)), byte),
    {
        match self.inner.add_byte(byte) {
            Ok(Some(event)) => match self.inner.process_keyevent(event) {
                Some(pc_keyboard::DecodedKey::Unicode(c)) => Some(Key::Printable(c)),
                Some(pc_keyboard::DecodedKey::RawKey(k)) => Some(Key::Named(named_key_of(k))),
                None => None,
            },
            _ => None,
        }
    }
}

/// A run of the decoder: the keys (or nothings) that a byte sequence yields
/// from a decoder that has consumed `history`.
pub open spec fn decode_run(history: Seq<u8>, input: Seq<u8>) -> Seq<Option<Key>>
    decreases input.len(),
{
    if input.len() == 0 {
        Seq::empty()
    } else {
        seq![decode_step(history, input[0])]
            + decode_run(history.push(input[0]), input.drop_first())
    }
}

/// Determinism law: identical byte sequences fed to decoders with identical
/// consumed histories yield identical output sequences. It holds because
/// each step is `decode_step`, a function of the history and the byte alone
/// — the decoder has no other input.
pub proof fn lemma_decoder_deterministic(h1: Seq<u8>, h2: Seq<u8>, input: Seq<u8>)
    requires
        h1 == h2,
    ensures
        decode_run(h1, input) == decode_run(h2, input),
{
}

} // verus!
