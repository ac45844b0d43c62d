//! The keyboard decoder and the input dispatcher, run against the real
//! scancode-set-1 decoding underneath (US 104-key layout).

use eclipse_input::decoder::{Key, KeyboardDecoder, NamedKey};
use eclipse_input::dispatch::{dispatch, process_scancode, TerminalOp};

#[test]
fn press_and_release_of_a_yields_exactly_one_lowercase_a() {
    let mut decoder = KeyboardDecoder::new();
    // make code of the 'A' key
    let ops_make = process_scancode(&mut decoder, 0x1E);
    assert_eq!(ops_make, vec![TerminalOp::PutChar('a')]);
    // break code: the release is suppressed, nothing more is printed
    let ops_break = process_scancode(&mut decoder, 0x9E);
    assert_eq!(ops_break, Vec::new());
}

#[test]
fn backspace_scancode_yields_exactly_one_erase_action() {
    let mut decoder = KeyboardDecoder::new();
    let ops = process_scancode(&mut decoder, 0x0E);
    assert_eq!(ops, vec![TerminalOp::EraseLast]);
    let ops_release = process_scancode(&mut decoder, 0x8E);
    assert_eq!(ops_release, Vec::new());
}

#[test]
fn tab_scancode_yields_four_spaces_and_no_erase() {
    let mut decoder = KeyboardDecoder::new();
    let ops = process_scancode(&mut decoder, 0x0F);
    assert_eq!(
        ops,
        vec![
            TerminalOp::PutChar(' '),
            TerminalOp::PutChar(' '),
            TerminalOp::PutChar(' '),
            TerminalOp::PutChar(' '),
        ]
    );
}

#[test]
fn shifted_a_prints_uppercase_and_shift_itself_prints_nothing() {
    let mut decoder = KeyboardDecoder::new();
    // left shift make: a named modifier key, silently consumed
    let ops_shift = process_scancode(&mut decoder, 0x2A);
    assert_eq!(ops_shift, Vec::new());
    let ops_a = process_scancode(&mut decoder, 0x1E);
    assert_eq!(ops_a, vec![TerminalOp::PutChar('A')]);
    // releases: shift release updates state only
    assert_eq!(process_scancode(&mut decoder, 0x9E), Vec::new());
    assert_eq!(process_scancode(&mut decoder, 0xAA), Vec::new());
    // and afterwards the same key prints lowercase again
    assert_eq!(process_scancode(&mut decoder, 0x1E), vec![TerminalOp::PutChar('a')]);
}

#[test]
fn arrow_key_extended_sequence_is_silently_consumed() {
    let mut decoder = KeyboardDecoder::new();
    // extended prefix completes no event on its own
    assert_eq!(process_scancode(&mut decoder, 0xE0), Vec::new());
    // arrow up make: a navigation key, no visible action
    assert_eq!(process_scancode(&mut decoder, 0x48), Vec::new());
}

#[test]
fn decoder_is_deterministic_across_equal_runs() {
    let input: [u8; 10] = [0x2A, 0x1E, 0xAA, 0x1E, 0x9E, 0xE0, 0x48, 0x0E, 0x0F, 0x39];
    let mut first = KeyboardDecoder::new();
    let mut second = KeyboardDecoder::new();
    for byte in input {
        let a = first.feed(byte);
        let b = second.feed(byte);
        assert_eq!(a, b);
    }
    // and a third pass over the same bytes gives the same action stream
    let mut third = KeyboardDecoder::new();
    let mut fourth = KeyboardDecoder::new();
    for byte in input {
        assert_eq!(
            process_scancode(&mut third, byte),
            process_scancode(&mut fourth, byte)
        );
    }
}

#[test]
fn dispatch_erases_for_backspace_and_delete_characters() {
    assert_eq!(dispatch(&Key::Printable('\u{0008}')), vec![TerminalOp::EraseLast]);
    assert_eq!(dispatch(&Key::Printable('\u{007F}')), vec![TerminalOp::EraseLast]);
    assert_eq!(dispatch(&Key::Named(NamedKey::Backspace)), vec![TerminalOp::EraseLast]);
    assert_eq!(dispatch(&Key::Named(NamedKey::Delete)), vec![TerminalOp::EraseLast]);
}

#[test]
fn dispatch_prints_ordinary_characters_and_consumes_navigation_keys() {
    assert_eq!(dispatch(&Key::Printable('x')), vec![TerminalOp::PutChar('x')]);
    assert_eq!(dispatch(&Key::Named(NamedKey::ArrowLeft)), Vec::new());
    assert_eq!(dispatch(&Key::Named(NamedKey::Escape)), Vec::new());
    assert_eq!(dispatch(&Key::Named(NamedKey::CapsLock)), Vec::new());
    assert_eq!(dispatch(&Key::Named(NamedKey::LControl)), Vec::new());
}

#[test]
fn dispatch_prints_fallback_text_for_other_named_keys() {
    let text: Vec<char> = vec!['F', '1'];
    let ops = dispatch(&Key::Named(NamedKey::Other(text)));
    assert_eq!(ops, vec![TerminalOp::PutChar('F'), TerminalOp::PutChar('1')]);
}

#[test]
fn unlisted_key_decodes_to_its_textual_representation() {
    let mut decoder = KeyboardDecoder::new();
    // F1 make code
    let key = decoder.feed(0x3B);
    match key {
        Some(Key::Named(NamedKey::Other(text))) => {
            let s: String = text.into_iter().collect();
            assert_eq!(s, "F1");
        },
        other => panic!("F1 should decode to its textual fallback, got {:?}", other),
    }
}
