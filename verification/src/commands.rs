//! The two shell commands whose behaviour is this library's to state: `echo`
//! re-joins whitespace-separated arguments with single spaces and trims
//! trailing whitespace, and `clear` asks the terminal for one clear-screen
//! action. The rest of the fixed-text command set is plain output and lives
//! with the caller.

use vstd::prelude::*;
use crate::dispatch::TerminalOp;

verus! {

/// Whitespace as the shell's argument splitting sees it: the Unicode
/// white-space characters.
pub open spec fn is_whitespace_char(c: char) -> bool {
    ||| c as u32 == 0x20
    ||| (0x09 <= c as u32 && c as u32 <= 0x0D)
    ||| c as u32 == 0x85
    ||| c as u32 == 0xA0
    ||| c as u32 == 0x1680
    ||| (0x2000 <= c as u32 && c as u32 <= 0x200A)
    ||| c as u32 == 0x2028
    ||| c as u32 == 0x2029
    ||| c as u32 == 0x202F
    ||| c as u32 == 0x205F
    ||| c as u32 == 0x3000
}

/// Whether the character counts as whitespace for argument splitting.
pub fn is_whitespace(c: char) -> (r: bool)
    ensures
        r == is_whitespace_char(c),
{
    let u = c as u32;
    u == 0x20 || (0x09 <= u && u <= 0x0D) || u == 0x85 || u == 0xA0 || u == 0x1680
        || (0x2000 <= u && u <= 0x200A) || u == 0x2028 || u == 0x2029 || u == 0x202F
        || u == 0x205F || u == 0x3000
}

/// The tail of the echoed line from position `i` on. `in_word` says whether
/// the character before position `i` was part of a word, `started` whether
/// any word has begun: a word character continues the current word, opens
/// the first word, or opens a later word behind a single separating space;
/// whitespace only closes the current word, so none of it survives at the
/// ends of the line.
pub open spec fn echo_tail(s: Seq<char>, i: int, in_word: bool, started: bool) -> Seq<char>
    decreases s.len() - i,
{
    if i < 0 || i >= s.len() {
        Seq::empty()
    } else if is_whitespace_char(s[i]) {
        echo_tail(s, i + 1, false, started)
    } else if in_word {
        seq![s[i]] + echo_tail(s, i + 1, true, true)
    } else if started {
        seq![' ', s[i]] + echo_tail(s, i + 1, true, true)
    } else {
        seq![s[i]] + echo_tail(s, i + 1, true, true)
    }
}

/// The echoed line: the whitespace-separated words of the raw argument text,
/// re-joined with single spaces, with no leading or trailing whitespace.
pub open spec fn echo_spec(s: Seq<char>) -> Seq<char> {
    echo_tail(s, 0, false, false)
}

/// `echo`: builds the line to print from the raw argument text.
pub fn echo(args: &Vec<char>) -> (line: Vec<char>)
    ensures
        line@ == echo_spec(args@),
{
    let mut line: Vec<char> = Vec::new();
    let mut in_word = false;
    let mut started = false;
    let mut i: usize = 0;
    while i < args.len()
        invariant
            0 <= i <= args@.len(),
            in_word ==> started,
            echo_spec(args@) == line@ + echo_tail(args@, i as int, in_word, started),
        decreases args@.len() - i,
    {
        let c = args[i];
        let ghost prev: Seq<char> = line@;
        let ghost rest: Seq<char> = echo_tail(args@, i as int + 1, true, true);
        if is_whitespace(c) {
            in_word = false;
        } else if in_word {
            line.push(c);
            proof {
                assert(prev + (seq![c] + rest) =~= prev.push(c) + rest);
            }
        } else if started {
            line.push(' ');
            line.push(c);
            in_word = true;
            proof {
                assert(prev + (seq![' ', c] + rest) =~= prev.push(' ').push(c) + rest);
            }
        } else {
            line.push(c);
            in_word = true;
            started = true;
            proof {
                assert(prev + (seq![c] + rest) =~= prev.push(c) + rest);
            }
        }
        i = i + 1;
    }
    proof {
        assert(line@ + echo_tail(args@, i as int, in_word, started) =~= line@);
    }
    line
}

/// `clear`: the whole command's effect is one clear-screen action for the
/// terminal collaborator to perform.
pub fn clear() -> (ops: Vec<TerminalOp>)
    ensures
        ops@ == seq![TerminalOp::ClearScreen],
{
    let mut ops: Vec<TerminalOp> = Vec::new();
    ops.push(TerminalOp::ClearScreen);
    assert(ops@ =~= seq![TerminalOp::ClearScreen]);
    ops
}

} // verus!
