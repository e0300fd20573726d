//! Removal of terminal colour and cursor sequences from diagnostic text.
//!
//! A sequence is the escape character, `[`, any number of digits and
//! semicolons, and one of the letters `m`, `G`, `K`, `H`, `J`, `F`.

use crate::text::{chars_of, is_digit, string_of};
use vstd::prelude::*;

verus! {

/// The escape character that opens a sequence.
pub const ESCAPE: char = '\u{1b}';

/// A character that may stand among the parameters of a sequence.
pub open spec fn is_parameter(c: char) -> bool {
    is_digit(c) || c == ';'
}

/// A character that ends a sequence.
pub open spec fn is_final(c: char) -> bool {
    c == 'm' || c == 'G' || c == 'K' || c == 'H' || c == 'J' || c == 'F'
}

/// The first position at or after `i` that holds no parameter character.
pub open spec fn parameters_end(s: Seq<char>, i: int) -> int
    decreases s.len() - i,
{
    if 0 <= i < s.len() && is_parameter(s[i]) {
        parameters_end(s, i + 1)
    } else {
        i
    }
}

/// The length of the sequence that starts at `i`, or 0 if none starts there.
pub open spec fn sequence_len(s: Seq<char>, i: int) -> int {
    if 0 <= i && i + 1 < s.len() && s[i] == ESCAPE && s[i + 1] == '[' {
        let e = parameters_end(s, i + 2);
        if e < s.len() && is_final(s[e]) {
            e + 1 - i
        } else {
            0
        }
    } else {
        0
    }
}

/// The text from position `i` on, without its sequences, read from left to right.
pub open spec fn strip_from(s: Seq<char>, i: int) -> Seq<char>
    decreases s.len() - i,
{
    if i < 0 || i >= s.len() {
        Seq::empty()
    } else if sequence_len(s, i) > 0 {
        strip_from(s, i + sequence_len(s, i))
    } else {
        seq![s[i]] + strip_from(s, i + 1)
    }
}

/// The text without its sequences.
pub open spec fn strip(s: Seq<char>) -> Seq<char> {
    strip_from(s, 0)
}

fn is_parameter_char(c: char) -> (r: bool)
    ensures
        r == is_parameter(c),
{
    ('0' <= c && c <= '9') || c == ';'
}

fn is_final_char(c: char) -> (r: bool)
    ensures
        r == is_final(c),
{
    c == 'm' || c == 'G' || c == 'K' || c == 'H' || c == 'J' || c == 'F'
}

/// The length of the sequence that starts at `i`, or 0 if none starts there.
fn sequence_len_at(s: &Vec<char>, i: usize) -> (n: usize)
    requires
        i < s.len(),
    ensures
        n == sequence_len(s@, i as int),
        i + n <= s.len(),
{
    if s.len() - i < 2 || s[i] != ESCAPE || s[i + 1] != '[' {
        return 0;
    }
    let mut e: usize = i + 2;
    while e < s.len() && is_parameter_char(s[e])
        invariant
            i + 2 <= e <= s.len(),
            parameters_end(s@, i + 2) == parameters_end(s@, e as int),
        decreases s.len() - e,
    {
        e += 1;
    }
    if e < s.len() && is_final_char(s[e]) {
        e + 1 - i
    } else {
        0
    }
}

/// The text without its sequences.
pub fn remove_ansi_sequences(text: &str) -> (r: String)
    ensures
        r@ == strip(text@),
{
    let s = chars_of(text);
    let mut out: Vec<char> = Vec::new();
    let mut i: usize = 0;
    while i < s.len()
        invariant
            0 <= i <= s.len(),
            out@ + strip_from(s@, i as int) == strip(s@),
        decreases s.len() - i,
    {
        let n = sequence_len_at(&s, i);
        if n > 0 {
            i += n;
        } else {
            proof {
                assert(out@.push(s[i as int]) + strip_from(s@, i + 1) =~= out@ + (seq![s[i as int]]
                    + strip_from(s@, i + 1)));
            }
            out.push(s[i]);
            i += 1;
        }
    }
    assert(out@ + Seq::<char>::empty() =~= out@);
    string_of(&out)
}

} // verus!
