//! Character classes of the language and the binary-operator precedence table.
use vstd::string::StrSliceExecFns;

use vstd::prelude::*;

verus! {

/// Characters that form one-character symbol tokens: the grouping characters
/// `(` `)` `,` and the six binary-operator characters.
pub open spec fn spec_is_symbol_char(c: char) -> bool {
    c == '(' || c == ')' || c == ',' || c == '+' || c == '-' || c == '*' || c == '/' || c == '>'
        || c == '<'
}

/// Binary-operator precedence: `<` `>` bind loosest (10), then `+` `-` (20),
/// then `*` `/` (30); any other character is not a binary operator and gets -1.
pub open spec fn spec_op_precedence(c: char) -> int {
    if c == '<' || c == '>' {
        10
    } else if c == '+' || c == '-' {
        20
    } else if c == '*' || c == '/' {
        30
    } else {
        -1
    }
}

/// Insignificant whitespace between tokens: the ASCII whitespace characters.
pub open spec fn spec_is_space(c: char) -> bool {
    c == ' ' || c == '\t' || c == '\n' || c == '\r' || c == '\u{b}' || c == '\u{c}'
}

/// Characters that start an identifier or keyword token.
pub open spec fn spec_is_letter(c: char) -> bool {
    ('a' <= c && c <= 'z') || ('A' <= c && c <= 'Z')
}

/// Characters that start a numeric literal token.
pub open spec fn spec_is_digit(c: char) -> bool {
    '0' <= c && c <= '9'
}

/// Every character of `w` between `lo` (inclusive) and `hi` (exclusive) is a
/// decimal digit.
pub open spec fn all_digits(w: Seq<char>, lo: int, hi: int) -> bool {
    forall|k: int| lo <= k < hi ==> spec_is_digit(w[k])
}

/// The numeral grammar of the language: one or more digits, optionally
/// followed by one dot and a (possibly empty) run of digits. Every such text
/// is a well-formed floating-point literal; exponent notation is not part of
/// the language.
pub open spec fn spec_is_valid_numeral(w: Seq<char>) -> bool {
    &&& w.len() >= 1
    &&& spec_is_digit(w[0])
    &&& (all_digits(w, 0, w.len() as int) || (exists|p: int|
        1 <= p < w.len() && #[trigger] w[p] == '.' && all_digits(w, 0, p) && all_digits(
            w,
            p + 1,
            w.len() as int,
        )))
}

#[verifier::when_used_as_spec(spec_is_symbol_char)]
pub fn is_symbol_char(c: char) -> (r: bool)
    ensures
        r == spec_is_symbol_char(c),
{
    c == '(' || c == ')' || c == ',' || c == '+' || c == '-' || c == '*' || c == '/' || c == '>'
        || c == '<'
}

#[verifier::when_used_as_spec(spec_is_space)]
pub fn is_space(c: char) -> (r: bool)
    ensures
        r == spec_is_space(c),
{
    c == ' ' || c == '\t' || c == '\n' || c == '\r' || c == '\u{b}' || c == '\u{c}'
}

#[verifier::when_used_as_spec(spec_is_letter)]
pub fn is_letter(c: char) -> (r: bool)
    ensures
        r == spec_is_letter(c),
{
    ('a' <= c && c <= 'z') || ('A' <= c && c <= 'Z')
}

#[verifier::when_used_as_spec(spec_is_digit)]
pub fn is_digit(c: char) -> (r: bool)
    ensures
        r == spec_is_digit(c),
{
    '0' <= c && c <= '9'
}

/// Whether `text` is a numeral of the language: digits, with at most one dot,
/// which may not come first.
pub fn is_valid_numeral(text: &str) -> (r: bool)
    ensures
        r == spec_is_valid_numeral(text@),
{
    let len = text.unicode_len();
    if len == 0 {
        return false;
    }
    if !is_digit(text.get_char(0)) {
        return false;
    }
    let mut k: usize = 1;
    // Position of the dot seen so far; 0 means none, since a dot cannot
    // stand at position 0.
    let mut dot: usize = 0;
    while k < len
        invariant
            len == text@.len(),
            1 <= k <= len,
            spec_is_digit(text@[0]),
            dot == 0 ==> all_digits(text@, 0, k as int),
            dot != 0 ==> 1 <= dot < k && text@[dot as int] == '.' && all_digits(
                text@,
                0,
                dot as int,
            ) && all_digits(text@, dot as int + 1, k as int),
        decreases len - k,
    {
        let ghost w = text@;
        let c = text.get_char(k);
        if is_digit(c) {
            assert(all_digits(w, 0, k as int) ==> all_digits(w, 0, k as int + 1));
            assert(all_digits(w, dot as int + 1, k as int) ==> all_digits(
                w,
                dot as int + 1,
                k as int + 1,
            ));
        } else if c == '.' && dot == 0 {
            dot = k;
            assert(all_digits(w, k as int + 1, k as int + 1));
        } else {
            // `w[k]` is neither a digit nor an admissible dot, so no split of
            // the text fits the numeral grammar.
            proof {
                assert(!spec_is_digit(w[k as int]));
                assert(!all_digits(w, 0, w.len() as int)) by {
                    if dot == 0 {
                        assert(!spec_is_digit(w[k as int]));
                    } else {
                        assert(!spec_is_digit(w[dot as int]));
                    }
                }
                assert forall|p: int|
                    1 <= p < w.len() && #[trigger] w[p] == '.' implies !(all_digits(w, 0, p)
                    && all_digits(w, p + 1, w.len() as int)) by {
                    if dot == 0 {
                        if p < k {
                            assert(all_digits(w, 0, k as int));
                            assert(spec_is_digit(w[p]));
                        } else if p == k {
                            assert(w[k as int] != '.');
                        } else {
                            assert(!spec_is_digit(w[k as int]));
                        }
                    } else {
                        assert(w[dot as int] == '.');
                        assert(!spec_is_digit(w[dot as int]));
                        if p == dot {
                            assert(!spec_is_digit(w[k as int]));
                        }
                    }
                }
            }
            return false;
        }
        k = k + 1;
    }
    proof {
        if dot != 0 {
            assert(1 <= dot < text@.len() && text@[dot as int] == '.' && all_digits(
                text@,
                0,
                dot as int,
            ) && all_digits(text@, dot as int + 1, text@.len() as int));
        }
    }
    true
}

pub fn get_op_precedence(op: &char) -> (p: i8)
    ensures
        p as int == spec_op_precedence(*op),
{
    match *op {
        '<' | '>' => 10,
        '+' | '-' => 20,
        '*' | '/' => 30,
        _ => -1,
    }
}

} // verus!
