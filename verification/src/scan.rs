//! Mathematical model of lexical scanning: where each kind of token ends, and
//! which token starts at a given position of the source text.

use vstd::prelude::*;

use crate::token::Tok;
use crate::vocabulary::{spec_is_digit, spec_is_letter, spec_is_space, spec_is_symbol_char};

verus! {

/// Position after the run of insignificant whitespace that starts at `i`.
pub open spec fn skip_spaces(s: Seq<char>, i: int) -> int
    decreases s.len() - i,
{
    if 0 <= i && i < s.len() && spec_is_space(s[i]) {
        skip_spaces(s, i + 1)
    } else {
        i
    }
}

/// End of the word that starts at `i`: the first position at or after `i`
/// holding whitespace or a symbol character, or the end of the text.
pub open spec fn word_end(s: Seq<char>, i: int) -> int
    decreases s.len() - i,
{
    if 0 <= i && i < s.len() && !spec_is_space(s[i]) && !spec_is_symbol_char(s[i]) {
        word_end(s, i + 1)
    } else {
        i
    }
}

/// End of the comment that starts at `i`: the first position at or after `i`
/// holding a line terminator, or the end of the text. A comment may contain
/// whitespace and symbol characters; the line terminator is not part of it.
pub open spec fn comment_end(s: Seq<char>, i: int) -> int
    decreases s.len() - i,
{
    if 0 <= i && i < s.len() && s[i] != '\n' && s[i] != '\r' {
        comment_end(s, i + 1)
    } else {
        i
    }
}

/// The token a word stands for: a keyword where the word is one, otherwise an
/// identifier.
pub open spec fn word_token(w: Seq<char>) -> Tok {
    if w == "def"@ {
        Tok::Def
    } else if w == "extern"@ {
        Tok::Extern
    } else {
        Tok::Identifier(w)
    }
}

/// The token that starts at or after position `i` of the text, and the
/// position just after it. Scanning first skips whitespace; at the end of the
/// text the token is `Eof`.
pub open spec fn scan(s: Seq<char>, i: int) -> (Tok, int) {
    let j = skip_spaces(s, i);
    if !(0 <= j && j < s.len()) {
        (Tok::Eof, j)
    } else {
        let c = s[j];
        if spec_is_letter(c) {
            (word_token(s.subrange(j, word_end(s, j))), word_end(s, j))
        } else if spec_is_digit(c) {
            (Tok::Number(s.subrange(j, word_end(s, j))), word_end(s, j))
        } else if c == '#' {
            (Tok::Comment(s.subrange(j, comment_end(s, j))), comment_end(s, j))
        } else {
            (Tok::Symbol(c), j + 1)
        }
    }
}

pub proof fn lemma_skip_spaces_bounds(s: Seq<char>, i: int)
    requires
        0 <= i <= s.len(),
    ensures
        i <= skip_spaces(s, i) <= s.len(),
        skip_spaces(s, i) < s.len() ==> !spec_is_space(s[skip_spaces(s, i)]),
    decreases s.len() - i,
{
    if i < s.len() && spec_is_space(s[i]) {
        lemma_skip_spaces_bounds(s, i + 1);
    }
}

pub proof fn lemma_word_end_bounds(s: Seq<char>, i: int)
    requires
        0 <= i <= s.len(),
    ensures
        i <= word_end(s, i) <= s.len(),
        i < s.len() && !spec_is_space(s[i]) && !spec_is_symbol_char(s[i]) ==> i < word_end(s, i),
    decreases s.len() - i,
{
    if i < s.len() && !spec_is_space(s[i]) && !spec_is_symbol_char(s[i]) {
        lemma_word_end_bounds(s, i + 1);
    }
}

pub proof fn lemma_comment_end_bounds(s: Seq<char>, i: int)
    requires
        0 <= i <= s.len(),
    ensures
        i <= comment_end(s, i) <= s.len(),
        i < s.len() && s[i] != '\n' && s[i] != '\r' ==> i < comment_end(s, i),
    decreases s.len() - i,
{
    if i < s.len() && s[i] != '\n' && s[i] != '\r' {
        lemma_comment_end_bounds(s, i + 1);
    }
}

/// Scanning stays inside the text, consumes at least one character for every
/// token but `Eof`, and reaches `Eof` exactly at the end of the text.
pub proof fn lemma_scan_bounds(s: Seq<char>, i: int)
    requires
        0 <= i <= s.len(),
    ensures
        i <= scan(s, i).1 <= s.len(),
        !(scan(s, i).0 is Eof) ==> i < scan(s, i).1,
        scan(s, i).0 is Eof ==> scan(s, i).1 == s.len(),
{
    lemma_skip_spaces_bounds(s, i);
    let j = skip_spaces(s, i);
    if j < s.len() {
        lemma_word_end_bounds(s, j);
        lemma_comment_end_bounds(s, j);
    }
}

proof fn lemma_skip_spaces_exact(s: Seq<char>, i: int, j: int)
    requires
        0 <= i <= j <= s.len(),
        forall|k: int| i <= k < j ==> spec_is_space(#[trigger] s[k]),
        j < s.len() ==> !spec_is_space(s[j]),
    ensures
        skip_spaces(s, i) == j,
    decreases j - i,
{
    if i < j {
        assert(spec_is_space(s[i]));
        lemma_skip_spaces_exact(s, i + 1, j);
    }
}

/// Tokenizing a text that holds one symbol character, whitespace-padded or
/// not, yields the symbol token of that character.
pub proof fn lemma_tokenize_symbol(pad: Seq<char>, c: char, tail: Seq<char>)
    requires
        forall|k: int| 0 <= k < pad.len() ==> spec_is_space(#[trigger] pad[k]),
        spec_is_symbol_char(c),
    ensures
        scan(pad + seq![c] + tail, 0) == (Tok::Symbol(c), pad.len() as int + 1),
{
    let s = pad + seq![c] + tail;
    assert(s.len() == pad.len() + 1 + tail.len());
    assert(s[pad.len() as int] == c);
    assert forall|k: int| 0 <= k < pad.len() implies spec_is_space(#[trigger] s[k]) by {
        assert(s[k] == pad[k]);
    }
    lemma_skip_spaces_exact(s, 0, pad.len() as int);
}

/// A word that is no keyword stands for an identifier token.
pub proof fn lemma_word_token_identifier(w: Seq<char>)
    requires
        w != "def"@,
        w != "extern"@,
    ensures
        word_token(w) == Tok::Identifier(w),
{
}

/// Once scanning reaches the end of the text it stays there: after an `Eof`
/// the next scan yields `Eof` again, indefinitely.
pub proof fn lemma_eof_stable(s: Seq<char>, i: int)
    requires
        0 <= i <= s.len(),
        scan(s, i).0 is Eof,
    ensures
        scan(s, i).1 == s.len(),
        scan(s, s.len() as int) == (Tok::Eof, s.len() as int),
{
    lemma_scan_bounds(s, i);
    lemma_skip_spaces_bounds(s, s.len() as int);
}

} // verus!
