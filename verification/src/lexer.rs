//! The lexer: a cursor over the source text that produces one token at a
//! time, with one-token lookahead held in a cache.

use vstd::prelude::*;
use vstd::string::{StrSliceExecFns, StringExecFns};

use crate::scan::{
    comment_end, lemma_comment_end_bounds, lemma_scan_bounds, lemma_skip_spaces_bounds,
    lemma_word_end_bounds, scan, skip_spaces, word_end,
};
use crate::token::Token;
use crate::vocabulary::{is_digit, is_letter, is_space, is_symbol_char};

verus! {

/// Number of characters at the head of `src` from position `i` on that
/// satisfy the scanner's whitespace class.
fn exec_skip_spaces(src: &str, len: usize, i: usize) -> (j: usize)
    requires
        len == src@.len(),
        i <= len,
    ensures
        j as int == skip_spaces(src@, i as int),
        i <= j <= len,
{
    let mut j = i;
    while j < len
        invariant
            len == src@.len(),
            i <= j <= len,
            skip_spaces(src@, i as int) == skip_spaces(src@, j as int),
        decreases len - j,
    {
        if !is_space(src.get_char(j)) {
            return j;
        }
        j = j + 1;
    }
    j
}

/// End of the word that starts at `i`.
fn exec_word_end(src: &str, len: usize, i: usize) -> (j: usize)
    requires
        len == src@.len(),
        i <= len,
    ensures
        j as int == word_end(src@, i as int),
        i <= j <= len,
{
    let mut j = i;
    while j < len
        invariant
            len == src@.len(),
            i <= j <= len,
            word_end(src@, i as int) == word_end(src@, j as int),
        decreases len - j,
    {
        let c = src.get_char(j);
        if is_space(c) || is_symbol_char(c) {
            return j;
        }
        j = j + 1;
    }
    j
}

/// End of the comment that starts at `i`.
fn exec_comment_end(src: &str, len: usize, i: usize) -> (j: usize)
    requires
        len == src@.len(),
        i <= len,
    ensures
        j as int == comment_end(src@, i as int),
        i <= j <= len,
{
    let mut j = i;
    while j < len
        invariant
            len == src@.len(),
            i <= j <= len,
            comment_end(src@, i as int) == comment_end(src@, j as int),
        decreases len - j,
    {
        let c = src.get_char(j);
        if c == '\n' || c == '\r' {
            return j;
        }
        j = j + 1;
    }
    j
}

/// Whether two pieces of text hold the same characters.
fn str_eq(a: &str, b: &str) -> (r: bool)
    ensures
        r == (a@ == b@),
{
    let sa = String::from_str(a);
    let sb = String::from_str(b);
    sa == sb
}

/// Scan the token that starts at or after position `i` of `src`; return it
/// with the position just after it.
fn scan_from(src: &str, len: usize, i: usize) -> (r: (Token, usize))
    requires
        len == src@.len(),
        i <= len,
    ensures
        r.0@ == scan(src@, i as int).0,
        r.1 as int == scan(src@, i as int).1,
        i <= r.1 <= len,
{
    proof {
        lemma_scan_bounds(src@, i as int);
        lemma_skip_spaces_bounds(src@, i as int);
    }
    let j = exec_skip_spaces(src, len, i);
    if j >= len {
        return (Token::TokEof, j);
    }
    proof {
        lemma_word_end_bounds(src@, j as int);
        lemma_comment_end_bounds(src@, j as int);
    }
    let c = src.get_char(j);
    if is_letter(c) {
        let k = exec_word_end(src, len, j);
        let word = src.substring_char(j, k);
        let t = if str_eq(word, "def") {
            Token::TokDef
        } else if str_eq(word, "extern") {
            Token::TokExtern
        } else {
            Token::TokIdentifier(String::from_str(word))
        };
        (t, k)
    } else if is_digit(c) {
        let k = exec_word_end(src, len, j);
        (Token::TokNumber(String::from_str(src.substring_char(j, k))), k)
    } else if c == '#' {
        let k = exec_comment_end(src, len, j);
        (Token::TokComment(String::from_str(src.substring_char(j, k))), k)
    } else {
        (Token::TokSymbol(c), j + 1)
    }
}

/// A cursor over the source text with one-token lookahead: the token that
/// starts at position `start` is already scanned and cached, and `pos` is the
/// position just after it.
pub struct Lexer {
    src: String,
    len: usize,
    pos: usize,
    cached: Token,
    start: Ghost<int>,
}

impl Lexer {
    /// The whole source text the lexer walks over.
    pub closed spec fn text(self) -> Seq<char> {
        self.src@
    }

    /// Position of the unconsumed part of the text: the cached token is the
    /// one that scanning finds there.
    pub closed spec fn cur(self) -> int {
        self.start@
    }

    /// The cached token together with the cursor agrees with what scanning
    /// the text at the current position yields.
    pub closed spec fn wf(self) -> bool {
        &&& self.len == self.src@.len()
        &&& 0 <= self.start@ <= self.pos <= self.len
        &&& scan(self.src@, self.start@) == (self.cached@, self.pos as int)
    }

    /// A well-formed lexer's cursor lies inside its text.
    pub proof fn lemma_wf_bounds(self)
        requires
            self.wf(),
        ensures
            0 <= self.cur() <= self.text().len(),
    {
    }

    /// A lexer at the start of `src`, with the first token already scanned
    /// into the cache.
    pub fn new(src: &str) -> (r: Lexer)
        ensures
            r.wf(),
            r.text() == src@,
            r.cur() == 0,
    {
        let owned = String::from_str(src);
        let len = owned.as_str().unicode_len();
        let (tok, pos) = scan_from(owned.as_str(), len, 0);
        Lexer { src: owned, len, pos, cached: tok, start: Ghost(0) }
    }

    /// The cached token, without advancing.
    pub fn peek(&self) -> (t: &Token)
        requires
            self.wf(),
        ensures
            t@ == scan(self.text(), self.cur()).0,
    {
        &self.cached
    }

    /// The cached token by value; the next token is scanned into the cache.
    /// Once the end of the text is reached, every further call keeps
    /// yielding `Eof`.
    pub fn pop(&mut self) -> (t: Token)
        requires
            old(self).wf(),
        ensures
            final(self).wf(),
            final(self).text() == old(self).text(),
            t@ == scan(old(self).text(), old(self).cur()).0,
            final(self).cur() == scan(old(self).text(), old(self).cur()).1,
    {
        let (tok, newpos) = scan_from(self.src.as_str(), self.len, self.pos);
        let mut popped = tok;
        core::mem::swap(&mut popped, &mut self.cached);
        self.start = Ghost(self.pos as int);
        self.pos = newpos;
        popped
    }
}

} // verus!
