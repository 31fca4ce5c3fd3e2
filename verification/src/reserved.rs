//! Texts that the KDL parser cannot report on.
//!
//! The parser refuses `true`, `false` and `null` as a type annotation, that
//! is, right after an opening bracket. To report it, it cuts as many bytes as
//! the word has out of the text that follows the word. Where fewer bytes
//! follow, or where the cut would part a character, it cannot. Such texts are
//! told apart here, so that the parser never sees one.

use vstd::prelude::*;
use vstd::utf8::encode_utf8;
use vstd::utf8::encode_utf8_valid_utf8;
use vstd::utf8::is_ascii_chars_encode_utf8;
use vstd::utf8::is_char_boundary;

verus! {

/// Whether `word` stands in `bytes` from `at` on.
pub open spec fn stands_at(bytes: Seq<u8>, at: int, word: Seq<u8>) -> bool {
    &&& 0 <= at
    &&& at + word.len() <= bytes.len()
    &&& bytes.subrange(at, at + word.len()) == word
}

/// `opener` is an opening bracket and a word, so the word has one byte less
/// than `opener`. Where `opener` stands at `at`, as many bytes as the word
/// has follow it, and they end where a character ends.
pub open spec fn word_fits(bytes: Seq<u8>, at: int, opener: Seq<u8>) -> bool {
    stands_at(bytes, at, opener) ==> is_char_boundary(bytes, at + 2 * opener.len() - 1)
}

/// Each of the three reserved words fits at `at`.
pub open spec fn words_fit_at(bytes: Seq<u8>, at: int) -> bool {
    &&& word_fits(bytes, at, encode_utf8("(true"@))
    &&& word_fits(bytes, at, encode_utf8("(false"@))
    &&& word_fits(bytes, at, encode_utf8("(null"@))
}

/// Wherever in `text` an opening bracket is followed by `true`, `false` or
/// `null`, as many bytes as the word has follow the word, and they end where
/// a character ends.
///
/// This asks a little more than the parser needs: it looks at every such
/// place, also in a string or a comment and where the word goes on, as in
/// `(nullable)`, and the parser reports on none of those.
pub open spec fn reserved_words_fit(text: Seq<char>) -> bool {
    forall|at: int| #[trigger] words_fit_at(encode_utf8(text), at)
}

fn stands(bytes: &[u8], at: usize, word: &[u8]) -> (r: bool)
    ensures
        r == stands_at(bytes@, at as int, word@),
{
    if at > bytes.len() || word.len() > bytes.len() - at {
        return false;
    }
    let mut j: usize = 0;
    while j < word.len()
        invariant
            j <= word.len(),
            at + word.len() <= bytes.len(),
            bytes@.subrange(at as int, at + j) == word@.subrange(0, j as int),
        decreases word.len() - j,
    {
        if bytes[at + j] != word[j] {
            assert(bytes@.subrange(at as int, at + word.len())[j as int] != word@[j as int]);
            return false;
        }
        assert(bytes@.subrange(at as int, at + j + 1) == bytes@.subrange(at as int, at + j).push(
            bytes@[at + j],
        ));
        assert(word@.subrange(0, j + 1) == word@.subrange(0, j as int).push(word@[j as int]));
        j += 1;
    }
    assert(word@.subrange(0, word.len() as int) == word@);
    true
}

fn fits(text: &str, at: usize, opener: &str) -> (r: bool)
    requires
        1 <= encode_utf8(opener@).len() <= 8,
    ensures
        r == word_fits(encode_utf8(text@), at as int, encode_utf8(opener@)),
{
    let bytes = text.as_bytes();
    let word = opener.as_bytes();
    if !stands(bytes, at, word) {
        return true;
    }
    proof {
        encode_utf8_valid_utf8(text@);
    }
    let len: usize = bytes.len();
    let after: usize = at + word.len();
    let more: usize = word.len() - 1;
    if more > len - after {
        false
    } else {
        text.is_char_boundary(after + more)
    }
}

/// Tells whether the reserved words fit in `text`.
pub fn check_reserved_words(text: &str) -> (ok: bool)
    ensures
        ok == reserved_words_fit(text@),
{
    proof {
        reveal_strlit("(true");
        reveal_strlit("(false");
        reveal_strlit("(null");
        is_ascii_chars_encode_utf8("(true"@);
        is_ascii_chars_encode_utf8("(false"@);
        is_ascii_chars_encode_utf8("(null"@);
    }
    let ghost bytes = encode_utf8(text@);
    let n: usize = text.as_bytes().len();
    let mut at: usize = 0;
    while at < n
        invariant
            at <= n,
            n == bytes.len(),
            bytes == encode_utf8(text@),
            1 <= encode_utf8("(true"@).len() <= 8,
            1 <= encode_utf8("(false"@).len() <= 8,
            1 <= encode_utf8("(null"@).len() <= 8,
            forall|k: int| 0 <= k < at ==> #[trigger] words_fit_at(bytes, k),
        decreases n - at,
    {
        if !(fits(text, at, "(true") && fits(text, at, "(false") && fits(text, at, "(null")) {
            assert(!words_fit_at(bytes, at as int));
            return false;
        }
        at += 1;
    }
    assert forall|k: int| #[trigger] words_fit_at(bytes, k) by {
        if k < 0 || k >= n {
            assert(!stands_at(bytes, k, encode_utf8("(true"@)));
            assert(!stands_at(bytes, k, encode_utf8("(false"@)));
            assert(!stands_at(bytes, k, encode_utf8("(null"@)));
        }
    }
    true
}

} // verus!
