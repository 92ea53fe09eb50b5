//! Text as the sequence of its characters.
//!
//! Device names, codec names and encoder names are all recognised by the words they hold, so
//! the two questions asked here are whether a text holds a given word, and whether two texts
//! are the same.

use vstd::prelude::*;

verus! {

/// Whether `needle` occurs in `hay` as a run of consecutive characters.
pub open spec fn holds_text(hay: Seq<char>, needle: Seq<char>) -> bool {
    exists|i: int| #[trigger] occurs_at(hay, needle, i)
}

/// Whether `needle` occurs in `hay` with its first character at position `i`.
pub open spec fn occurs_at(hay: Seq<char>, needle: Seq<char>, i: int) -> bool {
    &&& 0 <= i
    &&& i + needle.len() <= hay.len()
    &&& hay.subrange(i, i + needle.len()) == needle
}

/// The lower case of an ASCII letter; any other character is its own.
pub open spec fn ascii_lower(c: char) -> char {
    if 'A' <= c <= 'Z' {
        (c as u32 + 32) as char
    } else {
        c
    }
}

/// A text with every ASCII letter in lower case.
pub open spec fn ascii_lowercase(s: Seq<char>) -> Seq<char> {
    s.map_values(|c: char| ascii_lower(c))
}

/// The characters of a text, in order.
pub fn chars_of(s: &str) -> (chars: Vec<char>)
    ensures
        chars@ == s@,
{
    let mut chars: Vec<char> = Vec::new();
    for c in it: s.chars()
        invariant
            it.seq() == s@,
            chars@ == s@.take(it.index() as int),
    {
        chars.push(c);
    }
    assert(s@.take(s@.len() as int) =~= s@);
    chars
}

/// Lower-cases one ASCII letter.
fn lower_char(c: char) -> (lower: char)
    ensures
        lower == ascii_lower(c),
{
    if 'A' <= c && c <= 'Z' {
        (c as u8 + 32u8) as char
    } else {
        c
    }
}

/// The characters of a text with every ASCII letter in lower case.
pub fn lowercase_chars(s: &str) -> (chars: Vec<char>)
    ensures
        chars@ == ascii_lowercase(s@),
{
    let all: Vec<char> = chars_of(s);
    let mut chars: Vec<char> = Vec::new();
    for i in 0..all.len()
        invariant
            all@ == s@,
            chars@ == ascii_lowercase(s@).take(i as int),
    {
        chars.push(lower_char(all[i]));
    }
    assert(ascii_lowercase(s@).take(s@.len() as int) =~= ascii_lowercase(s@));
    chars
}

/// Whether the characters `needle` stand in `hay` from position `start` on.
fn matches_at(hay: &Vec<char>, needle: &Vec<char>, start: usize) -> (found: bool)
    requires
        start + needle@.len() <= hay@.len(),
    ensures
        found == occurs_at(hay@, needle@, start as int),
{
    for j in 0..needle.len()
        invariant
            start + needle.len() <= hay.len(),
            forall|k: int| 0 <= k < j ==> hay@[start + k] == needle@[k],
    {
        if hay[start + j] != needle[j] {
            assert(hay@.subrange(start as int, start + needle@.len())[j as int] != needle@[j as int]);
            return false;
        }
    }
    assert(hay@.subrange(start as int, start + needle@.len()) =~= needle@);
    true
}

/// Whether `word` occurs in `hay` as a run of consecutive characters.
pub fn chars_hold(hay: &Vec<char>, word: &str) -> (found: bool)
    ensures
        found == holds_text(hay@, word@),
{
    let needle: Vec<char> = chars_of(word);
    if needle.len() > hay.len() {
        return false;
    }
    let last: usize = hay.len() - needle.len();
    let mut i: usize = 0;
    while i <= last
        invariant
            needle@ == word@,
            last + needle@.len() == hay@.len(),
            i <= last + 1,
            forall|k: int| 0 <= k < i ==> !#[trigger] occurs_at(hay@, needle@, k),
        decreases last + 1 - i,
    {
        if matches_at(hay, &needle, i) {
            return true;
        }
        if i == last {
            return false;
        }
        i = i + 1;
    }
    false
}

/// Whether `word` occurs in `hay` as a run of consecutive characters.
pub fn text_holds(hay: &str, word: &str) -> (found: bool)
    ensures
        found == holds_text(hay@, word@),
{
    let chars: Vec<char> = chars_of(hay);
    chars_hold(&chars, word)
}

/// Whether two texts hold the same characters.
pub fn same_text(a: &str, b: &str) -> (same: bool)
    ensures
        same == (a@ == b@),
{
    let left: Vec<char> = chars_of(a);
    let right: Vec<char> = chars_of(b);
    if left.len() != right.len() {
        return false;
    }
    for i in 0..left.len()
        invariant
            left@ == a@,
            right@ == b@,
            left@.len() == right@.len(),
            forall|k: int| 0 <= k < i ==> a@[k] == b@[k],
    {
        if left[i] != right[i] {
            return false;
        }
    }
    assert(a@ =~= b@);
    true
}

/// Whether the characters of `word` stand one by one in `text` from position `i` on.
pub open spec fn runs_at(text: Seq<char>, word: Seq<char>, i: int) -> bool {
    &&& 0 <= i
    &&& i + word.len() <= text.len()
    &&& forall|k: int| 0 <= k < word.len() ==> text[i + k] == #[trigger] word[k]
}

/// Whether a character is a letter of a word in lower case, or that letter in upper case.
pub open spec fn letter_matches(c: char, letter: char) -> bool {
    c == letter || ('a' <= letter <= 'z' && c as u32 + 32 == letter as u32)
}

/// Whether the letters of a word in lower case stand in `text` from position `i` on, each in
/// upper or lower case.
pub open spec fn mentioned_at(text: Seq<char>, word: Seq<char>, i: int) -> bool {
    &&& 0 <= i
    &&& i + word.len() <= text.len()
    &&& forall|k: int| 0 <= k < word.len() ==> letter_matches(text[i + k], #[trigger] word[k])
}

/// Whether a text mentions a word, in upper or lower case or both mixed.
pub open spec fn mentions(text: Seq<char>, word: Seq<char>) -> bool {
    exists|i: int| #[trigger] mentioned_at(text, word, i)
}

/// Whether no character of a word is an upper case ASCII letter.
pub open spec fn in_lower_case(word: Seq<char>) -> bool {
    forall|k: int| 0 <= k < word.len() ==> !('A' <= #[trigger] word[k] <= 'Z')
}

/// A text holds a word exactly if from some position on it has the word's characters one by
/// one.
pub proof fn lemma_held_text_stands_in_a_row(hay: Seq<char>, word: Seq<char>)
    ensures
        holds_text(hay, word) <==> exists|i: int| #[trigger] runs_at(hay, word, i),
{
    if holds_text(hay, word) {
        let i = choose|i: int| #[trigger] occurs_at(hay, word, i);
        assert forall|k: int| 0 <= k < word.len() implies hay[i + k] == #[trigger] word[k] by {
            assert(hay.subrange(i, i + word.len())[k] == hay[i + k]);
        }
        assert(runs_at(hay, word, i));
    }
    if exists|i: int| #[trigger] runs_at(hay, word, i) {
        let i = choose|i: int| #[trigger] runs_at(hay, word, i);
        assert(hay.subrange(i, i + word.len()) =~= word);
        assert(occurs_at(hay, word, i));
    }
}

/// Lower-casing keeps every character in its place, moves the letters from A to Z by the
/// distance to their lower case, and leaves all others as they are.
pub proof fn lemma_lowercase_moves_ascii_capitals_only(s: Seq<char>, i: int)
    requires
        0 <= i < s.len(),
    ensures
        ascii_lowercase(s).len() == s.len(),
        65 <= s[i] as u32 <= 90 ==> ascii_lowercase(s)[i] as u32 == s[i] as u32 + 32,
        !(65 <= s[i] as u32 <= 90) ==> ascii_lowercase(s)[i] == s[i],
{
}

/// The lower case of a text holds a word exactly if the text mentions it in any ASCII case.
pub proof fn lemma_lowercase_holds_what_is_mentioned(s: Seq<char>, word: Seq<char>)
    requires
        in_lower_case(word),
    ensures
        holds_text(ascii_lowercase(s), word) <==> mentions(s, word),
{
    let lower = ascii_lowercase(s);
    lemma_held_text_stands_in_a_row(lower, word);
    if exists|i: int| #[trigger] runs_at(lower, word, i) {
        let i = choose|i: int| #[trigger] runs_at(lower, word, i);
        assert forall|k: int| 0 <= k < word.len() implies letter_matches(
            s[i + k],
            #[trigger] word[k],
        ) by {
            lemma_lowercase_moves_ascii_capitals_only(s, i + k);
        }
        assert(mentioned_at(s, word, i));
    }
    if mentions(s, word) {
        let i = choose|i: int| #[trigger] mentioned_at(s, word, i);
        assert forall|k: int| 0 <= k < word.len() implies lower[i + k] == #[trigger] word[k] by {
            lemma_lowercase_moves_ascii_capitals_only(s, i + k);
            assert(letter_matches(s[i + k], word[k]));
        }
        assert(runs_at(lower, word, i));
    }
}

} // verus!
