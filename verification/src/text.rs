//! Characters, words and numbers of a console line.
//!
//! A line is held as a sequence of code points. Words are the maximal runs of
//! characters that are not white space; numbers are read and written digit by
//! digit, in the radix asked for.

use vstd::prelude::*;
use vstd::string::*;

verus! {

/// Whether `c` is Unicode white space: the characters on which a line is split.
pub open spec fn is_space(c: char) -> bool {
    let n = c as u32;
    ||| 0x09 <= n <= 0x0d
    ||| n == 0x20
    ||| n == 0x85
    ||| n == 0xa0
    ||| n == 0x1680
    ||| 0x2000 <= n <= 0x200a
    ||| n == 0x2028
    ||| n == 0x2029
    ||| n == 0x202f
    ||| n == 0x205f
    ||| n == 0x3000
}

/// Tells white space from the rest.
pub fn is_whitespace(c: char) -> (b: bool)
    ensures
        b == is_space(c),
{
    let n: u32 = c as u32;
    (0x09 <= n && n <= 0x0d) || n == 0x20 || n == 0x85 || n == 0xa0 || n == 0x1680 || (0x2000 <= n
        && n <= 0x200a) || n == 0x2028 || n == 0x2029 || n == 0x202f || n == 0x205f || n == 0x3000
}

/// The word that ends here, if one has been started.
pub open spec fn finished(word: Seq<char>) -> Seq<Seq<char>> {
    if word.len() > 0 {
        seq![word]
    } else {
        Seq::empty()
    }
}

/// The words of `s` from index `i` on, where `word` holds the characters of the
/// word that index `i` may continue.
pub open spec fn words_from(s: Seq<char>, i: int, word: Seq<char>) -> Seq<Seq<char>>
    decreases s.len() - i,
{
    if i < 0 || i >= s.len() {
        finished(word)
    } else if is_space(s[i]) {
        finished(word) + words_from(s, i + 1, Seq::empty())
    } else {
        words_from(s, i + 1, word.push(s[i]))
    }
}

/// The words of a line: its maximal runs of characters that are not white space,
/// in the order in which they stand.
pub open spec fn words(s: Seq<char>) -> Seq<Seq<char>> {
    words_from(s, 0, Seq::empty())
}

/// Whether a text is a word: not empty, and without white space.
pub open spec fn is_word(text: Seq<char>) -> bool {
    text.len() > 0 && forall|j: int| 0 <= j < text.len() ==> !is_space(#[trigger] text[j])
}

/// Every word that is found from index `i` on is a word, where the word that
/// has been begun holds no white space.
pub proof fn lemma_words_from(s: Seq<char>, i: int, word: Seq<char>)
    requires
        forall|j: int| 0 <= j < word.len() ==> !is_space(#[trigger] word[j]),
    ensures
        forall|k: int|
            0 <= k < words_from(s, i, word).len() ==> is_word(#[trigger] words_from(s, i, word)[k]),
    decreases s.len() - i,
{
    let found = words_from(s, i, word);
    let head = finished(word);
    assert forall|k: int| 0 <= k < head.len() implies is_word(#[trigger] head[k]) by {
        assert(head[k] == word);
    }
    if i < 0 || i >= s.len() {
        assert(found == head);
    } else if is_space(s[i]) {
        lemma_words_from(s, i + 1, Seq::empty());
        let tail = words_from(s, i + 1, Seq::empty());
        assert(found == head + tail);
        assert forall|k: int| 0 <= k < found.len() implies is_word(#[trigger] found[k]) by {
            if k < head.len() {
                assert(found[k] == head[k]);
            } else {
                assert(found[k] == tail[k - head.len()]);
            }
        }
    } else {
        let longer = word.push(s[i]);
        assert forall|j: int| 0 <= j < longer.len() implies !is_space(#[trigger] longer[j]) by {
            if j < word.len() {
                assert(longer[j] == word[j]);
            }
        }
        lemma_words_from(s, i + 1, longer);
        assert(found == words_from(s, i + 1, longer));
    }
}

/// The words of a line are not empty, and none holds white space.
pub proof fn lemma_words(s: Seq<char>)
    ensures
        forall|k: int| 0 <= k < words(s).len() ==> is_word(#[trigger] words(s)[k]),
{
    lemma_words_from(s, 0, Seq::empty());
}

/// The text of each word of a list.
pub open spec fn texts(list: Seq<Vec<char>>) -> Seq<Seq<char>> {
    list.map_values(|w: Vec<char>| w@)
}

/// The code points of a string slice.
pub fn chars_of(s: &str) -> (v: Vec<char>)
    ensures
        v@ == s@,
{
    let mut v: Vec<char> = Vec::new();
    for c in it: s.chars()
        invariant
            v@ == it.seq().take(it.index()),
            it.seq() == s@,
    {
        v.push(c);
    }
    v
}

/// The string that holds the given code points.
///
/// Calls `String::from_iter` of std; the contract states that the string holds
/// exactly the code points handed in, in their order.
#[verifier::external_body]
pub(crate) fn string_of(chars: &Vec<char>) -> (s: String)
    ensures
        s@ == chars@,
{
    String::from_iter(chars.iter())
}

/// Adds the characters of `more` to `out`.
pub fn append(out: &mut Vec<char>, more: &Vec<char>)
    ensures
        final(out)@ == old(out)@ + more@,
{
    let mut i: usize = 0;
    assert(out@ =~= old(out)@ + more@.take(0));
    while i < more.len()
        invariant
            i <= more.len(),
            out@ == old(out)@ + more@.take(i as int),
        decreases more.len() - i,
    {
        out.push(more[i]);
        assert(out@ =~= old(out)@ + more@.take(i + 1));
        i += 1;
    }
    assert(more@.take(i as int) =~= more@);
}

/// Adds the code points of `more` to `out`.
pub fn append_str(out: &mut Vec<char>, more: &str)
    ensures
        final(out)@ == old(out)@ + more@,
{
    let chars = chars_of(more);
    append(out, &chars);
}

/// Whether a word is spelled as `literal`.
pub fn word_is(word: &Vec<char>, literal: &str) -> (b: bool)
    ensures
        b == (word@ == literal@),
{
    let other = chars_of(literal);
    if word.len() != other.len() {
        return false;
    }
    let mut i: usize = 0;
    while i < word.len()
        invariant
            i <= word.len(),
            word.len() == other.len(),
            other@ == literal@,
            forall|k: int| 0 <= k < i ==> word@[k] == other@[k],
        decreases word.len() - i,
    {
        if word[i] != other[i] {
            return false;
        }
        i += 1;
    }
    assert(word@ =~= other@);
    true
}

/// The number of bytes that `c` takes in UTF-8.
pub open spec fn utf8_len(c: char) -> nat {
    let n = c as u32;
    if n < 0x80 {
        1
    } else if n < 0x800 {
        2
    } else if n < 0x10000 {
        3
    } else {
        4
    }
}

/// The number of bytes that a text takes in UTF-8.
pub open spec fn utf8_size(s: Seq<char>) -> nat
    decreases s.len(),
{
    if s.len() == 0 {
        0
    } else {
        utf8_size(s.drop_last()) + utf8_len(s.last())
    }
}

/// A text takes at least as many bytes as any of its prefixes.
proof fn lemma_prefix_size(s: Seq<char>, k: int)
    requires
        0 <= k <= s.len(),
    ensures
        utf8_size(s.take(k)) <= utf8_size(s),
    decreases s.len(),
{
    if k == s.len() {
        assert(s.take(k) =~= s);
    } else {
        lemma_prefix_size(s.drop_last(), k);
        assert(s.drop_last().take(k) =~= s.take(k));
    }
}

/// Whether a word takes more than `limit` bytes in UTF-8.
pub fn takes_more_bytes(word: &Vec<char>, limit: usize) -> (b: bool)
    ensures
        b == (utf8_size(word@) > limit),
{
    let mut total: usize = 0;
    let mut i: usize = 0;
    assert(word@.take(0) =~= Seq::<char>::empty());
    while i < word.len()
        invariant
            i <= word.len(),
            total == utf8_size(word@.take(i as int)),
            total <= limit,
        decreases word.len() - i,
    {
        let n: u32 = word[i] as u32;
        let size: usize = if n < 0x80 {
            1
        } else if n < 0x800 {
            2
        } else if n < 0x10000 {
            3
        } else {
            4
        };
        assert(word@.take(i + 1).drop_last() =~= word@.take(i as int));
        if size > limit - total {
            proof {
                lemma_prefix_size(word@, i + 1);
            }
            return true;
        }
        total += size;
        i += 1;
    }
    assert(word@.take(i as int) =~= word@);
    false
}

/// Splits a line into its words.
pub fn split_words(line: &Vec<char>) -> (out: Vec<Vec<char>>)
    ensures
        texts(out@) == words(line@),
{
    let mut out: Vec<Vec<char>> = Vec::new();
    let mut word: Vec<char> = Vec::new();
    let mut i: usize = 0;
    assert(texts(out@) =~= Seq::<Seq<char>>::empty());
    assert(texts(out@) + words_from(line@, 0, word@) =~= words(line@));
    while i < line.len()
        invariant
            i <= line.len(),
            texts(out@) + words_from(line@, i as int, word@) == words(line@),
        decreases line.len() - i,
    {
        let c = line[i];
        let ghost before = texts(out@);
        let ghost held = word@;
        if is_whitespace(c) {
            if word.len() > 0 {
                out.push(word);
                word = Vec::new();
                assert(texts(out@) =~= before + finished(held));
            }
            assert(texts(out@) =~= before + finished(held));
            assert(word@ =~= Seq::<char>::empty());
            assert(texts(out@) + words_from(line@, i + 1, word@) =~= before + (finished(held)
                + words_from(line@, i + 1, Seq::empty())));
        } else {
            word.push(c);
        }
        i += 1;
    }
    let ghost before = texts(out@);
    let ghost held = word@;
    if word.len() > 0 {
        out.push(word);
    }
    assert(texts(out@) =~= before + finished(held));
    out
}

} // verus!
