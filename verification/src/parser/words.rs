//! Splitting a buffer into words.
//!
//! Which characters separate words is Unicode's business; how separators cut
//! a text into words is decided here. The two are kept apart: `split_words`
//! cuts a text by flags that say where its white space is, whoever set them,
//! and `tokenize` sets the flags by `char::is_whitespace`.

use vstd::prelude::*;

verus! {

/// Whether `c` is white space in the sense of Unicode's `White_Space`
/// property, as `char::is_whitespace` tells it.
pub uninterp spec fn white_space(c: char) -> bool;

/// `char::is_whitespace` decides by the character alone; its answer is the
/// `white_space` of the character.
pub assume_specification[ char::is_whitespace ](c: char) -> (white: bool)
    ensures
        white == white_space(c),
;

/// Whether position `i` is flagged as white space. Positions the flags do
/// not reach count as not white.
pub open spec fn white_at(white: Seq<bool>, i: int) -> bool {
    0 <= i < white.len() && white[i]
}

/// The words of `text`, where `white` flags the positions that separate
/// words: the maximal runs of unflagged characters, in order. Read from the
/// left, a flagged character adds nothing, an unflagged one that follows
/// another unflagged one extends the last word, and any other unflagged one
/// begins a new word.
pub open spec fn words_where(text: Seq<char>, white: Seq<bool>) -> Seq<Seq<char>>
    decreases text.len(),
{
    if text.len() == 0 {
        Seq::empty()
    } else {
        let before = text.drop_last();
        let last = text.len() - 1;
        if white_at(white, last) {
            words_where(before, white)
        } else if last > 0 && !white_at(white, last - 1) {
            words_where(before, white).drop_last().push(
                words_where(before, white).last().push(text[last]),
            )
        } else {
            words_where(before, white).push(seq![text[last]])
        }
    }
}

/// For each character of `text`, whether it is white space.
pub open spec fn white_flags(text: Seq<char>) -> Seq<bool> {
    text.map_values(|c: char| white_space(c))
}

/// The words of `text`: its maximal runs of characters that are not white
/// space, in order.
pub open spec fn words(text: Seq<char>) -> Seq<Seq<char>> {
    words_where(text, white_flags(text))
}

/// The views of `tokens`, in order.
pub open spec fn token_views(tokens: Seq<&str>) -> Seq<Seq<char>> {
    tokens.map_values(|token: &str| token@)
}

/// For each character of `buffer`, whether it is white space.
pub fn white_space_flags(buffer: &str) -> (white: Vec<bool>)
    ensures
        white@ == white_flags(buffer@),
{
    let mut white: Vec<bool> = Vec::new();
    for c in chars: buffer.chars()
        invariant
            chars.seq() == buffer@,
            white@ == white_flags(buffer@.take(chars.index())),
    {
        let ghost seen = buffer@.take(chars.index());
        white.push(c.is_whitespace());
        assert(white@ == white_flags(seen.push(c)));
        assert(seen.push(c) == buffer@.take(chars.index() + 1));
    }
    assert(buffer@.take(buffer@.len() as int) == buffer@);
    white
}

/// Splits `buffer` into words at the positions that `white` flags, each word
/// a slice of the buffer. Flags beyond the end of the buffer are not looked
/// at, and characters beyond the end of the flags count as not white.
pub fn split_words<'a>(buffer: &'a str, white: &[bool]) -> (tokens: Vec<&'a str>)
    ensures
        token_views(tokens@) == words_where(buffer@, white@),
{
    let total = buffer.unicode_len();
    let mut tokens: Vec<&'a str> = Vec::new();
    let mut open = false;
    let mut start: usize = 0;
    let mut at: usize = 0;
    assert(buffer@.take(0) == Seq::<char>::empty());
    while at < total
        invariant
            total == buffer@.len(),
            at <= total,
            open ==> start < at,
            open <==> at > 0 && !white_at(white@, at - 1),
            words_where(buffer@.take(at as int), white@) == if open {
                token_views(tokens@).push(buffer@.subrange(start as int, at as int))
            } else {
                token_views(tokens@)
            },
        decreases total - at,
    {
        proof {
            let seen = buffer@.take(at + 1);
            assert(seen.drop_last() == buffer@.take(at as int));
            assert(seen[at as int] == buffer@[at as int]);
            if open {
                assert(buffer@.subrange(start as int, at as int).push(buffer@[at as int])
                    == buffer@.subrange(start as int, at + 1));
            } else {
                assert(seq![buffer@[at as int]] == buffer@.subrange(at as int, at + 1));
            }
        }
        if at < white.len() && white[at] {
            if open {
                let ghost closed = token_views(tokens@);
                tokens.push(buffer.substring_char(start, at));
                assert(token_views(tokens@) == closed.push(
                    buffer@.subrange(start as int, at as int),
                ));
                open = false;
            }
        } else if !open {
            start = at;
            open = true;
        }
        at = at + 1;
    }
    assert(buffer@.take(at as int) == buffer@);
    if open {
        let ghost closed = token_views(tokens@);
        tokens.push(buffer.substring_char(start, at));
        assert(token_views(tokens@) == closed.push(buffer@.subrange(start as int, at as int)));
    }
    tokens
}

/// Splits `buffer` into its words, each a slice of the buffer.
pub fn tokenize<'a>(buffer: &'a str) -> (tokens: Vec<&'a str>)
    ensures
        token_views(tokens@) == words(buffer@),
{
    let white = white_space_flags(buffer);
    split_words(buffer, white.as_slice())
}

/// A text that ends in an unflagged character has a last word, which is not
/// empty and ends in that character.
pub proof fn lemma_last_word_is_open(text: Seq<char>, white: Seq<bool>)
    requires
        text.len() > 0,
        !white_at(white, text.len() - 1),
    ensures
        words_where(text, white).len() > 0,
        words_where(text, white).last().len() > 0,
        words_where(text, white).last().last() == text.last(),
    decreases text.len(),
{
    if text.len() > 1 && !white_at(white, text.len() - 2) {
        lemma_last_word_is_open(text.drop_last(), white);
    }
}

/// No word is empty.
pub proof fn lemma_words_are_not_empty(text: Seq<char>, white: Seq<bool>)
    ensures
        forall|i: int|
            0 <= i < words_where(text, white).len() ==> (#[trigger] words_where(text, white)[i]).len()
                > 0,
    decreases text.len(),
{
    if text.len() > 0 {
        lemma_words_are_not_empty(text.drop_last(), white);
        if text.len() > 1 && !white_at(white, text.len() - 2) {
            lemma_last_word_is_open(text.drop_last(), white);
        }
    }
}

/// No word of a text holds white space.
pub proof fn lemma_words_hold_no_white_space(text: Seq<char>)
    ensures
        forall|i: int, j: int|
            0 <= i < words(text).len() && 0 <= j < words(text)[i].len() ==> !white_space(
                #[trigger] words(text)[i][j],
            ),
{
    lemma_words_hold_no_flagged(text, text.len() as int);
    assert(text.take(text.len() as int) == text);
}

/// The words of the first `upto` characters of `text` hold no white space.
proof fn lemma_words_hold_no_flagged(text: Seq<char>, upto: int)
    requires
        0 <= upto <= text.len(),
    ensures
        forall|i: int, j: int|
            0 <= i < words_where(text.take(upto), white_flags(text)).len() && 0 <= j
                < words_where(text.take(upto), white_flags(text))[i].len() ==> !white_space(
                #[trigger] words_where(text.take(upto), white_flags(text))[i][j],
            ),
    decreases upto,
{
    if upto > 0 {
        let white = white_flags(text);
        assert(text.take(upto).drop_last() == text.take(upto - 1));
        lemma_words_hold_no_flagged(text, upto - 1);
        if !white_at(white, upto - 1) && upto > 1 && !white_at(white, upto - 2) {
            lemma_last_word_is_open(text.take(upto - 1), white);
        }
    }
}

/// A text without a flagged position that is not empty is one word: itself.
pub proof fn lemma_run_is_one_word(text: Seq<char>, white: Seq<bool>)
    requires
        text.len() > 0,
        forall|i: int| 0 <= i < text.len() ==> !white_at(white, i),
    ensures
        words_where(text, white) == seq![text],
    decreases text.len(),
{
    let before = text.drop_last();
    if before.len() > 0 {
        lemma_run_is_one_word(before, white);
        assert(before.push(text.last()) == text);
        assert(seq![before].drop_last().push(text) == seq![text]);
    } else {
        assert(seq![text.last()] == text);
        assert(words_where(before, white).push(text) == seq![text]);
    }
}

/// Words do not reach across white space: where `head` is empty or ends in
/// a flagged position, the words of `head + tail` are those of `head`
/// followed by those of `tail`, the flags of `tail` being those behind the
/// flags of `head`.
pub proof fn lemma_words_split_after_white_space(
    head: Seq<char>,
    tail: Seq<char>,
    white: Seq<bool>,
)
    requires
        head.len() == 0 || white_at(white, head.len() - 1),
    ensures
        words_where(head + tail, white) == words_where(head, white) + words_where(
            tail,
            white.skip(head.len() as int),
        ),
    decreases tail.len(),
{
    let behind = white.skip(head.len() as int);
    if tail.len() == 0 {
        assert(head + tail == head);
    } else {
        let before = tail.drop_last();
        let last = tail.len() - 1;
        assert((head + tail).drop_last() == head + before);
        assert((head + tail).last() == tail[last]);
        assert(white_at(behind, last) == white_at(white, head.len() + last));
        lemma_words_split_after_white_space(head, before, white);
        if !white_at(behind, last) {
            if last > 0 {
                assert(white_at(behind, last - 1) == white_at(white, head.len() + last - 1));
                if !white_at(behind, last - 1) {
                    lemma_last_word_is_open(before, behind);
                }
            } else {
                assert(head + before == head);
            }
        }
    }
}

} // verus!
