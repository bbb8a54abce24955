//! Greedy hard wrapping of over-long lines.

use vstd::prelude::*;
use vstd::slice::slice_to_vec;
use crate::chars::char_is_whitespace;
use crate::chars::line_feed_is_whitespace;
use crate::chars::push_chars;
use crate::chars::string_from_chars;
use crate::chars::to_chars;
use crate::strings::is_single_line;
use crate::strings::is_word;
use crate::strings::joined_lines;
use crate::strings::lemma_lines_are_single;
use crate::strings::lemma_lines_of_joined;
use crate::strings::lemma_words_are_words;
use crate::strings::lines_of;
use crate::strings::split_lines;
use crate::strings::strip_carriage_return;
use crate::strings::split_whitespace;
use crate::strings::views;
use crate::strings::words_of;

verus! {

/// The line under construction as a finished line, unless it is empty.
pub open spec fn pending(current: Seq<char>) -> Seq<Seq<char>> {
    if current.len() > 0 {
        seq![current]
    } else {
        Seq::empty()
    }
}

/// Whether `word` still goes on the line under construction: the line, the
/// word and one separating space together stay within `width`.
pub open spec fn fits(current: Seq<char>, word: Seq<char>, width: nat) -> bool {
    current.len() + word.len() + 1 <= width
}

/// The line under construction once `word` has joined it.
pub open spec fn extended(current: Seq<char>, word: Seq<char>) -> Seq<char> {
    if current.len() == 0 {
        word
    } else {
        current + seq![' '] + word
    }
}

/// The lines that greedy filling makes of `words`, starting with `current`
/// under construction: a word joins the line while it fits, and starts a
/// new line otherwise.
pub open spec fn filled(words: Seq<Seq<char>>, width: nat, current: Seq<char>) -> Seq<Seq<char>>
    decreases words.len(),
{
    if words.len() == 0 {
        pending(current)
    } else if fits(current, words[0], width) {
        filled(words.drop_first(), width, extended(current, words[0]))
    } else {
        pending(current) + filled(words.drop_first(), width, words[0])
    }
}

/// The lines that stand for `line` after wrapping: the line itself where it
/// is no longer than `width`, the greedy filling of its words otherwise.
pub open spec fn wrapped_line(line: Seq<char>, width: nat) -> Seq<Seq<char>> {
    if line.len() <= width {
        seq![line]
    } else {
        filled(words_of(line), width, Seq::empty())
    }
}

/// The wrapped lines of every line, in order.
pub open spec fn wrapped_lines(lines: Seq<Seq<char>>, width: nat) -> Seq<Seq<char>>
    decreases lines.len(),
{
    if lines.len() == 0 {
        Seq::empty()
    } else {
        wrapped_lines(lines.drop_last(), width) + wrapped_line(lines.last(), width)
    }
}

/// `text` hard-wrapped at `width`: its wrapped lines, each followed by a
/// line feed.
pub open spec fn wrapped(text: Seq<char>, width: nat) -> Seq<char> {
    joined_lines(wrapped_lines(lines_of(text), width))
}

/// Whether a line respects the width: it is no longer than `width`, or it
/// is a single word, which is never split.
pub open spec fn within_width(line: Seq<char>, width: nat) -> bool {
    line.len() <= width || is_word(line)
}

/// Filling keeps lines within the width: where the line under construction
/// is within it, so is every line that filling makes of words.
proof fn lemma_filled_within_width(words: Seq<Seq<char>>, width: nat, current: Seq<char>)
    requires
        forall|k: int| 0 <= k < words.len() ==> is_word(#[trigger] words[k]),
        current.len() == 0 || within_width(current, width),
    ensures
        forall|k: int|
            0 <= k < filled(words, width, current).len() ==> within_width(
                #[trigger] filled(words, width, current)[k],
                width,
            ),
    decreases words.len(),
{
    let result = filled(words, width, current);
    if words.len() == 0 {
        assert(result == pending(current));
    } else {
        let rest = words.drop_first();
        assert forall|k: int| 0 <= k < rest.len() implies is_word(#[trigger] rest[k]) by {
            assert(rest[k] == words[k + 1]);
        }
        assert(is_word(words[0]));
        if fits(current, words[0], width) {
            let next = extended(current, words[0]);
            assert(next.len() <= width);
            lemma_filled_within_width(rest, width, next);
            assert(result == filled(rest, width, next));
        } else {
            lemma_filled_within_width(rest, width, words[0]);
            let tail = filled(rest, width, words[0]);
            assert(result == pending(current) + tail);
            assert forall|k: int| 0 <= k < result.len() implies within_width(
                #[trigger] result[k],
                width,
            ) by {
                if k < pending(current).len() {
                    assert(result[k] == current);
                } else {
                    assert(result[k] == tail[k - pending(current).len()]);
                }
            }
        }
    }
}

/// The hard-wrap law, line by line: every line that wrapping produces is no
/// longer than the width, unless it is a single word.
pub proof fn lemma_wrapped_lines_within_width(lines: Seq<Seq<char>>, width: nat)
    ensures
        forall|k: int|
            0 <= k < wrapped_lines(lines, width).len() ==> within_width(
                #[trigger] wrapped_lines(lines, width)[k],
                width,
            ),
    decreases lines.len(),
{
    let result = wrapped_lines(lines, width);
    if lines.len() > 0 {
        lemma_wrapped_lines_within_width(lines.drop_last(), width);
        let line = lines.last();
        let head = wrapped_lines(lines.drop_last(), width);
        let tail = wrapped_line(line, width);
        if line.len() > width {
            lemma_words_are_words(line, 0);
            lemma_filled_within_width(words_of(line), width, Seq::empty());
        }
        assert(result == head + tail);
        assert forall|k: int| 0 <= k < result.len() implies within_width(
            #[trigger] result[k],
            width,
        ) by {
            if k < head.len() {
                assert(result[k] == head[k]);
            } else {
                assert(result[k] == tail[k - head.len()]);
            }
        }
    }
}

/// Filling makes no line with a line feed in it, given that the line feed
/// counts as whitespace.
proof fn lemma_filled_single(words: Seq<Seq<char>>, width: nat, current: Seq<char>)
    requires
        char_is_whitespace('\n'),
        forall|k: int| 0 <= k < words.len() ==> is_word(#[trigger] words[k]),
        is_single_line(current),
    ensures
        forall|k: int|
            0 <= k < filled(words, width, current).len() ==> is_single_line(
                #[trigger] filled(words, width, current)[k],
            ),
    decreases words.len(),
{
    let result = filled(words, width, current);
    if words.len() == 0 {
        assert(result == pending(current));
    } else {
        let rest = words.drop_first();
        assert forall|k: int| 0 <= k < rest.len() implies is_word(#[trigger] rest[k]) by {
            assert(rest[k] == words[k + 1]);
        }
        assert(is_word(words[0]));
        assert(is_single_line(words[0]));
        if fits(current, words[0], width) {
            let next = extended(current, words[0]);
            assert(is_single_line(next));
            lemma_filled_single(rest, width, next);
            assert(result == filled(rest, width, next));
        } else {
            lemma_filled_single(rest, width, words[0]);
            let tail = filled(rest, width, words[0]);
            assert(result == pending(current) + tail);
            assert forall|k: int| 0 <= k < result.len() implies is_single_line(
                #[trigger] result[k],
            ) by {
                if k < pending(current).len() {
                    assert(result[k] == current);
                } else {
                    assert(result[k] == tail[k - pending(current).len()]);
                }
            }
        }
    }
}

/// Wrapping lines without line feeds makes lines without line feeds.
proof fn lemma_wrapped_lines_single(lines: Seq<Seq<char>>, width: nat)
    requires
        char_is_whitespace('\n'),
        forall|k: int| 0 <= k < lines.len() ==> is_single_line(#[trigger] lines[k]),
    ensures
        forall|k: int|
            0 <= k < wrapped_lines(lines, width).len() ==> is_single_line(
                #[trigger] wrapped_lines(lines, width)[k],
            ),
    decreases lines.len(),
{
    let result = wrapped_lines(lines, width);
    if lines.len() > 0 {
        let front = lines.drop_last();
        assert forall|k: int| 0 <= k < front.len() implies is_single_line(#[trigger] front[k]) by {
            assert(front[k] == lines[k]);
        }
        lemma_wrapped_lines_single(front, width);
        let line = lines.last();
        let head = wrapped_lines(front, width);
        let tail = wrapped_line(line, width);
        if line.len() > width {
            lemma_words_are_words(line, 0);
            lemma_filled_single(words_of(line), width, Seq::empty());
        } else {
            assert(is_single_line(line));
        }
        assert(result == head + tail);
        assert forall|k: int| 0 <= k < result.len() implies is_single_line(
            #[trigger] result[k],
        ) by {
            if k < head.len() {
                assert(result[k] == head[k]);
            } else {
                assert(result[k] == tail[k - head.len()]);
            }
        }
    }
}

/// The hard-wrap law for the text that comes out: given that the line feed
/// counts as whitespace, every line of `wrapped(text, width)` is no longer
/// than `width`, unless it is a single word.
pub proof fn lemma_hard_wrap_output(text: Seq<char>, width: nat)
    requires
        char_is_whitespace('\n'),
    ensures
        forall|k: int|
            0 <= k < lines_of(wrapped(text, width)).len() ==> within_width(
                #[trigger] lines_of(wrapped(text, width))[k],
                width,
            ),
{
    let made = wrapped_lines(lines_of(text), width);
    lemma_lines_are_single(text, 0);
    lemma_wrapped_lines_single(lines_of(text), width);
    lemma_wrapped_lines_within_width(lines_of(text), width);
    lemma_lines_of_joined(made);
    assert forall|k: int| 0 <= k < lines_of(wrapped(text, width)).len() implies within_width(
        #[trigger] lines_of(wrapped(text, width))[k],
        width,
    ) by {
        let line = made[k];
        assert(lines_of(wrapped(text, width))[k] == strip_carriage_return(line));
        assert(within_width(line, width));
        if line.len() > width && line.len() > 0 && line.last() == '\r' {
            let cut = line.drop_last();
            assert forall|j: int| 0 <= j < cut.len() implies !char_is_whitespace(
                #[trigger] cut[j],
            ) by {
                assert(cut[j] == line[j]);
            }
        }
    }
}

/// Fills lines greedily with `words` and appends them to `out`.
fn fill_words(out: &mut Vec<Vec<char>>, words: &Vec<Vec<char>>, width: usize)
    ensures
        views(final(out)@) == views(old(out)@) + filled(
            views(words@),
            width as nat,
            Seq::empty(),
        ),
{
    let ghost before = views(out@);
    let ghost all = views(words@);
    let mut current: Vec<char> = Vec::new();
    let mut k: usize = 0;
    assert(all.skip(0) =~= all);
    while k < words.len()
        invariant
            k <= words.len(),
            all == views(words@),
            before + filled(all, width as nat, Seq::empty()) == views(out@) + filled(
                all.skip(k as int),
                width as nat,
                current@,
            ),
        decreases words.len() - k,
    {
        let word = &words[k];
        let ghost rest = all.skip(k as int);
        let ghost emitted = views(out@);
        let ghost line = current@;
        assert(rest[0] == word@);
        assert(rest.drop_first() =~= all.skip(k + 1));
        if word.len() < width && current.len() <= width - word.len() - 1 {
            if current.len() > 0 {
                current.push(' ');
            }
            push_chars(&mut current, word.as_slice());
            assert(current@ =~= extended(line, word@));
        } else {
            if current.len() > 0 {
                out.push(current);
            }
            current = slice_to_vec(word.as_slice());
            assert(views(out@) =~= emitted + pending(line));
            assert(views(out@) + filled(all.skip(k + 1), width as nat, word@) =~= emitted + (
                pending(line) + filled(all.skip(k + 1), width as nat, word@)
            ));
        }
        k += 1;
    }
    let ghost emitted = views(out@);
    let ghost line = current@;
    if current.len() > 0 {
        out.push(current);
    }
    assert(views(out@) =~= emitted + pending(line));
}

/// The lines of `text` after wrapping at `width`.
pub fn wrap_lines(lines: &Vec<Vec<char>>, width: usize) -> (out: Vec<Vec<char>>)
    ensures
        views(out@) == wrapped_lines(views(lines@), width as nat),
{
    let mut out: Vec<Vec<char>> = Vec::new();
    let ghost all = views(lines@);
    let mut i: usize = 0;
    while i < lines.len()
        invariant
            i <= lines.len(),
            all == views(lines@),
            views(out@) == wrapped_lines(all.take(i as int), width as nat),
        decreases lines.len() - i,
    {
        let line = &lines[i];
        let ghost emitted = views(out@);
        assert(all.take(i + 1).drop_last() =~= all.take(i as int));
        assert(all.take(i + 1).last() == line@);
        if line.len() <= width {
            out.push(slice_to_vec(line.as_slice()));
            assert(views(out@) =~= emitted + seq![line@]);
        } else {
            let words = split_whitespace(line.as_slice());
            fill_words(&mut out, &words, width);
        }
        i += 1;
    }
    assert(all.take(lines.len() as int) =~= all);
    out
}

/// Writes every line, followed by a line feed, one after the other.
pub fn join_lines(lines: &Vec<Vec<char>>) -> (out: Vec<char>)
    ensures
        out@ == joined_lines(views(lines@)),
{
    let mut out: Vec<char> = Vec::new();
    let ghost all = views(lines@);
    let mut i: usize = 0;
    while i < lines.len()
        invariant
            i <= lines.len(),
            all == views(lines@),
            out@ == joined_lines(all.take(i as int)),
        decreases lines.len() - i,
    {
        assert(all.take(i + 1).drop_last() =~= all.take(i as int));
        assert(all.take(i + 1).last() == lines[i as int]@);
        push_chars(&mut out, lines[i].as_slice());
        out.push('\n');
        i += 1;
    }
    assert(all.take(lines.len() as int) =~= all);
    out
}

/// Hard-wraps the characters of a text at `width`. Every line of the
/// result is no longer than `width`, unless it is a single word.
pub fn wrap_chars(text: &[char], width: usize) -> (out: Vec<char>)
    ensures
        out@ == wrapped(text@, width as nat),
        forall|k: int|
            0 <= k < lines_of(out@).len() ==> within_width(
                #[trigger] lines_of(out@)[k],
                width as nat,
            ),
{
    let lines = split_lines(text);
    let made = wrap_lines(&lines, width);
    let out = join_lines(&made);
    line_feed_is_whitespace();
    proof {
        assert(out@ == wrapped(text@, width as nat));
        lemma_hard_wrap_output(text@, width as nat);
    }
    out
}

/// Hard-wraps `text` at `width` characters. Lines within the width are
/// kept; a longer line is refilled greedily with its words. Every line of
/// the result ends with a line feed, and every line of the result is no
/// longer than `width`, unless it is a single word.
pub fn wrap_text(text: &str, width: usize) -> (r: String)
    ensures
        r@ == wrapped(text@, width as nat),
        forall|k: int|
            0 <= k < lines_of(r@).len() ==> within_width(#[trigger] lines_of(r@)[k], width as nat),
{
    let chars = to_chars(text);
    let out = wrap_chars(chars.as_slice(), width);
    string_from_chars(out.as_slice())
}

} // verus!
