//! String algorithms over character sequences: trimming, line and
//! word splitting, searching, replacing and decimal rendering.

use vstd::prelude::*;
use vstd::slice::slice_subrange;
use vstd::slice::slice_to_vec;
use crate::chars::char_is_whitespace;
use crate::chars::is_whitespace;
use crate::chars::to_chars;

verus! {

/// The view of every vector of a sequence of character vectors.
pub open spec fn views(v: Seq<Vec<char>>) -> Seq<Seq<char>> {
    Seq::new(v.len(), |i: int| v[i]@)
}

/// The view of every string of a sequence of strings.
pub open spec fn string_views(v: Seq<String>) -> Seq<Seq<char>> {
    Seq::new(v.len(), |i: int| v[i]@)
}

/// The first index at or after `i` that holds no whitespace, or the length.
pub open spec fn skip_whitespace(s: Seq<char>, i: int) -> int
    decreases s.len() - i,
{
    if 0 <= i < s.len() && char_is_whitespace(s[i]) {
        skip_whitespace(s, i + 1)
    } else {
        i
    }
}

/// The first index at or after `i` that holds whitespace, or the length.
pub open spec fn skip_word(s: Seq<char>, i: int) -> int
    decreases s.len() - i,
{
    if 0 <= i < s.len() && !char_is_whitespace(s[i]) {
        skip_word(s, i + 1)
    } else {
        i
    }
}

/// The end of `s[lo..hi]` once its trailing whitespace is dropped.
pub open spec fn trim_end_index(s: Seq<char>, lo: int, hi: int) -> int
    decreases hi - lo,
{
    if 0 <= lo < hi <= s.len() && char_is_whitespace(s[hi - 1]) {
        trim_end_index(s, lo, hi - 1)
    } else {
        hi
    }
}

/// `s` without its leading and trailing whitespace.
pub open spec fn trimmed(s: Seq<char>) -> Seq<char> {
    let start = skip_whitespace(s, 0);
    s.subrange(start, trim_end_index(s, start, s.len() as int))
}

/// Whether `s` holds nothing but whitespace.
pub open spec fn is_blank(s: Seq<char>) -> bool {
    skip_whitespace(s, 0) >= s.len()
}

/// Where whitespace ends: within the sequence, after nothing but
/// whitespace, and before a character that is none.
pub proof fn lemma_skip_whitespace_bounds(s: Seq<char>, i: int)
    requires
        0 <= i <= s.len(),
    ensures
        i <= skip_whitespace(s, i) <= s.len(),
        forall|k: int| i <= k < skip_whitespace(s, i) ==> char_is_whitespace(#[trigger] s[k]),
        skip_whitespace(s, i) < s.len() ==> !char_is_whitespace(s[skip_whitespace(s, i)]),
    decreases s.len() - i,
{
    if i < s.len() && char_is_whitespace(s[i]) {
        lemma_skip_whitespace_bounds(s, i + 1);
    }
}

/// Where a word ends: within the sequence, after no whitespace, and before
/// whitespace.
pub proof fn lemma_skip_word_bounds(s: Seq<char>, i: int)
    requires
        0 <= i <= s.len(),
    ensures
        i <= skip_word(s, i) <= s.len(),
        forall|k: int| i <= k < skip_word(s, i) ==> !char_is_whitespace(#[trigger] s[k]),
        skip_word(s, i) < s.len() ==> char_is_whitespace(s[skip_word(s, i)]),
    decreases s.len() - i,
{
    if i < s.len() && !char_is_whitespace(s[i]) {
        lemma_skip_word_bounds(s, i + 1);
    }
}

/// The index at or after `i` where whitespace ends.
pub(crate) fn skip_whitespace_from(s: &[char], i: usize) -> (j: usize)
    requires
        i <= s.len(),
    ensures
        j == skip_whitespace(s@, i as int),
        i <= j <= s.len(),
{
    let mut j: usize = i;
    while j < s.len() && is_whitespace(s[j])
        invariant
            i <= j <= s.len(),
            skip_whitespace(s@, i as int) == skip_whitespace(s@, j as int),
        decreases s.len() - j,
    {
        j += 1;
    }
    j
}

/// The index at or after `i` where the run of non-whitespace ends.
pub(crate) fn skip_word_from(s: &[char], i: usize) -> (j: usize)
    requires
        i <= s.len(),
    ensures
        j == skip_word(s@, i as int),
        i <= j <= s.len(),
{
    let mut j: usize = i;
    while j < s.len() && !is_whitespace(s[j])
        invariant
            i <= j <= s.len(),
            skip_word(s@, i as int) == skip_word(s@, j as int),
        decreases s.len() - j,
    {
        j += 1;
    }
    j
}

/// `s` without its leading and trailing whitespace.
pub fn trim(s: &[char]) -> (r: &[char])
    ensures
        r@ == trimmed(s@),
{
    let start = skip_whitespace_from(s, 0);
    let mut end: usize = s.len();
    while start < end && is_whitespace(s[end - 1])
        invariant
            start <= end <= s.len(),
            trim_end_index(s@, start as int, s.len() as int) == trim_end_index(
                s@,
                start as int,
                end as int,
            ),
        decreases end - start,
    {
        end -= 1;
    }
    slice_subrange(s, start, end)
}

/// The first index at or after `i` that holds a line feed, or the length.
pub open spec fn line_end(s: Seq<char>, i: int) -> int
    decreases s.len() - i,
{
    if 0 <= i < s.len() && s[i] != '\n' {
        line_end(s, i + 1)
    } else {
        i
    }
}

/// Where a line ends: within the sequence, after no line feed, and at a
/// line feed unless at the end.
pub proof fn lemma_line_end_bounds(s: Seq<char>, i: int)
    requires
        0 <= i <= s.len(),
    ensures
        i <= line_end(s, i) <= s.len(),
        forall|k: int| i <= k < line_end(s, i) ==> #[trigger] s[k] != '\n',
        line_end(s, i) < s.len() ==> s[line_end(s, i)] == '\n',
    decreases s.len() - i,
{
    if i < s.len() && s[i] != '\n' {
        lemma_line_end_bounds(s, i + 1);
    }
}

/// A terminated line without the carriage return that may precede its line feed.
pub open spec fn strip_carriage_return(line: Seq<char>) -> Seq<char> {
    if line.len() > 0 && line.last() == '\r' {
        line.drop_last()
    } else {
        line
    }
}

/// The lines of `s` from index `i` on. A line ends at a line feed, or at a
/// carriage return directly followed by one; neither belongs to the line. A
/// last line without a terminator is kept as it stands, and a terminator at
/// the very end opens no further line.
pub open spec fn lines_from(s: Seq<char>, i: int) -> Seq<Seq<char>>
    decreases s.len() - i,
{
    if i < 0 || i >= s.len() {
        Seq::empty()
    } else {
        let e = line_end(s, i);
        proof {
            lemma_line_end_bounds(s, i);
        }
        if e >= s.len() {
            seq![s.subrange(i, s.len() as int)]
        } else {
            seq![strip_carriage_return(s.subrange(i, e))] + lines_from(s, e + 1)
        }
    }
}

/// The lines of `s`, as `str::lines` yields them.
pub open spec fn lines_of(s: Seq<char>) -> Seq<Seq<char>> {
    lines_from(s, 0)
}

/// Whether a text is free of line feeds.
pub open spec fn is_single_line(line: Seq<char>) -> bool {
    forall|j: int| 0 <= j < line.len() ==> #[trigger] line[j] != '\n'
}

/// The lines, each without the carriage return that it may end with.
pub open spec fn stripped(lines: Seq<Seq<char>>) -> Seq<Seq<char>> {
    Seq::new(lines.len(), |i: int| strip_carriage_return(lines[i]))
}

/// The end of a line does not depend on what precedes the line.
pub proof fn lemma_line_end_shift(s: Seq<char>, i: int, j: int)
    requires
        0 <= i,
        0 <= j,
        i + j <= s.len(),
    ensures
        line_end(s.skip(i), j) + i == line_end(s, i + j),
    decreases s.len() - i - j,
{
    let t = s.skip(i);
    if j < t.len() && t[j] != '\n' {
        lemma_line_end_shift(s, i, j + 1);
    }
}

/// The lines from an index on do not depend on what precedes the index.
pub proof fn lemma_lines_from_shift(s: Seq<char>, i: int, j: int)
    requires
        0 <= i,
        0 <= j,
        i + j <= s.len(),
    ensures
        lines_from(s.skip(i), j) == lines_from(s, i + j),
    decreases s.len() - i - j,
{
    let t = s.skip(i);
    if j < t.len() {
        lemma_line_end_shift(s, i, j);
        lemma_line_end_bounds(t, j);
        let e = line_end(t, j);
        if e >= t.len() {
            assert(t.subrange(j, t.len() as int) =~= s.subrange(i + j, s.len() as int));
        } else {
            assert(t.subrange(j, e) =~= s.subrange(i + j, i + e));
            lemma_lines_from_shift(s, i, e + 1);
        }
    }
}

/// No line of a text holds a line feed.
pub proof fn lemma_lines_are_single(s: Seq<char>, i: int)
    requires
        0 <= i <= s.len(),
    ensures
        forall|k: int|
            0 <= k < lines_from(s, i).len() ==> is_single_line(#[trigger] lines_from(s, i)[k]),
    decreases s.len() - i,
{
    if i < s.len() {
        lemma_line_end_bounds(s, i);
        let e = line_end(s, i);
        if e >= s.len() {
            assert(is_single_line(s.subrange(i, s.len() as int)));
        } else {
            let first = strip_carriage_return(s.subrange(i, e));
            assert(is_single_line(s.subrange(i, e)));
            assert(is_single_line(first));
            lemma_lines_are_single(s, e + 1);
            let rest = lines_from(s, e + 1);
            assert forall|k: int| 0 <= k < lines_from(s, i).len() implies is_single_line(
                #[trigger] lines_from(s, i)[k],
            ) by {
                if k > 0 {
                    assert(lines_from(s, i)[k] == rest[k - 1]);
                }
            }
        }
    }
}

/// A text that starts with a terminated line has that line, without its
/// carriage return, as its first line, and the lines of the rest after it.
pub proof fn lemma_lines_of_first(line: Seq<char>, rest: Seq<char>)
    requires
        is_single_line(line),
    ensures
        lines_of(line + seq!['\n'] + rest) == seq![strip_carriage_return(line)] + lines_of(rest),
{
    let s = line + seq!['\n'] + rest;
    let n = line.len() as int;
    lemma_line_end_bounds(s, 0);
    let e = line_end(s, 0);
    assert(s[n] == '\n');
    if e < n {
        assert(s[e] == line[e]);
    }
    assert(e == n);
    assert(s.subrange(0, e) =~= line);
    lemma_lines_from_shift(s, e + 1, 0);
    assert(s.skip(e + 1) =~= rest);
}

/// Joined lines start with their first line and a line feed.
pub proof fn lemma_joined_lines_first(lines: Seq<Seq<char>>)
    requires
        lines.len() > 0,
    ensures
        joined_lines(lines) == lines[0] + seq!['\n'] + joined_lines(lines.drop_first()),
    decreases lines.len(),
{
    if lines.len() == 1 {
        assert(joined_lines(lines.drop_last()) =~= Seq::<char>::empty());
        assert(joined_lines(lines.drop_first()) =~= Seq::<char>::empty());
        assert(joined_lines(lines) =~= lines[0] + seq!['\n'] + Seq::<char>::empty());
    } else {
        let front = lines.drop_last();
        lemma_joined_lines_first(front);
        assert(front.drop_first() =~= lines.drop_first().drop_last());
        assert(lines.drop_first().last() == lines.last());
        assert(front[0] == lines[0]);
        assert(joined_lines(lines) =~= lines[0] + seq!['\n'] + (joined_lines(
            lines.drop_first().drop_last(),
        ) + lines.last() + seq!['\n']));
    }
}

/// Splitting joined lines gives the lines back, each without the carriage
/// return that it may end with.
pub proof fn lemma_lines_of_joined(lines: Seq<Seq<char>>)
    requires
        forall|i: int| 0 <= i < lines.len() ==> is_single_line(#[trigger] lines[i]),
    ensures
        lines_of(joined_lines(lines)) == stripped(lines),
    decreases lines.len(),
{
    if lines.len() == 0 {
        assert(lines_of(joined_lines(lines)) =~= stripped(lines));
    } else {
        let rest = lines.drop_first();
        lemma_joined_lines_first(lines);
        assert forall|i: int| 0 <= i < rest.len() implies is_single_line(#[trigger] rest[i]) by {
            assert(rest[i] == lines[i + 1]);
        }
        lemma_lines_of_joined(rest);
        lemma_lines_of_first(lines[0], joined_lines(rest));
        assert(stripped(lines) =~= seq![strip_carriage_return(lines[0])] + stripped(rest));
    }
}

/// Copies `s[from..to]` into a vector.
pub(crate) fn copy_range(s: &[char], from: usize, to: usize) -> (v: Vec<char>)
    requires
        from <= to <= s.len(),
    ensures
        v@ == s@.subrange(from as int, to as int),
{
    slice_to_vec(slice_subrange(s, from, to))
}

/// Splits `s` into its lines.
pub fn split_lines(s: &[char]) -> (lines: Vec<Vec<char>>)
    ensures
        views(lines@) == lines_of(s@),
{
    let mut lines: Vec<Vec<char>> = Vec::new();
    let mut i: usize = 0;
    while i < s.len()
        invariant
            i <= s.len(),
            lines_of(s@) == views(lines@) + lines_from(s@, i as int),
        decreases s.len() - i,
    {
        let mut e: usize = i;
        while e < s.len() && s[e] != '\n'
            invariant
                i <= e <= s.len(),
                line_end(s@, i as int) == line_end(s@, e as int),
            decreases s.len() - e,
        {
            e += 1;
        }
        let ghost before = views(lines@);
        if e >= s.len() {
            lines.push(copy_range(s, i, s.len()));
            assert(views(lines@) =~= before + seq![s@.subrange(i as int, s.len() as int)]);
            i = s.len();
        } else {
            let end: usize = if e > i && s[e - 1] == '\r' {
                e - 1
            } else {
                e
            };
            lines.push(copy_range(s, i, end));
            assert(s@.subrange(i as int, end as int) =~= strip_carriage_return(
                s@.subrange(i as int, e as int),
            ));
            assert(views(lines@) =~= before + seq![
                strip_carriage_return(s@.subrange(i as int, e as int)),
            ]);
            i = e + 1;
        }
    }
    assert(views(lines@) + Seq::<Seq<char>>::empty() =~= views(lines@));
    lines
}

/// The whitespace-separated words of `s` from index `i` on: after the
/// whitespace at `i`, the run of other characters that follows is a word,
/// and the rest of the words follow it.
pub open spec fn words_from(s: Seq<char>, i: int) -> Seq<Seq<char>>
    decreases s.len() - i,
{
    if i < 0 || i >= s.len() {
        Seq::empty()
    } else {
        let a = skip_whitespace(s, i);
        let b = skip_word(s, a);
        proof {
            lemma_skip_whitespace_bounds(s, i);
            if a < s.len() {
                lemma_skip_word_bounds(s, a + 1);
            }
        }
        if a >= s.len() {
            Seq::empty()
        } else {
            seq![s.subrange(a, b)] + words_from(s, b)
        }
    }
}

/// The maximal runs of non-whitespace characters of `s`, in order, as
/// `str::split_whitespace` yields them.
pub open spec fn words_of(s: Seq<char>) -> Seq<Seq<char>> {
    words_from(s, 0)
}

/// Whether `w` is one word: not empty and free of whitespace.
pub open spec fn is_word(w: Seq<char>) -> bool {
    w.len() > 0 && forall|k: int| 0 <= k < w.len() ==> !char_is_whitespace(#[trigger] w[k])
}

/// Every element of `words_from` is a word.
pub proof fn lemma_words_are_words(s: Seq<char>, i: int)
    requires
        0 <= i <= s.len(),
    ensures
        forall|k: int| 0 <= k < words_from(s, i).len() ==> is_word(#[trigger] words_from(s, i)[k]),
    decreases s.len() - i,
{
    if i < s.len() {
        lemma_skip_whitespace_bounds(s, i);
        let a = skip_whitespace(s, i);
        if a < s.len() {
            lemma_skip_word_bounds(s, a);
            let b = skip_word(s, a);
            if b > a {
                lemma_words_are_words(s, b);
                let w = s.subrange(a, b);
                assert(is_word(w));
                assert forall|k: int| 0 <= k < words_from(s, i).len() implies is_word(
                    #[trigger] words_from(s, i)[k],
                ) by {
                    if k > 0 {
                        assert(words_from(s, i)[k] == words_from(s, b)[k - 1]);
                    }
                }
            }
        }
    }
}

/// Splits `s` into its whitespace-separated words.
pub fn split_whitespace(s: &[char]) -> (words: Vec<Vec<char>>)
    ensures
        views(words@) == words_of(s@),
{
    let mut words: Vec<Vec<char>> = Vec::new();
    let mut i: usize = 0;
    while i < s.len()
        invariant
            i <= s.len(),
            words_of(s@) == views(words@) + words_from(s@, i as int),
        decreases s.len() - i,
    {
        let a = skip_whitespace_from(s, i);
        if a >= s.len() {
            i = s.len();
        } else {
            let b = skip_word_from(s, a);
            proof {
                lemma_skip_whitespace_bounds(s@, i as int);
                lemma_skip_word_bounds(s@, a + 1);
            }
            let ghost before = views(words@);
            words.push(copy_range(s, a, b));
            assert(views(words@) =~= before + seq![s@.subrange(a as int, b as int)]);
            i = b;
        }
    }
    assert(views(words@) + Seq::<Seq<char>>::empty() =~= views(words@));
    words
}

/// Whether `needle` occurs in `s` at index `i`.
pub open spec fn occurs_at(s: Seq<char>, needle: Seq<char>, i: int) -> bool {
    0 <= i && i + needle.len() <= s.len() && s.subrange(i, i + needle.len()) == needle
}

/// Whether `needle` occurs somewhere in `s`.
pub open spec fn contains_seq(s: Seq<char>, needle: Seq<char>) -> bool {
    exists|i: int| occurs_at(s, needle, i)
}

/// Whether `s` starts with `prefix`.
pub open spec fn starts_with_seq(s: Seq<char>, prefix: Seq<char>) -> bool {
    occurs_at(s, prefix, 0)
}

/// Whether `needle` occurs in `s` at index `i`.
pub fn matches_at(s: &[char], needle: &[char], i: usize) -> (b: bool)
    ensures
        b == occurs_at(s@, needle@, i as int),
{
    if i > s.len() || needle.len() > s.len() - i {
        return false;
    }
    let mut k: usize = 0;
    while k < needle.len()
        invariant
            k <= needle.len(),
            i + needle.len() <= s.len(),
            forall|j: int| 0 <= j < k ==> s@[i + j] == needle@[j],
        decreases needle.len() - k,
    {
        if s[i + k] != needle[k] {
            assert(s@.subrange(i as int, i + needle.len())[k as int] != needle@[k as int]);
            return false;
        }
        k += 1;
    }
    assert(s@.subrange(i as int, i + needle.len()) =~= needle@);
    true
}

/// Whether `s` starts with `prefix`.
pub fn starts_with(s: &[char], prefix: &[char]) -> (b: bool)
    ensures
        b == starts_with_seq(s@, prefix@),
{
    matches_at(s, prefix, 0)
}

/// Whether two character slices hold the same text.
pub fn chars_equal(a: &[char], b: &[char]) -> (r: bool)
    ensures
        r == (a@ == b@),
{
    if a.len() != b.len() {
        return false;
    }
    assert(a@.subrange(0, a@.len() as int) =~= a@);
    matches_at(a, b, 0)
}

/// Whether two strings hold the same text.
pub fn str_equal(a: &str, b: &str) -> (r: bool)
    ensures
        r == (a@ == b@),
{
    let x = to_chars(a);
    let y = to_chars(b);
    chars_equal(x.as_slice(), y.as_slice())
}

/// Whether the characters of `s` spell `text`.
pub fn text_is(s: &[char], text: &str) -> (r: bool)
    ensures
        r == (s@ == text@),
{
    let y = to_chars(text);
    chars_equal(s, y.as_slice())
}

/// Whether `needle` occurs somewhere in `s`.
pub fn contains(s: &[char], needle: &[char]) -> (b: bool)
    ensures
        b == contains_seq(s@, needle@),
{
    if needle.len() > s.len() {
        return false;
    }
    let last: usize = s.len() - needle.len();
    let mut i: usize = 0;
    loop
        invariant
            i <= last,
            last == s.len() - needle.len(),
            forall|j: int| 0 <= j < i ==> !occurs_at(s@, needle@, j),
        decreases last - i,
    {
        if matches_at(s, needle, i) {
            return true;
        }
        if i == last {
            return false;
        }
        i += 1;
    }
}

/// Whether the character `c` occurs in `s`.
pub fn contains_char(s: &[char], c: char) -> (b: bool)
    ensures
        b == s@.contains(c),
{
    let mut i: usize = 0;
    while i < s.len()
        invariant
            i <= s.len(),
            forall|j: int| 0 <= j < i ==> s@[j] != c,
        decreases s.len() - i,
    {
        if s[i] == c {
            return true;
        }
        i += 1;
    }
    false
}

/// `s` from index `i` on, with every occurrence of `from` replaced by `to`,
/// scanning left to right and never inside an earlier occurrence.
pub open spec fn replaced_from(s: Seq<char>, from: Seq<char>, to: Seq<char>, i: int) -> Seq<char>
    decreases s.len() - i,
{
    if i < 0 || i >= s.len() || from.len() == 0 {
        Seq::empty()
    } else if occurs_at(s, from, i) {
        to + replaced_from(s, from, to, i + from.len())
    } else {
        seq![s[i]] + replaced_from(s, from, to, i + 1)
    }
}

/// `s` with every occurrence of the non-empty `from` replaced by `to`, as
/// `str::replace` does. With an empty `from` this is `s` itself.
pub open spec fn replaced(s: Seq<char>, from: Seq<char>, to: Seq<char>) -> Seq<char> {
    if from.len() == 0 {
        s
    } else {
        replaced_from(s, from, to, 0)
    }
}

/// Replaces every occurrence of `from` in `s` by `to`.
pub fn replace(s: &[char], from: &[char], to: &[char]) -> (r: Vec<char>)
    ensures
        r@ == replaced(s@, from@, to@),
{
    if from.len() == 0 {
        return slice_to_vec(s);
    }
    let mut r: Vec<char> = Vec::new();
    let mut i: usize = 0;
    while i < s.len()
        invariant
            i <= s.len(),
            from.len() > 0,
            replaced(s@, from@, to@) == r@ + replaced_from(s@, from@, to@, i as int),
        decreases s.len() - i,
    {
        let ghost before = r@;
        if matches_at(s, from, i) {
            r.extend_from_slice(to);
            assert(r@ + replaced_from(s@, from@, to@, i + from.len()) =~= before + (to@
                + replaced_from(s@, from@, to@, i + from.len())));
            i += from.len();
        } else {
            r.push(s[i]);
            assert(r@ + replaced_from(s@, from@, to@, i + 1) =~= before + (seq![s@[i as int]]
                + replaced_from(s@, from@, to@, i + 1)));
            i += 1;
        }
    }
    assert(r@ + Seq::<char>::empty() =~= r@);
    r
}

/// Every line followed by a line feed, one after the other.
pub open spec fn joined_lines(lines: Seq<Seq<char>>) -> Seq<char>
    decreases lines.len(),
{
    if lines.len() == 0 {
        Seq::empty()
    } else {
        joined_lines(lines.drop_last()) + lines.last() + seq!['\n']
    }
}

/// The decimal digit for a value below ten.
pub open spec fn digit_char(d: nat) -> char {
    if d == 0 {
        '0'
    } else if d == 1 {
        '1'
    } else if d == 2 {
        '2'
    } else if d == 3 {
        '3'
    } else if d == 4 {
        '4'
    } else if d == 5 {
        '5'
    } else if d == 6 {
        '6'
    } else if d == 7 {
        '7'
    } else if d == 8 {
        '8'
    } else {
        '9'
    }
}

/// The decimal numeral of `n`, without leading zeros.
pub open spec fn decimal(n: nat) -> Seq<char>
    decreases n,
{
    if n < 10 {
        seq![digit_char(n)]
    } else {
        decimal(n / 10).push(digit_char(n % 10))
    }
}

/// The decimal digit for a value below ten.
pub(crate) fn digit(d: u8) -> (c: char)
    requires
        d < 10,
    ensures
        c == digit_char(d as nat),
{
    if d == 0 {
        '0'
    } else if d == 1 {
        '1'
    } else if d == 2 {
        '2'
    } else if d == 3 {
        '3'
    } else if d == 4 {
        '4'
    } else if d == 5 {
        '5'
    } else if d == 6 {
        '6'
    } else if d == 7 {
        '7'
    } else if d == 8 {
        '8'
    } else {
        '9'
    }
}

/// Appends the decimal numeral of `n` to `out`.
pub fn push_decimal(out: &mut Vec<char>, n: u64)
    ensures
        final(out)@ == old(out)@ + decimal(n as nat),
    decreases n,
{
    if n >= 10 {
        push_decimal(out, n / 10);
    }
    let d: u8 = (n % 10) as u8;
    out.push(digit(d));
    assert(final(out)@ =~= old(out)@ + decimal(n as nat)) by {
        if n >= 10 {
            assert(old(out)@ + decimal((n / 10) as nat).push(digit_char((n % 10) as nat)) =~= (old(
                out,
            )@ + decimal((n / 10) as nat)).push(digit_char((n % 10) as nat)));
        }
    }
}

} // verus!
