//! Lines and words.

use vstd::prelude::*;
use crate::text::{subvec, vec_views};
use crate::text::trim::{char_is_whitespace, is_whitespace};

verus! {

/// No character of `s` is a line feed.
pub open spec fn no_newline(s: Seq<char>) -> bool {
    forall|i: int| 0 <= i < s.len() ==> s[i] != '\n'
}

/// The position of the first line feed of `s`, or `s.len()` when it has none.
pub open spec fn newline_at(s: Seq<char>) -> int
    decreases s.len(),
{
    if s.len() == 0 {
        0
    } else if s[0] == '\n' {
        0
    } else {
        1 + newline_at(s.skip(1))
    }
}

/// `s` without one trailing carriage return.
pub open spec fn strip_cr(s: Seq<char>) -> Seq<char> {
    if s.len() > 0 && s.last() == '\r' {
        s.drop_last()
    } else {
        s
    }
}

/// The lines of `s`. A line ends at a line feed; a carriage return just
/// before that line feed belongs to the line ending. Text after the last
/// line feed is a line of its own unless it is empty.
pub open spec fn lines_of(s: Seq<char>) -> Seq<Seq<char>>
    decreases s.len(),
{
    if s.len() == 0 {
        Seq::empty()
    } else {
        let i = newline_at(s);
        if 0 <= i < s.len() {
            seq![strip_cr(s.take(i))] + lines_of(s.skip(i + 1))
        } else {
            seq![s]
        }
    }
}

/// The lines concatenated, each followed by a line feed.
pub open spec fn join_lines(lines: Seq<Seq<char>>) -> Seq<char>
    decreases lines.len(),
{
    if lines.len() == 0 {
        Seq::empty()
    } else {
        lines[0] + seq!['\n'] + join_lines(lines.skip(1))
    }
}

/// `newline_at` lies within the text, nothing before it is a line feed, and
/// a position inside the text holds one.
pub proof fn lemma_newline_at(s: Seq<char>)
    ensures
        0 <= newline_at(s) <= s.len(),
        no_newline(s.take(newline_at(s))),
        newline_at(s) < s.len() ==> s[newline_at(s)] == '\n',
    decreases s.len(),
{
    if s.len() == 0 {
    } else if s[0] == '\n' {
    } else {
        lemma_newline_at(s.skip(1));
        let n = newline_at(s.skip(1));
        let t = s.take(1 + n);
        assert forall|i: int| 0 <= i < t.len() implies t[i] != '\n' by {
            if i > 0 {
                assert(s.skip(1).take(n)[i - 1] == s[i]);
            }
        }
    }
}

/// In front of a line feed, text without line feeds is skipped over.
pub proof fn lemma_newline_at_prefix(p: Seq<char>, rest: Seq<char>)
    requires
        no_newline(p),
    ensures
        newline_at(p + rest) == p.len() + newline_at(rest),
    decreases p.len(),
{
    if p.len() == 0 {
        assert(p + rest =~= rest);
    } else {
        assert((p + rest)[0] == p[0]);
        assert((p + rest).skip(1) =~= p.skip(1) + rest);
        assert(no_newline(p.skip(1))) by {
            assert forall|i: int| 0 <= i < p.skip(1).len() implies p.skip(1)[i] != '\n' by {
                assert(p.skip(1)[i] == p[i + 1]);
            }
        }
        lemma_newline_at_prefix(p.skip(1), rest);
    }
}

/// A first line that ends with a line feed is split off.
pub proof fn lemma_lines_of_split(p: Seq<char>, rest: Seq<char>)
    requires
        no_newline(p),
    ensures
        lines_of(p + seq!['\n'] + rest) == seq![strip_cr(p)] + lines_of(rest),
{
    let s = p + seq!['\n'] + rest;
    assert(s =~= p + (seq!['\n'] + rest));
    lemma_newline_at_prefix(p, seq!['\n'] + rest);
    assert(newline_at(seq!['\n'] + rest) == 0);
    assert(s.take(p.len() as int) =~= p);
    assert(s.skip(p.len() as int + 1) =~= rest);
}

/// Text without a line feed is one line, or none when it is empty.
pub proof fn lemma_lines_of_single(p: Seq<char>)
    requires
        no_newline(p),
    ensures
        lines_of(p) == if p.len() == 0 {
            Seq::<Seq<char>>::empty()
        } else {
            seq![p]
        },
{
    if p.len() > 0 {
        lemma_newline_at_prefix(p, Seq::empty());
        assert(p + Seq::<char>::empty() =~= p);
    }
}

/// The lines of `v`.
pub fn split_lines(v: &Vec<char>) -> (lines: Vec<Vec<char>>)
    ensures
        vec_views(lines@) == lines_of(v@),
{
    let mut lines: Vec<Vec<char>> = Vec::new();
    let mut start: usize = 0;
    let mut i: usize = 0;
    proof {
        assert(v@.skip(0) =~= v@);
        assert(vec_views(lines@) =~= Seq::<Seq<char>>::empty());
    }
    while i < v.len()
        invariant
            start <= i <= v.len(),
            forall|j: int| start <= j < i ==> v@[j] != '\n',
            vec_views(lines@) + lines_of(v@.skip(start as int)) == lines_of(v@),
        decreases v.len() - i,
    {
        if v[i] == '\n' {
            let mut end: usize = i;
            if end > start && v[end - 1] == '\r' {
                end -= 1;
            }
            let line = subvec(v, start, end);
            proof {
                let p = v@.subrange(start as int, i as int);
                let rest = v@.skip(i + 1);
                assert(v@.skip(start as int) =~= p + seq!['\n'] + rest);
                lemma_lines_of_split(p, rest);
                if p.len() > 0 {
                    assert(p.last() == v@[i - 1]);
                }
                assert(line@ =~= strip_cr(p));
                let before = vec_views(lines@);
                assert(vec_views(lines@.push(line)) =~= before.push(line@));
                assert(before.push(line@) + lines_of(rest) =~= before + (seq![line@] + lines_of(
                    rest,
                )));
            }
            lines.push(line);
            start = i + 1;
        }
        i += 1;
    }
    proof {
        lemma_lines_of_single(v@.skip(start as int));
    }
    if start < v.len() {
        let line = subvec(v, start, v.len());
        proof {
            assert(line@ =~= v@.skip(start as int));
            let before = vec_views(lines@);
            assert(vec_views(lines@.push(line)) =~= before + seq![line@]);
        }
        lines.push(line);
    } else {
        proof {
            assert(vec_views(lines@) + Seq::<Seq<char>>::empty() =~= vec_views(lines@));
        }
    }
    lines
}

/// The length of the run of characters other than whitespace that `s`
/// begins with.
pub open spec fn word_end(s: Seq<char>) -> int
    decreases s.len(),
{
    if s.len() == 0 || is_whitespace(s[0]) {
        0
    } else {
        1 + word_end(s.skip(1))
    }
}

/// The words of `s`: its maximal runs of characters other than whitespace.
pub open spec fn words_of(s: Seq<char>) -> Seq<Seq<char>>
    decreases s.len(),
{
    if s.len() == 0 {
        Seq::empty()
    } else if is_whitespace(s[0]) {
        words_of(s.skip(1))
    } else {
        let n = word_end(s);
        if 0 < n <= s.len() {
            seq![s.take(n)] + words_of(s.skip(n))
        } else {
            seq![s]
        }
    }
}

proof fn lemma_word_end_is(s: Seq<char>, n: int)
    requires
        0 <= n <= s.len(),
        forall|i: int| 0 <= i < n ==> !is_whitespace(s[i]),
        n < s.len() ==> is_whitespace(s[n]),
    ensures
        word_end(s) == n,
    decreases n,
{
    if n > 0 {
        lemma_word_end_is(s.skip(1), n - 1);
    }
}

/// The words of `v`.
pub fn split_words(v: &Vec<char>) -> (words: Vec<Vec<char>>)
    ensures
        vec_views(words@) == words_of(v@),
{
    let mut words: Vec<Vec<char>> = Vec::new();
    let mut i: usize = 0;
    proof {
        assert(v@.skip(0) =~= v@);
        assert(vec_views(words@) =~= Seq::<Seq<char>>::empty());
    }
    while i < v.len()
        invariant
            i <= v.len(),
            vec_views(words@) + words_of(v@.skip(i as int)) == words_of(v@),
        decreases v.len() - i,
    {
        if char_is_whitespace(v[i]) {
            proof {
                assert(v@.skip(i as int).skip(1) =~= v@.skip(i + 1));
            }
            i += 1;
        } else {
            let start = i;
            while i < v.len() && !char_is_whitespace(v[i])
                invariant
                    start <= i <= v.len(),
                    forall|j: int| start <= j < i ==> !is_whitespace(v@[j]),
                decreases v.len() - i,
            {
                i += 1;
            }
            let word = subvec(v, start, i);
            proof {
                let rest = v@.skip(start as int);
                lemma_word_end_is(rest, i - start);
                assert(rest.take(i - start) =~= word@);
                assert(rest.skip(i - start) =~= v@.skip(i as int));
                let before = vec_views(words@);
                assert(vec_views(words@.push(word)) =~= before.push(word@));
                assert(before.push(word@) + words_of(v@.skip(i as int)) =~= before + (seq![word@]
                    + words_of(v@.skip(i as int))));
            }
            words.push(word);
        }
    }
    proof {
        assert(vec_views(words@) + Seq::<Seq<char>>::empty() =~= vec_views(words@));
    }
    words
}

} // verus!
