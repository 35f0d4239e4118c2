//! Character-level text utilities shared by the whole library.
//!
//! Contracts speak of text as `Seq<char>`; executable code works on
//! `Vec<char>` and converts at the boundary.

pub mod case;
pub mod join;
pub mod lines;
pub mod search;
pub mod trim;
pub mod utf8;

pub use self::case::{lowercase, uppercase};
pub(crate) use self::case::{to_lowercase, to_uppercase};
pub use self::join::{
    concat_all, decimal, decimal_of, digit_char, joined, lemma_concat_all_push,
    lemma_concat_all_step, push_joined,
};
pub use self::lines::{
    join_lines, lemma_lines_of_single, lemma_lines_of_split, lemma_newline_at,
    lemma_newline_at_prefix, lines_of, newline_at, no_newline, split_lines, split_words, strip_cr,
    word_end, words_of,
};
pub use self::search::{
    contains, contains_in, count_from, count_in, count_matches, ends_with, find, find_from,
    find_in, lemma_count_weight, lemma_find_from, lemma_find_from_none, lemma_find_from_unique,
    matches_at, occurs_at, starts_with, str_contains, suffix_stripped_len, without_suffix,
};
pub use self::trim::{
    char_is_whitespace, is_whitespace, trim, trim_bounds, trim_end, trim_start, trimmed,
};
pub use self::utf8::{
    byte_len, byte_len_of, chars_within, chars_within_end, exceeds_bytes, lemma_byte_len_front,
    lemma_byte_len_is_utf8, lemma_prefix_fit, lemma_suffix_fit, prefix_fit, suffix_fit, utf8_len,
    utf8_len_of,
};

use vstd::prelude::*;

verus! {

/// Appending one character to a `String` extends its view by that character,
/// as the documentation of `String::push` states.
pub assume_specification[ String::push ](s: &mut String, c: char)
    ensures
        final(s)@ == old(s)@.push(c),
;

/// The characters of `s`, in order.
pub fn chars_of(s: &str) -> (v: Vec<char>)
    ensures
        v@ == s@,
{
    let mut v: Vec<char> = Vec::new();
    for c in it: s.chars()
        invariant
            v@ == it.seq().take(it.index() as int),
            it.seq() == s@,
    {
        v.push(c);
    }
    v
}

/// The string made of the characters of `v`.
pub fn string_of(v: &Vec<char>) -> (s: String)
    ensures
        s@ == v@,
{
    let mut s = String::new();
    let mut i: usize = 0;
    while i < v.len()
        invariant
            i <= v.len(),
            s@ == v@.take(i as int),
        decreases v.len() - i,
    {
        s.push(v[i]);
        i += 1;
    }
    s
}

/// A copy of the characters of `v` from `lo` up to `hi`.
pub fn subvec(v: &Vec<char>, lo: usize, hi: usize) -> (r: Vec<char>)
    requires
        lo <= hi <= v.len(),
    ensures
        r@ == v@.subrange(lo as int, hi as int),
{
    let mut r: Vec<char> = Vec::new();
    let mut i: usize = lo;
    while i < hi
        invariant
            lo <= i <= hi <= v.len(),
            r@ == v@.subrange(lo as int, i as int),
        decreases hi - i,
    {
        r.push(v[i]);
        i += 1;
    }
    r
}

/// Appends the characters of `src` to `dst`.
pub fn push_all(dst: &mut Vec<char>, src: &Vec<char>)
    ensures
        final(dst)@ == old(dst)@ + src@,
{
    let mut i: usize = 0;
    while i < src.len()
        invariant
            i <= src.len(),
            dst@ == old(dst)@ + src@.take(i as int),
        decreases src.len() - i,
    {
        dst.push(src[i]);
        i += 1;
    }
    proof {
        assert(src@.take(src.len() as int) =~= src@);
    }
}

/// Whether two texts hold the same characters.
pub fn same_chars(a: &Vec<char>, b: &Vec<char>) -> (r: bool)
    ensures
        r == (a@ == b@),
{
    if a.len() != b.len() {
        return false;
    }
    let r = matches_at(a, b, 0);
    proof {
        assert(a@.subrange(0, a@.len() as int) =~= a@);
    }
    r
}

/// Appends the characters of `s` to `dst`.
pub fn push_str(dst: &mut Vec<char>, s: &str)
    ensures
        final(dst)@ == old(dst)@ + s@,
{
    let chars = chars_of(s);
    push_all(dst, &chars);
}

/// Whether two strings hold the same characters.
pub fn str_eq(a: &str, b: &str) -> (r: bool)
    ensures
        r == (a@ == b@),
{
    let x = chars_of(a);
    let y = chars_of(b);
    same_chars(&x, &y)
}

/// The texts of `v` as plain text.
pub open spec fn vec_views(v: Seq<Vec<char>>) -> Seq<Seq<char>> {
    v.map_values(|l: Vec<char>| l@)
}

/// The strings of `v` as plain text.
pub open spec fn string_views(v: Seq<String>) -> Seq<Seq<char>> {
    v.map_values(|l: String| l@)
}

} // verus!
