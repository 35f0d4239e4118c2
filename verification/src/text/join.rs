//! Putting pieces of text together, and numbers in decimal notation.

use vstd::prelude::*;
use crate::text::{push_str, string_views};

verus! {

/// The pieces joined into one text.
pub open spec fn concat_all(pieces: Seq<Seq<char>>) -> Seq<char>
    decreases pieces.len(),
{
    if pieces.len() == 0 {
        Seq::empty()
    } else {
        pieces[0] + concat_all(pieces.skip(1))
    }
}

/// The character of a decimal digit.
pub open spec fn digit_char(d: int) -> char {
    if d == 0 {
        '0'
    } else if d == 1 {
        '1'
    } else if d == 2 {
        '2'
    } else if d == 3 {
        '3'
    } else if d == 4 {
        '4'
    } else if d == 5 {
        '5'
    } else if d == 6 {
        '6'
    } else if d == 7 {
        '7'
    } else if d == 8 {
        '8'
    } else {
        '9'
    }
}

/// The decimal notation of `n`, without leading zeros.
pub open spec fn decimal(n: nat) -> Seq<char>
    decreases n,
{
    if n < 10 {
        seq![digit_char(n as int)]
    } else {
        decimal(n / 10).push(digit_char((n % 10) as int))
    }
}

fn digit_of(d: u64) -> (c: char)
    requires
        d < 10,
    ensures
        c == digit_char(d as int),
{
    if d == 0 {
        '0'
    } else if d == 1 {
        '1'
    } else if d == 2 {
        '2'
    } else if d == 3 {
        '3'
    } else if d == 4 {
        '4'
    } else if d == 5 {
        '5'
    } else if d == 6 {
        '6'
    } else if d == 7 {
        '7'
    } else if d == 8 {
        '8'
    } else {
        '9'
    }
}

/// The decimal notation of `n`.
pub fn decimal_of(n: u64) -> (v: Vec<char>)
    ensures
        v@ == decimal(n as nat),
    decreases n,
{
    if n < 10 {
        let mut v: Vec<char> = Vec::new();
        v.push(digit_of(n));
        v
    } else {
        let mut v = decimal_of(n / 10);
        v.push(digit_of(n % 10));
        v
    }
}

/// Joining after one more piece appends that piece.
pub proof fn lemma_concat_all_push(pieces: Seq<Seq<char>>, piece: Seq<char>)
    ensures
        concat_all(pieces.push(piece)) == concat_all(pieces) + piece,
    decreases pieces.len(),
{
    if pieces.len() == 0 {
        assert(pieces.push(piece).skip(1) =~= Seq::<Seq<char>>::empty());
        assert(concat_all(pieces.push(piece).skip(1)) =~= Seq::<char>::empty());
        assert(concat_all(pieces.push(piece)) =~= concat_all(pieces) + piece);
    } else {
        assert(pieces.push(piece).skip(1) =~= pieces.skip(1).push(piece));
        assert(pieces.push(piece)[0] == pieces[0]);
        lemma_concat_all_push(pieces.skip(1), piece);
        assert(concat_all(pieces.push(piece)) =~= concat_all(pieces) + piece);
    }
}

/// Joining the first `i + 1` pieces is joining the first `i` and appending
/// the next.
pub proof fn lemma_concat_all_step(pieces: Seq<Seq<char>>, i: int)
    requires
        0 <= i < pieces.len(),
    ensures
        concat_all(pieces.take(i + 1)) == concat_all(pieces.take(i)) + pieces[i],
{
    assert(pieces.take(i + 1) =~= pieces.take(i).push(pieces[i]));
    lemma_concat_all_push(pieces.take(i), pieces[i]);
}

/// The items with `sep` between them.
pub open spec fn joined(items: Seq<Seq<char>>, sep: Seq<char>) -> Seq<char>
    decreases items.len(),
{
    if items.len() == 0 {
        Seq::empty()
    } else if items.len() == 1 {
        items[0]
    } else {
        joined(items.drop_last(), sep) + sep + items.last()
    }
}

/// Appends the first `n` of `items` to `out`, with `sep` between them.
pub fn push_joined(out: &mut Vec<char>, items: &Vec<String>, n: usize, sep: &str)
    requires
        n <= items.len(),
    ensures
        final(out)@ == old(out)@ + joined(string_views(items@).take(n as int), sep@),
{
    let ghost head = out@;
    let ghost views = string_views(items@);
    let mut i: usize = 0;
    proof {
        assert(views.take(0) =~= Seq::<Seq<char>>::empty());
        assert(out@ =~= head + joined(views.take(0), sep@));
    }
    while i < n
        invariant
            i <= n <= items.len(),
            views == string_views(items@),
            out@ == head + joined(views.take(i as int), sep@),
        decreases n - i,
    {
        if i > 0 {
            push_str(out, sep);
        }
        push_str(out, items[i].as_str());
        proof {
            let next = views.take(i + 1);
            assert(next.drop_last() =~= views.take(i as int));
            assert(next.last() == items@[i as int]@);
            if i == 0 {
                assert(joined(views.take(0), sep@) =~= Seq::<char>::empty());
            }
            assert(out@ =~= head + joined(next, sep@));
        }
        i += 1;
    }
}

} // verus!
