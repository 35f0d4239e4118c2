//! How many bytes text takes in UTF-8.

use vstd::prelude::*;

verus! {

/// The number of bytes that `c` takes in UTF-8.
pub open spec fn utf8_len(c: char) -> nat {
    let n = c as u32;
    if n < 0x80 {
        1
    } else if n < 0x800 {
        2
    } else if n < 0x10000 {
        3
    } else {
        4
    }
}

/// The number of bytes that `s` takes in UTF-8.
pub open spec fn byte_len(s: Seq<char>) -> nat
    decreases s.len(),
{
    if s.len() == 0 {
        0
    } else {
        byte_len(s.drop_last()) + utf8_len(s.last())
    }
}

/// The number of bytes that `c` takes in UTF-8.
pub fn utf8_len_of(c: char) -> (n: usize)
    ensures
        n == utf8_len(c),
        1 <= n <= 4,
{
    let n: u32 = c as u32;
    if n < 0x80 {
        1
    } else if n < 0x800 {
        2
    } else if n < 0x10000 {
        3
    } else {
        4
    }
}

/// How many characters from the start of `s` fit into `max` bytes of UTF-8.
pub open spec fn prefix_fit(s: Seq<char>, max: nat) -> nat
    decreases s.len(),
{
    if s.len() == 0 || utf8_len(s[0]) > max {
        0
    } else {
        1 + prefix_fit(s.skip(1), (max - utf8_len(s[0])) as nat)
    }
}

/// How many characters from the end of `s` fit into `max` bytes of UTF-8.
pub open spec fn suffix_fit(s: Seq<char>, max: nat) -> nat
    decreases s.len(),
{
    if s.len() == 0 || utf8_len(s.last()) > max {
        0
    } else {
        1 + suffix_fit(s.drop_last(), (max - utf8_len(s.last())) as nat)
    }
}

pub proof fn lemma_prefix_fit(s: Seq<char>, max: nat)
    ensures
        prefix_fit(s, max) <= s.len(),
        byte_len(s.take(prefix_fit(s, max) as int)) <= max,
        prefix_fit(s, max) < s.len() ==> byte_len(s.take(prefix_fit(s, max) as int + 1)) > max,
        byte_len(s) <= max ==> prefix_fit(s, max) == s.len(),
    decreases s.len(),
{
    if s.len() == 0 {
        assert(s.take(0) =~= s);
    } else if utf8_len(s[0]) > max {
        assert(s.take(0) =~= Seq::<char>::empty());
        lemma_byte_len_front(s.take(1));
        lemma_byte_len_front(s);
    } else {
        let rest = s.skip(1);
        let left = (max - utf8_len(s[0])) as nat;
        lemma_prefix_fit(rest, left);
        let n = prefix_fit(rest, left) as int;
        lemma_byte_len_front(s.take(n + 1));
        assert(s.take(n + 1).skip(1) =~= rest.take(n));
        lemma_byte_len_front(s);
        if n < rest.len() {
            lemma_byte_len_front(s.take(n + 2));
            assert(s.take(n + 2).skip(1) =~= rest.take(n + 1));
        }
    }
}

pub proof fn lemma_suffix_fit(s: Seq<char>, max: nat)
    ensures
        suffix_fit(s, max) <= s.len(),
        byte_len(s.skip(s.len() - suffix_fit(s, max))) <= max,
        suffix_fit(s, max) < s.len() ==> byte_len(s.skip(s.len() - suffix_fit(s, max) - 1)) > max,
        byte_len(s) <= max ==> suffix_fit(s, max) == s.len(),
    decreases s.len(),
{
    if s.len() == 0 {
        assert(s.skip(0) =~= s);
    } else if utf8_len(s.last()) > max {
        assert(s.skip(s.len() as int) =~= Seq::<char>::empty());
        let t = s.skip(s.len() - 1);
        assert(t.drop_last() =~= Seq::<char>::empty());
        assert(byte_len(t.drop_last()) == 0);
        assert(t.last() == s.last());
    } else {
        let init = s.drop_last();
        let left = (max - utf8_len(s.last())) as nat;
        lemma_suffix_fit(init, left);
        let n = suffix_fit(init, left) as int;
        let t = s.skip(s.len() - n - 1);
        assert(t.drop_last() =~= init.skip(init.len() - n));
        assert(t.last() == s.last());
        assert(s.drop_last() == init);
        if n < init.len() {
            let u = s.skip(s.len() - n - 2);
            assert(u.drop_last() =~= init.skip(init.len() - n - 1));
            assert(u.last() == s.last());
        }
    }
}

/// How many characters from the start of `v` fit into `max` bytes of UTF-8.
pub fn chars_within(v: &Vec<char>, max: usize) -> (n: usize)
    ensures
        n == prefix_fit(v@, max as nat),
        n <= v.len(),
{
    let mut n: usize = 0;
    let mut left: usize = max;
    proof {
        assert(v@.skip(0) =~= v@);
        lemma_prefix_fit(v@, max as nat);
    }
    while n < v.len()
        invariant
            n <= v.len(),
            n + prefix_fit(v@.skip(n as int), left as nat) == prefix_fit(v@, max as nat),
        decreases v.len() - n,
    {
        let width = utf8_len_of(v[n]);
        proof {
            assert(v@.skip(n as int).skip(1) =~= v@.skip(n + 1));
        }
        if width > left {
            return n;
        }
        left -= width;
        n += 1;
    }
    n
}

/// How many characters from the end of `v` fit into `max` bytes of UTF-8.
pub fn chars_within_end(v: &Vec<char>, max: usize) -> (n: usize)
    ensures
        n == suffix_fit(v@, max as nat),
        n <= v.len(),
{
    let mut n: usize = 0;
    let mut left: usize = max;
    proof {
        assert(v@.take(v.len() as int) =~= v@);
        lemma_suffix_fit(v@, max as nat);
    }
    while n < v.len()
        invariant
            n <= v.len(),
            n + suffix_fit(v@.take(v.len() - n), left as nat) == suffix_fit(v@, max as nat),
        decreases v.len() - n,
    {
        let width = utf8_len_of(v[v.len() - n - 1]);
        proof {
            assert(v@.take(v.len() - n).drop_last() =~= v@.take(v.len() - n - 1));
        }
        if width > left {
            return n;
        }
        left -= width;
        n += 1;
    }
    n
}

/// The byte length counted from the front.
pub proof fn lemma_byte_len_front(s: Seq<char>)
    requires
        s.len() > 0,
    ensures
        byte_len(s) == utf8_len(s[0]) + byte_len(s.skip(1)),
    decreases s.len(),
{
    if s.len() == 1 {
        assert(s.drop_last() =~= s.skip(1));
        assert(byte_len(s.skip(1)) == 0);
    } else {
        lemma_byte_len_front(s.drop_last());
        assert(s.drop_last().skip(1) =~= s.skip(1).drop_last());
        assert(s.skip(1).last() == s.last());
        assert(s.drop_last()[0] == s[0]);
    }
}

/// `byte_len` is the length of the UTF-8 encoding.
pub proof fn lemma_byte_len_is_utf8(s: Seq<char>)
    ensures
        byte_len(s) == vstd::utf8::encode_utf8(s).len(),
    decreases s.len(),
{
    if s.len() > 0 {
        lemma_byte_len_front(s);
        assert(s.drop_first() =~= s.skip(1));
        lemma_byte_len_is_utf8(s.skip(1));
        vstd::utf8::char_is_scalar(s[0]);
    }
}

/// The number of bytes that `s` takes.
pub fn byte_len_of(s: &str) -> (n: usize)
    ensures
        n == byte_len(s@),
{
    proof {
        lemma_byte_len_is_utf8(s@);
    }
    s.as_bytes().len()
}

/// Whether `v` takes more than `max` bytes in UTF-8.
pub fn exceeds_bytes(v: &Vec<char>, max: usize) -> (b: bool)
    ensures
        b == (byte_len(v@) > max),
{
    proof {
        lemma_prefix_fit(v@, max as nat);
        assert(v@.take(v@.len() as int) =~= v@);
    }
    chars_within(v, max) < v.len()
}

} // verus!
