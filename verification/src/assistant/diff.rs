//! Line diffs between the content a file has and the content proposed for it.
//!
//! The diff itself is computed by the `similar` crate. What it returns is
//! checked here before anybody sees it: a diff is shown only if its deleted
//! and unchanged lines make up the old text and its inserted and unchanged
//! lines make up the new text.

use vstd::prelude::*;
use crate::text::{
    chars_of, concat_all, occurs_at, lemma_newline_at, newline_at, push_all, same_chars, string_of, subvec,
};

verus! {

/// How a line of a diff relates the two texts.
#[derive(Debug, Clone, Copy, PartialEq, Eq)]
pub enum ChangeTag {
    /// The line stands in both texts.
    Equal,
    /// The line stands in the old text only.
    Delete,
    /// The line stands in the new text only.
    Insert,
}

/// One line of a diff: the line as it stands in its text, line ending
/// included, and its tag.
#[derive(Debug, Clone, PartialEq, Eq)]
pub struct DiffLine {
    pub tag: ChangeTag,
    pub text: String,
}

/// A diff line as plain text.
pub struct DiffLineView {
    pub tag: ChangeTag,
    pub text: Seq<char>,
}

impl View for DiffLine {
    type V = DiffLineView;

    open spec fn view(&self) -> DiffLineView {
        DiffLineView { tag: self.tag, text: self.text@ }
    }
}

/// The lines of `lines` as plain text.
pub open spec fn diff_views(lines: Seq<DiffLine>) -> Seq<DiffLineView> {
    lines.map_values(|l: DiffLine| l@)
}

/// The old text according to a diff: its unchanged and deleted lines.
pub open spec fn old_side(diff: Seq<DiffLineView>) -> Seq<char>
    decreases diff.len(),
{
    if diff.len() == 0 {
        Seq::empty()
    } else if diff[0].tag == ChangeTag::Insert {
        old_side(diff.skip(1))
    } else {
        diff[0].text + old_side(diff.skip(1))
    }
}

/// The new text according to a diff: its unchanged and inserted lines.
pub open spec fn new_side(diff: Seq<DiffLineView>) -> Seq<char>
    decreases diff.len(),
{
    if diff.len() == 0 {
        Seq::empty()
    } else if diff[0].tag == ChangeTag::Delete {
        new_side(diff.skip(1))
    } else {
        diff[0].text + new_side(diff.skip(1))
    }
}

/// A diff is faithful to two texts when it reproduces both of them.
pub open spec fn is_diff_of(diff: Seq<DiffLineView>, original: Seq<char>, new: Seq<char>) -> bool {
    old_side(diff) == original && new_side(diff) == new
}

/// The pieces of `s` that end with a line feed, and what is left after the
/// last line feed if it is not empty.
pub open spec fn split_inclusive(s: Seq<char>) -> Seq<Seq<char>>
    decreases s.len(),
{
    if s.len() == 0 {
        Seq::empty()
    } else {
        let i = newline_at(s);
        if 0 <= i < s.len() {
            seq![s.take(i + 1)] + split_inclusive(s.skip(i + 1))
        } else {
            seq![s]
        }
    }
}

/// Every piece with the same tag.
pub open spec fn tagged(tag: ChangeTag, pieces: Seq<Seq<char>>) -> Seq<DiffLineView> {
    pieces.map_values(|p: Seq<char>| DiffLineView { tag, text: p })
}

/// The diff that replaces the old text wholesale: all its lines deleted, then
/// all lines of the new text inserted.
pub open spec fn replace_all_diff(original: Seq<char>, new: Seq<char>) -> Seq<DiffLineView> {
    tagged(ChangeTag::Delete, split_inclusive(original)) + tagged(
        ChangeTag::Insert,
        split_inclusive(new),
    )
}

/// What `similar` computes for two texts: the changes of
/// `TextDiff::from_lines(original, new)` in the order of `iter_all_changes`.
pub uninterp spec fn line_changes(original: Seq<char>, new: Seq<char>) -> Seq<DiffLineView>;

/// The diff that is shown for two texts, given what `similar` returned for
/// them: that result if it is faithful, the wholesale replacement otherwise.
pub open spec fn checked_diff(
    raw: Seq<DiffLineView>,
    original: Seq<char>,
    new: Seq<char>,
) -> Seq<DiffLineView> {
    if is_diff_of(raw, original, new) {
        raw
    } else {
        replace_all_diff(original, new)
    }
}

/// Calls `similar::TextDiff::from_lines` on the two texts and lists what
/// `iter_all_changes` yields, each change with its tag and its text. Nothing
/// is assumed of the result but that it is the same for the same two texts:
/// the default configuration has no deadline and no randomness.
#[verifier::external_body]
fn similar_line_changes(original: &str, new: &str) -> (r: Vec<DiffLine>)
    ensures
        diff_views(r@) == line_changes(original@, new@),
{
    similar::TextDiff::from_lines(original, new)
        .iter_all_changes()
        .map(
            |change| DiffLine {
                tag: match change.tag() {
                    similar::ChangeTag::Equal => ChangeTag::Equal,
                    similar::ChangeTag::Delete => ChangeTag::Delete,
                    similar::ChangeTag::Insert => ChangeTag::Insert,
                },
                text: change.to_string_lossy().into_owned(),
            },
        )
        .collect()
}

proof fn lemma_side_push(diff: Seq<DiffLineView>, line: DiffLineView)
    ensures
        old_side(diff.push(line)) == if line.tag == ChangeTag::Insert {
            old_side(diff)
        } else {
            old_side(diff) + line.text
        },
        new_side(diff.push(line)) == if line.tag == ChangeTag::Delete {
            new_side(diff)
        } else {
            new_side(diff) + line.text
        },
    decreases diff.len(),
{
    if diff.len() == 0 {
        assert(diff.push(line).skip(1) =~= Seq::<DiffLineView>::empty());
        assert(diff.push(line)[0] == line);
        assert(old_side(diff.push(line).skip(1)) =~= Seq::<char>::empty());
        assert(new_side(diff.push(line).skip(1)) =~= Seq::<char>::empty());
        assert(old_side(diff.push(line)) =~= if line.tag == ChangeTag::Insert {
            old_side(diff)
        } else {
            old_side(diff) + line.text
        });
        assert(new_side(diff.push(line)) =~= if line.tag == ChangeTag::Delete {
            new_side(diff)
        } else {
            new_side(diff) + line.text
        });
    } else {
        assert(diff.push(line).skip(1) =~= diff.skip(1).push(line));
        assert(diff.push(line)[0] == diff[0]);
        lemma_side_push(diff.skip(1), line);
        assert(old_side(diff.push(line)) =~= if line.tag == ChangeTag::Insert {
            old_side(diff)
        } else {
            old_side(diff) + line.text
        });
        assert(new_side(diff.push(line)) =~= if line.tag == ChangeTag::Delete {
            new_side(diff)
        } else {
            new_side(diff) + line.text
        });
    }
}

/// Whether `diff` reproduces both texts.
pub fn check_diff(diff: &Vec<DiffLine>, original: &str, new: &str) -> (ok: bool)
    ensures
        ok == is_diff_of(diff_views(diff@), original@, new@),
{
    let mut old_text: Vec<char> = Vec::new();
    let mut new_text: Vec<char> = Vec::new();
    let mut i: usize = 0;
    proof {
        assert(diff_views(diff@).take(0) =~= Seq::<DiffLineView>::empty());
    }
    while i < diff.len()
        invariant
            i <= diff.len(),
            old_text@ == old_side(diff_views(diff@).take(i as int)),
            new_text@ == new_side(diff_views(diff@).take(i as int)),
        decreases diff.len() - i,
    {
        let line = chars_of(diff[i].text.as_str());
        proof {
            let views = diff_views(diff@);
            assert(views.take(i + 1) =~= views.take(i as int).push(views[i as int]));
            lemma_side_push(views.take(i as int), views[i as int]);
        }
        match diff[i].tag {
            ChangeTag::Equal => {
                push_all(&mut old_text, &line);
                push_all(&mut new_text, &line);
            },
            ChangeTag::Delete => {
                push_all(&mut old_text, &line);
            },
            ChangeTag::Insert => {
                push_all(&mut new_text, &line);
            },
        }
        i += 1;
    }
    proof {
        assert(diff_views(diff@).take(diff.len() as int) =~= diff_views(diff@));
    }
    let a = chars_of(original);
    let b = chars_of(new);
    same_chars(&old_text, &a) && same_chars(&new_text, &b)
}

proof fn lemma_tagged_sides(tag: ChangeTag, pieces: Seq<Seq<char>>)
    ensures
        old_side(tagged(tag, pieces)) == if tag == ChangeTag::Insert {
            Seq::<char>::empty()
        } else {
            concat_all(pieces)
        },
        new_side(tagged(tag, pieces)) == if tag == ChangeTag::Delete {
            Seq::<char>::empty()
        } else {
            concat_all(pieces)
        },
    decreases pieces.len(),
{
    if pieces.len() > 0 {
        assert(tagged(tag, pieces).skip(1) =~= tagged(tag, pieces.skip(1)));
        lemma_tagged_sides(tag, pieces.skip(1));
    }
}

proof fn lemma_sides_add(a: Seq<DiffLineView>, b: Seq<DiffLineView>)
    ensures
        old_side(a + b) == old_side(a) + old_side(b),
        new_side(a + b) == new_side(a) + new_side(b),
    decreases a.len(),
{
    if a.len() == 0 {
        assert(a + b =~= b);
        assert(old_side(a) + old_side(b) =~= old_side(b));
        assert(new_side(a) + new_side(b) =~= new_side(b));
    } else {
        assert((a + b)[0] == a[0]);
        assert((a + b).skip(1) =~= a.skip(1) + b);
        lemma_sides_add(a.skip(1), b);
        assert(old_side(a + b) =~= old_side(a) + old_side(b));
        assert(new_side(a + b) =~= new_side(a) + new_side(b));
    }
}

/// The pieces of a text make up the text.
pub proof fn lemma_split_inclusive_concat(s: Seq<char>)
    ensures
        concat_all(split_inclusive(s)) == s,
    decreases s.len(),
{
    if s.len() == 0 {
    } else {
        lemma_newline_at(s);
        let i = newline_at(s);
        if i < s.len() {
            let pieces = split_inclusive(s);
            lemma_split_inclusive_concat(s.skip(i + 1));
            assert(pieces[0] == s.take(i + 1));
            assert(pieces.skip(1) =~= split_inclusive(s.skip(i + 1)));
            assert(s.take(i + 1) + s.skip(i + 1) =~= s);
        } else {
            let pieces = seq![s];
            assert(pieces.skip(1) =~= Seq::<Seq<char>>::empty());
            assert(concat_all(pieces.skip(1)) =~= Seq::<char>::empty());
            assert(s + Seq::<char>::empty() =~= s);
        }
    }
}

/// The wholesale replacement is faithful to its two texts.
pub proof fn lemma_replace_all_is_diff(original: Seq<char>, new: Seq<char>)
    ensures
        is_diff_of(replace_all_diff(original, new), original, new),
{
    let d = tagged(ChangeTag::Delete, split_inclusive(original));
    let i = tagged(ChangeTag::Insert, split_inclusive(new));
    lemma_sides_add(d, i);
    lemma_tagged_sides(ChangeTag::Delete, split_inclusive(original));
    lemma_tagged_sides(ChangeTag::Insert, split_inclusive(new));
    lemma_split_inclusive_concat(original);
    lemma_split_inclusive_concat(new);
    assert(original + Seq::<char>::empty() =~= original);
    assert(Seq::<char>::empty() + new =~= new);
}

/// Appends the pieces of `text` to `out`, each with `tag`.
fn push_pieces(out: &mut Vec<DiffLine>, tag: ChangeTag, text: &str)
    ensures
        diff_views(final(out)@) == diff_views(old(out)@) + tagged(tag, split_inclusive(text@)),
{
    let chars = chars_of(text);
    let mut start: usize = 0;
    let mut i: usize = 0;
    let ghost before = diff_views(out@);
    proof {
        assert(chars@.skip(0) =~= chars@);
        assert(before + tagged(tag, Seq::<Seq<char>>::empty()) =~= before);
    }
    while i < chars.len()
        invariant
            start <= i <= chars.len(),
            chars@ == text@,
            forall|j: int| start <= j < i ==> chars@[j] != '\n',
            diff_views(out@) + tagged(tag, split_inclusive(chars@.skip(start as int)))
                == before + tagged(tag, split_inclusive(text@)),
        decreases chars.len() - i,
    {
        if chars[i] == '\n' {
            let piece = subvec(&chars, start, i + 1);
            let line = DiffLine { tag, text: string_of(&piece) };
            proof {
                let rest = chars@.skip(start as int);
                lemma_newline_at_is(rest, i - start);
                assert(rest.take(i - start + 1) =~= piece@);
                assert(rest.skip(i - start + 1) =~= chars@.skip(i + 1));
                let tail = split_inclusive(chars@.skip(i + 1));
                assert(tagged(tag, seq![piece@] + tail) =~= seq![line@] + tagged(tag, tail));
                assert(diff_views(out@.push(line)) =~= diff_views(out@).push(line@));
                assert(diff_views(out@).push(line@) + tagged(tag, tail) =~= diff_views(out@) + (
                seq![line@] + tagged(tag, tail)));
            }
            out.push(line);
            start = i + 1;
        }
        i += 1;
    }
    if start < chars.len() {
        let piece = subvec(&chars, start, chars.len());
        let line = DiffLine { tag, text: string_of(&piece) };
        proof {
            let rest = chars@.skip(start as int);
            lemma_newline_at_none(rest);
            assert(piece@ =~= rest);
            assert(tagged(tag, seq![rest]) =~= seq![line@]);
            assert(diff_views(out@.push(line)) =~= diff_views(out@) + seq![line@]);
        }
        out.push(line);
    } else {
        proof {
            assert(chars@.skip(start as int).len() == 0);
            assert(diff_views(out@) + tagged(tag, Seq::<Seq<char>>::empty()) =~= diff_views(out@));
        }
    }
}

proof fn lemma_newline_at_is(s: Seq<char>, i: int)
    requires
        0 <= i < s.len(),
        s[i] == '\n',
        forall|j: int| 0 <= j < i ==> s[j] != '\n',
    ensures
        newline_at(s) == i,
    decreases i,
{
    if i > 0 {
        lemma_newline_at_is(s.skip(1), i - 1);
    }
}

proof fn lemma_newline_at_none(s: Seq<char>)
    requires
        forall|j: int| 0 <= j < s.len() ==> s[j] != '\n',
    ensures
        newline_at(s) == s.len(),
    decreases s.len(),
{
    if s.len() > 0 {
        lemma_newline_at_none(s.skip(1));
    }
}

/// The diff to show for two texts, given the changes that were computed
/// for them: `raw` itself if it reproduces both texts, else the wholesale
/// replacement. Either way the result reproduces both texts.
pub fn select_diff(raw: Vec<DiffLine>, original: &str, new: &str) -> (diff: Vec<DiffLine>)
    ensures
        diff_views(diff@) == checked_diff(diff_views(raw@), original@, new@),
        is_diff_of(diff_views(diff@), original@, new@),
{
    if check_diff(&raw, original, new) {
        raw
    } else {
        let mut diff: Vec<DiffLine> = Vec::new();
        proof {
            assert(diff_views(diff@) =~= Seq::<DiffLineView>::empty());
            lemma_replace_all_is_diff(original@, new@);
        }
        push_pieces(&mut diff, ChangeTag::Delete, original);
        push_pieces(&mut diff, ChangeTag::Insert, new);
        proof {
            assert(diff_views(diff@) =~= replace_all_diff(original@, new@));
        }
        diff
    }
}

/// The line diff between `original` and `new`. Removing the deleted lines
/// gives `new`, removing the inserted lines gives `original`, and a line is
/// unchanged only where it stands in both.
pub fn compute_diff(original: &str, new: &str) -> (diff: Vec<DiffLine>)
    ensures
        diff_views(diff@) == checked_diff(line_changes(original@, new@), original@, new@),
        old_side(diff_views(diff@)) == original@,
        new_side(diff_views(diff@)) == new@,
{
    let raw = similar_line_changes(original, new);
    select_diff(raw, original, new)
}

/// The sign that a diff shows in front of a line.
pub open spec fn sign_of(tag: ChangeTag) -> char {
    match tag {
        ChangeTag::Delete => '-',
        ChangeTag::Insert => '+',
        ChangeTag::Equal => ' ',
    }
}

impl DiffLine {
    /// The line as a diff shows it: its sign, a space, and its text.
    pub fn display(&self) -> (s: String)
        ensures
            s@ == seq![sign_of(self.tag), ' '] + self.text@,
    {
        let sign = match self.tag {
            ChangeTag::Delete => '-',
            ChangeTag::Insert => '+',
            ChangeTag::Equal => ' ',
        };
        let mut out: Vec<char> = Vec::new();
        out.push(sign);
        out.push(' ');
        let text = chars_of(self.text.as_str());
        push_all(&mut out, &text);
        string_of(&out)
    }
}

/// Diff correctness, line by line. In a diff of two texts every line stands
/// where the diff says: a line that is deleted or unchanged stands in the
/// old text, right after the deleted and unchanged lines before it; a line
/// that is inserted or unchanged stands in the new text, right after the
/// inserted and unchanged lines before it. So an unchanged line stands in
/// both texts, letter for letter.
pub proof fn lemma_diff_lines_in_place(
    diff: Seq<DiffLineView>,
    original: Seq<char>,
    new: Seq<char>,
    i: int,
)
    requires
        is_diff_of(diff, original, new),
        0 <= i < diff.len(),
    ensures
        diff[i].tag != ChangeTag::Insert ==> occurs_at(
            original,
            diff[i].text,
            old_side(diff.take(i)).len() as int,
        ),
        diff[i].tag != ChangeTag::Delete ==> occurs_at(
            new,
            diff[i].text,
            new_side(diff.take(i)).len() as int,
        ),
{
    let before = diff.take(i);
    let after = diff.skip(i + 1);
    let line = diff[i];
    assert(diff =~= before.push(line) + after);
    lemma_sides_add(before.push(line), after);
    lemma_side_push(before, line);
    if line.tag != ChangeTag::Insert {
        let at = old_side(before).len() as int;
        assert(original.subrange(at, at + line.text.len()) =~= line.text);
    }
    if line.tag != ChangeTag::Delete {
        let at = new_side(before).len() as int;
        assert(new.subrange(at, at + line.text.len()) =~= line.text);
    }
}

} // verus!
