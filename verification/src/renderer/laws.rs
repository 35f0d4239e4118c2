//! What holds of every answer: the segments do not depend on how the answer
//! was cut into fragments, and the code segments are the fenced blocks of the
//! text.

use vstd::prelude::*;
use crate::renderer::{
    classify, fence_tag, is_fence, render_lines, RenderState, SegmentView,
};
use crate::text::{concat_all, join_lines, lemma_lines_of_single, lemma_lines_of_split, lines_of};

verus! {

/// The effect of a list of fragments fed one after the other.
pub open spec fn feed_all(st: RenderState, fragments: Seq<Seq<char>>) -> (
    RenderState,
    Seq<SegmentView>,
)
    decreases fragments.len(),
{
    if fragments.len() == 0 {
        (st, Seq::empty())
    } else {
        let (next, first) = st.feed(fragments[0]);
        let (last, rest) = feed_all(next, fragments.skip(1));
        (last, first + rest)
    }
}

/// The code segments among `segs`, in order.
pub open spec fn code_segments(segs: Seq<SegmentView>) -> Seq<SegmentView>
    decreases segs.len(),
{
    if segs.len() == 0 {
        Seq::empty()
    } else if segs[0] is Code {
        seq![segs[0]] + code_segments(segs.skip(1))
    } else {
        code_segments(segs.skip(1))
    }
}

/// The fence lines among `lines`, in order.
pub open spec fn fence_lines(lines: Seq<Seq<char>>) -> Seq<Seq<char>>
    decreases lines.len(),
{
    if lines.len() == 0 {
        Seq::empty()
    } else if is_fence(lines[0]) {
        seq![lines[0]] + fence_lines(lines.skip(1))
    } else {
        fence_lines(lines.skip(1))
    }
}

/// The position of the first fence line, or `lines.len()` when there is none.
pub open spec fn first_fence(lines: Seq<Seq<char>>) -> int
    decreases lines.len(),
{
    if lines.len() == 0 {
        0
    } else if is_fence(lines[0]) {
        0
    } else {
        1 + first_fence(lines.skip(1))
    }
}

/// The fenced blocks of `lines`, read off the text: from each opening fence
/// to the next fence, with the language of the opening fence. A block whose
/// closing fence is missing runs to the end and counts if it has a body.
pub open spec fn code_blocks(lines: Seq<Seq<char>>) -> Seq<SegmentView>
    decreases lines.len(),
{
    let open = first_fence(lines);
    if open < 0 || open >= lines.len() {
        Seq::empty()
    } else {
        let body = lines.skip(open + 1);
        let close = first_fence(body);
        if close < 0 || close >= body.len() {
            if body.len() > 0 {
                seq![
                    SegmentView::Code { language: fence_tag(lines[open]), code: join_lines(body) },
                ]
            } else {
                Seq::empty()
            }
        } else {
            seq![
                SegmentView::Code {
                    language: fence_tag(lines[open]),
                    code: join_lines(body.take(close)),
                },
            ] + code_blocks(body.skip(close + 1))
        }
    }
}

proof fn lemma_step_line_wf(st: RenderState, line: Seq<char>)
    requires
        st.wf(),
    ensures
        st.step_line(line).0.wf(),
        st.step_line(line).0.pending == st.pending,
{
}

proof fn lemma_step_char_wf(st: RenderState, c: char)
    requires
        st.wf(),
    ensures
        st.step_char(c).0.wf(),
{
    if c == '\n' {
        lemma_step_line_wf(RenderState { pending: Seq::empty(), ..st }, strip_cr_of(st));
    }
}

spec fn strip_cr_of(st: RenderState) -> Seq<char> {
    crate::text::strip_cr(st.pending)
}

/// Feeding keeps the state well formed.
pub proof fn lemma_feed_wf(st: RenderState, text: Seq<char>)
    requires
        st.wf(),
    ensures
        st.feed(text).0.wf(),
    decreases text.len(),
{
    if text.len() > 0 {
        lemma_step_char_wf(st, text[0]);
        lemma_feed_wf(st.step_char(text[0]).0, text.skip(1));
    }
}

/// Feeding a text in two parts is feeding it whole.
pub proof fn lemma_feed_append(st: RenderState, a: Seq<char>, b: Seq<char>)
    ensures
        st.feed(a + b).0 == st.feed(a).0.feed(b).0,
        st.feed(a + b).1 == st.feed(a).1 + st.feed(a).0.feed(b).1,
    decreases a.len(),
{
    if a.len() == 0 {
        assert(a + b =~= b);
        assert(st.feed(a).1 + st.feed(b).1 =~= st.feed(b).1);
    } else {
        assert((a + b)[0] == a[0]);
        assert((a + b).skip(1) =~= a.skip(1) + b);
        let next = st.step_char(a[0]).0;
        lemma_feed_append(next, a.skip(1), b);
        assert(st.feed(a + b).1 =~= st.feed(a).1 + st.feed(a).0.feed(b).1);
    }
}

/// Feeding fragments one by one is feeding their concatenation.
pub proof fn lemma_feed_all(st: RenderState, fragments: Seq<Seq<char>>)
    ensures
        feed_all(st, fragments) == st.feed(concat_all(fragments)),
    decreases fragments.len(),
{
    if fragments.len() == 0 {
    } else {
        let next = st.feed(fragments[0]).0;
        lemma_feed_all(next, fragments.skip(1));
        lemma_feed_append(st, fragments[0], concat_all(fragments.skip(1)));
    }
}

/// Feeding a text and finishing hands out the segments of the lines of what
/// was pending followed by that text.
pub proof fn lemma_stream_is_line_rendering(st: RenderState, text: Seq<char>)
    requires
        st.wf(),
    ensures
        st.feed(text).1 + st.feed(text).0.finish() == render_lines(
            RenderState { pending: Seq::empty(), ..st },
            lines_of(st.pending + text),
        ),
    decreases text.len(),
{
    let base = RenderState { pending: Seq::empty(), ..st };
    if text.len() == 0 {
        assert(st.pending + text =~= st.pending);
        lemma_lines_of_single(st.pending);
        assert(st.feed(text).1 + st.finish() =~= st.finish());
        if st.pending.len() > 0 {
            let lines = seq![st.pending];
            let (next, out) = base.step_line(st.pending);
            assert(lines.skip(1) =~= Seq::<Seq<char>>::empty());
            assert(render_lines(next, lines.skip(1)) == next.flush());
        } else {
            assert(st.pending =~= Seq::<char>::empty());
            assert(base =~= st);
        }
    } else {
        let c = text[0];
        let rest = text.skip(1);
        let (next, first) = st.step_char(c);
        lemma_step_char_wf(st, c);
        lemma_stream_is_line_rendering(next, rest);
        assert(st.feed(text).1 + st.feed(text).0.finish() =~= first + (next.feed(rest).1
            + next.feed(rest).0.finish()));
        if c == '\n' {
            assert(text =~= seq!['\n'] + rest);
            assert(st.pending + text =~= st.pending + seq!['\n'] + rest);
            lemma_lines_of_split(st.pending, rest);
            let lines = lines_of(st.pending + text);
            assert(lines.skip(1) =~= lines_of(rest));
            assert(next.pending + rest =~= rest);
            assert(RenderState { pending: Seq::empty(), ..next } =~= next);
        } else {
            assert(next.pending + rest =~= st.pending + text);
            assert(RenderState { pending: Seq::empty(), ..next } =~= base);
            assert(first + render_lines(base, lines_of(st.pending + text)) =~= render_lines(
                base,
                lines_of(st.pending + text),
            ));
        }
    }
}

/// The segments of an answer do not depend on how it was cut into fragments:
/// feeding the fragments one by one and finishing hands out, in the same
/// order, the segments of the concatenated text, which are also those of
/// feeding that text as a single fragment.
pub proof fn lemma_fragment_independence(fragments: Seq<Seq<char>>)
    ensures
        ({
            let (st, out) = feed_all(RenderState::initial(), fragments);
            let whole = concat_all(fragments);
            let (st1, out1) = RenderState::initial().feed(whole);
            &&& out + st.finish() == classify(whole)
            &&& out1 + st1.finish() == classify(whole)
        }),
{
    let init = RenderState::initial();
    let whole = concat_all(fragments);
    lemma_feed_all(init, fragments);
    lemma_stream_is_line_rendering(init, whole);
    assert(init.pending + whole =~= whole);
    assert(RenderState { pending: Seq::empty(), ..init } =~= init);
}

/// The first fence lies within the lines, no line before it is a fence, and
/// a position inside the lines holds one.
pub proof fn lemma_first_fence(lines: Seq<Seq<char>>)
    ensures
        0 <= first_fence(lines) <= lines.len(),
        first_fence(lines) < lines.len() ==> is_fence(lines[first_fence(lines)]),
        forall|i: int| 0 <= i < first_fence(lines) ==> !is_fence(#[trigger] lines[i]),
    decreases lines.len(),
{
    if lines.len() == 0 {
    } else if is_fence(lines[0]) {
    } else {
        let rest = lines.skip(1);
        lemma_first_fence(rest);
        assert forall|i: int| 0 <= i < first_fence(lines) implies !is_fence(
            #[trigger] lines[i],
        ) by {
            if i > 0 {
                assert(lines[i] == rest[i - 1]);
            }
        }
    }
}

/// The fence lines are the first fence followed by the fence lines after it.
proof fn lemma_fence_lines_unfold(lines: Seq<Seq<char>>)
    ensures
        fence_lines(lines) == if first_fence(lines) < lines.len() {
            seq![lines[first_fence(lines)]] + fence_lines(lines.skip(first_fence(lines) + 1))
        } else {
            Seq::<Seq<char>>::empty()
        },
    decreases lines.len(),
{
    lemma_first_fence(lines);
    if lines.len() == 0 {
    } else if is_fence(lines[0]) {
    } else {
        let rest = lines.skip(1);
        lemma_fence_lines_unfold(rest);
        lemma_first_fence(rest);
        let f = first_fence(rest);
        if f < rest.len() {
            assert(rest[f] == lines[f + 1]);
            assert(rest.skip(f + 1) =~= lines.skip(f + 2));
        }
    }
}

/// Before the first fence, the blocks are those of the lines that follow.
proof fn lemma_code_blocks_skip_prose(lines: Seq<Seq<char>>)
    requires
        lines.len() > 0,
        !is_fence(lines[0]),
    ensures
        code_blocks(lines) == code_blocks(lines.skip(1)),
{
    let rest = lines.skip(1);
    lemma_first_fence(rest);
    let f = first_fence(rest);
    if f < rest.len() {
        assert(rest[f] == lines[f + 1]);
        assert(rest.skip(f + 1) =~= lines.skip(f + 2));
    }
}

proof fn lemma_code_segments_add(a: Seq<SegmentView>, b: Seq<SegmentView>)
    ensures
        code_segments(a + b) == code_segments(a) + code_segments(b),
    decreases a.len(),
{
    if a.len() == 0 {
        assert(a + b =~= b);
    } else {
        assert((a + b)[0] == a[0]);
        assert((a + b).skip(1) =~= a.skip(1) + b);
        lemma_code_segments_add(a.skip(1), b);
    }
}

proof fn lemma_code_segments_small(a: Seq<SegmentView>)
    requires
        a.len() <= 1,
    ensures
        code_segments(a) == if a.len() == 1 && a[0] is Code {
            a
        } else {
            Seq::<SegmentView>::empty()
        },
{
    if a.len() == 1 {
        assert(a.skip(1).len() == 0);
        assert(code_segments(a.skip(1)) == Seq::<SegmentView>::empty());
        assert(seq![a[0]] + Seq::<SegmentView>::empty() =~= a);
    }
}

proof fn lemma_join_lines_len(lines: Seq<Seq<char>>)
    ensures
        join_lines(lines).len() >= lines.len(),
    decreases lines.len(),
{
    if lines.len() > 0 {
        lemma_join_lines_len(lines.skip(1));
    }
}

/// What an open block with language and body so far hands out over the lines
/// that follow, and the blocks after it.
spec fn open_block_then(language: Seq<char>, code: Seq<char>, lines: Seq<Seq<char>>) -> Seq<
    SegmentView,
> {
    let close = first_fence(lines);
    if close < 0 || close >= lines.len() {
        if (code + join_lines(lines)).len() > 0 {
            seq![SegmentView::Code { language, code: code + join_lines(lines) }]
        } else {
            Seq::empty()
        }
    } else {
        seq![SegmentView::Code { language, code: code + join_lines(lines.take(close)) }]
            + code_blocks(lines.skip(close + 1))
    }
}

proof fn lemma_code_blocks_open(lines: Seq<Seq<char>>)
    requires
        lines.len() > 0,
        is_fence(lines[0]),
    ensures
        code_blocks(lines) == open_block_then(fence_tag(lines[0]), Seq::empty(), lines.skip(1)),
{
    let body = lines.skip(1);
    let close = first_fence(body);
    lemma_first_fence(body);
    lemma_join_lines_len(body);
    assert(Seq::<char>::empty() + join_lines(body) =~= join_lines(body));
    if close < body.len() {
        assert(Seq::<char>::empty() + join_lines(body.take(close)) =~= join_lines(
            body.take(close),
        ));
    }
}

/// The code segments that line rendering hands out are the fenced blocks.
proof fn lemma_code_of_render(st: RenderState, lines: Seq<Seq<char>>)
    requires
        st.wf(),
    ensures
        code_segments(render_lines(st, lines)) == if st.in_code_block {
            open_block_then(st.language, st.code_buffer, lines)
        } else {
            code_blocks(lines)
        },
    decreases lines.len(),
{
    if lines.len() == 0 {
        let prose = if st.text_buffer.len() > 0 {
            seq![SegmentView::Prose(st.text_buffer)]
        } else {
            Seq::empty()
        };
        let code = if st.code_buffer.len() > 0 {
            seq![SegmentView::Code { language: st.language, code: st.code_buffer }]
        } else {
            Seq::empty()
        };
        lemma_code_segments_add(prose, code);
        lemma_code_segments_small(prose);
        lemma_code_segments_small(code);
        assert(st.code_buffer + join_lines(lines) =~= st.code_buffer);
        assert(code_segments(prose) + code_segments(code) =~= code_segments(code));
    } else {
        let line = lines[0];
        let rest = lines.skip(1);
        let (next, out) = st.step_line(line);
        lemma_code_of_render(next, rest);
        lemma_code_segments_add(out, render_lines(next, rest));
        lemma_code_segments_small(out);
        lemma_first_fence(rest);
        if is_fence(line) {
            if st.in_code_block {
                assert(lines.take(0) =~= Seq::<Seq<char>>::empty());
                assert(st.code_buffer + join_lines(lines.take(0)) =~= st.code_buffer);
            } else {
                lemma_code_blocks_open(lines);
                assert(next.code_buffer =~= Seq::<char>::empty());
                assert(code_segments(out) + code_segments(render_lines(next, rest))
                    =~= code_segments(render_lines(next, rest)));
            }
        } else {
            assert(code_segments(out) + code_segments(render_lines(next, rest)) =~= code_segments(
                render_lines(next, rest),
            ));
            if st.in_code_block {
                let close = first_fence(rest);
                assert(join_lines(lines) == line + seq!['\n'] + join_lines(rest));
                assert(st.code_buffer + join_lines(lines) =~= next.code_buffer + join_lines(rest));
                if close < rest.len() {
                    let head = lines.take(close + 1);
                    assert(head[0] == line);
                    assert(head.skip(1) =~= rest.take(close));
                    assert(join_lines(head) == line + seq!['\n'] + join_lines(rest.take(close)));
                    assert(st.code_buffer + join_lines(head) =~= next.code_buffer + join_lines(
                        rest.take(close),
                    ));
                    assert(lines.skip(close + 2) =~= rest.skip(close + 1));
                }
            } else {
                lemma_code_blocks_skip_prose(lines);
            }
        }
    }
}

/// The fenced blocks are as many as the complete fences, plus one when a
/// last fence was left open and has a body; each has the language of the
/// fence that opens it.
proof fn lemma_code_blocks_count(lines: Seq<Seq<char>>)
    ensures
        ({
            let fences = fence_lines(lines);
            let blocks = code_blocks(lines);
            let complete = fences.len() / 2;
            &&& complete <= blocks.len() <= complete + 1
            &&& blocks.len() == complete + 1 <==> (fences.len() % 2 == 1 && lines.len() > 0
                && !is_fence(lines.last()))
            &&& forall|j: int|
                0 <= j < blocks.len() ==> (#[trigger] blocks[j] matches SegmentView::Code {
                    language,
                    ..
                } && 2 * j < fences.len() && language == fence_tag(fences[2 * j]))
        }),
    decreases lines.len(),
{
    let fences = fence_lines(lines);
    let blocks = code_blocks(lines);
    let open = first_fence(lines);
    lemma_first_fence(lines);
    lemma_fence_lines_unfold(lines);
    if open < lines.len() {
        let body = lines.skip(open + 1);
        let close = first_fence(body);
        lemma_first_fence(body);
        lemma_fence_lines_unfold(body);
        if close < body.len() {
            let rest = body.skip(close + 1);
            lemma_code_blocks_count(rest);
            let inner = fence_lines(rest);
            let later = code_blocks(rest);
            assert(fences =~= seq![lines[open], body[close]] + inner);
            assert(fences.len() == inner.len() + 2);
            assert(blocks.len() == later.len() + 1);
            if rest.len() > 0 {
                assert(rest.last() == lines.last());
            }
            assert forall|j: int| 0 <= j < blocks.len() implies (
            #[trigger] blocks[j] matches SegmentView::Code { language, .. } && 2 * j
                < fences.len() && language == fence_tag(fences[2 * j])) by {
                if j > 0 {
                    assert(blocks[j] == later[j - 1]);
                    assert(fences[2 * j] == inner[2 * (j - 1)]);
                }
            }
        } else {
            assert(fences =~= seq![lines[open]]);
            if body.len() > 0 {
                assert(body.last() == lines.last());
                assert(!is_fence(body[body.len() - 1]));
            } else {
                assert(lines.last() == lines[open]);
            }
        }
    }
}

/// Fence balance. The code segments of an answer are its fenced blocks, in
/// order: one for each complete (opened and closed) fence, tagged with the
/// language that its opening fence declares, and one more, last, when the
/// answer ends inside a fence that has a body.
pub proof fn lemma_fence_balance(text: Seq<char>)
    ensures
        ({
            let lines = lines_of(text);
            let fences = fence_lines(lines);
            let code = code_segments(classify(text));
            let complete = fences.len() / 2;
            &&& code == code_blocks(lines)
            &&& complete <= code.len() <= complete + 1
            &&& code.len() == complete + 1 <==> (fences.len() % 2 == 1 && lines.len() > 0
                && !is_fence(lines.last()))
            &&& forall|j: int|
                0 <= j < code.len() ==> (#[trigger] code[j] matches SegmentView::Code {
                    language,
                    ..
                } && 2 * j < fences.len() && language == fence_tag(fences[2 * j]))
        }),
{
    let lines = lines_of(text);
    lemma_code_of_render(RenderState::initial(), lines);
    lemma_code_blocks_count(lines);
}

} // verus!
