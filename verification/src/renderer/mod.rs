//! Incremental rendering of a streamed answer.
//!
//! An answer arrives as fragments whose boundaries mean nothing. The renderer
//! cuts the text into lines, recognises fenced code blocks and hands out
//! segments of prose and of code as soon as they are complete. What is printed
//! for a segment is the caller's business.

use vstd::prelude::*;
use crate::renderer::laws::lemma_stream_is_line_rendering;
use crate::renderer::progress::progress_line;
use crate::renderer::table::{table_text, with_heading};
use crate::text::{
    chars_of, lines_of, matches_at, no_newline, push_all, starts_with, string_of, strip_cr, subvec,
    trim, trim_bounds,
};

pub mod highlight;
pub mod laws;
pub mod progress;
pub mod table;

verus! {

/// A piece of an answer that is rendered in one go.
#[derive(Debug, Clone, PartialEq, Eq)]
pub enum Segment {
    /// Markdown prose: complete lines, each followed by a line feed.
    Prose(String),
    /// The body of a fenced code block with the language its fence declared.
    Code { language: String, code: String },
}

/// A segment as plain text.
pub enum SegmentView {
    Prose(Seq<char>),
    Code { language: Seq<char>, code: Seq<char> },
}

impl View for Segment {
    type V = SegmentView;

    open spec fn view(&self) -> SegmentView {
        match self {
            Segment::Prose(text) => SegmentView::Prose(text@),
            Segment::Code { language, code } => SegmentView::Code {
                language: language@,
                code: code@,
            },
        }
    }
}

/// The segments of `s` as plain text.
pub open spec fn segment_views(s: Seq<Segment>) -> Seq<SegmentView> {
    s.map_values(|x: Segment| x@)
}

/// The marker that opens and closes a code block.
pub open spec fn fence_marker() -> Seq<char> {
    seq!['`', '`', '`']
}

/// A line is a fence when, leading whitespace aside, it begins with the marker.
pub open spec fn is_fence(line: Seq<char>) -> bool {
    starts_with(trim(line), fence_marker())
}

/// The language that a fence line declares; it may be empty.
pub open spec fn fence_tag(line: Seq<char>) -> Seq<char> {
    trim(trim(line).skip(3))
}

/// What the renderer remembers between fragments.
pub struct RenderState {
    /// Prose lines not yet handed out.
    pub text_buffer: Seq<char>,
    /// Code lines not yet handed out.
    pub code_buffer: Seq<char>,
    /// Whether a fence is open.
    pub in_code_block: bool,
    /// The language of the open fence.
    pub language: Seq<char>,
    /// The beginning of a line whose end has not arrived yet.
    pub pending: Seq<char>,
}

impl RenderState {
    /// The state at the start of an answer.
    pub open spec fn initial() -> RenderState {
        RenderState {
            text_buffer: Seq::empty(),
            code_buffer: Seq::empty(),
            in_code_block: false,
            language: Seq::empty(),
            pending: Seq::empty(),
        }
    }

    /// Only the buffer that `in_code_block` selects is in use, and the
    /// unfinished line holds no line feed.
    pub open spec fn wf(self) -> bool {
        &&& no_newline(self.pending)
        &&& self.in_code_block ==> self.text_buffer.len() == 0
        &&& !self.in_code_block ==> self.code_buffer.len() == 0 && self.language.len() == 0
    }

    /// The segments that the buffers hold: prose if there is any, code if
    /// there is any.
    pub open spec fn flush(self) -> Seq<SegmentView> {
        let prose = if self.text_buffer.len() > 0 {
            seq![SegmentView::Prose(self.text_buffer)]
        } else {
            Seq::empty()
        };
        let code = if self.code_buffer.len() > 0 {
            seq![SegmentView::Code { language: self.language, code: self.code_buffer }]
        } else {
            Seq::empty()
        };
        prose + code
    }

    /// The effect of one complete line: the next state and what is handed out.
    ///
    /// A fence outside a block hands out the prose gathered so far and opens a
    /// block; a fence inside a block hands out the block and closes it; any
    /// other line joins the buffer in use.
    pub open spec fn step_line(self, line: Seq<char>) -> (RenderState, Seq<SegmentView>) {
        if is_fence(line) {
            if self.in_code_block {
                (
                    RenderState {
                        code_buffer: Seq::empty(),
                        in_code_block: false,
                        language: Seq::empty(),
                        ..self
                    },
                    seq![SegmentView::Code { language: self.language, code: self.code_buffer }],
                )
            } else {
                (
                    RenderState {
                        text_buffer: Seq::empty(),
                        in_code_block: true,
                        language: fence_tag(line),
                        ..self
                    },
                    if self.text_buffer.len() > 0 {
                        seq![SegmentView::Prose(self.text_buffer)]
                    } else {
                        Seq::empty()
                    },
                )
            }
        } else if self.in_code_block {
            (
                RenderState { code_buffer: self.code_buffer + line + seq!['\n'], ..self },
                Seq::empty(),
            )
        } else {
            (
                RenderState { text_buffer: self.text_buffer + line + seq!['\n'], ..self },
                Seq::empty(),
            )
        }
    }

    /// The effect of one more character.
    pub open spec fn step_char(self, c: char) -> (RenderState, Seq<SegmentView>) {
        if c == '\n' {
            RenderState { pending: Seq::empty(), ..self }.step_line(strip_cr(self.pending))
        } else {
            (RenderState { pending: self.pending.push(c), ..self }, Seq::empty())
        }
    }

    /// The effect of a fragment: its characters are taken one by one.
    pub open spec fn feed(self, text: Seq<char>) -> (RenderState, Seq<SegmentView>)
        decreases text.len(),
    {
        if text.len() == 0 {
            (self, Seq::empty())
        } else {
            let (next, first) = self.step_char(text[0]);
            let (last, rest) = next.feed(text.skip(1));
            (last, first + rest)
        }
    }

    /// What is handed out at the end of the answer: an unfinished line counts
    /// as a line, then the buffers are emptied.
    pub open spec fn finish(self) -> Seq<SegmentView> {
        if self.pending.len() > 0 {
            let (next, out) = RenderState { pending: Seq::empty(), ..self }.step_line(self.pending);
            out + next.flush()
        } else {
            self.flush()
        }
    }
}

/// The segments of a list of complete lines, taken from state `st`.
pub open spec fn render_lines(st: RenderState, lines: Seq<Seq<char>>) -> Seq<SegmentView>
    decreases lines.len(),
{
    if lines.len() == 0 {
        st.flush()
    } else {
        let (next, out) = st.step_line(lines[0]);
        out + render_lines(next, lines.skip(1))
    }
}

/// The segments of a whole answer.
pub open spec fn classify(text: Seq<char>) -> Seq<SegmentView> {
    render_lines(RenderState::initial(), lines_of(text))
}

/// A renderer for one answer at a time.
pub struct MarkdownRenderer {
    text_buffer: Vec<char>,
    code_buffer: Vec<char>,
    in_code_block: bool,
    language: Vec<char>,
    pending: Vec<char>,
}

impl View for MarkdownRenderer {
    type V = RenderState;

    closed spec fn view(&self) -> RenderState {
        RenderState {
            text_buffer: self.text_buffer@,
            code_buffer: self.code_buffer@,
            in_code_block: self.in_code_block,
            language: self.language@,
            pending: self.pending@,
        }
    }
}

impl MarkdownRenderer {
    /// A renderer at the start of an answer.
    pub fn new() -> (r: Self)
        ensures
            r@ == RenderState::initial(),
    {
        MarkdownRenderer {
            text_buffer: Vec::new(),
            code_buffer: Vec::new(),
            in_code_block: false,
            language: Vec::new(),
            pending: Vec::new(),
        }
    }

    /// Takes one complete line.
    fn take_line(&mut self, line: &Vec<char>, out: &mut Vec<Segment>)
        ensures
            final(self)@ == old(self)@.step_line(line@).0,
            segment_views(final(out)@) == segment_views(old(out)@) + old(self)@.step_line(line@).1,
    {
        let ghost before = segment_views(out@);
        let (a, b) = trim_bounds(line, 0, line.len());
        let marker: Vec<char> = vec!['`', '`', '`'];
        let fence = b - a >= 3 && matches_at(line, &marker, a);
        proof {
            assert(line@.subrange(0, line@.len() as int) =~= line@);
            assert(marker@ =~= fence_marker());
            let t = trim(line@);
            if b - a >= 3 {
                assert(t.subrange(0, 3) =~= line@.subrange(a as int, a + 3));
            }
            assert(fence == is_fence(line@));
        }
        if fence {
            if self.in_code_block {
                let segment = Segment::Code {
                    language: string_of(&self.language),
                    code: string_of(&self.code_buffer),
                };
                out.push(segment);
                self.code_buffer = Vec::new();
                self.language = Vec::new();
                self.in_code_block = false;
                proof {
                    assert(segment_views(out@) =~= before + seq![segment@]);
                }
            } else {
                if self.text_buffer.len() > 0 {
                    let segment = Segment::Prose(string_of(&self.text_buffer));
                    out.push(segment);
                    proof {
                        assert(segment_views(out@) =~= before + seq![segment@]);
                    }
                } else {
                    proof {
                        assert(segment_views(out@) =~= before + Seq::<SegmentView>::empty());
                    }
                }
                let (c, d) = trim_bounds(line, a + 3, b);
                proof {
                    assert(trim(line@).skip(3) =~= line@.subrange(a + 3, b as int));
                }
                self.language = subvec(line, c, d);
                self.text_buffer = Vec::new();
                self.in_code_block = true;
            }
        } else {
            if self.in_code_block {
                push_all(&mut self.code_buffer, line);
                self.code_buffer.push('\n');
            } else {
                push_all(&mut self.text_buffer, line);
                self.text_buffer.push('\n');
            }
            proof {
                assert(segment_views(out@) =~= before + Seq::<SegmentView>::empty());
            }
        }
        proof {
            let expected = old(self)@.step_line(line@).0;
            assert(self.text_buffer@ =~= expected.text_buffer);
            assert(self.code_buffer@ =~= expected.code_buffer);
            assert(self.language@ =~= expected.language);
            assert(self.pending@ =~= expected.pending);
            assert(self@ =~= expected);
        }
    }

    /// Takes one character.
    fn take_char(&mut self, c: char, out: &mut Vec<Segment>)
        ensures
            final(self)@ == old(self)@.step_char(c).0,
            segment_views(final(out)@) == segment_views(old(out)@) + old(self)@.step_char(c).1,
    {
        if c == '\n' {
            let mut line: Vec<char> = Vec::new();
            core::mem::swap(&mut self.pending, &mut line);
            if line.len() > 0 && line[line.len() - 1] == '\r' {
                line.pop();
            }
            self.take_line(&line, out);
        } else {
            self.pending.push(c);
            proof {
                assert(segment_views(out@) =~= segment_views(old(out)@)
                    + Seq::<SegmentView>::empty());
            }
        }
    }

    /// Feeds one fragment of the answer and returns the segments that it
    /// completes. Text after the last line feed waits for the next fragment.
    pub fn render_chunk(&mut self, text: &str) -> (out: Vec<Segment>)
        ensures
            final(self)@ == old(self)@.feed(text@).0,
            segment_views(out@) == old(self)@.feed(text@).1,
    {
        let chars = chars_of(text);
        let mut out: Vec<Segment> = Vec::new();
        let mut i: usize = 0;
        proof {
            assert(chars@.skip(0) =~= chars@);
            assert(segment_views(out@) =~= Seq::<SegmentView>::empty());
        }
        while i < chars.len()
            invariant
                i <= chars.len(),
                chars@ == text@,
                old(self)@.feed(text@).0 == self@.feed(chars@.skip(i as int)).0,
                old(self)@.feed(text@).1 == segment_views(out@) + self@.feed(
                    chars@.skip(i as int),
                ).1,
            decreases chars.len() - i,
        {
            proof {
                assert(chars@.skip(i as int).skip(1) =~= chars@.skip(i + 1));
            }
            self.take_char(chars[i], &mut out);
            i += 1;
        }
        out
    }

    /// The segments of a whole text: what feeding it and finishing hands out.
    pub fn render_with_code_blocks(text: &str) -> (out: Vec<Segment>)
        ensures
            segment_views(out@) == classify(text@),
    {
        let mut renderer = MarkdownRenderer::new();
        let mut out = renderer.render_chunk(text);
        let mut tail = renderer.finish();
        let ghost head = segment_views(out@);
        let ghost last = segment_views(tail@);
        proof {
            lemma_stream_is_line_rendering(RenderState::initial(), text@);
            assert(RenderState::initial().pending + text@ =~= text@);
        }
        out.append(&mut tail);
        proof {
            assert(segment_views(out@) =~= head + last);
        }
        out
    }

    /// A table with a row of headers above the rows, as text.
    pub fn render_table(&self, headers: &Vec<String>, rows: &Vec<Vec<String>>) -> (text: String)
        ensures
            text@ == table_text(with_heading(headers@, rows@)),
    {
        table::render_table(headers, rows)
    }

    /// The progress bar for work that is done to `percentage` percent.
    pub fn render_progress(&self, message: &str, percentage: u32, finished: bool) -> (line: String)
        requires
            percentage <= 100,
        ensures
            line@ == progress_line(message@, percentage as nat, finished),
    {
        progress::render_progress(message, percentage, finished)
    }

    /// Ends the answer: hands out what is still buffered and returns to the
    /// initial state. An unfinished last line counts as a line, and the body
    /// of a fence that was never closed is handed out as code.
    pub fn finish(&mut self) -> (out: Vec<Segment>)
        ensures
            segment_views(out@) == old(self)@.finish(),
            final(self)@ == RenderState::initial(),
    {
        let mut out: Vec<Segment> = Vec::new();
        proof {
            assert(segment_views(out@) =~= Seq::<SegmentView>::empty());
        }
        if self.pending.len() > 0 {
            let mut line: Vec<char> = Vec::new();
            core::mem::swap(&mut self.pending, &mut line);
            self.take_line(&line, &mut out);
        }
        let ghost mid = segment_views(out@);
        if self.text_buffer.len() > 0 {
            let segment = Segment::Prose(string_of(&self.text_buffer));
            out.push(segment);
            proof {
                assert(segment_views(out@) =~= mid + seq![segment@]);
            }
        }
        let ghost mid2 = segment_views(out@);
        if self.code_buffer.len() > 0 {
            let segment = Segment::Code {
                language: string_of(&self.language),
                code: string_of(&self.code_buffer),
            };
            out.push(segment);
            proof {
                assert(segment_views(out@) =~= mid2 + seq![segment@]);
            }
        }
        self.text_buffer = Vec::new();
        self.code_buffer = Vec::new();
        self.language = Vec::new();
        self.in_code_block = false;
        proof {
            assert(self.pending@ =~= Seq::<char>::empty());
            assert(self.text_buffer@ =~= Seq::<char>::empty());
            assert(self.code_buffer@ =~= Seq::<char>::empty());
            assert(self.language@ =~= Seq::<char>::empty());
            assert(self@.pending =~= Seq::<char>::empty());
            assert(self@ =~= RenderState::initial());
        }
        out
    }
}

} // verus!
