//! A rough measure of how branchy source code is.

use vstd::prelude::*;
use crate::analyzer::structure::{is_source_file, source_extension};
use crate::analyzer::types::{
    complexity_views, scanned_views, ComplexityInfo, ComplexityInfoView, ScannedFile,
    ScannedFileView,
};
use crate::text::{
    chars_of, concat_all, count_in, count_matches, decimal, decimal_of, lemma_concat_all_step,
    lines_of, matches_at, push_all, push_str, split_lines, starts_with, string_of, subvec, trim,
    trim_bounds, vec_views,
};

verus! {

/// Above this complexity a file counts as complex.
pub const COMPLEXITY_THRESHOLD: u32 = 10;

/// Above this number of lines a file counts as complex.
pub const LARGE_FILE_LINES: usize = 500;

/// What a line adds to the complexity: nothing if, trimmed, it begins a
/// comment with `//` or `#`; else the number of its `if `, `for `, `while `
/// and `match ` and of its `&&` and `||`.
pub open spec fn line_complexity(line: Seq<char>) -> nat {
    let t = trim(line);
    if starts_with(t, "//"@) || starts_with(t, "#"@) {
        0
    } else {
        count_matches(t, "if "@) + count_matches(t, "for "@) + count_matches(t, "while "@)
            + count_matches(t, "match "@) + count_matches(t, "&&"@) + count_matches(t, "||"@)
    }
}

/// What the first `n` lines add to the complexity.
pub open spec fn lines_complexity(lines: Seq<Seq<char>>, n: int) -> nat
    decreases n,
{
    if n <= 0 {
        0
    } else {
        lines_complexity(lines, n - 1) + line_complexity(lines[n - 1])
    }
}

/// The complexity of a text: one, and what each of its lines adds.
pub open spec fn complexity_of(content: Seq<char>) -> nat {
    1 + lines_complexity(lines_of(content), lines_of(content).len() as int)
}

/// The number `n`, or the greatest `u32` where `n` is beyond it.
pub open spec fn capped(n: int) -> u32 {
    if 0 <= n <= u32::MAX {
        n as u32
    } else {
        u32::MAX
    }
}

fn add_capped(total: u32, n: usize) -> (sum: u32)
    ensures
        sum == capped(total + n),
{
    if n > (u32::MAX - total) as usize {
        u32::MAX
    } else {
        total + n as u32
    }
}

fn count_word(line: &Vec<char>, word: &str) -> (n: usize)
    requires
        word@.len() > 0,
    ensures
        n == count_matches(line@, word@),
{
    let w = chars_of(word);
    count_in(line, &w)
}

fn complexity_of_line(line: &Vec<char>, total: u32) -> (sum: u32)
    ensures
        sum == capped(total + line_complexity(line@)),
{
    let (a, b) = trim_bounds(line, 0, line.len());
    let t = subvec(line, a, b);
    proof {
        assert(line@.subrange(0, line@.len() as int) =~= line@);
        reveal_strlit("//");
        reveal_strlit("#");
        reveal_strlit("if ");
        reveal_strlit("for ");
        reveal_strlit("while ");
        reveal_strlit("match ");
        reveal_strlit("&&");
        reveal_strlit("||");
    }
    let slashes = chars_of("//");
    let hash = chars_of("#");
    if matches_at(&t, &slashes, 0) || matches_at(&t, &hash, 0) {
        return total;
    }
    let mut sum = total;
    sum = add_capped(sum, count_word(&t, "if "));
    sum = add_capped(sum, count_word(&t, "for "));
    sum = add_capped(sum, count_word(&t, "while "));
    sum = add_capped(sum, count_word(&t, "match "));
    sum = add_capped(sum, count_word(&t, "&&"));
    sum = add_capped(sum, count_word(&t, "||"));
    sum
}

/// The complexity of a source text; the greatest `u32` where it is beyond
/// that.
pub fn calculate_complexity(content: &str) -> (complexity: u32)
    ensures
        complexity == capped(complexity_of(content@) as int),
{
    let chars = chars_of(content);
    let lines = split_lines(&chars);
    let mut complexity: u32 = 1;
    let mut i: usize = 0;
    while i < lines.len()
        invariant
            i <= lines.len(),
            vec_views(lines@) == lines_of(content@),
            complexity == capped(1 + lines_complexity(lines_of(content@), i as int) as int),
        decreases lines.len() - i,
    {
        proof {
            assert(vec_views(lines@)[i as int] == lines@[i as int]@);
        }
        complexity = complexity_of_line(&lines[i], complexity);
        i += 1;
    }
    complexity
}

/// The number of lines of a text.
pub fn count_lines(content: &str) -> (n: usize)
    ensures
        n == lines_of(content@).len(),
{
    let chars = chars_of(content);
    let lines = split_lines(&chars);
    proof {
        assert(vec_views(lines@).len() == lines@.len());
    }
    lines.len()
}

/// Whether a file with this complexity and this many lines counts as
/// complex.
pub open spec fn counts_as_complex(complexity: u32, lines: nat) -> bool {
    complexity > COMPLEXITY_THRESHOLD || lines > LARGE_FILE_LINES
}

/// The running result of a complexity analysis.
pub struct ComplexityReport {
    /// The files that count as complex, in the order in which they came.
    pub complex_files: Vec<ComplexityInfo>,
    /// The sum of the complexities of all files, capped.
    pub total_complexity: u32,
    /// The number of files.
    pub file_count: usize,
}

/// A tally as plain values.
pub struct ComplexityView {
    pub complex_files: Seq<ComplexityInfoView>,
    pub total_complexity: u32,
    pub file_count: nat,
}

impl View for ComplexityReport {
    type V = ComplexityView;

    open spec fn view(&self) -> ComplexityView {
        ComplexityView {
            complex_files: complexity_views(self.complex_files@),
            total_complexity: self.total_complexity,
            file_count: self.file_count as nat,
        }
    }
}

impl ComplexityView {
    /// The tally without files.
    pub open spec fn empty() -> ComplexityView {
        ComplexityView { complex_files: Seq::empty(), total_complexity: 0, file_count: 0 }
    }

    /// The tally after one more source file: the file is counted, its
    /// complexity is added, and it is listed if it counts as complex.
    pub open spec fn with_file(self, file: Seq<char>, content: Seq<char>) -> ComplexityView {
        let complexity = capped(complexity_of(content) as int);
        let lines = lines_of(content).len();
        ComplexityView {
            complex_files: if counts_as_complex(complexity, lines) {
                self.complex_files.push(ComplexityInfoView { file, complexity, lines })
            } else {
                self.complex_files
            },
            total_complexity: capped(self.total_complexity + complexity),
            file_count: self.file_count + 1,
        }
    }

    /// The tally after a scanned file: only a source file that could be read
    /// counts.
    pub open spec fn with_scanned(self, file: ScannedFileView) -> ComplexityView {
        match file.content {
            Some(content) if source_extension(file.extension) => self.with_file(
                file.path,
                content,
            ),
            _ => self,
        }
    }
}

/// The tally of the first `n` scanned files.
pub open spec fn complexity_tally(files: Seq<ScannedFileView>, n: int) -> ComplexityView
    decreases n,
{
    if n <= 0 {
        ComplexityView::empty()
    } else {
        complexity_tally(files, n - 1).with_scanned(files[n - 1])
    }
}

impl ComplexityReport {
    /// A tally without files.
    pub fn new() -> (tally: Self)
        ensures
            tally@ == ComplexityView::empty(),
    {
        let tally = ComplexityReport {
            complex_files: Vec::new(),
            total_complexity: 0,
            file_count: 0,
        };
        proof {
            assert(tally@.complex_files =~= Seq::<ComplexityInfoView>::empty());
        }
        tally
    }

    /// Takes a source file into account.
    pub fn add_file(&mut self, file: &str, content: &str)
        requires
            old(self).file_count < usize::MAX,
        ensures
            final(self)@ == old(self)@.with_file(file@, content@),
    {
        let complexity = calculate_complexity(content);
        let lines = count_lines(content);
        let ghost before = complexity_views(self.complex_files@);
        if complexity > COMPLEXITY_THRESHOLD || lines > LARGE_FILE_LINES {
            let info = ComplexityInfo { file: file.to_owned(), complexity, lines };
            self.complex_files.push(info);
            proof {
                assert(complexity_views(self.complex_files@) =~= before.push(info@));
            }
        }
        self.total_complexity = add_capped(self.total_complexity, complexity as usize);
        self.file_count += 1;
    }
}

/// The complexity of the source files among `files` that could be read.
/// `None` where there are more files than can be counted.
pub fn analyze_complexity(files: &Vec<ScannedFile>) -> (result: Option<ComplexityReport>)
    ensures
        match result {
            Some(tally) => tally@ == complexity_tally(
                scanned_views(files@),
                files@.len() as int,
            ) && files@.len() < usize::MAX,
            None => files@.len() >= usize::MAX,
        },
{
    if files.len() == usize::MAX {
        return None;
    }
    let mut tally = ComplexityReport::new();
    let mut i: usize = 0;
    while i < files.len()
        invariant
            i <= files.len() < usize::MAX,
            tally.file_count <= i,
            tally@ == complexity_tally(scanned_views(files@), i as int),
        decreases files.len() - i,
    {
        let file = &files[i];
        proof {
            assert(scanned_views(files@)[i as int] == file@);
        }
        if is_source_file(file.extension.as_str()) {
            match &file.content {
                Some(content) => {
                    tally.add_file(file.path.as_str(), content.as_str());
                },
                None => {},
            }
        }
        i += 1;
    }
    Some(tally)
}

/// A complex file as a line of the report.
pub open spec fn complex_file_line(info: ComplexityInfo) -> Seq<char> {
    "  "@ + info.file@ + " - 복잡도: "@ + decimal(info.complexity as nat) + ", "@ + decimal(
        info.lines as nat,
    ) + " 라인\n"@
}

/// The report on complexity: the average, given as text, and the first
/// five complex files, if there are any.
pub open spec fn complexity_report(average: Seq<char>, files: Seq<ComplexityInfo>) -> Seq<char> {
    "\n복잡도\n"@ + "평균 복잡도: "@ + average + "\n\n"@ + if files.len() > 0 {
        "복잡한 파일:\n"@ + concat_all(
            files.take(
                if files.len() < 5 {
                    files.len() as int
                } else {
                    5
                },
            ).map_values(|f: ComplexityInfo| complex_file_line(f)),
        )
    } else {
        Seq::<char>::empty()
    }
}

/// The report on complexity, ready to be printed. `average` is the average
/// complexity with one decimal.
pub fn print_complexity_report(average: &str, files: &Vec<ComplexityInfo>) -> (report: String)
    ensures
        report@ == complexity_report(average@, files@),
{
    let mut out: Vec<char> = Vec::new();
    push_str(&mut out, "\n복잡도\n");
    push_str(&mut out, "평균 복잡도: ");
    push_str(&mut out, average);
    push_str(&mut out, "\n\n");
    let ghost top = "\n복잡도\n"@ + "평균 복잡도: "@ + average@ + "\n\n"@;
    proof {
        assert(out@ =~= top);
    }
    if files.len() > 0 {
        push_str(&mut out, "복잡한 파일:\n");
        let shown: usize = if files.len() < 5 {
            files.len()
        } else {
            5
        };
        let ghost head = out@;
        let ghost pieces = files@.take(shown as int).map_values(
            |f: ComplexityInfo| complex_file_line(f),
        );
        let mut i: usize = 0;
        proof {
            assert(pieces.take(0) =~= Seq::<Seq<char>>::empty());
            assert(out@ =~= head + concat_all(pieces.take(0)));
        }
        while i < shown
            invariant
                i <= shown <= files.len(),
                pieces == files@.take(shown as int).map_values(
                    |f: ComplexityInfo| complex_file_line(f),
                ),
                out@ == head + concat_all(pieces.take(i as int)),
            decreases shown - i,
        {
            let ghost before = out@;
            let info = &files[i];
            push_str(&mut out, "  ");
            push_str(&mut out, info.file.as_str());
            push_str(&mut out, " - 복잡도: ");
            let c = decimal_of(info.complexity as u64);
            push_all(&mut out, &c);
            push_str(&mut out, ", ");
            let l = decimal_of(info.lines as u64);
            push_all(&mut out, &l);
            push_str(&mut out, " 라인\n");
            proof {
                lemma_concat_all_step(pieces, i as int);
                assert(pieces[i as int] == complex_file_line(files@[i as int]));
                assert(out@ =~= before + pieces[i as int]);
            }
            i += 1;
        }
        proof {
            assert(pieces.take(shown as int) =~= pieces);
            assert(out@ =~= complexity_report(average@, files@));
        }
    } else {
        proof {
            assert(out@ =~= top + Seq::<char>::empty());
        }
    }
    string_of(&out)
}

} // verus!
