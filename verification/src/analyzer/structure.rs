//! The make-up of a project: how many source files and lines it has, and in
//! which languages.

use vstd::prelude::*;
use crate::analyzer::complexity::count_lines;
use crate::analyzer::types::{scanned_views, ScannedFile, ScannedFileView};
use crate::text::{
    concat_all, decimal, decimal_of, lemma_concat_all_step, lines_of, push_all, push_str, str_eq,
    string_of,
};

verus! {

/// Whether a directory of this name is left out of every analysis.
pub open spec fn ignored_dir(name: Seq<char>) -> bool {
    name == "target"@ || name == "node_modules"@ || name == ".git"@ || name == "dist"@ || name
        == "build"@ || name == "vendor"@
}

/// Whether a file with this extension is source code.
pub open spec fn source_extension(ext: Seq<char>) -> bool {
    ext == "rs"@ || ext == "js"@ || ext == "ts"@ || ext == "jsx"@ || ext == "tsx"@ || ext
        == "py"@ || ext == "java"@ || ext == "go"@ || ext == "c"@ || ext == "cpp"@ || ext
        == "cs"@ || ext == "rb"@ || ext == "php"@
}

/// The language that files with an extension are written in.
pub open spec fn language_of(ext: Seq<char>) -> Seq<char> {
    if ext == "rs"@ {
        "Rust"@
    } else if ext == "js"@ || ext == "jsx"@ {
        "JavaScript"@
    } else if ext == "ts"@ || ext == "tsx"@ {
        "TypeScript"@
    } else if ext == "py"@ {
        "Python"@
    } else if ext == "java"@ {
        "Java"@
    } else if ext == "go"@ {
        "Go"@
    } else if ext == "c"@ || ext == "cpp"@ || ext == "cc"@ {
        "C/C++"@
    } else if ext == "cs"@ {
        "C#"@
    } else if ext == "rb"@ {
        "Ruby"@
    } else if ext == "php"@ {
        "PHP"@
    } else {
        "Other"@
    }
}

/// Whether a directory of this name is left out of every analysis.
pub fn is_ignored_dir(name: &str) -> (b: bool)
    ensures
        b == ignored_dir(name@),
{
    str_eq(name, "target") || str_eq(name, "node_modules") || str_eq(name, ".git") || str_eq(
        name,
        "dist",
    ) || str_eq(name, "build") || str_eq(name, "vendor")
}

/// Whether one of the components of a path is a directory that is left out.
pub fn has_ignored_component(components: &Vec<String>) -> (b: bool)
    ensures
        b == exists|i: int| 0 <= i < components@.len() && ignored_dir(#[trigger] components@[i]@),
{
    let mut i: usize = 0;
    while i < components.len()
        invariant
            i <= components.len(),
            forall|k: int| 0 <= k < i ==> !ignored_dir(#[trigger] components@[k]@),
        decreases components.len() - i,
    {
        if is_ignored_dir(components[i].as_str()) {
            return true;
        }
        i += 1;
    }
    false
}

/// Whether a file with this extension is source code.
pub fn is_source_file(ext: &str) -> (b: bool)
    ensures
        b == source_extension(ext@),
{
    str_eq(ext, "rs") || str_eq(ext, "js") || str_eq(ext, "ts") || str_eq(ext, "jsx") || str_eq(
        ext,
        "tsx",
    ) || str_eq(ext, "py") || str_eq(ext, "java") || str_eq(ext, "go") || str_eq(ext, "c")
        || str_eq(ext, "cpp") || str_eq(ext, "cs") || str_eq(ext, "rb") || str_eq(ext, "php")
}

/// The language that files with an extension are written in.
pub fn detect_language(ext: &str) -> (language: &'static str)
    ensures
        language@ == language_of(ext@),
{
    if str_eq(ext, "rs") {
        "Rust"
    } else if str_eq(ext, "js") || str_eq(ext, "jsx") {
        "JavaScript"
    } else if str_eq(ext, "ts") || str_eq(ext, "tsx") {
        "TypeScript"
    } else if str_eq(ext, "py") {
        "Python"
    } else if str_eq(ext, "java") {
        "Java"
    } else if str_eq(ext, "go") {
        "Go"
    } else if str_eq(ext, "c") || str_eq(ext, "cpp") || str_eq(ext, "cc") {
        "C/C++"
    } else if str_eq(ext, "cs") {
        "C#"
    } else if str_eq(ext, "rb") {
        "Ruby"
    } else if str_eq(ext, "php") {
        "PHP"
    } else {
        "Other"
    }
}

/// The files and lines counted for one language.
#[derive(Debug, Clone, PartialEq, Eq)]
pub struct LanguageStats {
    pub language: String,
    pub file_count: usize,
    pub line_count: usize,
}

/// The count of a language as plain values.
pub struct LanguageStatsView {
    pub language: Seq<char>,
    pub file_count: nat,
    pub line_count: nat,
}

impl View for LanguageStats {
    type V = LanguageStatsView;

    open spec fn view(&self) -> LanguageStatsView {
        LanguageStatsView {
            language: self.language@,
            file_count: self.file_count as nat,
            line_count: self.line_count as nat,
        }
    }
}

/// The counts of `counts` as plain values.
pub open spec fn count_views(counts: Seq<LanguageStats>) -> Seq<LanguageStatsView> {
    counts.map_values(|c: LanguageStats| c@)
}

/// The position of the count for `language`, or `counts.len()` when there
/// is none.
pub open spec fn position_of(counts: Seq<LanguageStatsView>, language: Seq<char>) -> int
    decreases counts.len(),
{
    if counts.len() == 0 {
        0
    } else if counts[0].language == language {
        0
    } else {
        1 + position_of(counts.skip(1), language)
    }
}

/// The counts after one more file of `lines` lines in `language`: the count
/// of the language is raised, or added at the end when the language is new.
pub open spec fn with_file(
    counts: Seq<LanguageStatsView>,
    language: Seq<char>,
    lines: nat,
) -> Seq<LanguageStatsView> {
    let at = position_of(counts, language);
    if 0 <= at < counts.len() {
        counts.update(
            at,
            LanguageStatsView {
                language,
                file_count: counts[at].file_count + 1,
                line_count: counts[at].line_count + lines,
            },
        )
    } else {
        counts.push(LanguageStatsView { language, file_count: 1, line_count: lines })
    }
}

/// The running result of a structure analysis.
pub struct ProjectStructure {
    total_files: usize,
    total_lines: usize,
    languages: Vec<LanguageStats>,
}

/// A tally as plain values.
pub struct StructureView {
    /// The number of source files.
    pub total_files: nat,
    /// The number of lines of the source files that could be read.
    pub total_lines: nat,
    /// The counts by language, in the order in which the languages came.
    pub languages: Seq<LanguageStatsView>,
}

impl StructureView {
    /// The tally after one more file. A file that is no source file changes
    /// nothing; a source file is counted, and if it could be read its lines
    /// are counted and its language credited.
    pub open spec fn with_source(self, ext: Seq<char>, content: Option<Seq<char>>) -> StructureView {
        if !source_extension(ext) {
            self
        } else {
            match content {
                Some(text) => StructureView {
                    total_files: self.total_files + 1,
                    total_lines: self.total_lines + lines_of(text).len(),
                    languages: with_file(self.languages, language_of(ext), lines_of(text).len()),
                },
                None => StructureView { total_files: self.total_files + 1, ..self },
            }
        }
    }

    /// No language has more files or lines than the whole.
    pub open spec fn wf(self) -> bool {
        forall|i: int|
            0 <= i < self.languages.len() ==> (#[trigger] self.languages[i]).file_count
                <= self.total_files && self.languages[i].line_count <= self.total_lines
    }
}

impl View for ProjectStructure {
    type V = StructureView;

    closed spec fn view(&self) -> StructureView {
        StructureView {
            total_files: self.total_files as nat,
            total_lines: self.total_lines as nat,
            languages: count_views(self.languages@),
        }
    }
}

/// The position of a language lies within the counts or just behind them.
pub proof fn lemma_position_of(counts: Seq<LanguageStatsView>, language: Seq<char>)
    ensures
        0 <= position_of(counts, language) <= counts.len(),
        position_of(counts, language) < counts.len() ==> counts[position_of(
            counts,
            language,
        )].language == language,
        forall|k: int| 0 <= k < position_of(counts, language) ==> counts[k].language != language,
    decreases counts.len(),
{
    if counts.len() > 0 && counts[0].language != language {
        lemma_position_of(counts.skip(1), language);
        assert forall|k: int| 0 <= k < position_of(counts, language) implies counts[k].language
            != language by {
            if k > 0 {
                assert(counts.skip(1)[k - 1] == counts[k]);
            }
        }
    }
}

proof fn lemma_position_is(counts: Seq<LanguageStatsView>, language: Seq<char>, at: int)
    requires
        0 <= at <= counts.len(),
        forall|k: int| 0 <= k < at ==> counts[k].language != language,
        at < counts.len() ==> counts[at].language == language,
    ensures
        position_of(counts, language) == at,
    decreases at,
{
    if at > 0 {
        assert forall|k: int| 0 <= k < at - 1 implies counts.skip(1)[k].language != language by {
            assert(counts.skip(1)[k] == counts[k + 1]);
        }
        lemma_position_is(counts.skip(1), language, at - 1);
    }
}

impl ProjectStructure {
    /// A tally without files.
    pub fn new() -> (tally: Self)
        ensures
            tally@ == (StructureView {
                total_files: 0,
                total_lines: 0,
                languages: Seq::empty(),
            }),
            tally@.wf(),
    {
        let tally = ProjectStructure { total_files: 0, total_lines: 0, languages: Vec::new() };
        proof {
            assert(tally@.languages =~= Seq::<LanguageStatsView>::empty());
        }
        tally
    }

    /// The number of source files.
    pub fn total_files(&self) -> (n: usize)
        ensures
            n == self@.total_files,
    {
        self.total_files
    }

    /// The number of lines of the source files that could be read.
    pub fn total_lines(&self) -> (n: usize)
        ensures
            n == self@.total_lines,
    {
        self.total_lines
    }

    /// The counts by language.
    pub fn languages(&self) -> (counts: &Vec<LanguageStats>)
        ensures
            count_views(counts@) == self@.languages,
    {
        &self.languages
    }

    /// Takes a file into account. `ext` is its extension, `content` its text
    /// if it could be read.
    pub fn add_file(&mut self, ext: &str, content: Option<&str>)
        requires
            old(self)@.wf(),
            source_extension(ext@) ==> old(self)@.total_files < usize::MAX,
            source_extension(ext@) ==> (content matches Some(text) ==> old(self)@.total_lines
                + lines_of(text@).len() <= usize::MAX),
        ensures
            final(self)@ == old(self)@.with_source(
                ext@,
                match content {
                    Some(text) => Some(text@),
                    None => None,
                },
            ),
            final(self)@.wf(),
    {
        if !is_source_file(ext) {
            return ;
        }
        self.total_files += 1;
        let text = match content {
            Some(text) => text,
            None => {
                proof {
                    assert forall|k: int| 0 <= k < self@.languages.len() implies (
                    #[trigger] self@.languages[k]).file_count <= self@.total_files
                        && self@.languages[k].line_count <= self@.total_lines by {
                        assert(old(self)@.languages[k].file_count <= old(self)@.total_files);
                    }
                }
                return ;
            },
        };
        let lines = count_lines(text);
        self.total_lines += lines;
        let language = detect_language(ext);
        proof {
            assert forall|k: int| 0 <= k < self.languages@.len() implies (
            #[trigger] self.languages@[k]).file_count < usize::MAX && self.languages@[k].line_count
                + lines <= usize::MAX by {
                assert(old(self)@.languages[k] == self.languages@[k]@);
                assert(old(self)@.languages[k].file_count <= old(self)@.total_files);
            }
        }
        let ghost counts = count_views(self.languages@);
        credit(&mut self.languages, language, lines);
        proof {
            lemma_position_of(counts, language@);
            let at = position_of(counts, language@);
            assert forall|k: int| 0 <= k < self@.languages.len() implies (
            #[trigger] self@.languages[k]).file_count <= self@.total_files
                && self@.languages[k].line_count <= self@.total_lines by {
                if k < counts.len() {
                    assert(old(self)@.languages[k].file_count <= old(self)@.total_files);
                }
            }
        }
    }
}

/// The tally of the first `n` scanned files.
pub open spec fn structure_tally(files: Seq<ScannedFileView>, n: int) -> StructureView
    decreases n,
{
    if n <= 0 {
        StructureView { total_files: 0, total_lines: 0, languages: Seq::empty() }
    } else {
        structure_tally(files, n - 1).with_source(files[n - 1].extension, files[n - 1].content)
    }
}

/// Totals only grow as more files are taken into account.
pub proof fn lemma_structure_tally_grows(files: Seq<ScannedFileView>, n: int, m: int)
    requires
        0 <= n <= m,
    ensures
        structure_tally(files, n).total_files <= structure_tally(files, m).total_files,
        structure_tally(files, n).total_lines <= structure_tally(files, m).total_lines,
    decreases m - n,
{
    if n < m {
        lemma_structure_tally_grows(files, n, m - 1);
    }
}

/// The structure of a project whose files are `files`. `None` where the
/// files or their lines are more than can be counted.
pub fn analyze_structure(files: &Vec<ScannedFile>) -> (result: Option<ProjectStructure>)
    ensures
        match result {
            Some(tally) => tally@ == structure_tally(scanned_views(files@), files@.len() as int)
                && tally@.wf() && tally@.total_files <= usize::MAX && tally@.total_lines <= usize::MAX,
            None => {
                let all = structure_tally(scanned_views(files@), files@.len() as int);
                all.total_files > usize::MAX || all.total_lines > usize::MAX
            },
        },
{
    let mut tally = ProjectStructure::new();
    let mut i: usize = 0;
    while i < files.len()
        invariant
            i <= files.len(),
            tally@.wf(),
            tally@ == structure_tally(scanned_views(files@), i as int),
        decreases files.len() - i,
    {
        let file = &files[i];
        proof {
            assert(scanned_views(files@)[i as int] == file@);
            lemma_structure_tally_grows(scanned_views(files@), i + 1, files@.len() as int);
        }
        let text: Option<&str> = match &file.content {
            Some(c) => Some(c.as_str()),
            None => None,
        };
        if is_source_file(file.extension.as_str()) {
            if tally.total_files() == usize::MAX {
                return None;
            }
            match text {
                Some(t) => {
                    let lines = count_lines(t);
                    if lines > usize::MAX - tally.total_lines() {
                        return None;
                    }
                },
                None => {},
            }
        }
        tally.add_file(file.extension.as_str(), text);
        i += 1;
    }
    Some(tally)
}

/// Credits one more file of `lines` lines to `language`.
pub fn credit(counts: &mut Vec<LanguageStats>, language: &str, lines: usize)
    requires
        forall|k: int|
            0 <= k < old(counts)@.len() ==> (#[trigger] old(counts)@[k]).file_count < usize::MAX
                && old(counts)@[k].line_count + lines <= usize::MAX,
    ensures
        count_views(final(counts)@) == with_file(count_views(old(counts)@), language@, lines as nat),
{
    let ghost views = count_views(counts@);
    let mut i: usize = 0;
    let mut found = false;
    while i < counts.len() && !found
        invariant
            i <= counts.len(),
            *counts == *old(counts),
            views == count_views(counts@),
            forall|k: int| 0 <= k < i ==> views[k].language != language@,
            found ==> i < counts.len() && views[i as int].language == language@,
        decreases counts.len() - i + if found {
            0int
        } else {
            1int
        },
    {
        if str_eq(counts[i].language.as_str(), language) {
            found = true;
        } else {
            i += 1;
        }
    }
    proof {
        lemma_position_is(views, language@, i as int);
    }
    if i < counts.len() {
        proof {
            assert(views[i as int] == counts@[i as int]@);
        }
        let entry = LanguageStats {
            language: language.to_owned(),
            file_count: counts[i].file_count + 1,
            line_count: counts[i].line_count + lines,
        };
        counts.set(i, entry);
        proof {
            assert(count_views(counts@) =~= views.update(i as int, entry@));
        }
    } else {
        let entry = LanguageStats { language: language.to_owned(), file_count: 1, line_count: lines };
        counts.push(entry);
        proof {
            assert(count_views(counts@) =~= views.push(entry@));
        }
    }
}

/// The line of a structure report on one language: its name, its files and
/// lines, and its share of all lines in percent, given as text.
pub open spec fn language_line(count: LanguageStatsView, share: Seq<char>) -> Seq<char> {
    "  "@ + count.language + " - "@ + decimal(count.file_count) + " 파일, "@ + decimal(
        count.line_count,
    ) + " 라인 ("@ + share + "%)\n"@
}

/// The share that goes with the count at position `i`; empty where none was
/// given.
pub open spec fn share_at(shares: Seq<String>, i: int) -> Seq<char> {
    if 0 <= i < shares.len() {
        shares[i]@
    } else {
        Seq::<char>::empty()
    }
}

/// The report on the structure of a project: the totals, then a line for
/// each language.
pub open spec fn structure_report(tally: StructureView, shares: Seq<String>) -> Seq<char> {
    "\n프로젝트 구조\n"@ + "총 파일: "@ + decimal(tally.total_files) + " | 총 라인: "@ + decimal(
        tally.total_lines,
    ) + "\n\n"@ + concat_all(
        Seq::new(
            tally.languages.len(),
            |i: int| language_line(tally.languages[i], share_at(shares, i)),
        ),
    )
}

/// The report on the structure of a project, ready to be printed. `shares`
/// holds, for each language in order, its share of all lines in percent with
/// one decimal.
pub fn print_structure_report(tally: &ProjectStructure, shares: &Vec<String>) -> (report: String)
    ensures
        report@ == structure_report(tally@, shares@),
{
    let mut out: Vec<char> = Vec::new();
    push_str(&mut out, "\n프로젝트 구조\n");
    push_str(&mut out, "총 파일: ");
    let files = decimal_of(tally.total_files as u64);
    push_all(&mut out, &files);
    push_str(&mut out, " | 총 라인: ");
    let lines = decimal_of(tally.total_lines as u64);
    push_all(&mut out, &lines);
    push_str(&mut out, "\n\n");
    let ghost head = out@;
    let ghost counts = count_views(tally.languages@);
    let ghost pieces = Seq::new(
        counts.len(),
        |i: int| language_line(counts[i], share_at(shares@, i)),
    );
    let mut i: usize = 0;
    proof {
        assert(pieces.take(0) =~= Seq::<Seq<char>>::empty());
        assert(out@ =~= head + concat_all(pieces.take(0)));
    }
    while i < tally.languages.len()
        invariant
            i <= tally.languages.len(),
            counts == count_views(tally.languages@),
            pieces.len() == counts.len(),
            forall|k: int|
                0 <= k < pieces.len() ==> #[trigger] pieces[k] == language_line(
                    counts[k],
                    share_at(shares@, k),
                ),
            out@ == head + concat_all(pieces.take(i as int)),
        decreases tally.languages.len() - i,
    {
        let ghost before = out@;
        let entry = &tally.languages[i];
        push_str(&mut out, "  ");
        push_str(&mut out, entry.language.as_str());
        push_str(&mut out, " - ");
        let f = decimal_of(entry.file_count as u64);
        push_all(&mut out, &f);
        push_str(&mut out, " 파일, ");
        let l = decimal_of(entry.line_count as u64);
        push_all(&mut out, &l);
        push_str(&mut out, " 라인 (");
        if i < shares.len() {
            push_str(&mut out, shares[i].as_str());
        }
        push_str(&mut out, "%)\n");
        proof {
            lemma_concat_all_step(pieces, i as int);
            assert(counts[i as int] == entry@);
            assert(out@ =~= before + pieces[i as int]);
        }
        i += 1;
    }
    proof {
        assert(pieces.take(tally.languages.len() as int) =~= pieces);
        assert(out@ =~= structure_report(tally@, shares@));
    }
    string_of(&out)
}

} // verus!
