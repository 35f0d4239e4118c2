//! The survey of a project that is handed to the model: what the manifest
//! says, which files there are, and samples of the code.

use vstd::prelude::*;
use crate::analyzer::structure::{count_views, credit, with_file, LanguageStats, LanguageStatsView};
use crate::analyzer::types::{scanned_views, ScannedFile, ScannedFileView};
use crate::handlers::code_assistant::{is_surveyed_extension, surveyed_extension};
use crate::text::{
    chars_of, concat_all, decimal, decimal_of, joined, lemma_concat_all_step, lines_of, push_all,
    push_joined, push_str, split_lines, string_of, string_views, vec_views,
};

verus! {

/// The string that `toml` finds in a document under `key` of the table
/// `table`; `None` where the document is not TOML or has no string there.
pub uninterp spec fn toml_string_at(content: Seq<char>, table: Seq<char>, key: Seq<char>) -> Option<
    Seq<char>,
>;

/// The number of entries of the table that `toml` finds in a document under
/// `key`; `None` where the document is not TOML or has no table there.
pub uninterp spec fn toml_table_size(content: Seq<char>, key: Seq<char>) -> Option<nat>;

/// Parses `content` into a `toml::Value` and looks up `table` and then
/// `key` with `Value::get`; the result is what `Value::as_str` gives.
#[verifier::external_body]
fn toml_string(content: &str, table: &str, key: &str) -> (found: Option<String>)
    ensures
        match found {
            Some(s) => toml_string_at(content@, table@, key@) == Some(s@),
            None => toml_string_at(content@, table@, key@) is None,
        },
{
    let value: toml::Value = content.parse().ok()?;
    value.get(table)?.get(key)?.as_str().map(String::from)
}

/// Parses `content` into a `toml::Value`, looks up `key` with `Value::get`
/// and counts the entries of what `Value::as_table` gives.
#[verifier::external_body]
fn toml_table_len(content: &str, key: &str) -> (found: Option<usize>)
    ensures
        match found {
            Some(n) => toml_table_size(content@, key@) == Some(n as nat),
            None => toml_table_size(content@, key@) is None,
        },
{
    let value: toml::Value = content.parse().ok()?;
    Some(value.get(key)?.as_table()?.len())
}

/// A line of the metadata: a label and a value, if there is a value.
pub open spec fn labelled(label: Seq<char>, value: Option<Seq<char>>) -> Seq<char> {
    match value {
        Some(v) => label + v + "\n"@,
        None => Seq::<char>::empty(),
    }
}

/// The metadata of a project as text: name, version, description and the
/// number of dependencies, each as far as it is known.
pub open spec fn metadata_text(
    name: Option<Seq<char>>,
    version: Option<Seq<char>>,
    description: Option<Seq<char>>,
    dependencies: Option<nat>,
) -> Seq<char> {
    labelled("프로젝트명: "@, name) + labelled("버전: "@, version) + labelled("설명: "@, description)
        + labelled(
        "의존성 수: "@,
        match dependencies {
            Some(n) => Some(decimal(n)),
            None => None,
        },
    )
}

/// A string that may be missing, as plain text.
pub open spec fn option_view(value: Option<String>) -> Option<Seq<char>> {
    match value {
        Some(v) => Some(v@),
        None => None,
    }
}

fn push_labelled(out: &mut Vec<char>, label: &str, value: &Option<String>)
    ensures
        final(out)@ == old(out)@ + labelled(label@, option_view(*value)),
{
    match value {
        Some(v) => {
            push_str(out, label);
            push_str(out, v.as_str());
            push_str(out, "\n");
            proof {
                assert(out@ =~= old(out)@ + labelled(label@, Some(v@)));
            }
        },
        None => {
            proof {
                assert(out@ =~= old(out)@ + Seq::<char>::empty());
            }
        },
    }
}

/// The metadata of a project as text, given what its manifest says.
pub fn metadata_from(
    name: &Option<String>,
    version: &Option<String>,
    description: &Option<String>,
    dependencies: Option<usize>,
) -> (text: String)
    ensures
        text@ == metadata_text(
            option_view(*name),
            option_view(*version),
            option_view(*description),
            match dependencies {
                Some(n) => Some(n as nat),
                None => None,
            },
        ),
{
    let mut out: Vec<char> = Vec::new();
    push_labelled(&mut out, "프로젝트명: ", name);
    push_labelled(&mut out, "버전: ", version);
    push_labelled(&mut out, "설명: ", description);
    let count = match dependencies {
        Some(n) => Some(string_of(&decimal_of(n as u64))),
        None => None,
    };
    push_labelled(&mut out, "의존성 수: ", &count);
    proof {
        assert(out@ =~= metadata_text(
            option_view(*name),
            option_view(*version),
            option_view(*description),
            match dependencies {
                Some(n) => Some(n as nat),
                None => None,
            },
        ));
    }
    string_of(&out)
}

/// The metadata of a Rust project as text, read from its manifest.
pub fn project_metadata(cargo_toml: &str) -> (text: String)
    ensures
        text@ == metadata_text(
            toml_string_at(cargo_toml@, "package"@, "name"@),
            toml_string_at(cargo_toml@, "package"@, "version"@),
            toml_string_at(cargo_toml@, "package"@, "description"@),
            toml_table_size(cargo_toml@, "dependencies"@),
        ),
{
    let name = toml_string(cargo_toml, "package", "name");
    let version = toml_string(cargo_toml, "package", "version");
    let description = toml_string(cargo_toml, "package", "description");
    let dependencies = toml_table_len(cargo_toml, "dependencies");
    metadata_from(&name, &version, &description, dependencies)
}

/// The entry of a file in the list of files.
pub open spec fn file_entry(path: Seq<char>, lines: nat) -> Seq<char> {
    "- "@ + path + " ("@ + decimal(lines) + " 줄)"@
}

/// The first `n` lines of a text, or all if it has fewer.
pub open spec fn first_lines(content: Seq<char>, n: int) -> Seq<Seq<char>> {
    lines_of(content).take(
        if lines_of(content).len() < n {
            lines_of(content).len() as int
        } else {
            n
        },
    )
}

/// The sample of a file: its path, and its first twenty lines in a fence
/// with its extension.
pub open spec fn code_sample(path: Seq<char>, ext: Seq<char>, content: Seq<char>) -> Seq<char> {
    "파일: "@ + path + "\n```"@ + ext + "\n"@ + joined(first_lines(content, 20), "\n"@) + "\n```"@
}

/// What has been found in a project so far.
pub struct ProjectSurvey {
    /// An entry for each file, in the order in which the files came.
    pub files_info: Vec<String>,
    /// Samples of code, five at most.
    pub code_samples: Vec<String>,
    /// The number of lines of all files.
    pub total_lines: usize,
    /// The number of files.
    pub file_count: usize,
    /// The number of files by extension, for the extensions that are looked
    /// into, in the order in which the extensions came.
    pub language_stats: Vec<LanguageStats>,
}

/// A survey as plain values.
pub struct SurveyView {
    pub files_info: Seq<Seq<char>>,
    pub code_samples: Seq<Seq<char>>,
    pub total_lines: nat,
    pub file_count: nat,
    pub language_stats: Seq<LanguageStatsView>,
}

impl View for ProjectSurvey {
    type V = SurveyView;

    open spec fn view(&self) -> SurveyView {
        SurveyView {
            files_info: string_views(self.files_info@),
            code_samples: string_views(self.code_samples@),
            total_lines: self.total_lines as nat,
            file_count: self.file_count as nat,
            language_stats: count_views(self.language_stats@),
        }
    }
}

impl SurveyView {
    /// The survey without files.
    pub open spec fn empty() -> SurveyView {
        SurveyView {
            files_info: Seq::empty(),
            code_samples: Seq::empty(),
            total_lines: 0,
            file_count: 0,
            language_stats: Seq::empty(),
        }
    }

    /// The survey after one more file: the file is counted and listed with
    /// the number of its lines; if its extension is one that is looked into,
    /// the extension is credited, and if the file has more than fifty lines
    /// and there are fewer than five samples yet, it gives a sample.
    pub open spec fn with_file(
        self,
        path: Seq<char>,
        extension: Option<Seq<char>>,
        content: Seq<char>,
    ) -> SurveyView {
        let lines = lines_of(content).len();
        let listed = SurveyView {
            files_info: self.files_info.push(file_entry(path, lines)),
            total_lines: self.total_lines + lines,
            file_count: self.file_count + 1,
            ..self
        };
        match extension {
            Some(ext) if surveyed_extension(ext) => SurveyView {
                language_stats: with_file(self.language_stats, ext, 0),
                code_samples: if self.code_samples.len() < 5 && lines > 50 {
                    self.code_samples.push(code_sample(path, ext, content))
                } else {
                    self.code_samples
                },
                ..listed
            },
            _ => listed,
        }
    }

    /// The survey after a scanned file: a file that could not be read is
    /// left out.
    pub open spec fn with_scanned(self, file: ScannedFileView) -> SurveyView {
        match file.content {
            Some(content) => self.with_file(file.path, Some(file.extension), content),
            None => self,
        }
    }
}

/// The survey of the first `n` scanned files.
pub open spec fn survey_of(files: Seq<ScannedFileView>, n: int) -> SurveyView
    decreases n,
{
    if n <= 0 {
        SurveyView::empty()
    } else {
        survey_of(files, n - 1).with_scanned(files[n - 1])
    }
}

/// Totals only grow as more files are taken into account.
pub proof fn lemma_survey_grows(files: Seq<ScannedFileView>, n: int, m: int)
    requires
        0 <= n <= m,
    ensures
        survey_of(files, n).file_count <= survey_of(files, m).file_count,
        survey_of(files, n).total_lines <= survey_of(files, m).total_lines,
    decreases m - n,
{
    if n < m {
        lemma_survey_grows(files, n, m - 1);
    }
}

impl ProjectSurvey {
    /// No extension is credited with more files than there are.
    pub open spec fn wf(&self) -> bool {
        forall|k: int|
            0 <= k < self.language_stats@.len() ==> (#[trigger] self.language_stats@[k]).file_count
                <= self.file_count
    }

    /// A survey without files.
    pub fn new() -> (survey: Self)
        ensures
            survey@ == SurveyView::empty(),
            survey.wf(),
    {
        let survey = ProjectSurvey {
            files_info: Vec::new(),
            code_samples: Vec::new(),
            total_lines: 0,
            file_count: 0,
            language_stats: Vec::new(),
        };
        proof {
            assert(survey@.files_info =~= Seq::<Seq<char>>::empty());
            assert(survey@.code_samples =~= Seq::<Seq<char>>::empty());
            assert(survey@.language_stats =~= Seq::<LanguageStatsView>::empty());
        }
        survey
    }

    /// Takes a file into account: it is counted and listed with the number
    /// of its lines; if its extension is one that is looked into, the
    /// extension is credited, and if the file has more than fifty lines and
    /// there are fewer than five samples yet, it gives a sample.
    pub fn add_file(&mut self, relative_path: &str, extension: Option<&str>, content: &str)
        requires
            old(self).wf(),
            old(self).file_count < usize::MAX,
            old(self).total_lines + lines_of(content@).len() <= usize::MAX,
        ensures
            final(self).wf(),
            final(self)@ == old(self)@.with_file(
                relative_path@,
                match extension {
                    Some(ext) => Some(ext@),
                    None => None,
                },
                content@,
            ),
    {
        let chars = chars_of(content);
        let lines = split_lines(&chars);
        let count = lines.len();
        proof {
            assert(vec_views(lines@).len() == lines@.len());
        }
        self.total_lines += count;
        self.file_count += 1;
        let mut entry: Vec<char> = Vec::new();
        push_str(&mut entry, "- ");
        push_str(&mut entry, relative_path);
        push_str(&mut entry, " (");
        let number = decimal_of(count as u64);
        push_all(&mut entry, &number);
        push_str(&mut entry, " 줄)");
        let text = string_of(&entry);
        proof {
            assert(text@ =~= file_entry(relative_path@, lines_of(content@).len()));
            assert(string_views(self.files_info@.push(text)) =~= string_views(
                self.files_info@,
            ).push(text@));
        }
        self.files_info.push(text);
        match extension {
            Some(ext) => {
                if is_surveyed_extension(ext) {
                    proof {
                        assert forall|k: int| 0 <= k < self.language_stats@.len() implies (
                        #[trigger] self.language_stats@[k]).file_count < usize::MAX
                            && self.language_stats@[k].line_count + 0 <= usize::MAX by {
                            assert(old(self).language_stats@[k].file_count <= old(self).file_count);
                        }
                    }
                    let ghost before = count_views(self.language_stats@);
                    credit(&mut self.language_stats, ext, 0);
                    proof {
                        assert forall|k: int| 0 <= k < self.language_stats@.len() implies (
                        #[trigger] self.language_stats@[k]).file_count <= self.file_count by {
                            let after = count_views(self.language_stats@);
                            crate::analyzer::structure::lemma_position_of(before, ext@);
                            let at = crate::analyzer::structure::position_of(before, ext@);
                            assert(after == with_file(before, ext@, 0));
                            assert(after[k] == self.language_stats@[k]@);
                            if k < before.len() {
                                assert(before[k] == old(self).language_stats@[k]@);
                                assert(old(self).language_stats@[k].file_count <= old(self).file_count);
                            }
                        }
                    }
                    if self.code_samples.len() < 5 && count > 50 {
                        let mut sample: Vec<char> = Vec::new();
                        push_str(&mut sample, "파일: ");
                        push_str(&mut sample, relative_path);
                        push_str(&mut sample, "\n```");
                        push_str(&mut sample, ext);
                        push_str(&mut sample, "\n");
                        let mut preview: Vec<String> = Vec::new();
                        let mut i: usize = 0;
                        while i < 20
                            invariant
                                i <= 20,
                                count > 50,
                                count == lines.len(),
                                string_views(preview@) == vec_views(lines@).take(i as int),
                            decreases 20 - i,
                        {
                            let line = string_of(&lines[i]);
                            proof {
                                let views = vec_views(lines@);
                                assert(views.take(i + 1) =~= views.take(i as int).push(
                                    lines@[i as int]@,
                                ));
                                assert(string_views(preview@.push(line)) =~= string_views(
                                    preview@,
                                ).push(line@));
                            }
                            preview.push(line);
                            i += 1;
                        }
                        push_joined(&mut sample, &preview, 20, "\n");
                        push_str(&mut sample, "\n```");
                        let shown = string_of(&sample);
                        proof {
                            assert(string_views(preview@).take(20) =~= first_lines(content@, 20));
                            assert(shown@ =~= code_sample(relative_path@, ext@, content@));
                            assert(string_views(self.code_samples@.push(shown)) =~= string_views(
                                self.code_samples@,
                            ).push(shown@));
                        }
                        self.code_samples.push(shown);
                    }
                }
            },
            None => {},
        }
    }
}

/// The survey of a project whose files are `files`; files that could not be
/// read are left out. `None` where the files or their lines are more than
/// can be counted.
pub fn analyze_project_interactive(files: &Vec<ScannedFile>) -> (result: Option<ProjectSurvey>)
    ensures
        match result {
            Some(survey) => survey@ == survey_of(scanned_views(files@), files@.len() as int)
                && survey.wf(),
            None => {
                let all = survey_of(scanned_views(files@), files@.len() as int);
                all.file_count > usize::MAX || all.total_lines > usize::MAX
            },
        },
{
    let mut survey = ProjectSurvey::new();
    let mut i: usize = 0;
    while i < files.len()
        invariant
            i <= files.len(),
            survey.wf(),
            survey@ == survey_of(scanned_views(files@), i as int),
        decreases files.len() - i,
    {
        let file = &files[i];
        proof {
            assert(scanned_views(files@)[i as int] == file@);
            lemma_survey_grows(scanned_views(files@), i + 1, files@.len() as int);
        }
        match &file.content {
            Some(content) => {
                if survey.file_count == usize::MAX {
                    return None;
                }
                let lines = crate::analyzer::complexity::count_lines(content.as_str());
                if lines > usize::MAX - survey.total_lines {
                    return None;
                }
                survey.add_file(
                    file.path.as_str(),
                    Some(file.extension.as_str()),
                    content.as_str(),
                );
            },
            None => {},
        }
        i += 1;
    }
    Some(survey)
}

/// The counts by extension as lines of the summary.
pub open spec fn extension_lines(stats: Seq<LanguageStatsView>) -> Seq<char> {
    concat_all(
        stats.map_values(
            |c: LanguageStatsView| "- "@ + c.language + ": "@ + decimal(c.file_count) + " 파일\n"@,
        ),
    )
}

/// The directories as lines of the summary.
pub open spec fn directory_lines(dirs: Seq<Seq<char>>) -> Seq<char> {
    concat_all(dirs.map_values(|d: Seq<char>| "- "@ + d + "/\n"@))
}

/// The samples as they stand in the summary.
pub open spec fn sample_blocks(samples: Seq<Seq<char>>) -> Seq<char> {
    concat_all(samples.map_values(|s: Seq<char>| "\n"@ + s + "\n"@))
}

/// The first `n` of `items`, or all if there are fewer.
pub open spec fn at_most<A>(items: Seq<A>, n: int) -> Seq<A> {
    items.take(
        if items.len() < n {
            items.len() as int
        } else {
            n
        },
    )
}

/// The head of the summary of a project: metadata, kind, and totals.
pub open spec fn summary_head(
    metadata: Seq<char>,
    project_type: Seq<char>,
    file_count: nat,
    total_lines: nat,
) -> Seq<char> {
    "=== 프로젝트 정보 ===\n"@ + metadata + "\n프로젝트 타입: "@ + project_type + "\n총 파일: "@
        + decimal(file_count) + "\n총 코드 라인: "@ + decimal(total_lines) + "\n"@
}

/// The summary of a project that is handed to the model: the head, the
/// files by extension, ten directories at most, fifteen files at most, and
/// the samples.
pub open spec fn summary_text(
    survey: ProjectSurvey,
    metadata: Seq<char>,
    project_type: Seq<char>,
    dirs: Seq<Seq<char>>,
) -> Seq<char> {
    summary_head(metadata, project_type, survey.file_count as nat, survey.total_lines as nat)
        + if survey.language_stats@.len() > 0 {
        "\n언어별 파일:\n"@ + extension_lines(count_views(survey.language_stats@))
    } else {
        Seq::<char>::empty()
    } + "\n=== 디렉토리 구조 ===\n"@ + directory_lines(at_most(dirs, 10)) + "\n=== 주요 파일 ===\n"@
        + joined(at_most(string_views(survey.files_info@), 15), "\n"@)
        + if survey.code_samples@.len() > 0 {
        "\n\n=== 코드 샘플 ===\n"@ + sample_blocks(string_views(survey.code_samples@))
    } else {
        Seq::<char>::empty()
    }
}

fn push_extension_lines(out: &mut Vec<char>, stats: &Vec<LanguageStats>)
    ensures
        final(out)@ == old(out)@ + extension_lines(count_views(stats@)),
{
    let ghost head = out@;
    let ghost pieces = count_views(stats@).map_values(
        |c: LanguageStatsView| "- "@ + c.language + ": "@ + decimal(c.file_count) + " 파일\n"@,
    );
    let mut i: usize = 0;
    proof {
        assert(pieces.take(0) =~= Seq::<Seq<char>>::empty());
        assert(out@ =~= head + concat_all(pieces.take(0)));
    }
    while i < stats.len()
        invariant
            i <= stats.len(),
            pieces == count_views(stats@).map_values(
                |c: LanguageStatsView|
                    "- "@ + c.language + ": "@ + decimal(c.file_count) + " 파일\n"@,
            ),
            out@ == head + concat_all(pieces.take(i as int)),
        decreases stats.len() - i,
    {
        let ghost before = out@;
        push_str(out, "- ");
        push_str(out, stats[i].language.as_str());
        push_str(out, ": ");
        let n = decimal_of(stats[i].file_count as u64);
        push_all(out, &n);
        push_str(out, " 파일\n");
        proof {
            lemma_concat_all_step(pieces, i as int);
            assert(count_views(stats@)[i as int] == stats@[i as int]@);
            assert(out@ =~= before + pieces[i as int]);
        }
        i += 1;
    }
    proof {
        assert(pieces.take(stats.len() as int) =~= pieces);
    }
}

fn push_wrapped(out: &mut Vec<char>, items: &Vec<String>, n: usize, before: &str, after: &str)
    requires
        n <= items.len(),
    ensures
        final(out)@ == old(out)@ + concat_all(
            string_views(items@).take(n as int).map_values(|s: Seq<char>| before@ + s + after@),
        ),
{
    let ghost head = out@;
    let ghost pieces = string_views(items@).take(n as int).map_values(
        |s: Seq<char>| before@ + s + after@,
    );
    let mut i: usize = 0;
    proof {
        assert(pieces.take(0) =~= Seq::<Seq<char>>::empty());
        assert(out@ =~= head + concat_all(pieces.take(0)));
    }
    while i < n
        invariant
            i <= n <= items.len(),
            pieces == string_views(items@).take(n as int).map_values(
                |s: Seq<char>| before@ + s + after@,
            ),
            out@ == head + concat_all(pieces.take(i as int)),
        decreases n - i,
    {
        let ghost earlier = out@;
        push_str(out, before);
        push_str(out, items[i].as_str());
        push_str(out, after);
        proof {
            lemma_concat_all_step(pieces, i as int);
            assert(pieces[i as int] == before@ + items@[i as int]@ + after@);
            assert(out@ =~= earlier + pieces[i as int]);
        }
        i += 1;
    }
    proof {
        assert(pieces.take(n as int) =~= pieces);
    }
}

impl ProjectSurvey {
    /// The summary of the project that is handed to the model.
    pub fn summary(&self, metadata: &str, project_type: &str, dirs: &Vec<String>) -> (text: String)
        ensures
            text@ == summary_text(*self, metadata@, project_type@, string_views(dirs@)),
    {
        let mut out: Vec<char> = Vec::new();
        push_str(&mut out, "=== 프로젝트 정보 ===\n");
        push_str(&mut out, metadata);
        push_str(&mut out, "\n프로젝트 타입: ");
        push_str(&mut out, project_type);
        push_str(&mut out, "\n총 파일: ");
        let files = decimal_of(self.file_count as u64);
        push_all(&mut out, &files);
        push_str(&mut out, "\n총 코드 라인: ");
        let lines = decimal_of(self.total_lines as u64);
        push_all(&mut out, &lines);
        push_str(&mut out, "\n");
        let ghost head = summary_head(
            metadata@,
            project_type@,
            self.file_count as nat,
            self.total_lines as nat,
        );
        proof {
            assert(out@ =~= head);
        }
        let ghost by_extension = if self.language_stats@.len() > 0 {
            "\n언어별 파일:\n"@ + extension_lines(count_views(self.language_stats@))
        } else {
            Seq::<char>::empty()
        };
        if self.language_stats.len() > 0 {
            push_str(&mut out, "\n언어별 파일:\n");
            push_extension_lines(&mut out, &self.language_stats);
        }
        proof {
            assert(out@ =~= head + by_extension);
        }
        push_str(&mut out, "\n=== 디렉토리 구조 ===\n");
        let shown_dirs: usize = if dirs.len() < 10 {
            dirs.len()
        } else {
            10
        };
        push_wrapped(&mut out, dirs, shown_dirs, "- ", "/\n");
        push_str(&mut out, "\n=== 주요 파일 ===\n");
        let shown_files: usize = if self.files_info.len() < 15 {
            self.files_info.len()
        } else {
            15
        };
        push_joined(&mut out, &self.files_info, shown_files, "\n");
        let ghost middle = head + by_extension + "\n=== 디렉토리 구조 ===\n"@ + directory_lines(
            at_most(string_views(dirs@), 10),
        ) + "\n=== 주요 파일 ===\n"@ + joined(at_most(string_views(self.files_info@), 15), "\n"@);
        proof {
            assert(out@ =~= middle);
        }
        if self.code_samples.len() > 0 {
            push_str(&mut out, "\n\n=== 코드 샘플 ===\n");
            push_wrapped(&mut out, &self.code_samples, self.code_samples.len(), "\n", "\n");
            proof {
                let samples = string_views(self.code_samples@);
                assert(samples.take(samples.len() as int) =~= samples);
                assert(out@ =~= middle + ("\n\n=== 코드 샘플 ===\n"@ + sample_blocks(samples)));
                assert(summary_text(*self, metadata@, project_type@, string_views(dirs@))
                    =~= middle + ("\n\n=== 코드 샘플 ===\n"@ + sample_blocks(samples)));
            }
        } else {
            proof {
                assert(summary_text(*self, metadata@, project_type@, string_views(dirs@))
                    =~= middle + Seq::<char>::empty());
                assert(out@ =~= middle + Seq::<char>::empty());
            }
        }
        string_of(&out)
    }
}

} // verus!
