//! What the command handlers decide and compute. Reading input, calling the
//! model and printing are left to whoever calls them.

pub mod analysis;
pub mod chat;
pub mod code_assistant;
pub mod command;
pub mod completion;
pub mod project;
pub mod shell;

use vstd::prelude::*;
use crate::analyzer::complexity::count_lines;
use crate::assistant::batch::{FileChange, FileChangeView};
use crate::text::{
    byte_len, byte_len_of, chars_of, contains, count_in, count_matches, decimal, decimal_of,
    exceeds_bytes, find, find_from, find_in, joined, lines_of, lowercase, push_all, push_joined,
    push_str, same_chars, split_lines, str_contains, str_eq, string_of, string_views, subvec,
    to_lowercase, trim, trim_bounds, trimmed, vec_views,
};

verus! {

/// The marker of a code fence.
pub open spec fn fence() -> Seq<char> {
    seq!['`', '`', '`']
}

/// The body of the first block of `text` that `opening` opens: what stands
/// between the first occurrence of `opening` and the next fence marker,
/// trimmed. `None` when `opening` does not occur or no marker follows it.
pub open spec fn block_after(text: Seq<char>, opening: Seq<char>) -> Option<Seq<char>> {
    match find(text, opening) {
        Some(start) => match find_from(text, fence(), start + opening.len()) {
            Some(end) => Some(trim(text.subrange(start + opening.len(), end))),
            None => None,
        },
        None => None,
    }
}

/// The body of the first block that one of `openings` opens, the openings
/// tried in order; the whole text, trimmed, when none opens a block.
pub open spec fn first_block(text: Seq<char>, openings: Seq<Seq<char>>) -> Seq<char>
    decreases openings.len(),
{
    if openings.len() == 0 {
        trim(text)
    } else {
        match block_after(text, openings[0]) {
            Some(body) => body,
            None => first_block(text, openings.skip(1)),
        }
    }
}

/// The ways in which a block of `language` may open, from the most to the
/// least specific: the marker with the language and a line feed, the bare
/// marker and a line feed, the marker with the language, the bare marker.
pub open spec fn block_openings(language: Seq<char>) -> Seq<Seq<char>> {
    seq![
        fence() + language + seq!['\n'],
        fence() + seq!['\n'],
        fence() + language,
        fence(),
    ]
}

/// The code that an answer holds: the body of its first fenced block, or
/// the whole answer, trimmed, when it has no block.
pub open spec fn extracted_code(text: Seq<char>, language: Seq<char>) -> Seq<char> {
    first_block(text, block_openings(language))
}

fn fence_chars() -> (f: Vec<char>)
    ensures
        f@ == fence(),
{
    let mut f: Vec<char> = Vec::new();
    f.push('`');
    f.push('`');
    f.push('`');
    proof {
        assert(f@ =~= fence());
    }
    f
}

fn block_after_in(text: &Vec<char>, opening: &Vec<char>) -> (r: Option<Vec<char>>)
    ensures
        match r {
            Some(body) => block_after(text@, opening@) == Some(body@),
            None => block_after(text@, opening@) is None,
        },
{
    match find_in(text, opening, 0) {
        Some(start) => {
            let code_start = start + opening.len();
            let marker = fence_chars();
            match find_in(text, &marker, code_start) {
                Some(end) => {
                    let (a, b) = trim_bounds(text, code_start, end);
                    Some(subvec(text, a, b))
                },
                None => None,
            }
        },
        None => None,
    }
}

/// Extracts the code from an answer of the model: the body of the first
/// fenced block, preferring a block that declares `language`, or the whole
/// answer when it holds no block. The result is trimmed.
pub fn extract_code_block(text: &str, language: &str) -> (code: String)
    ensures
        code@ == extracted_code(text@, language@),
{
    let chars = chars_of(text);
    let lang = chars_of(language);
    let mut with_language_line = fence_chars();
    push_all(&mut with_language_line, &lang);
    with_language_line.push('\n');
    let mut bare_line = fence_chars();
    bare_line.push('\n');
    let mut with_language = fence_chars();
    push_all(&mut with_language, &lang);
    let bare = fence_chars();
    let mut openings: Vec<Vec<char>> = Vec::new();
    openings.push(with_language_line);
    openings.push(bare_line);
    openings.push(with_language);
    openings.push(bare);
    let ghost all = block_openings(language@);
    proof {
        assert(openings@.len() == 4);
        assert(openings@[0]@ =~= all[0]);
        assert(openings@[1]@ =~= all[1]);
        assert(openings@[2]@ =~= all[2]);
        assert(openings@[3]@ =~= all[3]);
        assert(all.skip(0) =~= all);
    }
    let mut i: usize = 0;
    while i < openings.len()
        invariant
            i <= openings.len(),
            openings@.len() == 4,
            all.len() == 4,
            chars@ == text@,
            forall|k: int| 0 <= k < 4 ==> (#[trigger] openings@[k])@ == all[k],
            extracted_code(text@, language@) == first_block(text@, all.skip(i as int)),
        decreases openings.len() - i,
    {
        proof {
            assert(all.skip(i as int)[0] == all[i as int]);
            assert(all.skip(i as int).skip(1) =~= all.skip(i + 1));
        }
        match block_after_in(&chars, &openings[i]) {
            Some(body) => {
                return string_of(&body);
            },
            None => {},
        }
        i += 1;
    }
    let whole = trimmed(&chars);
    string_of(&whole)
}

/// The request for an analysis of a file.
pub open spec fn file_analysis_request(extension: Seq<char>, file_path: Seq<char>, content: Seq<char>) -> Seq<char> {
    "다음 "@
        + extension
        + " 파일을 분석하고 개선점을 제안해주세요:\n\n파일: "@
        + file_path
        + "\n\n```"@
        + extension
        + "\n"@
        + content
        + "\n```\n\n다음 관점에서 분석해주세요:\n1. 코드 품질\n2. 가독성\n3. 성능\n4. 보안\n5. 모범 사례"@
}

/// Asks for an analysis of the file at `file_path` with suggestions for improvement.
pub fn file_analysis_prompt(extension: &str, file_path: &str, content: &str) -> (prompt: String)
    ensures
        prompt@ == file_analysis_request(extension@, file_path@, content@),
{
    let mut out: Vec<char> = Vec::new();
    push_str(&mut out, "다음 ");
    push_str(&mut out, extension);
    push_str(&mut out, " 파일을 분석하고 개선점을 제안해주세요:\n\n파일: ");
    push_str(&mut out, file_path);
    push_str(&mut out, "\n\n```");
    push_str(&mut out, extension);
    push_str(&mut out, "\n");
    push_str(&mut out, content);
    push_str(&mut out, "\n```\n\n다음 관점에서 분석해주세요:\n1. 코드 품질\n2. 가독성\n3. 성능\n4. 보안\n5. 모범 사례");
    proof {
        assert(out@ =~= file_analysis_request(extension@, file_path@, content@));
    }
    string_of(&out)
}

/// The request for improved code.
pub open spec fn improvement_request(extension: Seq<char>, content: Seq<char>) -> Seq<char> {
    "위의 분석을 바탕으로 다음 코드를 개선해주세요. 전체 수정된 코드를 제공해주세요:\n\n```"@
        + extension
        + "\n"@
        + content
        + "\n```"@
}

/// Asks for the improved code of `content`, following the analysis given before.
pub fn improvement_prompt(extension: &str, content: &str) -> (prompt: String)
    ensures
        prompt@ == improvement_request(extension@, content@),
{
    let mut out: Vec<char> = Vec::new();
    push_str(&mut out, "위의 분석을 바탕으로 다음 코드를 개선해주세요. 전체 수정된 코드를 제공해주세요:\n\n```");
    push_str(&mut out, extension);
    push_str(&mut out, "\n");
    push_str(&mut out, content);
    push_str(&mut out, "\n```");
    proof {
        assert(out@ =~= improvement_request(extension@, content@));
    }
    string_of(&out)
}

/// The request for an assessment of a code base.
pub open spec fn codebase_review_request(files_analyzed: Seq<char>, files_with_issues: Seq<char>, issues: Seq<char>) -> Seq<char> {
    "다음은 프로젝트의 코드 분석 결과입니다:\n\n분석된 파일 수: "@
        + files_analyzed
        + "\n이슈가 있는 파일 수: "@
        + files_with_issues
        + "\n\n주요 이슈:\n"@
        + issues
        + "\n\n이 프로젝트의 전반적인 코드 품질을 평가하고, 개선 방안을 제시해주세요."@
}

/// Asks for an assessment of a code base, given how many files were analysed, how many of them have issues, and the issues.
pub fn codebase_review_prompt_text(files_analyzed: &str, files_with_issues: &str, issues: &str) -> (prompt: String)
    ensures
        prompt@ == codebase_review_request(files_analyzed@, files_with_issues@, issues@),
{
    let mut out: Vec<char> = Vec::new();
    push_str(&mut out, "다음은 프로젝트의 코드 분석 결과입니다:\n\n분석된 파일 수: ");
    push_str(&mut out, files_analyzed);
    push_str(&mut out, "\n이슈가 있는 파일 수: ");
    push_str(&mut out, files_with_issues);
    push_str(&mut out, "\n\n주요 이슈:\n");
    push_str(&mut out, issues);
    push_str(&mut out, "\n\n이 프로젝트의 전반적인 코드 품질을 평가하고, 개선 방안을 제시해주세요.");
    proof {
        assert(out@ =~= codebase_review_request(files_analyzed@, files_with_issues@, issues@));
    }
    string_of(&out)
}

/// The request for an assessment of a code base in which `files_analyzed`
/// files were analysed and `files_with_issues` of them have issues.
pub fn codebase_review_prompt(files_analyzed: usize, files_with_issues: usize, issues: &str) -> (prompt:
    String)
    ensures
        prompt@ == codebase_review_request(
            decimal(files_analyzed as nat),
            decimal(files_with_issues as nat),
            issues@,
        ),
{
    let analyzed = string_of(&decimal_of(files_analyzed as u64));
    let with_issues = string_of(&decimal_of(files_with_issues as u64));
    codebase_review_prompt_text(analyzed.as_str(), with_issues.as_str(), issues)
}

/// Whether an answer to a yes-or-no question says yes: whether, trimmed and
/// in lower case, it is `y`.
pub open spec fn says_yes(input: Seq<char>) -> bool {
    lowercase(trim(input)) == "y"@
}

/// Whether an answer to a yes-or-no question says yes.
pub fn is_yes(input: &str) -> (yes: bool)
    ensures
        yes == says_yes(input@),
{
    let chars = chars_of(input);
    let t = string_of(&trimmed(&chars));
    let lower = to_lowercase(t.as_str());
    str_eq(lower.as_str(), "y")
}

/// What is shown of a file before it is analysed.
#[derive(Debug, Clone, Copy, PartialEq, Eq)]
pub struct FileFacts {
    /// The size of the file in bytes.
    pub bytes: usize,
    /// The number of its lines.
    pub lines: usize,
}

/// The size and the number of lines of a text.
pub fn file_facts(content: &str) -> (facts: FileFacts)
    ensures
        facts.bytes == byte_len(content@),
        facts.lines == lines_of(content@).len(),
{
    FileFacts { bytes: byte_len_of(content), lines: count_lines(content) }
}

/// How the change that the model proposes for a file is described.
pub open spec fn improvement_label() -> Seq<char> {
    "AI가 제안한 코드 개선사항"@
}

/// The change that an answer of the model proposes for a file: the code
/// that the answer holds in place of the content of the file.
pub fn handle_code_assist(file_path: &str, content: &str, extension: &str, response: &str) -> (change:
    FileChange)
    ensures
        change@ == (FileChangeView {
            path: file_path@,
            original_content: content@,
            new_content: extracted_code(response@, extension@),
            description: improvement_label(),
        }),
{
    FileChange {
        path: file_path.to_owned(),
        original_content: content.to_owned(),
        new_content: extract_code_block(response, extension),
        description: "AI가 제안한 코드 개선사항".to_owned(),
    }
}

/// Whether a file with this extension, in lower case, is code.
pub open spec fn code_extension(ext: Seq<char>) -> bool {
    let e = lowercase(ext);
    e == "rs"@ || e == "py"@ || e == "js"@ || e == "ts"@ || e == "jsx"@ || e == "tsx"@ || e
        == "java"@ || e == "cpp"@ || e == "c"@ || e == "h"@ || e == "hpp"@ || e == "cs"@ || e
        == "go"@ || e == "rb"@ || e == "php"@ || e == "swift"@ || e == "kt"@ || e == "scala"@
        || e == "r"@ || e == "dart"@ || e == "vue"@
}

/// Whether a file with this extension is code.
pub fn is_code_extension(ext: &str) -> (b: bool)
    ensures
        b == code_extension(ext@),
{
    let lower = to_lowercase(ext);
    let e = lower.as_str();
    str_eq(e, "rs") || str_eq(e, "py") || str_eq(e, "js") || str_eq(e, "ts") || str_eq(e, "jsx")
        || str_eq(e, "tsx") || str_eq(e, "java") || str_eq(e, "cpp") || str_eq(e, "c") || str_eq(
        e,
        "h",
    ) || str_eq(e, "hpp") || str_eq(e, "cs") || str_eq(e, "go") || str_eq(e, "rb") || str_eq(
        e,
        "php",
    ) || str_eq(e, "swift") || str_eq(e, "kt") || str_eq(e, "scala") || str_eq(e, "r") || str_eq(
        e,
        "dart",
    ) || str_eq(e, "vue")
}

/// Whether a path lies in a directory that is left out of the analysis of a
/// folder: one of `.git`, `node_modules`, `target`, `.idea`, `__pycache__`,
/// with either kind of separator around it.
pub open spec fn excluded_path(path: Seq<char>) -> bool {
    ||| contains(path, "/.git/"@)
    ||| contains(path, "\\.git\\"@)
    ||| contains(path, "/node_modules/"@)
    ||| contains(path, "\\node_modules\\"@)
    ||| contains(path, "/target/"@)
    ||| contains(path, "\\target\\"@)
    ||| contains(path, "/.idea/"@)
    ||| contains(path, "\\.idea\\"@)
    ||| contains(path, "/__pycache__/"@)
    ||| contains(path, "\\__pycache__\\"@)
}

/// Whether a path lies in a directory that is left out of the analysis of a
/// folder.
pub fn is_excluded_path(path: &str) -> (b: bool)
    ensures
        b == excluded_path(path@),
{
    str_contains(path, "/.git/") || str_contains(path, "\\.git\\") || str_contains(
        path,
        "/node_modules/",
    ) || str_contains(path, "\\node_modules\\") || str_contains(path, "/target/") || str_contains(
        path,
        "\\target\\",
    ) || str_contains(path, "/.idea/") || str_contains(path, "\\.idea\\") || str_contains(
        path,
        "/__pycache__/",
    ) || str_contains(path, "\\__pycache__\\")
}

/// The size in bytes above which a file is not analysed.
pub const MAX_ANALYZED_SIZE: u64 = 1_000_000;

/// Whether a file of this size is too large to be analysed.
pub fn is_too_large(size: u64) -> (b: bool)
    ensures
        b == (size > MAX_ANALYZED_SIZE),
{
    size > MAX_ANALYZED_SIZE
}

/// The number of the first `n` lines that take more than a hundred bytes.
pub open spec fn long_lines(lines: Seq<Seq<char>>, n: int) -> nat
    decreases n,
{
    if n <= 0 {
        0
    } else {
        long_lines(lines, n - 1) + if byte_len(lines[n - 1]) > 100 {
            1nat
        } else {
            0nat
        }
    }
}

/// Whether the three lines from `i` on stand again at `j`.
pub open spec fn same_three(lines: Seq<Seq<char>>, i: int, j: int) -> bool {
    lines[i] == lines[j] && lines[i + 1] == lines[j + 1] && lines[i + 2] == lines[j + 2]
}

/// Whether the three lines from `i` on, the first of them not blank, stand
/// again ten lines further down or later, at a position from `from` on.
pub open spec fn repeated_from(lines: Seq<Seq<char>>, i: int, from: int) -> bool
    decreases lines.len() - from,
{
    if from < 0 || from + 3 >= lines.len() {
        false
    } else if same_three(lines, i, from) && trim(lines[i]).len() > 0 {
        true
    } else {
        repeated_from(lines, i, from + 1)
    }
}

/// The number of positions among the first `n` whose three lines are
/// repeated further down.
pub open spec fn repeated_blocks(lines: Seq<Seq<char>>, n: int) -> nat
    decreases n,
{
    if n <= 0 {
        0
    } else {
        repeated_blocks(lines, n - 1) + if repeated_from(lines, n - 1, n - 1 + 10) {
            1nat
        } else {
            0nat
        }
    }
}

/// The number of positions of a text whose three lines are repeated further
/// down; positions are counted as long as three lines follow them.
pub open spec fn duplicate_count(lines: Seq<Seq<char>>) -> nat {
    repeated_blocks(
        lines,
        if lines.len() > 3 {
            lines.len() - 3
        } else {
            0
        },
    )
}

/// The issues of a file, given its marks, long lines and duplicates: each
/// is reported with its number if there is any, duplicates only if there
/// are more than five.
pub open spec fn issues_for(todos: nat, long: nat, duplicates: nat) -> Seq<Seq<char>> {
    let a = if todos > 0 {
        seq!["TODO/FIXME 주석 "@ + decimal(todos) + " 개 발견"@]
    } else {
        Seq::<Seq<char>>::empty()
    };
    let b = if long > 0 {
        seq!["100자 이상 긴 줄 "@ + decimal(long) + " 개"@]
    } else {
        Seq::<Seq<char>>::empty()
    };
    let c = if duplicates > 5 {
        seq!["중복 코드 패턴 "@ + decimal(duplicates) + " 개 발견"@]
    } else {
        Seq::<Seq<char>>::empty()
    };
    a + b + c
}

/// The issues of a text: its `TODO` and `FIXME` marks, its lines of more
/// than a hundred bytes, and its repeated blocks of three lines.
pub open spec fn file_issues(content: Seq<char>) -> Seq<Seq<char>> {
    issues_for(
        count_matches(content, "TODO"@) + count_matches(content, "FIXME"@),
        long_lines(lines_of(content), lines_of(content).len() as int),
        duplicate_count(lines_of(content)),
    )
}

fn numbered_issue(before: &str, n: usize, after: &str) -> (issue: String)
    ensures
        issue@ == before@ + decimal(n as nat) + after@,
{
    let mut out: Vec<char> = Vec::new();
    push_str(&mut out, before);
    let number = decimal_of(n as u64);
    push_all(&mut out, &number);
    push_str(&mut out, after);
    proof {
        assert(out@ =~= before@ + decimal(n as nat) + after@);
    }
    string_of(&out)
}

fn is_repeated(lines: &Vec<Vec<char>>, i: usize) -> (r: bool)
    requires
        i + 3 < lines.len(),
    ensures
        r == repeated_from(vec_views(lines@), i as int, i + 10),
{
    let (a, b) = trim_bounds(&lines[i], 0, lines[i].len());
    let blank = a == b;
    let ghost views = vec_views(lines@);
    proof {
        assert(lines@[i as int]@.subrange(0, lines@[i as int]@.len() as int) =~= lines@[i as int]@);
        assert(views[i as int] == lines@[i as int]@);
    }
    if lines.len() - 3 <= 10 || i >= lines.len() - 3 - 10 {
        return false;
    }
    let mut j: usize = i + 10;
    while j + 3 < lines.len()
        invariant
            i + 10 <= j,
            i + 3 < lines.len(),
            j + 3 <= lines.len(),
            views == vec_views(lines@),
            blank == (trim(views[i as int]).len() == 0),
            repeated_from(views, i as int, i + 10) == repeated_from(views, i as int, j as int),
        decreases lines.len() - j,
    {
        proof {
            assert(views[i as int] == lines@[i as int]@);
            assert(views[i + 1] == lines@[i + 1]@);
            assert(views[i + 2] == lines@[i + 2]@);
            assert(views[j as int] == lines@[j as int]@);
            assert(views[j + 1] == lines@[j + 1]@);
            assert(views[j + 2] == lines@[j + 2]@);
        }
        if !blank && same_chars(&lines[i], &lines[j]) && same_chars(&lines[i + 1], &lines[j + 1])
            && same_chars(&lines[i + 2], &lines[j + 2]) {
            return true;
        }
        j += 1;
    }
    false
}

/// The issues of a file.
pub fn analyze_file_issues(content: &str) -> (issues: Vec<String>)
    ensures
        string_views(issues@) == file_issues(content@),
{
    let chars = chars_of(content);
    let todo = chars_of("TODO");
    let fixme = chars_of("FIXME");
    proof {
        reveal_strlit("TODO");
        reveal_strlit("FIXME");
        crate::text::lemma_count_weight(content@, "TODO"@, 0);
        crate::text::lemma_count_weight(content@, "FIXME"@, 0);
        assert(count_matches(content@, "TODO"@) + count_matches(content@, "FIXME"@)
            <= content@.len()) by (nonlinear_arith)
            requires
                count_matches(content@, "TODO"@) * 4 <= content@.len(),
                count_matches(content@, "FIXME"@) * 5 <= content@.len(),
        ;
    }
    let todos = count_in(&chars, &todo);
    let fixmes = count_in(&chars, &fixme);
    let lines = split_lines(&chars);
    let ghost views = vec_views(lines@);
    let mut long: usize = 0;
    let mut i: usize = 0;
    while i < lines.len()
        invariant
            i <= lines.len(),
            long <= i,
            views == vec_views(lines@),
            long == long_lines(views, i as int),
        decreases lines.len() - i,
    {
        proof {
            assert(views[i as int] == lines@[i as int]@);
        }
        if exceeds_bytes(&lines[i], 100) {
            long += 1;
        }
        i += 1;
    }
    let mut duplicates: usize = 0;
    let limit: usize = if lines.len() > 3 {
        lines.len() - 3
    } else {
        0
    };
    let mut k: usize = 0;
    while k < limit
        invariant
            k <= limit,
            limit == if lines.len() > 3 {
                lines.len() - 3
            } else {
                0
            },
            duplicates <= k,
            views == vec_views(lines@),
            duplicates == repeated_blocks(views, k as int),
        decreases limit - k,
    {
        if is_repeated(&lines, k) {
            duplicates += 1;
        }
        k += 1;
    }
    let mut issues: Vec<String> = Vec::new();
    let size = chars.len();
    proof {
        assert(todos + fixmes <= size);
    }
    let marks: usize = todos + fixmes;
    if marks > 0 {
        issues.push(numbered_issue("TODO/FIXME 주석 ", marks, " 개 발견"));
    }
    if long > 0 {
        issues.push(numbered_issue("100자 이상 긴 줄 ", long, " 개"));
    }
    if duplicates > 5 {
        issues.push(numbered_issue("중복 코드 패턴 ", duplicates, " 개 발견"));
    }
    proof {
        assert(views.len() == lines@.len());
        assert(string_views(issues@) =~= file_issues(content@));
    }
    issues
}

/// The issues of the files of a folder as they are handed to the model: for
/// each file a line with its path and its issues, separated by commas.
pub open spec fn issues_listing(files: Seq<(String, Vec<String>)>) -> Seq<char> {
    joined(
        files.map_values(
            |f: (String, Vec<String>)| f.0@ + ": "@ + joined(string_views(f.1@), ", "@),
        ),
        "\n"@,
    )
}

/// The question on a folder whose files have been analysed: how many files,
/// how many of them with issues, and the issues.
pub fn handle_folder_code_analysis(files_analyzed: usize, with_issues: &Vec<(String, Vec<String>)>) -> (prompt:
    String)
    ensures
        prompt@ == codebase_review_request(
            decimal(files_analyzed as nat),
            decimal(with_issues@.len()),
            issues_listing(with_issues@),
        ),
{
    let mut entries: Vec<String> = Vec::new();
    let ghost all = with_issues@.map_values(
        |f: (String, Vec<String>)| f.0@ + ": "@ + joined(string_views(f.1@), ", "@),
    );
    let mut i: usize = 0;
    while i < with_issues.len()
        invariant
            i <= with_issues.len(),
            all == with_issues@.map_values(
                |f: (String, Vec<String>)| f.0@ + ": "@ + joined(string_views(f.1@), ", "@),
            ),
            string_views(entries@) == all.take(i as int),
        decreases with_issues.len() - i,
    {
        let mut entry: Vec<char> = Vec::new();
        push_str(&mut entry, with_issues[i].0.as_str());
        push_str(&mut entry, ": ");
        push_joined(&mut entry, &with_issues[i].1, with_issues[i].1.len(), ", ");
        let text = string_of(&entry);
        proof {
            let issues = string_views(with_issues@[i as int].1@);
            assert(issues.take(issues.len() as int) =~= issues);
            assert(text@ =~= all[i as int]);
            assert(all.take(i + 1) =~= all.take(i as int).push(all[i as int]));
            assert(string_views(entries@.push(text)) =~= string_views(entries@).push(text@));
        }
        entries.push(text);
        i += 1;
    }
    let mut listing: Vec<char> = Vec::new();
    push_joined(&mut listing, &entries, entries.len(), "\n");
    proof {
        assert(all.take(with_issues.len() as int) =~= all);
        assert(string_views(entries@).take(entries.len() as int) =~= string_views(entries@));
        assert(listing@ =~= issues_listing(with_issues@));
    }
    let text = string_of(&listing);
    codebase_review_prompt(files_analyzed, with_issues.len(), text.as_str())
}

} // verus!
