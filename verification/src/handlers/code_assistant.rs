//! The code assistant: what it analyses, what it asks the model, and what
//! it makes of the answers.

use vstd::prelude::*;
use crate::assistant::batch::{FileChange, FileChangeView};
use crate::handlers::{extract_code_block, extracted_code, fence};
use crate::text::{
    chars_of, count_in, count_matches, decimal, decimal_of, find, find_in, push_all, push_str,
    str_eq, string_of, subvec, suffix_stripped_len, trim, trim_bounds, without_suffix,
};

verus! {

/// What the code assistant is asked to do.
#[derive(Debug, Clone, PartialEq, Eq)]
pub struct CodeAssistantOptions {
    /// Analyse the quality of the code.
    pub analyze: bool,
    /// Suggest a refactoring.
    pub refactor: bool,
    /// Suggest optimisations.
    pub optimize: bool,
    /// Check for security weaknesses.
    pub security: bool,
    /// Write tests.
    pub test: bool,
    /// Write documentation.
    pub docs: bool,
    /// Apply every suggested change without review.
    pub fix_all: bool,
}

impl Default for CodeAssistantOptions {
    fn default() -> (options: Self)
        ensures
            options == (CodeAssistantOptions {
                analyze: true,
                refactor: true,
                optimize: true,
                security: true,
                test: false,
                docs: false,
                fix_all: false,
            }),
    {
        CodeAssistantOptions {
            analyze: true,
            refactor: true,
            optimize: true,
            security: true,
            test: false,
            docs: false,
            fix_all: false,
        }
    }
}

/// The options after the entry that `input` numbers, from one to seven, has
/// been switched; unchanged for any other input.
pub open spec fn toggled(options: CodeAssistantOptions, input: Seq<char>) -> CodeAssistantOptions {
    if input == "1"@ {
        CodeAssistantOptions { analyze: !options.analyze, ..options }
    } else if input == "2"@ {
        CodeAssistantOptions { refactor: !options.refactor, ..options }
    } else if input == "3"@ {
        CodeAssistantOptions { optimize: !options.optimize, ..options }
    } else if input == "4"@ {
        CodeAssistantOptions { security: !options.security, ..options }
    } else if input == "5"@ {
        CodeAssistantOptions { test: !options.test, ..options }
    } else if input == "6"@ {
        CodeAssistantOptions { docs: !options.docs, ..options }
    } else if input == "7"@ {
        CodeAssistantOptions { fix_all: !options.fix_all, ..options }
    } else {
        options
    }
}

/// Whether `input` numbers an option.
pub open spec fn numbers_option(input: Seq<char>) -> bool {
    input == "1"@ || input == "2"@ || input == "3"@ || input == "4"@ || input == "5"@ || input
        == "6"@ || input == "7"@
}

/// A box, ticked or not.
pub open spec fn tick(on: bool) -> Seq<char> {
    if on {
        "✓"@
    } else {
        " "@
    }
}

/// The options as they are shown after a choice.
pub open spec fn options_shown(options: CodeAssistantOptions) -> Seq<char> {
    "\n현재 선택:\n"@ + "1. ["@ + tick(options.analyze) + "] 코드 분석\n"@ + "2. ["@ + tick(
        options.refactor,
    ) + "] 리팩토링 제안\n"@ + "3. ["@ + tick(options.optimize) + "] 성능 최적화\n"@ + "4. ["@
        + tick(options.security) + "] 보안 검사\n"@ + "5. ["@ + tick(options.test)
        + "] 테스트 생성\n"@ + "6. ["@ + tick(options.docs) + "] 문서화\n"@ + "7. ["@ + tick(
        options.fix_all,
    ) + "] 자동 수정\n"@
}

fn push_tick(out: &mut Vec<char>, on: bool)
    ensures
        final(out)@ == old(out)@ + tick(on),
{
    if on {
        push_str(out, "✓");
    } else {
        push_str(out, " ");
    }
}

impl CodeAssistantOptions {
    /// Switches the option that `input` numbers. Says whether `input`
    /// numbers an option; if not, nothing changes.
    pub fn toggle(&mut self, input: &str) -> (known: bool)
        ensures
            *final(self) == toggled(*old(self), input@),
            known == numbers_option(input@),
    {
        if str_eq(input, "1") {
            self.analyze = !self.analyze;
        } else if str_eq(input, "2") {
            self.refactor = !self.refactor;
        } else if str_eq(input, "3") {
            self.optimize = !self.optimize;
        } else if str_eq(input, "4") {
            self.security = !self.security;
        } else if str_eq(input, "5") {
            self.test = !self.test;
        } else if str_eq(input, "6") {
            self.docs = !self.docs;
        } else if str_eq(input, "7") {
            self.fix_all = !self.fix_all;
        } else {
            return false;
        }
        true
    }

    /// The options as they are shown after a choice.
    pub fn status(&self) -> (text: String)
        ensures
            text@ == options_shown(*self),
    {
        let mut out: Vec<char> = Vec::new();
        push_str(&mut out, "\n현재 선택:\n");
        push_str(&mut out, "1. [");
        push_tick(&mut out, self.analyze);
        push_str(&mut out, "] 코드 분석\n");
        push_str(&mut out, "2. [");
        push_tick(&mut out, self.refactor);
        push_str(&mut out, "] 리팩토링 제안\n");
        push_str(&mut out, "3. [");
        push_tick(&mut out, self.optimize);
        push_str(&mut out, "] 성능 최적화\n");
        let ghost first = "\n현재 선택:\n"@ + "1. ["@ + tick(self.analyze) + "] 코드 분석\n"@
            + "2. ["@ + tick(self.refactor) + "] 리팩토링 제안\n"@ + "3. ["@ + tick(self.optimize)
            + "] 성능 최적화\n"@;
        proof {
            assert(out@ =~= first);
        }
        push_str(&mut out, "4. [");
        push_tick(&mut out, self.security);
        push_str(&mut out, "] 보안 검사\n");
        push_str(&mut out, "5. [");
        push_tick(&mut out, self.test);
        push_str(&mut out, "] 테스트 생성\n");
        let ghost second = first + "4. ["@ + tick(self.security) + "] 보안 검사\n"@ + "5. ["@
            + tick(self.test) + "] 테스트 생성\n"@;
        proof {
            assert(out@ =~= second);
        }
        push_str(&mut out, "6. [");
        push_tick(&mut out, self.docs);
        push_str(&mut out, "] 문서화\n");
        push_str(&mut out, "7. [");
        push_tick(&mut out, self.fix_all);
        push_str(&mut out, "] 자동 수정\n");
        proof {
            assert(out@ =~= second + "6. ["@ + tick(self.docs) + "] 문서화\n"@ + "7. ["@ + tick(
                self.fix_all,
            ) + "] 자동 수정\n"@);
            assert(options_shown(*self) =~= second + "6. ["@ + tick(self.docs) + "] 문서화\n"@
                + "7. ["@ + tick(self.fix_all) + "] 자동 수정\n"@);
        }
        string_of(&out)
    }
}

/// A step of the analysis of a file.
#[derive(Debug, Clone, Copy, PartialEq, Eq, Structural)]
pub enum AnalysisStep {
    /// Assess the quality of the code.
    Quality,
    /// Ask for a refactoring; the code in the answer becomes a proposed
    /// change of the file.
    Refactoring,
    /// Ask for optimisations; the code in the answer becomes a proposed
    /// change of the file.
    Performance,
    /// Check for security weaknesses.
    Security,
    /// Ask for tests; the code in the answer becomes a proposed new file.
    Tests,
    /// Ask for documentation.
    Documentation,
}

/// The steps that the options ask for, in the order in which they are
/// taken.
pub open spec fn steps_for(options: CodeAssistantOptions) -> Seq<AnalysisStep> {
    let one = |on: bool, step: AnalysisStep|
        if on {
            seq![step]
        } else {
            Seq::<AnalysisStep>::empty()
        };
    one(options.analyze, AnalysisStep::Quality) + one(options.refactor, AnalysisStep::Refactoring)
        + one(options.optimize, AnalysisStep::Performance) + one(
        options.security,
        AnalysisStep::Security,
    ) + one(options.test, AnalysisStep::Tests) + one(options.docs, AnalysisStep::Documentation)
}

/// The steps of the analysis of a file that the options ask for.
pub fn analyze_file_interactive(options: &CodeAssistantOptions) -> (steps: Vec<AnalysisStep>)
    ensures
        steps@ == steps_for(*options),
{
    let mut steps: Vec<AnalysisStep> = Vec::new();
    if options.analyze {
        steps.push(AnalysisStep::Quality);
    }
    if options.refactor {
        steps.push(AnalysisStep::Refactoring);
    }
    if options.optimize {
        steps.push(AnalysisStep::Performance);
    }
    if options.security {
        steps.push(AnalysisStep::Security);
    }
    if options.test {
        steps.push(AnalysisStep::Tests);
    }
    if options.docs {
        steps.push(AnalysisStep::Documentation);
    }
    proof {
        assert(steps@ =~= steps_for(*options));
    }
    steps
}

/// What the path given to the code assistant is.
#[derive(Debug, Clone, Copy, PartialEq, Eq, Structural)]
pub enum AssistTarget {
    /// The whole project in the current directory.
    Project,
    /// A single file.
    File,
    /// A directory.
    Directory,
    /// Nothing that can be analysed.
    Invalid,
}

/// What a path is to the code assistant: the project if it is a single dot,
/// else a file or a directory as the file system has it.
pub fn run_code_assistant_interactive(path: &str, is_file: bool, is_dir: bool) -> (target:
    AssistTarget)
    ensures
        target == if path@ == "."@ {
            AssistTarget::Project
        } else if is_file {
            AssistTarget::File
        } else if is_dir {
            AssistTarget::Directory
        } else {
            AssistTarget::Invalid
        },
{
    if str_eq(path, ".") {
        AssistTarget::Project
    } else if is_file {
        AssistTarget::File
    } else if is_dir {
        AssistTarget::Directory
    } else {
        AssistTarget::Invalid
    }
}

/// The request for an assessment of the quality of code.
pub open spec fn code_quality_request(extension: Seq<char>, content: Seq<char>) -> Seq<char> {
    "다음 "@
        + extension
        + " 코드의 품질을 분석해주세요. 다음 관점에서 평가해주세요:\n1. 코드 가독성과 명확성\n2. 변수/함수 네이밍\n3. 코드 구조와 조직화\n4. 복잡도\n5. 주석의 적절성\n6. 에러 처리\n\n코드:\n```"@
        + extension
        + "\n"@
        + content
        + "\n```"@
}

/// Asks for an assessment of the quality of `content`, code in the language of `extension`.
pub fn code_quality_prompt(extension: &str, content: &str) -> (prompt: String)
    ensures
        prompt@ == code_quality_request(extension@, content@),
{
    let mut out: Vec<char> = Vec::new();
    push_str(&mut out, "다음 ");
    push_str(&mut out, extension);
    push_str(&mut out, " 코드의 품질을 분석해주세요. 다음 관점에서 평가해주세요:\n1. 코드 가독성과 명확성\n2. 변수/함수 네이밍\n3. 코드 구조와 조직화\n4. 복잡도\n5. 주석의 적절성\n6. 에러 처리\n\n코드:\n```");
    push_str(&mut out, extension);
    push_str(&mut out, "\n");
    push_str(&mut out, content);
    push_str(&mut out, "\n```");
    proof {
        assert(out@ =~= code_quality_request(extension@, content@));
    }
    string_of(&out)
}

/// The request for a refactoring of code.
pub open spec fn refactoring_request(extension: Seq<char>, content: Seq<char>) -> Seq<char> {
    "다음 "@
        + extension
        + " 코드를 리팩토링해주세요. 다음을 개선해주세요:\n1. 중복 코드 제거\n2. 함수/메서드 분리\n3. 더 나은 추상화\n4. SOLID 원칙 적용\n5. 디자인 패턴 적용\n\n먼저 개선점을 설명하고, 그 다음 전체 리팩토링된 코드를 제공해주세요.\n\n코드:\n```"@
        + extension
        + "\n"@
        + content
        + "\n```"@
}

/// Asks for a refactoring of `content`: first what is improved, then the whole code.
pub fn refactoring_prompt(extension: &str, content: &str) -> (prompt: String)
    ensures
        prompt@ == refactoring_request(extension@, content@),
{
    let mut out: Vec<char> = Vec::new();
    push_str(&mut out, "다음 ");
    push_str(&mut out, extension);
    push_str(&mut out, " 코드를 리팩토링해주세요. 다음을 개선해주세요:\n1. 중복 코드 제거\n2. 함수/메서드 분리\n3. 더 나은 추상화\n4. SOLID 원칙 적용\n5. 디자인 패턴 적용\n\n먼저 개선점을 설명하고, 그 다음 전체 리팩토링된 코드를 제공해주세요.\n\n코드:\n```");
    push_str(&mut out, extension);
    push_str(&mut out, "\n");
    push_str(&mut out, content);
    push_str(&mut out, "\n```");
    proof {
        assert(out@ =~= refactoring_request(extension@, content@));
    }
    string_of(&out)
}

/// The request for an analysis of the performance of code.
pub open spec fn performance_request(extension: Seq<char>, content: Seq<char>) -> Seq<char> {
    "다음 "@
        + extension
        + " 코드의 성능을 분석하고 최적화해주세요:\n1. 시간 복잡도 분석\n2. 공간 복잡도 분석\n3. 불필요한 연산 찾기\n4. 캐싱 기회\n5. 병렬 처리 가능성\n6. 메모리 사용 최적화\n\n분석 결과와 최적화된 코드를 제공해주세요.\n\n코드:\n```"@
        + extension
        + "\n"@
        + content
        + "\n```"@
}

/// Asks for an analysis of the performance of `content` and for optimised code.
pub fn performance_prompt(extension: &str, content: &str) -> (prompt: String)
    ensures
        prompt@ == performance_request(extension@, content@),
{
    let mut out: Vec<char> = Vec::new();
    push_str(&mut out, "다음 ");
    push_str(&mut out, extension);
    push_str(&mut out, " 코드의 성능을 분석하고 최적화해주세요:\n1. 시간 복잡도 분석\n2. 공간 복잡도 분석\n3. 불필요한 연산 찾기\n4. 캐싱 기회\n5. 병렬 처리 가능성\n6. 메모리 사용 최적화\n\n분석 결과와 최적화된 코드를 제공해주세요.\n\n코드:\n```");
    push_str(&mut out, extension);
    push_str(&mut out, "\n");
    push_str(&mut out, content);
    push_str(&mut out, "\n```");
    proof {
        assert(out@ =~= performance_request(extension@, content@));
    }
    string_of(&out)
}

/// The request for a security check of code.
pub open spec fn security_request(extension: Seq<char>, content: Seq<char>) -> Seq<char> {
    "다음 "@
        + extension
        + " 코드의 보안 취약점을 검사해주세요:\n1. SQL 인젝션\n2. XSS 취약점\n3. 인증/인가 문제\n4. 민감한 정보 노출\n5. 안전하지 않은 함수 사용\n6. 입력 검증 부족\n7. 암호화 문제\n\n발견된 취약점과 수정 방법을 설명해주세요.\n\n코드:\n```"@
        + extension
        + "\n"@
        + content
        + "\n```"@
}

/// Asks for a check of `content` for security weaknesses.
pub fn security_prompt(extension: &str, content: &str) -> (prompt: String)
    ensures
        prompt@ == security_request(extension@, content@),
{
    let mut out: Vec<char> = Vec::new();
    push_str(&mut out, "다음 ");
    push_str(&mut out, extension);
    push_str(&mut out, " 코드의 보안 취약점을 검사해주세요:\n1. SQL 인젝션\n2. XSS 취약점\n3. 인증/인가 문제\n4. 민감한 정보 노출\n5. 안전하지 않은 함수 사용\n6. 입력 검증 부족\n7. 암호화 문제\n\n발견된 취약점과 수정 방법을 설명해주세요.\n\n코드:\n```");
    push_str(&mut out, extension);
    push_str(&mut out, "\n");
    push_str(&mut out, content);
    push_str(&mut out, "\n```");
    proof {
        assert(out@ =~= security_request(extension@, content@));
    }
    string_of(&out)
}

/// The request for unit tests of code.
pub open spec fn tests_request(extension: Seq<char>, file_path: Seq<char>, content: Seq<char>) -> Seq<char> {
    "다음 "@
        + extension
        + " 코드에 대한 단위 테스트를 생성해주세요:\n1. 정상 케이스 테스트\n2. 엣지 케이스 테스트\n3. 에러 케이스 테스트\n4. 성능 테스트 (필요시)\n\n파일명: "@
        + file_path
        + "\n코드:\n```"@
        + extension
        + "\n"@
        + content
        + "\n```\n\n테스트 코드만 제공해주세요."@
}

/// Asks for unit tests of `content`, the code of the file at `file_path`.
pub fn tests_prompt(extension: &str, file_path: &str, content: &str) -> (prompt: String)
    ensures
        prompt@ == tests_request(extension@, file_path@, content@),
{
    let mut out: Vec<char> = Vec::new();
    push_str(&mut out, "다음 ");
    push_str(&mut out, extension);
    push_str(&mut out, " 코드에 대한 단위 테스트를 생성해주세요:\n1. 정상 케이스 테스트\n2. 엣지 케이스 테스트\n3. 에러 케이스 테스트\n4. 성능 테스트 (필요시)\n\n파일명: ");
    push_str(&mut out, file_path);
    push_str(&mut out, "\n코드:\n```");
    push_str(&mut out, extension);
    push_str(&mut out, "\n");
    push_str(&mut out, content);
    push_str(&mut out, "\n```\n\n테스트 코드만 제공해주세요.");
    proof {
        assert(out@ =~= tests_request(extension@, file_path@, content@));
    }
    string_of(&out)
}

/// The request for documentation of code.
pub open spec fn documentation_request(extension: Seq<char>, content: Seq<char>) -> Seq<char> {
    "다음 "@
        + extension
        + " 코드에 대한 문서를 생성해주세요:\n1. 파일/모듈 개요\n2. 주요 함수/클래스 설명\n3. 파라미터와 반환값\n4. 사용 예제\n5. 주의사항\n\n코드:\n```"@
        + extension
        + "\n"@
        + content
        + "\n```"@
}

/// Asks for documentation of `content`.
pub fn documentation_prompt(extension: &str, content: &str) -> (prompt: String)
    ensures
        prompt@ == documentation_request(extension@, content@),
{
    let mut out: Vec<char> = Vec::new();
    push_str(&mut out, "다음 ");
    push_str(&mut out, extension);
    push_str(&mut out, " 코드에 대한 문서를 생성해주세요:\n1. 파일/모듈 개요\n2. 주요 함수/클래스 설명\n3. 파라미터와 반환값\n4. 사용 예제\n5. 주의사항\n\n코드:\n```");
    push_str(&mut out, extension);
    push_str(&mut out, "\n");
    push_str(&mut out, content);
    push_str(&mut out, "\n```");
    proof {
        assert(out@ =~= documentation_request(extension@, content@));
    }
    string_of(&out)
}

/// The request for an analysis of a project.
pub open spec fn project_review_request(project_type: Seq<char>, project_summary: Seq<char>) -> Seq<char> {
    "다음 "@
        + project_type
        + " 프로젝트의 실제 구조와 코드를 분석하고 구체적인 개선점을 제안해주세요:\n\n"@
        + project_summary
        + "\n\n구체적으로 다음을 분석해주세요:\n1. 현재 프로젝트 구조의 장단점\n2. 모듈 구성과 관심사 분리\n3. 코드 품질과 일관성\n4. 확장성과 유지보수성\n5. 성능 최적화 기회\n6. 보안 고려사항\n7. 테스트 커버리지\n8. 문서화 수준\n\n위 코드 샘플과 구조를 참고하여 구체적이고 실행 가능한 제안을 해주세요."@
}

/// Asks for an analysis of a project of kind `project_type`, given the summary of its structure and code.
pub fn project_review_prompt(project_type: &str, project_summary: &str) -> (prompt: String)
    ensures
        prompt@ == project_review_request(project_type@, project_summary@),
{
    let mut out: Vec<char> = Vec::new();
    push_str(&mut out, "다음 ");
    push_str(&mut out, project_type);
    push_str(&mut out, " 프로젝트의 실제 구조와 코드를 분석하고 구체적인 개선점을 제안해주세요:\n\n");
    push_str(&mut out, project_summary);
    push_str(&mut out, "\n\n구체적으로 다음을 분석해주세요:\n1. 현재 프로젝트 구조의 장단점\n2. 모듈 구성과 관심사 분리\n3. 코드 품질과 일관성\n4. 확장성과 유지보수성\n5. 성능 최적화 기회\n6. 보안 고려사항\n7. 테스트 커버리지\n8. 문서화 수준\n\n위 코드 샘플과 구조를 참고하여 구체적이고 실행 가능한 제안을 해주세요.");
    proof {
        assert(out@ =~= project_review_request(project_type@, project_summary@));
    }
    string_of(&out)
}

/// The request for an analysis of dependencies.
pub open spec fn dependency_review_request(deps_info: Seq<char>) -> Seq<char> {
    "다음 프로젝트 의존성을 분석하고 다음을 확인해주세요:\n1. 오래된 패키지\n2. 보안 취약점이 있는 패키지\n3. 불필요한 의존성\n4. 버전 충돌 가능성\n\n"@
        + deps_info
}

/// Asks for an analysis of the dependencies listed in `deps_info`.
pub fn dependency_review_prompt(deps_info: &str) -> (prompt: String)
    ensures
        prompt@ == dependency_review_request(deps_info@),
{
    let mut out: Vec<char> = Vec::new();
    push_str(&mut out, "다음 프로젝트 의존성을 분석하고 다음을 확인해주세요:\n1. 오래된 패키지\n2. 보안 취약점이 있는 패키지\n3. 불필요한 의존성\n4. 버전 충돌 가능성\n\n");
    push_str(&mut out, deps_info);
    proof {
        assert(out@ =~= dependency_review_request(deps_info@));
    }
    string_of(&out)
}

/// The request for advice on complex files.
pub open spec fn complex_files_request(files: Seq<char>) -> Seq<char> {
    "다음 복잡한 파일들을 리팩토링하는 방법을 제안해주세요:\n\n"@
        + files
        + "\n\n각 파일에 대해:\n1. 함수 분리 방법\n2. 모듈화 전략\n3. 코드 단순화 방안"@
}

/// Asks how to refactor the complex files listed in `files`.
pub fn complex_files_prompt(files: &str) -> (prompt: String)
    ensures
        prompt@ == complex_files_request(files@),
{
    let mut out: Vec<char> = Vec::new();
    push_str(&mut out, "다음 복잡한 파일들을 리팩토링하는 방법을 제안해주세요:\n\n");
    push_str(&mut out, files);
    push_str(&mut out, "\n\n각 파일에 대해:\n1. 함수 분리 방법\n2. 모듈화 전략\n3. 코드 단순화 방안");
    proof {
        assert(out@ =~= complex_files_request(files@));
    }
    string_of(&out)
}

/// The explanation in an answer that holds code: what stands before the
/// first fence, trimmed; the whole answer when it holds no fence.
pub open spec fn explanation_of(response: Seq<char>) -> Seq<char> {
    match find(response, fence()) {
        Some(start) => trim(response.take(start)),
        None => response,
    }
}

/// The code in an answer: what `extracted_code` finds from the first fence
/// on; nothing when the answer holds no fence.
pub open spec fn code_of(response: Seq<char>, extension: Seq<char>) -> Seq<char> {
    match find(response, fence()) {
        Some(start) => extracted_code(response.skip(start), extension),
        None => Seq::<char>::empty(),
    }
}

/// Splits an answer into its explanation and its code.
pub fn split_suggestion(response: &str, extension: &str) -> (parts: (String, String))
    ensures
        parts.0@ == explanation_of(response@),
        parts.1@ == code_of(response@, extension@),
{
    let chars = chars_of(response);
    let marker = chars_of("```");
    proof {
        reveal_strlit("```");
        assert(marker@ =~= fence());
    }
    match find_in(&chars, &marker, 0) {
        Some(start) => {
            let (a, b) = trim_bounds(&chars, 0, start);
            let explanation = subvec(&chars, a, b);
            let rest = subvec(&chars, start, chars.len());
            proof {
                assert(chars@.subrange(0, start as int) =~= response@.take(start as int));
                assert(rest@ =~= response@.skip(start as int));
            }
            let rest_text = string_of(&rest);
            (string_of(&explanation), extract_code_block(rest_text.as_str(), extension))
        },
        None => (response.to_owned(), String::new()),
    }
}

/// The path of the file that receives the tests for a file: the path
/// without its extension, `_test.`, and the extension.
pub open spec fn test_path(file_path: Seq<char>, extension: Seq<char>) -> Seq<char> {
    without_suffix(file_path, "."@ + extension) + "_test."@ + extension
}

/// The path of the file that receives the tests for the file at
/// `file_path`.
pub fn test_file_path(file_path: &str, extension: &str) -> (path: String)
    ensures
        path@ == test_path(file_path@, extension@),
{
    let chars = chars_of(file_path);
    let mut suffix: Vec<char> = Vec::new();
    push_str(&mut suffix, ".");
    push_str(&mut suffix, extension);
    proof {
        assert(suffix@ =~= "."@ + extension@);
    }
    let kept = suffix_stripped_len(&chars, &suffix);
    let mut out = subvec(&chars, 0, kept);
    push_str(&mut out, "_test.");
    push_str(&mut out, extension);
    proof {
        assert(chars@.subrange(0, kept as int) =~= chars@.take(kept as int));
        assert(out@ =~= test_path(file_path@, extension@));
    }
    string_of(&out)
}

/// A change proposed for a file.
pub fn suggested_change(path: &str, original: &str, new: String, description: &str) -> (change:
    FileChange)
    ensures
        change@ == (FileChangeView {
            path: path@,
            original_content: original@,
            new_content: new@,
            description: description@,
        }),
{
    FileChange {
        path: path.to_owned(),
        original_content: original.to_owned(),
        new_content: new,
        description: description.to_owned(),
    }
}

/// The kind of a project, by the files found at its root.
pub open spec fn project_kind(
    cargo_toml: bool,
    package_json: bool,
    requirements_txt: bool,
    setup_py: bool,
    go_mod: bool,
    pom_xml: bool,
    build_gradle: bool,
) -> Seq<char> {
    if cargo_toml {
        "Rust"@
    } else if package_json {
        "Node.js/JavaScript"@
    } else if requirements_txt || setup_py {
        "Python"@
    } else if go_mod {
        "Go"@
    } else if pom_xml {
        "Java (Maven)"@
    } else if build_gradle {
        "Java (Gradle)"@
    } else {
        "Unknown"@
    }
}

/// The kind of a project. Each argument says whether the file it names
/// exists at the root of the project.
pub fn detect_project_type(
    cargo_toml: bool,
    package_json: bool,
    requirements_txt: bool,
    setup_py: bool,
    go_mod: bool,
    pom_xml: bool,
    build_gradle: bool,
) -> (kind: &'static str)
    ensures
        kind@ == project_kind(
            cargo_toml,
            package_json,
            requirements_txt,
            setup_py,
            go_mod,
            pom_xml,
            build_gradle,
        ),
{
    if cargo_toml {
        "Rust"
    } else if package_json {
        "Node.js/JavaScript"
    } else if requirements_txt || setup_py {
        "Python"
    } else if go_mod {
        "Go"
    } else if pom_xml {
        "Java (Maven)"
    } else if build_gradle {
        "Java (Gradle)"
    } else {
        "Unknown"
    }
}

/// Whether a directory of this name is skipped when a project is surveyed.
pub open spec fn skipped_dir(name: Seq<char>) -> bool {
    name == ".git"@ || name == "target"@ || name == "node_modules"@ || name == ".venv"@ || name
        == "venv"@ || name == "__pycache__"@ || name == "dist"@ || name == "build"@ || name
        == ".idea"@ || name == ".vscode"@
}

fn is_skipped_dir(name: &str) -> (b: bool)
    ensures
        b == skipped_dir(name@),
{
    str_eq(name, ".git") || str_eq(name, "target") || str_eq(name, "node_modules") || str_eq(
        name,
        ".venv",
    ) || str_eq(name, "venv") || str_eq(name, "__pycache__") || str_eq(name, "dist") || str_eq(
        name,
        "build",
    ) || str_eq(name, ".idea") || str_eq(name, ".vscode")
}

/// Whether a path is skipped when a project is surveyed: whether one of its
/// components is a directory that is skipped.
pub fn should_ignore_path(components: &Vec<String>) -> (b: bool)
    ensures
        b == exists|i: int| 0 <= i < components@.len() && skipped_dir(#[trigger] components@[i]@),
{
    let mut i: usize = 0;
    while i < components.len()
        invariant
            i <= components.len(),
            forall|k: int| 0 <= k < i ==> !skipped_dir(#[trigger] components@[k]@),
        decreases components.len() - i,
    {
        if is_skipped_dir(components[i].as_str()) {
            return true;
        }
        i += 1;
    }
    false
}

/// Whether files with this extension are looked into when a project is
/// surveyed.
pub open spec fn surveyed_extension(ext: Seq<char>) -> bool {
    ext == "rs"@ || ext == "js"@ || ext == "ts"@ || ext == "py"@ || ext == "go"@ || ext
        == "java"@
}

/// Whether files with this extension are looked into when a project is
/// surveyed.
pub fn is_surveyed_extension(ext: &str) -> (b: bool)
    ensures
        b == surveyed_extension(ext@),
{
    str_eq(ext, "rs") || str_eq(ext, "js") || str_eq(ext, "ts") || str_eq(ext, "py") || str_eq(
        ext,
        "go",
    ) || str_eq(ext, "java")
}

/// The number of what looks like functions in code of a language: the
/// occurrences of the words that introduce one.
pub open spec fn function_count(content: Seq<char>, extension: Seq<char>) -> nat {
    if extension == "rs"@ {
        count_matches(content, "fn "@)
    } else if extension == "js"@ || extension == "ts"@ {
        count_matches(content, "function"@) + count_matches(content, "=>"@)
    } else if extension == "py"@ {
        count_matches(content, "def "@)
    } else if extension == "go"@ {
        count_matches(content, "func "@)
    } else if extension == "java"@ {
        count_matches(content, "public "@) + count_matches(content, "private "@)
    } else {
        0
    }
}

fn count_word(content: &Vec<char>, word: &str) -> (n: usize)
    requires
        word@.len() > 0,
    ensures
        n == count_matches(content@, word@),
        n * word@.len() <= content@.len(),
{
    let w = chars_of(word);
    proof {
        crate::text::lemma_count_weight(content@, word@, 0);
    }
    count_in(content, &w)
}

/// The number of what looks like functions in `content`.
pub fn count_functions(content: &str, extension: &str) -> (n: usize)
    ensures
        n == function_count(content@, extension@),
{
    let chars = chars_of(content);
    let size = chars.len();
    proof {
        reveal_strlit("fn ");
        reveal_strlit("function");
        reveal_strlit("=>");
        reveal_strlit("def ");
        reveal_strlit("func ");
        reveal_strlit("public ");
        reveal_strlit("private ");
    }
    if str_eq(extension, "rs") {
        count_word(&chars, "fn ")
    } else if str_eq(extension, "js") || str_eq(extension, "ts") {
        let a = count_word(&chars, "function");
        let b = count_word(&chars, "=>");
        proof {
            assert(a + b <= size) by (nonlinear_arith)
                requires
                    a * 8 <= size,
                    b * 2 <= size,
            ;
        }
        a + b
    } else if str_eq(extension, "py") {
        count_word(&chars, "def ")
    } else if str_eq(extension, "go") {
        count_word(&chars, "func ")
    } else if str_eq(extension, "java") {
        let a = count_word(&chars, "public ");
        let b = count_word(&chars, "private ");
        proof {
            assert(a + b <= size) by (nonlinear_arith)
                requires
                    a * 7 <= size,
                    b * 8 <= size,
            ;
        }
        a + b
    } else {
        0
    }
}

/// Whether a file with so many lines and functions counts as complex.
pub open spec fn counts_as_complex(lines: nat, functions: nat) -> bool {
    lines > 300 || functions > 10
}

/// The entry of a complex file in the list of complex files.
pub open spec fn complex_entry(path: Seq<char>, lines: nat, functions: nat) -> Seq<char> {
    path + ": "@ + decimal(lines) + " 줄, "@ + decimal(functions) + " 함수"@
}

/// The entry of a file in the list of complex files, if the file counts as
/// complex.
pub fn analyze_code_complexity(path: &str, lines: usize, functions: usize) -> (entry: Option<
    String,
>)
    ensures
        match entry {
            Some(e) => counts_as_complex(lines as nat, functions as nat) && e@ == complex_entry(
                path@,
                lines as nat,
                functions as nat,
            ),
            None => !counts_as_complex(lines as nat, functions as nat),
        },
{
    if lines > 300 || functions > 10 {
        let mut out: Vec<char> = Vec::new();
        push_str(&mut out, path);
        push_str(&mut out, ": ");
        let l = decimal_of(lines as u64);
        push_all(&mut out, &l);
        push_str(&mut out, " 줄, ");
        let f = decimal_of(functions as u64);
        push_all(&mut out, &f);
        push_str(&mut out, " 함수");
        proof {
            assert(out@ =~= complex_entry(path@, lines as nat, functions as nat));
        }
        Some(string_of(&out))
    } else {
        None
    }
}

/// The list of dependency files of a project as it is handed to the model:
/// each file that exists under its heading.
pub open spec fn dependency_files(
    cargo_toml: Option<Seq<char>>,
    package_json: Option<Seq<char>>,
    requirements_txt: Option<Seq<char>>,
) -> Seq<char> {
    let cargo = match cargo_toml {
        Some(c) => "Rust 의존성 (Cargo.toml):\n"@ + c,
        None => Seq::<char>::empty(),
    };
    let node = match package_json {
        Some(c) => "\nNode.js 의존성 (package.json):\n"@ + c,
        None => Seq::<char>::empty(),
    };
    let python = match requirements_txt {
        Some(c) => "\nPython 의존성 (requirements.txt):\n"@ + c,
        None => Seq::<char>::empty(),
    };
    cargo + node + python
}

/// The text of a file that may be missing.
pub open spec fn text_view(text: Option<&str>) -> Option<Seq<char>> {
    match text {
        Some(t) => Some(t@),
        None => None,
    }
}

/// The question on the dependencies of a project, given the contents of
/// its dependency files as far as they exist; `None` where none exists or
/// all are empty.
pub fn analyze_dependencies(
    cargo_toml: Option<&str>,
    package_json: Option<&str>,
    requirements_txt: Option<&str>,
) -> (prompt: Option<String>)
    ensures
        ({
            let files = dependency_files(
                text_view(cargo_toml),
                text_view(package_json),
                text_view(requirements_txt),
            );
            match prompt {
                Some(p) => files.len() > 0 && p@ == dependency_review_request(files),
                None => files.len() == 0,
            }
        }),
{
    let mut info: Vec<char> = Vec::new();
    match cargo_toml {
        Some(c) => {
            push_str(&mut info, "Rust 의존성 (Cargo.toml):\n");
            push_str(&mut info, c);
        },
        None => {},
    }
    match package_json {
        Some(c) => {
            push_str(&mut info, "\nNode.js 의존성 (package.json):\n");
            push_str(&mut info, c);
        },
        None => {},
    }
    match requirements_txt {
        Some(c) => {
            push_str(&mut info, "\nPython 의존성 (requirements.txt):\n");
            push_str(&mut info, c);
        },
        None => {},
    }
    proof {
        assert(info@ =~= dependency_files(
            text_view(cargo_toml),
            text_view(package_json),
            text_view(requirements_txt),
        ));
    }
    if info.len() > 0 {
        let text = string_of(&info);
        Some(dependency_review_prompt(text.as_str()))
    } else {
        None
    }
}

/// What is done after the analysis of a project.
#[derive(Debug, Clone, Copy, PartialEq, Eq, Structural)]
pub enum FollowUp {
    /// Look into one directory.
    Directory,
    /// Analyse the dependencies.
    Dependencies,
    /// Analyse the complexity of the code.
    Complexity,
    /// Nothing more.
    Done,
}

/// What the answer to the menu after the analysis of a project asks for.
pub fn follow_up(input: &str) -> (choice: FollowUp)
    ensures
        choice == if trim(input@) == "1"@ {
            FollowUp::Directory
        } else if trim(input@) == "2"@ {
            FollowUp::Dependencies
        } else if trim(input@) == "3"@ {
            FollowUp::Complexity
        } else {
            FollowUp::Done
        },
{
    let chars = chars_of(input);
    let t = string_of(&crate::text::trimmed(&chars));
    if str_eq(t.as_str(), "1") {
        FollowUp::Directory
    } else if str_eq(t.as_str(), "2") {
        FollowUp::Dependencies
    } else if str_eq(t.as_str(), "3") {
        FollowUp::Complexity
    } else {
        FollowUp::Done
    }
}

} // verus!
