//! The questions that the assistant puts to the model.

use vstd::prelude::*;
use crate::text::{push_str, str_eq, string_of};

verus! {

/// The request for API documentation of `content`.
pub open spec fn api_doc_request(content: Seq<char>) -> Seq<char> {
    "다음 코드에 대한 API 문서를 작성해주세요:\n\n"@
        + content
        + "\n\n각 public 함수/메서드에 대해 설명, 매개변수, 반환값, 예제를 포함해주세요."@
}

/// Asks for API documentation of `content`.
pub fn api_doc_prompt(content: &str) -> (prompt: String)
    ensures
        prompt@ == api_doc_request(content@),
{
    let mut out: Vec<char> = Vec::new();
    push_str(&mut out, "다음 코드에 대한 API 문서를 작성해주세요:\n\n");
    push_str(&mut out, content);
    push_str(&mut out, "\n\n각 public 함수/메서드에 대해 설명, 매개변수, 반환값, 예제를 포함해주세요.");
    proof {
        assert(out@ =~= api_doc_request(content@));
    }
    string_of(&out)
}

/// The request for a README of `content`.
pub open spec fn readme_request(content: Seq<char>) -> Seq<char> {
    "다음 프로젝트/코드에 대한 README.md를 작성해주세요:\n\n"@
        + content
        + "\n\n프로젝트 설명, 설치 방법, 사용법, 예제를 포함해주세요."@
}

/// Asks for a README of `content`.
pub fn readme_prompt(content: &str) -> (prompt: String)
    ensures
        prompt@ == readme_request(content@),
{
    let mut out: Vec<char> = Vec::new();
    push_str(&mut out, "다음 프로젝트/코드에 대한 README.md를 작성해주세요:\n\n");
    push_str(&mut out, content);
    push_str(&mut out, "\n\n프로젝트 설명, 설치 방법, 사용법, 예제를 포함해주세요.");
    proof {
        assert(out@ =~= readme_request(content@));
    }
    string_of(&out)
}

/// The request for a tutorial on `content`.
pub open spec fn tutorial_request(content: Seq<char>) -> Seq<char> {
    "다음 코드를 사용하는 방법에 대한 튜토리얼을 작성해주세요:\n\n"@
        + content
        + "\n\n단계별 설명과 실제 사용 예제를 포함해주세요."@
}

/// Asks for a tutorial on `content`.
pub fn tutorial_prompt(content: &str) -> (prompt: String)
    ensures
        prompt@ == tutorial_request(content@),
{
    let mut out: Vec<char> = Vec::new();
    push_str(&mut out, "다음 코드를 사용하는 방법에 대한 튜토리얼을 작성해주세요:\n\n");
    push_str(&mut out, content);
    push_str(&mut out, "\n\n단계별 설명과 실제 사용 예제를 포함해주세요.");
    proof {
        assert(out@ =~= tutorial_request(content@));
    }
    string_of(&out)
}

/// The request for a document of kind `doc_type` on `content`.
pub open spec fn other_doc_request(doc_type: Seq<char>, content: Seq<char>) -> Seq<char> {
    "다음에 대한 "@
        + doc_type
        + " 문서를 작성해주세요:\n\n"@
        + content
}

/// Asks for a document of kind `doc_type` on `content`.
pub fn other_doc_prompt(doc_type: &str, content: &str) -> (prompt: String)
    ensures
        prompt@ == other_doc_request(doc_type@, content@),
{
    let mut out: Vec<char> = Vec::new();
    push_str(&mut out, "다음에 대한 ");
    push_str(&mut out, doc_type);
    push_str(&mut out, " 문서를 작성해주세요:\n\n");
    push_str(&mut out, content);
    proof {
        assert(out@ =~= other_doc_request(doc_type@, content@));
    }
    string_of(&out)
}

/// The request for documentation of `content`: for an API reference, a
/// README or a tutorial the request made for it, for any other kind of
/// document a general one.
pub open spec fn doc_request(content: Seq<char>, doc_type: Seq<char>) -> Seq<char> {
    if doc_type == "api"@ {
        api_doc_request(content)
    } else if doc_type == "readme"@ {
        readme_request(content)
    } else if doc_type == "tutorial"@ {
        tutorial_request(content)
    } else {
        other_doc_request(doc_type, content)
    }
}

/// Asks for documentation of kind `doc_type` on `content`, which is the
/// text of the file to document or, where there is no such file, the
/// subject itself.
pub fn build_doc_prompt(content: &str, doc_type: &str) -> (prompt: String)
    ensures
        prompt@ == doc_request(content@, doc_type@),
{
    if str_eq(doc_type, "api") {
        api_doc_prompt(content)
    } else if str_eq(doc_type, "readme") {
        readme_prompt(content)
    } else if str_eq(doc_type, "tutorial") {
        tutorial_prompt(content)
    } else {
        other_doc_prompt(doc_type, content)
    }
}

/// The request for the key facts of the project at `path`.
pub open spec fn project_analysis_request(path: Seq<char>) -> Seq<char> {
    "다음 프로젝트 구조를 분석하고 주요 정보를 추출해주세요:\n"@
        + path
        + "\n\nJSON 형식으로 응답해주세요: {\"name\": \"\", \"language\": \"\", \"framework\": \"\", \"dependencies\": [], \"structure\": \"\"}"@
}

/// Asks for the key facts of the project at `path`, to be answered in JSON.
pub fn project_analysis_prompt(path: &str) -> (prompt: String)
    ensures
        prompt@ == project_analysis_request(path@),
{
    let mut out: Vec<char> = Vec::new();
    push_str(&mut out, "다음 프로젝트 구조를 분석하고 주요 정보를 추출해주세요:\n");
    push_str(&mut out, path);
    push_str(&mut out, "\n\nJSON 형식으로 응답해주세요: {\"name\": \"\", \"language\": \"\", \"framework\": \"\", \"dependencies\": [], \"structure\": \"\"}");
    proof {
        assert(out@ =~= project_analysis_request(path@));
    }
    string_of(&out)
}

/// The request for a review of `code` by `criteria`.
pub open spec fn review_request(criteria: Seq<char>, code: Seq<char>) -> Seq<char> {
    "다음 코드를 검토하고 "@
        + criteria
        + " 기준으로 평가해주세요:\n\n```\n"@
        + code
        + "\n```\n\nJSON 형식으로 응답해주세요:\n{\n\"overall_score\": 0-100,\n\"issues\": [\n{\n\"severity\": \"Critical|High|Medium|Low|Info\",\n\"category\": \"Security|Performance|Style|BestPractice|Bug|Documentation\",\n\"location\": \"파일:라인\",\n\"description\": \"문제 설명\",\n\"suggestion\": \"개선 방안\"\n}\n],\n\"suggestions\": [\"전반적인 개선 제안\"],\n\"positive_aspects\": [\"잘된 점\"]\n}"@
}

/// Asks for a review of `code` by `criteria`, to be answered in JSON.
pub fn review_prompt(criteria: &str, code: &str) -> (prompt: String)
    ensures
        prompt@ == review_request(criteria@, code@),
{
    let mut out: Vec<char> = Vec::new();
    push_str(&mut out, "다음 코드를 검토하고 ");
    push_str(&mut out, criteria);
    push_str(&mut out, " 기준으로 평가해주세요:\n\n```\n");
    push_str(&mut out, code);
    push_str(&mut out, "\n```\n\nJSON 형식으로 응답해주세요:\n{\n\"overall_score\": 0-100,\n\"issues\": [\n{\n\"severity\": \"Critical|High|Medium|Low|Info\",\n\"category\": \"Security|Performance|Style|BestPractice|Bug|Documentation\",\n\"location\": \"파일:라인\",\n\"description\": \"문제 설명\",\n\"suggestion\": \"개선 방안\"\n}\n],\n\"suggestions\": [\"전반적인 개선 제안\"],\n\"positive_aspects\": [\"잘된 점\"]\n}");
    proof {
        assert(out@ =~= review_request(criteria@, code@));
    }
    string_of(&out)
}

} // verus!
