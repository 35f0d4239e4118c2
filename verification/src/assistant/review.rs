//! Code reviews as the model returns them, laid out for reading.

use vstd::prelude::*;
use crate::api::{ChatRequest, OpenAIClient};
use crate::assistant::prompts::{review_prompt, review_request};
use crate::assistant::types::{IssueCategory, IssueSeverity, ReviewIssue};
use crate::text::{concat_all, lemma_concat_all_step, push_str, string_of, string_views};

verus! {

/// A code review.
#[derive(Debug)]
pub struct CodeReview {
    /// The overall score out of a hundred, as the model wrote it.
    pub overall_score: String,
    pub issues: Vec<ReviewIssue>,
    pub suggestions: Vec<String>,
    pub positive_aspects: Vec<String>,
}

/// A finding as plain text.
pub struct ReviewIssueView {
    pub severity: IssueSeverity,
    pub category: IssueCategory,
    pub location: Seq<char>,
    pub description: Seq<char>,
    pub suggestion: Option<Seq<char>>,
}

impl View for ReviewIssue {
    type V = ReviewIssueView;

    open spec fn view(&self) -> ReviewIssueView {
        ReviewIssueView {
            severity: self.severity,
            category: self.category,
            location: self.location@,
            description: self.description@,
            suggestion: match self.suggestion {
                Some(s) => Some(s@),
                None => None,
            },
        }
    }
}

/// The findings of `issues` as plain text.
pub open spec fn issue_views(issues: Seq<ReviewIssue>) -> Seq<ReviewIssueView> {
    issues.map_values(|i: ReviewIssue| i@)
}

/// The name of a severity.
pub open spec fn severity_name(severity: IssueSeverity) -> Seq<char> {
    match severity {
        IssueSeverity::Critical => "Critical"@,
        IssueSeverity::High => "High"@,
        IssueSeverity::Medium => "Medium"@,
        IssueSeverity::Low => "Low"@,
        IssueSeverity::Info => "Info"@,
    }
}

/// The sign that marks a severity.
pub open spec fn severity_icon(severity: IssueSeverity) -> Seq<char> {
    match severity {
        IssueSeverity::Critical => "🔴"@,
        IssueSeverity::High => "🟠"@,
        IssueSeverity::Medium => "🟡"@,
        IssueSeverity::Low => "🟢"@,
        IssueSeverity::Info => "ℹ️"@,
    }
}

/// The name of a category.
pub open spec fn category_name(category: IssueCategory) -> Seq<char> {
    match category {
        IssueCategory::Security => "Security"@,
        IssueCategory::Performance => "Performance"@,
        IssueCategory::Style => "Style"@,
        IssueCategory::BestPractice => "BestPractice"@,
        IssueCategory::Bug => "Bug"@,
        IssueCategory::Documentation => "Documentation"@,
    }
}

/// A list with a dash in front of each item, one item on a line.
pub open spec fn bullet_list(items: Seq<Seq<char>>) -> Seq<char> {
    concat_all(items.map_values(|s: Seq<char>| "- "@ + s + "\n"@))
}

/// A finding as a section: sign, severity and category in the heading, then
/// the place, the description and, if there is one, the suggestion.
pub open spec fn issue_section(issue: ReviewIssueView) -> Seq<char> {
    "### "@ + severity_icon(issue.severity) + " "@ + severity_name(issue.severity) + " - "@
        + category_name(issue.category) + "\n\n"@ + "**위치**: "@ + issue.location + "\n\n"@
        + issue.description + "\n\n"@ + match issue.suggestion {
        Some(s) => "**제안**: "@ + s + "\n\n"@,
        None => Seq::<char>::empty(),
    }
}

/// A review as Markdown: the score, then what is good, what was found, and
/// what is suggested, each part only if it has something to say.
pub open spec fn review_markdown(
    score: Seq<char>,
    positive: Seq<Seq<char>>,
    issues: Seq<ReviewIssueView>,
    suggestions: Seq<Seq<char>>,
) -> Seq<char> {
    "# 코드 리뷰 결과\n\n"@ + "**전체 점수**: "@ + score + "/100\n\n"@ + if positive.len() > 0 {
        "## 👍 잘된 점\n\n"@ + bullet_list(positive) + "\n"@
    } else {
        Seq::<char>::empty()
    } + if issues.len() > 0 {
        "## 🔍 발견된 문제\n\n"@ + concat_all(
            issues.map_values(|i: ReviewIssueView| issue_section(i)),
        )
    } else {
        Seq::<char>::empty()
    } + if suggestions.len() > 0 {
        "## 💡 개선 제안\n\n"@ + bullet_list(suggestions)
    } else {
        Seq::<char>::empty()
    }
}

/// How many of the first `n` findings have `severity`.
pub open spec fn severity_count(issues: Seq<ReviewIssueView>, severity: IssueSeverity, n: int) -> nat
    decreases n,
{
    if n <= 0 {
        0
    } else {
        severity_count(issues, severity, n - 1) + if issues[n - 1].severity == severity {
            1nat
        } else {
            0nat
        }
    }
}

/// The figures of a review.
#[derive(Debug, Clone, Copy, PartialEq, Eq)]
pub struct ReviewSummary {
    /// The number of critical findings.
    pub critical: usize,
    /// The number of findings of high severity.
    pub high: usize,
    /// The number of findings.
    pub issues: usize,
    /// The number of suggestions.
    pub suggestions: usize,
}

fn push_bullet_list(out: &mut Vec<char>, items: &Vec<String>)
    ensures
        final(out)@ == old(out)@ + bullet_list(string_views(items@)),
{
    let ghost head = out@;
    let ghost pieces = string_views(items@).map_values(|s: Seq<char>| "- "@ + s + "\n"@);
    let mut i: usize = 0;
    proof {
        assert(pieces.take(0) =~= Seq::<Seq<char>>::empty());
        assert(out@ =~= head + concat_all(pieces.take(0)));
    }
    while i < items.len()
        invariant
            i <= items.len(),
            pieces == string_views(items@).map_values(|s: Seq<char>| "- "@ + s + "\n"@),
            out@ == head + concat_all(pieces.take(i as int)),
        decreases items.len() - i,
    {
        let ghost before = out@;
        push_str(out, "- ");
        push_str(out, items[i].as_str());
        push_str(out, "\n");
        proof {
            lemma_concat_all_step(pieces, i as int);
            assert(out@ =~= before + pieces[i as int]);
        }
        i += 1;
    }
    proof {
        assert(pieces.take(items.len() as int) =~= pieces);
    }
}

fn push_severity(out: &mut Vec<char>, severity: IssueSeverity)
    ensures
        final(out)@ == old(out)@ + severity_icon(severity) + " "@ + severity_name(severity),
{
    match severity {
        IssueSeverity::Critical => {
            push_str(out, "🔴");
            push_str(out, " ");
            push_str(out, "Critical");
        },
        IssueSeverity::High => {
            push_str(out, "🟠");
            push_str(out, " ");
            push_str(out, "High");
        },
        IssueSeverity::Medium => {
            push_str(out, "🟡");
            push_str(out, " ");
            push_str(out, "Medium");
        },
        IssueSeverity::Low => {
            push_str(out, "🟢");
            push_str(out, " ");
            push_str(out, "Low");
        },
        IssueSeverity::Info => {
            push_str(out, "ℹ️");
            push_str(out, " ");
            push_str(out, "Info");
        },
    }
}

fn push_category(out: &mut Vec<char>, category: IssueCategory)
    ensures
        final(out)@ == old(out)@ + category_name(category),
{
    match category {
        IssueCategory::Security => push_str(out, "Security"),
        IssueCategory::Performance => push_str(out, "Performance"),
        IssueCategory::Style => push_str(out, "Style"),
        IssueCategory::BestPractice => push_str(out, "BestPractice"),
        IssueCategory::Bug => push_str(out, "Bug"),
        IssueCategory::Documentation => push_str(out, "Documentation"),
    }
}

fn push_issue_section(out: &mut Vec<char>, issue: &ReviewIssue)
    ensures
        final(out)@ == old(out)@ + issue_section(issue@),
{
    push_str(out, "### ");
    push_severity(out, issue.severity);
    push_str(out, " - ");
    push_category(out, issue.category);
    push_str(out, "\n\n");
    let ghost heading = "### "@ + severity_icon(issue.severity) + " "@ + severity_name(
        issue.severity,
    ) + " - "@ + category_name(issue.category) + "\n\n"@;
    proof {
        assert(out@ =~= old(out)@ + heading);
    }
    push_str(out, "**위치**: ");
    push_str(out, issue.location.as_str());
    push_str(out, "\n\n");
    push_str(out, issue.description.as_str());
    push_str(out, "\n\n");
    let ghost body = heading + "**위치**: "@ + issue.location@ + "\n\n"@ + issue.description@
        + "\n\n"@;
    proof {
        assert(out@ =~= old(out)@ + body);
    }
    match &issue.suggestion {
        Some(s) => {
            push_str(out, "**제안**: ");
            push_str(out, s.as_str());
            push_str(out, "\n\n");
            proof {
                assert(out@ =~= old(out)@ + (body + ("**제안**: "@ + s@ + "\n\n"@)));
                assert(issue_section(issue@) =~= body + ("**제안**: "@ + s@ + "\n\n"@));
            }
        },
        None => {
            proof {
                assert(issue_section(issue@) =~= body + Seq::<char>::empty());
                assert(out@ =~= old(out)@ + (body + Seq::<char>::empty()));
            }
        },
    }
}

impl CodeReview {
    /// The review as Markdown.
    pub fn format_markdown(&self) -> (text: String)
        ensures
            text@ == review_markdown(
                self.overall_score@,
                string_views(self.positive_aspects@),
                issue_views(self.issues@),
                string_views(self.suggestions@),
            ),
    {
        let mut out: Vec<char> = Vec::new();
        push_str(&mut out, "# 코드 리뷰 결과\n\n");
        push_str(&mut out, "**전체 점수**: ");
        push_str(&mut out, self.overall_score.as_str());
        push_str(&mut out, "/100\n\n");
        if self.positive_aspects.len() > 0 {
            push_str(&mut out, "## 👍 잘된 점\n\n");
            push_bullet_list(&mut out, &self.positive_aspects);
            push_str(&mut out, "\n");
        }
        if self.issues.len() > 0 {
            push_str(&mut out, "## 🔍 발견된 문제\n\n");
            let ghost head = out@;
            let ghost pieces = issue_views(self.issues@).map_values(
                |i: ReviewIssueView| issue_section(i),
            );
            let mut i: usize = 0;
            proof {
                assert(pieces.take(0) =~= Seq::<Seq<char>>::empty());
                assert(out@ =~= head + concat_all(pieces.take(0)));
            }
            while i < self.issues.len()
                invariant
                    i <= self.issues.len(),
                    pieces == issue_views(self.issues@).map_values(
                        |i: ReviewIssueView| issue_section(i),
                    ),
                    out@ == head + concat_all(pieces.take(i as int)),
                decreases self.issues.len() - i,
            {
                let ghost before = out@;
                push_issue_section(&mut out, &self.issues[i]);
                proof {
                    lemma_concat_all_step(pieces, i as int);
                    assert(out@ =~= before + pieces[i as int]);
                }
                i += 1;
            }
            proof {
                assert(pieces.take(self.issues.len() as int) =~= pieces);
            }
        }
        if self.suggestions.len() > 0 {
            push_str(&mut out, "## 💡 개선 제안\n\n");
            push_bullet_list(&mut out, &self.suggestions);
        }
        proof {
            assert(out@ =~= review_markdown(
                self.overall_score@,
                string_views(self.positive_aspects@),
                issue_views(self.issues@),
                string_views(self.suggestions@),
            ));
        }
        string_of(&out)
    }

    /// The figures that the summary of the review shows.
    pub fn print_summary(&self) -> (summary: ReviewSummary)
        ensures
            summary.critical == severity_count(
                issue_views(self.issues@),
                IssueSeverity::Critical,
                self.issues@.len() as int,
            ),
            summary.high == severity_count(
                issue_views(self.issues@),
                IssueSeverity::High,
                self.issues@.len() as int,
            ),
            summary.issues == self.issues@.len(),
            summary.suggestions == self.suggestions@.len(),
    {
        let mut critical: usize = 0;
        let mut high: usize = 0;
        let mut i: usize = 0;
        while i < self.issues.len()
            invariant
                i <= self.issues.len(),
                critical <= i,
                high <= i,
                critical == severity_count(
                    issue_views(self.issues@),
                    IssueSeverity::Critical,
                    i as int,
                ),
                high == severity_count(issue_views(self.issues@), IssueSeverity::High, i as int),
            decreases self.issues.len() - i,
        {
            match self.issues[i].severity {
                IssueSeverity::Critical => {
                    critical += 1;
                },
                IssueSeverity::High => {
                    high += 1;
                },
                _ => {},
            }
            i += 1;
        }
        ReviewSummary {
            critical,
            high,
            issues: self.issues.len(),
            suggestions: self.suggestions.len(),
        }
    }
}

/// The request for a review of `code` by `criteria`: one question to
/// `client`, to be answered whole, in JSON.
pub fn review_code(client: &OpenAIClient, code: &str, criteria: &str) -> (request: ChatRequest)
    ensures
        request@ == client.question(review_request(criteria@, code@)),
{
    let prompt = review_prompt(criteria, code);
    client.query(prompt.as_str())
}

} // verus!
