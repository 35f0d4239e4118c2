//! The forms in which plans are written and the kinds of analysis.

use vstd::prelude::*;
use crate::text::{push_str, str_eq, string_of};

verus! {

/// The form in which a plan is written.
#[derive(Debug, Clone, Copy, PartialEq, Eq, Structural)]
pub enum PlanFormat {
    Markdown,
    Json,
    Yaml,
}

/// The kind of an analysis.
#[derive(Debug, Clone, Copy, PartialEq, Eq, Structural)]
pub enum AnalysisKind {
    Structure,
    Dependencies,
    Complexity,
    All,
}

/// The form that a name stands for.
pub open spec fn format_named(name: Seq<char>) -> Option<PlanFormat> {
    if name == "markdown"@ {
        Some(PlanFormat::Markdown)
    } else if name == "json"@ {
        Some(PlanFormat::Json)
    } else if name == "yaml"@ {
        Some(PlanFormat::Yaml)
    } else {
        None
    }
}

/// The kind of analysis that a name stands for.
pub open spec fn kind_named(name: Seq<char>) -> Option<AnalysisKind> {
    if name == "structure"@ {
        Some(AnalysisKind::Structure)
    } else if name == "dependencies"@ {
        Some(AnalysisKind::Dependencies)
    } else if name == "complexity"@ {
        Some(AnalysisKind::Complexity)
    } else if name == "all"@ {
        Some(AnalysisKind::All)
    } else {
        None
    }
}

/// What is said of a form that is not supported.
pub open spec fn unsupported_format(name: Seq<char>) -> Seq<char> {
    "지원하지 않는 형식: "@ + name
}

/// What is said of a kind of analysis that is not supported.
pub open spec fn unsupported_kind(name: Seq<char>) -> Seq<char> {
    "지원하지 않는 분석 유형: "@ + name
}

/// The form named `name`, or what is said of a form that is not supported.
pub fn handle_plan(name: &str) -> (result: Result<PlanFormat, String>)
    ensures
        match result {
            Ok(format) => format_named(name@) == Some(format),
            Err(message) => format_named(name@) is None && message@ == unsupported_format(name@),
        },
{
    if str_eq(name, "markdown") {
        Ok(PlanFormat::Markdown)
    } else if str_eq(name, "json") {
        Ok(PlanFormat::Json)
    } else if str_eq(name, "yaml") {
        Ok(PlanFormat::Yaml)
    } else {
        let mut out: Vec<char> = Vec::new();
        push_str(&mut out, "지원하지 않는 형식: ");
        push_str(&mut out, name);
        proof {
            assert(out@ =~= unsupported_format(name@));
        }
        Err(string_of(&out))
    }
}

/// The kind of analysis named `name`, or what is said of a kind that is not
/// supported.
pub fn handle_analyze(name: &str) -> (result: Result<AnalysisKind, String>)
    ensures
        match result {
            Ok(kind) => kind_named(name@) == Some(kind),
            Err(message) => kind_named(name@) is None && message@ == unsupported_kind(name@),
        },
{
    if str_eq(name, "structure") {
        Ok(AnalysisKind::Structure)
    } else if str_eq(name, "dependencies") {
        Ok(AnalysisKind::Dependencies)
    } else if str_eq(name, "complexity") {
        Ok(AnalysisKind::Complexity)
    } else if str_eq(name, "all") {
        Ok(AnalysisKind::All)
    } else {
        let mut out: Vec<char> = Vec::new();
        push_str(&mut out, "지원하지 않는 분석 유형: ");
        push_str(&mut out, name);
        proof {
            assert(out@ =~= unsupported_kind(name@));
        }
        Err(string_of(&out))
    }
}

} // verus!
