//! Static measures of a project: its structure, dependencies and complexity.
//!
//! Walking directories and reading files is the caller's part; the analyses
//! here take names and contents.

pub mod complexity;
pub mod dependencies;
pub mod structure;
pub mod types;

use vstd::prelude::*;
use crate::analyzer::complexity::{complexity_report, complexity_tally, ComplexityReport};
use crate::analyzer::dependencies::{
    declared_in, dependency_report, json_object_at, DependencyError,
};
use crate::analyzer::structure::{structure_report, structure_tally, ProjectStructure};
use crate::analyzer::types::{
    dependency_views, scanned_views, ComplexityInfo, DependencyAnalysis, ScannedFile,
};
use crate::text::{push_str, string_of};

verus! {

/// Why a project could not be analysed.
#[derive(Debug, Clone, Copy, PartialEq, Eq, Structural)]
pub enum AnalysisError {
    /// There are more files or lines than can be counted.
    TooLarge,
    /// `package.json` is not JSON.
    InvalidPackageJson,
}

/// All that the analyses find in a project.
pub struct FullAnalysisReport {
    pub structure: ProjectStructure,
    pub dependencies: DependencyAnalysis,
    pub complexity: ComplexityReport,
}

/// The three reports, one after the other.
pub open spec fn full_report(
    report: FullAnalysisReport,
    shares: Seq<String>,
    average: Seq<char>,
) -> Seq<char> {
    structure_report(report.structure@, shares) + dependency_report(
        report.dependencies.direct_dependencies@.len(),
        report.dependencies.dev_dependencies@.len(),
    ) + complexity_report(average, report.complexity.complex_files@)
}

/// The entry point of the analyses.
pub struct CodeAnalyzer;

impl CodeAnalyzer {
    /// An analyzer.
    pub fn new() -> Self {
        CodeAnalyzer
    }

    /// The structure of a project whose files are `files`. `None` where the
    /// files or their lines are more than can be counted.
    pub fn analyze_structure(&self, files: &Vec<ScannedFile>) -> (result: Option<ProjectStructure>)
        ensures
            match result {
                Some(tally) => tally@ == structure_tally(
                    scanned_views(files@),
                    files@.len() as int,
                ) && tally@.wf() && tally@.total_files <= usize::MAX && tally@.total_lines <= usize::MAX,
                None => {
                    let all = structure_tally(scanned_views(files@), files@.len() as int);
                    all.total_files > usize::MAX || all.total_lines > usize::MAX
                },
            },
    {
        structure::analyze_structure(files)
    }

    /// The complexity of the source files among `files` that could be read.
    /// `None` where there are more files than can be counted.
    pub fn analyze_complexity(&self, files: &Vec<ScannedFile>) -> (result: Option<
        ComplexityReport,
    >)
        ensures
            match result {
                Some(tally) => tally@ == complexity_tally(
                    scanned_views(files@),
                    files@.len() as int,
                ) && files@.len() < usize::MAX,
                None => files@.len() >= usize::MAX,
            },
    {
        complexity::analyze_complexity(files)
    }

    /// The dependencies that the manifests of a project declare.
    pub fn analyze_dependencies(&self, cargo_toml: Option<&str>, package_json: Option<&str>) -> (result:
        Result<DependencyAnalysis, DependencyError>)
        ensures
            match result {
                Ok(found) => !(package_json matches Some(content) && json_object_at(
                    content@,
                    "dependencies"@,
                ) is Invalid) && dependency_views(found.direct_dependencies@) == declared_in(
                    cargo_toml,
                    package_json,
                ).direct && dependency_views(found.dev_dependencies@) == declared_in(
                    cargo_toml,
                    package_json,
                ).dev,
                Err(_) => package_json matches Some(content) && json_object_at(
                    content@,
                    "dependencies"@,
                ) is Invalid,
            },
    {
        dependencies::analyze_dependencies(cargo_toml, package_json)
    }

    /// Structure, dependencies and complexity of a project, in this order;
    /// the first analysis that fails decides the error.
    pub fn analyze_all(
        &self,
        files: &Vec<ScannedFile>,
        cargo_toml: Option<&str>,
        package_json: Option<&str>,
    ) -> (result: Result<FullAnalysisReport, AnalysisError>)
        ensures
            ({
                let structure = structure_tally(scanned_views(files@), files@.len() as int);
                let uncountable = structure.total_files > usize::MAX || structure.total_lines
                    > usize::MAX;
                let invalid = package_json matches Some(content) && json_object_at(
                    content@,
                    "dependencies"@,
                ) is Invalid;
                let declared = declared_in(cargo_toml, package_json);
                if uncountable {
                    result == Err::<FullAnalysisReport, AnalysisError>(AnalysisError::TooLarge)
                } else if invalid {
                    result == Err::<FullAnalysisReport, AnalysisError>(
                        AnalysisError::InvalidPackageJson,
                    )
                } else if files@.len() >= usize::MAX {
                    result == Err::<FullAnalysisReport, AnalysisError>(AnalysisError::TooLarge)
                } else {
                    &&& result matches Ok(report)
                    &&& report.structure@ == structure
                    &&& dependency_views(report.dependencies.direct_dependencies@)
                        == declared.direct
                    &&& dependency_views(report.dependencies.dev_dependencies@) == declared.dev
                    &&& report.complexity@ == complexity_tally(
                        scanned_views(files@),
                        files@.len() as int,
                    )
                }
            }),
    {
        let structure = match self.analyze_structure(files) {
            Some(tally) => tally,
            None => {
                return Err(AnalysisError::TooLarge);
            },
        };
        let dependencies = match self.analyze_dependencies(cargo_toml, package_json) {
            Ok(found) => found,
            Err(_) => {
                return Err(AnalysisError::InvalidPackageJson);
            },
        };
        let complexity = match self.analyze_complexity(files) {
            Some(tally) => tally,
            None => {
                return Err(AnalysisError::TooLarge);
            },
        };
        Ok(FullAnalysisReport { structure, dependencies, complexity })
    }

    /// The report on the structure of a project, ready to be printed.
    pub fn print_structure_report(&self, tally: &ProjectStructure, shares: &Vec<String>) -> (report:
        String)
        ensures
            report@ == structure_report(tally@, shares@),
    {
        structure::print_structure_report(tally, shares)
    }

    /// The report on the dependencies of a project, ready to be printed.
    pub fn print_dependency_report(&self, deps: &DependencyAnalysis) -> (report: String)
        ensures
            report@ == dependency_report(
                deps.direct_dependencies@.len(),
                deps.dev_dependencies@.len(),
            ),
    {
        dependencies::print_dependency_report(deps)
    }

    /// The report on the complexity of a project, ready to be printed.
    pub fn print_complexity_report(&self, average: &str, files: &Vec<ComplexityInfo>) -> (report:
        String)
        ensures
            report@ == complexity_report(average@, files@),
    {
        complexity::print_complexity_report(average, files)
    }

    /// The three reports on a project, ready to be printed. `shares` holds
    /// the share of each language in percent, `average` the average
    /// complexity, both with one decimal.
    pub fn print_full_report(&self, report: &FullAnalysisReport, shares: &Vec<String>, average: &str) -> (text:
        String)
        ensures
            text@ == full_report(*report, shares@, average@),
    {
        let mut out: Vec<char> = Vec::new();
        let structure = self.print_structure_report(&report.structure, shares);
        push_str(&mut out, structure.as_str());
        let dependencies = self.print_dependency_report(&report.dependencies);
        push_str(&mut out, dependencies.as_str());
        let complexity = self.print_complexity_report(average, &report.complexity.complex_files);
        push_str(&mut out, complexity.as_str());
        proof {
            assert(out@ =~= full_report(*report, shares@, average@));
        }
        string_of(&out)
    }
}

} // verus!
