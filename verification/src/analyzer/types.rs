//! What the project analyses report.

use vstd::prelude::*;

verus! {

/// The dependencies that a project declares.
#[derive(Debug)]
pub struct DependencyAnalysis {
    pub direct_dependencies: Vec<Dependency>,
    pub dev_dependencies: Vec<Dependency>,
}

/// One declared dependency.
#[derive(Debug)]
pub struct Dependency {
    pub name: String,
    pub version: String,
}

/// A dependency as plain text.
pub struct DependencyView {
    pub name: Seq<char>,
    pub version: Seq<char>,
}

impl View for Dependency {
    type V = DependencyView;

    open spec fn view(&self) -> DependencyView {
        DependencyView { name: self.name@, version: self.version@ }
    }
}

/// The dependencies of `deps` as plain text.
pub open spec fn dependency_views(deps: Seq<Dependency>) -> Seq<DependencyView> {
    deps.map_values(|d: Dependency| d@)
}

/// A source file that counts as complex, with its measures.
#[derive(Debug, Clone)]
pub struct ComplexityInfo {
    pub file: String,
    pub complexity: u32,
    pub lines: usize,
}

/// A complex file as plain values.
pub struct ComplexityInfoView {
    pub file: Seq<char>,
    pub complexity: u32,
    pub lines: nat,
}

impl View for ComplexityInfo {
    type V = ComplexityInfoView;

    open spec fn view(&self) -> ComplexityInfoView {
        ComplexityInfoView {
            file: self.file@,
            complexity: self.complexity,
            lines: self.lines as nat,
        }
    }
}

/// The complex files of `files` as plain values.
pub open spec fn complexity_views(files: Seq<ComplexityInfo>) -> Seq<ComplexityInfoView> {
    files.map_values(|f: ComplexityInfo| f@)
}

/// A file that was found in a project: its path below the root of the
/// project, its extension, and its text if it could be read.
#[derive(Debug, Clone)]
pub struct ScannedFile {
    pub path: String,
    pub extension: String,
    pub content: Option<String>,
}

/// A scanned file as plain text.
pub struct ScannedFileView {
    pub path: Seq<char>,
    pub extension: Seq<char>,
    pub content: Option<Seq<char>>,
}

impl View for ScannedFile {
    type V = ScannedFileView;

    open spec fn view(&self) -> ScannedFileView {
        ScannedFileView {
            path: self.path@,
            extension: self.extension@,
            content: match self.content {
                Some(c) => Some(c@),
                None => None,
            },
        }
    }
}

/// The scanned files of `files` as plain text.
pub open spec fn scanned_views(files: Seq<ScannedFile>) -> Seq<ScannedFileView> {
    files.map_values(|f: ScannedFile| f@)
}

} // verus!
