use ricci_cli::analyzer::complexity::{
    calculate_complexity, count_lines, print_complexity_report, ComplexityReport,
};
use ricci_cli::analyzer::dependencies::{
    add_declared, analyze_dependencies, parse_cargo_toml, parse_package_json, DependencyError,
    JsonLookup,
};
use ricci_cli::analyzer::structure::{
    detect_language, has_ignored_component, is_ignored_dir, is_source_file, print_structure_report,
    LanguageStats, ProjectStructure,
};
use ricci_cli::analyzer::types::{ComplexityInfo, Dependency, DependencyAnalysis, ScannedFile};
use ricci_cli::analyzer::{AnalysisError, CodeAnalyzer};

fn dep(name: &str, version: &str) -> Dependency {
    Dependency { name: name.to_string(), version: version.to_string() }
}

fn pairs(deps: &[Dependency]) -> Vec<(String, String)> {
    deps.iter().map(|d| (d.name.clone(), d.version.clone())).collect()
}

fn strs(p: &[(&str, &str)]) -> Vec<(String, String)> {
    p.iter().map(|(a, b)| (a.to_string(), b.to_string())).collect()
}

#[test]
fn dependency_report_counts_both_kinds() {
    let deps = DependencyAnalysis {
        direct_dependencies: vec![dep("a", "1"), dep("b", "2"), dep("c", "3")],
        dev_dependencies: vec![dep("d", "4")],
    };
    assert_eq!(CodeAnalyzer::new().print_dependency_report(&deps), "\n의존성\n직접: 3 | 개발: 1\n");
}

#[test]
fn dependency_report_of_nothing() {
    let deps = DependencyAnalysis { direct_dependencies: vec![], dev_dependencies: vec![] };
    assert_eq!(CodeAnalyzer.print_dependency_report(&deps), "\n의존성\n직접: 0 | 개발: 0\n");
}

#[test]
fn dependency_report_with_many_digits() {
    let deps = DependencyAnalysis {
        direct_dependencies: (0..120).map(|i| dep(&format!("d{}", i), "1")).collect(),
        dev_dependencies: (0..10).map(|i| dep(&format!("v{}", i), "1")).collect(),
    };
    assert_eq!(CodeAnalyzer.print_dependency_report(&deps), "\n의존성\n직접: 120 | 개발: 10\n");
}

#[test]
fn cargo_manifest_is_read_by_section() {
    let manifest = "[package]\nname = \"x\"\n\n[dependencies]\nserde = \"1.0\"\n  tokio = { version = \"1\", features = [\"full\"] }\n# comment\nplain\n\n[dev-dependencies]\ntempfile=\"\"3\"\"\n[features]\ndefault = []\n";
    let mut deps = vec![dep("old", "0")];
    let mut dev = Vec::new();
    parse_cargo_toml(manifest, &mut deps, &mut dev);
    assert_eq!(
        pairs(&deps),
        strs(&[("old", "0"), ("serde", "1.0"), ("tokio", "{ version = \"1\", features = [\"full\"] }")])
    );
    assert_eq!(pairs(&dev), strs(&[("tempfile", "3")]));
}

#[test]
fn cargo_manifest_without_dependencies() {
    let mut deps = Vec::new();
    let mut dev = Vec::new();
    parse_cargo_toml("[package]\nname = \"x\"\n", &mut deps, &mut dev);
    parse_cargo_toml("", &mut deps, &mut dev);
    assert!(deps.is_empty() && dev.is_empty());
}

#[test]
fn package_json_is_read() {
    let json = r#"{"name":"x","dependencies":{"react":"^18","left-pad":1},"devDependencies":{"jest":"29"}}"#;
    let mut deps = Vec::new();
    let mut dev = Vec::new();
    assert_eq!(parse_package_json(json, &mut deps, &mut dev), Ok(()));
    assert_eq!(pairs(&deps), strs(&[("left-pad", ""), ("react", "^18")]));
    assert_eq!(pairs(&dev), strs(&[("jest", "29")]));
}

#[test]
fn package_json_without_objects() {
    let mut deps = Vec::new();
    let mut dev = Vec::new();
    assert_eq!(parse_package_json(r#"{"dependencies":[1,2]}"#, &mut deps, &mut dev), Ok(()));
    assert_eq!(parse_package_json("[]", &mut deps, &mut dev), Ok(()));
    assert!(deps.is_empty() && dev.is_empty());
}

#[test]
fn invalid_package_json_is_refused() {
    let mut deps = vec![dep("keep", "1")];
    let mut dev = Vec::new();
    assert_eq!(
        parse_package_json("{not json", &mut deps, &mut dev),
        Err(DependencyError::InvalidPackageJson)
    );
    assert_eq!(pairs(&deps), strs(&[("keep", "1")]));
}

#[test]
fn declared_members_become_dependencies() {
    let mut deps = Vec::new();
    add_declared(&mut deps, &JsonLookup::Missing);
    add_declared(&mut deps, &JsonLookup::Invalid);
    assert!(deps.is_empty());
    add_declared(
        &mut deps,
        &JsonLookup::Object(vec![("a".to_string(), Some("1".to_string())), ("b".to_string(), None)]),
    );
    assert_eq!(pairs(&deps), strs(&[("a", "1"), ("b", "")]));
}

#[test]
fn both_manifests_are_combined() {
    let found = analyze_dependencies(
        Some("[dependencies]\na = \"1\"\n[dev-dependencies]\nb = \"2\"\n"),
        Some(r#"{"dependencies":{"c":"3"}}"#),
    )
    .unwrap();
    assert_eq!(pairs(&found.direct_dependencies), strs(&[("a", "1"), ("c", "3")]));
    assert_eq!(pairs(&found.dev_dependencies), strs(&[("b", "2")]));
    let none = analyze_dependencies(None, None).unwrap();
    assert!(none.direct_dependencies.is_empty() && none.dev_dependencies.is_empty());
    assert!(analyze_dependencies(Some("[dependencies]\na = \"1\"\n"), Some("nope")).is_err());
}

#[test]
fn complexity_counts_branches() {
    assert_eq!(calculate_complexity(""), 1);
    assert_eq!(calculate_complexity("let x = 1;\n"), 1);
    assert_eq!(calculate_complexity("if a && b || c {\n}\n"), 4);
    assert_eq!(calculate_complexity("  // if a && b\n# for x\nfor x in y { while z { match q {} } }\n"), 4);
    assert_eq!(calculate_complexity("if if if "), 3);
    assert_eq!(calculate_complexity("if if if x"), 4);
    assert_eq!(calculate_complexity("&&&&&"), 3);
    assert_eq!(calculate_complexity("elif x:\nif\n"), 2);
}

#[test]
fn lines_are_counted() {
    assert_eq!(count_lines(""), 0);
    assert_eq!(count_lines("a"), 1);
    assert_eq!(count_lines("a\n"), 1);
    assert_eq!(count_lines("a\n\nb"), 3);
    assert_eq!(count_lines("\n"), 1);
}

#[test]
fn complexity_tally_lists_complex_files() {
    let mut tally = ComplexityReport::new();
    tally.add_file("simple.rs", "fn a() {}\n");
    let branchy = "if a {}\n".repeat(10);
    tally.add_file("branchy.rs", &branchy);
    let long = "x\n".repeat(501);
    tally.add_file("long.rs", &long);
    let edge = "if a {}\n".repeat(9);
    tally.add_file("edge.rs", &edge);
    assert_eq!(tally.file_count, 4);
    assert_eq!(tally.total_complexity, 1 + 11 + 1 + 10);
    assert_eq!(tally.complex_files.len(), 2);
    assert_eq!(
        (tally.complex_files[0].file.as_str(), tally.complex_files[0].complexity, tally.complex_files[0].lines),
        ("branchy.rs", 11, 10)
    );
    assert_eq!(
        (tally.complex_files[1].file.as_str(), tally.complex_files[1].complexity, tally.complex_files[1].lines),
        ("long.rs", 1, 501)
    );
}

#[test]
fn complexity_report_shows_five_files_at_most() {
    let files: Vec<ComplexityInfo> = (1..=7)
        .map(|i| ComplexityInfo { file: format!("f{}.rs", i), complexity: 10 + i, lines: 100 * i as usize })
        .collect();
    assert_eq!(
        print_complexity_report("12.5", &files),
        "\n복잡도\n평균 복잡도: 12.5\n\n복잡한 파일:\n  f1.rs - 복잡도: 11, 100 라인\n  f2.rs - 복잡도: 12, 200 라인\n  f3.rs - 복잡도: 13, 300 라인\n  f4.rs - 복잡도: 14, 400 라인\n  f5.rs - 복잡도: 15, 500 라인\n"
    );
    assert_eq!(print_complexity_report("0.0", &vec![]), "\n복잡도\n평균 복잡도: 0.0\n\n");
    assert_eq!(
        CodeAnalyzer.print_complexity_report("3.0", &files[..1].to_vec()),
        "\n복잡도\n평균 복잡도: 3.0\n\n복잡한 파일:\n  f1.rs - 복잡도: 11, 100 라인\n"
    );
}

#[test]
fn ignored_directories_and_source_extensions() {
    for d in ["target", "node_modules", ".git", "dist", "build", "vendor"] {
        assert!(is_ignored_dir(d));
    }
    assert!(!is_ignored_dir("src") && !is_ignored_dir("Target") && !is_ignored_dir(""));
    assert!(has_ignored_component(&vec!["a".to_string(), "target".to_string(), "b.rs".to_string()]));
    assert!(!has_ignored_component(&vec!["a".to_string(), "targets".to_string()]));
    assert!(!has_ignored_component(&vec![]));
    for e in ["rs", "js", "ts", "jsx", "tsx", "py", "java", "go", "c", "cpp", "cs", "rb", "php"] {
        assert!(is_source_file(e));
    }
    assert!(!is_source_file("cc") && !is_source_file("md") && !is_source_file("RS") && !is_source_file(""));
}

#[test]
fn languages_by_extension() {
    let expected = [
        ("rs", "Rust"), ("js", "JavaScript"), ("jsx", "JavaScript"), ("ts", "TypeScript"),
        ("tsx", "TypeScript"), ("py", "Python"), ("java", "Java"), ("go", "Go"), ("c", "C/C++"),
        ("cpp", "C/C++"), ("cc", "C/C++"), ("cs", "C#"), ("rb", "Ruby"), ("php", "PHP"),
        ("md", "Other"), ("", "Other"),
    ];
    for (ext, language) in expected {
        assert_eq!(detect_language(ext), language);
    }
}

#[test]
fn structure_tally_counts_by_language() {
    let mut tally = ProjectStructure::new();
    tally.add_file("rs", Some("a\nb\n"));
    tally.add_file("md", Some("ignored\n"));
    tally.add_file("py", Some("x"));
    tally.add_file("rs", None);
    tally.add_file("rs", Some("c\n"));
    tally.add_file("jsx", Some(""));
    tally.add_file("js", Some("1\n2\n3\n"));
    assert_eq!(tally.total_files(), 6);
    assert_eq!(tally.total_lines(), 7);
    assert_eq!(
        tally.languages(),
        &vec![
            LanguageStats { language: "Rust".to_string(), file_count: 2, line_count: 3 },
            LanguageStats { language: "Python".to_string(), file_count: 1, line_count: 1 },
            LanguageStats { language: "JavaScript".to_string(), file_count: 2, line_count: 3 },
        ]
    );
    let shares = vec!["42.9".to_string(), "14.3".to_string()];
    let expected = "\n프로젝트 구조\n총 파일: 6 | 총 라인: 7\n\n  Rust - 2 파일, 3 라인 (42.9%)\n  Python - 1 파일, 1 라인 (14.3%)\n  JavaScript - 2 파일, 3 라인 (%)\n";
    assert_eq!(print_structure_report(&tally, &shares), expected);
    assert_eq!(CodeAnalyzer.print_structure_report(&tally, &shares), expected);
    assert_eq!(
        print_structure_report(&ProjectStructure::new(), &vec![]),
        "\n프로젝트 구조\n총 파일: 0 | 총 라인: 0\n\n"
    );
}

fn scanned(path: &str, content: Option<&str>) -> ScannedFile {
    ScannedFile {
        path: path.to_string(),
        extension: path.rsplit('.').next().unwrap_or("").to_string(),
        content: content.map(|c| c.to_string()),
    }
}

fn project() -> Vec<ScannedFile> {
    let branchy = "if a {}\n".repeat(12);
    vec![
        scanned("src/main.rs", Some("fn main() {\n}\n")),
        scanned("README.md", Some("# readme\n")),
        scanned("src/hard.rs", Some(&branchy)),
        scanned("web/app.ts", Some("let x = 1;\n")),
        scanned("web/locked.js", None),
    ]
}

#[test]
fn structure_of_scanned_files() {
    let tally = CodeAnalyzer.analyze_structure(&project()).unwrap();
    assert_eq!(tally.total_files(), 4);
    assert_eq!(tally.total_lines(), 2 + 12 + 1);
    assert_eq!(
        tally.languages(),
        &vec![
            LanguageStats { language: "Rust".to_string(), file_count: 2, line_count: 14 },
            LanguageStats { language: "TypeScript".to_string(), file_count: 1, line_count: 1 },
        ]
    );
    assert_eq!(ricci_cli::analyzer::structure::analyze_structure(&vec![]).unwrap().total_files(), 0);
}

#[test]
fn complexity_of_scanned_files() {
    let tally = CodeAnalyzer.analyze_complexity(&project()).unwrap();
    assert_eq!(tally.file_count, 3);
    assert_eq!(tally.total_complexity, 1 + 13 + 1);
    assert_eq!(tally.complex_files.len(), 1);
    assert_eq!(tally.complex_files[0].file, "src/hard.rs");
    assert_eq!(tally.complex_files[0].complexity, 13);
    assert_eq!(tally.complex_files[0].lines, 12);
    assert_eq!(ricci_cli::analyzer::complexity::analyze_complexity(&vec![]).unwrap().file_count, 0);
}

#[test]
fn all_analyses_at_once() {
    let report = CodeAnalyzer
        .analyze_all(&project(), Some("[dependencies]\nserde = \"1\"\n"), None)
        .ok()
        .unwrap();
    assert_eq!(report.structure.total_files(), 4);
    assert_eq!(report.dependencies.direct_dependencies.len(), 1);
    assert_eq!(report.complexity.file_count, 3);
    let shares = vec!["93.3".to_string(), "6.7".to_string()];
    assert_eq!(
        CodeAnalyzer.print_full_report(&report, &shares, "5.0"),
        "\n프로젝트 구조\n총 파일: 4 | 총 라인: 15\n\n  Rust - 2 파일, 14 라인 (93.3%)\n  TypeScript - 1 파일, 1 라인 (6.7%)\n\n의존성\n직접: 1 | 개발: 0\n\n복잡도\n평균 복잡도: 5.0\n\n복잡한 파일:\n  src/hard.rs - 복잡도: 13, 12 라인\n"
    );
    assert_eq!(
        CodeAnalyzer.analyze_all(&project(), None, Some("{")).err(),
        Some(AnalysisError::InvalidPackageJson)
    );
}
