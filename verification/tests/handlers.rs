use ricci_cli::analyzer::types::ScannedFile;
use ricci_cli::handlers::code_assistant::{
    analyze_code_complexity, analyze_file_interactive, AnalysisStep, analyze_dependencies, code_quality_prompt, complex_files_prompt,
    count_functions, dependency_review_prompt, detect_project_type, documentation_prompt,
    follow_up, is_surveyed_extension, performance_prompt, project_review_prompt,
    refactoring_prompt, run_code_assistant_interactive, security_prompt, should_ignore_path,
    split_suggestion, suggested_change, test_file_path, tests_prompt, AssistTarget,
    CodeAssistantOptions, FollowUp,
};
use ricci_cli::handlers::project::{
    analyze_project_interactive, metadata_from, project_metadata, ProjectSurvey,
};
use ricci_cli::handlers::{
    analyze_file_issues, codebase_review_prompt, extract_code_block, file_analysis_prompt,
    file_facts, handle_code_assist, handle_folder_code_analysis, improvement_prompt,
    is_code_extension, is_excluded_path, is_too_large, is_yes,
};
use ricci_cli::renderer::progress::render_progress;
use ricci_cli::splash::{display_mini_splash, display_splash};

#[test]
fn extracts_block_with_language() {
    let text = "Here is the code:\n```rust\nfn main() {}\n```\nDone.";
    assert_eq!(extract_code_block(text, "rust"), "fn main() {}");
}

#[test]
fn prefers_block_that_declares_the_language() {
    let text = "```\nplain\n```\n```py\nprint(1)\n```\n";
    assert_eq!(extract_code_block(text, "py"), "print(1)");
}

#[test]
fn falls_back_to_bare_fence() {
    let text = "text\n```\n  body  \n```";
    assert_eq!(extract_code_block(text, "rs"), "body");
}

#[test]
fn block_with_other_language_keeps_its_tag_line() {
    let text = "```python\nprint(1)\n```";
    assert_eq!(extract_code_block(text, "rs"), "python\nprint(1)");
}

#[test]
fn language_without_line_feed_still_opens() {
    assert_eq!(extract_code_block("```rs let a; ```", "rs"), "let a;");
}

#[test]
fn text_without_block_is_returned_trimmed() {
    assert_eq!(extract_code_block("  just text \n", "rs"), "just text");
    assert_eq!(extract_code_block("", "rs"), "");
}

#[test]
fn unterminated_block_is_not_a_block() {
    assert_eq!(extract_code_block("```rust\nfn a() {}", "rust"), "```rust\nfn a() {}");
}

#[test]
fn empty_language_uses_bare_fence() {
    assert_eq!(extract_code_block("a ```\nx\n``` b", ""), "x");
}

#[test]
fn options_default_and_toggle() {
    let mut o = CodeAssistantOptions::default();
    assert_eq!(
        o,
        CodeAssistantOptions {
            analyze: true, refactor: true, optimize: true, security: true,
            test: false, docs: false, fix_all: false,
        }
    );
    assert!(o.toggle("1"));
    assert!(o.toggle("5"));
    assert!(o.toggle("7"));
    assert!(!o.toggle("8"));
    assert!(!o.toggle(""));
    assert!(!o.toggle(" 2"));
    assert_eq!(
        o,
        CodeAssistantOptions {
            analyze: false, refactor: true, optimize: true, security: true,
            test: true, docs: false, fix_all: true,
        }
    );
    assert!(o.toggle("2") && o.toggle("3") && o.toggle("4") && o.toggle("6"));
    assert_eq!((o.refactor, o.optimize, o.security, o.docs), (false, false, false, true));
}

#[test]
fn options_are_shown_with_ticks() {
    let o = CodeAssistantOptions::default();
    assert_eq!(
        o.status(),
        "\n현재 선택:\n1. [✓] 코드 분석\n2. [✓] 리팩토링 제안\n3. [✓] 성능 최적화\n4. [✓] 보안 검사\n5. [ ] 테스트 생성\n6. [ ] 문서화\n7. [ ] 자동 수정\n"
    );
}

#[test]
fn target_of_the_code_assistant() {
    assert_eq!(run_code_assistant_interactive(".", false, true), AssistTarget::Project);
    assert_eq!(run_code_assistant_interactive("src/main.rs", true, false), AssistTarget::File);
    assert_eq!(run_code_assistant_interactive("src", false, true), AssistTarget::Directory);
    assert_eq!(run_code_assistant_interactive("nowhere", false, false), AssistTarget::Invalid);
}

#[test]
fn code_assistant_prompts() {
    assert_eq!(
        code_quality_prompt("rs", "fn a() {}"),
        "다음 rs 코드의 품질을 분석해주세요. 다음 관점에서 평가해주세요:\n1. 코드 가독성과 명확성\n2. 변수/함수 네이밍\n3. 코드 구조와 조직화\n4. 복잡도\n5. 주석의 적절성\n6. 에러 처리\n\n코드:\n```rs\nfn a() {}\n```"
    );
    assert_eq!(
        refactoring_prompt("py", "x"),
        "다음 py 코드를 리팩토링해주세요. 다음을 개선해주세요:\n1. 중복 코드 제거\n2. 함수/메서드 분리\n3. 더 나은 추상화\n4. SOLID 원칙 적용\n5. 디자인 패턴 적용\n\n먼저 개선점을 설명하고, 그 다음 전체 리팩토링된 코드를 제공해주세요.\n\n코드:\n```py\nx\n```"
    );
    assert_eq!(
        performance_prompt("go", "x"),
        "다음 go 코드의 성능을 분석하고 최적화해주세요:\n1. 시간 복잡도 분석\n2. 공간 복잡도 분석\n3. 불필요한 연산 찾기\n4. 캐싱 기회\n5. 병렬 처리 가능성\n6. 메모리 사용 최적화\n\n분석 결과와 최적화된 코드를 제공해주세요.\n\n코드:\n```go\nx\n```"
    );
    assert_eq!(
        security_prompt("js", "x"),
        "다음 js 코드의 보안 취약점을 검사해주세요:\n1. SQL 인젝션\n2. XSS 취약점\n3. 인증/인가 문제\n4. 민감한 정보 노출\n5. 안전하지 않은 함수 사용\n6. 입력 검증 부족\n7. 암호화 문제\n\n발견된 취약점과 수정 방법을 설명해주세요.\n\n코드:\n```js\nx\n```"
    );
    assert_eq!(
        tests_prompt("rs", "src/a.rs", "x"),
        "다음 rs 코드에 대한 단위 테스트를 생성해주세요:\n1. 정상 케이스 테스트\n2. 엣지 케이스 테스트\n3. 에러 케이스 테스트\n4. 성능 테스트 (필요시)\n\n파일명: src/a.rs\n코드:\n```rs\nx\n```\n\n테스트 코드만 제공해주세요."
    );
    assert_eq!(
        documentation_prompt("ts", "x"),
        "다음 ts 코드에 대한 문서를 생성해주세요:\n1. 파일/모듈 개요\n2. 주요 함수/클래스 설명\n3. 파라미터와 반환값\n4. 사용 예제\n5. 주의사항\n\n코드:\n```ts\nx\n```"
    );
    assert_eq!(
        project_review_prompt("Rust", "SUMMARY"),
        "다음 Rust 프로젝트의 실제 구조와 코드를 분석하고 구체적인 개선점을 제안해주세요:\n\nSUMMARY\n\n구체적으로 다음을 분석해주세요:\n1. 현재 프로젝트 구조의 장단점\n2. 모듈 구성과 관심사 분리\n3. 코드 품질과 일관성\n4. 확장성과 유지보수성\n5. 성능 최적화 기회\n6. 보안 고려사항\n7. 테스트 커버리지\n8. 문서화 수준\n\n위 코드 샘플과 구조를 참고하여 구체적이고 실행 가능한 제안을 해주세요."
    );
    assert_eq!(
        dependency_review_prompt("DEPS"),
        "다음 프로젝트 의존성을 분석하고 다음을 확인해주세요:\n1. 오래된 패키지\n2. 보안 취약점이 있는 패키지\n3. 불필요한 의존성\n4. 버전 충돌 가능성\n\nDEPS"
    );
    assert_eq!(
        complex_files_prompt("a.rs: 400 줄, 3 함수"),
        "다음 복잡한 파일들을 리팩토링하는 방법을 제안해주세요:\n\na.rs: 400 줄, 3 함수\n\n각 파일에 대해:\n1. 함수 분리 방법\n2. 모듈화 전략\n3. 코드 단순화 방안"
    );
}

#[test]
fn handler_prompts() {
    assert_eq!(
        file_analysis_prompt("rs", "src/a.rs", "fn a() {}"),
        "다음 rs 파일을 분석하고 개선점을 제안해주세요:\n\n파일: src/a.rs\n\n```rs\nfn a() {}\n```\n\n다음 관점에서 분석해주세요:\n1. 코드 품질\n2. 가독성\n3. 성능\n4. 보안\n5. 모범 사례"
    );
    assert_eq!(
        improvement_prompt("rs", "fn a() {}"),
        "위의 분석을 바탕으로 다음 코드를 개선해주세요. 전체 수정된 코드를 제공해주세요:\n\n```rs\nfn a() {}\n```"
    );
    assert_eq!(
        codebase_review_prompt(12, 3, "a.rs: x"),
        "다음은 프로젝트의 코드 분석 결과입니다:\n\n분석된 파일 수: 12\n이슈가 있는 파일 수: 3\n\n주요 이슈:\na.rs: x\n\n이 프로젝트의 전반적인 코드 품질을 평가하고, 개선 방안을 제시해주세요."
    );
}

#[test]
fn folder_question_lists_the_issues() {
    let files = vec![
        ("a.rs".to_string(), vec!["i1".to_string(), "i2".to_string()]),
        ("b.py".to_string(), vec!["i3".to_string()]),
    ];
    assert_eq!(handle_folder_code_analysis(5, &files), codebase_review_prompt(5, 2, "a.rs: i1, i2\nb.py: i3"));
    assert_eq!(handle_folder_code_analysis(0, &vec![]), codebase_review_prompt(0, 0, ""));
}

#[test]
fn suggestions_are_split_into_explanation_and_code() {
    assert_eq!(
        split_suggestion("  Improved naming.\n\n```rs\nfn better() {}\n```\nbye", "rs"),
        ("Improved naming.".to_string(), "fn better() {}".to_string())
    );
    assert_eq!(split_suggestion("no code here ", "rs"), ("no code here ".to_string(), String::new()));
    assert_eq!(split_suggestion("```\nx\n```", "rs"), (String::new(), "x".to_string()));
    assert_eq!(split_suggestion("why ```open", "rs"), ("why".to_string(), "```open".to_string()));
}

#[test]
fn test_files_are_named_after_their_file() {
    assert_eq!(test_file_path("src/parser.rs", "rs"), "src/parser_test.rs");
    assert_eq!(test_file_path("a.rs.rs", "rs"), "a_test.rs");
    assert_eq!(test_file_path("Makefile", ""), "Makefile_test.");
    assert_eq!(test_file_path("dir.d/x..", ""), "dir.d/x_test.");
    assert_eq!(test_file_path("mod.py", "rs"), "mod.py_test.rs");
}

#[test]
fn changes_are_built_from_answers() {
    let c = suggested_change("a.rs", "old", "new".to_string(), "리팩토링 제안");
    assert_eq!((c.path.as_str(), c.original_content.as_str(), c.new_content.as_str(), c.description.as_str()), ("a.rs", "old", "new", "리팩토링 제안"));
    let c = handle_code_assist("a.rs", "old", "rs", "Sure:\n```rs\nnew code\n```");
    assert_eq!((c.path.as_str(), c.original_content.as_str(), c.new_content.as_str(), c.description.as_str()), ("a.rs", "old", "new code", "AI가 제안한 코드 개선사항"));
}

#[test]
fn yes_is_y_in_any_case() {
    assert!(is_yes("y") && is_yes(" Y\n") && is_yes("\ty "));
    assert!(!is_yes("yes") && !is_yes("n") && !is_yes("") && !is_yes("y y"));
}

#[test]
fn facts_of_a_file() {
    let f = file_facts("가나\nabc\n");
    assert_eq!((f.bytes, f.lines), (11, 2));
    let f = file_facts("");
    assert_eq!((f.bytes, f.lines), (0, 0));
}

#[test]
fn project_kinds() {
    assert_eq!(detect_project_type(true, true, true, true, true, true, true), "Rust");
    assert_eq!(detect_project_type(false, true, true, false, false, false, false), "Node.js/JavaScript");
    assert_eq!(detect_project_type(false, false, true, false, true, false, false), "Python");
    assert_eq!(detect_project_type(false, false, false, true, false, false, false), "Python");
    assert_eq!(detect_project_type(false, false, false, false, true, true, false), "Go");
    assert_eq!(detect_project_type(false, false, false, false, false, true, true), "Java (Maven)");
    assert_eq!(detect_project_type(false, false, false, false, false, false, true), "Java (Gradle)");
    assert_eq!(detect_project_type(false, false, false, false, false, false, false), "Unknown");
}

#[test]
fn surveyed_paths_and_extensions() {
    let path = |p: &[&str]| p.iter().map(|s| s.to_string()).collect::<Vec<_>>();
    for d in [".git", "target", "node_modules", ".venv", "venv", "__pycache__", "dist", "build", ".idea", ".vscode"] {
        assert!(should_ignore_path(&path(&["a", d, "b"])));
    }
    assert!(!should_ignore_path(&path(&["src", "vendor", "x.rs"])));
    assert!(!should_ignore_path(&path(&[])));
    for e in ["rs", "js", "ts", "py", "go", "java"] {
        assert!(is_surveyed_extension(e));
    }
    assert!(!is_surveyed_extension("tsx") && !is_surveyed_extension("c") && !is_surveyed_extension(""));
}

#[test]
fn functions_are_counted_by_language() {
    assert_eq!(count_functions("fn a() {}\npub fn b() {}\nfn_c", "rs"), 2);
    assert_eq!(count_functions("function a() {}\nconst b = () => 1;\nfunctionfunction", "js"), 4);
    assert_eq!(count_functions("x => y => z", "ts"), 2);
    assert_eq!(count_functions("def a():\n  pass\nundef b", "py"), 2);
    assert_eq!(count_functions("func a() {}\nfunc(b)", "go"), 1);
    assert_eq!(count_functions("public class A { private int x; public void f() {} }", "java"), 3);
    assert_eq!(count_functions("fn a() {}", "c"), 0);
    assert_eq!(count_functions("", "rs"), 0);
}

#[test]
fn complex_files_are_listed() {
    assert_eq!(analyze_code_complexity("a.rs", 300, 10), None);
    assert_eq!(analyze_code_complexity("a.rs", 301, 0), Some("a.rs: 301 줄, 0 함수".to_string()));
    assert_eq!(analyze_code_complexity("b.py", 12, 11), Some("b.py: 12 줄, 11 함수".to_string()));
}

#[test]
fn dependency_question_from_the_files_there_are() {
    assert_eq!(analyze_dependencies(None, None, None), None);
    assert_eq!(analyze_dependencies(Some(""), None, None), Some(dependency_review_prompt("Rust 의존성 (Cargo.toml):\n")));
    assert_eq!(
        analyze_dependencies(Some("[dependencies]\n"), Some("{}"), Some("flask\n")),
        Some(dependency_review_prompt(
            "Rust 의존성 (Cargo.toml):\n[dependencies]\n\nNode.js 의존성 (package.json):\n{}\nPython 의존성 (requirements.txt):\nflask\n"
        ))
    );
    assert_eq!(
        analyze_dependencies(None, None, Some("x")),
        Some(dependency_review_prompt("\nPython 의존성 (requirements.txt):\nx"))
    );
}

#[test]
fn follow_up_choices() {
    assert_eq!(follow_up("1\n"), FollowUp::Directory);
    assert_eq!(follow_up(" 2"), FollowUp::Dependencies);
    assert_eq!(follow_up("3"), FollowUp::Complexity);
    assert_eq!(follow_up("4"), FollowUp::Done);
    assert_eq!(follow_up(""), FollowUp::Done);
    assert_eq!(follow_up("11"), FollowUp::Done);
}

#[test]
fn code_extensions_and_excluded_paths() {
    for e in ["rs", "py", "js", "ts", "jsx", "tsx", "java", "cpp", "c", "h", "hpp", "cs", "go", "rb", "php", "swift", "kt", "scala", "r", "dart", "vue", "RS", "Py", "VUE"] {
        assert!(is_code_extension(e), "{}", e);
    }
    assert!(!is_code_extension("md") && !is_code_extension("") && !is_code_extension("rss"));
    for p in ["a/.git/config", "a\\.git\\config", "x/node_modules/y.js", "x\\node_modules\\y", "/p/target/debug/a.rs", "p\\target\\a", "a/.idea/w.xml", "a\\.idea\\w", "s/__pycache__/m.py", "s\\__pycache__\\m"] {
        assert!(is_excluded_path(p), "{}", p);
    }
    assert!(!is_excluded_path("src/target.rs") && !is_excluded_path(".git/config") && !is_excluded_path("a/targets/b"));
    assert!(!is_too_large(1_000_000) && is_too_large(1_000_001) && !is_too_large(0));
}

#[test]
fn issues_of_a_file() {
    assert_eq!(analyze_file_issues("fn a() {}\n"), Vec::<String>::new());
    assert_eq!(analyze_file_issues("// TODO one\n// FIXME two\n// TODOTODO\n"), vec!["TODO/FIXME 주석 4 개 발견"]);
    let long = format!("{}\n{}\nshort\n{}\n", "a".repeat(101), "b".repeat(100), "가".repeat(34));
    assert_eq!(analyze_file_issues(&long), vec!["100자 이상 긴 줄 2 개"]);
}

#[test]
fn repeated_blocks_are_an_issue_when_there_are_many() {
    // six positions whose three lines are repeated ten or more lines further down
    let block: Vec<String> = (0..12).map(|i| format!("line {}", i)).collect();
    let mut lines = block.clone();
    lines.extend(block.iter().take(8).cloned());
    lines.push("end 1".to_string());
    lines.push("end 2".to_string());
    lines.push("end 3".to_string());
    let text = lines.join("\n");
    assert_eq!(analyze_file_issues(&text), vec!["중복 코드 패턴 6 개 발견"]);
    // five are not enough
    let mut fewer = block.clone();
    fewer.extend(block.iter().take(7).cloned());
    fewer.push("end 1".to_string());
    fewer.push("end 2".to_string());
    fewer.push("end 3".to_string());
    assert_eq!(analyze_file_issues(&fewer.join("\n")), Vec::<String>::new());
    // blank first lines do not count
    let blank = "\n".repeat(60);
    assert_eq!(analyze_file_issues(&blank), Vec::<String>::new());
}

#[test]
fn metadata_of_a_manifest() {
    let manifest = "[package]\nname = \"ricci\"\nversion = \"0.1.0\"\n\n[dependencies]\na = \"1\"\nb = { version = \"2\" }\n";
    assert_eq!(project_metadata(manifest), "프로젝트명: ricci\n버전: 0.1.0\n의존성 수: 2\n");
    assert_eq!(project_metadata("[package]\ndescription = \"d\"\nname = 3\n"), "설명: d\n");
    assert_eq!(project_metadata("not toml ["), "");
    assert_eq!(project_metadata(""), "");
    assert_eq!(
        metadata_from(&Some("n".to_string()), &None, &Some("d".to_string()), Some(0)),
        "프로젝트명: n\n설명: d\n의존성 수: 0\n"
    );
}

#[test]
fn survey_collects_files_and_samples() {
    let mut survey = ProjectSurvey::new();
    let long: String = (1..=60).map(|i| format!("l{}\n", i)).collect();
    survey.add_file("README.md", Some("md"), "# title\n");
    survey.add_file("src/a.rs", Some("rs"), &long);
    survey.add_file("src/b.rs", Some("rs"), "fn b() {}\n");
    survey.add_file("Makefile", None, "all:\n\ttrue\n");
    survey.add_file("x.py", Some("py"), "pass");
    assert_eq!(survey.file_count, 5);
    assert_eq!(survey.total_lines, 1 + 60 + 1 + 2 + 1);
    assert_eq!(
        survey.files_info,
        vec!["- README.md (1 줄)", "- src/a.rs (60 줄)", "- src/b.rs (1 줄)", "- Makefile (2 줄)", "- x.py (1 줄)"]
    );
    let stats: Vec<(String, usize)> = survey.language_stats.iter().map(|c| (c.language.clone(), c.file_count)).collect();
    assert_eq!(stats, vec![("rs".to_string(), 2), ("py".to_string(), 1)]);
    let preview: Vec<String> = (1..=20).map(|i| format!("l{}", i)).collect();
    assert_eq!(survey.code_samples, vec![format!("파일: src/a.rs\n```rs\n{}\n```", preview.join("\n"))]);
    let dirs = vec!["src".to_string(), "tests".to_string()];
    let expected = format!(
        "=== 프로젝트 정보 ===\nMETA\n프로젝트 타입: Rust\n총 파일: 5\n총 코드 라인: 65\n\n언어별 파일:\n- rs: 2 파일\n- py: 1 파일\n\n=== 디렉토리 구조 ===\n- src/\n- tests/\n\n=== 주요 파일 ===\n- README.md (1 줄)\n- src/a.rs (60 줄)\n- src/b.rs (1 줄)\n- Makefile (2 줄)\n- x.py (1 줄)\n\n=== 코드 샘플 ===\n\n{}\n",
        survey.code_samples[0]
    );
    assert_eq!(survey.summary("META", "Rust", &dirs), expected);
}

#[test]
fn survey_limits_samples_directories_and_files() {
    let mut survey = ProjectSurvey::new();
    let long: String = (1..=51).map(|i| format!("{}\n", i)).collect();
    for i in 0..20 {
        survey.add_file(&format!("f{}.go", i), Some("go"), &long);
    }
    assert_eq!(survey.code_samples.len(), 5);
    let dirs: Vec<String> = (0..12).map(|i| format!("d{}", i)).collect();
    let text = survey.summary("", "Go", &dirs);
    assert!(text.contains("- d9/\n\n=== 주요 파일 ==="));
    assert!(!text.contains("d10"));
    assert!(text.contains("- f14.go (51 줄)\n\n=== 코드 샘플 ==="));
    assert!(!text.contains("- f15.go"));
    let empty = ProjectSurvey::new();
    assert_eq!(
        empty.summary("", "Unknown", &vec![]),
        "=== 프로젝트 정보 ===\n\n프로젝트 타입: Unknown\n총 파일: 0\n총 코드 라인: 0\n\n=== 디렉토리 구조 ===\n\n=== 주요 파일 ===\n"
    );
}

#[test]
fn progress_bar_fills_with_the_percentage() {
    assert_eq!(render_progress("job", 0, false), format!("\rjob: [{}] 0%", "░".repeat(50)));
    assert_eq!(
        render_progress("job", 37, false),
        format!("\rjob: [{}{}] 37%", "█".repeat(18), "░".repeat(32))
    );
    assert_eq!(render_progress("작업", 100, true), format!("\r작업: [{}] 100% ✓\n", "█".repeat(50)));
}

#[test]
fn splash_titles() {
    assert_eq!(display_mini_splash(), "RICCI CLI - AI Development Assistant");
    let banner = display_splash().unwrap();
    assert!(banner.lines().count() >= 5);
    assert!(banner.contains("____"));
    assert_ne!(banner, "RICCI CLI");
}

#[test]
fn steps_follow_the_options() {
    let mut options = CodeAssistantOptions::default();
    assert_eq!(
        analyze_file_interactive(&options),
        vec![AnalysisStep::Quality, AnalysisStep::Refactoring, AnalysisStep::Performance, AnalysisStep::Security]
    );
    options.toggle("1");
    options.toggle("3");
    options.toggle("5");
    options.toggle("6");
    assert_eq!(
        analyze_file_interactive(&options),
        vec![AnalysisStep::Refactoring, AnalysisStep::Security, AnalysisStep::Tests, AnalysisStep::Documentation]
    );
    options.toggle("2");
    options.toggle("4");
    options.toggle("5");
    options.toggle("6");
    assert_eq!(analyze_file_interactive(&options), Vec::<AnalysisStep>::new());
}

#[test]
fn survey_of_scanned_files() {
    let file = |path: &str, ext: &str, content: Option<&str>| ScannedFile {
        path: path.to_string(),
        extension: ext.to_string(),
        content: content.map(|c| c.to_string()),
    };
    let files = vec![
        file("a.rs", "rs", Some("x\ny\n")),
        file("secret.bin", "bin", None),
        file("Makefile", "", Some("all:\n")),
        file("b.rs", "rs", Some("z")),
    ];
    let survey = analyze_project_interactive(&files).unwrap();
    let mut expected = ProjectSurvey::new();
    expected.add_file("a.rs", Some("rs"), "x\ny\n");
    expected.add_file("Makefile", None, "all:\n");
    expected.add_file("b.rs", Some("rs"), "z");
    assert_eq!(survey.files_info, expected.files_info);
    assert_eq!(survey.files_info, vec!["- a.rs (2 줄)", "- Makefile (1 줄)", "- b.rs (1 줄)"]);
    assert_eq!((survey.file_count, survey.total_lines), (3, 4));
    assert_eq!(survey.language_stats, expected.language_stats);
    assert_eq!(survey.language_stats.len(), 1);
    assert_eq!(survey.language_stats[0].file_count, 2);
    assert!(survey.code_samples.is_empty());
}
