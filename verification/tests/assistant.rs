use ricci_cli::assistant::batch::{BatchAction, BatchResult};
use ricci_cli::assistant::export::{
    conversation_markdown, export_conversation, extract_task_title,
    extract_tasks_from_conversation, suggest_next_steps, summarize_conversation, TaskItem,
};
use ricci_cli::assistant::prompts::{build_doc_prompt, project_analysis_prompt, review_prompt};
use ricci_cli::assistant::review::{CodeReview, ReviewSummary};
use ricci_cli::assistant::types::{
    AssistantContext, ChatMode, CodeSuggestion, IssueCategory, IssueSeverity, Message, ProjectInfo,
    ReviewIssue,
};
use ricci_cli::assistant::{
    classify_chat_input, parse_chat_command, parse_mode, ChatCommand, ChatInput, ChatTurn,
    DevAssistant, StreamEvent, StreamStep,
};
use ricci_cli::api::{ChatMessage, ChatRole};
use ricci_cli::config::types::Config;
use ricci_cli::config::validators::ConfigError;
use ricci_cli::config::load_config;
use ricci_cli::renderer::Segment;

fn settings() -> Config {
    let mut config = load_config(String::from("sessions"), None, None, None);
    config.openai_api_key = Some(String::from("key-of-the-test"));
    config
}

fn assistant() -> DevAssistant {
    DevAssistant::new(settings()).unwrap()
}

fn msg(role: &str, content: &str, timestamp: i64) -> Message {
    Message { role: role.to_string(), content: content.to_string(), timestamp }
}

fn project(framework: Option<&str>) -> ProjectInfo {
    ProjectInfo {
        name: "ricci".to_string(),
        language: "Rust".to_string(),
        framework: framework.map(|f| f.to_string()),
        dependencies: vec![],
        structure: String::new(),
    }
}

#[test]
fn new_assistant_is_empty_and_normal() {
    let a = assistant();
    assert_eq!(a.get_mode(), ChatMode::Normal);
    assert!(a.context().messages.is_empty());
    assert!(a.context().current_files.is_empty());
    assert!(a.context().project_info.is_none());
    assert_eq!(a.get_system_prompt(), "You are a helpful development assistant.");
}

#[test]
fn default_context_is_empty() {
    let c = AssistantContext::default();
    assert!(c.messages.is_empty() && c.current_files.is_empty() && c.project_info.is_none());
}

#[test]
fn system_prompt_follows_mode() {
    let mut a = assistant();
    let expected = [
        (ChatMode::Normal, "You are a helpful development assistant."),
        (ChatMode::Concise, "You are a concise assistant. Keep responses brief and to the point."),
        (
            ChatMode::Detailed,
            "You are a detailed assistant. Provide comprehensive explanations with examples.",
        ),
        (
            ChatMode::Code,
            "You are a code-focused assistant. Prioritize code examples and technical details.",
        ),
        (
            ChatMode::Planning,
            "You are a project planning assistant. Focus on architecture, design, and planning.",
        ),
    ];
    for (mode, prompt) in expected {
        a.set_mode(mode);
        assert_eq!(a.get_mode(), mode);
        assert_eq!(a.get_system_prompt(), prompt);
    }
}

#[test]
fn context_file_is_added_once() {
    let mut a = assistant();
    a.add_context_file("src/main.rs");
    a.add_context_file("src/lib.rs");
    a.add_context_file("src/main.rs");
    assert_eq!(a.context().current_files, vec!["src/main.rs", "src/lib.rs"]);
}

#[test]
fn clear_context_forgets_messages_and_files_only() {
    let mut a = assistant();
    a.add_context_file("a");
    a.add_message_at("user", "hi", 1);
    a.load_project_context(project(None));
    a.set_mode(ChatMode::Code);
    a.clear_context();
    assert!(a.context().messages.is_empty());
    assert!(a.context().current_files.is_empty());
    assert!(a.context().project_info.is_some());
    assert_eq!(a.get_mode(), ChatMode::Code);
}

#[test]
fn add_message_records_role_and_content() {
    let mut a = assistant();
    a.add_message("user", "question");
    a.add_message_at("assistant", "answer", 42);
    let m = &a.context().messages;
    assert_eq!(m.len(), 2);
    assert_eq!((m[0].role.as_str(), m[0].content.as_str()), ("user", "question"));
    assert!(m[0].timestamp > 1_600_000_000);
    assert_eq!((m[1].role.as_str(), m[1].content.as_str(), m[1].timestamp), ("assistant", "answer", 42));
}

#[test]
fn restore_puts_back_a_context() {
    let mut a = assistant();
    a.load_session(AssistantContext {
        messages: vec![msg("user", "x", 5)],
        project_info: Some(project(None)),
        current_files: vec!["f".to_string()],
    });
    assert_eq!(a.context().messages.len(), 1);
    assert_eq!(a.context().current_files, vec!["f"]);
    assert_eq!(a.get_context_summary(), "프로젝트: ricci (Rust)\n대화 기록: 1 개\n");
}

#[test]
fn chat_input_is_classified() {
    assert_eq!(classify_chat_input("   \t"), ChatInput::Empty);
    assert_eq!(classify_chat_input(""), ChatInput::Empty);
    assert_eq!(classify_chat_input(" exit "), ChatInput::Exit);
    assert_eq!(classify_chat_input("/mode code"), ChatInput::Command("mode code".to_string()));
    assert_eq!(classify_chat_input("/"), ChatInput::Command(String::new()));
    assert_eq!(classify_chat_input(" hello there\n"), ChatInput::Message("hello there".to_string()));
    assert_eq!(classify_chat_input("exit now"), ChatInput::Message("exit now".to_string()));
}

#[test]
fn modes_are_parsed_by_name() {
    assert_eq!(parse_mode("normal"), Some(ChatMode::Normal));
    assert_eq!(parse_mode("concise"), Some(ChatMode::Concise));
    assert_eq!(parse_mode("detailed"), Some(ChatMode::Detailed));
    assert_eq!(parse_mode("code"), Some(ChatMode::Code));
    assert_eq!(parse_mode("planning"), Some(ChatMode::Planning));
    assert_eq!(parse_mode("Code"), None);
    assert_eq!(parse_mode(""), None);
}

#[test]
fn chat_commands_are_parsed() {
    assert_eq!(parse_chat_command("clear"), ChatCommand::Clear);
    assert_eq!(parse_chat_command("  clear   now"), ChatCommand::Clear);
    assert_eq!(parse_chat_command("mode"), ChatCommand::ShowMode);
    assert_eq!(parse_chat_command("mode detailed"), ChatCommand::SetMode(ChatMode::Detailed));
    assert_eq!(parse_chat_command("mode fancy"), ChatCommand::UnknownMode);
    assert_eq!(parse_chat_command("save"), ChatCommand::Save("chat_history.md".to_string()));
    assert_eq!(parse_chat_command("save out.md more"), ChatCommand::Save("out.md".to_string()));
    assert_eq!(parse_chat_command(""), ChatCommand::Unknown);
    assert_eq!(parse_chat_command("help"), ChatCommand::Unknown);
}

#[test]
fn handle_command_changes_the_assistant() {
    let mut a = assistant();
    a.add_message_at("user", "x", 1);
    assert_eq!(a.handle_command("mode planning"), ChatCommand::SetMode(ChatMode::Planning));
    assert_eq!(a.get_mode(), ChatMode::Planning);
    assert_eq!(a.handle_command("mode nope"), ChatCommand::UnknownMode);
    assert_eq!(a.get_mode(), ChatMode::Planning);
    assert_eq!(a.context().messages.len(), 1);
    assert_eq!(a.handle_command("clear"), ChatCommand::Clear);
    assert!(a.context().messages.is_empty());
}

#[test]
fn context_summary_lists_project_and_count() {
    let mut a = assistant();
    assert_eq!(a.get_context_summary(), "대화 기록: 0 개\n");
    a.load_project_context(project(Some("tokio")));
    a.add_message_at("user", "a", 1);
    a.add_message_at("assistant", "b", 2);
    assert_eq!(
        a.get_context_summary(),
        "프로젝트: ricci (Rust)\n프레임워크: tokio\n대화 기록: 2 개\n"
    );
}

#[test]
fn streaming_collects_the_answer_and_renders_it() {
    let mut a = assistant();
    a.set_mode(ChatMode::Concise);
    let prompt = a.begin_response("show code");
    assert_eq!(prompt, "You are a concise assistant. Keep responses brief and to the point.");
    assert_eq!(a.push_chunk("Here:\n``"), Vec::<Segment>::new());
    assert_eq!(a.push_chunk("`rs\nlet x;\n"), vec![Segment::Prose("Here:\n".to_string())]);
    assert_eq!(
        a.push_chunk("```\nbye"),
        vec![Segment::Code { language: "rs".to_string(), code: "let x;\n".to_string() }]
    );
    assert_eq!(a.finish_response(true), vec![Segment::Prose("bye\n".to_string())]);
    let m = &a.context().messages;
    assert_eq!(m.len(), 2);
    assert_eq!((m[0].role.as_str(), m[0].content.as_str()), ("user", "show code"));
    assert_eq!(
        (m[1].role.as_str(), m[1].content.as_str()),
        ("assistant", "Here:\n```rs\nlet x;\n```\nbye")
    );
}

#[test]
fn silent_stream_is_noted_when_asked() {
    let mut a = assistant();
    a.begin_response("q");
    assert_eq!(a.finish_response(true), Vec::<Segment>::new());
    assert_eq!(a.context().messages[1].content, "응답을 받지 못했습니다.");
    a.begin_response("q2");
    a.finish_response(false);
    assert_eq!(a.context().messages[3].content, "");
    a.begin_response("q3");
    a.push_chunk("");
    a.finish_response(true);
    assert_eq!(a.context().messages[5].content, "");
}

#[test]
fn begin_response_discards_an_unfinished_answer() {
    let mut a = assistant();
    a.begin_response("one");
    a.push_chunk("```x\nleft over");
    a.begin_response("two");
    assert_eq!(a.push_chunk("plain\n"), Vec::<Segment>::new());
    assert_eq!(a.finish_response(false), vec![Segment::Prose("plain\n".to_string())]);
    assert_eq!(a.context().messages.last().unwrap().content, "plain\n");
}

#[test]
fn failed_call_is_recorded() {
    let mut a = assistant();
    a.fail_response("timeout");
    let m = &a.context().messages[0];
    assert_eq!((m.role.as_str(), m.content.as_str()), ("assistant", "오류가 발생했습니다: timeout"));
}

#[test]
fn suggestions_become_a_reviewed_batch() {
    let a = assistant();
    let batch = a.apply_code_suggestions(vec![CodeSuggestion {
        file_path: "src/main.rs".to_string(),
        original_code: "old".to_string(),
        suggested_code: "new".to_string(),
        reason: "why".to_string(),
    }]);
    let c = &batch.changes()[0];
    assert_eq!(
        (c.path.as_str(), c.original_content.as_str(), c.new_content.as_str(), c.description.as_str()),
        ("src/main.rs", "old", "new", "why")
    );
    assert_eq!(batch.action(), BatchAction::Present { index: 0, with_diff: true });
    let batch = batch.handle(ricci_cli::assistant::batch::BatchEvent::Presented);
    assert_eq!(batch.action(), BatchAction::Prompt { index: 0 });
    let empty = a.apply_code_suggestions(vec![]);
    assert_eq!(empty.action(), BatchAction::Finish(BatchResult::NothingToDo));
}

#[test]
fn safe_modify_files_plans_backups() {
    let a = assistant();
    let run = a.safe_modify_files(
        vec![ricci_cli::assistant::batch::FileChange {
            path: "a/b.rs".to_string(),
            original_content: "o".to_string(),
            new_content: "n".to_string(),
            description: String::new(),
        }],
        &vec![true],
    );
    assert_eq!(run.backup_dir, ".ricci_backups");
    assert_eq!(run.copies.len(), 1);
    assert!(run.copies[0].to.starts_with(".ricci_backups/a_b.rs_"));
}

#[test]
fn task_title_is_the_first_sentence() {
    assert_eq!(extract_task_title("Fix the bug. Then test."), "Fix the bug");
    assert_eq!(extract_task_title("What now? ok"), "What now");
    assert_eq!(extract_task_title("no terminator"), "no terminator");
    assert_eq!(extract_task_title(""), "");
    assert_eq!(extract_task_title(".x"), "");
}

#[test]
fn long_task_title_is_cut_at_fifty_bytes() {
    let long = "a".repeat(60);
    assert_eq!(extract_task_title(&long), format!("{}...", "a".repeat(50)));
    let exact = "b".repeat(50);
    assert_eq!(extract_task_title(&exact), exact);
    // 17 characters of three bytes: the first sixteen fill 48 bytes, the next would end at 51
    let korean = "가".repeat(17);
    assert_eq!(extract_task_title(&korean), format!("{}...", "가".repeat(16)));
    // a boundary at exactly fifty bytes
    let mixed = format!("ab{}", "나".repeat(17));
    assert_eq!(extract_task_title(&mixed), format!("ab{}...", "나".repeat(16)));
}

#[test]
fn tasks_are_requests_for_work() {
    let messages = vec![
        msg("user", "로그인 기능을 구현해줘. 빨리", 0),
        msg("assistant", "네", 1),
        msg("user", "안녕하세요", 2),
        msg("assistant", "파서를 만들 수 있습니다", 3),
        msg("user", "테스트 추가", 4),
    ];
    let tasks = extract_tasks_from_conversation(&messages);
    assert_eq!(
        tasks,
        vec![
            TaskItem {
                title: "로그인 기능을 구현해줘".to_string(),
                description: "로그인 기능을 구현해줘. 빨리".to_string(),
                status: "완료".to_string(),
            },
            TaskItem {
                title: "테스트 추가".to_string(),
                description: "테스트 추가".to_string(),
                status: "대기".to_string(),
            },
        ]
    );
}

#[test]
fn next_steps_mention_pending_tasks() {
    let done = TaskItem { title: "t".into(), description: "d".into(), status: "완료".into() };
    let waiting = TaskItem { title: "t".into(), description: "d".into(), status: "대기".into() };
    assert_eq!(
        suggest_next_steps(&vec![done.clone()]),
        vec!["작성된 코드에 대한 테스트 코드 작성", "문서화 및 README 업데이트", "코드 리뷰 및 리팩토링"]
    );
    assert_eq!(
        suggest_next_steps(&vec![waiting.clone(), done, waiting]),
        vec![
            "미완료 작업 2 개를 완료하기",
            "작성된 코드에 대한 테스트 코드 작성",
            "문서화 및 README 업데이트",
            "코드 리뷰 및 리팩토링"
        ]
    );
}

#[test]
fn summary_counts_user_requests() {
    assert_eq!(summarize_conversation(&vec![]), "대화 내용이 없습니다.");
    let messages = vec![
        msg("user", "first thing. more", 0),
        msg("assistant", "ok", 1),
        msg("user", "second", 2),
    ];
    assert_eq!(
        summarize_conversation(&messages),
        "총 2 개의 사용자 요청이 있었습니다:\n\n1. first thing\n2. second\n"
    );
    assert_eq!(
        summarize_conversation(&vec![msg("assistant", "x", 0)]),
        "총 0 개의 사용자 요청이 있었습니다:\n\n"
    );
}

#[test]
fn transcript_has_date_and_sections() {
    let messages = vec![msg("user", "hello", 3661), msg("assistant", "hi", 86399)];
    assert_eq!(
        conversation_markdown(&messages, 1_700_000_000),
        "# 대화 기록\n\n생성일: 2023-11-14 22:13:20\n\n## USER (01:01:01)\n\nhello\n\n## ASSISTANT (23:59:59)\n\nhi\n\n"
    );
}

#[test]
fn time_of_day_before_the_epoch() {
    let messages = vec![msg("user", "x", -1), msg("user", "y", -86400)];
    assert_eq!(
        export_conversation(&messages, &None, "text", 0),
        "[23:59:59] user: x\n\n[00:00:00] user: y\n\n"
    );
}

#[test]
fn plan_export_in_markdown() {
    let messages = vec![msg("user", "파서를 만들어줘", 60), msg("assistant", "done", 61)];
    let text = export_conversation(&messages, &Some(project(Some("axum"))), "markdown", 0);
    let expected = "# 작업 계획서\n**생성일**: 1970-01-01 00:00:00 UTC\n**대화 메시지 수**: 2\n\n\
## 프로젝트 정보\n- **프로젝트명**: ricci\n- **주 언어**: Rust\n- **프레임워크**: axum\n\n\
## 논의된 주요 작업\n\n### 1. 파서를 만들어줘\n**상태**: 완료\n**내용**:\n파서를 만들어줘\n\n\
## 대화 요약\n\n총 1 개의 사용자 요청이 있었습니다:\n\n1. 파서를 만들어줘\n\n\n\
## 다음 단계 제안\n\n1. 작성된 코드에 대한 테스트 코드 작성\n2. 문서화 및 README 업데이트\n3. 코드 리뷰 및 리팩토링\n\
\n<details>\n<summary>전체 대화 기록</summary>\n\n### USER (00:01:00)\n파서를 만들어줘\n\n### ASSISTANT (00:01:01)\ndone\n\n</details>\n";
    assert_eq!(text, expected);
}

#[test]
fn plan_export_without_project_or_messages() {
    let text = export_conversation(&vec![], &None, "markdown", 86400 * 365);
    let expected = "# 작업 계획서\n**생성일**: 1971-01-01 00:00:00 UTC\n**대화 메시지 수**: 0\n\n\
## 논의된 주요 작업\n\n## 대화 요약\n\n대화 내용이 없습니다.\n\n\
## 다음 단계 제안\n\n1. 작성된 코드에 대한 테스트 코드 작성\n2. 문서화 및 README 업데이트\n3. 코드 리뷰 및 리팩토링\n\
\n<details>\n<summary>전체 대화 기록</summary>\n\n</details>\n";
    assert_eq!(text, expected);
}

#[test]
fn assistant_exports_its_own_conversation() {
    let mut a = assistant();
    a.add_message_at("user", "hi", 10);
    assert_eq!(a.export_as_plan("plain"), "[00:00:10] user: hi\n\n");
    assert!(a.export_as_plan("markdown").starts_with("# 작업 계획서\n**생성일**: 20"));
    let saved = a.save_conversation();
    assert!(saved.starts_with("# 대화 기록\n\n생성일: 20"));
    assert!(saved.ends_with("\n\n## USER (00:00:10)\n\nhi\n\n"));
}

#[test]
fn doc_prompts_by_kind() {
    assert_eq!(
        build_doc_prompt("fn a() {}", "api"),
        "다음 코드에 대한 API 문서를 작성해주세요:\n\nfn a() {}\n\n각 public 함수/메서드에 대해 설명, 매개변수, 반환값, 예제를 포함해주세요."
    );
    assert_eq!(
        build_doc_prompt("X", "readme"),
        "다음 프로젝트/코드에 대한 README.md를 작성해주세요:\n\nX\n\n프로젝트 설명, 설치 방법, 사용법, 예제를 포함해주세요."
    );
    assert_eq!(
        build_doc_prompt("X", "tutorial"),
        "다음 코드를 사용하는 방법에 대한 튜토리얼을 작성해주세요:\n\nX\n\n단계별 설명과 실제 사용 예제를 포함해주세요."
    );
    assert_eq!(build_doc_prompt("X", "guide"), "다음에 대한 guide 문서를 작성해주세요:\n\nX");
}

#[test]
fn project_analysis_prompt_asks_for_json() {
    assert_eq!(
        project_analysis_prompt("."),
        "다음 프로젝트 구조를 분석하고 주요 정보를 추출해주세요:\n.\n\nJSON 형식으로 응답해주세요: {\"name\": \"\", \"language\": \"\", \"framework\": \"\", \"dependencies\": [], \"structure\": \"\"}"
    );
}

#[test]
fn review_prompt_embeds_criteria_and_code() {
    let p = review_prompt("security", "let x = 1;");
    assert!(p.starts_with("다음 코드를 검토하고 security 기준으로 평가해주세요:\n\n```\nlet x = 1;\n```\n\nJSON 형식으로 응답해주세요:\n{\n\"overall_score\": 0-100,\n\"issues\": [\n{\n\"severity\": \"Critical|High|Medium|Low|Info\",\n"));
    assert!(p.ends_with("\"suggestions\": [\"전반적인 개선 제안\"],\n\"positive_aspects\": [\"잘된 점\"]\n}"));
}

fn issue(severity: IssueSeverity, suggestion: Option<&str>) -> ReviewIssue {
    ReviewIssue {
        severity,
        category: IssueCategory::BestPractice,
        location: "a.rs:1".to_string(),
        description: "desc".to_string(),
        suggestion: suggestion.map(|s| s.to_string()),
    }
}

#[test]
fn review_markdown_has_all_parts() {
    let review = CodeReview {
        overall_score: "87.5".to_string(),
        issues: vec![issue(IssueSeverity::Critical, Some("fix")), issue(IssueSeverity::Info, None)],
        suggestions: vec!["s1".to_string()],
        positive_aspects: vec!["clear names".to_string(), "small functions".to_string()],
    };
    let expected = "# 코드 리뷰 결과\n\n**전체 점수**: 87.5/100\n\n## 👍 잘된 점\n\n- clear names\n- small functions\n\n\
## 🔍 발견된 문제\n\n### 🔴 Critical - BestPractice\n\n**위치**: a.rs:1\n\ndesc\n\n**제안**: fix\n\n\
### ℹ️ Info - BestPractice\n\n**위치**: a.rs:1\n\ndesc\n\n## 💡 개선 제안\n\n- s1\n";
    assert_eq!(review.format_markdown(), expected);
}

#[test]
fn review_markdown_of_an_empty_review() {
    let review = CodeReview {
        overall_score: "0".to_string(),
        issues: vec![],
        suggestions: vec![],
        positive_aspects: vec![],
    };
    assert_eq!(review.format_markdown(), "# 코드 리뷰 결과\n\n**전체 점수**: 0/100\n\n");
}

#[test]
fn review_summary_counts_by_severity() {
    let review = CodeReview {
        overall_score: "50".to_string(),
        issues: vec![
            issue(IssueSeverity::Critical, None),
            issue(IssueSeverity::High, None),
            issue(IssueSeverity::Critical, None),
            issue(IssueSeverity::Low, None),
        ],
        suggestions: vec!["a".to_string(), "b".to_string()],
        positive_aspects: vec![],
    };
    assert_eq!(
        review.print_summary(),
        ReviewSummary { critical: 2, high: 1, issues: 4, suggestions: 2 }
    );
}

#[test]
fn stream_events_are_followed_until_the_stream_ends() {
    let mut a = assistant();
    assert_eq!(a.stream_response(StreamEvent::Fragment("early".to_string()), true), StreamStep::Ignored);
    assert!(a.context().messages.is_empty());
    a.begin_response("q");
    assert_eq!(
        a.stream_response(StreamEvent::Fragment("one\n```c\nint x;".to_string()), true),
        StreamStep::Rendered(vec![Segment::Prose("one\n".to_string())])
    );
    assert_eq!(
        a.stream_response(StreamEvent::Failed("reset".to_string()), true),
        StreamStep::Ended {
            segments: vec![Segment::Code { language: "c".to_string(), code: "int x;\n".to_string() }],
            error: Some("reset".to_string()),
        }
    );
    assert_eq!(a.context().messages.len(), 2);
    assert_eq!(a.context().messages[1].content, "one\n```c\nint x;");
    // the channel is closed: nothing more is read
    assert_eq!(a.stream_response(StreamEvent::Fragment("late".to_string()), true), StreamStep::Ignored);
    assert_eq!(a.stream_response(StreamEvent::Closed, true), StreamStep::Ignored);
    assert_eq!(a.stream_response(StreamEvent::Failed("again".to_string()), true), StreamStep::Ignored);
    assert_eq!(a.context().messages.len(), 2);
}

#[test]
fn closed_stream_records_the_answer() {
    let mut a = assistant();
    a.begin_response("q");
    a.stream_response(StreamEvent::Fragment("text".to_string()), false);
    assert_eq!(
        a.stream_response(StreamEvent::Closed, false),
        StreamStep::Ended { segments: vec![Segment::Prose("text\n".to_string())], error: None }
    );
    assert_eq!(a.context().messages[1].content, "text");
    a.begin_response("q2");
    assert_eq!(a.stream_response(StreamEvent::Closed, true), StreamStep::Ended { segments: vec![], error: None });
    assert_eq!(a.context().messages[3].content, "응답을 받지 못했습니다.");
}

#[test]
fn lines_of_a_conversation_are_taken_in_turn() {
    let mut a = assistant();
    assert_eq!(a.chat_interactive("   "), ChatTurn::Skip);
    assert_eq!(a.chat_interactive("/mode code"), ChatTurn::Command(ChatCommand::SetMode(ChatMode::Code)));
    assert_eq!(a.get_mode(), ChatMode::Code);
    assert_eq!(
        a.chat_interactive(" how? "),
        ChatTurn::Ask("You are a code-focused assistant. Prioritize code examples and technical details.".to_string())
    );
    assert_eq!(a.context().messages.len(), 1);
    assert_eq!(a.context().messages[0].content, "how?");
    assert_eq!(a.stream_response(StreamEvent::Closed, false), StreamStep::Ended { segments: vec![], error: None });
    assert_eq!(a.chat_interactive("/save notes.md"), ChatTurn::Command(ChatCommand::Save("notes.md".to_string())));
    assert_eq!(a.chat_interactive("/clear"), ChatTurn::Command(ChatCommand::Clear));
    assert!(a.context().messages.is_empty());
    assert_eq!(a.chat_interactive("exit"), ChatTurn::Quit);
}

#[test]
fn documentation_request_of_the_assistant() {
    let a = assistant();
    assert_eq!(a.generate_documentation("X", "guide"), build_doc_prompt("X", "guide"));
    assert_eq!(a.generate_documentation("X", "api"), build_doc_prompt("X", "api"));
}

#[test]
fn an_assistant_needs_the_key_of_its_provider() {
    let mut config = load_config(String::from("sessions"), None, Some(String::from("other")), None);
    assert!(matches!(DevAssistant::new(config.clone()), Err(ConfigError::MissingOpenAiKey)));
    config.model_preferences.default_provider = String::from("anthropic");
    let a = DevAssistant::new(config.clone()).unwrap();
    assert_eq!(a.get_config().model_preferences.default_provider, "anthropic");
    assert_eq!(a.get_config().anthropic_api_key, Some(String::from("other")));
    assert_eq!(a.get_config().output_preferences.session_dir, "sessions");
    config.model_preferences.default_provider = String::from("llama");
    assert!(matches!(
        DevAssistant::new(config),
        Err(ConfigError::UnknownProvider(name)) if name == "llama"
    ));
}

#[test]
fn a_question_goes_out_with_the_default_instruction() {
    let a = assistant();
    let request = a.query("why?");
    assert_eq!(request.model, settings().model_preferences.default_model);
    assert_eq!(request.max_tokens, settings().model_preferences.max_tokens);
    assert!(!request.stream);
    assert_eq!(
        request.messages,
        vec![
            ChatMessage {
                role: ChatRole::System,
                content: String::from("You are a helpful development assistant."),
            },
            ChatMessage { role: ChatRole::User, content: String::from("why?") },
        ]
    );
}

#[test]
fn a_review_is_asked_for_as_one_question() {
    let a = assistant();
    let request = a.review_code("fn main() {}", "security");
    assert!(!request.stream);
    assert_eq!(request.messages.len(), 2);
    assert_eq!(request.messages[1].role, ChatRole::User);
    assert_eq!(request.messages[1].content, review_prompt("security", "fn main() {}"));
    assert!(request.messages[1].content.starts_with("다음 코드를 검토하고 security 기준으로"));
    assert!(request.messages[1].content.contains("```\nfn main() {}\n```"));
}

#[test]
fn the_next_request_carries_the_conversation() {
    let mut a = assistant();
    a.set_mode(ChatMode::Concise);
    a.add_message_at("user", "one", 1);
    a.add_message_at("system", "aside", 2);
    a.add_message_at("assistant", "two", 3);
    let request = a.next_request();
    assert!(request.stream);
    assert_eq!(
        request.messages,
        vec![
            ChatMessage {
                role: ChatRole::System,
                content: String::from(
                    "You are a concise assistant. Keep responses brief and to the point."
                ),
            },
            ChatMessage { role: ChatRole::User, content: String::from("one") },
            ChatMessage { role: ChatRole::Assistant, content: String::from("two") },
        ]
    );
}

#[test]
fn a_saved_session_holds_the_conversation() {
    let mut a = assistant();
    a.add_message_at("user", "hi", 5);
    a.add_context_file("src/main.rs");
    let saved = a.save_session();
    assert_eq!(saved.messages.len(), 1);
    assert_eq!(saved.messages[0].role, "user");
    assert_eq!(saved.messages[0].content, "hi");
    assert_eq!(saved.messages[0].timestamp, 5);
    assert_eq!(saved.current_files, vec![String::from("src/main.rs")]);
    assert!(saved.project_info.is_none());
}
