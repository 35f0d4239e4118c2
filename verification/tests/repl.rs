use ricci_cli::assistant::types::ChatMode;
use ricci_cli::handlers::analysis::{handle_analyze, handle_plan, AnalysisKind, PlanFormat};
use ricci_cli::handlers::chat::{
    complete_command, handle_chat, hint_command, next_mode, prompt, AppMode, ReplAction,
};
use ricci_cli::handlers::command::{
    new_summary_file_name, handle_special_command, summary_file_name, SpecialCommand,
};
use ricci_cli::handlers::completion::{
    bash_addition, detect_shell, install_completions, powershell_addition, reload_command,
    zsh_addition, ShellKind,
};
use ricci_cli::handlers::shell::{decode_output, invocation, execute_shell_command, ShellNotice};

#[test]
fn empty_line_asks_for_nothing() {
    assert_eq!(handle_chat(AppMode::Command, "  \t "), ReplAction::Nothing);
    assert_eq!(handle_chat(AppMode::Chat, ""), ReplAction::Nothing);
}

#[test]
fn command_mode_shortcuts() {
    for line in ["c", "chat", "/chat", "  chat  "] {
        assert_eq!(handle_chat(AppMode::Command, line), ReplAction::EnterChat);
    }
    for line in ["h", "/help"] {
        assert_eq!(handle_chat(AppMode::Command, line), ReplAction::ShowHelp);
    }
    for line in ["p", "/summary"] {
        assert_eq!(handle_chat(AppMode::Command, line), ReplAction::Special("/summary".to_string()));
    }
    for line in ["폴더분석", "폴더 분석", "구조분석", "구조 분석"] {
        assert_eq!(handle_chat(AppMode::Command, line), ReplAction::AnalyzeStructure);
    }
    for line in ["파일분석", "파일 분석", "코드분석", "코드 분석"] {
        assert_eq!(handle_chat(AppMode::Command, line), ReplAction::AskFilePath);
    }
    for line in ["하위폴더 코드분석", "하위폴더 분석", "전체 코드분석", "전체 코드 분석"] {
        assert_eq!(handle_chat(AppMode::Command, line), ReplAction::AnalyzeFolder);
    }
    for line in ["작업계획서", "계획서", "작업정리", "작업 정리"] {
        assert_eq!(handle_chat(AppMode::Command, line), ReplAction::WritePlan);
    }
    for line in ["안녕", "하이", "헬로"] {
        assert_eq!(handle_chat(AppMode::Command, line), ReplAction::Greet);
    }
}

#[test]
fn command_mode_commands_questions_and_shell() {
    assert_eq!(handle_chat(AppMode::Command, "/review src/a.rs"), ReplAction::Special("/review src/a.rs".to_string()));
    assert_eq!(handle_chat(AppMode::Command, "? what is this"), ReplAction::Ask("what is this".to_string()));
    assert_eq!(handle_chat(AppMode::Command, "@?@ hi there "), ReplAction::Ask("hi there".to_string()));
    assert_eq!(handle_chat(AppMode::Command, "?"), ReplAction::Nothing);
    assert_eq!(handle_chat(AppMode::Command, "@  "), ReplAction::Nothing);
    assert_eq!(handle_chat(AppMode::Command, "ls -la"), ReplAction::Shell("ls -la".to_string()));
    assert_eq!(handle_chat(AppMode::Command, "exit"), ReplAction::Shell("exit".to_string()));
    assert_eq!(handle_chat(AppMode::Command, "chat now"), ReplAction::Shell("chat now".to_string()));
}

#[test]
fn chat_mode_sends_everything_but_exit() {
    assert_eq!(handle_chat(AppMode::Chat, "exit"), ReplAction::LeaveChat);
    assert_eq!(handle_chat(AppMode::Chat, " quit "), ReplAction::LeaveChat);
    assert_eq!(handle_chat(AppMode::Chat, "/help"), ReplAction::Ask("/help".to_string()));
    assert_eq!(handle_chat(AppMode::Chat, "c"), ReplAction::Ask("c".to_string()));
    assert_eq!(handle_chat(AppMode::Chat, " 안녕 "), ReplAction::Ask("안녕".to_string()));
}

#[test]
fn mode_changes_with_enter_and_leave() {
    assert_eq!(next_mode(AppMode::Command, &ReplAction::EnterChat), AppMode::Chat);
    assert_eq!(next_mode(AppMode::Chat, &ReplAction::LeaveChat), AppMode::Command);
    assert_eq!(next_mode(AppMode::Chat, &ReplAction::Ask("x".to_string())), AppMode::Chat);
    assert_eq!(next_mode(AppMode::Command, &ReplAction::Greet), AppMode::Command);
    assert_eq!(prompt(AppMode::Command), "ricci> ");
    assert_eq!(prompt(AppMode::Chat), "ricci (chat)> ");
}

#[test]
fn commands_are_completed() {
    assert_eq!(complete_command("ls"), None);
    assert_eq!(complete_command(""), None);
    assert_eq!(complete_command("/c").unwrap(), vec!["/clear", "/context", "/cls", "/chat"]);
    assert_eq!(complete_command("/s").unwrap(), vec!["/save", "/summary"]);
    assert_eq!(complete_command("/x").unwrap(), Vec::<String>::new());
    assert_eq!(complete_command("/").unwrap().len(), 13);
    assert_eq!(complete_command("/help").unwrap(), vec!["/help"]);
}

#[test]
fn commands_are_hinted() {
    assert_eq!(hint_command("/cl"), Some("ear".to_string()));
    assert_eq!(hint_command("/c"), Some("lear".to_string()));
    assert_eq!(hint_command("/su"), Some("mmary".to_string()));
    assert_eq!(hint_command("/help"), None);
    assert_eq!(hint_command("/zzz"), None);
    assert_eq!(hint_command("cl"), None);
    assert_eq!(hint_command(""), None);
}

#[test]
fn special_commands_are_parsed() {
    assert_eq!(handle_special_command("/clear"), SpecialCommand::Clear);
    assert_eq!(handle_special_command("/cls"), SpecialCommand::ClearScreen);
    assert_eq!(handle_special_command("/new"), SpecialCommand::NewConversation);
    assert_eq!(handle_special_command("/context"), SpecialCommand::ShowContext);
    assert_eq!(handle_special_command("/save"), SpecialCommand::SaveSession);
    assert_eq!(handle_special_command("/help"), SpecialCommand::Help);
    assert_eq!(handle_special_command("/plan"), SpecialCommand::PlanTemplates);
    assert_eq!(handle_special_command("/analyze"), SpecialCommand::Analyze);
    assert_eq!(handle_special_command("/summary"), SpecialCommand::Summary);
    assert_eq!(handle_special_command("/nothing"), SpecialCommand::Unknown);
    assert_eq!(handle_special_command("/clear "), SpecialCommand::Unknown);
    assert_eq!(handle_special_command("/review"), SpecialCommand::Unknown);
    assert_eq!(handle_special_command(""), SpecialCommand::Unknown);
}

#[test]
fn special_commands_with_arguments() {
    assert_eq!(handle_special_command("/review  src/main.rs "), SpecialCommand::Review("src/main.rs".to_string()));
    assert_eq!(handle_special_command("/review /review x"), SpecialCommand::Review("x".to_string()));
    assert_eq!(handle_special_command("/review "), SpecialCommand::Review(String::new()));
    let modes = [ChatMode::Normal, ChatMode::Concise, ChatMode::Detailed, ChatMode::Code, ChatMode::Planning];
    for (i, mode) in modes.iter().enumerate() {
        assert_eq!(handle_special_command(&format!("/mode {}", i + 1)), SpecialCommand::SetMode(*mode));
    }
    assert_eq!(handle_special_command("/mode  3 "), SpecialCommand::SetMode(ChatMode::Detailed));
    assert_eq!(handle_special_command("/mode 6"), SpecialCommand::BadMode);
    assert_eq!(handle_special_command("/mode code"), SpecialCommand::BadMode);
    assert_eq!(
        handle_special_command("/doc src/lib.rs"),
        SpecialCommand::Doc { target: "src/lib.rs".to_string(), doc_type: "readme".to_string() }
    );
    assert_eq!(
        handle_special_command("/doc  src/lib.rs  api extra"),
        SpecialCommand::Doc { target: "src/lib.rs".to_string(), doc_type: "api".to_string() }
    );
    assert_eq!(handle_special_command("/doc "), SpecialCommand::Nothing);
}

#[test]
fn summary_file_is_named_after_the_time() {
    assert_eq!(summary_file_name("20240102_030405"), "plan_20240102_030405.md");
    let name = new_summary_file_name();
    assert!(name.starts_with("plan_20") && name.ends_with(".md"));
    assert_eq!(name.len(), "plan_20240102_030405.md".len());
}

#[test]
fn plan_formats_and_analysis_kinds() {
    assert_eq!(handle_plan("markdown"), Ok(PlanFormat::Markdown));
    assert_eq!(handle_plan("json"), Ok(PlanFormat::Json));
    assert_eq!(handle_plan("yaml"), Ok(PlanFormat::Yaml));
    assert_eq!(handle_plan("xml"), Err("지원하지 않는 형식: xml".to_string()));
    assert_eq!(handle_analyze("structure"), Ok(AnalysisKind::Structure));
    assert_eq!(handle_analyze("dependencies"), Ok(AnalysisKind::Dependencies));
    assert_eq!(handle_analyze("complexity"), Ok(AnalysisKind::Complexity));
    assert_eq!(handle_analyze("all"), Ok(AnalysisKind::All));
    assert_eq!(handle_analyze("deps"), Err("지원하지 않는 분석 유형: deps".to_string()));
}

#[test]
fn shell_is_detected() {
    assert_eq!(detect_shell(true, Some("/bin/zsh")), ShellKind::PowerShell);
    assert_eq!(detect_shell(false, Some("/bin/bash")), ShellKind::Bash);
    assert_eq!(detect_shell(false, Some("/usr/bin/zsh")), ShellKind::Zsh);
    assert_eq!(detect_shell(false, Some("/usr/local/bin/fish")), ShellKind::Fish);
    assert_eq!(detect_shell(false, Some("/bin/tcsh")), ShellKind::Bash);
    assert_eq!(detect_shell(false, Some("/opt/zsh/bin/bash")), ShellKind::Bash);
    assert_eq!(detect_shell(false, None), ShellKind::Bash);
    assert_eq!(reload_command(ShellKind::Bash), "  source ~/.bashrc");
    assert_eq!(reload_command(ShellKind::Zsh), "  source ~/.zshrc");
    assert_eq!(reload_command(ShellKind::PowerShell), "  . $PROFILE");
    assert_eq!(reload_command(ShellKind::Fish), "  source ~/.config/fish/config.fish");
}

#[test]
fn start_up_files_get_their_hook_once() {
    assert_eq!(
        bash_addition("export A=1\n"),
        Some("\n# Ricci CLI 자동완성\n[ -f ~/.local/share/bash-completion/completions/ricci ] && source ~/.local/share/bash-completion/completions/ricci\n".to_string())
    );
    assert_eq!(bash_addition("source ~/.local/share/bash-completion/completions/ricci"), None);
    assert_eq!(
        zsh_addition(""),
        Some("\n# Ricci CLI 자동완성\nfpath=(~/.local/share/zsh/completions $fpath)\nautoload -Uz compinit && compinit\n".to_string())
    );
    assert_eq!(zsh_addition("fpath=(~/.local/share/zsh/completions $fpath)"), None);
    assert_eq!(
        powershell_addition("", "C:\\ricci.ps1"),
        Some("\n# Ricci CLI 자동완성\n. \"C:\\ricci.ps1\"\n".to_string())
    );
    assert_eq!(powershell_addition("x\n. \"C:\\ricci.ps1\"\ny", "C:\\ricci.ps1"), None);
}

#[test]
fn phrases_become_commands() {
    for phrase in ["해당 하위 폴더구조 분석좀", "폴더 분석", "구조 분석"] {
        let r = execute_shell_command(phrase);
        assert_eq!(r.notice, ShellNotice::AnalyzingStructure);
        assert_eq!(r.command.as_deref(), Some("ricci analyze ."));
    }
    for phrase in ["파일 분석", "코드 분석"] {
        let r = execute_shell_command(phrase);
        assert_eq!((r.notice, r.command), (ShellNotice::WantsFilePath, None));
    }
    for phrase in ["작업계획서", "계획서 작성", "작업 정리"] {
        let r = execute_shell_command(phrase);
        assert_eq!(r.notice, ShellNotice::WritingPlan);
        assert_eq!(r.command.as_deref(), Some("ricci plan \"현재 대화 내용 정리\""));
    }
    let r = execute_shell_command("cargo build");
    assert_eq!((r.notice, r.command.as_deref()), (ShellNotice::Silent, Some("cargo build")));
}

#[test]
fn shell_invocation_by_platform() {
    let unix = invocation("ls -l", false);
    assert_eq!(unix.program, "sh");
    assert_eq!(unix.arguments, vec!["-c", "ls -l"]);
    let windows = invocation("dir", true);
    assert_eq!(windows.program, "powershell");
    assert_eq!(
        windows.arguments,
        vec!["-NoProfile", "-Command", "[Console]::OutputEncoding = [System.Text.Encoding]::UTF8; dir"]
    );
}

#[test]
fn output_is_decoded() {
    assert_eq!(decode_output(&"한글 ok".as_bytes().to_vec(), false), Some("한글 ok".to_string()));
    assert_eq!(decode_output(&vec![], true), Some(String::new()));
    // "한글" in EUC-KR
    let euc_kr = vec![0xC7, 0xD1, 0xB1, 0xDB];
    assert_eq!(decode_output(&euc_kr, false), None);
    assert_eq!(decode_output(&euc_kr, true), Some("한글".to_string()));
}

#[test]
fn completions_go_to_the_shell_asked_for() {
    assert_eq!(install_completions(Some(ShellKind::Fish), true, Some("/bin/zsh")), ShellKind::Fish);
    assert_eq!(install_completions(None, false, Some("/bin/zsh")), ShellKind::Zsh);
    assert_eq!(install_completions(None, true, None), ShellKind::PowerShell);
}
