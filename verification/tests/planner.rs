use ricci_cli::config::types::Config;
use ricci_cli::planner::types::{
    EffortLevel, Milestone, Phase, Priority, ProjectPlan, Risk, RiskLevel, Task,
};
use ricci_cli::planner::ProjectPlanner;
use ricci_cli::renderer::table::{draw_table, render_table};

fn task(name: &str, priority: Priority, criteria: &[&str]) -> Task {
    Task {
        id: "t".to_string(),
        name: name.to_string(),
        description: format!("do {}", name),
        assignee: None,
        priority,
        effort: EffortLevel::Small,
        duration: "2.0-4.0시간 (평균 3.0시간)".to_string(),
        subtasks: vec![],
        acceptance_criteria: criteria.iter().map(|c| c.to_string()).collect(),
    }
}

fn plan() -> ProjectPlan {
    ProjectPlan {
        title: "Plan".to_string(),
        description: "Desc".to_string(),
        objectives: vec!["o1".to_string(), "o2".to_string()],
        phases: vec![
            Phase {
                id: "design".to_string(),
                name: "Design".to_string(),
                description: "think".to_string(),
                tasks: vec![task("sketch", Priority::Critical, &["c1", "c2"]), task("review", Priority::Low, &[])],
                duration: "8.0시간".to_string(),
                dependencies: vec![],
            },
            Phase {
                id: "build".to_string(),
                name: "Build".to_string(),
                description: "make".to_string(),
                tasks: vec![],
                duration: "16.0시간".to_string(),
                dependencies: vec!["design".to_string(), "kickoff".to_string()],
            },
        ],
        milestones: vec![
            Milestone { name: "M1".to_string(), description: "first".to_string(), date: None, deliverables: vec!["doc".to_string()] },
            Milestone { name: "M2".to_string(), description: "second".to_string(), date: Some(5), deliverables: vec![] },
        ],
        risks: vec![Risk {
            description: "late".to_string(),
            probability: RiskLevel::High,
            impact: RiskLevel::Medium,
            mitigation: "start early".to_string(),
        }],
        dependencies: vec![],
        total_duration: "24.0시간".to_string(),
        created_at: 1_700_000_000,
    }
}

#[test]
fn labels_of_priorities_and_risks() {
    assert_eq!(Priority::Critical.label(), "긴급");
    assert_eq!(Priority::High.label(), "높음");
    assert_eq!(Priority::Medium.label(), "보통");
    assert_eq!(Priority::Low.label(), "낮음");
    assert_eq!(Priority::Medium.name(), "Medium");
    assert_eq!(RiskLevel::High.label(), "높음");
    assert_eq!(RiskLevel::Medium.label(), "중간");
    assert_eq!(RiskLevel::Low.label(), "낮음");
}

#[test]
fn plan_as_markdown() {
    let expected = "# Plan\n\nDesc\n\n생성일: 2023-11-14 22:13\n\n\
## 목표\n\n- o1\n- o2\n\n\
## 단계별 계획\n\n\
### 1 Design\n\nthink\n\n**예상 기간**: 8.0시간\n\n**작업 목록**:\n\n\
- **sketch** (긴급)\n  - do sketch\n  - 예상 소요: 2.0-4.0시간 (평균 3.0시간)\n  - 완료 기준:\n    - c1\n    - c2\n\
- **review** (낮음)\n  - do review\n  - 예상 소요: 2.0-4.0시간 (평균 3.0시간)\n\n\
### 2 Build\n\nmake\n\n**의존성**: design, kickoff\n\n**예상 기간**: 16.0시간\n\n\
## 마일스톤\n\n### M1\n\nfirst\n\n**산출물**:\n- doc\n\n### M2\n\nsecond\n\n\
## 위험 요소\n\n- **late** (높음/중간)\n  - 대응: start early\n\n\
## 총 예상 기간\n\n24.0시간\n";
    assert_eq!(plan().to_markdown(), expected);
}

#[test]
fn blank_plan_as_markdown() {
    let p = ProjectPlanner::blank_plan("shop", 0);
    assert_eq!(
        p.to_markdown(),
        "# 프로젝트 계획\n\nshop\n\n생성일: 1970-01-01 00:00\n\n## 총 예상 기간\n\n0.0시간\n"
    );
}

#[test]
fn plan_table_rows() {
    let rows = plan().table_rows();
    assert_eq!(
        rows,
        vec![
            vec!["단계", "작업", "우선순위", "예상 시간"],
            vec!["Design", "sketch", "Critical", "2.0-4.0시간 (평균 3.0시간)"],
            vec!["Design", "review", "Low", "2.0-4.0시간 (평균 3.0시간)"],
        ]
    );
}

#[test]
fn plan_table_is_drawn() {
    let text = plan().to_table();
    let lines: Vec<&str> = text.lines().collect();
    assert_eq!(lines.len(), 7);
    assert!(lines[0].starts_with("+-"));
    assert!(lines[1].starts_with("| 단계"));
    assert!(lines[3].contains("| sketch | Critical "));
    assert!(lines[5].contains("| review | Low "));
    assert_eq!(text, draw_table(&plan().table_rows()));
}

#[test]
fn small_table_is_drawn_exactly() {
    let rows = vec![vec!["a".to_string(), "bc".to_string()], vec!["def".to_string(), "g".to_string()]];
    assert_eq!(draw_table(&rows), "+-----+----+\n| a   | bc |\n+-----+----+\n| def | g  |\n+-----+----+\n");
    assert_eq!(
        render_table(&vec!["h1".to_string(), "h2".to_string()], &rows),
        "+-----+----+\n| h1  | h2 |\n+-----+----+\n| a   | bc |\n+-----+----+\n| def | g  |\n+-----+----+\n"
    );
}

#[test]
fn plan_prompt_by_detail_and_estimates() {
    let head = "당신은 프로젝트 계획 전문가입니다. 다음 프로젝트에 대한 상세한 계획을 작성해주세요.\n\n프로젝트 설명: shop\n\n다음 형식으로 작성해주세요:\n\n# 프로젝트명\n\n## 목표\n- 목표 1\n- 목표 2\n\n## 단계별 계획\n### 1단계: [단계명]\n설명: ...\n작업:\n- [ ] 작업 1 (우선순위: 높음)\n  - 설명: ...\n  - 완료 기준: ...\n";
    let subtasks = "  - 하위 작업:\n    - [ ] 세부 작업 1\n    - [ ] 세부 작업 2\n";
    let estimates = "  - 예상 소요 시간: X-Y시간\n";
    let tail = "\n## 마일스톤\n- **M1**: [마일스톤명] - [설명]\n  - 산출물: ...\n\n## 위험 요소\n- **위험**: [설명]\n  - 확률/영향: 높음/중간\n  - 대응 방안: ...\n\n## 의존성\n- [의존성 설명]\n";
    assert_eq!(ProjectPlanner::build_prompt("shop", 1, false), format!("{}{}", head, tail));
    assert_eq!(ProjectPlanner::build_prompt("shop", 2, false), format!("{}{}{}", head, subtasks, tail));
    assert_eq!(ProjectPlanner::build_prompt("shop", 0, true), format!("{}{}{}", head, estimates, tail));
    assert_eq!(
        ProjectPlanner::build_prompt("shop", 5, true),
        format!("{}{}{}{}", head, subtasks, estimates, tail)
    );
}

#[test]
fn planner_orders_a_plan() {
    let mut c = Config::with_session_dir("d".to_string());
    assert!(ProjectPlanner::new(&c).is_err());
    c.openai_api_key = Some("sk".to_string());
    let planner = ProjectPlanner::new(&c).ok().unwrap();
    let order = planner.create_plan("shop", 3, true);
    assert_eq!(order.request.messages.len(), 2);
    assert_eq!(order.request.messages[1].content, ProjectPlanner::build_prompt("shop", 3, true));
    assert_eq!(order.request.model, "gpt-4");
    assert_eq!(order.plan.title, "프로젝트 계획");
    assert_eq!(order.plan.description, "shop");
    assert!(order.plan.phases.is_empty());
    assert!(order.plan.created_at > 1_600_000_000);
}
