//! Project plans: asking the model for one, and laying one out.

pub mod formatter;
pub mod types;

use vstd::prelude::*;
use crate::api::{chat_views, default_instruction, ChatMessageView, ChatRequest, ChatRole, OpenAIClient};
use crate::clock::now_utc_seconds;
use crate::config::types::Config;
use crate::config::validators::{key_of, missing_key, ConfigError};
use crate::planner::types::ProjectPlan;
use crate::text::{push_str, string_of};

verus! {

/// The first part of the request for a plan: the task and the layout asked
/// for, down to the first task of the first phase.
pub open spec fn plan_request_head(description: Seq<char>) -> Seq<char> {
    "당신은 프로젝트 계획 전문가입니다. 다음 프로젝트에 대한 상세한 계획을 작성해주세요.\n\n"@
        + "프로젝트 설명: "@ + description + "\n\n"@ + "다음 형식으로 작성해주세요:\n\n"@
        + "# 프로젝트명\n\n"@ + "## 목표\n"@ + "- 목표 1\n"@ + "- 목표 2\n\n"@ + "## 단계별 계획\n"@
        + "### 1단계: [단계명]\n"@ + "설명: ...\n"@ + "작업:\n"@ + "- [ ] 작업 1 (우선순위: 높음)\n"@
        + "  - 설명: ...\n"@ + "  - 완료 기준: ...\n"@
}

/// The part of the request for a plan that asks for subtasks.
pub open spec fn plan_request_subtasks() -> Seq<char> {
    "  - 하위 작업:\n"@ + "    - [ ] 세부 작업 1\n"@ + "    - [ ] 세부 작업 2\n"@
}

/// The part of the request for a plan that asks for estimates.
pub open spec fn plan_request_estimates() -> Seq<char> {
    "  - 예상 소요 시간: X-Y시간\n"@
}

/// The last part of the request for a plan: milestones, risks and
/// dependencies.
pub open spec fn plan_request_tail() -> Seq<char> {
    "\n## 마일스톤\n"@ + "- **M1**: [마일스톤명] - [설명]\n"@ + "  - 산출물: ...\n\n"@
        + "## 위험 요소\n"@ + "- **위험**: [설명]\n"@ + "  - 확률/영향: 높음/중간\n"@
        + "  - 대응 방안: ...\n\n"@ + "## 의존성\n"@ + "- [의존성 설명]\n"@
}

/// The request for a plan of a project. Subtasks are asked for from detail
/// level two on, estimates where they are wanted.
pub open spec fn plan_request(
    description: Seq<char>,
    detail_level: int,
    include_estimates: bool,
) -> Seq<char> {
    plan_request_head(description) + if detail_level >= 2 {
        plan_request_subtasks()
    } else {
        Seq::<char>::empty()
    } + if include_estimates {
        plan_request_estimates()
    } else {
        Seq::<char>::empty()
    } + plan_request_tail()
}

fn push_head(out: &mut Vec<char>, description: &str)
    ensures
        final(out)@ == old(out)@ + plan_request_head(description@),
{
    push_str(out, "당신은 프로젝트 계획 전문가입니다. 다음 프로젝트에 대한 상세한 계획을 작성해주세요.\n\n");
    push_str(out, "프로젝트 설명: ");
    push_str(out, description);
    push_str(out, "\n\n");
    push_str(out, "다음 형식으로 작성해주세요:\n\n");
    push_str(out, "# 프로젝트명\n\n");
    push_str(out, "## 목표\n");
    push_str(out, "- 목표 1\n");
    push_str(out, "- 목표 2\n\n");
    push_str(out, "## 단계별 계획\n");
    push_str(out, "### 1단계: [단계명]\n");
    push_str(out, "설명: ...\n");
    push_str(out, "작업:\n");
    push_str(out, "- [ ] 작업 1 (우선순위: 높음)\n");
    push_str(out, "  - 설명: ...\n");
    push_str(out, "  - 완료 기준: ...\n");
    proof {
        assert(out@ =~= old(out)@ + plan_request_head(description@));
    }
}

fn push_tail(out: &mut Vec<char>)
    ensures
        final(out)@ == old(out)@ + plan_request_tail(),
{
    push_str(out, "\n## 마일스톤\n");
    push_str(out, "- **M1**: [마일스톤명] - [설명]\n");
    push_str(out, "  - 산출물: ...\n\n");
    push_str(out, "## 위험 요소\n");
    push_str(out, "- **위험**: [설명]\n");
    push_str(out, "  - 확률/영향: 높음/중간\n");
    push_str(out, "  - 대응 방안: ...\n\n");
    push_str(out, "## 의존성\n");
    push_str(out, "- [의존성 설명]\n");
    proof {
        assert(out@ =~= old(out)@ + plan_request_tail());
    }
}

/// The title of a plan that has not been filled in.
pub open spec fn blank_title() -> Seq<char> {
    "프로젝트 계획"@
}

/// What is needed to get a plan: the request to send, and the plan to
/// return once the model has answered.
pub struct PlanOrder {
    pub request: ChatRequest,
    pub plan: ProjectPlan,
}

/// Asks the model for project plans.
pub struct ProjectPlanner {
    client: OpenAIClient,
}

impl ProjectPlanner {
    /// The client that requests are made with.
    pub closed spec fn client(&self) -> OpenAIClient {
        self.client
    }

    /// A planner for the provider in use, or the error that says which key
    /// is missing.
    pub fn new(config: &Config) -> (result: Result<Self, ConfigError>)
        ensures
            match result {
                Ok(planner) => planner.client().serves(*config),
                Err(e) => key_of(*config, config.model_preferences.default_provider@) is None
                    && e@ == missing_key(config.model_preferences.default_provider@),
            },
    {
        match OpenAIClient::new(config) {
            Ok(client) => Ok(ProjectPlanner { client }),
            Err(e) => Err(e),
        }
    }

    /// The request for a plan of the project that `description` describes.
    pub fn build_prompt(description: &str, detail_level: u8, include_estimates: bool) -> (prompt:
        String)
        ensures
            prompt@ == plan_request(description@, detail_level as int, include_estimates),
    {
        let mut out: Vec<char> = Vec::new();
        push_head(&mut out, description);
        if detail_level >= 2 {
            push_str(&mut out, "  - 하위 작업:\n");
            push_str(&mut out, "    - [ ] 세부 작업 1\n");
            push_str(&mut out, "    - [ ] 세부 작업 2\n");
        }
        if include_estimates {
            push_str(&mut out, "  - 예상 소요 시간: X-Y시간\n");
        }
        push_tail(&mut out);
        proof {
            assert(out@ =~= plan_request(description@, detail_level as int, include_estimates));
        }
        string_of(&out)
    }

    /// The plan that is handed out for a description at time `created_at`:
    /// titled as a project plan, with the description, and otherwise empty.
    pub fn blank_plan(description: &str, created_at: i64) -> (plan: ProjectPlan)
        ensures
            plan.title@ == blank_title(),
            plan.description@ == description@,
            plan.objectives@.len() == 0,
            plan.phases@.len() == 0,
            plan.milestones@.len() == 0,
            plan.risks@.len() == 0,
            plan.dependencies@.len() == 0,
            plan.total_duration@ == "0.0시간"@,
            plan.created_at == created_at,
    {
        ProjectPlan {
            title: "프로젝트 계획".to_owned(),
            description: description.to_owned(),
            objectives: Vec::new(),
            phases: Vec::new(),
            milestones: Vec::new(),
            risks: Vec::new(),
            dependencies: Vec::new(),
            total_duration: "0.0시간".to_owned(),
            created_at,
        }
    }

    /// Orders a plan: the request to send to the model, and the blank plan,
    /// dated now, that is returned whatever the model answers.
    pub fn create_plan(&self, description: &str, detail_level: u8, include_estimates: bool) -> (order:
        PlanOrder)
        ensures
            order.request.model@ == self.client().model(),
            order.request.max_tokens == self.client().max_tokens(),
            !order.request.stream,
            chat_views(order.request.messages@) == seq![
                ChatMessageView { role: ChatRole::System, content: default_instruction() },
                ChatMessageView {
                    role: ChatRole::User,
                    content: plan_request(description@, detail_level as int, include_estimates),
                },
            ],
            order.plan.title@ == blank_title(),
            order.plan.description@ == description@,
            order.plan.phases@.len() == 0,
    {
        let prompt = ProjectPlanner::build_prompt(description, detail_level, include_estimates);
        let request = self.client.query(prompt.as_str());
        let plan = ProjectPlanner::blank_plan(description, now_utc_seconds());
        PlanOrder { request, plan }
    }
}

} // verus!
