//! The parts of a project plan.

use vstd::prelude::*;

verus! {

/// A project plan. Durations are kept as the text in which they are shown.
#[derive(Debug, Clone)]
pub struct ProjectPlan {
    pub title: String,
    pub description: String,
    pub objectives: Vec<String>,
    pub phases: Vec<Phase>,
    pub milestones: Vec<Milestone>,
    pub risks: Vec<Risk>,
    pub dependencies: Vec<Dependency>,
    pub total_duration: String,
    /// When the plan was made, in seconds since the epoch, UTC.
    pub created_at: i64,
}

/// A phase of a plan.
#[derive(Debug, Clone)]
pub struct Phase {
    pub id: String,
    pub name: String,
    pub description: String,
    pub tasks: Vec<Task>,
    pub duration: String,
    pub dependencies: Vec<String>,
}

/// A task of a phase.
#[derive(Debug, Clone)]
pub struct Task {
    pub id: String,
    pub name: String,
    pub description: String,
    pub assignee: Option<String>,
    pub priority: Priority,
    pub effort: EffortLevel,
    pub duration: String,
    pub subtasks: Vec<SubTask>,
    pub acceptance_criteria: Vec<String>,
}

/// A step of a task.
#[derive(Debug, Clone)]
pub struct SubTask {
    pub name: String,
    pub completed: bool,
}

/// A point at which something is delivered.
#[derive(Debug, Clone)]
pub struct Milestone {
    pub name: String,
    pub description: String,
    /// When it is due, in seconds since the epoch, UTC.
    pub date: Option<i64>,
    pub deliverables: Vec<String>,
}

/// Something that may go wrong, and what to do about it.
#[derive(Debug, Clone)]
pub struct Risk {
    pub description: String,
    pub probability: RiskLevel,
    pub impact: RiskLevel,
    pub mitigation: String,
}

/// Something that the plan depends on.
#[derive(Debug, Clone)]
pub struct Dependency {
    pub name: String,
    pub type_: DependencyType,
    pub description: String,
    pub critical: bool,
}

/// How urgent a task is.
#[derive(Debug, Clone, Copy, PartialEq, Eq, Structural)]
pub enum Priority {
    Critical,
    High,
    Medium,
    Low,
}

/// How much work a task is.
#[derive(Debug, Clone, Copy, PartialEq, Eq, Structural)]
pub enum EffortLevel {
    /// Less than two hours.
    Trivial,
    /// Two to eight hours.
    Small,
    /// One to three days.
    Medium,
    /// Three to ten days.
    Large,
    /// More than ten days.
    Epic,
}

/// How likely or how severe a risk is.
#[derive(Debug, Clone, Copy, PartialEq, Eq, Structural)]
pub enum RiskLevel {
    Low,
    Medium,
    High,
}

/// The kind of a dependency of the plan.
#[derive(Debug, Clone, Copy, PartialEq, Eq, Structural)]
pub enum DependencyType {
    Technical,
    Resource,
    External,
    Knowledge,
}

/// The word that a plan shows for a priority.
pub open spec fn priority_label(priority: Priority) -> Seq<char> {
    match priority {
        Priority::Critical => "긴급"@,
        Priority::High => "높음"@,
        Priority::Medium => "보통"@,
        Priority::Low => "낮음"@,
    }
}

/// The name of a priority.
pub open spec fn priority_name(priority: Priority) -> Seq<char> {
    match priority {
        Priority::Critical => "Critical"@,
        Priority::High => "High"@,
        Priority::Medium => "Medium"@,
        Priority::Low => "Low"@,
    }
}

/// The word that a plan shows for a level of risk.
pub open spec fn risk_label(level: RiskLevel) -> Seq<char> {
    match level {
        RiskLevel::High => "높음"@,
        RiskLevel::Medium => "중간"@,
        RiskLevel::Low => "낮음"@,
    }
}

impl Priority {
    /// The word that a plan shows for the priority.
    pub fn label(&self) -> (text: &'static str)
        ensures
            text@ == priority_label(*self),
    {
        match self {
            Priority::Critical => "긴급",
            Priority::High => "높음",
            Priority::Medium => "보통",
            Priority::Low => "낮음",
        }
    }

    /// The name of the priority.
    pub fn name(&self) -> (text: &'static str)
        ensures
            text@ == priority_name(*self),
    {
        match self {
            Priority::Critical => "Critical",
            Priority::High => "High",
            Priority::Medium => "Medium",
            Priority::Low => "Low",
        }
    }
}

impl RiskLevel {
    /// The word that a plan shows for the level.
    pub fn label(&self) -> (text: &'static str)
        ensures
            text@ == risk_label(*self),
    {
        match self {
            RiskLevel::High => "높음",
            RiskLevel::Medium => "중간",
            RiskLevel::Low => "낮음",
        }
    }
}

} // verus!
