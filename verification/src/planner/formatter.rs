//! A project plan laid out as Markdown and as a table.

use vstd::prelude::*;
use crate::clock::{date_hours_minutes, push_date_hours_minutes};
use crate::renderer::table::{draw_table, row_views, table_text};
use crate::planner::types::{
    priority_label, priority_name, risk_label, Milestone, Phase, ProjectPlan, Risk, Task,
};
use crate::text::{
    concat_all, decimal, decimal_of, lemma_concat_all_step, push_all, push_str, string_of,
    string_views,
};

verus! {

/// The items with `prefix` in front of each and a line feed after each.
pub open spec fn prefixed_lines(prefix: Seq<char>, items: Seq<String>) -> Seq<char> {
    concat_all(items.map_values(|s: String| prefix + s@ + "\n"@))
}

/// The items separated by a comma and a space.
pub open spec fn comma_separated(items: Seq<String>) -> Seq<char>
    decreases items.len(),
{
    if items.len() == 0 {
        Seq::empty()
    } else if items.len() == 1 {
        items[0]@
    } else {
        comma_separated(items.drop_last()) + ", "@ + items.last()@
    }
}

/// A task as an entry of its phase: name and priority, description,
/// duration and, if there are any, the criteria for its completion.
pub open spec fn task_entry(task: Task) -> Seq<char> {
    "- **"@ + task.name@ + "** ("@ + priority_label(task.priority) + ")\n"@ + "  - "@
        + task.description@ + "\n"@ + "  - 예상 소요: "@ + task.duration@ + "\n"@
        + if task.acceptance_criteria@.len() > 0 {
        "  - 완료 기준:\n"@ + prefixed_lines("    - "@, task.acceptance_criteria@)
    } else {
        Seq::<char>::empty()
    }
}

/// The tasks of a phase, under their heading; nothing for a phase without
/// tasks.
pub open spec fn task_list(tasks: Seq<Task>) -> Seq<char> {
    if tasks.len() > 0 {
        "**작업 목록**:\n\n"@ + concat_all(tasks.map_values(|t: Task| task_entry(t))) + "\n"@
    } else {
        Seq::<char>::empty()
    }
}

/// The phase at position `index` as a section: number and name,
/// description, what it depends on, duration, tasks.
pub open spec fn phase_section(index: int, phase: Phase) -> Seq<char> {
    "### "@ + decimal((index + 1) as nat) + " "@ + phase.name@ + "\n\n"@ + phase.description@
        + "\n\n"@ + if phase.dependencies@.len() > 0 {
        "**의존성**: "@ + comma_separated(phase.dependencies@) + "\n\n"@
    } else {
        Seq::<char>::empty()
    } + "**예상 기간**: "@ + phase.duration@ + "\n\n"@ + task_list(phase.tasks@)
}

/// A milestone as a section: name, description and, if there are any, what
/// is delivered.
pub open spec fn milestone_section(milestone: Milestone) -> Seq<char> {
    "### "@ + milestone.name@ + "\n\n"@ + milestone.description@ + "\n\n"@
        + if milestone.deliverables@.len() > 0 {
        "**산출물**:\n"@ + prefixed_lines("- "@, milestone.deliverables@) + "\n"@
    } else {
        Seq::<char>::empty()
    }
}

/// A risk as an entry: description, probability and impact, and what is
/// done about it.
pub open spec fn risk_entry(risk: Risk) -> Seq<char> {
    "- **"@ + risk.description@ + "** ("@ + risk_label(risk.probability) + "/"@ + risk_label(
        risk.impact,
    ) + ")\n"@ + "  - 대응: "@ + risk.mitigation@ + "\n"@
}

/// The objectives of a plan under their heading, if there are any.
pub open spec fn objectives_part(objectives: Seq<String>) -> Seq<char> {
    if objectives.len() > 0 {
        "## 목표\n\n"@ + prefixed_lines("- "@, objectives) + "\n"@
    } else {
        Seq::<char>::empty()
    }
}

/// The phases of a plan under their heading, if there are any.
pub open spec fn phases_part(phases: Seq<Phase>) -> Seq<char> {
    if phases.len() > 0 {
        "## 단계별 계획\n\n"@ + concat_all(
            Seq::new(phases.len(), |i: int| phase_section(i, phases[i])),
        )
    } else {
        Seq::<char>::empty()
    }
}

/// The milestones of a plan under their heading, if there are any.
pub open spec fn milestones_part(milestones: Seq<Milestone>) -> Seq<char> {
    if milestones.len() > 0 {
        "## 마일스톤\n\n"@ + concat_all(milestones.map_values(|m: Milestone| milestone_section(m)))
    } else {
        Seq::<char>::empty()
    }
}

/// The risks of a plan under their heading, if there are any.
pub open spec fn risks_part(risks: Seq<Risk>) -> Seq<char> {
    if risks.len() > 0 {
        "## 위험 요소\n\n"@ + concat_all(risks.map_values(|r: Risk| risk_entry(r))) + "\n"@
    } else {
        Seq::<char>::empty()
    }
}

/// A plan as Markdown: title, description and date, then objectives,
/// phases, milestones and risks, and the total duration.
pub open spec fn plan_markdown(plan: ProjectPlan) -> Seq<char> {
    "# "@ + plan.title@ + "\n\n"@ + plan.description@ + "\n\n"@ + "생성일: "@
        + date_hours_minutes(plan.created_at as int) + "\n\n"@ + objectives_part(
        plan.objectives@,
    ) + phases_part(plan.phases@) + milestones_part(plan.milestones@) + risks_part(plan.risks@)
        + "## 총 예상 기간\n\n"@ + plan.total_duration@ + "\n"@
}

fn push_prefixed_lines(out: &mut Vec<char>, prefix: &str, items: &Vec<String>)
    ensures
        final(out)@ == old(out)@ + prefixed_lines(prefix@, items@),
{
    let ghost head = out@;
    let ghost pieces = items@.map_values(|s: String| prefix@ + s@ + "\n"@);
    let mut i: usize = 0;
    proof {
        assert(pieces.take(0) =~= Seq::<Seq<char>>::empty());
        assert(out@ =~= head + concat_all(pieces.take(0)));
    }
    while i < items.len()
        invariant
            i <= items.len(),
            pieces == items@.map_values(|s: String| prefix@ + s@ + "\n"@),
            out@ == head + concat_all(pieces.take(i as int)),
        decreases items.len() - i,
    {
        let ghost before = out@;
        push_str(out, prefix);
        push_str(out, items[i].as_str());
        push_str(out, "\n");
        proof {
            lemma_concat_all_step(pieces, i as int);
            assert(out@ =~= before + pieces[i as int]);
        }
        i += 1;
    }
    proof {
        assert(pieces.take(items.len() as int) =~= pieces);
    }
}

fn push_comma_separated(out: &mut Vec<char>, items: &Vec<String>)
    ensures
        final(out)@ == old(out)@ + comma_separated(items@),
{
    let ghost head = out@;
    let mut i: usize = 0;
    proof {
        assert(items@.take(0) =~= Seq::<String>::empty());
        assert(out@ =~= head + comma_separated(items@.take(0)));
    }
    while i < items.len()
        invariant
            i <= items.len(),
            out@ == head + comma_separated(items@.take(i as int)),
        decreases items.len() - i,
    {
        let ghost before = out@;
        if i > 0 {
            push_str(out, ", ");
        }
        push_str(out, items[i].as_str());
        proof {
            let next = items@.take(i + 1);
            assert(next.drop_last() =~= items@.take(i as int));
            assert(next.last() == items@[i as int]);
            if i == 0 {
                assert(comma_separated(items@.take(0)) =~= Seq::<char>::empty());
                assert(out@ =~= head + comma_separated(next));
            } else {
                assert(out@ =~= head + comma_separated(next));
            }
        }
        i += 1;
    }
    proof {
        assert(items@.take(items.len() as int) =~= items@);
    }
}

fn push_task_entry(out: &mut Vec<char>, task: &Task)
    ensures
        final(out)@ == old(out)@ + task_entry(*task),
{
    push_str(out, "- **");
    push_str(out, task.name.as_str());
    push_str(out, "** (");
    push_str(out, task.priority.label());
    push_str(out, ")\n");
    push_str(out, "  - ");
    push_str(out, task.description.as_str());
    push_str(out, "\n");
    push_str(out, "  - 예상 소요: ");
    push_str(out, task.duration.as_str());
    push_str(out, "\n");
    let ghost fixed = "- **"@ + task.name@ + "** ("@ + priority_label(task.priority) + ")\n"@
        + "  - "@ + task.description@ + "\n"@ + "  - 예상 소요: "@ + task.duration@ + "\n"@;
    proof {
        assert(out@ =~= old(out)@ + fixed);
    }
    if task.acceptance_criteria.len() > 0 {
        push_str(out, "  - 완료 기준:\n");
        push_prefixed_lines(out, "    - ", &task.acceptance_criteria);
        proof {
            let tail = "  - 완료 기준:\n"@ + prefixed_lines("    - "@, task.acceptance_criteria@);
            assert(out@ =~= old(out)@ + (fixed + tail));
            assert(task_entry(*task) =~= fixed + tail);
        }
    } else {
        proof {
            assert(task_entry(*task) =~= fixed + Seq::<char>::empty());
            assert(out@ =~= old(out)@ + (fixed + Seq::<char>::empty()));
        }
    }
}

fn push_task_list(out: &mut Vec<char>, tasks: &Vec<Task>)
    ensures
        final(out)@ == old(out)@ + task_list(tasks@),
{
    if tasks.len() == 0 {
        proof {
            assert(out@ =~= old(out)@ + Seq::<char>::empty());
        }
        return ;
    }
    push_str(out, "**작업 목록**:\n\n");
    let ghost head = out@;
    let ghost pieces = tasks@.map_values(|t: Task| task_entry(t));
    let mut i: usize = 0;
    proof {
        assert(pieces.take(0) =~= Seq::<Seq<char>>::empty());
        assert(out@ =~= head + concat_all(pieces.take(0)));
    }
    while i < tasks.len()
        invariant
            i <= tasks.len(),
            pieces == tasks@.map_values(|t: Task| task_entry(t)),
            out@ == head + concat_all(pieces.take(i as int)),
        decreases tasks.len() - i,
    {
        let ghost before = out@;
        push_task_entry(out, &tasks[i]);
        proof {
            lemma_concat_all_step(pieces, i as int);
            assert(out@ =~= before + pieces[i as int]);
        }
        i += 1;
    }
    push_str(out, "\n");
    proof {
        assert(pieces.take(tasks.len() as int) =~= pieces);
        assert(out@ =~= old(out)@ + task_list(tasks@));
    }
}

fn push_phase_section(out: &mut Vec<char>, index: usize, phase: &Phase)
    requires
        index < usize::MAX,
    ensures
        final(out)@ == old(out)@ + phase_section(index as int, *phase),
{
    push_str(out, "### ");
    let number = decimal_of(index as u64 + 1);
    push_all(out, &number);
    push_str(out, " ");
    push_str(out, phase.name.as_str());
    push_str(out, "\n\n");
    push_str(out, phase.description.as_str());
    push_str(out, "\n\n");
    let ghost first = "### "@ + decimal((index + 1) as nat) + " "@ + phase.name@ + "\n\n"@
        + phase.description@ + "\n\n"@;
    proof {
        assert(out@ =~= old(out)@ + first);
    }
    let ghost depends = if phase.dependencies@.len() > 0 {
        "**의존성**: "@ + comma_separated(phase.dependencies@) + "\n\n"@
    } else {
        Seq::<char>::empty()
    };
    if phase.dependencies.len() > 0 {
        push_str(out, "**의존성**: ");
        push_comma_separated(out, &phase.dependencies);
        push_str(out, "\n\n");
    }
    proof {
        assert(out@ =~= old(out)@ + (first + depends));
    }
    push_str(out, "**예상 기간**: ");
    push_str(out, phase.duration.as_str());
    push_str(out, "\n\n");
    push_task_list(out, &phase.tasks);
    proof {
        let rest = "**예상 기간**: "@ + phase.duration@ + "\n\n"@ + task_list(phase.tasks@);
        assert(out@ =~= old(out)@ + (first + depends + rest));
        assert(phase_section(index as int, *phase) =~= first + depends + rest);
    }
}

fn push_milestone_section(out: &mut Vec<char>, milestone: &Milestone)
    ensures
        final(out)@ == old(out)@ + milestone_section(*milestone),
{
    push_str(out, "### ");
    push_str(out, milestone.name.as_str());
    push_str(out, "\n\n");
    push_str(out, milestone.description.as_str());
    push_str(out, "\n\n");
    let ghost fixed = "### "@ + milestone.name@ + "\n\n"@ + milestone.description@ + "\n\n"@;
    proof {
        assert(out@ =~= old(out)@ + fixed);
    }
    if milestone.deliverables.len() > 0 {
        push_str(out, "**산출물**:\n");
        push_prefixed_lines(out, "- ", &milestone.deliverables);
        push_str(out, "\n");
        proof {
            let tail = "**산출물**:\n"@ + prefixed_lines("- "@, milestone.deliverables@) + "\n"@;
            assert(out@ =~= old(out)@ + (fixed + tail));
            assert(milestone_section(*milestone) =~= fixed + tail);
        }
    } else {
        proof {
            assert(milestone_section(*milestone) =~= fixed + Seq::<char>::empty());
            assert(out@ =~= old(out)@ + (fixed + Seq::<char>::empty()));
        }
    }
}

fn push_risk_entry(out: &mut Vec<char>, risk: &Risk)
    ensures
        final(out)@ == old(out)@ + risk_entry(*risk),
{
    push_str(out, "- **");
    push_str(out, risk.description.as_str());
    push_str(out, "** (");
    push_str(out, risk.probability.label());
    push_str(out, "/");
    push_str(out, risk.impact.label());
    push_str(out, ")\n");
    push_str(out, "  - 대응: ");
    push_str(out, risk.mitigation.as_str());
    push_str(out, "\n");
    proof {
        assert(out@ =~= old(out)@ + risk_entry(*risk));
    }
}

fn push_objectives(out: &mut Vec<char>, objectives: &Vec<String>)
    ensures
        final(out)@ == old(out)@ + objectives_part(objectives@),
{
    if objectives.len() > 0 {
        push_str(out, "## 목표\n\n");
        push_prefixed_lines(out, "- ", objectives);
        push_str(out, "\n");
        proof {
            assert(out@ =~= old(out)@ + objectives_part(objectives@));
        }
    } else {
        proof {
            assert(out@ =~= old(out)@ + Seq::<char>::empty());
        }
    }
}

fn push_phases(out: &mut Vec<char>, phases: &Vec<Phase>)
    ensures
        final(out)@ == old(out)@ + phases_part(phases@),
{
    if phases.len() == 0 {
        proof {
            assert(out@ =~= old(out)@ + Seq::<char>::empty());
        }
        return ;
    }
    push_str(out, "## 단계별 계획\n\n");
    let ghost head = out@;
    let ghost pieces = Seq::new(phases@.len(), |i: int| phase_section(i, phases@[i]));
    let mut i: usize = 0;
    proof {
        assert(pieces.take(0) =~= Seq::<Seq<char>>::empty());
        assert(out@ =~= head + concat_all(pieces.take(0)));
    }
    while i < phases.len()
        invariant
            i <= phases.len(),
            pieces == Seq::new(phases@.len(), |i: int| phase_section(i, phases@[i])),
            out@ == head + concat_all(pieces.take(i as int)),
        decreases phases.len() - i,
    {
        let ghost before = out@;
        push_phase_section(out, i, &phases[i]);
        proof {
            lemma_concat_all_step(pieces, i as int);
            assert(out@ =~= before + pieces[i as int]);
        }
        i += 1;
    }
    proof {
        assert(pieces.take(phases.len() as int) =~= pieces);
        assert(out@ =~= old(out)@ + phases_part(phases@));
    }
}

fn push_milestones(out: &mut Vec<char>, milestones: &Vec<Milestone>)
    ensures
        final(out)@ == old(out)@ + milestones_part(milestones@),
{
    if milestones.len() == 0 {
        proof {
            assert(out@ =~= old(out)@ + Seq::<char>::empty());
        }
        return ;
    }
    push_str(out, "## 마일스톤\n\n");
    let ghost head = out@;
    let ghost pieces = milestones@.map_values(|m: Milestone| milestone_section(m));
    let mut i: usize = 0;
    proof {
        assert(pieces.take(0) =~= Seq::<Seq<char>>::empty());
        assert(out@ =~= head + concat_all(pieces.take(0)));
    }
    while i < milestones.len()
        invariant
            i <= milestones.len(),
            pieces == milestones@.map_values(|m: Milestone| milestone_section(m)),
            out@ == head + concat_all(pieces.take(i as int)),
        decreases milestones.len() - i,
    {
        let ghost before = out@;
        push_milestone_section(out, &milestones[i]);
        proof {
            lemma_concat_all_step(pieces, i as int);
            assert(out@ =~= before + pieces[i as int]);
        }
        i += 1;
    }
    proof {
        assert(pieces.take(milestones.len() as int) =~= pieces);
        assert(out@ =~= old(out)@ + milestones_part(milestones@));
    }
}

fn push_risks(out: &mut Vec<char>, risks: &Vec<Risk>)
    ensures
        final(out)@ == old(out)@ + risks_part(risks@),
{
    if risks.len() == 0 {
        proof {
            assert(out@ =~= old(out)@ + Seq::<char>::empty());
        }
        return ;
    }
    push_str(out, "## 위험 요소\n\n");
    let ghost head = out@;
    let ghost pieces = risks@.map_values(|r: Risk| risk_entry(r));
    let mut i: usize = 0;
    proof {
        assert(pieces.take(0) =~= Seq::<Seq<char>>::empty());
        assert(out@ =~= head + concat_all(pieces.take(0)));
    }
    while i < risks.len()
        invariant
            i <= risks.len(),
            pieces == risks@.map_values(|r: Risk| risk_entry(r)),
            out@ == head + concat_all(pieces.take(i as int)),
        decreases risks.len() - i,
    {
        let ghost before = out@;
        push_risk_entry(out, &risks[i]);
        proof {
            lemma_concat_all_step(pieces, i as int);
            assert(out@ =~= before + pieces[i as int]);
        }
        i += 1;
    }
    push_str(out, "\n");
    proof {
        assert(pieces.take(risks.len() as int) =~= pieces);
        assert(out@ =~= old(out)@ + risks_part(risks@));
    }
}

impl ProjectPlan {
    /// The plan as Markdown.
    pub fn to_markdown(&self) -> (text: String)
        ensures
            text@ == plan_markdown(*self),
    {
        let mut out: Vec<char> = Vec::new();
        push_str(&mut out, "# ");
        push_str(&mut out, self.title.as_str());
        push_str(&mut out, "\n\n");
        push_str(&mut out, self.description.as_str());
        push_str(&mut out, "\n\n");
        push_str(&mut out, "생성일: ");
        push_date_hours_minutes(&mut out, self.created_at);
        push_str(&mut out, "\n\n");
        let ghost head = "# "@ + self.title@ + "\n\n"@ + self.description@ + "\n\n"@ + "생성일: "@
            + date_hours_minutes(self.created_at as int) + "\n\n"@;
        proof {
            assert(out@ =~= head);
        }
        push_objectives(&mut out, &self.objectives);
        push_phases(&mut out, &self.phases);
        push_milestones(&mut out, &self.milestones);
        push_risks(&mut out, &self.risks);
        push_str(&mut out, "## 총 예상 기간\n\n");
        push_str(&mut out, self.total_duration.as_str());
        push_str(&mut out, "\n");
        proof {
            assert(out@ =~= plan_markdown(*self));
        }
        string_of(&out)
    }
}

/// The rows that the tasks of a phase give to the table of a plan: for each
/// task the phase, the task, the name of its priority and its duration.
pub open spec fn phase_rows(phase: Phase) -> Seq<Seq<Seq<char>>> {
    phase.tasks@.map_values(
        |t: Task| seq![phase.name@, t.name@, priority_name(t.priority), t.duration@],
    )
}

/// The rows that the first `n` phases give to the table of a plan.
pub open spec fn phases_rows(phases: Seq<Phase>, n: int) -> Seq<Seq<Seq<char>>>
    decreases n,
{
    if n <= 0 {
        Seq::empty()
    } else {
        phases_rows(phases, n - 1) + phase_rows(phases[n - 1])
    }
}

/// The rows of the table of a plan: the headings, then a row for each task
/// of each phase.
pub open spec fn plan_rows(plan: ProjectPlan) -> Seq<Seq<Seq<char>>> {
    seq![seq!["단계"@, "작업"@, "우선순위"@, "예상 시간"@]] + phases_rows(
        plan.phases@,
        plan.phases@.len() as int,
    )
}

impl ProjectPlan {
    /// The rows of the table of the plan.
    pub fn table_rows(&self) -> (rows: Vec<Vec<String>>)
        ensures
            row_views(rows@) == plan_rows(*self),
    {
        let mut rows: Vec<Vec<String>> = Vec::new();
        let mut heading: Vec<String> = Vec::new();
        heading.push("단계".to_owned());
        heading.push("작업".to_owned());
        heading.push("우선순위".to_owned());
        heading.push("예상 시간".to_owned());
        rows.push(heading);
        let ghost head = seq![seq!["단계"@, "작업"@, "우선순위"@, "예상 시간"@]];
        proof {
            assert(string_views(heading@) =~= head[0]);
            assert(row_views(rows@) =~= head + phases_rows(self.phases@, 0));
        }
        let mut i: usize = 0;
        while i < self.phases.len()
            invariant
                i <= self.phases.len(),
                row_views(rows@) == head + phases_rows(self.phases@, i as int),
            decreases self.phases.len() - i,
        {
            let phase = &self.phases[i];
            let ghost before = row_views(rows@);
            let mut j: usize = 0;
            proof {
                assert(before + phase_rows(*phase).take(0) =~= before);
            }
            while j < phase.tasks.len()
                invariant
                    j <= phase.tasks.len(),
                    row_views(rows@) == before + phase_rows(*phase).take(j as int),
                decreases phase.tasks.len() - j,
            {
                let task = &phase.tasks[j];
                let mut row: Vec<String> = Vec::new();
                row.push(phase.name.clone());
                row.push(task.name.clone());
                row.push(task.priority.name().to_owned());
                row.push(task.duration.clone());
                let ghost earlier = row_views(rows@);
                proof {
                    assert(string_views(row@) =~= phase_rows(*phase)[j as int]);
                }
                rows.push(row);
                proof {
                    assert(row_views(rows@) =~= earlier.push(string_views(row@)));
                    assert(phase_rows(*phase).take(j + 1) =~= phase_rows(*phase).take(j as int).push(
                        phase_rows(*phase)[j as int],
                    ));
                    assert(row_views(rows@) =~= before + phase_rows(*phase).take(j + 1));
                }
                j += 1;
            }
            proof {
                assert(phase_rows(*phase).take(phase.tasks.len() as int) =~= phase_rows(*phase));
                assert(head + phases_rows(self.phases@, i as int) + phase_rows(*phase) =~= head
                    + phases_rows(self.phases@, i + 1));
            }
            i += 1;
        }
        rows
    }

    /// The plan as a table of its tasks.
    pub fn to_table(&self) -> (text: String)
        ensures
            text@ == table_text(plan_rows(*self)),
    {
        let rows = self.table_rows();
        draw_table(&rows)
    }
}

} // verus!
