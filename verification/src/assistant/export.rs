//! A conversation written out: as a transcript, and as a work plan with the
//! tasks that the user asked for.

use vstd::prelude::*;
use crate::assistant::types::{
    message_views, Message, MessageView, ProjectInfo, ProjectInfoView,
};
use crate::clock::{date_time, push_date_time, push_time_of_day, time_of_day};
use crate::text::{
    byte_len, chars_of, chars_within, concat_all, contains, decimal, decimal_of,
    lemma_concat_all_step, lemma_prefix_fit, lowercase, prefix_fit, push_all, push_str,
    str_contains, str_eq, string_of, string_views, subvec, to_lowercase, to_uppercase, uppercase,
};

verus! {

/// A task that the user asked for in the conversation.
#[derive(Debug, Clone, PartialEq, Eq)]
pub struct TaskItem {
    pub title: String,
    pub description: String,
    pub status: String,
}

/// A task as plain text.
pub struct TaskItemView {
    pub title: Seq<char>,
    pub description: Seq<char>,
    pub status: Seq<char>,
}

impl View for TaskItem {
    type V = TaskItemView;

    open spec fn view(&self) -> TaskItemView {
        TaskItemView { title: self.title@, description: self.description@, status: self.status@ }
    }
}

/// The tasks of `tasks` as plain text.
pub open spec fn task_views(tasks: Seq<TaskItem>) -> Seq<TaskItemView> {
    tasks.map_values(|t: TaskItem| t@)
}

/// The position of the first `.`, `!` or `?` of `s`, or `s.len()` when it
/// has none.
pub open spec fn sentence_end(s: Seq<char>) -> int
    decreases s.len(),
{
    if s.len() == 0 {
        0
    } else if s[0] == '.' || s[0] == '!' || s[0] == '?' {
        0
    } else {
        1 + sentence_end(s.skip(1))
    }
}

/// The title of a task: the first sentence of the request, cut after the
/// last character that ends within its first fifty bytes, with three dots,
/// when it is longer than fifty bytes.
pub open spec fn task_title(content: Seq<char>) -> Seq<char> {
    let first = content.take(sentence_end(content));
    if byte_len(first) > 50 {
        first.take(prefix_fit(first, 50) as int) + "..."@
    } else {
        first
    }
}

/// Whether a request asks for work to be done: in lower case it holds one
/// of the words for doing, making, changing, analysing, implementing or
/// adding.
pub open spec fn asks_for_work(content: Seq<char>) -> bool {
    let lower = lowercase(content);
    ||| contains(lower, "해줘"@)
    ||| contains(lower, "만들"@)
    ||| contains(lower, "수정"@)
    ||| contains(lower, "분석"@)
    ||| contains(lower, "구현"@)
    ||| contains(lower, "추가"@)
}

/// The status of the request at `index`: done when the assistant answered
/// right after it, waiting otherwise.
pub open spec fn task_status(messages: Seq<MessageView>, index: int) -> Seq<char> {
    if index + 1 < messages.len() && messages[index + 1].role == "assistant"@ {
        "완료"@
    } else {
        "대기"@
    }
}

/// The tasks among the first `n` messages, in order: one for each message
/// of the user that asks for work.
pub open spec fn tasks_of(messages: Seq<MessageView>, n: int) -> Seq<TaskItemView>
    decreases n,
{
    if n <= 0 {
        Seq::empty()
    } else {
        let index = n - 1;
        let earlier = tasks_of(messages, n - 1);
        if messages[index].role == "user"@ && asks_for_work(messages[index].content) {
            earlier.push(
                TaskItemView {
                    title: task_title(messages[index].content),
                    description: messages[index].content,
                    status: task_status(messages, index),
                },
            )
        } else {
            earlier
        }
    }
}

/// The requests of the user among the first `n` messages, in order.
pub open spec fn user_requests(messages: Seq<MessageView>, n: int) -> Seq<Seq<char>>
    decreases n,
{
    if n <= 0 {
        Seq::empty()
    } else {
        let earlier = user_requests(messages, n - 1);
        if messages[n - 1].role == "user"@ {
            earlier.push(messages[n - 1].content)
        } else {
            earlier
        }
    }
}

/// The number of tasks among the first `n` that are not done.
pub open spec fn pending_count(tasks: Seq<TaskItemView>, n: int) -> nat
    decreases n,
{
    if n <= 0 {
        0
    } else {
        pending_count(tasks, n - 1) + if tasks[n - 1].status != "완료"@ {
            1nat
        } else {
            0nat
        }
    }
}

/// The title of a task for a request.
pub fn extract_task_title(content: &str) -> (title: String)
    ensures
        title@ == task_title(content@),
{
    let chars = chars_of(content);
    let mut end: usize = 0;
    proof {
        assert(chars@.skip(0) =~= chars@);
    }
    while end < chars.len() && !(chars[end] == '.' || chars[end] == '!' || chars[end] == '?')
        invariant
            end <= chars.len(),
            end + sentence_end(chars@.skip(end as int)) == sentence_end(chars@),
        decreases chars.len() - end,
    {
        proof {
            assert(chars@.skip(end as int).skip(1) =~= chars@.skip(end + 1));
        }
        end += 1;
    }
    let first = subvec(&chars, 0, end);
    proof {
        assert(first@ =~= content@.take(sentence_end(content@)));
        lemma_prefix_fit(first@, 50);
    }
    let fit = chars_within(&first, 50);
    if fit < first.len() {
        let mut out = subvec(&first, 0, fit);
        push_str(&mut out, "...");
        proof {
            assert(out@ =~= first@.take(fit as int) + "..."@);
        }
        string_of(&out)
    } else {
        proof {
            assert(first@.take(first@.len() as int) =~= first@);
        }
        string_of(&first)
    }
}

fn is_request_for_work(content: &str) -> (b: bool)
    ensures
        b == asks_for_work(content@),
{
    let lower = to_lowercase(content);
    str_contains(lower.as_str(), "해줘") || str_contains(lower.as_str(), "만들") || str_contains(
        lower.as_str(),
        "수정",
    ) || str_contains(lower.as_str(), "분석") || str_contains(lower.as_str(), "구현")
        || str_contains(lower.as_str(), "추가")
}

/// The tasks that the user asked for in the conversation.
pub fn extract_tasks_from_conversation(messages: &Vec<Message>) -> (tasks: Vec<TaskItem>)
    ensures
        task_views(tasks@) == tasks_of(message_views(messages@), messages@.len() as int),
{
    let mut tasks: Vec<TaskItem> = Vec::new();
    let mut i: usize = 0;
    proof {
        assert(task_views(tasks@) =~= Seq::<TaskItemView>::empty());
    }
    while i < messages.len()
        invariant
            i <= messages.len(),
            task_views(tasks@) == tasks_of(message_views(messages@), i as int),
        decreases messages.len() - i,
    {
        let msg = &messages[i];
        if str_eq(msg.role.as_str(), "user") && is_request_for_work(msg.content.as_str()) {
            let done = i + 1 < messages.len() && str_eq(
                messages[i + 1].role.as_str(),
                "assistant",
            );
            let status = if done {
                "완료".to_owned()
            } else {
                "대기".to_owned()
            };
            let task = TaskItem {
                title: extract_task_title(msg.content.as_str()),
                description: msg.content.clone(),
                status,
            };
            let ghost before = task_views(tasks@);
            tasks.push(task);
            proof {
                assert(task_views(tasks@) =~= before.push(task@));
            }
        }
        i += 1;
    }
    tasks
}

/// What to do next: finish the tasks that are not done, if there are any,
/// then write tests, document, and review.
pub open spec fn next_steps(tasks: Seq<TaskItemView>) -> Seq<Seq<char>> {
    let pending = pending_count(tasks, tasks.len() as int);
    let first = if pending > 0 {
        seq!["미완료 작업 "@ + decimal(pending) + " 개를 완료하기"@]
    } else {
        Seq::empty()
    };
    first + seq![
        "작성된 코드에 대한 테스트 코드 작성"@,
        "문서화 및 README 업데이트"@,
        "코드 리뷰 및 리팩토링"@,
    ]
}

/// Suggestions for what to do next.
pub fn suggest_next_steps(tasks: &Vec<TaskItem>) -> (steps: Vec<String>)
    ensures
        string_views(steps@) == next_steps(task_views(tasks@)),
{
    let mut pending: usize = 0;
    let mut i: usize = 0;
    while i < tasks.len()
        invariant
            i <= tasks.len(),
            pending <= i,
            pending == pending_count(task_views(tasks@), i as int),
        decreases tasks.len() - i,
    {
        if !str_eq(tasks[i].status.as_str(), "완료") {
            pending += 1;
        }
        i += 1;
    }
    let mut steps: Vec<String> = Vec::new();
    if pending > 0 {
        let mut line: Vec<char> = Vec::new();
        push_str(&mut line, "미완료 작업 ");
        let number = decimal_of(pending as u64);
        push_all(&mut line, &number);
        push_str(&mut line, " 개를 완료하기");
        steps.push(string_of(&line));
    }
    steps.push("작성된 코드에 대한 테스트 코드 작성".to_owned());
    steps.push("문서화 및 README 업데이트".to_owned());
    steps.push("코드 리뷰 및 리팩토링".to_owned());
    proof {
        assert(string_views(steps@) =~= next_steps(task_views(tasks@)));
    }
    steps
}

/// A numbered list: each item on a line of its own after its number, a dot
/// and a space.
pub open spec fn numbered_list(items: Seq<Seq<char>>) -> Seq<char> {
    concat_all(
        Seq::new(items.len(), |i: int| decimal((i + 1) as nat) + ". "@ + items[i] + "\n"@),
    )
}

fn push_numbered_list(out: &mut Vec<char>, items: &Vec<String>)
    ensures
        final(out)@ == old(out)@ + numbered_list(string_views(items@)),
{
    let ghost head = out@;
    let ghost views = string_views(items@);
    let ghost pieces = Seq::new(
        views.len(),
        |i: int| decimal((i + 1) as nat) + ". "@ + views[i] + "\n"@,
    );
    let mut i: usize = 0;
    proof {
        assert(pieces.take(0) =~= Seq::<Seq<char>>::empty());
        assert(out@ =~= head + concat_all(pieces.take(0)));
    }
    while i < items.len()
        invariant
            i <= items.len(),
            views == string_views(items@),
            pieces.len() == items.len(),
            forall|k: int|
                0 <= k < pieces.len() ==> #[trigger] pieces[k] == decimal((k + 1) as nat) + ". "@
                    + views[k] + "\n"@,
            out@ == head + concat_all(pieces.take(i as int)),
        decreases items.len() - i,
    {
        let ghost before = out@;
        let number = decimal_of(i as u64 + 1);
        push_all(out, &number);
        push_str(out, ". ");
        push_str(out, items[i].as_str());
        push_str(out, "\n");
        proof {
            lemma_concat_all_step(pieces, i as int);
            assert(out@ =~= before + pieces[i as int]);
        }
        i += 1;
    }
    proof {
        assert(pieces.take(items.len() as int) =~= pieces);
    }
}

/// The summary of a conversation: how many requests the user made, and the
/// title of each.
pub open spec fn conversation_summary(messages: Seq<MessageView>) -> Seq<char> {
    if messages.len() == 0 {
        "대화 내용이 없습니다."@
    } else {
        let requests = user_requests(messages, messages.len() as int);
        "총 "@ + decimal(requests.len()) + " 개의 사용자 요청이 있었습니다:\n\n"@ + numbered_list(
            requests.map_values(|r: Seq<char>| task_title(r)),
        )
    }
}

/// The summary of a conversation.
pub fn summarize_conversation(messages: &Vec<Message>) -> (summary: String)
    ensures
        summary@ == conversation_summary(message_views(messages@)),
{
    if messages.len() == 0 {
        return "대화 내용이 없습니다.".to_owned();
    }
    let mut titles: Vec<String> = Vec::new();
    let mut i: usize = 0;
    let ghost views = message_views(messages@);
    proof {
        assert(string_views(titles@) =~= user_requests(views, 0).map_values(
            |r: Seq<char>| task_title(r),
        ));
    }
    while i < messages.len()
        invariant
            i <= messages.len(),
            views == message_views(messages@),
            titles@.len() <= i,
            string_views(titles@) == user_requests(views, i as int).map_values(
                |r: Seq<char>| task_title(r),
            ),
        decreases messages.len() - i,
    {
        if str_eq(messages[i].role.as_str(), "user") {
            let title = extract_task_title(messages[i].content.as_str());
            let ghost before = string_views(titles@);
            titles.push(title);
            proof {
                assert(string_views(titles@) =~= before.push(title@));
                assert(user_requests(views, i + 1).map_values(|r: Seq<char>| task_title(r))
                    =~= before.push(title@));
            }
        }
        i += 1;
    }
    let mut out: Vec<char> = Vec::new();
    push_str(&mut out, "총 ");
    let count = decimal_of(titles.len() as u64);
    push_all(&mut out, &count);
    push_str(&mut out, " 개의 사용자 요청이 있었습니다:\n\n");
    push_numbered_list(&mut out, &titles);
    proof {
        assert(out@ =~= conversation_summary(views));
    }
    string_of(&out)
}

/// A message as a section: a heading with the role in upper case and the
/// time of day, then the content. The transcript puts an empty line under
/// the heading, the plan does not.
pub open spec fn message_section(
    heading: Seq<char>,
    spaced: bool,
    message: MessageView,
) -> Seq<char> {
    heading + " "@ + uppercase(message.role) + " ("@ + time_of_day(message.timestamp) + ")\n"@
        + if spaced {
        "\n"@
    } else {
        Seq::<char>::empty()
    } + message.content + "\n\n"@
}

/// The messages as sections, one after the other.
pub open spec fn message_sections(
    heading: Seq<char>,
    spaced: bool,
    messages: Seq<MessageView>,
) -> Seq<char> {
    concat_all(messages.map_values(|m: MessageView| message_section(heading, spaced, m)))
}

fn push_message_sections(out: &mut Vec<char>, heading: &str, spaced: bool, messages: &Vec<Message>)
    ensures
        final(out)@ == old(out)@ + message_sections(heading@, spaced, message_views(messages@)),
{
    let ghost head = out@;
    let ghost pieces = message_views(messages@).map_values(
        |m: MessageView| message_section(heading@, spaced, m),
    );
    let mut i: usize = 0;
    proof {
        assert(pieces.take(0) =~= Seq::<Seq<char>>::empty());
        assert(out@ =~= head + concat_all(pieces.take(0)));
    }
    while i < messages.len()
        invariant
            i <= messages.len(),
            pieces == message_views(messages@).map_values(
                |m: MessageView| message_section(heading@, spaced, m),
            ),
            out@ == head + concat_all(pieces.take(i as int)),
        decreases messages.len() - i,
    {
        let ghost before = out@;
        let msg = &messages[i];
        push_str(out, heading);
        push_str(out, " ");
        let role = to_uppercase(msg.role.as_str());
        push_str(out, role.as_str());
        push_str(out, " (");
        push_time_of_day(out, msg.timestamp);
        push_str(out, ")\n");
        if spaced {
            push_str(out, "\n");
        }
        push_str(out, msg.content.as_str());
        push_str(out, "\n\n");
        proof {
            lemma_concat_all_step(pieces, i as int);
            assert(pieces[i as int] == message_section(heading@, spaced, messages@[i as int]@));
            assert(out@ =~= before + pieces[i as int]);
        }
        i += 1;
    }
    proof {
        assert(pieces.take(messages.len() as int) =~= pieces);
    }
}

/// The transcript of a conversation, written at time `now`: a title, the
/// date, and a section for each message.
pub open spec fn transcript(messages: Seq<MessageView>, now: int) -> Seq<char> {
    "# 대화 기록\n\n"@ + "생성일: "@ + date_time(now) + "\n\n"@ + message_sections(
        "##"@,
        true,
        messages,
    )
}

/// The transcript of a conversation as Markdown.
pub fn conversation_markdown(messages: &Vec<Message>, now: i64) -> (content: String)
    ensures
        content@ == transcript(message_views(messages@), now as int),
{
    let mut out: Vec<char> = Vec::new();
    push_str(&mut out, "# 대화 기록\n\n");
    push_str(&mut out, "생성일: ");
    push_date_time(&mut out, now);
    push_str(&mut out, "\n\n");
    push_message_sections(&mut out, "##", true, messages);
    proof {
        assert(out@ =~= transcript(message_views(messages@), now as int));
    }
    string_of(&out)
}

/// The section of a plan on the project: its name, its language and, if
/// known, its framework.
pub open spec fn project_section(project: Option<ProjectInfoView>) -> Seq<char> {
    match project {
        Some(info) => "## 프로젝트 정보\n"@ + "- **프로젝트명**: "@ + info.name + "\n"@
            + "- **주 언어**: "@ + info.language + "\n"@ + match info.framework {
            Some(framework) => "- **프레임워크**: "@ + framework + "\n"@,
            None => Seq::<char>::empty(),
        } + "\n"@,
        None => Seq::<char>::empty(),
    }
}

/// The tasks as numbered sections with title, status and content.
pub open spec fn task_sections(tasks: Seq<TaskItemView>) -> Seq<char> {
    concat_all(
        Seq::new(
            tasks.len(),
            |i: int|
                "### "@ + decimal((i + 1) as nat) + ". "@ + tasks[i].title + "\n"@ + "**상태**: "@
                    + tasks[i].status + "\n"@ + "**내용**:\n"@ + tasks[i].description + "\n\n"@,
        ),
    )
}

/// The conversation as a work plan in Markdown, written at time `now`: the
/// date and the number of messages, the project, the tasks asked for, a
/// summary, what to do next, and the whole conversation folded away.
pub open spec fn plan_document(
    messages: Seq<MessageView>,
    project: Option<ProjectInfoView>,
    now: int,
) -> Seq<char> {
    let tasks = tasks_of(messages, messages.len() as int);
    "# 작업 계획서\n"@ + "**생성일**: "@ + date_time(now) + " UTC\n"@ + "**대화 메시지 수**: "@
        + decimal(messages.len()) + "\n\n"@ + project_section(project) + "## 논의된 주요 작업\n\n"@
        + task_sections(tasks) + "## 대화 요약\n\n"@ + conversation_summary(messages) + "\n\n"@
        + "## 다음 단계 제안\n\n"@ + numbered_list(next_steps(tasks))
        + "\n<details>\n<summary>전체 대화 기록</summary>\n\n"@ + message_sections(
        "###"@,
        false,
        messages,
    ) + "</details>\n"@
}

/// The conversation as plain text: for each message its time, its role and
/// its content.
pub open spec fn plain_transcript(messages: Seq<MessageView>) -> Seq<char> {
    concat_all(
        messages.map_values(
            |m: MessageView|
                "["@ + time_of_day(m.timestamp) + "] "@ + m.role + ": "@ + m.content + "\n\n"@,
        ),
    )
}

/// What `export_as_plan` writes for a format: the work plan for `markdown`,
/// the plain transcript for anything else.
pub open spec fn exported(
    messages: Seq<MessageView>,
    project: Option<ProjectInfoView>,
    format: Seq<char>,
    now: int,
) -> Seq<char> {
    if format == "markdown"@ {
        plan_document(messages, project, now)
    } else {
        plain_transcript(messages)
    }
}

fn push_project_section(out: &mut Vec<char>, project: &Option<ProjectInfo>)
    ensures
        final(out)@ == old(out)@ + project_section(crate::assistant::types::project_view(*project)),
{
    match project {
        Some(info) => {
            push_str(out, "## 프로젝트 정보\n");
            push_str(out, "- **프로젝트명**: ");
            push_str(out, info.name.as_str());
            push_str(out, "\n");
            push_str(out, "- **주 언어**: ");
            push_str(out, info.language.as_str());
            push_str(out, "\n");
            match &info.framework {
                Some(framework) => {
                    push_str(out, "- **프레임워크**: ");
                    push_str(out, framework.as_str());
                    push_str(out, "\n");
                },
                None => {},
            }
            push_str(out, "\n");
            proof {
                assert(out@ =~= old(out)@ + project_section(Some(info@)));
            }
        },
        None => {
            proof {
                assert(out@ =~= old(out)@ + Seq::<char>::empty());
            }
        },
    }
}

fn push_task_sections(out: &mut Vec<char>, tasks: &Vec<TaskItem>)
    ensures
        final(out)@ == old(out)@ + task_sections(task_views(tasks@)),
{
    let ghost head = out@;
    let ghost views = task_views(tasks@);
    let ghost pieces = Seq::new(
        views.len(),
        |i: int|
            "### "@ + decimal((i + 1) as nat) + ". "@ + views[i].title + "\n"@ + "**상태**: "@
                + views[i].status + "\n"@ + "**내용**:\n"@ + views[i].description + "\n\n"@,
    );
    let mut i: usize = 0;
    proof {
        assert(pieces.take(0) =~= Seq::<Seq<char>>::empty());
        assert(out@ =~= head + concat_all(pieces.take(0)));
    }
    while i < tasks.len()
        invariant
            i <= tasks.len(),
            views == task_views(tasks@),
            pieces.len() == tasks.len(),
            forall|k: int|
                0 <= k < pieces.len() ==> #[trigger] pieces[k] == "### "@ + decimal(
                    (k + 1) as nat,
                ) + ". "@ + views[k].title + "\n"@ + "**상태**: "@ + views[k].status + "\n"@
                    + "**내용**:\n"@ + views[k].description + "\n\n"@,
            out@ == head + concat_all(pieces.take(i as int)),
        decreases tasks.len() - i,
    {
        let ghost before = out@;
        let task = &tasks[i];
        push_str(out, "### ");
        let number = decimal_of(i as u64 + 1);
        push_all(out, &number);
        push_str(out, ". ");
        push_str(out, task.title.as_str());
        push_str(out, "\n");
        push_str(out, "**상태**: ");
        push_str(out, task.status.as_str());
        push_str(out, "\n");
        push_str(out, "**내용**:\n");
        push_str(out, task.description.as_str());
        push_str(out, "\n\n");
        proof {
            lemma_concat_all_step(pieces, i as int);
            assert(out@ =~= before + pieces[i as int]);
        }
        i += 1;
    }
    proof {
        assert(pieces.take(tasks.len() as int) =~= pieces);
    }
}

fn push_plain_transcript(out: &mut Vec<char>, messages: &Vec<Message>)
    ensures
        final(out)@ == old(out)@ + plain_transcript(message_views(messages@)),
{
    let ghost head = out@;
    let ghost pieces = message_views(messages@).map_values(
        |m: MessageView|
            "["@ + time_of_day(m.timestamp) + "] "@ + m.role + ": "@ + m.content + "\n\n"@,
    );
    let mut i: usize = 0;
    proof {
        assert(pieces.take(0) =~= Seq::<Seq<char>>::empty());
        assert(out@ =~= head + concat_all(pieces.take(0)));
    }
    while i < messages.len()
        invariant
            i <= messages.len(),
            pieces == message_views(messages@).map_values(
                |m: MessageView|
                    "["@ + time_of_day(m.timestamp) + "] "@ + m.role + ": "@ + m.content
                        + "\n\n"@,
            ),
            out@ == head + concat_all(pieces.take(i as int)),
        decreases messages.len() - i,
    {
        let ghost before = out@;
        let msg = &messages[i];
        push_str(out, "[");
        push_time_of_day(out, msg.timestamp);
        push_str(out, "] ");
        push_str(out, msg.role.as_str());
        push_str(out, ": ");
        push_str(out, msg.content.as_str());
        push_str(out, "\n\n");
        proof {
            lemma_concat_all_step(pieces, i as int);
            assert(out@ =~= before + pieces[i as int]);
        }
        i += 1;
    }
    proof {
        assert(pieces.take(messages.len() as int) =~= pieces);
    }
}

/// Writes the conversation out at time `now`: as a work plan when `format`
/// is `markdown`, as a plain transcript otherwise.
pub fn export_conversation(
    messages: &Vec<Message>,
    project: &Option<ProjectInfo>,
    format: &str,
    now: i64,
) -> (content: String)
    ensures
        content@ == exported(
            message_views(messages@),
            crate::assistant::types::project_view(*project),
            format@,
            now as int,
        ),
{
    let mut out: Vec<char> = Vec::new();
    if str_eq(format, "markdown") {
        let tasks = extract_tasks_from_conversation(messages);
        push_str(&mut out, "# 작업 계획서\n");
        push_str(&mut out, "**생성일**: ");
        push_date_time(&mut out, now);
        push_str(&mut out, " UTC\n");
        push_str(&mut out, "**대화 메시지 수**: ");
        let count = decimal_of(messages.len() as u64);
        push_all(&mut out, &count);
        push_str(&mut out, "\n\n");
        push_project_section(&mut out, project);
        push_str(&mut out, "## 논의된 주요 작업\n\n");
        push_task_sections(&mut out, &tasks);
        push_str(&mut out, "## 대화 요약\n\n");
        let summary = summarize_conversation(messages);
        push_str(&mut out, summary.as_str());
        push_str(&mut out, "\n\n");
        push_str(&mut out, "## 다음 단계 제안\n\n");
        let steps = suggest_next_steps(&tasks);
        push_numbered_list(&mut out, &steps);
        push_str(&mut out, "\n<details>\n<summary>전체 대화 기록</summary>\n\n");
        push_message_sections(&mut out, "###", false, messages);
        push_str(&mut out, "</details>\n");
        proof {
            assert(out@ =~= plan_document(
                message_views(messages@),
                crate::assistant::types::project_view(*project),
                now as int,
            ));
        }
    } else {
        push_plain_transcript(&mut out, messages);
        proof {
            assert(out@ =~= plain_transcript(message_views(messages@)));
        }
    }
    string_of(&out)
}

} // verus!
