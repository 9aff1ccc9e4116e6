//! The texts of the operations deck.

use vstd::prelude::*;
use vstd::string::*;

use crate::domain::{
    msg, AppResult, Container, ContainerModel, DockerSnapshot, HealthModel,
    OperationAction, OperationPlan, PlanModel, ProjectHealth, ProjectModel, SnapshotModel,
};
use crate::text::{concatenated, decimal, joined, texts};
use crate::text::{decimal_text, join_strings};
use crate::tui::dashboard::{answers_always, is_reply};
use crate::tui::dashboard::{DashboardModel, DashboardState, ExecutionPrompt, PromptModel};
use crate::tui::menu::TuiPanel;
use crate::tui::prompt::{destructive, is_destructive_action, label, operation_label};

verus! {

/// The lines on one container.
pub open spec fn container_lines(c: ContainerModel) -> Seq<char> {
    "- "@ + c.name + " ["@ + c.state_code + "] "@ + c.image + "\n  "@ + c.status + "\n"@
}

/// The lines on a project as a whole.
pub open spec fn project_lines(p: ProjectModel) -> Seq<char> {
    p.name + "\nkind: "@ + p.kind + "\nstate: "@ + p.state_code + "\ncontainers: "@ + decimal(
        p.containers.len(),
    ) + " active:"@ + decimal(p.active) + " stopped:"@ + decimal(p.stopped) + "\nnetworks: "@
        + joined(p.networks, ", "@) + "\nvolumes: "@ + joined(p.volumes, ", "@) + "\nimages: "@
        + joined(p.images, ", "@) + "\nports: "@ + joined(p.ports, ", "@) + "\n\n"@
}

/// The details of the project under the cursor.
pub open spec fn detail(state: DashboardModel) -> Seq<char> {
    match state.current() {
        None => "No project matches current filter."@,
        Some(p) => project_lines(p) + concatenated(
            p.containers.map_values(|c: ContainerModel| container_lines(c)),
        ),
    }
}

/// The details of the project under the cursor.
pub fn detail_text(state: &DashboardState) -> (text: String)
    ensures
        text@ == detail(state@),
{
    let project = match state.current_project() {
        Some(project) => project,
        None => {
            return "No project matches current filter.".to_owned();
        },
    };
    let mut text = project.name.clone();
    text.append("\nkind: ");
    text.append(project.kind.as_str());
    text.append("\nstate: ");
    text.append(project.state_code());
    text.append("\ncontainers: ");
    text.append(decimal_text(project.containers.len()).as_str());
    text.append(" active:");
    text.append(decimal_text(project.active()).as_str());
    text.append(" stopped:");
    text.append(decimal_text(project.stopped).as_str());
    text.append("\nnetworks: ");
    text.append(join_strings(&project.networks, ", ").as_str());
    text.append("\nvolumes: ");
    text.append(join_strings(&project.volumes, ", ").as_str());
    text.append("\nimages: ");
    text.append(join_strings(&project.images, ", ").as_str());
    text.append("\nports: ");
    text.append(join_strings(&project.ports, ", ").as_str());
    text.append("\n\n");
    append_containers(&mut text, &project.containers);
    text
}

/// Appends the lines on each container.
fn append_containers(text: &mut String, containers: &Vec<Container>)
    ensures
        final(text)@ == old(text)@ + concatenated(
            crate::domain::container_models(containers@).map_values(
                |c: ContainerModel| container_lines(c),
            ),
        ),
{
    let ghost start = text@;
    let ghost lines = crate::domain::container_models(containers@).map_values(
        |c: ContainerModel| container_lines(c),
    );
    let mut i: usize = 0;
    assert(lines.take(0) == Seq::<Seq<char>>::empty());
    while i < containers.len()
        invariant
            i <= containers@.len(),
            lines == crate::domain::container_models(containers@).map_values(
                |c: ContainerModel| container_lines(c),
            ),
            text@ == start + concatenated(lines.take(i as int)),
        decreases containers@.len() - i,
    {
        let container = &containers[i];
        let mut line = "- ".to_owned();
        line.append(container.name.as_str());
        line.append(" [");
        line.append(container.state_code.as_str());
        line.append("] ");
        line.append(container.image.as_str());
        line.append("\n  ");
        line.append(container.status.as_str());
        line.append("\n");
        proof {
            assert(line@ == container_lines(container@));
            assert(lines.take(i + 1).drop_last() == lines.take(i as int));
            assert(lines.take(i + 1).last() == line@);
        }
        text.append(line.as_str());
        assert(text@ == start + concatenated(lines.take(i + 1)));
        i = i + 1;
    }
    assert(lines.take(lines.len() as int) == lines);
}

/// Each text of the list on a line of its own, after `head`.
pub open spec fn list_lines(head: Seq<char>, list: Seq<Seq<char>>) -> Seq<char> {
    concatenated(list.map_values(|s: Seq<char>| head + s + "\n"@))
}

/// Appends each text of the list on a line of its own, after `head`.
fn append_list(text: &mut String, head: &str, list: &Vec<String>)
    ensures
        final(text)@ == old(text)@ + list_lines(head@, texts(list@)),
{
    let ghost start = text@;
    let ghost lines = texts(list@).map_values(|s: Seq<char>| head@ + s + "\n"@);
    let mut i: usize = 0;
    assert(lines.take(0) == Seq::<Seq<char>>::empty());
    while i < list.len()
        invariant
            i <= list@.len(),
            lines == texts(list@).map_values(|s: Seq<char>| head@ + s + "\n"@),
            text@ == start + concatenated(lines.take(i as int)),
        decreases list@.len() - i,
    {
        let line = head.to_owned().concat(list[i].as_str()).concat("\n");
        proof {
            assert(lines.take(i + 1).drop_last() == lines.take(i as int));
            assert(lines.take(i + 1).last() == line@);
        }
        text.append(line.as_str());
        assert(text@ == start + concatenated(lines.take(i + 1)));
        i = i + 1;
    }
    assert(lines.take(lines.len() as int) == lines);
}

/// The lines on the health of one project.
pub open spec fn health_lines(h: HealthModel) -> Seq<char> {
    h.status + " "@ + h.project + "\n"@ + list_lines("  - "@, h.findings)
}

/// What the health checks found.
pub open spec fn doctor(s: SnapshotModel) -> Seq<char> {
    let text = concatenated(s.health.map_values(|h: HealthModel| health_lines(h))) + list_lines(
        "global: "@,
        s.global_findings,
    );
    if text.len() == 0 {
        "No obvious risk found."@
    } else {
        text
    }
}

/// What the health checks found.
pub fn doctor_text(snapshot: &DockerSnapshot) -> (text: String)
    ensures
        text@ == doctor(snapshot@),
{
    let mut text = String::new();
    let health: &Vec<ProjectHealth> = snapshot.health();
    let ghost lines = snapshot@.health.map_values(|h: HealthModel| health_lines(h));
    let mut i: usize = 0;
    assert(lines.take(0) == Seq::<Seq<char>>::empty());
    while i < health.len()
        invariant
            i <= health@.len(),
            crate::domain::health_models(health@) == snapshot@.health,
            lines == snapshot@.health.map_values(|h: HealthModel| health_lines(h)),
            text@ == concatenated(lines.take(i as int)),
        decreases health@.len() - i,
    {
        let mut line = health[i].status.clone().concat(" ").concat(
            health[i].project.as_str(),
        ).concat("\n");
        append_list(&mut line, "  - ", &health[i].findings);
        proof {
            let ghost h = health@[i as int]@;
            assert(snapshot@.health[i as int] == h);
            assert(line@ == health_lines(h));
            assert(lines.take(i + 1).drop_last() == lines.take(i as int));
            assert(lines.take(i + 1).last() == line@);
        }
        text.append(line.as_str());
        i = i + 1;
    }
    assert(lines.take(lines.len() as int) == lines);
    append_list(&mut text, "global: ", snapshot.global_findings());
    if text.as_str().is_empty() {
        "No obvious risk found.".to_owned()
    } else {
        text
    }
}

/// The list after its heading on one line; nothing where it is empty.
pub open spec fn section(heading: Seq<char>, list: Seq<Seq<char>>) -> Seq<char> {
    if list.len() == 0 {
        seq![]
    } else {
        heading + joined(list, ", "@) + "\n"@
    }
}

/// How a rescue goes on.
pub open spec fn rescue_playbook(plan: PlanModel) -> Seq<char> {
    let target = joined(plan.projects, " "@);
    "\nRecovery Playbook\n异常信号: 优先处理 unhealthy / restarting / active 容器。\n执行策略: 先生成恢复重启预案，TUI 中需二次确认后才执行。\n验证命令: dockerctl rescue "@
        + target + " --dry-run\n执行命令: dockerctl rescue "@ + target
        + "\n回滚提示: 若恢复后仍异常，先查看 dockerctl logs 和 doctor 输出，再考虑 remove/purge。\n"@
}

/// What stands in the way of destroying something by accident.
pub open spec fn safety_rail(plan: PlanModel) -> Seq<char> {
    let token = match plan.confirmation_token {
        Some(token) => token,
        None => "required-token"@,
    };
    "\nSafety Rail\ndestructive action: "@ + label(plan.action) + "\nrequired token: "@ + token
        + "\nmouse cannot execute destructive actions\nuse Enter confirmation only after reviewing containers/networks/volumes/images above\n"@
}

/// How to carry the plan out, or what is still to be typed.
pub open spec fn execution_prompt(plan: PlanModel, prompt: Option<PromptModel>) -> Seq<char> {
    match prompt {
        Some(p) if p.action == plan.action => {
            let title = "\nExecute "@ + label(plan.action) + "\n"@;
            match plan.confirmation_token {
                Some(token) => title + "确认令牌: "@ + token + "\n已输入: "@ + p.token_input
                    + "\n输入完整令牌后按 Enter 执行；Esc to cancel。\n"@,
                None => title + "Enter again to execute; Esc to cancel.\n"@,
            }
        },
        _ => "\nTUI 执行: 按 Enter 打开执行确认。\n"@,
    }
}

/// The line on the token that confirms the plan, where it has one.
pub open spec fn token_line(plan: PlanModel) -> Seq<char> {
    match plan.confirmation_token {
        Some(token) => "\nCLI 执行需确认令牌: "@ + token + "\n"@,
        None => seq![],
    }
}

/// The plan as it is shown.
pub open spec fn plan_text(plan: PlanModel, prompt: Option<PromptModel>) -> Seq<char> {
    plan.summary + "\n\n项目: "@ + joined(plan.projects, ", "@) + "\n"@ + section(
        "容器: "@,
        plan.containers,
    ) + section("网络: "@, plan.networks) + section("卷: "@, plan.volumes) + section(
        "镜像: "@,
        plan.images,
    ) + list_lines("警告: "@, plan.warnings) + (if plan.action is Rescue {
        rescue_playbook(plan)
    } else {
        seq![]
    }) + token_line(plan) + (if destructive(plan.action) {
        safety_rail(plan)
    } else {
        seq![]
    }) + execution_prompt(plan, prompt)
}

/// Appends the list after its heading on one line, where it is not empty.
fn append_section(text: &mut String, heading: &str, list: &Vec<String>)
    ensures
        final(text)@ == old(text)@ + section(heading@, texts(list@)),
{
    if !list.is_empty() {
        let line = heading.to_owned().concat(join_strings(list, ", ").as_str()).concat("\n");
        text.append(line.as_str());
    }
    assert(text@ == old(text)@ + section(heading@, texts(list@)));
}

/// How a rescue goes on.
pub fn format_rescue_playbook(plan: &OperationPlan) -> (text: String)
    ensures
        text@ == rescue_playbook(plan@),
{
    let target = join_strings(&plan.projects, " ");
    "\nRecovery Playbook\n异常信号: 优先处理 unhealthy / restarting / active 容器。\n执行策略: 先生成恢复重启预案，TUI 中需二次确认后才执行。\n验证命令: dockerctl rescue ".to_owned().concat(
        target.as_str(),
    ).concat(" --dry-run\n执行命令: dockerctl rescue ").concat(target.as_str()).concat(
        "\n回滚提示: 若恢复后仍异常，先查看 dockerctl logs 和 doctor 输出，再考虑 remove/purge。\n",
    )
}

/// What stands in the way of destroying something by accident.
pub fn format_safety_rail(plan: &OperationPlan) -> (text: String)
    ensures
        text@ == safety_rail(plan@),
{
    let token: &str = match &plan.confirmation_token {
        Some(token) => token.as_str(),
        None => "required-token",
    };
    "\nSafety Rail\ndestructive action: ".to_owned().concat(operation_label(plan.action)).concat(
        "\nrequired token: ",
    ).concat(token).concat(
        "\nmouse cannot execute destructive actions\nuse Enter confirmation only after reviewing containers/networks/volumes/images above\n",
    )
}

/// The prompt that was handed over, where one was.
pub open spec fn prompt_of(prompt: Option<&ExecutionPrompt>) -> Option<PromptModel> {
    match prompt {
        Some(p) => Some(p@),
        None => None,
    }
}

/// How to carry the plan out, or what is still to be typed.
pub fn format_execution_prompt(plan: &OperationPlan, prompt: Option<&ExecutionPrompt>) -> (text:
    String)
    ensures
        text@ == execution_prompt(plan@, prompt_of(prompt)),
{
    if let Some(prompt) = prompt {
        if prompt.action == plan.action {
            let title = "\nExecute ".to_owned().concat(operation_label(plan.action)).concat("\n");
            return match &plan.confirmation_token {
                Some(token) => title.concat("确认令牌: ").concat(token.as_str()).concat(
                    "\n已输入: ",
                ).concat(prompt.token_input.as_str()).concat(
                    "\n输入完整令牌后按 Enter 执行；Esc to cancel。\n",
                ),
                None => title.concat("Enter again to execute; Esc to cancel.\n"),
            };
        }
    }
    "\nTUI 执行: 按 Enter 打开执行确认。\n".to_owned()
}

/// The plan as it is shown.
pub fn format_plan(plan: &OperationPlan, prompt: Option<&ExecutionPrompt>) -> (text: String)
    ensures
        text@ == plan_text(plan@, prompt_of(prompt)),
{
    let mut text = plan.summary.clone().concat("\n\n项目: ").concat(
        join_strings(&plan.projects, ", ").as_str(),
    ).concat("\n");
    append_section(&mut text, "容器: ", &plan.containers);
    append_section(&mut text, "网络: ", &plan.networks);
    append_section(&mut text, "卷: ", &plan.volumes);
    append_section(&mut text, "镜像: ", &plan.images);
    append_list(&mut text, "警告: ", &plan.warnings);
    let rescue = if plan.action == OperationAction::Rescue {
        format_rescue_playbook(plan)
    } else {
        String::new()
    };
    text.append(rescue.as_str());
    let token = match &plan.confirmation_token {
        Some(token) => "\nCLI 执行需确认令牌: ".to_owned().concat(token.as_str()).concat("\n"),
        None => String::new(),
    };
    text.append(token.as_str());
    let rail = if is_destructive_action(plan.action) {
        format_safety_rail(plan)
    } else {
        String::new()
    };
    text.append(rail.as_str());
    text.append(format_execution_prompt(plan, prompt).as_str());
    text
}

/// The lines of the help.
pub open spec fn help_lines() -> Seq<Seq<char>> {
    seq![
        "dockerctl TUI"@,
        ""@,
        "鼠标左键项目行: 选择/反选"@,
        "鼠标右键项目行: 打开管理菜单"@,
        "鼠标滚轮: 移动项目"@,
        "j/k 或 ↑/↓: 移动"@,
        "space: 多选；a: 全选/反选；c: 清空选择"@,
        "/: 输入过滤；Backspace 删除过滤字符"@,
        "x: 仅活动项目；o: 切换排序；r: 刷新"@,
        "i: 详情；d: doctor；1/2/3/4/5: start/stop/restart/remove/purge 预演"@,
        "Enter: 在计划面板打开执行确认；确认中再次 Enter 执行"@,
        "q/Esc: 退出；确认中 Esc 取消执行"@,
        ""@,
        "Remove/Purge 必须输入确认令牌；普通动作需要二次 Enter。"@,
    ]
}

/// The help.
pub fn help_text() -> (text: String)
    ensures
        text@ == joined(help_lines(), "\n"@),
{
    let lines = vec![
        "dockerctl TUI".to_owned(),
        "".to_owned(),
        "鼠标左键项目行: 选择/反选".to_owned(),
        "鼠标右键项目行: 打开管理菜单".to_owned(),
        "鼠标滚轮: 移动项目".to_owned(),
        "j/k 或 ↑/↓: 移动".to_owned(),
        "space: 多选；a: 全选/反选；c: 清空选择".to_owned(),
        "/: 输入过滤；Backspace 删除过滤字符".to_owned(),
        "x: 仅活动项目；o: 切换排序；r: 刷新".to_owned(),
        "i: 详情；d: doctor；1/2/3/4/5: start/stop/restart/remove/purge 预演".to_owned(),
        "Enter: 在计划面板打开执行确认；确认中再次 Enter 执行".to_owned(),
        "q/Esc: 退出；确认中 Esc 取消执行".to_owned(),
        "".to_owned(),
        "Remove/Purge 必须输入确认令牌；普通动作需要二次 Enter。".to_owned(),
    ];
    assert(texts(lines@) == help_lines());
    join_strings(&lines, "\n")
}

/// The planner's reply as it is shown: the plan, or why there is none.
pub open spec fn reply_text(
    reply: AppResult<OperationPlan>,
    prompt: Option<PromptModel>,
) -> Seq<char> {
    match reply {
        Ok(plan) => plan_text(plan@, prompt),
        Err(e) => e@,
    }
}

/// The planner's reply as it is shown.
pub fn format_reply(reply: AppResult<OperationPlan>, prompt: Option<&ExecutionPrompt>) -> (text:
    String)
    ensures
        text@ == reply_text(reply, prompt_of(prompt)),
{
    match reply {
        Ok(plan) => format_plan(&plan, prompt),
        Err(e) => e.message,
    }
}

/// Whether `text` is what the deck shows: for a plan, the planner's reply to the question
/// for it.
pub open spec fn is_panel_text<P: Fn(
    &DockerSnapshot,
    OperationAction,
    &Vec<String>,
) -> AppResult<OperationPlan>>(planner: P, state: DashboardState, text: Seq<char>) -> bool {
    match state.panel {
        TuiPanel::Detail => text == detail(state@),
        TuiPanel::Doctor => text == doctor(state@.snapshot),
        TuiPanel::Help => text == joined(help_lines(), "\n"@),
        TuiPanel::Plan(action) => exists|reply: AppResult<OperationPlan>|
            is_reply(planner, state, action, reply) && text == #[trigger] reply_text(
                reply,
                state@.execution_prompt,
            ),
    }
}

/// What the deck shows.
pub fn panel_text<P: Fn(
    &DockerSnapshot,
    OperationAction,
    &Vec<String>,
) -> AppResult<OperationPlan>>(state: &DashboardState, planner: &P) -> (text: String)
    requires
        answers_always(*planner),
    ensures
        is_panel_text(*planner, *state, text@),
{
    match state.panel {
        TuiPanel::Detail => detail_text(state),
        TuiPanel::Doctor => doctor_text(&state.snapshot),
        TuiPanel::Plan(action) => {
            let reply = state.plan_for(planner, action);
            let text = format_reply(reply, state.execution_prompt.as_ref());
            assert(text@ == reply_text(reply, state@.execution_prompt));
            text
        },
        TuiPanel::Help => help_text(),
    }
}

/// Fails where the host has no projects.
pub fn ensure_non_empty_projects(snapshot: &DockerSnapshot) -> (result: AppResult<()>)
    ensures
        match result {
            Ok(_) => snapshot@.projects.len() > 0,
            Err(e) => snapshot@.projects.len() == 0 && e@ == "未发现 Docker 项目。"@,
        },
{
    if snapshot.projects().is_empty() {
        msg("未发现 Docker 项目。")
    } else {
        Ok(())
    }
}

} // verus!
