//! What the dashboard shows, in plain terms.

use vstd::prelude::*;

use crate::domain::{
    AppError, AppResult, ContainerModel, DockerSnapshot, HealthModel, OperationAction, OperationPlan,
    PlanModel, ProjectModel, SnapshotModel, SortMode,
};
use crate::text::{
    concatenated, concatenating_keeps_order, decimal, every_joined_part_occurs, joined,
    occurring_carries_over, occurs_in, padded, texts, what_stands_in_a_text_occurs,
};
use crate::tui::dashboard::{DashboardModel, DashboardState, PromptModel};
use crate::tui::deck::{
    container_lines, detail, doctor, execution_prompt, health_lines, help_lines, is_panel_text,
    list_lines, plan_text, reply_text, rescue_playbook, safety_rail, token_line,
};
use crate::tui::layout::{
    column_layout, covers, extent, full_areas, is_inside, limited_rect, metric_layout, percent_of,
    placed, row_layout, stays_within, Axis, Rect, Size, FULL_HEIGHT,
};
use crate::tui::menu::{description_of, label_of, menu_items, ContextMenuItem, MenuModel, TuiPanel};
use crate::tui::prompt::label;
use crate::tui::screen::{
    active_projects, command_bar, deck_title, description_style, header, item_style, menu_view,
    metric_spans, metrics, risk, risky_projects, table_rows, Color, Metric, MetricModel,
    ProjectRow, Span, Style,
};

verus! {

/// The line that names a list after its heading; nothing where the list is empty.
pub open spec fn named_line(heading: Seq<char>, list: Seq<Seq<char>>) -> Seq<char> {
    if list.len() > 0 {
        heading + joined(list, ", "@) + "\n"@
    } else {
        Seq::empty()
    }
}

/// A list of lines starts each with its head, keeps the order, and loses none.
pub proof fn list_lines_go_line_by_line(
    head: Seq<char>,
    a: Seq<Seq<char>>,
    b: Seq<Seq<char>>,
    x: Seq<char>,
)
    ensures
        list_lines(head, Seq::empty()).len() == 0,
        list_lines(head, seq![x]) == head + x + "\n"@,
        list_lines(head, a + b) == list_lines(head, a) + list_lines(head, b),
{
    let line = |s: Seq<char>| head + s + "\n"@;
    assert(Seq::<Seq<char>>::empty().map_values(line) == Seq::<Seq<char>>::empty());
    assert(seq![x].map_values(line) == seq![head + x + "\n"@]);
    assert((a + b).map_values(line) == a.map_values(line) + b.map_values(line));
    concatenating_keeps_order(a.map_values(line), b.map_values(line), head + x + "\n"@);
}

proof fn listed_line_occurs(head: Seq<char>, list: Seq<Seq<char>>, i: int)
    requires
        0 <= i < list.len(),
    ensures
        occurs_in(head + list[i] + "\n"@, list_lines(head, list)),
{
    let (a, b, c) = (list.take(i), seq![list[i]], list.skip(i + 1));
    assert(list == a + b + c);
    list_lines_go_line_by_line(head, a + b, c, list[i]);
    list_lines_go_line_by_line(head, a, b, list[i]);
    what_stands_in_a_text_occurs(
        list_lines(head, a),
        head + list[i] + "\n"@,
        list_lines(head, c),
    );
}

/// The plan without the lists of what it touches, and without summary and warnings.
pub open spec fn bare(plan: PlanModel) -> PlanModel {
    PlanModel {
        summary: Seq::empty(),
        containers: Seq::empty(),
        networks: Seq::empty(),
        volumes: Seq::empty(),
        images: Seq::empty(),
        warnings: Seq::empty(),
        ..plan
    }
}

/// The text of a plan starts with its summary and its projects. Then come, each on a line with
/// its own heading, in this order and only where there are any: the containers, the networks,
/// the volumes and the images; then one line for each warning. What follows does not depend on
/// any of these: it is what the text of the plan without them ends with.
pub proof fn plan_text_goes_section_by_section(plan: PlanModel, prompt: Option<PromptModel>)
    ensures
        exists|rest: Seq<char>|
            plan_text(plan, prompt) == #[trigger] (plan.summary + "\n\n项目: "@ + joined(
                plan.projects,
                ", "@,
            ) + "\n"@ + named_line("容器: "@, plan.containers) + named_line(
                "网络: "@,
                plan.networks,
            ) + named_line("卷: "@, plan.volumes) + named_line("镜像: "@, plan.images) + list_lines(
                "警告: "@,
                plan.warnings,
            ) + rest) && plan_text(bare(plan), prompt) == "\n\n项目: "@ + joined(
                plan.projects,
                ", "@,
            ) + "\n"@ + rest,
{
    let none = Seq::<char>::empty();
    let playbook = if plan.action is Rescue {
        rescue_playbook(plan)
    } else {
        none
    };
    let rail = if plan.action is Remove || plan.action is Purge || plan.action is Prune {
        safety_rail(plan)
    } else {
        none
    };
    let (token, end) = (token_line(plan), execution_prompt(plan, prompt));
    let rest = playbook + token + rail + end;
    let start = "\n\n项目: "@ + joined(plan.projects, ", "@) + "\n"@;
    let front = plan.summary + "\n\n项目: "@ + joined(plan.projects, ", "@) + "\n"@ + named_line(
        "容器: "@,
        plan.containers,
    ) + named_line("网络: "@, plan.networks) + named_line("卷: "@, plan.volumes) + named_line(
        "镜像: "@,
        plan.images,
    ) + list_lines("警告: "@, plan.warnings);
    bare_plan_text(plan, prompt);
    regrouped(start, playbook, token, rail, end);
    regrouped(front, playbook, token, rail, end);
    assert(plan_text(plan, prompt) == front + playbook + token + rail + end);
    assert(plan_text(plan, prompt) == front + rest);
}

proof fn regrouped(s: Seq<char>, a: Seq<char>, b: Seq<char>, c: Seq<char>, d: Seq<char>)
    ensures
        s + a + b + c + d == s + (a + b + c + d),
{
}

proof fn bare_plan_text(plan: PlanModel, prompt: Option<PromptModel>)
    ensures
        ({
            let none = Seq::<char>::empty();
            let playbook = if plan.action is Rescue {
                rescue_playbook(plan)
            } else {
                none
            };
            let rail = if plan.action is Remove || plan.action is Purge || plan.action is Prune {
                safety_rail(plan)
            } else {
                none
            };
            plan_text(bare(plan), prompt) == "\n\n项目: "@ + joined(plan.projects, ", "@) + "\n"@
                + playbook + token_line(plan) + rail + execution_prompt(plan, prompt)
        }),
{
    let small = bare(plan);
    let none = Seq::<char>::empty();
    let no_list = Seq::<Seq<char>>::empty();
    list_lines_go_line_by_line("警告: "@, no_list, no_list, none);
    assert(list_lines("警告: "@, no_list) == none);
    assert(execution_prompt(small, prompt) == execution_prompt(plan, prompt));
    assert(safety_rail(small) == safety_rail(plan));
    assert(rescue_playbook(small) == rescue_playbook(plan));
    let start = "\n\n项目: "@ + joined(plan.projects, ", "@) + "\n"@;
    assert(none + "\n\n项目: "@ + joined(plan.projects, ", "@) + "\n"@ + none + none + none + none
        + none == start);
}

/// Whatever a plan touches is named in its text: every project, container, network, volume and
/// image, on the line of its heading, and every warning on a line of its own.
pub proof fn plan_text_names_everything(plan: PlanModel, prompt: Option<PromptModel>, i: int)
    ensures
        ({
            let text = plan_text(plan, prompt);
            &&& 0 <= i < plan.containers.len() ==> occurs_in(plan.containers[i], text) && occurs_in(
                "容器: "@ + joined(plan.containers, ", "@) + "\n"@,
                text,
            )
            &&& 0 <= i < plan.networks.len() ==> occurs_in(plan.networks[i], text) && occurs_in(
                "网络: "@ + joined(plan.networks, ", "@) + "\n"@,
                text,
            )
            &&& 0 <= i < plan.volumes.len() ==> occurs_in(plan.volumes[i], text) && occurs_in(
                "卷: "@ + joined(plan.volumes, ", "@) + "\n"@,
                text,
            )
            &&& 0 <= i < plan.images.len() ==> occurs_in(plan.images[i], text) && occurs_in(
                "镜像: "@ + joined(plan.images, ", "@) + "\n"@,
                text,
            )
            &&& 0 <= i < plan.warnings.len() ==> occurs_in(
                "警告: "@ + plan.warnings[i] + "\n"@,
                text,
            )
            &&& 0 <= i < plan.projects.len() ==> occurs_in(plan.projects[i], text)
            &&& occurs_in(plan.summary, text)
        }),
{
    plan_text_goes_section_by_section(plan, prompt);
    let text = plan_text(plan, prompt);
    let (head, nl) = ("\n\n项目: "@, "\n"@);
    let (pj, c, n, v, g, w) = (
        joined(plan.projects, ", "@),
        named_line("容器: "@, plan.containers),
        named_line("网络: "@, plan.networks),
        named_line("卷: "@, plan.volumes),
        named_line("镜像: "@, plan.images),
        list_lines("警告: "@, plan.warnings),
    );
    let rest = choose|rest: Seq<char>|
        text == #[trigger] (plan.summary + "\n\n项目: "@ + joined(plan.projects, ", "@) + "\n"@
            + named_line("容器: "@, plan.containers) + named_line("网络: "@, plan.networks)
            + named_line("卷: "@, plan.volumes) + named_line("镜像: "@, plan.images) + list_lines(
            "警告: "@,
            plan.warnings,
        ) + rest) && plan_text(bare(plan), prompt) == "\n\n项目: "@ + joined(plan.projects, ", "@)
            + "\n"@ + rest;
    let pieces = seq![plan.summary, head, pj, nl, c, n, v, g, w, rest];
    one_after_another(pieces);
    assert(text == concatenated(pieces));
    piece_occurs(pieces, 0, plan.summary);
    if 0 <= i < plan.projects.len() {
        every_joined_part_occurs(plan.projects, ", "@, i);
        piece_occurs(pieces, 2, plan.projects[i]);
    }
    if 0 <= i < plan.containers.len() {
        named_line_names("容器: "@, plan.containers, i);
        piece_occurs(pieces, 4, plan.containers[i]);
        piece_occurs(pieces, 4, c);
    }
    if 0 <= i < plan.networks.len() {
        named_line_names("网络: "@, plan.networks, i);
        piece_occurs(pieces, 5, plan.networks[i]);
        piece_occurs(pieces, 5, n);
    }
    if 0 <= i < plan.volumes.len() {
        named_line_names("卷: "@, plan.volumes, i);
        piece_occurs(pieces, 6, plan.volumes[i]);
        piece_occurs(pieces, 6, v);
    }
    if 0 <= i < plan.images.len() {
        named_line_names("镜像: "@, plan.images, i);
        piece_occurs(pieces, 7, plan.images[i]);
        piece_occurs(pieces, 7, g);
    }
    if 0 <= i < plan.warnings.len() {
        listed_line_occurs("警告: "@, plan.warnings, i);
        piece_occurs(pieces, 8, "警告: "@ + plan.warnings[i] + nl);
    }
}

proof fn one_after_another(p: Seq<Seq<char>>)
    requires
        p.len() == 10,
    ensures
        concatenated(p) == p[0] + p[1] + p[2] + p[3] + p[4] + p[5] + p[6] + p[7] + p[8] + p[9],
{
    assert(p.take(10) == p);
    assert(p.take(0) == Seq::<Seq<char>>::empty());
    assert(concatenated(p.take(0)) == Seq::<char>::empty());
    assert(Seq::<char>::empty() + p[0] == p[0]);
    next_piece(p, 0);
    next_piece(p, 1);
    next_piece(p, 2);
    next_piece(p, 3);
    next_piece(p, 4);
    next_piece(p, 5);
    next_piece(p, 6);
    next_piece(p, 7);
    next_piece(p, 8);
    next_piece(p, 9);
}

proof fn next_piece(p: Seq<Seq<char>>, k: int)
    requires
        0 <= k < p.len(),
    ensures
        concatenated(p.take(k + 1)) == concatenated(p.take(k)) + p[k],
{
    assert(p.take(k + 1).drop_last() == p.take(k));
}

proof fn piece_occurs(pieces: Seq<Seq<char>>, k: int, x: Seq<char>)
    requires
        0 <= k < pieces.len(),
        occurs_in(x, pieces[k]) || x == pieces[k],
    ensures
        occurs_in(x, concatenated(pieces)),
{
    let none = Seq::<char>::empty();
    if x == pieces[k] {
        what_stands_in_a_text_occurs(none, x, none);
        assert(none + x + none == x);
    }
    let (a, b, c) = (pieces.take(k), seq![pieces[k]], pieces.skip(k + 1));
    assert(pieces == a + b + c);
    concatenating_keeps_order(a + b, c, pieces[k]);
    concatenating_keeps_order(a, b, pieces[k]);
    occurring_carries_over(x, concatenated(a), pieces[k], concatenated(c));
}

proof fn named_line_names(heading: Seq<char>, list: Seq<Seq<char>>, i: int)
    requires
        0 <= i < list.len(),
    ensures
        occurs_in(list[i], named_line(heading, list)),
{
    every_joined_part_occurs(list, ", "@, i);
    occurring_carries_over(list[i], heading, joined(list, ", "@), "\n"@);
}

/// What follows the warnings of a plan: for a rescue how it goes on, the token where there is
/// one, for what destroys something the safety rail, and at last the prompt.
pub proof fn plan_text_ends_with_the_prompt(plan: PlanModel, prompt: Option<PromptModel>)
    ensures
        ({
            let text = plan_text(bare(plan), prompt);
            let start = "\n\n项目: "@ + joined(plan.projects, ", "@) + "\n"@;
            let end = execution_prompt(plan, prompt);
            let destroys = plan.action is Remove || plan.action is Purge || plan.action is Prune;
            let plain = !destroys && !(plan.action is Rescue);
            let token = plan.confirmation_token;
            let line = "\nCLI 执行需确认令牌: "@ + token->0 + "\n"@;
            &&& plain && token is None ==> text == start + end
            &&& plain && token is Some ==> text == start + line + end
            &&& destroys && token is Some ==> text == start + line + safety_rail(plan) + end
            &&& destroys && token is None ==> text == start + safety_rail(plan) + end
            &&& plan.action is Rescue && token is None ==> text == start + rescue_playbook(plan)
                + end
            &&& plan.action is Rescue && token is Some ==> text == start + rescue_playbook(plan)
                + line + end
        }),
{
    bare_plan_text(plan, prompt);
    let none = Seq::<char>::empty();
    let start = "\n\n项目: "@ + joined(plan.projects, ", "@) + "\n"@;
    let (p, r, t) = (rescue_playbook(plan), safety_rail(plan), token_line(plan));
    assert(start + none == start);
    assert(start + p + none == start + p);
    assert(start + t + none == start + t);
    assert(start + p + t + none == start + p + t);
}

/// The safety rail names the operation and the token that has to be typed, and says that the
/// mouse cannot carry the operation out.
pub proof fn safety_rail_names_operation_and_token(plan: PlanModel)
    ensures
        plan.confirmation_token matches Some(token) ==> safety_rail(plan)
            == "\nSafety Rail\ndestructive action: "@ + label(plan.action) + "\nrequired token: "@
            + token
            + "\nmouse cannot execute destructive actions\nuse Enter confirmation only after reviewing containers/networks/volumes/images above\n"@,
        plan.confirmation_token is None ==> safety_rail(plan)
            == "\nSafety Rail\ndestructive action: "@ + label(plan.action) + "\nrequired token: "@
            + "required-token"@
            + "\nmouse cannot execute destructive actions\nuse Enter confirmation only after reviewing containers/networks/volumes/images above\n"@,
{
}

/// The playbook of a rescue names all projects of the plan in both commands, first the one that
/// only shows what it would do.
pub proof fn rescue_playbook_names_the_projects(plan: PlanModel)
    ensures
        rescue_playbook(plan)
            == "\nRecovery Playbook\n异常信号: 优先处理 unhealthy / restarting / active 容器。\n执行策略: 先生成恢复重启预案，TUI 中需二次确认后才执行。\n验证命令: dockerctl rescue "@
            + joined(plan.projects, " "@) + " --dry-run\n执行命令: dockerctl rescue "@ + joined(
            plan.projects,
            " "@,
        )
            + "\n回滚提示: 若恢复后仍异常，先查看 dockerctl logs 和 doctor 输出，再考虑 remove/purge。\n"@,
{
}

/// Without a prompt for the plan's own action, the text says how to open it. With one, it asks
/// for the token and shows what was typed, or asks for another Enter where there is no token.
pub proof fn prompt_text_follows_the_prompt(plan: PlanModel, prompt: PromptModel)
    ensures
        execution_prompt(plan, None) == "\nTUI 执行: 按 Enter 打开执行确认。\n"@,
        prompt.action != plan.action ==> execution_prompt(plan, Some(prompt)) == execution_prompt(
            plan,
            None,
        ),
        prompt.action == plan.action && plan.confirmation_token is None ==> execution_prompt(
            plan,
            Some(prompt),
        ) == "\nExecute "@ + label(plan.action) + "\n"@
            + "Enter again to execute; Esc to cancel.\n"@,
        prompt.action == plan.action ==> (plan.confirmation_token matches Some(token)
            ==> execution_prompt(plan, Some(prompt)) == "\nExecute "@ + label(plan.action) + "\n"@
            + "确认令牌: "@ + token + "\n已输入: "@ + prompt.token_input
            + "\n输入完整令牌后按 Enter 执行；Esc to cancel。\n"@),
{
}

/// The deck shows what its panel says. For a plan it shows the planner's reply to the question
/// for that action on the targets, with the open prompt: the plan, or the reason why there is
/// none.
pub proof fn deck_shows_its_panel<P: Fn(
    &DockerSnapshot,
    OperationAction,
    &Vec<String>,
) -> AppResult<OperationPlan>>(planner: P, state: DashboardState, text: Seq<char>)
    requires
        is_panel_text(planner, state, text),
    ensures
        state.panel is Detail ==> text == detail(state@),
        state.panel is Doctor ==> text == doctor(state@.snapshot),
        state.panel is Help ==> text == joined(help_lines(), "\n"@),
        state.panel matches TuiPanel::Plan(action) ==> exists|
            targets: Vec<String>,
            reply: AppResult<OperationPlan>,
        |
            texts(targets@) == state@.targets() && #[trigger] call_ensures(
                planner,
                (&state.snapshot, action, &targets),
                reply,
            ) && match reply {
                Ok(plan) => text == plan_text(plan@, state@.execution_prompt),
                Err(e) => text == e.message@,
            },
{
    if let TuiPanel::Plan(action) = state.panel {
        let reply = choose|reply: AppResult<OperationPlan>|
            crate::tui::dashboard::is_reply(planner, state, action, reply) && text
                == #[trigger] reply_text(reply, state@.execution_prompt);
        let targets = choose|targets: Vec<String>|
            texts(targets@) == state@.targets() && #[trigger] call_ensures(
                planner,
                (&state.snapshot, action, &targets),
                reply,
            );
        assert(call_ensures(planner, (&state.snapshot, action, &targets), reply));
    }
}

/// The details are of the project under the cursor: its name, kind, state and numbers, its
/// networks, volumes, images and ports, and then its containers, one after another.
pub proof fn details_are_of_the_current_project(state: DashboardModel, p: ProjectModel)
    ensures
        state.current() is None ==> detail(state) == "No project matches current filter."@,
        state.current() == Some(p) ==> detail(state) == p.name + "\nkind: "@ + p.kind
            + "\nstate: "@ + p.state_code + "\ncontainers: "@ + decimal(p.containers.len())
            + " active:"@ + decimal(p.active) + " stopped:"@ + decimal(p.stopped)
            + "\nnetworks: "@ + joined(p.networks, ", "@) + "\nvolumes: "@ + joined(
            p.volumes,
            ", "@,
        ) + "\nimages: "@ + joined(p.images, ", "@) + "\nports: "@ + joined(p.ports, ", "@)
            + "\n\n"@ + concatenated(
            Seq::new(p.containers.len(), |i: int| container_lines(p.containers[i])),
        ),
{
    assert(p.containers.map_values(|c: ContainerModel| container_lines(c)) == Seq::new(
        p.containers.len(),
        |i: int| container_lines(p.containers[i]),
    ));
}

/// Every container of the project under the cursor has its two lines in the details.
pub proof fn details_show_every_container(state: DashboardModel, p: ProjectModel, i: int)
    requires
        state.current() == Some(p),
        0 <= i < p.containers.len(),
    ensures
        occurs_in(
            "- "@ + p.containers[i].name + " ["@ + p.containers[i].state_code + "] "@
                + p.containers[i].image + "\n  "@ + p.containers[i].status + "\n"@,
            detail(state),
        ),
{
    let lines = p.containers.map_values(|c: ContainerModel| container_lines(c));
    let (a, b, c) = (lines.take(i), seq![lines[i]], lines.skip(i + 1));
    assert(lines == a + b + c);
    concatenating_keeps_order(a + b, c, lines[i]);
    concatenating_keeps_order(a, b, lines[i]);
    let head = crate::tui::deck::project_lines(p);
    what_stands_in_a_text_occurs(head + concatenated(a), lines[i], concatenated(c));
    assert(detail(state) == head + concatenated(a) + lines[i] + concatenated(c));
}

/// The health report has nothing to say where nothing was found. The lines on a project are
/// its status and name and then each finding; a further project comes after the others, and a
/// finding on the whole host at the very end.
pub proof fn health_report_grows_line_by_line(s: SnapshotModel, h: HealthModel, g: Seq<char>)
    ensures
        ({
            let empty = s.health.len() == 0 && s.global_findings.len() == 0;
            let lines = h.status + " "@ + h.project + "\n"@ + list_lines("  - "@, h.findings);
            let with_project = SnapshotModel { health: s.health.push(h), ..s };
            let with_finding = SnapshotModel {
                global_findings: s.global_findings.push(g),
                ..s
            };
            &&& empty ==> doctor(s) == "No obvious risk found."@
            &&& empty ==> doctor(with_project) == lines
            &&& empty ==> doctor(with_finding) == "global: "@ + g + "\n"@
            &&& !empty && s.global_findings.len() == 0 ==> doctor(with_project) == doctor(s) + lines
            &&& !empty ==> doctor(with_finding) == doctor(s) + ("global: "@ + g + "\n"@)
        }),
{
    reveal_strlit("\n");
    reveal_strlit("global: ");
    let nl = "\n"@;
    let map = |x: HealthModel| health_lines(x);
    let lines = health_lines(h);
    let body = concatenated(s.health.map_values(map));
    let globals = list_lines("global: "@, s.global_findings);
    assert(s.health.push(h).map_values(map) == s.health.map_values(map) + seq![lines]);
    concatenating_keeps_order(s.health.map_values(map), seq![lines], lines);
    list_lines_go_line_by_line("global: "@, s.global_findings, seq![g], g);
    assert(s.global_findings.push(g) == s.global_findings + seq![g]);
    assert(lines.len() > 0) by {
        assert(nl.len() == 1);
    }
    let none = Seq::<char>::empty();
    let line = "global: "@ + g + nl;
    assert(line.len() > 0) by {
        assert(nl.len() == 1);
    }
    assert(body + (globals + line) == body + globals + line);
    if s.health.len() == 0 {
        assert(s.health.map_values(map) == Seq::<Seq<char>>::empty());
        assert(body == none);
        assert(none + lines == lines);
    } else {
        let (front, last) = (s.health.drop_last(), s.health.last());
        assert(s.health.map_values(map).drop_last() == front.map_values(map));
        assert(s.health.map_values(map).last() == health_lines(last));
        assert(body.len() > 0) by {
            assert(nl.len() == 1);
        }
    }
    if s.global_findings.len() == 0 {
        assert(s.global_findings == Seq::<Seq<char>>::empty());
        assert(globals == none);
        assert(body + none == body);
        assert(body + lines + none == body + lines);
        assert(none + line == line);
    } else {
        let last = s.global_findings.last();
        let front = s.global_findings.drop_last();
        assert(s.global_findings == front + seq![last]);
        list_lines_go_line_by_line("global: "@, front, seq![last], last);
        assert(globals.len() > 0) by {
            assert(nl.len() == 1);
        }
    }
    assert(none + line == line);
}

/// The help goes through the mouse, the cursor, the selection, the filters, the panels and the
/// confirmation, one line each.
pub proof fn help_names_the_keys()
    ensures
        help_lines().len() == 14,
        help_lines()[0] == "dockerctl TUI"@,
        help_lines()[1] == ""@,
        help_lines()[2] == "鼠标左键项目行: 选择/反选"@,
        help_lines()[3] == "鼠标右键项目行: 打开管理菜单"@,
        help_lines()[4] == "鼠标滚轮: 移动项目"@,
        help_lines()[5] == "j/k 或 ↑/↓: 移动"@,
        help_lines()[6] == "space: 多选；a: 全选/反选；c: 清空选择"@,
        help_lines()[7] == "/: 输入过滤；Backspace 删除过滤字符"@,
        help_lines()[8] == "x: 仅活动项目；o: 切换排序；r: 刷新"@,
        help_lines()[9]
            == "i: 详情；d: doctor；1/2/3/4/5: start/stop/restart/remove/purge 预演"@,
        help_lines()[10] == "Enter: 在计划面板打开执行确认；确认中再次 Enter 执行"@,
        help_lines()[11] == "q/Esc: 退出；确认中 Esc 取消执行"@,
        help_lines()[12] == ""@,
        help_lines()[13] == "Remove/Purge 必须输入确认令牌；普通动作需要二次 Enter。"@,
{
}

/// Whether the style is that of plain text in a color.
pub open spec fn is_plain(style: Style, fg: Color) -> bool {
    style.fg == Some(fg) && style.bg is None && !style.bold
}

/// Whether the style is that of bold text in a color.
pub open spec fn is_bold(style: Style, fg: Color) -> bool {
    style.fg == Some(fg) && style.bg is None && style.bold
}

/// Whether the style stands out: bold and black on cyan.
pub open spec fn stands_out(style: Style) -> bool {
    style.fg == Some(Color::Black) && style.bg == Some(Color::Cyan) && style.bold
}

/// The header names the program and says whether all or only active projects are shown, how
/// they are sorted, and the filter, or that there is none.
pub proof fn header_says_how_projects_are_listed(m: DashboardModel)
    ensures
        ({
            let line = header(m);
            let mode = if m.running_only {
                "active"@
            } else {
                "all"@
            };
            let sort = match m.sort_mode {
                SortMode::Severity => "Severity"@,
                SortMode::NameAsc => "NameAsc"@,
                SortMode::ActiveDesc => "ActiveDesc"@,
            };
            let filter = if m.filter.len() > 0 {
                m.filter
            } else {
                "none"@
            };
            &&& line.len() == 3
            &&& line[0].text == " DOCKERCTL COMMAND CENTER "@ && is_bold(
                line[0].style,
                Color::Cyan,
            )
            &&& line[1].text == " project-first docker ops "@ && is_plain(
                line[1].style,
                Color::DarkGray,
            )
            &&& line[2].text == " mode:"@ + mode + " sort:"@ + sort + " filter:"@ + filter + " "@
            &&& is_plain(line[2].style, Color::Yellow)
        }),
{
}

/// The numbers of active projects, and of projects with an unhealthy or restarting container,
/// add up project by project.
pub proof fn project_counts_add_up(projects: Seq<ProjectModel>, p: ProjectModel)
    ensures
        active_projects(Seq::empty()) == 0,
        risky_projects(Seq::empty()) == 0,
        active_projects(projects.push(p)) == active_projects(projects) + if p.active > 0 {
            1nat
        } else {
            0
        },
        risky_projects(projects.push(p)) == risky_projects(projects) + if p.unhealthy > 0
            || p.restarting > 0 {
            1nat
        } else {
            0
        },
{
    reveal(Seq::filter);
    assert(projects.push(p).drop_last() == projects);
}

/// The metrics are, in this order: all projects of the host, the active ones, those at risk, the
/// selected ones and the listed ones. A risk is red; the listed ones are blue while only active
/// projects are shown.
pub proof fn metrics_count_what_they_say(m: DashboardModel)
    ensures
        ({
            let list = metrics(m);
            let risky = risky_projects(m.snapshot.projects);
            let is = |i: int, label: Seq<char>, value: nat, color: Color|
                list[i].label == label && list[i].value == decimal(value) && list[i].color == color;
            &&& list.len() == 5
            &&& is(0, "Projects"@, m.snapshot.projects.len(), Color::Cyan)
            &&& is(1, "Active"@, active_projects(m.snapshot.projects), Color::Green)
            &&& is(
                2,
                "Risk"@,
                risky,
                if risky == 0 {
                    Color::Green
                } else {
                    Color::Red
                },
            )
            &&& is(3, "Selected"@, m.selected.len(), Color::Yellow)
            &&& is(
                4,
                "Visible"@,
                m.filtered.len(),
                if m.running_only {
                    Color::Blue
                } else {
                    Color::DarkGray
                },
            )
        }),
{
}

/// A metric shows its number in its own color and then its label.
pub proof fn metric_shows_number_and_label(metric: MetricModel)
    ensures
        ({
            let line = metric_spans(metric);
            &&& line.len() == 3
            &&& line[0].text == metric.value && is_bold(line[0].style, metric.color)
            &&& line[1].text == " "@ && line[1].style.fg is None && line[1].style.bg is None
                && !line[1].style.bold
            &&& line[2].text == metric.label && is_plain(line[2].style, Color::DarkGray)
        }),
{
}

/// The worst that is the matter with a project decides its risk: unhealthy containers before
/// restarting ones, these before paused ones, these before active ones, and idle at last.
pub proof fn worst_decides_the_risk(p: ProjectModel)
    ensures
        p.unhealthy > 0 ==> risk(p) == ("HIGH"@, Color::Red),
        p.unhealthy == 0 && p.restarting > 0 ==> risk(p) == ("LOOP"@, Color::Yellow),
        p.unhealthy == 0 && p.restarting == 0 && p.paused > 0 ==> risk(p) == (
            "PAUSE"@,
            Color::Blue,
        ),
        p.unhealthy == 0 && p.restarting == 0 && p.paused == 0 && p.active > 0 ==> risk(p) == (
            "LOW"@,
            Color::Green,
        ),
        p.unhealthy == 0 && p.restarting == 0 && p.paused == 0 && p.active == 0 ==> risk(p) == (
            "IDLE"@,
            Color::DarkGray,
        ),
{
}

/// The table has one row for each listed project, in the order of the list. It shows whether the
/// project is selected, its state, name and kind, its active containers out of all, and its
/// risk; selected projects are marked in yellow on a background of their own.
pub proof fn table_shows_the_list(m: DashboardModel, i: int)
    ensures
        table_rows(m).len() == m.filtered.len(),
        0 <= i < m.filtered.len() ==> {
            let (p, row) = (m.filtered[i], table_rows(m)[i]);
            let cells = row.cells;
            let selected = m.selected.contains(p.name);
            &&& cells.len() == 6
            &&& selected ==> cells[0].text == "[x]"@ && is_bold(cells[0].style, Color::Yellow)
            &&& !selected ==> cells[0].text == "[ ]"@ && is_plain(cells[0].style, Color::DarkGray)
            &&& cells[1].text == p.state_code && is_plain(cells[1].style, risk(p).1)
            &&& cells[2].text == p.name
            &&& selected ==> is_bold(cells[2].style, Color::Yellow)
            &&& !selected ==> is_plain(cells[2].style, Color::White)
            &&& cells[3].text == p.kind && is_plain(cells[3].style, Color::DarkGray)
            &&& cells[4].text == decimal(p.active) + "/"@ + decimal(p.containers.len())
            &&& cells[4].style.fg is None && cells[4].style.bg is None && !cells[4].style.bold
            &&& cells[5].text == risk(p).0 && is_bold(cells[5].style, risk(p).1)
            &&& selected ==> row.background == Some(Color::Rgb(43, 36, 11))
            &&& !selected ==> row.background is None
        },
{
}

/// The title of the deck names its panel, and for a plan the operation.
pub proof fn deck_title_names_the_panel(action: OperationAction)
    ensures
        deck_title(TuiPanel::Detail) == "Ops Deck / Detail"@,
        deck_title(TuiPanel::Doctor) == "Ops Deck / Doctor"@,
        deck_title(TuiPanel::Help) == "Ops Deck / Help"@,
        deck_title(TuiPanel::Plan(action)) == "Ops Deck / Plan "@ + label(action),
{
    reveal_strlit("Ops Deck / Plan ");
    reveal_strlit("Ops Deck / Plan Start");
    reveal_strlit("Ops Deck / Plan Stop");
    reveal_strlit("Ops Deck / Plan Restart");
    reveal_strlit("Ops Deck / Plan Remove");
    reveal_strlit("Ops Deck / Plan Purge");
    reveal_strlit("Ops Deck / Plan Prune");
    reveal_strlit("Ops Deck / Plan Rescue");
    reveal_strlit("Start");
    reveal_strlit("Stop");
    reveal_strlit("Restart");
    reveal_strlit("Remove");
    reveal_strlit("Purge");
    reveal_strlit("Prune");
    reveal_strlit("Rescue");
    assert(deck_title(TuiPanel::Plan(action)) =~= "Ops Deck / Plan "@ + label(action));
}

/// The command bar shows the status, and the keys where there is none.
pub proof fn command_bar_shows_status_or_keys(m: DashboardModel)
    ensures
        m.status.len() > 0 ==> command_bar(m) == m.status,
        m.status.len() == 0 ==> command_bar(m)
            == " mouse: click row select, right-click manage, wheel move | keys: j/k move | space select | / filter | i detail | d doctor | 1-5 plan | Enter execute | q quit "@,
{
}

/// The selected entry of the menu stands out; among the others, what rescues, removes and
/// purges is bold in a color of its own.
pub proof fn entries_look_by_what_they_do(item: ContextMenuItem)
    ensures
        stands_out(item_style(item, true)),
        stands_out(description_style(true)),
        is_plain(description_style(false), Color::DarkGray),
        item is Remove ==> is_bold(item_style(item, false), Color::Yellow),
        item is Purge ==> is_bold(item_style(item, false), Color::Red),
        item is Rescue ==> is_bold(item_style(item, false), Color::Cyan),
        !(item is Remove || item is Purge || item is Rescue) ==> is_plain(
            item_style(item, false),
            Color::White,
        ),
        item is Inspect ==> description_of(item) == "details"@,
        item is Doctor ==> description_of(item) == "diagnose"@,
        item is Start ==> description_of(item) == "plan start"@,
        item is Stop ==> description_of(item) == "plan stop"@,
        item is Restart ==> description_of(item) == "plan restart"@,
        item is Rescue ==> description_of(item) == "restart risky"@,
        item is Remove ==> description_of(item) == "confirm remove"@,
        item is Purge ==> description_of(item) == "confirm purge"@,
{
}

/// Without an open menu none is shown. An open one is titled with the number of selected
/// projects where its project is one of several, else with its project, and has one line for
/// each entry, with label and description, of which the selected one stands out.
pub proof fn menu_shows_its_entries(area: Rect, m: DashboardModel, menu: MenuModel, i: int)
    ensures
        m.context_menu is None ==> menu_view(area, m) is None,
        m.context_menu == Some(menu) ==> {
            let view = menu_view(area, m)->0;
            let several = m.selected.len() >= 2 && m.selected.contains(menu.project);
            &&& menu_view(area, m) is Some
            &&& view.rect == crate::tui::menu::menu_rect(area, menu)
            &&& several ==> view.title == "Manage "@ + decimal(m.selected.len()) + " selected"@
            &&& !several ==> view.title == "Manage "@ + menu.project
            &&& view.lines.len() == 8
            &&& 0 <= i < 8 ==> {
                let (item, line) = (menu_items()[i], view.lines[i]);
                &&& line.len() == 2
                &&& line[0].text == " "@ + padded(label_of(item), 8)
                &&& line[0].style == item_style(item, i == menu.selected_index)
                &&& line[1].text == description_of(item)
                &&& line[1].style == description_style(i == menu.selected_index)
            }
        },
{
}

/// A rectangle stays where it is asked for, and is cut only where it would leave the
/// coordinates.
pub proof fn rectangles_are_cut_to_the_coordinates(x: u16, y: u16, width: u16, height: u16)
    ensures
        ({
            let rect = limited_rect(x, y, width, height);
            &&& rect.x == x && rect.y == y
            &&& x + width <= u16::MAX ==> rect.width == width
            &&& x + width > u16::MAX ==> rect.x + rect.width == u16::MAX
            &&& y + height <= u16::MAX ==> rect.height == height
            &&& y + height > u16::MAX ==> rect.y + rect.height == u16::MAX
        }),
{
}

/// A part in hundredths of a length is off by half a cell at most.
pub proof fn percentages_are_rounded(percent: int, length: int)
    ensures
        -50 < 100 * percent_of(percent, length) - length * percent <= 50,
{
}

/// On a screen of full height, the header of three rows, the metrics of five, the main area and
/// the commands of three fill the screen from top to bottom, and the projects and the deck fill
/// the main area from left to right, at 48 of 100 columns.
pub proof fn full_areas_fill_the_screen(screen: Rect)
    requires
        screen.height >= FULL_HEIGHT,
        screen.x + screen.width <= u16::MAX,
        screen.y + screen.height <= u16::MAX,
    ensures
        ({
            let a = full_areas(screen);
            &&& a.header == (Rect { height: 3, ..screen })
            &&& a.metrics.y == a.header.y + 3 && a.metrics.height == 5
            &&& a.projects.y == a.metrics.y + 5 && a.deck.y == a.projects.y
            &&& a.deck.height == a.projects.height
            &&& a.commands.y == a.projects.y + a.projects.height && a.commands.height == 3
            &&& a.commands.y + 3 == screen.y + screen.height
            &&& a.metrics.x == screen.x && a.metrics.width == screen.width
            &&& a.commands.x == screen.x && a.commands.width == screen.width
            &&& a.projects.x == screen.x && a.deck.x == a.projects.x + a.projects.width
            &&& a.deck.x + a.deck.width == screen.x + screen.width
            &&& -50 < 100 * a.projects.width - 48 * screen.width <= 50
        }),
{
}

/// What the parts of the dashboard ask for: three rows for the header, five for the metrics, at
/// least ten for the main area and three for the commands; 48 and 52 of 100 columns for the
/// projects and the deck; and a fifth for each metric.
pub proof fn parts_ask_for_their_sizes(i: int)
    ensures
        row_layout() == seq![Size::Length(3), Size::Length(5), Size::Min(10), Size::Length(3)],
        column_layout() == seq![Size::Percentage(48), Size::Percentage(52)],
        metric_layout().len() == 5,
        0 <= i < 5 ==> metric_layout()[i] == Size::Percentage(20),
{
}

/// A part covers the cells between two places, and lies in an area, along one direction or
/// both.
pub proof fn parts_are_measured_from_the_start(area: Rect, part: Rect, from: int, to: int)
    requires
        area.x + area.width <= u16::MAX,
        area.y + area.height <= u16::MAX,
    ensures
        covers(Axis::Horizontal, area, part, from, to) <==> part.x == area.x + from && part.x
            + part.width == area.x + to,
        covers(Axis::Vertical, area, part, from, to) <==> part.y == area.y + from && part.y
            + part.height == area.y + to,
        extent(Axis::Horizontal, area) == area.width,
        extent(Axis::Vertical, area) == area.height,
        stays_within(Axis::Horizontal, area, part) <==> area.x <= part.x && part.x + part.width
            <= area.x + area.width,
        stays_within(Axis::Vertical, area, part) <==> area.y <= part.y && part.y + part.height
            <= area.y + area.height,
        is_inside(part, area) <==> stays_within(Axis::Horizontal, area, part) && stays_within(
            Axis::Vertical,
            area,
            part,
        ),
{
}

/// The rows give the header, the metrics and the commands, and the columns the projects and the
/// deck.
pub proof fn parts_take_their_places(rows: Seq<Rect>, columns: Seq<Rect>)
    ensures
        ({
            let a = placed(rows, columns);
            &&& a.header == rows[0] && a.metrics == rows[1] && a.commands == rows[3]
            &&& a.projects == columns[0] && a.deck == columns[1]
        }),
{
}

/// A reply of the planner is shown as the plan, with the prompt, or as the reason why there is
/// none.
pub proof fn replies_are_shown(
    plan: OperationPlan,
    error: AppError,
    prompt: Option<PromptModel>,
)
    ensures
        reply_text(Ok(plan), prompt) == plan_text(plan@, prompt),
        reply_text(Err(error), prompt) == error.message@,
{
}

/// A styled text, a metric and a row of the table are shown with what they hold.
pub proof fn shown_parts_hold_what_they_show(span: Span, metric: Metric, row: ProjectRow, i: int)
    ensures
        span@.text == span.text@ && span@.style == span.style,
        metric@.label == metric.label@ && metric@.value == metric.value@,
        metric@.color == metric.color,
        row@.background == row.background,
        row@.cells.len() == row.cells@.len(),
        0 <= i < row.cells@.len() ==> row@.cells[i] == row.cells@[i]@,
{
}

} // verus!
