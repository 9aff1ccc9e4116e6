use dockerctl::domain::{
    msg, AppResult, Container, DockerSnapshot, OperationAction, OperationPlan, Project,
    ProjectHealth, ProjectOrders, SortMode,
};
use dockerctl::text::{
    characters, contains_text, decimal_text, is_before, is_control, join_strings, pad_right,
    same_text,
};
use dockerctl::tui::deck::{
    detail_text, doctor_text, ensure_non_empty_projects, format_plan, format_reply,
    format_safety_rail, help_text, panel_text,
};
use dockerctl::tui::layout::{dashboard_areas, metric_areas, place_parts};
use dockerctl::tui::menu::{
    context_menu_item_at, context_menu_item_index, context_menu_items, context_menu_rect,
    context_menu_selected_item, menu_has_room,
};
use dockerctl::tui::prompt::{confirm_plan, is_destructive_action};
use dockerctl::tui::screen::{
    command_bar_text, context_menu_view, dashboard_metrics, header_line, metric_line, ops_deck_title,
    project_risk, project_rows, Color,
};
use dockerctl::tui::{
    apply_mouse_action, ContextMenuItem, ContextMenuState, DashboardState, ExecutionPrompt,
    MouseAction, Rect, TuiPanel,
};

fn project(name: &str) -> Project {
    Project {
        name: name.into(),
        kind: "Compose".into(),
        state_code: "RUN".into(),
        active: 1,
        stopped: 2,
        unhealthy: 0,
        restarting: 0,
        paused: 0,
        containers: vec![
            Container {
                name: "web".into(),
                image: "web:1".into(),
                state_code: "RUN".into(),
                status: "Up".into(),
            },
            Container {
                name: "db".into(),
                image: "db:2".into(),
                state_code: "EXIT".into(),
                status: "Exited".into(),
            },
        ],
        networks: vec!["n1".into(), "n2".into()],
        volumes: vec!["v".into()],
        images: vec!["web:1".into(), "db:2".into()],
        ports: vec![],
    }
}

fn snapshot(
    projects: Vec<Project>,
    health: Vec<ProjectHealth>,
    findings: Vec<String>,
) -> DockerSnapshot {
    let order: Vec<usize> = (0..projects.len()).collect();
    let orders = ProjectOrders {
        severity: order.clone(),
        name_asc: order.clone(),
        active_desc: order,
    };
    DockerSnapshot::from_listing(projects, orders, health, findings).expect("orders")
}

fn plan(action: OperationAction, token: Option<&str>) -> OperationPlan {
    OperationPlan {
        action,
        summary: "sum".into(),
        projects: vec!["a".into(), "b".into()],
        containers: vec!["c1".into(), "c2".into()],
        networks: vec![],
        volumes: vec!["v".into()],
        images: vec![],
        warnings: vec!["careful".into()],
        confirmation_token: token.map(|t| t.to_string()),
    }
}

fn planner(
    _snapshot: &DockerSnapshot,
    action: OperationAction,
    targets: &Vec<String>,
) -> AppResult<OperationPlan> {
    if action == OperationAction::Prune {
        return msg("cannot prune");
    }
    let mut plan = plan(action, None);
    plan.projects = targets.clone();
    Ok(plan)
}

#[test]
fn numbers_are_written_in_decimal() {
    for n in [0usize, 7, 9, 10, 42, 100, 65535, usize::MAX] {
        assert_eq!(decimal_text(n), n.to_string());
    }
}

#[test]
fn strings_are_joined_with_separators() {
    let list = |parts: &[&str]| parts.iter().map(|p| p.to_string()).collect::<Vec<String>>();
    assert_eq!(join_strings(&list(&[]), ", "), "");
    assert_eq!(join_strings(&list(&["a"]), ", "), "a");
    assert_eq!(join_strings(&list(&["a", "", "c"]), ", "), "a, , c");
}

#[test]
fn order_search_and_padding_agree_with_std() {
    let words = ["", "a", "ab", "b", "B", "é", "中文", "中", "\u{1f433}"];
    for a in words {
        for b in words {
            assert_eq!(is_before(a, b), a < b);
            assert_eq!(contains_text(a, b), a.contains(b));
            assert_eq!(same_text(a, b), a == b);
        }
        assert_eq!(pad_right(a, 3), format!("{a:<3}"));
        assert_eq!(characters(a), a.chars().collect::<Vec<char>>());
    }
    assert!(contains_text("aab", "ab"));
}

#[test]
fn control_characters_agree_with_std() {
    for code in 0..0x3000u32 {
        if let Some(c) = char::from_u32(code) {
            assert_eq!(is_control(c), c.is_control());
        }
    }
}

#[test]
fn details_list_the_project_and_its_containers() {
    let state =
        DashboardState::from_snapshot(snapshot(vec![project("shop")], vec![], vec![]), SortMode::Severity);
    assert_eq!(
        detail_text(&state),
        "shop\nkind: Compose\nstate: RUN\ncontainers: 2 active:1 stopped:2\nnetworks: n1, n2\nvolumes: v\nimages: web:1, db:2\nports: \n\n- web [RUN] web:1\n  Up\n- db [EXIT] db:2\n  Exited\n"
    );
    let empty = DashboardState::from_snapshot(snapshot(vec![], vec![], vec![]), SortMode::Severity);
    assert_eq!(detail_text(&empty), "No project matches current filter.");
}

#[test]
fn doctor_lists_findings() {
    let health = vec![
        ProjectHealth {
            status: "Critical".into(),
            project: "shop".into(),
            findings: vec!["one".into(), "two".into()],
        },
        ProjectHealth {
            status: "Healthy".into(),
            project: "blog".into(),
            findings: vec![],
        },
    ];
    let sick = snapshot(vec![], health, vec!["disk".into()]);
    assert_eq!(
        doctor_text(&sick),
        "Critical shop\n  - one\n  - two\nHealthy blog\nglobal: disk\n"
    );
    assert_eq!(
        doctor_text(&snapshot(vec![], vec![], vec![])),
        "No obvious risk found."
    );
}

#[test]
fn plans_show_their_parts() {
    assert_eq!(
        format_plan(&plan(OperationAction::Start, None), None),
        "sum\n\n项目: a, b\n容器: c1, c2\n卷: v\n警告: careful\n\nTUI 执行: 按 Enter 打开执行确认。\n"
    );
    let prompt = ExecutionPrompt {
        action: OperationAction::Remove,
        token_input: "DEL".into(),
    };
    assert_eq!(
        format_plan(&plan(OperationAction::Remove, Some("DELETE")), Some(&prompt)),
        "sum\n\n项目: a, b\n容器: c1, c2\n卷: v\n警告: careful\n\nCLI 执行需确认令牌: DELETE\n\nSafety Rail\ndestructive action: Remove\nrequired token: DELETE\nmouse cannot execute destructive actions\nuse Enter confirmation only after reviewing containers/networks/volumes/images above\n\nExecute Remove\n确认令牌: DELETE\n已输入: DEL\n输入完整令牌后按 Enter 执行；Esc to cancel。\n"
    );
    assert_eq!(
        format_plan(&plan(OperationAction::Rescue, None), Some(&prompt)),
        "sum\n\n项目: a, b\n容器: c1, c2\n卷: v\n警告: careful\n\nRecovery Playbook\n异常信号: 优先处理 unhealthy / restarting / active 容器。\n执行策略: 先生成恢复重启预案，TUI 中需二次确认后才执行。\n验证命令: dockerctl rescue a b --dry-run\n执行命令: dockerctl rescue a b\n回滚提示: 若恢复后仍异常，先查看 dockerctl logs 和 doctor 输出，再考虑 remove/purge。\n\nTUI 执行: 按 Enter 打开执行确认。\n"
    );
    assert!(format_safety_rail(&plan(OperationAction::Purge, None)).contains("required-token"));
}

#[test]
fn replies_and_confirmations_go_by_the_token() {
    assert_eq!(format_reply(msg("no plan"), None), "no plan");
    let token = "DELETE".to_string();
    let wrong = "delete".to_string();
    let with_token = || Ok(plan(OperationAction::Purge, Some("DELETE")));
    assert!(matches!(confirm_plan(&token, with_token()), Ok(Some(_))));
    assert_eq!(confirm_plan(&wrong, with_token()), Ok(None));
    assert!(matches!(
        confirm_plan(&wrong, Ok(plan(OperationAction::Stop, None))),
        Ok(Some(_))
    ));
    assert!(confirm_plan(&token, msg("no plan")).is_err());
    assert!(is_destructive_action(OperationAction::Prune));
    assert!(!is_destructive_action(OperationAction::Rescue));
}

#[test]
fn the_deck_shows_its_panel() {
    let mut state =
        DashboardState::from_snapshot(snapshot(vec![project("shop")], vec![], vec![]), SortMode::Severity);
    assert_eq!(panel_text(&state, &planner), detail_text(&state));
    state.panel = TuiPanel::Doctor;
    assert_eq!(panel_text(&state, &planner), "No obvious risk found.");
    state.panel = TuiPanel::Help;
    assert_eq!(panel_text(&state, &planner), help_text());
    assert!(help_text().starts_with("dockerctl TUI\n\n鼠标左键项目行: 选择/反选\n"));
    assert!(help_text().ends_with("\n\nRemove/Purge 必须输入确认令牌；普通动作需要二次 Enter。"));
    state.panel = TuiPanel::Plan(OperationAction::Start);
    assert!(panel_text(&state, &planner).starts_with("sum\n\n项目: shop\n"));
    assert_eq!(ops_deck_title(state.panel), "Ops Deck / Plan Start");
    state.panel = TuiPanel::Plan(OperationAction::Prune);
    assert_eq!(panel_text(&state, &planner), "cannot prune");
}

#[test]
fn a_host_without_projects_is_an_error() {
    let error = ensure_non_empty_projects(&snapshot(vec![], vec![], vec![])).expect_err("empty");
    assert_eq!(error.message, "未发现 Docker 项目。");
    assert!(ensure_non_empty_projects(&snapshot(vec![project("a")], vec![], vec![])).is_ok());
}

#[test]
fn header_tells_how_projects_are_listed() {
    let mut state =
        DashboardState::from_snapshot(snapshot(vec![project("shop")], vec![], vec![]), SortMode::NameAsc);
    assert_eq!(header_line(&state)[2].text, " mode:all sort:NameAsc filter:none ");
    state.running_only = true;
    state.filter = "sh".into();
    let line = header_line(&state);
    assert_eq!(line[2].text, " mode:active sort:NameAsc filter:sh ");
    assert_eq!(line[0].style.fg, Some(Color::Cyan));
    assert!(line[0].style.bold);
}

#[test]
fn metrics_count_projects() {
    let mut sick = project("sick");
    sick.restarting = 1;
    sick.active = 0;
    let mut state = DashboardState::from_snapshot(
        snapshot(vec![project("shop"), sick], vec![], vec![]),
        SortMode::Severity,
    );
    apply_mouse_action(&mut state, MouseAction::ProjectRowClick { row: 0 });
    state.running_only = true;
    state.rebuild_filtered();
    let metrics: Vec<(String, String, Color)> = dashboard_metrics(&state)
        .into_iter()
        .map(|m| (m.label, m.value, m.color))
        .collect();
    let metric = |label: &str, value: &str, color| (label.to_string(), value.to_string(), color);
    assert_eq!(
        metrics,
        vec![
            metric("Projects", "2", Color::Cyan),
            metric("Active", "1", Color::Green),
            metric("Risk", "1", Color::Red),
            metric("Selected", "1", Color::Yellow),
            metric("Visible", "1", Color::Blue),
        ]
    );
    let line = metric_line(&dashboard_metrics(&state)[2]);
    assert_eq!(line[0].text, "1");
    assert_eq!(line[0].style.fg, Some(Color::Red));
    assert_eq!(line[2].text, "Risk");
}

#[test]
fn risk_goes_by_the_worst() {
    let mut p = project("shop");
    assert_eq!(project_risk(&p), ("LOW", Color::Green));
    p.active = 0;
    assert_eq!(project_risk(&p), ("IDLE", Color::DarkGray));
    p.paused = 1;
    assert_eq!(project_risk(&p), ("PAUSE", Color::Blue));
    p.restarting = 1;
    assert_eq!(project_risk(&p), ("LOOP", Color::Yellow));
    p.unhealthy = 1;
    assert_eq!(project_risk(&p), ("HIGH", Color::Red));
}

#[test]
fn selected_rows_are_marked() {
    let mut state =
        DashboardState::from_snapshot(snapshot(vec![project("shop")], vec![], vec![]), SortMode::Severity);
    let texts = |state: &DashboardState| {
        project_rows(state)[0]
            .cells
            .iter()
            .map(|c| c.text.clone())
            .collect::<Vec<String>>()
    };
    assert_eq!(texts(&state), vec!["[ ]", "RUN", "shop", "Compose", "1/2", "LOW"]);
    assert_eq!(project_rows(&state)[0].background, None);
    apply_mouse_action(&mut state, MouseAction::ProjectRowClick { row: 0 });
    assert_eq!(texts(&state)[0], "[x]");
    assert_eq!(
        project_rows(&state)[0].background,
        Some(Color::Rgb(43, 36, 11))
    );
}

#[test]
fn command_bar_shows_the_status_or_the_keys() {
    let mut state = DashboardState::from_snapshot(snapshot(vec![], vec![], vec![]), SortMode::Severity);
    assert!(command_bar_text(&state).starts_with(" mouse: click row select"));
    state.status = "busy".into();
    assert_eq!(command_bar_text(&state), "busy");
}

#[test]
fn menu_stays_on_the_screen() {
    let menu = |x, y| ContextMenuState {
        project: "shop".into(),
        row: 0,
        x,
        y,
        selected_index: 9,
    };
    let screen = Rect {
        x: 0,
        y: 0,
        width: 110,
        height: 32,
    };
    let rect = |x, y, width, height| Rect {
        x,
        y,
        width,
        height,
    };
    assert_eq!(context_menu_rect(screen, &menu(5, 12)), rect(5, 12, 36, 10));
    assert_eq!(context_menu_rect(screen, &menu(100, 30)), rect(74, 22, 36, 10));
    let small = rect(0, 0, 20, 4);
    assert_eq!(context_menu_rect(small, &menu(5, 3)), rect(0, 0, 20, 4));
    assert_eq!(context_menu_rect(rect(0, 0, 0, 0), &menu(5, 3)), rect(0, 0, 1, 1));
    // The size is cut where the coordinates end.
    let edge = rect(u16::MAX, 0, 36, 10);
    assert_eq!(context_menu_rect(edge, &menu(u16::MAX, 0)), rect(u16::MAX, 0, 0, 10));
    assert_eq!(context_menu_selected_item(&menu(0, 0)), ContextMenuItem::Inspect);
    for (index, item) in context_menu_items().into_iter().enumerate() {
        assert_eq!(context_menu_item_index(item), index);
        let row = 13 + index as u16;
        assert_eq!(context_menu_item_at(screen, &menu(5, 12), 6, row), Some(item));
    }
    assert_eq!(context_menu_item_at(screen, &menu(5, 12), 5, 13), None);
    assert_eq!(context_menu_item_at(screen, &menu(5, 12), 40, 13), None);
    assert_eq!(context_menu_item_at(screen, &menu(5, 12), 6, 12), None);
    assert_eq!(context_menu_item_at(screen, &menu(5, 12), 6, 21), None);
}

#[test]
fn menu_title_counts_a_selection() {
    let mut state = DashboardState::from_snapshot(
        snapshot(vec![project("a"), project("b")], vec![], vec![]),
        SortMode::Severity,
    );
    let screen = Rect {
        x: 0,
        y: 0,
        width: 110,
        height: 32,
    };
    assert_eq!(context_menu_view(screen, &state), None);
    state.toggle_all();
    apply_mouse_action(&mut state, MouseAction::OpenContextMenu { row: 0, x: 1, y: 2 });
    let view = context_menu_view(screen, &state).expect("menu");
    assert_eq!(view.title, "Manage 2 selected");
    assert_eq!(view.lines.len(), 8);
    assert_eq!(view.lines[0][0].text, " Inspect ");
    assert_eq!(view.lines[0][0].style.bg, Some(Color::Cyan));
    assert_eq!(view.lines[7][0].style.fg, Some(Color::Red));
    assert_eq!(view.lines[7][1].text, "confirm purge");
}

#[test]
fn the_screen_is_divided() {
    let screen = Rect {
        x: 0,
        y: 0,
        width: 100,
        height: 32,
    };
    let areas = dashboard_areas(screen);
    let rect = |x, y, width, height| Rect {
        x,
        y,
        width,
        height,
    };
    assert_eq!(areas.header, rect(0, 0, 100, 3));
    assert_eq!(areas.metrics, rect(0, 3, 100, 5));
    assert_eq!(areas.projects, rect(0, 8, 48, 21));
    assert_eq!(areas.deck, rect(48, 8, 52, 21));
    assert_eq!(areas.commands, rect(0, 29, 100, 3));
    let metrics = metric_areas(areas.metrics);
    assert_eq!(metrics.len(), 5);
    assert_eq!(metrics[1], rect(20, 3, 20, 5));
    let rows = vec![rect(0, 0, 1, 1), rect(0, 1, 1, 1), rect(0, 2, 1, 1), rect(0, 3, 1, 1)];
    let columns = vec![rect(7, 2, 1, 1), rect(8, 2, 1, 1)];
    assert_eq!(place_parts(&rows, &columns).deck, columns[1]);
    assert_eq!(place_parts(&rows, &columns).commands, rows[3]);
}

#[test]
fn every_part_stays_on_the_screen() {
    let end = |start: u16, size: u16| start.saturating_add(size);
    let sizes = [0u16, 1, 2, 3, 7, 10, 11, 20, 36, 79, 80, 110, 255, 1000, 32768, u16::MAX];
    for x in [0u16, 5, 65500, u16::MAX] {
        for y in [0u16, 9, 65520] {
            for width in sizes {
                for height in sizes {
                    let screen = Rect {
                        x,
                        y,
                        width,
                        height,
                    };
                    let areas = dashboard_areas(screen);
                    let rows = [areas.header, areas.metrics, areas.commands];
                    let columns = [areas.projects, areas.deck];
                    for row in rows {
                        assert_eq!((row.x, row.width), (x, width));
                    }
                    for part in rows.into_iter().chain(columns) {
                        assert!(part.y >= y && end(part.y, part.height) <= end(y, height));
                        assert!(u32::from(part.y) + u32::from(part.height) <= 65535);
                    }
                    for part in columns {
                        assert!(part.x >= x && end(part.x, part.width) <= end(x, width));
                        assert!(u32::from(part.x) + u32::from(part.width) <= 65535);
                    }
                    for part in metric_areas(areas.metrics) {
                        assert_eq!((part.y, part.height), (areas.metrics.y, areas.metrics.height));
                        assert!(part.x >= x && end(part.x, part.width) <= end(x, width));
                        assert!(u32::from(part.x) + u32::from(part.width) <= 65535);
                    }
                }
            }
        }
    }
}

#[test]
fn parts_have_the_lengths_that_they_ask_for() {
    let sizes: Vec<u16> = (0..140).chain([999, 1000, 32767, 40000, 65534, u16::MAX]).collect();
    for (x, y) in [(0u16, 0u16), (7, 65400)] {
        for n in &sizes {
            let screen = Rect {
                x,
                y,
                width: *n,
                height: *n,
            };
            let (left, top) = (u32::from(x), u32::from(y));
            let (wide, high) = (u32::from(*n).min(65535 - left), u32::from(*n).min(65535 - top));
            let across = |part: Rect| (u32::from(part.x), u32::from(part.width));
            let down = |part: Rect| (u32::from(part.y), u32::from(part.height));
            let areas = dashboard_areas(screen);
            let cut = (wide * 48 + 50) / 100;
            assert_eq!(across(areas.projects), (left, cut));
            assert_eq!(across(areas.deck), (left + cut, wide - cut));
            if high >= 21 {
                assert_eq!(down(areas.header), (top, 3));
                assert_eq!(down(areas.metrics), (top + 3, 5));
                assert_eq!(down(areas.projects), (top + 8, high - 11));
                assert_eq!(down(areas.deck), (top + 8, high - 11));
                assert_eq!(down(areas.commands), (top + high - 3, 3));
            }
            for (part, i) in metric_areas(screen).into_iter().zip(0u32..) {
                let (from, to) = ((wide * 20 * i + 50) / 100, (wide * 20 * (i + 1) + 50) / 100);
                assert_eq!(across(part), (left + from, to - from));
            }
        }
    }
}

#[test]
fn the_menu_has_room_where_its_places_are_coordinates() {
    let rect = |x, y, width, height| Rect {
        x,
        y,
        width,
        height,
    };
    assert!(menu_has_room(rect(0, 0, u16::MAX, u16::MAX)));
    assert!(menu_has_room(rect(u16::MAX, u16::MAX, 36, 10)));
    assert!(menu_has_room(rect(65530, 0, 41, 10)));
    assert!(!menu_has_room(rect(65530, 0, 42, 10)));
    assert!(!menu_has_room(rect(0, 65530, 36, 16)));
}
