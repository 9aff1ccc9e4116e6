use dockerctl::domain::{
    msg, AppResult, DockerSnapshot, OperationAction, OperationPlan, Project, ProjectOrders,
    SortMode,
};
use dockerctl::tui::keys::refresh_due;
use dockerctl::tui::{
    apply_mouse_action, begin_execution_prompt, cancel_execution_prompt, mouse_action_for_event,
    pop_execution_token, push_execution_token, ContextMenuItem, DashboardState, InputEvent,
    KeyCode, MouseAction, MouseButton, MouseEvent, MouseEventKind, Step, TuiPanel,
};

fn project(name: &str, active: usize) -> Project {
    Project {
        name: name.into(),
        kind: "Compose".into(),
        state_code: "OK".into(),
        active,
        stopped: 0,
        unhealthy: 0,
        restarting: 0,
        paused: 0,
        containers: vec![],
        networks: vec![],
        volumes: vec![],
        images: vec![],
        ports: vec![],
    }
}

/// Beta, Alpha and gamma, of which gamma is idle.
fn snapshot() -> DockerSnapshot {
    DockerSnapshot::from_listing(
        vec![project("Beta", 1), project("Alpha", 2), project("gamma", 0)],
        ProjectOrders {
            severity: vec![2, 0, 1],
            name_asc: vec![1, 0, 2],
            active_desc: vec![1, 0, 2],
        },
        vec![],
        vec![],
    )
    .expect("orders")
}

fn empty_snapshot() -> DockerSnapshot {
    DockerSnapshot::from_listing(
        vec![],
        ProjectOrders {
            severity: vec![],
            name_asc: vec![],
            active_desc: vec![],
        },
        vec![],
        vec![],
    )
    .expect("orders")
}

fn dashboard() -> DashboardState {
    DashboardState::from_snapshot(snapshot(), SortMode::NameAsc)
}

fn planner(
    snapshot: &DockerSnapshot,
    action: OperationAction,
    targets: &Vec<String>,
) -> AppResult<OperationPlan> {
    if targets.is_empty() {
        return msg("no target");
    }
    Ok(OperationPlan {
        action,
        summary: format!("{} projects", snapshot.projects().len()),
        projects: targets.clone(),
        containers: vec![],
        networks: vec![],
        volumes: vec![],
        images: vec![],
        warnings: vec![],
        confirmation_token: match action {
            OperationAction::Remove => Some(targets.join("+")),
            _ => None,
        },
    })
}

fn press(state: &mut DashboardState, code: KeyCode) -> Step {
    let event = InputEvent::Key {
        code,
        pressed: true,
    };
    state.handle_event(event, &planner).expect("step")
}

fn names(state: &DashboardState) -> Vec<&str> {
    state.filtered.iter().map(|p| p.name.as_str()).collect()
}

#[test]
fn orders_must_list_every_project_once() {
    let orders = |severity: Vec<usize>| ProjectOrders {
        severity,
        name_asc: vec![0, 1],
        active_desc: vec![1, 0],
    };
    let projects = || vec![project("a", 0), project("b", 0)];
    assert!(DockerSnapshot::from_listing(projects(), orders(vec![1, 0]), vec![], vec![]).is_some());
    assert!(DockerSnapshot::from_listing(projects(), orders(vec![0, 0]), vec![], vec![]).is_none());
    assert!(DockerSnapshot::from_listing(projects(), orders(vec![0, 2]), vec![], vec![]).is_none());
    assert!(DockerSnapshot::from_listing(projects(), orders(vec![0]), vec![], vec![]).is_none());
}

#[test]
fn each_order_lists_the_same_projects() {
    for mode in [SortMode::Severity, SortMode::NameAsc, SortMode::ActiveDesc] {
        let mut listed: Vec<String> = snapshot()
            .projects_sorted(mode)
            .into_iter()
            .map(|p| p.name)
            .collect();
        listed.sort();
        assert_eq!(listed, vec!["Alpha", "Beta", "gamma"]);
    }
}

#[test]
fn new_dashboard_lists_everything_from_the_first_row() {
    let state = dashboard();
    assert_eq!(names(&state), vec!["Alpha", "Beta", "gamma"]);
    assert_eq!(state.table_state.selected(), Some(0));
    assert!(state.selected.is_empty());
    assert_eq!(state.panel, TuiPanel::Detail);
}

#[test]
fn empty_dashboard_has_no_cursor_until_it_moves_up() {
    let mut state = DashboardState::from_snapshot(empty_snapshot(), SortMode::Severity);
    assert_eq!(state.table_state.selected(), None);
    state.next();
    assert_eq!(state.table_state.selected(), None);
    state.previous();
    assert_eq!(state.table_state.selected(), Some(0));
    assert!(state.current_project().is_none());
    state.rebuild_filtered();
    assert_eq!(state.table_state.selected(), None);
}

#[test]
fn filter_disregards_case() {
    let mut state = dashboard();
    for ch in "ALP".chars() {
        press(&mut state, KeyCode::Char(ch));
    }
    assert_eq!(state.filter, "ALP");
    assert_eq!(names(&state), vec!["Alpha"]);
    for _ in 0..3 {
        press(&mut state, KeyCode::Backspace);
    }
    assert_eq!(state.filter, "");
    assert_eq!(names(&state), vec!["Alpha", "Beta", "gamma"]);
    press(&mut state, KeyCode::Backspace);
    assert_eq!(state.filter, "");
}

#[test]
fn filter_lowers_letters_beyond_ascii() {
    let snapshot = DockerSnapshot::from_listing(
        vec![project("ÄRGER", 0)],
        ProjectOrders {
            severity: vec![0],
            name_asc: vec![0],
            active_desc: vec![0],
        },
        vec![],
        vec![],
    )
    .expect("orders");
    let mut state = DashboardState::from_snapshot(snapshot, SortMode::Severity);
    state.filter = "ä".into();
    state.rebuild_filtered();
    assert_eq!(names(&state), vec!["ÄRGER"]);
    state.filter = "ö".into();
    state.rebuild_filtered();
    assert!(names(&state).is_empty());
}

#[test]
fn what_is_no_longer_listed_is_no_longer_selected() {
    let mut state = dashboard();
    press(&mut state, KeyCode::Char('a'));
    assert_eq!(state.selected.len(), 3);
    press(&mut state, KeyCode::Down);
    press(&mut state, KeyCode::Down);
    assert_eq!(state.table_state.selected(), Some(2));
    press(&mut state, KeyCode::Char('x'));
    assert_eq!(names(&state), vec!["Alpha", "Beta"]);
    assert_eq!(state.selected.len(), 2);
    assert!(!state.selected.contains("gamma"));
    assert_eq!(state.table_state.selected(), Some(1));
    press(&mut state, KeyCode::Char('x'));
    assert_eq!(names(&state), vec!["Alpha", "Beta", "gamma"]);
    assert_eq!(state.selected.len(), 2);
}

#[test]
fn rebuilding_again_changes_nothing() {
    let mut state = dashboard();
    state.filter = "b".into();
    state.table_state.select(Some(7));
    state.rebuild_filtered();
    assert_eq!(names(&state), vec!["Beta"]);
    assert_eq!(state.table_state.selected(), Some(0));
    state.rebuild_filtered();
    assert_eq!(names(&state), vec!["Beta"]);
    assert_eq!(state.table_state.selected(), Some(0));
}

#[test]
fn cursor_moves_within_the_list() {
    let mut state = dashboard();
    press(&mut state, KeyCode::Char('k'));
    assert_eq!(state.table_state.selected(), Some(0));
    press(&mut state, KeyCode::Char('j'));
    assert_eq!(state.table_state.selected(), Some(1));
    press(&mut state, KeyCode::Up);
    assert_eq!(state.table_state.selected(), Some(0));
    for _ in 0..9 {
        press(&mut state, KeyCode::Down);
    }
    assert_eq!(state.table_state.selected(), Some(2));
}

#[test]
fn space_turns_the_selection_over() {
    let mut state = dashboard();
    press(&mut state, KeyCode::Char(' '));
    assert!(state.selected.contains("Alpha"));
    press(&mut state, KeyCode::Char(' '));
    assert!(state.selected.is_empty());
}

#[test]
fn all_are_selected_and_then_none() {
    let mut state = dashboard();
    press(&mut state, KeyCode::Char(' '));
    press(&mut state, KeyCode::Char('a'));
    assert_eq!(state.selected.len(), 3);
    press(&mut state, KeyCode::Char('a'));
    assert_eq!(state.selected.len(), 0);
    press(&mut state, KeyCode::Char('a'));
    press(&mut state, KeyCode::Char('c'));
    assert!(state.selected.is_empty());
}

#[test]
fn sort_modes_come_round_again() {
    let mut state = DashboardState::from_snapshot(snapshot(), SortMode::Severity);
    assert_eq!(names(&state), vec!["gamma", "Beta", "Alpha"]);
    press(&mut state, KeyCode::Char('o'));
    assert_eq!(state.sort_mode, SortMode::NameAsc);
    assert_eq!(names(&state), vec!["Alpha", "Beta", "gamma"]);
    press(&mut state, KeyCode::Char('o'));
    assert_eq!(state.sort_mode, SortMode::ActiveDesc);
    press(&mut state, KeyCode::Char('o'));
    assert_eq!(state.sort_mode, SortMode::Severity);
    assert_eq!(names(&state), vec!["gamma", "Beta", "Alpha"]);
}

#[test]
fn keys_show_their_panels() {
    let panels = [
        ('1', TuiPanel::Plan(OperationAction::Start)),
        ('2', TuiPanel::Plan(OperationAction::Stop)),
        ('3', TuiPanel::Plan(OperationAction::Restart)),
        ('4', TuiPanel::Plan(OperationAction::Remove)),
        ('5', TuiPanel::Plan(OperationAction::Purge)),
        ('d', TuiPanel::Doctor),
        ('i', TuiPanel::Detail),
        ('h', TuiPanel::Help),
        ('?', TuiPanel::Help),
    ];
    for (key, panel) in panels {
        let mut state = dashboard();
        assert_eq!(press(&mut state, KeyCode::Char(key)), Step::Continue);
        assert_eq!(state.panel, panel);
        assert_eq!(state.filter, "");
    }
}

#[test]
fn some_keys_are_for_the_program_around() {
    let mut state = dashboard();
    assert_eq!(press(&mut state, KeyCode::Char('q')), Step::Quit);
    assert_eq!(press(&mut state, KeyCode::Esc), Step::Quit);
    assert_eq!(press(&mut state, KeyCode::Char('r')), Step::Refresh);
    assert_eq!(press(&mut state, KeyCode::Other), Step::Continue);
    assert_eq!(press(&mut state, KeyCode::Char('\u{7}')), Step::Continue);
    assert_eq!(state.filter, "");
    press(&mut state, KeyCode::Char('/'));
    assert_eq!(
        state.status,
        "输入过滤字符；退格删除，Enter 确认，Esc 清空。"
    );
}

#[test]
fn released_keys_do_nothing() {
    let mut state = dashboard();
    let event = InputEvent::Key {
        code: KeyCode::Char('q'),
        pressed: false,
    };
    assert_eq!(state.handle_event(event, &planner), Ok(Step::Continue));
    assert_eq!(
        state.handle_event(InputEvent::Other, &planner),
        Ok(Step::Continue)
    );
}

#[test]
fn an_ordinary_action_takes_enter_three_times() {
    let mut state = dashboard();
    assert_eq!(press(&mut state, KeyCode::Enter), Step::Continue);
    assert_eq!(state.panel, TuiPanel::Plan(OperationAction::Stop));
    assert_eq!(press(&mut state, KeyCode::Enter), Step::Continue);
    assert!(state.execution_prompt.is_some());
    assert_eq!(state.status, "再次按 Enter 执行 Stop，Esc 取消。");
    match press(&mut state, KeyCode::Enter) {
        Step::Execute(plan) => {
            assert_eq!(plan.action, OperationAction::Stop);
            assert_eq!(plan.projects, vec!["Alpha".to_string()]);
            assert_eq!(plan.summary, "3 projects");
        }
        step => panic!("{step:?}"),
    }
    assert_eq!(state.status, "正在执行 Stop ...");
    state.finish_execution(OperationAction::Stop, 12, 0);
    assert_eq!(state.status, "Stop 执行完成: 成功 12 个，失败 0 个。");
    assert!(state.execution_prompt.is_none());
}

#[test]
fn a_plan_with_a_token_waits_for_it() {
    let mut state = dashboard();
    press(&mut state, KeyCode::Char(' '));
    press(&mut state, KeyCode::Down);
    press(&mut state, KeyCode::Char(' '));
    press(&mut state, KeyCode::Char('4'));
    press(&mut state, KeyCode::Enter);
    assert_eq!(state.status, "输入确认令牌后按 Enter 执行，Esc 取消。");
    for ch in "Alpha+Betax\u{1}".chars() {
        assert_eq!(press(&mut state, KeyCode::Char(ch)), Step::Continue);
    }
    assert_eq!(press(&mut state, KeyCode::Enter), Step::Continue);
    assert_eq!(state.status, "确认令牌未匹配，继续输入或按 Esc 取消。");
    assert!(state.execution_prompt.is_some());
    press(&mut state, KeyCode::Backspace);
    assert!(matches!(press(&mut state, KeyCode::Enter), Step::Execute(_)));
}

#[test]
fn a_failing_planner_ends_the_prompt_with_its_error() {
    let mut state = DashboardState::from_snapshot(empty_snapshot(), SortMode::Severity);
    state.panel = TuiPanel::Plan(OperationAction::Start);
    begin_execution_prompt(&mut state);
    let error = state
        .handle_key(KeyCode::Enter, &planner)
        .expect_err("no target");
    assert_eq!(error.message, "no target");
    assert!(state.execution_prompt.is_some());
}

#[test]
fn escape_cancels_the_prompt() {
    let mut state = dashboard();
    press(&mut state, KeyCode::Char('5'));
    press(&mut state, KeyCode::Enter);
    assert_eq!(press(&mut state, KeyCode::Esc), Step::Continue);
    assert!(state.execution_prompt.is_none());
    assert_eq!(state.status, "已取消 TUI 执行。");
    assert_eq!(state.panel, TuiPanel::Plan(OperationAction::Purge));
}

#[test]
fn erasing_undoes_typing_in_the_prompt() {
    let mut state = dashboard();
    state.panel = TuiPanel::Plan(OperationAction::Remove);
    begin_execution_prompt(&mut state);
    pop_execution_token(&mut state);
    for ch in "令牌".chars() {
        push_execution_token(&mut state, ch);
    }
    pop_execution_token(&mut state);
    assert_eq!(
        state.execution_prompt.as_ref().map(|p| p.token_input.as_str()),
        Some("令")
    );
    cancel_execution_prompt(&mut state);
    push_execution_token(&mut state, 'x');
    assert!(state.execution_prompt.is_none());
}

#[test]
fn no_prompt_opens_without_a_plan() {
    let mut state = dashboard();
    begin_execution_prompt(&mut state);
    assert!(state.execution_prompt.is_none());
    assert_eq!(state.status, "");
}

#[test]
fn menu_keys_move_within_the_menu() {
    let mut state = dashboard();
    apply_mouse_action(&mut state, MouseAction::OpenContextMenu { row: 1, x: 3, y: 9 });
    assert_eq!(state.status, "右键管理菜单已打开: Beta");
    press(&mut state, KeyCode::Up);
    assert_eq!(state.context_menu.as_ref().map(|m| m.selected_index), Some(0));
    for _ in 0..20 {
        press(&mut state, KeyCode::Char('j'));
    }
    assert_eq!(state.context_menu.as_ref().map(|m| m.selected_index), Some(7));
    press(&mut state, KeyCode::Char('k'));
    assert_eq!(press(&mut state, KeyCode::Enter), Step::Continue);
    assert_eq!(state.panel, TuiPanel::Plan(OperationAction::Remove));
    assert_eq!(state.status, "已选择右键菜单动作: Remove");
    assert!(state.context_menu.is_none());
    assert!(state.selected.contains("Beta"));
}

#[test]
fn escape_closes_the_menu_first() {
    let mut state = dashboard();
    apply_mouse_action(&mut state, MouseAction::OpenContextMenu { row: 0, x: 3, y: 9 });
    assert_eq!(press(&mut state, KeyCode::Char('q')), Step::Continue);
    assert_eq!(press(&mut state, KeyCode::Esc), Step::Continue);
    assert!(state.context_menu.is_none());
    assert_eq!(press(&mut state, KeyCode::Esc), Step::Quit);
}

#[test]
fn right_click_keeps_a_selection_that_holds_the_project() {
    let mut state = dashboard();
    apply_mouse_action(&mut state, MouseAction::ProjectRowClick { row: 0 });
    apply_mouse_action(&mut state, MouseAction::ProjectRowClick { row: 1 });
    apply_mouse_action(&mut state, MouseAction::OpenContextMenu { row: 0, x: 1, y: 1 });
    assert_eq!(state.selected.len(), 2);
    apply_mouse_action(&mut state, MouseAction::OpenContextMenu { row: 2, x: 1, y: 1 });
    assert_eq!(state.selected.len(), 1);
    assert!(state.selected.contains("gamma"));
    apply_mouse_action(&mut state, MouseAction::OpenContextMenu { row: 3, x: 1, y: 1 });
    assert_eq!(state.context_menu.as_ref().map(|m| m.row), Some(2));
}

#[test]
fn two_clicks_leave_the_selection_as_it_was() {
    let mut state = dashboard();
    apply_mouse_action(&mut state, MouseAction::ProjectRowClick { row: 2 });
    apply_mouse_action(&mut state, MouseAction::ProjectRowClick { row: 2 });
    assert!(state.selected.is_empty());
    assert_eq!(state.table_state.selected(), Some(2));
    apply_mouse_action(&mut state, MouseAction::ProjectRowClick { row: 3 });
    assert_eq!(state.table_state.selected(), Some(2));
}

#[test]
fn the_mouse_closes_prompts_and_opens_none() {
    let actions = [
        MouseAction::ProjectRowClick { row: 0 },
        MouseAction::PanelClick { slot: 0 },
        MouseAction::OpenContextMenu { row: 0, x: 1, y: 1 },
        MouseAction::ContextMenuClick {
            item: ContextMenuItem::Purge,
        },
        MouseAction::ScrollUp,
        MouseAction::ScrollDown,
    ];
    for action in actions {
        let mut state = dashboard();
        apply_mouse_action(&mut state, action);
        assert!(state.execution_prompt.is_none());
        state.panel = TuiPanel::Plan(OperationAction::Purge);
        begin_execution_prompt(&mut state);
        apply_mouse_action(&mut state, action);
        assert!(state.execution_prompt.is_none());
    }
}

#[test]
fn mouse_events_reach_the_state() {
    let mut state = dashboard();
    let click = |kind, column, row| InputEvent::Mouse {
        event: MouseEvent { kind, column, row },
        screen: (110, 32),
    };
    let left = MouseEventKind::Down(MouseButton::Left);
    assert_eq!(
        state.handle_event(click(left, 4, 11), &planner),
        Ok(Step::Continue)
    );
    assert!(state.selected.contains("Beta"));
    let right = MouseEventKind::Down(MouseButton::Right);
    assert_eq!(
        state.handle_event(click(right, 4, 12), &planner),
        Ok(Step::Continue)
    );
    assert_eq!(
        state.context_menu.as_ref().map(|m| m.project.as_str()),
        Some("gamma")
    );
    // The fourth line of the menu that stands at column 4 and row 12.
    assert_eq!(
        state.handle_event(click(left, 5, 16), &planner),
        Ok(Step::Continue)
    );
    assert_eq!(state.panel, TuiPanel::Plan(OperationAction::Stop));
    let wheel = MouseEventKind::ScrollUp;
    assert_eq!(
        state.handle_event(click(wheel, 0, 0), &planner),
        Ok(Step::Continue)
    );
    assert_eq!(state.table_state.selected(), Some(1));
}

#[test]
fn the_table_takes_the_left_part_of_the_main_area() {
    let left = |column, row| MouseEvent {
        kind: MouseEventKind::Down(MouseButton::Left),
        column,
        row,
    };
    let row_click = |row| Some(MouseAction::ProjectRowClick { row });
    // 48 of 100 columns are the table's.
    assert_eq!(mouse_action_for_event(left(47, 8), (100, 32), 3, None), row_click(0));
    assert_eq!(mouse_action_for_event(left(48, 8), (100, 32), 3, None), None);
    assert_eq!(mouse_action_for_event(left(0, 10), (100, 32), 3, None), row_click(0));
    assert_eq!(mouse_action_for_event(left(0, 12), (100, 32), 3, None), row_click(2));
    assert_eq!(mouse_action_for_event(left(0, 13), (100, 32), 3, None), None);
    assert_eq!(mouse_action_for_event(left(0, 28), (100, 32), 99, None), row_click(18));
    assert_eq!(mouse_action_for_event(left(0, 29), (100, 32), 99, None), None);
    assert_eq!(mouse_action_for_event(left(0, 8), (1, 12), 3, None), row_click(0));
    assert_eq!(mouse_action_for_event(left(0, 8), (100, 11), 3, None), None);
    let other = MouseEvent {
        kind: MouseEventKind::Up(MouseButton::Left),
        column: 0,
        row: 10,
    };
    assert_eq!(mouse_action_for_event(other, (100, 32), 3, None), None);
}

#[test]
fn a_new_snapshot_keeps_what_is_still_there() {
    let mut state = dashboard();
    press(&mut state, KeyCode::Char('a'));
    let smaller = DockerSnapshot::from_listing(
        vec![project("gamma", 0)],
        ProjectOrders {
            severity: vec![0],
            name_asc: vec![0],
            active_desc: vec![0],
        },
        vec![],
        vec![],
    )
    .expect("orders");
    state.refresh(smaller);
    assert_eq!(names(&state), vec!["gamma"]);
    assert_eq!(state.selected.len(), 1);
    assert!(state.selected.contains("gamma"));
}

#[test]
fn targets_are_the_selected_projects_in_list_order() {
    let mut state = dashboard();
    assert_eq!(state.action_targets(), vec!["Alpha".to_string()]);
    apply_mouse_action(&mut state, MouseAction::ProjectRowClick { row: 2 });
    apply_mouse_action(&mut state, MouseAction::ProjectRowClick { row: 0 });
    assert_eq!(
        state.action_targets(),
        vec!["Alpha".to_string(), "gamma".to_string()]
    );
    let plan = state
        .plan_for(&planner, OperationAction::Start)
        .expect("plan");
    assert_eq!(plan.projects, state.action_targets());
}

#[test]
fn snapshots_age_in_two_seconds() {
    assert!(!refresh_due(1999));
    assert!(refresh_due(2000));
}

#[test]
fn every_left_click_settles_an_open_menu_and_none_is_a_panel_click() {
    let menu = dockerctl::tui::ContextMenuState {
        project: "Beta".into(),
        row: 1,
        x: 60,
        y: 20,
        selected_index: 0,
    };
    for column in 0..80u16 {
        for row in 0..24u16 {
            let event = MouseEvent {
                kind: MouseEventKind::Down(MouseButton::Left),
                column,
                row,
            };
            // The menu is moved left and up to column 44 and row 14.
            let expected = if (45..79).contains(&column) && (15..23).contains(&row) {
                MouseAction::ContextMenuClick {
                    item: dockerctl::tui::menu::context_menu_items()[usize::from(row - 15)],
                }
            } else {
                MouseAction::CloseContextMenu
            };
            assert_eq!(
                mouse_action_for_event(event, (80, 24), 3, Some(&menu)),
                Some(expected)
            );
            let without = mouse_action_for_event(event, (80, 24), 3, None);
            assert!(!matches!(without, Some(MouseAction::PanelClick { .. })));
        }
    }
}

#[test]
fn project_clicks_are_on_the_drawn_table() {
    for screen in [(2u16, 21u16), (3, 22), (80, 24), (99, 40), (110, 32)] {
        let table = dockerctl::tui::layout::dashboard_areas(dockerctl::tui::Rect {
            x: 0,
            y: 0,
            width: screen.0,
            height: screen.1,
        })
        .projects;
        for column in 0..screen.0 {
            for row in 0..screen.1 {
                let event = MouseEvent {
                    kind: MouseEventKind::Down(MouseButton::Left),
                    column,
                    row,
                };
                if mouse_action_for_event(event, screen, 1000, None).is_some() {
                    assert!(column < table.x + table.width);
                    assert!(row >= table.y && row < table.y + table.height);
                }
            }
        }
    }
}

#[test]
fn only_moves_down_can_leave_the_numbers() {
    let key = |code| InputEvent::Key {
        code,
        pressed: true,
    };
    let mut state = dashboard();
    assert!(state.can_take_event(key(KeyCode::Down)));
    state.table_state.select(Some(usize::MAX));
    assert!(!state.can_take_event(key(KeyCode::Down)));
    assert!(!state.can_take_event(key(KeyCode::Char('j'))));
    assert!(state.can_take_event(key(KeyCode::Up)));
    assert!(state.can_take_event(InputEvent::Key {
        code: KeyCode::Down,
        pressed: false,
    }));
    let wheel = |kind| InputEvent::Mouse {
        event: MouseEvent {
            kind,
            column: 0,
            row: 0,
        },
        screen: (80, 24),
    };
    assert!(!state.can_take_event(wheel(MouseEventKind::ScrollDown)));
    assert!(state.can_take_event(wheel(MouseEventKind::ScrollUp)));
    apply_mouse_action(&mut state, MouseAction::OpenContextMenu { row: 0, x: 1, y: 1 });
    state.table_state.select(Some(usize::MAX));
    assert!(state.can_take_event(key(KeyCode::Down)));
    state.context_menu.as_mut().expect("menu").selected_index = usize::MAX;
    assert!(!state.can_take_event(key(KeyCode::Down)));
    state.panel = TuiPanel::Plan(OperationAction::Start);
    begin_execution_prompt(&mut state);
    assert!(state.can_take_event(key(KeyCode::Down)));
}

#[test]
fn typing_and_erasing_without_a_prompt_changes_nothing() {
    let mut state = dashboard();
    push_execution_token(&mut state, 'x');
    pop_execution_token(&mut state);
    assert!(state.execution_prompt.is_none());
    assert_eq!(state.status, "");
}
