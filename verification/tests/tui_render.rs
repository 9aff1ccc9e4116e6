use dockerctl::domain::{
    AppResult, Container, DockerSnapshot, OperationAction, OperationPlan, Project, ProjectHealth,
    ProjectOrders, SortMode,
};
use dockerctl::tui::layout::{dashboard_areas, metric_areas, Size};
use dockerctl::tui::screen::{
    dashboard_view, metric_line, table_headings, table_widths, DashboardView, Span, Style,
};
use dockerctl::tui::{
    apply_mouse_action, begin_execution_prompt, execution_plan_if_confirmed,
    mouse_action_for_event, push_execution_token, ContextMenuItem, ContextMenuState,
    DashboardState, MouseAction, MouseButton, MouseEvent, MouseEventKind, Rect, TuiPanel,
};
use ratatui::backend::TestBackend;
use ratatui::layout::Constraint;
use ratatui::style::{Color, Modifier};
use ratatui::text::Line;
use ratatui::widgets::{Block, Borders, Cell, Clear, Paragraph, Row, Table, Wrap};
use ratatui::Terminal;

fn container(name: &str, image: &str, state_code: &str, status: &str) -> Container {
    Container {
        name: name.into(),
        image: image.into(),
        state_code: state_code.into(),
        status: status.into(),
    }
}

fn sample_snapshot() -> DockerSnapshot {
    DockerSnapshot::from_listing(
        vec![Project {
            name: "mingli".into(),
            kind: "Compose".into(),
            state_code: "UNH".into(),
            active: 2,
            stopped: 0,
            unhealthy: 1,
            restarting: 0,
            paused: 0,
            containers: vec![
                container("web_1", "example/web:latest", "RUN", "Up 10 minutes"),
                container("worker_1", "example/worker:latest", "UNH", "Up 1 minute (unhealthy)"),
            ],
            networks: vec!["mingli_default".into()],
            volumes: vec!["mingli_data".into()],
            images: vec!["example/web:latest".into(), "example/worker:latest".into()],
            ports: vec!["127.0.0.1:8080->80/tcp".into()],
        }],
        ProjectOrders {
            severity: vec![0],
            name_asc: vec![0],
            active_desc: vec![0],
        },
        vec![ProjectHealth {
            status: "Critical".into(),
            project: "mingli".into(),
            findings: vec!["worker_1 is unhealthy".into()],
        }],
        vec![],
    )
    .expect("orders")
}

fn running_project(name: &str, status: &str) -> Project {
    Project {
        name: name.into(),
        kind: "Compose".into(),
        state_code: "RUN".into(),
        active: 1,
        stopped: 0,
        unhealthy: 0,
        restarting: 0,
        paused: 0,
        containers: vec![container(
            &format!("{name}_web_1"),
            &format!("example/{name}:latest"),
            "RUN",
            status,
        )],
        networks: vec![format!("{name}_default")],
        volumes: vec![],
        images: vec![format!("example/{name}:latest")],
        ports: vec![],
    }
}

fn two_project_snapshot() -> DockerSnapshot {
    DockerSnapshot::from_listing(
        vec![
            running_project("alpha", "Up 3 minutes"),
            running_project("mingli", "Up 5 minutes"),
        ],
        ProjectOrders {
            severity: vec![0, 1],
            name_asc: vec![0, 1],
            active_desc: vec![0, 1],
        },
        vec![],
        vec![],
    )
    .expect("orders")
}

fn planner(
    _snapshot: &DockerSnapshot,
    action: OperationAction,
    targets: &Vec<String>,
) -> AppResult<OperationPlan> {
    let destructive = matches!(
        action,
        OperationAction::Remove | OperationAction::Purge | OperationAction::Prune
    );
    Ok(OperationPlan {
        action,
        summary: format!("{action:?} {}", targets.join(" ")),
        projects: targets.clone(),
        containers: vec!["web_1".into(), "worker_1".into()],
        networks: vec![],
        volumes: vec![],
        images: vec![],
        warnings: vec![],
        confirmation_token: if destructive {
            Some(format!("DELETE-{}", targets.join("-")))
        } else {
            None
        },
    })
}

fn mouse(kind: MouseEventKind, column: u16, row: u16) -> MouseEvent {
    MouseEvent { kind, column, row }
}

fn to_color(color: dockerctl::tui::screen::Color) -> Color {
    match color {
        dockerctl::tui::screen::Color::Black => Color::Black,
        dockerctl::tui::screen::Color::Red => Color::Red,
        dockerctl::tui::screen::Color::Green => Color::Green,
        dockerctl::tui::screen::Color::Yellow => Color::Yellow,
        dockerctl::tui::screen::Color::Blue => Color::Blue,
        dockerctl::tui::screen::Color::Magenta => Color::Magenta,
        dockerctl::tui::screen::Color::Cyan => Color::Cyan,
        dockerctl::tui::screen::Color::White => Color::White,
        dockerctl::tui::screen::Color::DarkGray => Color::DarkGray,
        dockerctl::tui::screen::Color::Rgb(r, g, b) => Color::Rgb(r, g, b),
    }
}

fn to_style(style: Style) -> ratatui::style::Style {
    ratatui::style::Style {
        fg: style.fg.map(to_color),
        bg: style.bg.map(to_color),
        add_modifier: if style.bold {
            Modifier::BOLD
        } else {
            Modifier::empty()
        },
        ..ratatui::style::Style::default()
    }
}

fn to_line(spans: Vec<Span>) -> Line<'static> {
    Line::from(
        spans
            .into_iter()
            .map(|span| ratatui::text::Span::styled(span.text, to_style(span.style)))
            .collect::<Vec<_>>(),
    )
}

fn to_area(rect: Rect) -> ratatui::layout::Rect {
    ratatui::layout::Rect {
        x: rect.x,
        y: rect.y,
        width: rect.width,
        height: rect.height,
    }
}

fn to_constraint(size: Size) -> Constraint {
    match size {
        Size::Length(n) => Constraint::Length(n),
        Size::Min(n) => Constraint::Min(n),
        Size::Percentage(n) => Constraint::Percentage(n),
    }
}

fn view(state: &DashboardState, width: u16, height: u16) -> DashboardView {
    let screen = Rect {
        x: 0,
        y: 0,
        width,
        height,
    };
    dashboard_view(screen, state, &planner)
}

fn render_dashboard(frame: &mut ratatui::Frame, state: &mut DashboardState) {
    let area = frame.area();
    let areas = dashboard_areas(Rect {
        x: area.x,
        y: area.y,
        width: area.width,
        height: area.height,
    });
    let view = view(state, area.width, area.height);
    let border = || Block::default().borders(Borders::ALL);
    frame.render_widget(
        Paragraph::new(to_line(view.header)).block(border()),
        to_area(areas.header),
    );
    for (metric, part) in view.metrics.iter().zip(metric_areas(areas.metrics)) {
        frame.render_widget(
            Paragraph::new(to_line(metric_line(metric))).block(border()),
            to_area(part),
        );
    }
    let rows = view.rows.into_iter().map(|row| {
        let cells = row
            .cells
            .into_iter()
            .map(|cell| Cell::from(cell.text).style(to_style(cell.style)));
        match row.background {
            Some(color) => {
                Row::new(cells).style(ratatui::style::Style::default().bg(to_color(color)))
            }
            None => Row::new(cells),
        }
    });
    let table = Table::new(rows, table_widths().into_iter().map(to_constraint))
        .header(Row::new(table_headings().into_iter().map(Cell::from)))
        .block(border().title("Projects"))
        .row_highlight_style(ratatui::style::Style::default().fg(Color::Cyan))
        .highlight_symbol(">> ");
    let mut table_state = ratatui::widgets::TableState::default()
        .with_offset(state.table_state.offset)
        .with_selected(state.table_state.selected());
    frame.render_stateful_widget(table, to_area(areas.projects), &mut table_state);
    frame.render_widget(
        Paragraph::new(view.deck_text)
            .wrap(Wrap { trim: false })
            .block(border().title(view.deck_title)),
        to_area(areas.deck),
    );
    frame.render_widget(
        Paragraph::new(view.command_bar).block(border().title("Command Bar")),
        to_area(areas.commands),
    );
    if let Some(menu) = view.menu {
        let lines = menu.lines.into_iter().map(to_line).collect::<Vec<_>>();
        frame.render_widget(Clear, to_area(menu.rect));
        frame.render_widget(
            Paragraph::new(lines).block(border().title(menu.title)),
            to_area(menu.rect),
        );
    }
}

fn rendered_text_has_fg(buffer: &ratatui::buffer::Buffer, needle: &str, fg: Color) -> bool {
    let area = *buffer.area();
    for y in area.y..area.y + area.height {
        let mut line = String::new();
        for x in area.x..area.x + area.width {
            line.push_str(buffer.cell((x, y)).expect("cell").symbol());
        }
        if let Some(start) = line.find(needle) {
            return needle.chars().enumerate().all(|(offset, _)| {
                buffer
                    .cell((area.x + start as u16 + offset as u16, y))
                    .expect("cell")
                    .fg
                    == fg
            });
        }
    }
    false
}

fn rendered_text_has_bg(buffer: &ratatui::buffer::Buffer, needle: &str, bg: Color) -> bool {
    let area = *buffer.area();
    for y in area.y..area.y + area.height {
        let mut line = String::new();
        for x in area.x..area.x + area.width {
            line.push_str(buffer.cell((x, y)).expect("cell").symbol());
        }
        if let Some(start) = line.find(needle) {
            return needle.chars().enumerate().all(|(offset, _)| {
                buffer
                    .cell((area.x + start as u16 + offset as u16, y))
                    .expect("cell")
                    .bg
                    == bg
            });
        }
    }
    false
}

#[test]
fn dashboard_renders_command_center_metrics_and_project_table() {
    let snapshot = sample_snapshot();
    let mut state = DashboardState::from_snapshot(snapshot, SortMode::Severity);
    state.panel = TuiPanel::Detail;

    let backend = TestBackend::new(110, 32);
    let mut terminal = Terminal::new(backend).expect("terminal");
    terminal
        .draw(|frame| render_dashboard(frame, &mut state))
        .expect("draw");

    let buffer = terminal.backend().buffer();
    let rendered = format!("{buffer:?}");

    assert!(rendered.contains("DOCKERCTL COMMAND CENTER"));
    assert!(rendered.contains("Projects"));
    assert!(rendered.contains("Risk"));
    assert!(rendered.contains("mingli"));
    assert!(rendered.contains("Ops Deck"));
    assert!(rendered.contains("unhealthy"));
}

#[test]
fn mouse_click_selects_project_and_switches_safe_panel() {
    let snapshot = sample_snapshot();
    let mut state = DashboardState::from_snapshot(snapshot, SortMode::Severity);

    apply_mouse_action(&mut state, MouseAction::ProjectRowClick { row: 0 });
    assert_eq!(
        state.current_project().map(|project| project.name.as_str()),
        Some("mingli")
    );
    assert!(state.selected.contains("mingli"));

    apply_mouse_action(&mut state, MouseAction::PanelClick { slot: 1 });
    assert_eq!(state.panel, TuiPanel::Doctor);

    apply_mouse_action(&mut state, MouseAction::ScrollDown);
    assert_eq!(state.table_state.selected(), Some(0));
}

#[test]
fn mouse_selected_row_keeps_color_after_cursor_moves() {
    let snapshot = two_project_snapshot();
    let mut state = DashboardState::from_snapshot(snapshot, SortMode::NameAsc);

    apply_mouse_action(&mut state, MouseAction::ProjectRowClick { row: 0 });
    state.next();

    let backend = TestBackend::new(110, 32);
    let mut terminal = Terminal::new(backend).expect("terminal");
    terminal
        .draw(|frame| render_dashboard(frame, &mut state))
        .expect("draw");

    let buffer = terminal.backend().buffer();

    assert!(state.selected.contains("alpha"));
    assert_eq!(
        state.current_project().map(|project| project.name.as_str()),
        Some("mingli")
    );
    assert!(rendered_text_has_fg(buffer, "alpha", Color::Yellow));
}

#[test]
fn right_click_menu_renders_project_management_actions() {
    let snapshot = sample_snapshot();
    let mut state = DashboardState::from_snapshot(snapshot, SortMode::Severity);

    apply_mouse_action(
        &mut state,
        MouseAction::OpenContextMenu {
            row: 0,
            x: 5,
            y: 12,
        },
    );

    let backend = TestBackend::new(110, 32);
    let mut terminal = Terminal::new(backend).expect("terminal");
    terminal
        .draw(|frame| render_dashboard(frame, &mut state))
        .expect("draw");

    let buffer = terminal.backend().buffer();
    let rendered = format!("{buffer:?}");

    assert!(rendered.contains("Manage mingli"));
    assert!(rendered.contains("Inspect"));
    assert!(rendered.contains("Doctor"));
    assert!(rendered.contains("Start"));
    assert!(rendered.contains("Stop"));
    assert!(rendered.contains("Restart"));
    assert!(rendered.contains("Rescue"));
    assert!(rendered.contains("Remove"));
    assert!(rendered.contains("Purge"));
}

#[test]
fn context_menu_highlights_current_menu_item() {
    let snapshot = sample_snapshot();
    let mut state = DashboardState::from_snapshot(snapshot, SortMode::Severity);

    apply_mouse_action(
        &mut state,
        MouseAction::OpenContextMenu {
            row: 0,
            x: 5,
            y: 12,
        },
    );
    apply_mouse_action(
        &mut state,
        MouseAction::ContextMenuHover {
            item: ContextMenuItem::Restart,
        },
    );

    let backend = TestBackend::new(110, 32);
    let mut terminal = Terminal::new(backend).expect("terminal");
    terminal
        .draw(|frame| render_dashboard(frame, &mut state))
        .expect("draw");

    let buffer = terminal.backend().buffer();

    assert!(rendered_text_has_bg(buffer, "Restart", Color::Cyan));
}

#[test]
fn context_menu_action_opens_plan_and_closes_menu() {
    let snapshot = sample_snapshot();
    let mut state = DashboardState::from_snapshot(snapshot, SortMode::Severity);

    apply_mouse_action(
        &mut state,
        MouseAction::OpenContextMenu {
            row: 0,
            x: 5,
            y: 12,
        },
    );
    apply_mouse_action(
        &mut state,
        MouseAction::ContextMenuClick {
            item: ContextMenuItem::Rescue,
        },
    );

    assert_eq!(state.panel, TuiPanel::Plan(OperationAction::Rescue));
    assert!(state.context_menu.is_none());
    assert!(state.selected.contains("mingli"));
}

#[test]
fn context_menu_restart_opens_only_restart_plan() {
    let snapshot = sample_snapshot();
    let mut state = DashboardState::from_snapshot(snapshot, SortMode::Severity);

    apply_mouse_action(
        &mut state,
        MouseAction::OpenContextMenu {
            row: 0,
            x: 5,
            y: 12,
        },
    );
    apply_mouse_action(
        &mut state,
        MouseAction::ContextMenuClick {
            item: ContextMenuItem::Restart,
        },
    );
    begin_execution_prompt(&mut state);

    let plan = execution_plan_if_confirmed(&state, &planner)
        .expect("plan")
        .expect("confirmed plan");

    assert_eq!(state.panel, TuiPanel::Plan(OperationAction::Restart));
    assert_eq!(plan.action, OperationAction::Restart);
    assert_eq!(plan.confirmation_token, None);
}

#[test]
fn ops_deck_mouse_click_does_not_choose_destructive_plan() {
    let right_panel_click = mouse(MouseEventKind::Down(MouseButton::Left), 80, 20);

    assert_eq!(
        mouse_action_for_event(right_panel_click, (110, 32), 1, None),
        None
    );
}

#[test]
fn panel_click_never_selects_destructive_plan() {
    let snapshot = sample_snapshot();
    let mut state = DashboardState::from_snapshot(snapshot, SortMode::Severity);

    for slot in 0..8 {
        apply_mouse_action(&mut state, MouseAction::PanelClick { slot });
        assert_ne!(state.panel, TuiPanel::Plan(OperationAction::Remove));
        assert_ne!(state.panel, TuiPanel::Plan(OperationAction::Purge));
    }
}

#[test]
fn rescue_plan_renders_recovery_playbook() {
    let snapshot = sample_snapshot();
    let mut state = DashboardState::from_snapshot(snapshot, SortMode::Severity);

    apply_mouse_action(
        &mut state,
        MouseAction::OpenContextMenu {
            row: 0,
            x: 5,
            y: 12,
        },
    );
    apply_mouse_action(
        &mut state,
        MouseAction::ContextMenuClick {
            item: ContextMenuItem::Rescue,
        },
    );

    let backend = TestBackend::new(120, 36);
    let mut terminal = Terminal::new(backend).expect("terminal");
    terminal
        .draw(|frame| render_dashboard(frame, &mut state))
        .expect("draw");

    let buffer = terminal.backend().buffer();
    let rendered = format!("{buffer:?}");

    assert!(rendered.contains("Recovery Playbook"));
    assert!(rendered.contains("异常信号"));
    assert!(rendered.contains("unhealthy"));
    assert!(rendered.contains("dockerctl rescue mingli --dry-run"));
}

#[test]
fn execution_prompt_renders_second_enter_confirmation() {
    let snapshot = sample_snapshot();
    let mut state = DashboardState::from_snapshot(snapshot, SortMode::Severity);
    state.panel = TuiPanel::Plan(OperationAction::Rescue);

    begin_execution_prompt(&mut state);

    let backend = TestBackend::new(120, 36);
    let mut terminal = Terminal::new(backend).expect("terminal");
    terminal
        .draw(|frame| render_dashboard(frame, &mut state))
        .expect("draw");

    let buffer = terminal.backend().buffer();
    let rendered = format!("{buffer:?}");

    assert!(rendered.contains("Execute Rescue"));
    assert!(rendered.contains("Enter again to execute"));
    assert!(rendered.contains("Esc to cancel"));
}

#[test]
fn dangerous_execution_requires_typed_token() {
    let snapshot = sample_snapshot();
    let mut state = DashboardState::from_snapshot(snapshot, SortMode::Severity);
    state.panel = TuiPanel::Plan(OperationAction::Purge);

    begin_execution_prompt(&mut state);
    assert!(execution_plan_if_confirmed(&state, &planner)
        .expect("plan")
        .is_none());

    for ch in "DELETE-mingli".chars() {
        push_execution_token(&mut state, ch);
    }

    let plan = execution_plan_if_confirmed(&state, &planner)
        .expect("plan")
        .expect("confirmed plan");
    assert_eq!(plan.action, OperationAction::Purge);
    assert_eq!(plan.confirmation_token, Some("DELETE-mingli".into()));
}

#[test]
fn destructive_plan_renders_safety_rail() {
    let snapshot = sample_snapshot();
    let mut state = DashboardState::from_snapshot(snapshot, SortMode::Severity);
    state.panel = TuiPanel::Plan(OperationAction::Purge);

    let backend = TestBackend::new(120, 36);
    let mut terminal = Terminal::new(backend).expect("terminal");
    terminal
        .draw(|frame| render_dashboard(frame, &mut state))
        .expect("draw");

    let buffer = terminal.backend().buffer();
    let rendered = format!("{buffer:?}");

    assert!(rendered.contains("Safety Rail"));
    assert!(rendered.contains("DELETE-mingli"));
    assert!(rendered.contains("mouse cannot execute destructive actions"));
}

#[test]
fn context_menu_can_close_without_action() {
    let snapshot = sample_snapshot();
    let mut state = DashboardState::from_snapshot(snapshot, SortMode::Severity);

    apply_mouse_action(
        &mut state,
        MouseAction::OpenContextMenu {
            row: 0,
            x: 5,
            y: 12,
        },
    );
    assert!(state.context_menu.is_some());

    apply_mouse_action(&mut state, MouseAction::CloseContextMenu);
    assert!(state.context_menu.is_none());
}

#[test]
fn mouse_event_maps_right_click_and_menu_item_clicks() {
    let right_click = mouse(MouseEventKind::Down(MouseButton::Right), 5, 10);
    assert_eq!(
        mouse_action_for_event(right_click, (110, 32), 1, None),
        Some(MouseAction::OpenContextMenu {
            row: 0,
            x: 5,
            y: 10,
        })
    );

    let menu = ContextMenuState {
        project: "mingli".into(),
        row: 0,
        x: 5,
        y: 10,
        selected_index: 0,
    };
    let rescue_click = mouse(MouseEventKind::Down(MouseButton::Left), 6, 16);
    assert_eq!(
        mouse_action_for_event(rescue_click, (110, 32), 1, Some(&menu)),
        Some(MouseAction::ContextMenuClick {
            item: ContextMenuItem::Rescue,
        })
    );

    let outside_click = mouse(MouseEventKind::Down(MouseButton::Left), 100, 30);
    assert_eq!(
        mouse_action_for_event(outside_click, (110, 32), 1, Some(&menu)),
        Some(MouseAction::CloseContextMenu)
    );
}

#[test]
fn mouse_event_maps_context_menu_hover() {
    let menu = ContextMenuState {
        project: "mingli".into(),
        row: 0,
        x: 5,
        y: 10,
        selected_index: 0,
    };
    let restart_hover = mouse(MouseEventKind::Moved, 6, 15);

    assert_eq!(
        mouse_action_for_event(restart_hover, (110, 32), 1, Some(&menu)),
        Some(MouseAction::ContextMenuHover {
            item: ContextMenuItem::Restart,
        })
    );
}

#[test]
fn mouse_event_ignores_clicks_outside_main_area() {
    let header_click = mouse(MouseEventKind::Down(MouseButton::Left), 20, 1);
    assert_eq!(mouse_action_for_event(header_click, (110, 32), 1, None), None);

    let footer_click = mouse(MouseEventKind::Down(MouseButton::Left), 20, 31);
    assert_eq!(mouse_action_for_event(footer_click, (110, 32), 1, None), None);
}
