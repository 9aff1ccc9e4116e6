//! What the dashboard shows, as styled text.

use vstd::prelude::*;
use vstd::string::*;

use crate::domain::{
    AppResult, DockerSnapshot, OperationAction, OperationPlan, Project, ProjectModel, SortMode,
};
use crate::domain::project_models;
use crate::text::{decimal, decimal_text, pad_right, padded};
use crate::tui::dashboard::{answers_always, DashboardModel, DashboardState};
use crate::tui::deck::{is_panel_text, panel_text};
use crate::tui::layout::{Rect, Size};
use crate::tui::menu::{context_menu_items, context_menu_rect, has_room_for_menu, menu_rect};
use crate::tui::menu::{description_of, label_of, menu_items};
use crate::tui::menu::{ContextMenuItem, ContextMenuState, MenuModel, TuiPanel};

verus! {

/// A color of the terminal.
#[derive(Debug, Clone, Copy, PartialEq, Eq, Structural)]
pub enum Color {
    Black,
    Red,
    Green,
    Yellow,
    Blue,
    Magenta,
    Cyan,
    White,
    DarkGray,
    Rgb(u8, u8, u8),
}

/// How text looks; what is not set stays as it is.
#[derive(Debug, Clone, Copy, PartialEq, Eq)]
pub struct Style {
    pub fg: Option<Color>,
    pub bg: Option<Color>,
    pub bold: bool,
}

/// Text without a style of its own.
pub open spec fn unstyled() -> Style {
    Style { fg: None, bg: None, bold: false }
}

/// Text in a color.
pub open spec fn colored(fg: Color) -> Style {
    Style { fg: Some(fg), bg: None, bold: false }
}

/// Bold text in a color.
pub open spec fn bold(fg: Color) -> Style {
    Style { fg: Some(fg), bg: None, bold: true }
}

/// Text that stands out: bold and black on cyan.
pub open spec fn highlighted() -> Style {
    Style { fg: Some(Color::Black), bg: Some(Color::Cyan), bold: true }
}

/// A piece of styled text.
#[derive(Debug, PartialEq, Eq)]
pub struct Span {
    pub text: String,
    pub style: Style,
}

/// A piece of styled text.
#[verifier::ext_equal]
pub struct SpanModel {
    pub text: Seq<char>,
    pub style: Style,
}

impl View for Span {
    type V = SpanModel;

    open spec fn view(&self) -> SpanModel {
        SpanModel { text: self.text@, style: self.style }
    }
}

/// The pieces of a list.
pub open spec fn span_models(list: Seq<Span>) -> Seq<SpanModel> {
    list.map_values(|s: Span| s@)
}

/// A piece of text in a color.
fn colored_span(text: String, fg: Color) -> (span: Span)
    ensures
        span@ == (SpanModel { text: text@, style: colored(fg) }),
{
    Span { text, style: Style { fg: Some(fg), bg: None, bold: false } }
}

/// A piece of bold text in a color.
fn bold_span(text: String, fg: Color) -> (span: Span)
    ensures
        span@ == (SpanModel { text: text@, style: bold(fg) }),
{
    Span { text, style: Style { fg: Some(fg), bg: None, bold: true } }
}

/// A piece of text without a style.
fn plain_span(text: String) -> (span: Span)
    ensures
        span@ == (SpanModel { text: text@, style: unstyled() }),
{
    Span { text, style: Style { fg: None, bg: None, bold: false } }
}

/// The name of a sort mode.
pub open spec fn sort_name(mode: SortMode) -> Seq<char> {
    match mode {
        SortMode::Severity => "Severity"@,
        SortMode::NameAsc => "NameAsc"@,
        SortMode::ActiveDesc => "ActiveDesc"@,
    }
}

/// The header: the name of the program, what it is, and how the projects are listed.
pub open spec fn header(state: DashboardModel) -> Seq<SpanModel> {
    seq![
        SpanModel { text: " DOCKERCTL COMMAND CENTER "@, style: bold(Color::Cyan) },
        SpanModel { text: " project-first docker ops "@, style: colored(Color::DarkGray) },
        SpanModel {
            text: " mode:"@ + (if state.running_only {
                "active"@
            } else {
                "all"@
            }) + " sort:"@ + sort_name(state.sort_mode) + " filter:"@ + (if state.filter.len()
                == 0 {
                "none"@
            } else {
                state.filter
            }) + " "@,
            style: colored(Color::Yellow),
        },
    ]
}

/// The header.
pub fn header_line(state: &DashboardState) -> (line: Vec<Span>)
    ensures
        span_models(line@) == header(state@),
{
    let filter: &str = if state.filter.as_str().is_empty() {
        "none"
    } else {
        state.filter.as_str()
    };
    let mode: &str = if state.running_only {
        "active"
    } else {
        "all"
    };
    let sort: &str = match state.sort_mode {
        SortMode::Severity => "Severity",
        SortMode::NameAsc => "NameAsc",
        SortMode::ActiveDesc => "ActiveDesc",
    };
    let listing = " mode:".to_owned().concat(mode).concat(" sort:").concat(sort).concat(
        " filter:",
    ).concat(filter).concat(" ");
    let line = vec![
        bold_span(" DOCKERCTL COMMAND CENTER ".to_owned(), Color::Cyan),
        colored_span(" project-first docker ops ".to_owned(), Color::DarkGray),
        colored_span(listing, Color::Yellow),
    ];
    assert(span_models(line@) == header(state@));
    line
}

/// A number of the metric bar.
#[derive(Debug, PartialEq, Eq)]
pub struct Metric {
    pub label: String,
    pub value: String,
    pub color: Color,
}

/// A number of the metric bar.
#[verifier::ext_equal]
pub struct MetricModel {
    pub label: Seq<char>,
    pub value: Seq<char>,
    pub color: Color,
}

impl View for Metric {
    type V = MetricModel;

    open spec fn view(&self) -> MetricModel {
        MetricModel { label: self.label@, value: self.value@, color: self.color }
    }
}

/// The metrics of a list.
pub open spec fn metric_models(list: Seq<Metric>) -> Seq<MetricModel> {
    list.map_values(|m: Metric| m@)
}

/// The number of projects with an active container.
pub open spec fn active_projects(projects: Seq<ProjectModel>) -> nat {
    projects.filter(|p: ProjectModel| p.active > 0).len()
}

/// The number of projects with an unhealthy or restarting container.
pub open spec fn risky_projects(projects: Seq<ProjectModel>) -> nat {
    projects.filter(|p: ProjectModel| p.unhealthy > 0 || p.restarting > 0).len()
}

/// The metrics: all projects, the active ones, those at risk, the selected and the listed.
pub open spec fn metrics(state: DashboardModel) -> Seq<MetricModel> {
    let risky = risky_projects(state.snapshot.projects);
    seq![
        MetricModel {
            label: "Projects"@,
            value: decimal(state.snapshot.projects.len()),
            color: Color::Cyan,
        },
        MetricModel {
            label: "Active"@,
            value: decimal(active_projects(state.snapshot.projects)),
            color: Color::Green,
        },
        MetricModel {
            label: "Risk"@,
            value: decimal(risky),
            color: if risky > 0 {
                Color::Red
            } else {
                Color::Green
            },
        },
        MetricModel {
            label: "Selected"@,
            value: decimal(state.selected.len()),
            color: Color::Yellow,
        },
        MetricModel {
            label: "Visible"@,
            value: decimal(state.filtered.len()),
            color: if state.running_only {
                Color::Blue
            } else {
                Color::DarkGray
            },
        },
    ]
}

/// A number of the metric bar.
fn new_metric(label: &str, value: usize, color: Color) -> (metric: Metric)
    ensures
        metric@ == (MetricModel { label: label@, value: decimal(value as nat), color }),
{
    Metric { label: label.to_owned(), value: decimal_text(value), color }
}

/// Counts the active projects and those at risk.
fn count_projects(projects: &Vec<Project>) -> (counts: (usize, usize))
    ensures
        counts.0 == active_projects(project_models(projects@)),
        counts.1 == risky_projects(project_models(projects@)),
{
    let ghost all = project_models(projects@);
    let mut active: usize = 0;
    let mut risky: usize = 0;
    let mut i: usize = 0;
    proof {
        reveal(Seq::filter);
        assert(all.take(0) == Seq::<ProjectModel>::empty());
    }
    while i < projects.len()
        invariant
            i <= projects@.len(),
            all == project_models(projects@),
            active == active_projects(all.take(i as int)),
            risky == risky_projects(all.take(i as int)),
            active <= i,
            risky <= i,
        decreases projects@.len() - i,
    {
        proof {
            reveal(Seq::filter);
            assert(all.take(i + 1).drop_last() == all.take(i as int));
            assert(all.take(i + 1).last() == projects@[i as int]@);
        }
        if projects[i].active() > 0 {
            active = active + 1;
        }
        if projects[i].unhealthy > 0 || projects[i].restarting > 0 {
            risky = risky + 1;
        }
        i = i + 1;
    }
    assert(all.take(all.len() as int) == all);
    (active, risky)
}

/// The metrics of the metric bar.
pub fn dashboard_metrics(state: &DashboardState) -> (list: Vec<Metric>)
    ensures
        metric_models(list@) == metrics(state@),
{
    let projects = state.snapshot.projects();
    let (active, risky): (usize, usize) = count_projects(projects);
    let list = vec![
        new_metric("Projects", projects.len(), Color::Cyan),
        new_metric("Active", active, Color::Green),
        new_metric("Risk", risky, if risky > 0 { Color::Red } else { Color::Green }),
        new_metric("Selected", state.selected.len(), Color::Yellow),
        new_metric(
            "Visible",
            state.filtered.len(),
            if state.running_only { Color::Blue } else { Color::DarkGray },
        ),
    ];
    assert(state@.snapshot.projects.len() == projects@.len());
    assert(metric_models(list@) == metrics(state@));
    list
}

/// A metric as it is shown: the number, then the label.
pub open spec fn metric_spans(m: MetricModel) -> Seq<SpanModel> {
    seq![
        SpanModel { text: m.value, style: bold(m.color) },
        SpanModel { text: " "@, style: unstyled() },
        SpanModel { text: m.label, style: colored(Color::DarkGray) },
    ]
}

/// A metric as it is shown.
pub fn metric_line(metric: &Metric) -> (line: Vec<Span>)
    ensures
        span_models(line@) == metric_spans(metric@),
{
    let line = vec![
        bold_span(metric.value.clone(), metric.color),
        plain_span(" ".to_owned()),
        colored_span(metric.label.clone(), Color::DarkGray),
    ];
    assert(span_models(line@) == metric_spans(metric@));
    line
}

/// The risk of a project and its color, by the worst that is the matter with it.
pub open spec fn risk(p: ProjectModel) -> (Seq<char>, Color) {
    if p.unhealthy > 0 {
        ("HIGH"@, Color::Red)
    } else if p.restarting > 0 {
        ("LOOP"@, Color::Yellow)
    } else if p.paused > 0 {
        ("PAUSE"@, Color::Blue)
    } else if p.active > 0 {
        ("LOW"@, Color::Green)
    } else {
        ("IDLE"@, Color::DarkGray)
    }
}

/// The risk of a project and its color.
pub fn project_risk(project: &Project) -> (risk_and_color: (&'static str, Color))
    ensures
        risk_and_color.0@ == risk(project@).0,
        risk_and_color.1 == risk(project@).1,
{
    if project.unhealthy > 0 {
        ("HIGH", Color::Red)
    } else if project.restarting > 0 {
        ("LOOP", Color::Yellow)
    } else if project.paused > 0 {
        ("PAUSE", Color::Blue)
    } else if project.active() > 0 {
        ("LOW", Color::Green)
    } else {
        ("IDLE", Color::DarkGray)
    }
}

/// How the state of a project looks: in the color of its risk.
pub fn project_style(project: &Project) -> (style: Style)
    ensures
        style == colored(risk(project@).1),
{
    Style { fg: Some(project_risk(project).1), bg: None, bold: false }
}

/// How the name of a selected project looks.
pub fn selected_project_style() -> (style: Style)
    ensures
        style == bold(Color::Yellow),
{
    Style { fg: Some(Color::Yellow), bg: None, bold: true }
}

/// A row of the project table.
#[derive(Debug, PartialEq, Eq)]
pub struct ProjectRow {
    pub cells: Vec<Span>,
    pub background: Option<Color>,
}

/// A row of the project table.
#[verifier::ext_equal]
pub struct ProjectRowModel {
    pub cells: Seq<SpanModel>,
    pub background: Option<Color>,
}

impl View for ProjectRow {
    type V = ProjectRowModel;

    open spec fn view(&self) -> ProjectRowModel {
        ProjectRowModel { cells: span_models(self.cells@), background: self.background }
    }
}

/// The rows of a list.
pub open spec fn row_models(list: Seq<ProjectRow>) -> Seq<ProjectRowModel> {
    list.map_values(|r: ProjectRow| r@)
}

/// The row of a project: its mark, state, name, kind, active containers and risk. A selected
/// project is marked and keeps its color wherever the cursor is.
pub open spec fn row_of(p: ProjectModel, selected: bool) -> ProjectRowModel {
    let (mark, mark_style, name_style) = if selected {
        ("[x]"@, bold(Color::Yellow), bold(Color::Yellow))
    } else {
        ("[ ]"@, colored(Color::DarkGray), colored(Color::White))
    };
    ProjectRowModel {
        cells: seq![
            SpanModel { text: mark, style: mark_style },
            SpanModel { text: p.state_code, style: colored(risk(p).1) },
            SpanModel { text: p.name, style: name_style },
            SpanModel { text: p.kind, style: colored(Color::DarkGray) },
            SpanModel {
                text: decimal(p.active) + "/"@ + decimal(p.containers.len()),
                style: unstyled(),
            },
            SpanModel { text: risk(p).0, style: bold(risk(p).1) },
        ],
        background: if selected {
            Some(Color::Rgb(43, 36, 11))
        } else {
            None
        },
    }
}

/// The rows of the project table.
pub open spec fn table_rows(state: DashboardModel) -> Seq<ProjectRowModel> {
    state.filtered.map_values(|p: ProjectModel| row_of(p, state.selected.contains(p.name)))
}

/// The row of a project.
fn project_row(project: &Project, selected: bool) -> (row: ProjectRow)
    ensures
        row@ == row_of(project@, selected),
{
    let (risk_text, risk_color): (&'static str, Color) = project_risk(project);
    let count = decimal_text(project.active()).concat("/").concat(
        decimal_text(project.containers.len()).as_str(),
    );
    let cells = vec![
        if selected {
            Span { text: "[x]".to_owned(), style: selected_project_style() }
        } else {
            colored_span("[ ]".to_owned(), Color::DarkGray)
        },
        Span { text: project.state_code().to_owned(), style: project_style(project) },
        if selected {
            Span { text: project.name.clone(), style: selected_project_style() }
        } else {
            colored_span(project.name.clone(), Color::White)
        },
        colored_span(project.kind.clone(), Color::DarkGray),
        plain_span(count),
        bold_span(risk_text.to_owned(), risk_color),
    ];
    let background = if selected {
        Some(Color::Rgb(43, 36, 11))
    } else {
        None
    };
    let row = ProjectRow { cells, background };
    assert(row@.cells == row_of(project@, selected).cells);
    row
}

/// The rows of the project table.
pub fn project_rows(state: &DashboardState) -> (rows: Vec<ProjectRow>)
    ensures
        row_models(rows@) == table_rows(state@),
{
    let mut rows: Vec<ProjectRow> = Vec::new();
    let mut i: usize = 0;
    while i < state.filtered.len()
        invariant
            i <= state.filtered@.len(),
            row_models(rows@) == table_rows(state@).take(i as int),
        decreases state.filtered@.len() - i,
    {
        let project = &state.filtered[i];
        let ghost done = rows@;
        let row = project_row(project, state.selected.contains(project.name.as_str()));
        rows.push(row);
        proof {
            assert(row_models(rows@) == row_models(done).push(row@));
            assert(state@.filtered[i as int] == project@);
            assert(table_rows(state@).take(i + 1) == table_rows(state@).take(i as int).push(row@));
        }
        i = i + 1;
    }
    rows
}

/// The title of the operations deck.
pub open spec fn deck_title(panel: TuiPanel) -> Seq<char> {
    match panel {
        TuiPanel::Detail => "Ops Deck / Detail"@,
        TuiPanel::Doctor => "Ops Deck / Doctor"@,
        TuiPanel::Plan(OperationAction::Start) => "Ops Deck / Plan Start"@,
        TuiPanel::Plan(OperationAction::Stop) => "Ops Deck / Plan Stop"@,
        TuiPanel::Plan(OperationAction::Restart) => "Ops Deck / Plan Restart"@,
        TuiPanel::Plan(OperationAction::Remove) => "Ops Deck / Plan Remove"@,
        TuiPanel::Plan(OperationAction::Purge) => "Ops Deck / Plan Purge"@,
        TuiPanel::Plan(OperationAction::Prune) => "Ops Deck / Plan Prune"@,
        TuiPanel::Plan(OperationAction::Rescue) => "Ops Deck / Plan Rescue"@,
        TuiPanel::Help => "Ops Deck / Help"@,
    }
}

/// The title of the operations deck.
pub fn ops_deck_title(panel: TuiPanel) -> (title: &'static str)
    ensures
        title@ == deck_title(panel),
{
    match panel {
        TuiPanel::Detail => "Ops Deck / Detail",
        TuiPanel::Doctor => "Ops Deck / Doctor",
        TuiPanel::Plan(OperationAction::Start) => "Ops Deck / Plan Start",
        TuiPanel::Plan(OperationAction::Stop) => "Ops Deck / Plan Stop",
        TuiPanel::Plan(OperationAction::Restart) => "Ops Deck / Plan Restart",
        TuiPanel::Plan(OperationAction::Remove) => "Ops Deck / Plan Remove",
        TuiPanel::Plan(OperationAction::Purge) => "Ops Deck / Plan Purge",
        TuiPanel::Plan(OperationAction::Prune) => "Ops Deck / Plan Prune",
        TuiPanel::Plan(OperationAction::Rescue) => "Ops Deck / Plan Rescue",
        TuiPanel::Help => "Ops Deck / Help",
    }
}

/// What the command bar says: the status, or which keys there are.
pub open spec fn command_bar(state: DashboardModel) -> Seq<char> {
    if state.status.len() == 0 {
        " mouse: click row select, right-click manage, wheel move | keys: j/k move | space select | / filter | i detail | d doctor | 1-5 plan | Enter execute | q quit "@
    } else {
        state.status
    }
}

/// What the command bar says.
pub fn command_bar_text(state: &DashboardState) -> (text: String)
    ensures
        text@ == command_bar(state@),
{
    if state.status.as_str().is_empty() {
        " mouse: click row select, right-click manage, wheel move | keys: j/k move | space select | / filter | i detail | d doctor | 1-5 plan | Enter execute | q quit ".to_owned()
    } else {
        state.status.clone()
    }
}

/// How the label of an entry of the menu looks.
pub open spec fn item_style(item: ContextMenuItem, selected: bool) -> Style {
    if selected {
        highlighted()
    } else {
        match item {
            ContextMenuItem::Remove => bold(Color::Yellow),
            ContextMenuItem::Purge => bold(Color::Red),
            ContextMenuItem::Rescue => bold(Color::Cyan),
            _ => colored(Color::White),
        }
    }
}

/// How the description of an entry of the menu looks.
pub open spec fn description_style(selected: bool) -> Style {
    if selected {
        highlighted()
    } else {
        colored(Color::DarkGray)
    }
}

/// How the label of an entry of the menu looks.
pub fn context_menu_item_style(item: ContextMenuItem, selected: bool) -> (style: Style)
    ensures
        style == item_style(item, selected),
{
    if selected {
        return Style { fg: Some(Color::Black), bg: Some(Color::Cyan), bold: true };
    }
    match item {
        ContextMenuItem::Remove => Style { fg: Some(Color::Yellow), bg: None, bold: true },
        ContextMenuItem::Purge => Style { fg: Some(Color::Red), bg: None, bold: true },
        ContextMenuItem::Rescue => Style { fg: Some(Color::Cyan), bg: None, bold: true },
        _ => Style { fg: Some(Color::White), bg: None, bold: false },
    }
}

/// How the description of an entry of the menu looks.
pub fn context_menu_description_style(selected: bool) -> (style: Style)
    ensures
        style == description_style(selected),
{
    if selected {
        Style { fg: Some(Color::Black), bg: Some(Color::Cyan), bold: true }
    } else {
        Style { fg: Some(Color::DarkGray), bg: None, bold: false }
    }
}

/// The context menu as it is shown.
#[derive(Debug, PartialEq, Eq)]
pub struct MenuView {
    pub rect: Rect,
    pub title: String,
    pub lines: Vec<Vec<Span>>,
}

/// The context menu as it is shown.
#[verifier::ext_equal]
pub struct MenuViewModel {
    pub rect: Rect,
    pub title: Seq<char>,
    pub lines: Seq<Seq<SpanModel>>,
}

/// The lines of a list.
pub open spec fn line_models(list: Seq<Vec<Span>>) -> Seq<Seq<SpanModel>> {
    list.map_values(|line: Vec<Span>| span_models(line@))
}

impl View for MenuView {
    type V = MenuViewModel;

    open spec fn view(&self) -> MenuViewModel {
        MenuViewModel { rect: self.rect, title: self.title@, lines: line_models(self.lines@) }
    }
}

/// The title of the menu: whose it is, or how many are selected where it is for several.
pub open spec fn menu_title(state: DashboardModel, menu: MenuModel) -> Seq<char> {
    if state.selected.len() > 1 && state.selected.contains(menu.project) {
        "Manage "@ + decimal(state.selected.len()) + " selected"@
    } else {
        "Manage "@ + menu.project
    }
}

/// The line of an entry of the menu.
pub open spec fn item_line(item: ContextMenuItem, selected: bool) -> Seq<SpanModel> {
    seq![
        SpanModel { text: " "@ + padded(label_of(item), 8), style: item_style(item, selected) },
        SpanModel { text: description_of(item), style: description_style(selected) },
    ]
}

/// The lines of the menu.
pub open spec fn menu_lines(menu: MenuModel) -> Seq<Seq<SpanModel>> {
    Seq::new(
        menu_items().len(),
        |i: int| item_line(menu_items()[i], i == menu.selected_index),
    )
}

/// The context menu as it is shown, where one is open.
pub open spec fn menu_view(area: Rect, state: DashboardModel) -> Option<MenuViewModel> {
    match state.context_menu {
        Some(menu) => Some(
            MenuViewModel {
                rect: menu_rect(area, menu),
                title: menu_title(state, menu),
                lines: menu_lines(menu),
            },
        ),
        None => None,
    }
}

/// The line of an entry of the menu.
fn context_menu_line(item: ContextMenuItem, selected: bool) -> (line: Vec<Span>)
    ensures
        span_models(line@) == item_line(item, selected),
{
    let text = " ".to_owned().concat(pad_right(item.label(), 8).as_str());
    let line = vec![
        Span { text, style: context_menu_item_style(item, selected) },
        Span {
            text: item.description().to_owned(),
            style: context_menu_description_style(selected),
        },
    ];
    assert(span_models(line@) == item_line(item, selected));
    line
}

/// The lines of the menu.
fn context_menu_lines(menu: &ContextMenuState) -> (lines: Vec<Vec<Span>>)
    ensures
        line_models(lines@) == menu_lines(menu@),
{
    let items = context_menu_items();
    let mut lines: Vec<Vec<Span>> = Vec::new();
    let mut i: usize = 0;
    while i < items.len()
        invariant
            items@ == menu_items(),
            i <= items@.len(),
            line_models(lines@) == menu_lines(menu@).take(i as int),
        decreases items@.len() - i,
    {
        let ghost done = lines@;
        let line = context_menu_line(items[i], i == menu.selected_index);
        lines.push(line);
        proof {
            assert(line_models(lines@) == line_models(done).push(span_models(line@)));
            assert(menu_lines(menu@).take(i + 1) == menu_lines(menu@).take(i as int).push(
                span_models(line@),
            ));
        }
        i = i + 1;
    }
    lines
}

/// The context menu as it is shown, where one is open.
pub fn context_menu_view(area: Rect, state: &DashboardState) -> (view: Option<MenuView>)
    requires
        state@.context_menu is Some ==> has_room_for_menu(area),
    ensures
        match view {
            Some(v) => menu_view(area, state@) == Some(v@),
            None => menu_view(area, state@) is None,
        },
{
    match &state.context_menu {
        None => None,
        Some(menu) => {
            let count: usize = state.selected.len();
            let title = if count > 1 && state.selected.contains(menu.project.as_str()) {
                "Manage ".to_owned().concat(decimal_text(count).as_str()).concat(" selected")
            } else {
                "Manage ".to_owned().concat(menu.project.as_str())
            };
            let view = MenuView {
                rect: context_menu_rect(area, menu),
                title,
                lines: context_menu_lines(menu),
            };
            assert(menu_view(area, state@) == Some(view@));
            Some(view)
        },
    }
}

/// Everything that the dashboard shows.
#[derive(Debug, PartialEq, Eq)]
pub struct DashboardView {
    pub header: Vec<Span>,
    pub metrics: Vec<Metric>,
    pub rows: Vec<ProjectRow>,
    pub deck_title: &'static str,
    pub deck_text: String,
    pub command_bar: String,
    pub menu: Option<MenuView>,
}

/// Everything that the dashboard shows on a screen.
pub fn dashboard_view<P: Fn(
    &DockerSnapshot,
    OperationAction,
    &Vec<String>,
) -> AppResult<OperationPlan>>(area: Rect, state: &DashboardState, planner: &P) -> (view:
    DashboardView)
    requires
        answers_always(*planner),
        state@.context_menu is Some ==> has_room_for_menu(area),
    ensures
        span_models(view.header@) == header(state@),
        metric_models(view.metrics@) == metrics(state@),
        row_models(view.rows@) == table_rows(state@),
        view.deck_title@ == deck_title(state.panel),
        is_panel_text(*planner, *state, view.deck_text@),
        view.command_bar@ == command_bar(state@),
        match view.menu {
            Some(menu) => menu_view(area, state@) == Some(menu@),
            None => menu_view(area, state@) is None,
        },
{
    DashboardView {
        header: header_line(state),
        metrics: dashboard_metrics(state),
        rows: project_rows(state),
        deck_title: ops_deck_title(state.panel),
        deck_text: panel_text(state, planner),
        command_bar: command_bar_text(state),
        menu: context_menu_view(area, state),
    }
}

/// The headings of the project table.
pub fn table_headings() -> (headings: Vec<&'static str>)
    ensures
        headings@.len() == 6,
        headings@[0]@ == ""@,
        headings@[1]@ == "State"@,
        headings@[2]@ == "Project"@,
        headings@[3]@ == "Kind"@,
        headings@[4]@ == "Run"@,
        headings@[5]@ == "Risk"@,
{
    vec!["", "State", "Project", "Kind", "Run", "Risk"]
}

/// The widths of the columns of the project table.
pub fn table_widths() -> (widths: Vec<Size>)
    ensures
        widths@ == seq![
            Size::Length(4),
            Size::Length(6),
            Size::Min(14),
            Size::Length(10),
            Size::Length(7),
            Size::Length(8),
        ],
{
    vec![
        Size::Length(4),
        Size::Length(6),
        Size::Min(14),
        Size::Length(10),
        Size::Length(7),
        Size::Length(8),
    ]
}

} // verus!
