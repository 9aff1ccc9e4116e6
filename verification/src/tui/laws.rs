//! What holds of the dashboard as a whole, whatever is done to it.

use vstd::prelude::*;

use crate::domain::{
    sorted_lists_the_same_projects, AppError, AppResult, DockerSnapshot, OperationAction,
    OperationPlan, ProjectModel, SnapshotModel, SortMode,
};
use crate::name_set::names_of;
use crate::tui::dashboard::{is_listed, is_reply, DashboardModel, DashboardState};
use crate::tui::keys::{
    event_handled, next_sort_mode, reply_handled, InputEvent, KeyCode, Step,
};
use crate::tui::layout::{full_areas, FULL_HEIGHT};
use crate::tui::menu::{
    every_menu_item_can_be_reached, item_at, menu_rect, panel_of, position_is_found, position_of,
    ContextMenuItem, MenuModel, TuiPanel, CONTEXT_MENU_HEIGHT, CONTEXT_MENU_LENGTH,
    CONTEXT_MENU_WIDTH,
};
use crate::tui::mouse::{
    in_main_area, mouse_action, project_row_at, screen_rect, table_columns, MouseAction,
    MouseButton, MouseEvent, MouseEventKind, MAIN_TOP, PROJECT_HEADER_ROWS,
};
use crate::tui::prompt::{confirms, shortened};

verus! {

impl DashboardModel {
    /// Whether the parts of the state agree:
    /// the list holds what the snapshot, the order and the filters ask for;
    /// what is selected is listed;
    /// the cursor is on a row of the list, and not past the first row of an empty one;
    /// the selection of an open menu is one of its entries;
    /// a prompt is open only for the plan that is shown, and not together with a menu.
    pub open spec fn consistent(self) -> bool {
        &&& self.snapshot.well_formed()
        &&& self.filtered == self.listing()
        &&& self.selected.subset_of(names_of(self.filtered))
        &&& self.cursor_in_list()
        &&& self.context_menu matches Some(menu) ==> menu.selected_index < CONTEXT_MENU_LENGTH
        &&& self.execution_prompt matches Some(prompt) ==> self.panel == TuiPanel::Plan(
            prompt.action,
        ) && self.context_menu is None
    }

    /// Whether the cursor is on a row of the list; on an empty list, whether it is not past
    /// the first row.
    pub open spec fn cursor_in_list(self) -> bool {
        if self.filtered.len() == 0 {
            self.table_state.selected is None || self.table_state.selected == Some(0usize)
        } else {
            self.table_state.selected matches Some(i) && i < self.filtered.len()
        }
    }
}

/// Making the list anew makes the list, the selection and the cursor agree.
pub proof fn rebuilding_makes_consistent(m: DashboardModel)
    requires
        m.snapshot.well_formed(),
        m.listing().len() <= usize::MAX,
        m.context_menu matches Some(menu) ==> menu.selected_index < CONTEXT_MENU_LENGTH,
        m.execution_prompt matches Some(prompt) ==> m.panel == TuiPanel::Plan(prompt.action)
            && m.context_menu is None,
    ensures
        m.rebuilt().consistent(),
{
}

/// Making the list anew a second time changes nothing.
pub proof fn rebuilding_twice_is_rebuilding_once(m: DashboardModel)
    requires
        m.listing().len() <= usize::MAX,
    ensures
        m.rebuilt().rebuilt() == m.rebuilt(),
{
    let (once, twice) = (m.rebuilt(), m.rebuilt().rebuilt());
    assert(twice.selected == once.selected);
    assert(twice == once);
}

/// The dashboard of a snapshot is consistent.
pub proof fn initial_state_is_consistent(snapshot: SnapshotModel, mode: SortMode)
    requires
        snapshot.well_formed(),
        snapshot.projects.len() <= usize::MAX,
    ensures
        DashboardModel::initial(snapshot, mode).rebuilt().consistent(),
{
    let m = DashboardModel::initial(snapshot, mode);
    listing_is_no_longer(m);
    rebuilding_makes_consistent(m);
}

proof fn listing_is_no_longer(m: DashboardModel)
    requires
        m.snapshot.well_formed(),
    ensures
        m.listing().len() <= m.snapshot.projects.len(),
{
    sorted_lists_the_same_projects(m.snapshot, m.sort_mode);
    m.snapshot.sorted(m.sort_mode).lemma_filter_len(
        |p: ProjectModel| is_listed(m.running_only, m.filter, p),
    );
}

/// A project is listed if and only if it is in the snapshot and passes the filters.
pub proof fn listing_holds_what_passes(m: DashboardModel, p: ProjectModel)
    requires
        m.snapshot.well_formed(),
    ensures
        m.listing().contains(p) <==> m.snapshot.projects.contains(p) && is_listed(
            m.running_only,
            m.filter,
            p,
        ),
{
    let sorted = m.snapshot.sorted(m.sort_mode);
    let keep = |p: ProjectModel| is_listed(m.running_only, m.filter, p);
    sorted_lists_the_same_projects(m.snapshot, m.sort_mode);
    if m.listing().contains(p) {
        let k = choose|k: int| 0 <= k < m.listing().len() && m.listing()[k] == p;
        sorted.lemma_filter_pred(keep, k);
        sorted.lemma_filter_contains_rev(keep, p);
    }
    if sorted.contains(p) && keep(p) {
        let k = choose|k: int| 0 <= k < sorted.len() && sorted[k] == p;
        sorted.lemma_filter_contains(keep, k);
    }
}

/// A consistent state takes every event: no cursor leaves the numbers of rows.
pub proof fn consistent_state_takes_every_event(m: DashboardModel, event: InputEvent)
    requires
        m.consistent(),
        m.filtered.len() <= usize::MAX,
    ensures
        m.takes_event(event),
{
}

proof fn toggling_keeps_listed(m: DashboardModel, name: Seq<char>)
    requires
        m.consistent(),
        names_of(m.filtered).contains(name),
    ensures
        m.toggled(name).consistent(),
{
    let after = m.toggled(name);
    assert(after.listing() == m.listing());
}

proof fn row_is_named(m: DashboardModel, row: int)
    requires
        0 <= row < m.filtered.len(),
    ensures
        names_of(m.filtered).contains(m.filtered[row].name),
{
    let names = m.filtered.map_values(|p: ProjectModel| p.name);
    assert(names[row] == m.filtered[row].name);
}

/// No mouse action makes a consistent state inconsistent.
pub proof fn mouse_keeps_consistent(m: DashboardModel, action: MouseAction)
    requires
        m.consistent(),
        m.filtered.len() <= usize::MAX,
    ensures
        m.after_mouse(action).consistent(),
{
    let after = m.after_mouse(action);
    assert(after.listing() == m.listing());
    match action {
        MouseAction::ProjectRowClick { row } => {
            if row < m.filtered.len() {
                row_is_named(m, row as int);
            }
        },
        MouseAction::OpenContextMenu { row, x, y } => {
            if row < m.filtered.len() {
                row_is_named(m, row as int);
            }
        },
        MouseAction::ContextMenuHover { item } => {
            position_is_found(item);
        },
        _ => {},
    }
}

proof fn rebuilding_changed_filters_keeps_consistent(m: DashboardModel, changed: DashboardModel)
    requires
        m.consistent(),
        m.snapshot.projects.len() <= usize::MAX,
        changed.snapshot == m.snapshot,
        changed.panel == m.panel,
        changed.context_menu == m.context_menu,
        changed.execution_prompt == m.execution_prompt,
    ensures
        changed.rebuilt().consistent(),
{
    listing_is_no_longer(changed);
    rebuilding_makes_consistent(changed);
}

/// No key makes a consistent state inconsistent, where neither prompt nor menu is open.
pub proof fn key_keeps_consistent(m: DashboardModel, code: KeyCode)
    requires
        m.consistent(),
        m.snapshot.projects.len() <= usize::MAX,
        m.filtered.len() <= usize::MAX,
        m.execution_prompt is None,
        m.context_menu is None,
    ensures
        m.after_key(code).consistent(),
{
    let after = m.after_key(code);
    match code {
        KeyCode::Char(ch) => {
            if ch == ' ' {
                if let Some(i) = m.table_state.selected {
                    if i < m.filtered.len() {
                        row_is_named(m, i as int);
                        toggling_keeps_listed(m, m.filtered[i as int].name);
                    }
                }
            } else if ch == 'x' {
                rebuilding_changed_filters_keeps_consistent(
                    m,
                    DashboardModel { running_only: !m.running_only, ..m },
                );
            } else if ch == 'o' {
                rebuilding_changed_filters_keeps_consistent(
                    m,
                    DashboardModel { sort_mode: next_sort_mode(m.sort_mode), ..m },
                );
            } else {
                rebuilding_changed_filters_keeps_consistent(
                    m,
                    DashboardModel { filter: m.filter.push(ch), ..m },
                );
                assert(ch == 'a' || ch == 'c' || ch == 'j' || ch == 'k' ==> after.listing()
                    == m.listing());
            }
        },
        KeyCode::Backspace => {
            rebuilding_changed_filters_keeps_consistent(
                m,
                DashboardModel { filter: shortened(m.filter), ..m },
            );
        },
        _ => {
            assert(after.listing() == m.listing());
        },
    }
}

/// No key makes a consistent state inconsistent, where a menu is open.
pub proof fn menu_key_keeps_consistent(m: DashboardModel, code: KeyCode)
    requires
        m.consistent(),
        m.filtered.len() <= usize::MAX,
    ensures
        m.after_menu_key(code).consistent(),
{
    let after = m.after_menu_key(code);
    assert(after.listing() == m.listing());
}

/// No event makes a consistent state inconsistent.
pub proof fn event_keeps_consistent<P: Fn(
    &DockerSnapshot,
    OperationAction,
    &Vec<String>,
) -> AppResult<OperationPlan>>(
    planner: P,
    state: DashboardState,
    event: InputEvent,
    after: DashboardModel,
    result: AppResult<Step>,
)
    requires
        state@.consistent(),
        state@.snapshot.projects.len() <= usize::MAX,
        event_handled(planner, state, event, after, result),
    ensures
        after.consistent(),
{
    let m = state@;
    listing_is_no_longer(m);
    match event {
        InputEvent::Key { code, pressed: true } => {
            if m.execution_prompt is Some {
                assert(after.listing() == m.listing());
            } else if m.context_menu is Some {
                menu_key_keeps_consistent(m, code);
            } else {
                key_keeps_consistent(m, code);
            }
        },
        InputEvent::Mouse { event, screen } => {
            if let Some(action) = mouse_action(
                event,
                screen,
                m.filtered.len() as usize,
                m.context_menu,
            ) {
                mouse_keeps_consistent(m, action);
            }
        },
        _ => {},
    }
}

/// Neither a new snapshot nor the end of an operation makes a consistent state inconsistent.
pub proof fn outside_work_keeps_consistent(
    m: DashboardModel,
    snapshot: SnapshotModel,
    action: OperationAction,
    successes: nat,
    failures: nat,
)
    requires
        m.consistent(),
        snapshot.well_formed(),
        snapshot.projects.len() <= usize::MAX,
    ensures
        m.refreshed(snapshot).consistent(),
        m.executed(action, successes, failures).consistent(),
{
    let changed = DashboardModel { snapshot, ..m };
    listing_is_no_longer(changed);
    rebuilding_makes_consistent(changed);
    assert(m.executed(action, successes, failures).listing() == m.listing());
}

/// The mouse never opens a prompt and never types into one: it leaves the prompt as it is or
/// closes it.
pub proof fn mouse_never_opens_a_prompt(m: DashboardModel, action: MouseAction)
    ensures
        m.after_mouse(action).execution_prompt is None || m.after_mouse(action).execution_prompt
            == m.execution_prompt,
{
}

/// A click on a panel never leads to a plan.
pub proof fn panel_click_never_shows_a_plan(m: DashboardModel, slot: usize)
    ensures
        !(m.after_mouse(MouseAction::PanelClick { slot }).panel is Plan),
{
}

/// An entry of the context menu shows its own panel, closes the menu, and leaves the
/// selection as it is.
pub proof fn menu_entry_shows_its_panel(m: DashboardModel, item: ContextMenuItem)
    ensures
        m.after_mouse(MouseAction::ContextMenuClick { item }).panel
            == panel_of(item),
        m.after_mouse(MouseAction::ContextMenuClick { item }).context_menu is None,
        m.after_mouse(MouseAction::ContextMenuClick { item }).execution_prompt is None,
        m.after_mouse(MouseAction::ContextMenuClick { item }).selected == m.selected,
{
}

/// An operation is carried out only where Enter is pressed in an open prompt, and only with
/// the plan that the planner gave for the prompt's action on the targets, after what was
/// typed confirmed it.
pub proof fn execution_needs_confirmation<P: Fn(
    &DockerSnapshot,
    OperationAction,
    &Vec<String>,
) -> AppResult<OperationPlan>>(
    planner: P,
    state: DashboardState,
    event: InputEvent,
    after: DashboardModel,
    plan: OperationPlan,
)
    requires
        event_handled(planner, state, event, after, Ok(Step::Execute(plan))),
    ensures
        event == (InputEvent::Key { code: KeyCode::Enter, pressed: true }),
        state@.execution_prompt matches Some(prompt) && is_reply(
            planner,
            state,
            prompt.action,
            Ok(plan),
        ) && confirms(prompt.token_input, plan@),
{
    let prompt = state@.execution_prompt->0;
    let reply = choose|reply: AppResult<OperationPlan>|
        is_reply(planner, state, prompt.action, reply) && #[trigger] reply_handled(
            state@,
            prompt.token_input,
            reply,
            after,
            Ok(Step::Execute(plan)),
        );
    assert(reply == Ok::<OperationPlan, AppError>(plan));
}

/// A plan with a token is carried out only after exactly that token was typed.
pub proof fn token_must_be_typed<P: Fn(
    &DockerSnapshot,
    OperationAction,
    &Vec<String>,
) -> AppResult<OperationPlan>>(
    planner: P,
    state: DashboardState,
    event: InputEvent,
    after: DashboardModel,
    plan: OperationPlan,
    token: Seq<char>,
)
    requires
        event_handled(planner, state, event, after, Ok(Step::Execute(plan))),
        plan@.confirmation_token == Some(token),
    ensures
        state@.input() == token,
{
    execution_needs_confirmation(planner, state, event, after, plan);
}

/// No operation is carried out where no prompt is open: it takes one Enter to open the prompt
/// and another one to confirm.
pub proof fn nothing_runs_without_a_prompt<P: Fn(
    &DockerSnapshot,
    OperationAction,
    &Vec<String>,
) -> AppResult<OperationPlan>>(
    planner: P,
    state: DashboardState,
    event: InputEvent,
    after: DashboardModel,
    result: AppResult<Step>,
)
    requires
        event_handled(planner, state, event, after, result),
        state@.execution_prompt is None,
    ensures
        !(result matches Ok(Step::Execute(_))),
{
    if let Ok(Step::Execute(plan)) = result {
        execution_needs_confirmation(planner, state, event, after, plan);
    }
}

/// The mouse never carries anything out.
pub proof fn mouse_never_executes<P: Fn(
    &DockerSnapshot,
    OperationAction,
    &Vec<String>,
) -> AppResult<OperationPlan>>(
    planner: P,
    state: DashboardState,
    event: MouseEvent,
    screen: (u16, u16),
    after: DashboardModel,
    result: AppResult<Step>,
)
    requires
        event_handled(planner, state, InputEvent::Mouse { event, screen }, after, result),
    ensures
        result == Ok::<Step, AppError>(Step::Continue),
        after.execution_prompt is None || after.execution_prompt == state@.execution_prompt,
{
    let m = state@;
    if let Some(action) = mouse_action(event, screen, m.filtered.len() as usize, m.context_menu) {
        mouse_never_opens_a_prompt(m, action);
    }
}

/// Cancelling a prompt that was just opened leaves the state as it was, but for the status
/// and for a menu that was open.
pub proof fn cancelling_undoes_opening(m: DashboardModel)
    requires
        m.panel is Plan,
        m.execution_prompt is None,
    ensures
        m.with_prompt().without_prompt() == (DashboardModel {
            context_menu: None,
            status: m.without_prompt().status,
            ..m
        }),
{
}

/// Erasing undoes typing; where no prompt is open, neither changes anything.
pub proof fn erasing_undoes_typing(m: DashboardModel, ch: char)
    ensures
        ({
            let typed = m.with_input(m.input().push(ch));
            typed.with_input(shortened(typed.input())) == m
        }),
{
    assert(shortened(m.input().push(ch)) == m.input());
}

/// Typing a text character by character into a new prompt leaves just that text in it.
pub proof fn typing_spells_the_text(m: DashboardModel, s: Seq<char>)
    requires
        m.execution_prompt is Some,
    ensures
        typed(m, s).input() == m.input() + s,
        typed(m, s).execution_prompt is Some,
    decreases s.len(),
{
    if s.len() == 0 {
        assert(m.input() + s == m.input());
    } else {
        typing_spells_the_text(m, s.drop_last());
        assert(m.input() + s == (m.input() + s.drop_last()).push(s.last()));
    }
}

/// The state after the characters of `s` were typed into the prompt.
pub open spec fn typed(m: DashboardModel, s: Seq<char>) -> DashboardModel
    decreases s.len(),
{
    if s.len() == 0 {
        m
    } else {
        let before = typed(m, s.drop_last());
        before.with_input(before.input().push(s.last()))
    }
}

/// Turning the selection of a project over twice leaves it as it was.
pub proof fn toggling_twice_changes_nothing(m: DashboardModel, name: Seq<char>)
    ensures
        m.toggled(name).toggled(name) == m,
{
    assert(m.toggled(name).toggled(name).selected == m.selected);
}

/// Two clicks on a row leave the selection as it was.
pub proof fn two_clicks_keep_the_selection(m: DashboardModel, row: usize)
    ensures
        ({
            let click = MouseAction::ProjectRowClick { row };
            m.after_mouse(click).after_mouse(click).selected == m.selected
        }),
{
    if row < m.filtered.len() {
        toggling_twice_changes_nothing(m, m.filtered[row as int].name);
        let click = MouseAction::ProjectRowClick { row };
        assert(m.after_mouse(click).after_mouse(click).selected == m.selected);
    }
}

/// Selecting all and then once more selects none, on a list of at least one project of which
/// not all were selected.
pub proof fn selecting_all_twice_selects_none(m: DashboardModel)
    requires
        m.filtered.len() > 0,
        !m.all_selected(),
    ensures
        m.toggled_all().all_selected(),
        m.toggled_all().toggled_all().selected == Set::<Seq<char>>::empty(),
{
}

/// Moving down and up again comes back, unless the cursor was on the last row.
pub proof fn moving_up_undoes_moving_down(m: DashboardModel)
    requires
        m.filtered.len() <= usize::MAX,
        m.table_state.selected matches Some(i) && i + 1 < m.filtered.len(),
    ensures
        m.moved_down().moved_up() == m,
{
}

/// Three changes of the sort mode come back to it.
pub proof fn sort_modes_come_round(mode: SortMode)
    ensures
        next_sort_mode(next_sort_mode(next_sort_mode(mode))) == mode,
{
}

/// The targets of an operation are listed, and where projects are selected the targets are
/// just the selected ones.
pub proof fn targets_are_what_is_selected(m: DashboardModel, name: Seq<char>)
    requires
        m.selected.subset_of(names_of(m.filtered)),
    ensures
        m.targets().contains(name) ==> names_of(m.filtered).contains(name),
        m.selected != Set::<Seq<char>>::empty() ==> (m.targets().contains(name)
            <==> m.selected.contains(name)),
{
    let all = m.filtered;
    let names = all.map_values(|p: ProjectModel| p.name);
    if m.selected == Set::<Seq<char>>::empty() {
        if m.targets().contains(name) {
            let i = m.table_state.selected->0;
            row_is_named(m, i as int);
        }
    } else {
        let keep = |p: ProjectModel| m.selected.contains(p.name);
        let kept = all.filter(keep);
        let targets = kept.map_values(|p: ProjectModel| p.name);
        assert(m.targets() == targets);
        if targets.contains(name) {
            let k = choose|k: int| 0 <= k < targets.len() && targets[k] == name;
            all.lemma_filter_pred(keep, k);
            assert(m.selected.contains(name));
        }
        if m.selected.contains(name) {
            assert(names.contains(name));
            let i = choose|i: int| 0 <= i < names.len() && names[i] == name;
            all.lemma_filter_contains(keep, i);
            let k = choose|k: int| 0 <= k < kept.len() && kept[k] == all[i];
            assert(targets[k] == name);
        }
    }
}

/// The project whose menu opens is selected.
pub proof fn menu_project_is_selected(m: DashboardModel, row: usize, x: u16, y: u16)
    requires
        row < m.filtered.len(),
    ensures
        ({
            let after = m.after_mouse(MouseAction::OpenContextMenu { row, x, y });
            after.selected.contains(m.filtered[row as int].name) && after.current() == Some(
                m.filtered[row as int],
            )
        }),
{
}

/// Without a menu, a click outside the project table does nothing.
pub proof fn clicks_outside_the_table_do_nothing(
    mouse: MouseEvent,
    screen: (u16, u16),
    projects: usize,
)
    requires
        mouse.kind is Down,
        !in_main_area(mouse.row, screen.1) || mouse.column >= table_columns(screen.0),
    ensures
        mouse_action(mouse, screen, projects, None) is None,
{
}

/// No event of the mouse is taken for a click on a panel.
pub proof fn mouse_events_are_no_panel_clicks(
    mouse: MouseEvent,
    screen: (u16, u16),
    projects: usize,
    menu: Option<MenuModel>,
)
    ensures
        !(mouse_action(mouse, screen, projects, menu) matches Some(
            MouseAction::PanelClick { slot: _ },
        )),
{
}

/// While a menu is open, a left click chooses an entry or closes the menu.
pub proof fn left_click_settles_the_menu(
    mouse: MouseEvent,
    screen: (u16, u16),
    projects: usize,
    menu: MenuModel,
)
    requires
        mouse.kind == MouseEventKind::Down(MouseButton::Left),
    ensures
        mouse_action(mouse, screen, projects, Some(menu)) == match item_at(
            screen_rect(screen),
            menu,
            mouse.column,
            mouse.row,
        ) {
            Some(item) => Some(MouseAction::ContextMenuClick { item }),
            None => Some(MouseAction::CloseContextMenu),
        },
{
}

/// On a screen with room for the menu, a left click on the line of an entry chooses it.
pub proof fn menu_line_chooses_its_entry(
    screen: (u16, u16),
    projects: usize,
    menu: MenuModel,
    item: ContextMenuItem,
    column: u16,
)
    requires
        screen.0 >= CONTEXT_MENU_WIDTH,
        screen.1 >= CONTEXT_MENU_HEIGHT,
        menu_rect(screen_rect(screen), menu).x < column < menu_rect(screen_rect(screen), menu).x
            + CONTEXT_MENU_WIDTH - 1,
    ensures
        mouse_action(
            MouseEvent {
                kind: MouseEventKind::Down(MouseButton::Left),
                column,
                row: (menu_rect(screen_rect(screen), menu).y + 1 + position_of(item)) as u16,
            },
            screen,
            projects,
            Some(menu),
        ) == Some(MouseAction::ContextMenuClick { item }),
{
    every_menu_item_can_be_reached(screen_rect(screen), menu, item, column);
}

/// On a screen of full height the mouse finds the main area just where it is drawn, and the
/// first project just below the border and the headings of its table.
pub proof fn main_area_is_where_it_is_drawn(row: u16, screen: (u16, u16))
    requires
        screen.1 >= FULL_HEIGHT,
    ensures
        ({
            let table = full_areas(screen_rect(screen)).projects;
            &&& in_main_area(row, screen.1) <==> table.y <= row < table.y + table.height
            &&& MAIN_TOP + PROJECT_HEADER_ROWS == table.y + 2
        }),
{
}

/// On a screen of full height and at least two columns, a cell that the mouse takes for a
/// project is a cell of the drawn table.
pub proof fn project_clicks_are_on_the_table(
    column: u16,
    row: u16,
    screen: (u16, u16),
    projects: usize,
)
    requires
        screen.0 >= 2,
        screen.1 >= FULL_HEIGHT,
        project_row_at(column, row, screen, projects) is Some,
    ensures
        ({
            let table = full_areas(screen_rect(screen)).projects;
            &&& table.x <= column < table.x + table.width
            &&& table.y <= row < table.y + table.height
        }),
{
}

} // verus!
