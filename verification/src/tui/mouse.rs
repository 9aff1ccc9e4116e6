//! What the mouse does.

use vstd::prelude::*;
use vstd::string::*;

use crate::tui::dashboard::{DashboardModel, DashboardState};
use crate::tui::layout::{limited_rect, new_rect, Rect};
use crate::tui::menu::{context_menu_item_at, context_menu_item_index};
use crate::tui::menu::{item_at, label_of, panel_of, position_of};
use crate::tui::menu::{ContextMenuItem, ContextMenuState, MenuModel, TuiPanel};

verus! {

/// A button of the mouse.
#[derive(Debug, Clone, Copy, PartialEq, Eq, Structural)]
pub enum MouseButton {
    Left,
    Right,
    Middle,
}

/// What happened to the mouse.
#[derive(Debug, Clone, Copy, PartialEq, Eq, Structural)]
pub enum MouseEventKind {
    Down(MouseButton),
    Up(MouseButton),
    Drag(MouseButton),
    Moved,
    ScrollDown,
    ScrollUp,
    ScrollLeft,
    ScrollRight,
}

/// An event of the mouse on a cell of the screen.
#[derive(Debug, Clone, Copy, PartialEq, Eq, Structural)]
pub struct MouseEvent {
    pub kind: MouseEventKind,
    pub column: u16,
    pub row: u16,
}

/// What the dashboard makes of an event of the mouse.
#[derive(Debug, Clone, Copy, PartialEq, Eq, Structural)]
pub enum MouseAction {
    ProjectRowClick { row: usize },
    PanelClick { slot: usize },
    OpenContextMenu { row: usize, x: u16, y: u16 },
    ContextMenuClick { item: ContextMenuItem },
    ContextMenuHover { item: ContextMenuItem },
    CloseContextMenu,
    ScrollUp,
    ScrollDown,
}

/// Rows of the header.
pub const HEADER_ROWS: u16 = 3;

/// Rows of the metric bar.
pub const METRIC_ROWS: u16 = 5;

/// Rows of the command bar.
pub const FOOTER_ROWS: u16 = 3;

/// Rows of the project table above its first project.
pub const PROJECT_HEADER_ROWS: u16 = 2;

/// The first row of the main area.
pub const MAIN_TOP: u16 = HEADER_ROWS + METRIC_ROWS;

/// Rows of the screen that are not in the main area.
pub const ROWS_AROUND_MAIN: u16 = HEADER_ROWS + METRIC_ROWS + FOOTER_ROWS;

/// Whether a row of the screen is in the main area.
pub open spec fn in_main_area(row: u16, rows: u16) -> bool {
    MAIN_TOP <= row < rows - FOOTER_ROWS
}

/// The columns of the screen that belong to the project table: 48 of 100, and at least one.
pub open spec fn table_columns(columns: u16) -> int {
    let share = columns * 48 / 100;
    if share > 1 {
        share
    } else {
        1
    }
}

/// The project on a cell of the screen: the rows above the first project belong to it too.
pub open spec fn project_row_at(
    column: u16,
    row: u16,
    screen: (u16, u16),
    projects: usize,
) -> Option<usize> {
    let first = MAIN_TOP + PROJECT_HEADER_ROWS;
    let index = if row > first {
        (row - first) as usize
    } else {
        0
    };
    if in_main_area(row, screen.1) && column < table_columns(screen.0) && index < projects {
        Some(index)
    } else {
        None
    }
}

/// The whole screen.
pub open spec fn screen_rect(screen: (u16, u16)) -> Rect {
    limited_rect(0, 0, screen.0, screen.1)
}

/// What an event of the mouse asks for, on a screen of this size that lists `projects`
/// projects and may show a menu.
pub open spec fn mouse_action(
    mouse: MouseEvent,
    screen: (u16, u16),
    projects: usize,
    menu: Option<MenuModel>,
) -> Option<MouseAction> {
    let project = project_row_at(mouse.column, mouse.row, screen, projects);
    let item = match menu {
        Some(m) => item_at(screen_rect(screen), m, mouse.column, mouse.row),
        None => None,
    };
    match mouse.kind {
        MouseEventKind::Down(MouseButton::Left) => match (menu, item, project) {
            (Some(_), Some(item), _) => Some(MouseAction::ContextMenuClick { item }),
            (Some(_), None, _) => Some(MouseAction::CloseContextMenu),
            (None, _, Some(row)) => Some(MouseAction::ProjectRowClick { row }),
            (None, _, None) => None,
        },
        MouseEventKind::Down(MouseButton::Right) => match (project, menu) {
            (Some(row), _) => Some(
                MouseAction::OpenContextMenu { row, x: mouse.column, y: mouse.row },
            ),
            (None, Some(_)) => Some(MouseAction::CloseContextMenu),
            (None, None) => None,
        },
        MouseEventKind::Moved | MouseEventKind::Drag(_) => match item {
            Some(item) => Some(MouseAction::ContextMenuHover { item }),
            None => None,
        },
        MouseEventKind::ScrollUp => Some(MouseAction::ScrollUp),
        MouseEventKind::ScrollDown => Some(MouseAction::ScrollDown),
        _ => None,
    }
}

/// Whether the event is in the main area.
pub fn is_in_main_area(mouse: MouseEvent, terminal_size: (u16, u16)) -> (yes: bool)
    ensures
        yes == in_main_area(mouse.row, terminal_size.1),
{
    let rows: u16 = terminal_size.1;
    if rows <= ROWS_AROUND_MAIN {
        return false;
    }
    mouse.row >= MAIN_TOP && mouse.row < rows - FOOTER_ROWS
}

/// The project that the event is on.
pub fn project_row_for_mouse(
    mouse: MouseEvent,
    terminal_size: (u16, u16),
    visible_projects: usize,
) -> (row: Option<usize>)
    ensures
        row == project_row_at(mouse.column, mouse.row, terminal_size, visible_projects),
{
    if !is_in_main_area(mouse, terminal_size) {
        return None;
    }
    let share: u32 = terminal_size.0 as u32 * 48 / 100;
    let left_width: u32 = if share > 1 { share } else { 1 };
    if mouse.column as u32 >= left_width {
        return None;
    }
    let first: u16 = MAIN_TOP + PROJECT_HEADER_ROWS;
    let row: usize = if mouse.row > first { (mouse.row - first) as usize } else { 0 };
    if row < visible_projects {
        Some(row)
    } else {
        None
    }
}

/// What the event asks for.
pub fn mouse_action_for_event(
    mouse: MouseEvent,
    terminal_size: (u16, u16),
    visible_projects: usize,
    context_menu: Option<&ContextMenuState>,
) -> (action: Option<MouseAction>)
    ensures
        action == mouse_action(
            mouse,
            terminal_size,
            visible_projects,
            match context_menu {
                Some(menu) => Some(menu@),
                None => None,
            },
        ),
{
    let screen = new_rect(0, 0, terminal_size.0, terminal_size.1);
    match mouse.kind {
        MouseEventKind::Down(MouseButton::Left) => {
            match context_menu {
                Some(menu) => match context_menu_item_at(screen, menu, mouse.column, mouse.row) {
                    Some(item) => Some(MouseAction::ContextMenuClick { item }),
                    None => Some(MouseAction::CloseContextMenu),
                },
                None => match project_row_for_mouse(mouse, terminal_size, visible_projects) {
                    Some(row) => Some(MouseAction::ProjectRowClick { row }),
                    None => None,
                },
            }
        },
        MouseEventKind::Moved | MouseEventKind::Drag(_) => match context_menu {
            Some(menu) => match context_menu_item_at(screen, menu, mouse.column, mouse.row) {
                Some(item) => Some(MouseAction::ContextMenuHover { item }),
                None => None,
            },
            None => None,
        },
        MouseEventKind::ScrollUp => Some(MouseAction::ScrollUp),
        MouseEventKind::ScrollDown => Some(MouseAction::ScrollDown),
        MouseEventKind::Down(MouseButton::Right) => {
            match project_row_for_mouse(mouse, terminal_size, visible_projects) {
                Some(row) => Some(
                    MouseAction::OpenContextMenu { row, x: mouse.column, y: mouse.row },
                ),
                None => match context_menu {
                    Some(_) => Some(MouseAction::CloseContextMenu),
                    None => None,
                },
            }
        },
        _ => None,
    }
}

impl DashboardModel {
    /// The state without a menu and without a prompt.
    pub open spec fn undisturbed(self) -> DashboardModel {
        DashboardModel { context_menu: None, execution_prompt: None, ..self }
    }

    /// The state with the selection of `name` turned over.
    pub open spec fn toggled(self, name: Seq<char>) -> DashboardModel {
        DashboardModel {
            selected: if self.selected.contains(name) {
                self.selected.remove(name)
            } else {
                self.selected.insert(name)
            },
            ..self
        }
    }

    /// The state with the cursor on `row`.
    pub open spec fn with_cursor(self, row: usize) -> DashboardModel {
        DashboardModel { table_state: self.table_state.with_selected(Some(row)), ..self }
    }

    /// The state with the menu of the project on `row` open at a cell of the screen. Where
    /// the project is not selected, it becomes the only one that is.
    pub open spec fn with_menu(self, row: usize, x: u16, y: u16) -> DashboardModel {
        let name = self.filtered[row as int].name;
        DashboardModel {
            execution_prompt: None,
            table_state: self.table_state.with_selected(Some(row)),
            selected: if self.selected.contains(name) {
                self.selected
            } else {
                Set::empty().insert(name)
            },
            context_menu: Some(MenuModel { project: name, row, x, y, selected_index: 0 }),
            status: "右键管理菜单已打开: "@ + name,
            ..self
        }
    }

    /// The state after a mouse action.
    pub open spec fn after_mouse(self, action: MouseAction) -> DashboardModel {
        match action {
            MouseAction::ProjectRowClick { row } => if row < self.filtered.len() {
                self.undisturbed().with_cursor(row).toggled(self.filtered[row as int].name)
            } else {
                self.undisturbed()
            },
            MouseAction::PanelClick { slot } => DashboardModel {
                panel: if slot == 0 {
                    TuiPanel::Detail
                } else if slot == 1 {
                    TuiPanel::Doctor
                } else {
                    TuiPanel::Help
                },
                ..self.undisturbed()
            },
            MouseAction::OpenContextMenu { row, x, y } => if row < self.filtered.len() {
                self.with_menu(row, x, y)
            } else {
                self
            },
            MouseAction::ContextMenuHover { item } => DashboardModel {
                context_menu: match self.context_menu {
                    Some(menu) => Some(
                        MenuModel { selected_index: position_of(item) as usize, ..menu },
                    ),
                    None => None,
                },
                ..self
            },
            MouseAction::ContextMenuClick { item } => DashboardModel {
                panel: panel_of(item),
                status: "已选择右键菜单动作: "@ + label_of(item),
                ..self.undisturbed()
            },
            MouseAction::CloseContextMenu => DashboardModel { context_menu: None, ..self },
            MouseAction::ScrollUp => self.undisturbed().moved_up(),
            MouseAction::ScrollDown => self.undisturbed().moved_down(),
        }
    }
}

/// Does what the mouse asks for.
pub fn apply_mouse_action(state: &mut DashboardState, action: MouseAction)
    requires
        action is ScrollDown ==> old(state)@.can_move_down(),
    ensures
        final(state)@ == old(state)@.after_mouse(action),
{
    match action {
        MouseAction::ProjectRowClick { row } => {
            state.context_menu = None;
            state.execution_prompt = None;
            if row < state.filtered.len() {
                state.table_state.select(Some(row));
                let name = state.filtered[row].name.clone();
                if !state.selected.insert(name.clone()) {
                    state.selected.remove(name.as_str());
                    assert(state.selected@ =~= old(state)@.selected.remove(name@));
                }
            }
        },
        MouseAction::PanelClick { slot } => {
            state.context_menu = None;
            state.execution_prompt = None;
            state.panel = match slot {
                0 => TuiPanel::Detail,
                1 => TuiPanel::Doctor,
                _ => TuiPanel::Help,
            };
        },
        MouseAction::OpenContextMenu { row, x, y } => {
            if row < state.filtered.len() {
                state.execution_prompt = None;
                state.table_state.select(Some(row));
                let name = state.filtered[row].name.clone();
                if state.selected.is_empty() || !state.selected.contains(name.as_str()) {
                    state.selected.clear();
                    state.selected.insert(name.clone());
                }
                state.context_menu =
                Some(ContextMenuState { project: name.clone(), row, x, y, selected_index: 0 });
                state.status = "右键管理菜单已打开: ".to_owned().concat(name.as_str());
            }
        },
        MouseAction::ContextMenuHover { item } => {
            match &mut state.context_menu {
                Some(menu) => {
                    menu.selected_index = context_menu_item_index(item);
                },
                None => {},
            }
        },
        MouseAction::ContextMenuClick { item } => {
            state.panel = item.panel();
            state.context_menu = None;
            state.execution_prompt = None;
            state.status = "已选择右键菜单动作: ".to_owned().concat(item.label());
        },
        MouseAction::CloseContextMenu => {
            state.context_menu = None;
        },
        MouseAction::ScrollUp => {
            state.context_menu = None;
            state.execution_prompt = None;
            state.previous();
        },
        MouseAction::ScrollDown => {
            state.context_menu = None;
            state.execution_prompt = None;
            state.next();
        },
    }
    assert(state@ == old(state)@.after_mouse(action));
}

} // verus!
