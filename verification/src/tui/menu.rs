//! The context menu of a project.

use vstd::prelude::*;

use crate::domain::OperationAction;
use crate::tui::layout::{limited_rect, new_rect, Rect};

verus! {

/// What the operations deck shows.
#[derive(Debug, Clone, Copy, PartialEq, Eq, Structural)]
pub enum TuiPanel {
    Detail,
    Doctor,
    Plan(OperationAction),
    Help,
}

/// An entry of the context menu.
#[derive(Debug, Clone, Copy, PartialEq, Eq, Structural)]
pub enum ContextMenuItem {
    Inspect,
    Doctor,
    Start,
    Stop,
    Restart,
    Rescue,
    Remove,
    Purge,
}

/// The open context menu of a project.
#[derive(Debug, PartialEq, Eq)]
pub struct ContextMenuState {
    pub project: String,
    pub row: usize,
    pub x: u16,
    pub y: u16,
    pub selected_index: usize,
}

/// A context menu as text and numbers.
#[verifier::ext_equal]
pub struct MenuModel {
    pub project: Seq<char>,
    pub row: usize,
    pub x: u16,
    pub y: u16,
    pub selected_index: usize,
}

impl View for ContextMenuState {
    type V = MenuModel;

    open spec fn view(&self) -> MenuModel {
        MenuModel {
            project: self.project@,
            row: self.row,
            x: self.x,
            y: self.y,
            selected_index: self.selected_index,
        }
    }
}

impl Clone for ContextMenuState {
    fn clone(&self) -> (copy: Self)
        ensures
            copy@ == self@,
    {
        ContextMenuState {
            project: self.project.clone(),
            row: self.row,
            x: self.x,
            y: self.y,
            selected_index: self.selected_index,
        }
    }
}

/// The entries of the context menu, from top to bottom.
pub open spec fn menu_items() -> Seq<ContextMenuItem> {
    seq![
        ContextMenuItem::Inspect,
        ContextMenuItem::Doctor,
        ContextMenuItem::Start,
        ContextMenuItem::Stop,
        ContextMenuItem::Restart,
        ContextMenuItem::Rescue,
        ContextMenuItem::Remove,
        ContextMenuItem::Purge,
    ]
}

/// The number of entries of the context menu.
pub const CONTEXT_MENU_LENGTH: usize = 8;

/// The width of the context menu, where the screen has room for it.
pub const CONTEXT_MENU_WIDTH: u16 = 36;

/// The height of the context menu with its border, where the screen has room for it.
pub const CONTEXT_MENU_HEIGHT: u16 = 10;

/// The entries of the context menu, from top to bottom.
pub fn context_menu_items() -> (items: Vec<ContextMenuItem>)
    ensures
        items@ == menu_items(),
{
    vec![
        ContextMenuItem::Inspect,
        ContextMenuItem::Doctor,
        ContextMenuItem::Start,
        ContextMenuItem::Stop,
        ContextMenuItem::Restart,
        ContextMenuItem::Rescue,
        ContextMenuItem::Remove,
        ContextMenuItem::Purge,
    ]
}

/// The label of an entry.
pub open spec fn label_of(item: ContextMenuItem) -> Seq<char> {
    match item {
        ContextMenuItem::Inspect => "Inspect"@,
        ContextMenuItem::Doctor => "Doctor"@,
        ContextMenuItem::Start => "Start"@,
        ContextMenuItem::Stop => "Stop"@,
        ContextMenuItem::Restart => "Restart"@,
        ContextMenuItem::Rescue => "Rescue"@,
        ContextMenuItem::Remove => "Remove"@,
        ContextMenuItem::Purge => "Purge"@,
    }
}

/// The description of an entry.
pub open spec fn description_of(item: ContextMenuItem) -> Seq<char> {
    match item {
        ContextMenuItem::Inspect => "details"@,
        ContextMenuItem::Doctor => "diagnose"@,
        ContextMenuItem::Start => "plan start"@,
        ContextMenuItem::Stop => "plan stop"@,
        ContextMenuItem::Restart => "plan restart"@,
        ContextMenuItem::Rescue => "restart risky"@,
        ContextMenuItem::Remove => "confirm remove"@,
        ContextMenuItem::Purge => "confirm purge"@,
    }
}

/// The panel that an entry opens.
pub open spec fn panel_of(item: ContextMenuItem) -> TuiPanel {
    match item {
        ContextMenuItem::Inspect => TuiPanel::Detail,
        ContextMenuItem::Doctor => TuiPanel::Doctor,
        ContextMenuItem::Start => TuiPanel::Plan(OperationAction::Start),
        ContextMenuItem::Stop => TuiPanel::Plan(OperationAction::Stop),
        ContextMenuItem::Restart => TuiPanel::Plan(OperationAction::Restart),
        ContextMenuItem::Rescue => TuiPanel::Plan(OperationAction::Rescue),
        ContextMenuItem::Remove => TuiPanel::Plan(OperationAction::Remove),
        ContextMenuItem::Purge => TuiPanel::Plan(OperationAction::Purge),
    }
}

impl ContextMenuItem {
    /// The label of the entry.
    pub fn label(self) -> (text: &'static str)
        ensures
            text@ == label_of(self),
    {
        match self {
            ContextMenuItem::Inspect => "Inspect",
            ContextMenuItem::Doctor => "Doctor",
            ContextMenuItem::Start => "Start",
            ContextMenuItem::Stop => "Stop",
            ContextMenuItem::Restart => "Restart",
            ContextMenuItem::Rescue => "Rescue",
            ContextMenuItem::Remove => "Remove",
            ContextMenuItem::Purge => "Purge",
        }
    }

    /// The description of the entry.
    pub fn description(self) -> (text: &'static str)
        ensures
            text@ == description_of(self),
    {
        match self {
            ContextMenuItem::Inspect => "details",
            ContextMenuItem::Doctor => "diagnose",
            ContextMenuItem::Start => "plan start",
            ContextMenuItem::Stop => "plan stop",
            ContextMenuItem::Restart => "plan restart",
            ContextMenuItem::Rescue => "restart risky",
            ContextMenuItem::Remove => "confirm remove",
            ContextMenuItem::Purge => "confirm purge",
        }
    }

    /// The panel that the entry opens.
    pub fn panel(self) -> (panel: TuiPanel)
        ensures
            panel == panel_of(self),
    {
        match self {
            ContextMenuItem::Inspect => TuiPanel::Detail,
            ContextMenuItem::Doctor => TuiPanel::Doctor,
            ContextMenuItem::Start => TuiPanel::Plan(OperationAction::Start),
            ContextMenuItem::Stop => TuiPanel::Plan(OperationAction::Stop),
            ContextMenuItem::Restart => TuiPanel::Plan(OperationAction::Restart),
            ContextMenuItem::Rescue => TuiPanel::Plan(OperationAction::Rescue),
            ContextMenuItem::Remove => TuiPanel::Plan(OperationAction::Remove),
            ContextMenuItem::Purge => TuiPanel::Plan(OperationAction::Purge),
        }
    }
}

/// The position of an entry in the menu.
pub open spec fn position_of(item: ContextMenuItem) -> int {
    choose|i: int| 0 <= i < menu_items().len() && menu_items()[i] == item
}

/// The position of an entry in the menu.
pub fn context_menu_item_index(item: ContextMenuItem) -> (index: usize)
    ensures
        index < menu_items().len(),
        menu_items()[index as int] == item,
        index == position_of(item),
{
    let items = context_menu_items();
    let mut i: usize = 0;
    while i < items.len()
        invariant
            items@ == menu_items(),
            i <= items@.len(),
            forall|k: int| 0 <= k < i ==> #[trigger] items@[k] != item,
        decreases items@.len() - i,
    {
        if items[i] == item {
            return i;
        }
        i = i + 1;
    }
    0
}

/// The entry that is selected; the first one where the selection is past the end.
pub open spec fn selected_item(menu: MenuModel) -> ContextMenuItem {
    if menu.selected_index < menu_items().len() {
        menu_items()[menu.selected_index as int]
    } else {
        ContextMenuItem::Inspect
    }
}

/// The selected entry of the menu.
pub fn context_menu_selected_item(menu: &ContextMenuState) -> (item: ContextMenuItem)
    ensures
        item == selected_item(menu@),
{
    let items = context_menu_items();
    if menu.selected_index < items.len() {
        items[menu.selected_index]
    } else {
        ContextMenuItem::Inspect
    }
}

/// The smaller of the two.
pub open spec fn smaller(a: u16, b: u16) -> u16 {
    if a < b {
        a
    } else {
        b
    }
}

/// A size of `wanted` cells, or less where the area has less, but at least one.
pub open spec fn menu_extent(wanted: u16, available: u16) -> u16 {
    smaller(wanted, if available > 1 { available } else { 1 })
}

/// The last place at which a menu of this extent still ends within the area.
pub open spec fn last_start(start: u16, available: u16, extent: u16) -> int {
    if available > extent {
        start + available - extent
    } else {
        start as int
    }
}

/// Whether the places in the area at which the menu can stand are coordinates.
pub open spec fn has_room_for_menu(area: Rect) -> bool {
    &&& last_start(area.x, area.width, menu_extent(CONTEXT_MENU_WIDTH, area.width)) <= u16::MAX
    &&& last_start(area.y, area.height, menu_extent(CONTEXT_MENU_HEIGHT, area.height)) <= u16::MAX
}

/// The rectangle of the menu: where it was opened, or moved left and up as far as it takes
/// to end within the area.
pub open spec fn menu_rect(area: Rect, menu: MenuModel) -> Rect {
    let width = menu_extent(CONTEXT_MENU_WIDTH, area.width);
    let height = menu_extent(CONTEXT_MENU_HEIGHT, area.height);
    limited_rect(
        smaller(menu.x, last_start(area.x, area.width, width) as u16),
        smaller(menu.y, last_start(area.y, area.height, height) as u16),
        width,
        height,
    )
}

/// The smaller of the two.
fn minimum(a: u16, b: u16) -> (m: u16)
    ensures
        m == smaller(a, b),
{
    if a < b {
        a
    } else {
        b
    }
}

/// A size of `wanted` cells, or less where the area has less, but at least one.
fn extent(wanted: u16, available: u16) -> (size: u16)
    ensures
        size == menu_extent(wanted, available),
{
    minimum(wanted, if available > 1 { available } else { 1 })
}

/// The last place at which a menu of this size still ends within the area.
fn latest_start(start: u16, available: u16, size: u16) -> (last: u16)
    requires
        last_start(start, available, size) <= u16::MAX,
    ensures
        last == last_start(start, available, size),
{
    if available > size {
        start + (available - size)
    } else {
        start
    }
}

/// Whether the places in the area at which the menu can stand are coordinates.
pub fn menu_has_room(area: Rect) -> (yes: bool)
    ensures
        yes == has_room_for_menu(area),
{
    let width: u16 = extent(CONTEXT_MENU_WIDTH, area.width);
    let height: u16 = extent(CONTEXT_MENU_HEIGHT, area.height);
    (area.width <= width || area.width - width <= u16::MAX - area.x) && (area.height <= height
        || area.height - height <= u16::MAX - area.y)
}

/// The rectangle of the menu.
pub fn context_menu_rect(area: Rect, menu: &ContextMenuState) -> (rect: Rect)
    requires
        has_room_for_menu(area),
    ensures
        rect == menu_rect(area, menu@),
{
    let width: u16 = extent(CONTEXT_MENU_WIDTH, area.width);
    let height: u16 = extent(CONTEXT_MENU_HEIGHT, area.height);
    let max_x: u16 = latest_start(area.x, area.width, width);
    let max_y: u16 = latest_start(area.y, area.height, height);
    new_rect(minimum(menu.x, max_x), minimum(menu.y, max_y), width, height)
}

/// Whether a cell is in the rectangle and not on its border.
pub open spec fn inside_border(rect: Rect, column: u16, row: u16) -> bool {
    rect.x < column < rect.x + rect.width - 1 && rect.y < row < rect.y + rect.height - 1
}

/// The entry of the menu on a cell of the screen.
pub open spec fn item_at(
    area: Rect,
    menu: MenuModel,
    column: u16,
    row: u16,
) -> Option<ContextMenuItem> {
    let rect = menu_rect(area, menu);
    if inside_border(rect, column, row) {
        Some(menu_items()[row - rect.y - 1])
    } else {
        None
    }
}

/// The entry of the menu on a cell of the screen.
pub fn context_menu_item_at(
    area: Rect,
    menu: &ContextMenuState,
    column: u16,
    row: u16,
) -> (item: Option<ContextMenuItem>)
    requires
        has_room_for_menu(area),
    ensures
        item == item_at(area, menu@, column, row),
{
    let rect = context_menu_rect(area, menu);
    if column <= rect.x || rect.width == 0 || column >= rect.x + (rect.width - 1) || row <= rect.y
        || rect.height == 0 || row >= rect.y + (rect.height - 1) {
        return None;
    }
    let index: usize = (row - rect.y - 1) as usize;
    let items = context_menu_items();
    if index < items.len() {
        Some(items[index])
    } else {
        None
    }
}

/// On an area of at least one cell, the menu ends within the area. It takes its full size where
/// the area has room for it, else the size of the area. It is moved left and up only, and not
/// out of the area that it was opened in.
pub proof fn menu_stays_on_screen(area: Rect, menu: MenuModel)
    requires
        area.width >= 1,
        area.height >= 1,
        area.x + area.width <= u16::MAX,
        area.y + area.height <= u16::MAX,
    ensures
        has_room_for_menu(area),
        menu_rect(area, menu).width == smaller(CONTEXT_MENU_WIDTH, area.width),
        menu_rect(area, menu).height == smaller(CONTEXT_MENU_HEIGHT, area.height),
        menu_rect(area, menu).x + menu_rect(area, menu).width <= area.x + area.width,
        menu_rect(area, menu).y + menu_rect(area, menu).height <= area.y + area.height,
        menu_rect(area, menu).x <= menu.x && menu_rect(area, menu).y <= menu.y,
        area.x <= menu.x ==> area.x <= menu_rect(area, menu).x,
        area.y <= menu.y ==> area.y <= menu_rect(area, menu).y,
{
}

/// On a screen with room for the menu, each entry can be reached: its line shows it on every
/// column between the borders.
pub proof fn every_menu_item_can_be_reached(
    area: Rect,
    menu: MenuModel,
    item: ContextMenuItem,
    column: u16,
)
    requires
        area.width >= CONTEXT_MENU_WIDTH,
        area.height >= CONTEXT_MENU_HEIGHT,
        area.x + area.width <= u16::MAX,
        area.y + area.height <= u16::MAX,
        menu_rect(area, menu).x < column < menu_rect(area, menu).x + CONTEXT_MENU_WIDTH - 1,
    ensures
        0 <= position_of(item) < CONTEXT_MENU_LENGTH,
        item_at(
            area,
            menu,
            column,
            (menu_rect(area, menu).y + 1 + position_of(item)) as u16,
        ) == Some(item),
{
    position_is_found(item);
}

/// Each entry stands in the menu, at its position.
pub proof fn position_is_found(item: ContextMenuItem)
    ensures
        0 <= position_of(item) < menu_items().len(),
        menu_items()[position_of(item)] == item,
{
    let items = menu_items();
    assert(items[0] == ContextMenuItem::Inspect);
    assert(items[1] == ContextMenuItem::Doctor);
    assert(items[2] == ContextMenuItem::Start);
    assert(items[3] == ContextMenuItem::Stop);
    assert(items[4] == ContextMenuItem::Restart);
    assert(items[5] == ContextMenuItem::Rescue);
    assert(items[6] == ContextMenuItem::Remove);
    assert(items[7] == ContextMenuItem::Purge);
}

} // verus!
