//! What each key and each event of the mouse does, in plain terms.

use vstd::prelude::*;

use crate::domain::{
    AppError, AppResult, DockerSnapshot, OperationAction, OperationPlan, SortMode,
};
use crate::text::{control, decimal, texts};
use crate::tui::dashboard::{is_reply, DashboardModel, DashboardState, PromptModel};
use crate::tui::keys::{
    event_handled, reply_handled, InputEvent, KeyCode, Step, POLL_MILLIS, REFRESH_MILLIS,
};
use crate::tui::layout::Rect;
use crate::tui::menu::{
    item_at, label_of, menu_items, menu_rect, panel_of, position_is_found, position_of,
    selected_item, ContextMenuItem, MenuModel, TuiPanel,
};
use crate::tui::mouse::{
    in_main_area, mouse_action, MouseAction, MouseButton, MouseEvent, MouseEventKind,
};
use crate::tui::prompt::{destructive, label, settled, shortened};

verus! {

/// Whether neither prompt nor menu is open.
pub open spec fn quiet(m: DashboardModel) -> bool {
    m.execution_prompt is None && m.context_menu is None
}

/// The state with the prompt replaced.
pub open spec fn prompted(m: DashboardModel, prompt: Option<PromptModel>) -> DashboardModel {
    DashboardModel { execution_prompt: prompt, ..m }
}

/// Whether the character is a command of its own, so that it is not typed into the filter.
pub open spec fn is_command(ch: char) -> bool {
    ch == 'q' || ch == 'j' || ch == 'k' || ch == ' ' || ch == 'a' || ch == 'c' || ch == 'r' || ch
        == 'x' || ch == 'o' || ch == '/' || ch == '1' || ch == '2' || ch == '3' || ch == '4' || ch
        == '5' || ch == 'd' || ch == 'i' || ch == 'h' || ch == '?'
}

/// Keys that are let go, and events that are neither of the keys nor of the mouse, do nothing.
pub proof fn only_pressed_keys_count<P: Fn(
    &DockerSnapshot,
    OperationAction,
    &Vec<String>,
) -> AppResult<OperationPlan>>(
    planner: P,
    state: DashboardState,
    code: KeyCode,
    event: InputEvent,
    after: DashboardModel,
    result: AppResult<Step>,
)
    requires
        event is Other || event == (InputEvent::Key { code, pressed: false }),
        event_handled(planner, state, event, after, result),
    ensures
        after == state@,
        result == Ok::<Step, AppError>(Step::Continue),
{
}

/// Where neither prompt nor menu is open, the program ends on `q` and Escape, a new snapshot is
/// taken on `r`, and no other key asks for anything outside the dashboard. While a prompt or a
/// menu is open, no key ends the program or asks for a snapshot.
pub proof fn keys_for_the_program<P: Fn(
    &DockerSnapshot,
    OperationAction,
    &Vec<String>,
) -> AppResult<OperationPlan>>(
    planner: P,
    state: DashboardState,
    code: KeyCode,
    after: DashboardModel,
    result: AppResult<Step>,
)
    requires
        event_handled(planner, state, InputEvent::Key { code, pressed: true }, after, result),
    ensures
        quiet(state@) && (code is Esc || code == KeyCode::Char('q')) ==> result == Ok::<
            Step,
            AppError,
        >(Step::Quit) && after == state@,
        quiet(state@) && code == KeyCode::Char('r') ==> result == Ok::<Step, AppError>(
            Step::Refresh,
        ) && after == state@,
        quiet(state@) && !(code is Esc || code == KeyCode::Char('q') || code == KeyCode::Char('r'))
            ==> result == Ok::<Step, AppError>(Step::Continue),
        !quiet(state@) ==> result != Ok::<Step, AppError>(Step::Quit) && result != Ok::<
            Step,
            AppError,
        >(Step::Refresh),
{
}

/// Where neither prompt nor menu is open, `j` and Down move the cursor down, `k` and Up move it
/// up, the space bar turns the selection under the cursor over, `a` selects all or none, and
/// `c` clears the selection.
pub proof fn keys_for_cursor_and_selection<P: Fn(
    &DockerSnapshot,
    OperationAction,
    &Vec<String>,
) -> AppResult<OperationPlan>>(
    planner: P,
    state: DashboardState,
    code: KeyCode,
    after: DashboardModel,
    result: AppResult<Step>,
)
    requires
        quiet(state@),
        event_handled(planner, state, InputEvent::Key { code, pressed: true }, after, result),
    ensures
        code is Down || code == KeyCode::Char('j') ==> after == state@.moved_down(),
        code is Up || code == KeyCode::Char('k') ==> after == state@.moved_up(),
        code == KeyCode::Char(' ') ==> after == state@.toggled_current(),
        code == KeyCode::Char('a') ==> after == state@.toggled_all(),
        code == KeyCode::Char('c') ==> after.selected == Set::<Seq<char>>::empty() && (
        DashboardModel { selected: state@.selected, ..after }) == state@,
{
}

/// Where neither prompt nor menu is open, `x` switches between all and active projects, `o`
/// goes from severity to name to activity and round again, Backspace takes the last character
/// off the filter, and a character that is no command goes to its end; each time the list is
/// made anew. Other keys leave the list alone.
pub proof fn keys_for_the_list<P: Fn(
    &DockerSnapshot,
    OperationAction,
    &Vec<String>,
) -> AppResult<OperationPlan>>(
    planner: P,
    state: DashboardState,
    code: KeyCode,
    after: DashboardModel,
    result: AppResult<Step>,
)
    requires
        quiet(state@),
        event_handled(planner, state, InputEvent::Key { code, pressed: true }, after, result),
    ensures
        ({
            let m = state@;
            &&& code == KeyCode::Char('x') ==> after == (DashboardModel {
                running_only: !m.running_only,
                ..m
            }).rebuilt()
            &&& code == KeyCode::Char('o') && m.sort_mode is Severity ==> after == (
            DashboardModel { sort_mode: SortMode::NameAsc, ..m }).rebuilt()
            &&& code == KeyCode::Char('o') && m.sort_mode is NameAsc ==> after == (
            DashboardModel { sort_mode: SortMode::ActiveDesc, ..m }).rebuilt()
            &&& code == KeyCode::Char('o') && m.sort_mode is ActiveDesc ==> after == (
            DashboardModel { sort_mode: SortMode::Severity, ..m }).rebuilt()
            &&& code is Backspace && m.filter.len() > 0 ==> after == (DashboardModel {
                filter: m.filter.subrange(0, m.filter.len() - 1),
                ..m
            }).rebuilt()
            &&& code is Backspace && m.filter.len() == 0 ==> after == m.rebuilt()
            &&& forall|ch: char|
                code == KeyCode::Char(ch) && !is_command(ch) && !control(ch) ==> after == (
                DashboardModel { filter: #[trigger] (m.filter + seq![ch]), ..m }).rebuilt()
            &&& forall|ch: char|
                code == KeyCode::Char(ch) && #[trigger] control(ch) ==> after == m
            &&& code is Other ==> after == m
        }),
{
    let m = state@;
    assert forall|ch: char|
        code == KeyCode::Char(ch) && !is_command(ch) && !control(ch) implies after == (
    DashboardModel { filter: #[trigger] (m.filter + seq![ch]), ..m }).rebuilt() by {
        assert(m.filter + seq![ch] == m.filter.push(ch));
    }
    if code is Backspace && m.filter.len() > 0 {
        assert(m.filter.subrange(0, m.filter.len() - 1) == m.filter.drop_last());
    }
}

/// Where neither prompt nor menu is open, `1` to `5` show the plan to start, stop, restart,
/// remove and purge, `d` shows the health checks, `i` the details, and `h` and `?` the help;
/// nothing else changes. `/` only says how to filter.
pub proof fn keys_for_panels<P: Fn(
    &DockerSnapshot,
    OperationAction,
    &Vec<String>,
) -> AppResult<OperationPlan>>(
    planner: P,
    state: DashboardState,
    code: KeyCode,
    after: DashboardModel,
    result: AppResult<Step>,
)
    requires
        quiet(state@),
        event_handled(planner, state, InputEvent::Key { code, pressed: true }, after, result),
    ensures
        ({
            let m = state@;
            let shows = |panel: TuiPanel| after == DashboardModel { panel, ..m };
            &&& code == KeyCode::Char('1') ==> shows(TuiPanel::Plan(OperationAction::Start))
            &&& code == KeyCode::Char('2') ==> shows(TuiPanel::Plan(OperationAction::Stop))
            &&& code == KeyCode::Char('3') ==> shows(TuiPanel::Plan(OperationAction::Restart))
            &&& code == KeyCode::Char('4') ==> shows(TuiPanel::Plan(OperationAction::Remove))
            &&& code == KeyCode::Char('5') ==> shows(TuiPanel::Plan(OperationAction::Purge))
            &&& code == KeyCode::Char('d') ==> shows(TuiPanel::Doctor)
            &&& code == KeyCode::Char('i') ==> shows(TuiPanel::Detail)
            &&& code == KeyCode::Char('h') || code == KeyCode::Char('?') ==> shows(TuiPanel::Help)
            &&& code == KeyCode::Char('/') ==> after == DashboardModel {
                status: "输入过滤字符；退格删除，Enter 确认，Esc 清空。"@,
                ..m
            }
        }),
{
}

/// Enter on a plan opens the prompt for just that plan, with nothing typed yet, and says what
/// to do next; on any other panel it shows the plan to stop.
pub proof fn enter_opens_the_prompt<P: Fn(
    &DockerSnapshot,
    OperationAction,
    &Vec<String>,
) -> AppResult<OperationPlan>>(
    planner: P,
    state: DashboardState,
    after: DashboardModel,
    result: AppResult<Step>,
)
    requires
        quiet(state@),
        event_handled(
            planner,
            state,
            InputEvent::Key { code: KeyCode::Enter, pressed: true },
            after,
            result,
        ),
    ensures
        !(state@.panel is Plan) ==> after == (DashboardModel {
            panel: TuiPanel::Plan(OperationAction::Stop),
            ..state@
        }),
        state@.panel is Plan ==> after == state@.with_prompt(),
{
}

/// Opening the prompt takes over the action of the plan that is shown, starts with nothing
/// typed, closes a menu, and asks for the token where the action destroys something, else for
/// another Enter; where no plan is shown it changes nothing.
pub proof fn prompt_is_for_the_plan_shown(m: DashboardModel, action: OperationAction)
    ensures
        !(m.panel is Plan) ==> m.with_prompt() == m,
        m.panel == TuiPanel::Plan(action) ==> {
            let after = m.with_prompt();
            &&& after.execution_prompt matches Some(prompt) && prompt.action == action
                && prompt.token_input.len() == 0
            &&& after.context_menu is None
            &&& action is Remove || action is Purge || action is Prune ==> after.status
                == "输入确认令牌后按 Enter 执行，Esc 取消。"@
            &&& !(action is Remove || action is Purge || action is Prune) ==> after.status
                == "再次按 Enter 执行 "@ + label(action) + "，Esc 取消。"@
            &&& (DashboardModel {
                execution_prompt: m.execution_prompt,
                context_menu: m.context_menu,
                status: m.status,
                ..after
            }) == m
        },
        destructive(action) <==> action is Remove || action is Purge || action is Prune,
{
}

/// While a prompt is open, every character that can be printed is typed into it, also one that
/// is a command elsewhere, Backspace takes the last one back, Escape closes it, and other keys
/// do nothing; only prompt and status change.
pub proof fn keys_in_the_prompt<P: Fn(
    &DockerSnapshot,
    OperationAction,
    &Vec<String>,
) -> AppResult<OperationPlan>>(
    planner: P,
    state: DashboardState,
    code: KeyCode,
    prompt: PromptModel,
    after: DashboardModel,
    result: AppResult<Step>,
)
    requires
        state@.execution_prompt == Some(prompt),
        !(code is Enter),
        event_handled(planner, state, InputEvent::Key { code, pressed: true }, after, result),
    ensures
        ({
            let m = state@;
            let input = prompt.token_input;
            &&& result == Ok::<Step, AppError>(Step::Continue)
            &&& forall|ch: char|
                code == KeyCode::Char(ch) && !control(ch) ==> after == prompted(
                    m,
                    Some(PromptModel { token_input: #[trigger] (input + seq![ch]), ..prompt }),
                )
            &&& forall|ch: char|
                code == KeyCode::Char(ch) && #[trigger] control(ch) ==> after == m
            &&& code is Backspace && input.len() > 0 ==> after == prompted(
                m,
                Some(
                    PromptModel { token_input: input.subrange(0, input.len() - 1), ..prompt },
                ),
            )
            &&& code is Backspace && input.len() == 0 ==> after == m
            &&& code is Esc ==> after == (DashboardModel {
                execution_prompt: None,
                status: "已取消 TUI 执行。"@,
                ..m
            })
            &&& code is Up || code is Down || code is Other ==> after == m
        }),
{
    let m = state@;
    let input = prompt.token_input;
    assert forall|ch: char| code == KeyCode::Char(ch) && !control(ch) implies after == prompted(
        m,
        Some(PromptModel { token_input: #[trigger] (input + seq![ch]), ..prompt }),
    ) by {
        assert(input + seq![ch] == input.push(ch));
    }
    if code is Backspace && input.len() > 0 {
        assert(input.subrange(0, input.len() - 1) == input.drop_last());
    }
}

/// Enter in the prompt asks the planner for a plan of the prompt's action on the targets, on
/// the current snapshot. A failure is passed on; a plan without a token, or whose token was
/// typed, is handed out; else the prompt stays open. What was typed and everything but the
/// status stays as it is.
pub proof fn enter_in_the_prompt_asks_the_planner<P: Fn(
    &DockerSnapshot,
    OperationAction,
    &Vec<String>,
) -> AppResult<OperationPlan>>(
    planner: P,
    state: DashboardState,
    prompt: PromptModel,
    after: DashboardModel,
    result: AppResult<Step>,
)
    requires
        state@.execution_prompt == Some(prompt),
        event_handled(
            planner,
            state,
            InputEvent::Key { code: KeyCode::Enter, pressed: true },
            after,
            result,
        ),
    ensures
        exists|targets: Vec<String>, reply: AppResult<OperationPlan>|
            texts(targets@) == state@.targets() && #[trigger] call_ensures(
                planner,
                (&state.snapshot, prompt.action, &targets),
                reply,
            ) && match reply {
                Err(e) => result == Err::<Step, AppError>(e) && after == state@,
                Ok(plan) => if plan@.confirmation_token is None || plan@.confirmation_token
                    == Some(prompt.token_input) {
                    result == Ok::<Step, AppError>(Step::Execute(plan)) && after
                        == (DashboardModel {
                        status: "正在执行 "@ + label(plan.action) + " ..."@,
                        ..state@
                    })
                } else {
                    result == Ok::<Step, AppError>(Step::Continue) && after == (DashboardModel {
                        status: "确认令牌未匹配，继续输入或按 Esc 取消。"@,
                        ..state@
                    })
                },
            },
{
    let reply = choose|reply: AppResult<OperationPlan>|
        is_reply(planner, state, prompt.action, reply) && #[trigger] reply_handled(
            state@,
            prompt.token_input,
            reply,
            after,
            result,
        );
    let targets = choose|targets: Vec<String>|
        texts(targets@) == state@.targets() && #[trigger] call_ensures(
            planner,
            (&state.snapshot, prompt.action, &targets),
            reply,
        );
    assert(call_ensures(planner, (&state.snapshot, prompt.action, &targets), reply));
}

/// When an operation is done, the prompt is closed and the status says which operation it was
/// and how many succeeded and failed; nothing else changes.
pub proof fn result_is_reported(
    m: DashboardModel,
    action: OperationAction,
    successes: nat,
    failures: nat,
)
    ensures
        m.executed(action, successes, failures) == (DashboardModel {
            execution_prompt: None,
            status: label(action) + " 执行完成: 成功 "@ + decimal(successes) + " 个，失败 "@
                + decimal(failures) + " 个。"@,
            ..m
        }),
{
}

/// While a menu is open and no prompt is, Down and `j` go to the following entry, Up and `k` to
/// the preceding one, neither past the ends, Enter chooses the selected entry, Escape closes
/// the menu, and other keys do nothing.
pub proof fn keys_in_the_menu<P: Fn(
    &DockerSnapshot,
    OperationAction,
    &Vec<String>,
) -> AppResult<OperationPlan>>(
    planner: P,
    state: DashboardState,
    code: KeyCode,
    menu: MenuModel,
    after: DashboardModel,
    result: AppResult<Step>,
)
    requires
        state@.execution_prompt is None,
        state@.context_menu == Some(menu),
        menu.selected_index < usize::MAX,
        event_handled(planner, state, InputEvent::Key { code, pressed: true }, after, result),
    ensures
        ({
            let m = state@;
            let at = menu.selected_index;
            let selects = |k: int|
                after == DashboardModel {
                    context_menu: Some(MenuModel { selected_index: k as usize, ..menu }),
                    ..m
                };
            let down = code is Down || code == KeyCode::Char('j');
            let up = code is Up || code == KeyCode::Char('k');
            &&& result == Ok::<Step, AppError>(Step::Continue)
            &&& down && at < 7 ==> selects(at + 1)
            &&& down && at == 7 ==> after == m
            &&& down && at > 7 ==> selects(7)
            &&& up && at > 0 ==> selects(at - 1)
            &&& up && at == 0 ==> after == m
            &&& code is Esc ==> after == DashboardModel { context_menu: None, ..m }
            &&& code is Enter && at < 8 ==> after == m.after_mouse(
                MouseAction::ContextMenuClick { item: menu_items()[at as int] },
            )
            &&& code is Enter && at >= 8 ==> after == m.after_mouse(
                MouseAction::ContextMenuClick { item: ContextMenuItem::Inspect },
            )
            &&& !down && !up && !(code is Esc) && !(code is Enter) ==> after == m
        }),
{
}

/// The entries of the menu go from looking to changing to destroying, each stands in it once,
/// and each shows the panel that its label says.
pub proof fn menu_goes_from_harmless_to_harmful(item: ContextMenuItem)
    ensures
        menu_items().len() == 8,
        position_of(ContextMenuItem::Inspect) == 0,
        position_of(ContextMenuItem::Doctor) == 1,
        position_of(ContextMenuItem::Start) == 2,
        position_of(ContextMenuItem::Stop) == 3,
        position_of(ContextMenuItem::Restart) == 4,
        position_of(ContextMenuItem::Rescue) == 5,
        position_of(ContextMenuItem::Remove) == 6,
        position_of(ContextMenuItem::Purge) == 7,
        menu_items()[position_of(item)] == item,
        panel_of(ContextMenuItem::Inspect) is Detail,
        panel_of(ContextMenuItem::Doctor) is Doctor,
        item is Inspect || item is Doctor || panel_of(item) is Plan,
        panel_of(item) matches TuiPanel::Plan(action) ==> label_of(item) == label(action),
        label_of(ContextMenuItem::Inspect) == "Inspect"@,
        label_of(ContextMenuItem::Doctor) == "Doctor"@,
{
    position_is_found(item);
    position_is_found(ContextMenuItem::Inspect);
    position_is_found(ContextMenuItem::Doctor);
    position_is_found(ContextMenuItem::Start);
    position_is_found(ContextMenuItem::Stop);
    position_is_found(ContextMenuItem::Restart);
    position_is_found(ContextMenuItem::Rescue);
    position_is_found(ContextMenuItem::Remove);
    position_is_found(ContextMenuItem::Purge);
}

/// The selected entry is the one at the selected place, and the first one past the end.
pub proof fn selected_entry_is_at_its_place(menu: MenuModel)
    ensures
        menu.selected_index < 8 ==> selected_item(menu) == menu_items()[menu.selected_index as int],
        menu.selected_index >= 8 ==> selected_item(menu) is Inspect,
{
}

/// Each operation has a name of its own.
pub proof fn operations_have_their_names(action: OperationAction)
    ensures
        action is Start ==> label(action) == "Start"@,
        action is Stop ==> label(action) == "Stop"@,
        action is Restart ==> label(action) == "Restart"@,
        action is Remove ==> label(action) == "Remove"@,
        action is Purge ==> label(action) == "Purge"@,
        action is Prune ==> label(action) == "Prune"@,
        action is Rescue ==> label(action) == "Rescue"@,
{
}

/// The menu is 36 columns wide and ten rows high, or as large as the area where that is smaller.
/// It stands where it was opened; where it would stick out, it is moved just as far as it takes
/// to end with the area.
pub proof fn menu_opens_where_it_was_asked_for(area: Rect, menu: MenuModel)
    requires
        area.width >= 1,
        area.height >= 1,
        area.x + area.width <= u16::MAX,
        area.y + area.height <= u16::MAX,
    ensures
        ({
            let rect = menu_rect(area, menu);
            &&& area.width >= 36 ==> rect.width == 36
            &&& area.width < 36 ==> rect.width == area.width
            &&& area.height >= 10 ==> rect.height == 10
            &&& area.height < 10 ==> rect.height == area.height
            &&& menu.x + rect.width <= area.x + area.width ==> rect.x == menu.x
            &&& menu.x + rect.width > area.x + area.width ==> rect.x + rect.width == area.x
                + area.width
            &&& menu.y + rect.height <= area.y + area.height ==> rect.y == menu.y
            &&& menu.y + rect.height > area.y + area.height ==> rect.y + rect.height == area.y
                + area.height
        }),
{
}

/// Between the borders of the menu, each line shows the entry of its place; on the borders and
/// outside there is none.
pub proof fn menu_lines_show_the_entries(area: Rect, menu: MenuModel, column: u16, row: u16)
    ensures
        ({
            let rect = menu_rect(area, menu);
            let between = rect.x < column && column + 1 < rect.x + rect.width && rect.y < row && row
                + 1 < rect.y + rect.height;
            &&& between ==> row - rect.y - 1 < 8 && item_at(area, menu, column, row) == Some(
                menu_items()[row - rect.y - 1],
            )
            &&& !between ==> item_at(area, menu, column, row) is None
        }),
{
}

/// Turning the wheel down leads to the following row and turning it up to the preceding one,
/// anywhere on any screen, with or without a menu; it closes menu and prompt, and changes
/// nothing else.
pub proof fn wheel_moves_the_cursor(
    m: DashboardModel,
    mouse: MouseEvent,
    screen: (u16, u16),
    i: usize,
)
    requires
        m.filtered.len() <= usize::MAX,
        m.table_state.selected == Some(i),
    ensures
        ({
            let after = m.after_mouse_event(mouse, screen);
            let turned = mouse.kind is ScrollDown || mouse.kind is ScrollUp;
            &&& mouse.kind is ScrollDown && i + 1 < m.filtered.len() ==> after.table_state.selected
                == Some((i + 1) as usize)
            &&& mouse.kind is ScrollDown && i + 1 == m.filtered.len() ==> after.table_state.selected
                == Some(i)
            &&& mouse.kind is ScrollUp && i > 0 ==> after.table_state.selected == Some(
                (i - 1) as usize,
            )
            &&& mouse.kind is ScrollUp && i == 0 ==> after.table_state.selected == Some(0usize)
            &&& turned ==> after.context_menu is None && after.execution_prompt is None
            &&& turned ==> (DashboardModel {
                table_state: m.table_state,
                context_menu: m.context_menu,
                execution_prompt: m.execution_prompt,
                ..after
            }) == m
        }),
{
}

/// Whether a cell is in the rows of the main area, below header and metrics and above the
/// commands, and in the columns of the project table, which has 48 of 100 and at least one.
pub open spec fn on_the_table(column: u16, row: u16, screen: (u16, u16)) -> bool {
    8 <= row && row + 3 < screen.1 && (column == 0 || (column + 1) * 100 <= screen.0 * 48)
}

/// The row of the list that a row of the screen stands for: the first one down to the eleventh
/// row of the screen, then one after another.
pub open spec fn list_row(row: u16) -> int {
    if row <= 10 {
        0
    } else {
        row - 10
    }
}

/// Without a menu, a left click on a project of the table puts the cursor on it and turns its
/// selection over; no other project is touched, and an open prompt is closed. A left click
/// anywhere else does nothing.
pub proof fn left_click_selects_the_project_under_it(
    m: DashboardModel,
    mouse: MouseEvent,
    screen: (u16, u16),
    name: Seq<char>,
)
    requires
        m.filtered.len() <= usize::MAX,
        m.context_menu is None,
        mouse.kind == MouseEventKind::Down(MouseButton::Left),
    ensures
        ({
            let after = m.after_mouse_event(mouse, screen);
            let k = list_row(mouse.row);
            let hit = on_the_table(mouse.column, mouse.row, screen) && k < m.filtered.len();
            &&& !hit ==> after == m
            &&& hit ==> after.table_state.selected == Some(k as usize)
            &&& hit ==> after.table_state.offset == m.table_state.offset
            &&& hit ==> (after.selected.contains(name) <==> (m.selected.contains(name) != (name
                == m.filtered[k].name)))
            &&& hit ==> after.execution_prompt is None
            &&& hit ==> (DashboardModel {
                table_state: m.table_state,
                selected: m.selected,
                execution_prompt: m.execution_prompt,
                ..after
            }) == m
        }),
{
    let k = list_row(mouse.row);
    let share = screen.0 * 48 / 100;
    assert(mouse.column < share <==> (mouse.column + 1) * 100 <= screen.0 * 48);
}

/// A right click on a project of the table opens its menu at the cell of the click, with the
/// first entry selected, whether or not a menu was open. The project is selected afterwards:
/// together with what was selected where it was among that, else alone. A right click anywhere
/// else closes the menu and does nothing more.
pub proof fn right_click_opens_the_menu(
    m: DashboardModel,
    mouse: MouseEvent,
    screen: (u16, u16),
    name: Seq<char>,
)
    requires
        m.filtered.len() <= usize::MAX,
        mouse.kind == MouseEventKind::Down(MouseButton::Right),
    ensures
        ({
            let after = m.after_mouse_event(mouse, screen);
            let k = list_row(mouse.row);
            let hit = on_the_table(mouse.column, mouse.row, screen) && k < m.filtered.len();
            let clicked = m.filtered[k].name;
            &&& !hit ==> after == DashboardModel { context_menu: None, ..m }
            &&& hit ==> after.context_menu == Some(
                MenuModel {
                    project: clicked,
                    row: k as usize,
                    x: mouse.column,
                    y: mouse.row,
                    selected_index: 0,
                },
            )
            &&& hit ==> after.table_state.selected == Some(k as usize)
            &&& hit ==> after.table_state.offset == m.table_state.offset
            &&& hit && m.selected.contains(clicked) ==> after.selected == m.selected
            &&& hit && !m.selected.contains(clicked) ==> (after.selected.contains(name) <==> name
                == clicked)
            &&& hit ==> after.execution_prompt is None
            &&& hit ==> after.status == "右键管理菜单已打开: "@ + clicked
            &&& hit ==> (DashboardModel {
                table_state: m.table_state,
                selected: m.selected,
                execution_prompt: m.execution_prompt,
                context_menu: m.context_menu,
                status: m.status,
                ..after
            }) == m
        }),
{
    let share = screen.0 * 48 / 100;
    assert(mouse.column < share <==> (mouse.column + 1) * 100 <= screen.0 * 48);
}

/// While a menu is open, a left click on an entry shows that
/// entry's panel and closes the menu, and anywhere else only closes the menu; moving or
/// dragging the mouse over an entry selects that entry, and elsewhere does nothing.
pub proof fn mouse_works_the_open_menu(
    m: DashboardModel,
    mouse: MouseEvent,
    screen: (u16, u16),
    menu: MenuModel,
)
    requires
        m.context_menu == Some(menu),
    ensures
        ({
            let after = m.after_mouse_event(mouse, screen);
            let area = Rect { x: 0, y: 0, width: screen.0, height: screen.1 };
            let rect = menu_rect(area, menu);
            let between = rect.x < mouse.column && mouse.column + 1 < rect.x + rect.width && rect.y
                < mouse.row && mouse.row + 1 < rect.y + rect.height;
            let k = mouse.row - rect.y - 1;
            let left = mouse.kind == MouseEventKind::Down(MouseButton::Left);
            let over = mouse.kind is Moved || mouse.kind is Drag;
            &&& left && between ==> after == m.after_mouse(
                MouseAction::ContextMenuClick { item: menu_items()[k] },
            )
            &&& left && !between ==> after == DashboardModel { context_menu: None, ..m }
            &&& over && between ==> after == DashboardModel {
                context_menu: Some(MenuModel { selected_index: k as usize, ..menu }),
                ..m
            }
            &&& over && !between ==> after == m
        }),
{
    let area = Rect { x: 0, y: 0, width: screen.0, height: screen.1 };
    let rect = menu_rect(area, menu);
    let between = rect.x < mouse.column && mouse.column + 1 < rect.x + rect.width && rect.y
        < mouse.row && mouse.row + 1 < rect.y + rect.height;
    if between {
        let k = mouse.row - rect.y - 1;
        let item = menu_items()[k];
        menu_goes_from_harmless_to_harmful(item);
        assert(position_of(item) == k);
    }
}

/// Choosing an entry shows its panel, says which entry it was, closes menu and prompt, and
/// changes nothing else.
pub proof fn entry_is_chosen(m: DashboardModel, item: ContextMenuItem)
    ensures
        m.after_mouse(MouseAction::ContextMenuClick { item }) == (DashboardModel {
            panel: panel_of(item),
            status: "已选择右键菜单动作: "@ + label_of(item),
            context_menu: None,
            execution_prompt: None,
            ..m
        }),
{
}

/// A click on a panel's place shows the details, the health checks or the help, and closes menu
/// and prompt.
pub proof fn panel_is_clicked(m: DashboardModel, slot: usize)
    ensures
        m.after_mouse(MouseAction::PanelClick { slot }) == (DashboardModel {
            panel: if slot == 0 {
                TuiPanel::Detail
            } else if slot == 1 {
                TuiPanel::Doctor
            } else {
                TuiPanel::Help
            },
            context_menu: None,
            execution_prompt: None,
            ..m
        }),
{
}

/// Letting a button go, pressing the middle one and turning the wheel sideways do nothing;
/// without a menu, neither does moving or dragging the mouse.
pub proof fn other_mouse_events_do_nothing(
    m: DashboardModel,
    mouse: MouseEvent,
    screen: (u16, u16),
)
    requires
        mouse.kind is Up || mouse.kind is ScrollLeft || mouse.kind is ScrollRight || mouse.kind
            == MouseEventKind::Down(MouseButton::Middle) || m.context_menu is None && (
        mouse.kind is Moved || mouse.kind is Drag),
    ensures
        m.after_mouse_event(mouse, screen) == m,
{
}

/// An event of the mouse does to the dashboard what the mouse does, and asks for nothing
/// outside of it.
pub proof fn mouse_events_reach_the_dashboard<P: Fn(
    &DockerSnapshot,
    OperationAction,
    &Vec<String>,
) -> AppResult<OperationPlan>>(
    planner: P,
    state: DashboardState,
    event: MouseEvent,
    screen: (u16, u16),
    after: DashboardModel,
    result: AppResult<Step>,
)
    requires
        event_handled(planner, state, InputEvent::Mouse { event, screen }, after, result),
    ensures
        after == state@.after_mouse_event(event, screen),
        result == Ok::<Step, AppError>(Step::Continue),
{
}

/// Each event of the mouse is taken for the action of its kind: the wheel for moving the cursor,
/// a click on a project for selecting it or for opening its menu on the cell of the click.
pub proof fn mouse_events_have_their_actions(
    mouse: MouseEvent,
    screen: (u16, u16),
    projects: usize,
    menu: Option<MenuModel>,
)
    ensures
        ({
            let action = mouse_action(mouse, screen, projects, menu);
            let k = list_row(mouse.row);
            let hit = on_the_table(mouse.column, mouse.row, screen) && k < projects;
            let left = mouse.kind == MouseEventKind::Down(MouseButton::Left);
            let right = mouse.kind == MouseEventKind::Down(MouseButton::Right);
            &&& mouse.kind is ScrollDown ==> action == Some(MouseAction::ScrollDown)
            &&& mouse.kind is ScrollUp ==> action == Some(MouseAction::ScrollUp)
            &&& left && menu is None && hit ==> action == Some(
                MouseAction::ProjectRowClick { row: k as usize },
            )
            &&& left && menu is None && !hit ==> action is None
            &&& right && hit ==> action == Some(
                MouseAction::OpenContextMenu { row: k as usize, x: mouse.column, y: mouse.row },
            )
            &&& right && !hit && menu is Some ==> action == Some(MouseAction::CloseContextMenu)
            &&& right && !hit && menu is None ==> action is None
            &&& left && menu is Some ==> action is Some
            &&& mouse.kind is Up || mouse.kind is ScrollLeft || mouse.kind is ScrollRight
                || mouse.kind == MouseEventKind::Down(MouseButton::Middle) ==> action is None
            &&& (mouse.kind is Moved || mouse.kind is Drag) && menu is None ==> action is None
        }),
{
    let share = screen.0 * 48 / 100;
    assert(mouse.column < share <==> (mouse.column + 1) * 100 <= screen.0 * 48);
}

/// What mouse actions do to rows that are not in the list, and to a menu: a click past the list
/// only closes menu and prompt, opening a menu past the list does nothing, and hovering and
/// closing touch nothing but an open menu.
pub proof fn mouse_actions_past_the_list(
    m: DashboardModel,
    row: usize,
    x: u16,
    y: u16,
    item: ContextMenuItem,
)
    ensures
        row >= m.filtered.len() ==> m.after_mouse(MouseAction::ProjectRowClick { row }) == (
        DashboardModel { context_menu: None, execution_prompt: None, ..m }),
        row >= m.filtered.len() ==> m.after_mouse(MouseAction::OpenContextMenu { row, x, y }) == m,
        m.after_mouse(MouseAction::CloseContextMenu) == (DashboardModel {
            context_menu: None,
            ..m
        }),
        m.context_menu is None ==> m.after_mouse(MouseAction::ContextMenuHover { item }) == m,
        m.context_menu matches Some(menu) ==> (m.after_mouse(
            MouseAction::ContextMenuHover { item },
        ).context_menu matches Some(hovered) && hovered.selected_index < 8
            && menu_items()[hovered.selected_index as int] == item && hovered == (MenuModel {
            selected_index: hovered.selected_index,
            ..menu
        })),
        (DashboardModel {
            context_menu: m.context_menu,
            ..m.after_mouse(MouseAction::ContextMenuHover { item })
        }) == m,
{
    position_is_found(item);
}

/// Typing and erasing change what was typed and nothing else, and nothing at all without a
/// prompt; what was typed is what the prompt holds. Cancelling closes the prompt and says so.
pub proof fn prompt_holds_what_was_typed(m: DashboardModel, text: Seq<char>, prompt: PromptModel)
    ensures
        m.execution_prompt is None ==> m.with_input(text) == m && m.input().len() == 0,
        m.execution_prompt == Some(prompt) ==> m.input() == prompt.token_input && m.with_input(text)
            == prompted(m, Some(PromptModel { action: prompt.action, token_input: text })),
        m.without_prompt() == (DashboardModel {
            execution_prompt: None,
            status: "已取消 TUI 执行。"@,
            ..m
        }),
        text.len() > 0 ==> shortened(text) == text.subrange(0, text.len() - 1),
        text.len() == 0 ==> shortened(text) == text,
{
    if text.len() > 0 {
        assert(text.subrange(0, text.len() - 1) == text.drop_last());
    }
}

/// A plan is settled by its token: without one it is confirmed whatever was typed, with one only
/// by just that token; a failure of the planner stays what it is.
pub proof fn tokens_settle_plans(input: Seq<char>, plan: OperationPlan, error: AppError)
    ensures
        plan@.confirmation_token is None || plan@.confirmation_token == Some(input) ==> settled(
            input,
            Ok(plan),
        ) == Ok::<Option<OperationPlan>, AppError>(Some(plan)),
        plan@.confirmation_token is Some && plan@.confirmation_token != Some(input) ==> settled(
            input,
            Ok(plan),
        ) == Ok::<Option<OperationPlan>, AppError>(None),
        settled(input, Err(error)) == Err::<Option<OperationPlan>, AppError>(error),
{
}

/// The planner is asked on the current snapshot for just the action in question and for the
/// targets of the state.
pub proof fn planner_is_asked_for_the_targets<P: Fn(
    &DockerSnapshot,
    OperationAction,
    &Vec<String>,
) -> AppResult<OperationPlan>>(
    planner: P,
    state: DashboardState,
    action: OperationAction,
    reply: AppResult<OperationPlan>,
)
    requires
        is_reply(planner, state, action, reply),
    ensures
        exists|targets: Vec<String>|
            texts(targets@) == state@.targets() && #[trigger] call_ensures(
                planner,
                (&state.snapshot, action, &targets),
                reply,
            ),
{
}

/// The dashboard waits for an event at most 80 milliseconds, and a snapshot is out of date
/// after two seconds.
pub proof fn waiting_times()
    ensures
        POLL_MILLIS == 80,
        REFRESH_MILLIS == 2 * 1000,
{
}

/// Turning the wheel is moving the cursor with menu and prompt closed, wherever the cursor is.
pub proof fn wheel_is_moving(m: DashboardModel, mouse: MouseEvent, screen: (u16, u16))
    ensures
        mouse.kind is ScrollDown ==> m.after_mouse_event(mouse, screen) == (DashboardModel {
            context_menu: None,
            execution_prompt: None,
            ..m.moved_down()
        }),
        mouse.kind is ScrollUp ==> m.after_mouse_event(mouse, screen) == (DashboardModel {
            context_menu: None,
            execution_prompt: None,
            ..m.moved_up()
        }),
{
}

/// The main area lies between the header and the metrics, eight rows together, and the three
/// rows of the commands.
pub proof fn main_area_is_in_between(row: u16, rows: u16)
    ensures
        in_main_area(row, rows) <==> 8 <= row && row + 3 < rows,
{
}

/// Only a cursor, or a selection of the menu, on the very last number there is can keep an event
/// from being taken.
pub proof fn only_the_largest_numbers_stop_an_event(m: DashboardModel, event: InputEvent)
    requires
        m.table_state.selected != Some(usize::MAX),
        m.context_menu matches Some(menu) ==> menu.selected_index != usize::MAX,
    ensures
        m.takes_event(event),
{
}

} // verus!
