//! What the keys do, and what the program around the dashboard is asked for.

use vstd::prelude::*;
use vstd::string::*;

use crate::domain::{
    AppError, AppResult, DockerSnapshot, OperationAction, OperationPlan, SnapshotModel, SortMode,
};
use crate::name_set::{names_of, NameSet};
use crate::text::{control, decimal, decimal_text, is_control};
use crate::tui::dashboard::{answers_always, is_reply};
use crate::tui::dashboard::{DashboardModel, DashboardState};
use crate::tui::menu::{context_menu_selected_item, selected_item};
use crate::tui::menu::{MenuModel, TuiPanel, CONTEXT_MENU_LENGTH};
use crate::tui::mouse::{apply_mouse_action, mouse_action, mouse_action_for_event};
use crate::tui::mouse::{MouseAction, MouseEvent, MouseEventKind};
use crate::tui::prompt::{
    begin_execution_prompt, cancel_execution_prompt, execution_plan_if_confirmed, operation_label,
    pop_execution_token, push_execution_token,
};
use crate::tui::prompt::{confirms, label, settled, shortened};

verus! {

/// A key.
#[derive(Debug, Clone, Copy, PartialEq, Eq, Structural)]
pub enum KeyCode {
    Char(char),
    Esc,
    Up,
    Down,
    Enter,
    Backspace,
    /// Any other key.
    Other,
}

/// What the terminal reports.
#[derive(Debug, Clone, Copy, PartialEq, Eq)]
pub enum InputEvent {
    /// A key that was pressed, or repeated or released.
    Key { code: KeyCode, pressed: bool },
    /// An event of the mouse on a screen of this size.
    Mouse { event: MouseEvent, screen: (u16, u16) },
    /// Anything else.
    Other,
}

/// What the program around the dashboard is to do next.
#[derive(Debug, PartialEq, Eq)]
pub enum Step {
    /// Wait for the next event.
    Continue,
    /// End.
    Quit,
    /// Take a new snapshot.
    Refresh,
    /// Carry out the plan, report the result, and take a new snapshot.
    Execute(OperationPlan),
}

/// Milliseconds to wait for an event before the dashboard is drawn again.
pub const POLL_MILLIS: u64 = 80;

/// Milliseconds after which a snapshot is out of date.
pub const REFRESH_MILLIS: u64 = 2000;

/// Whether a snapshot of this age is out of date.
pub fn refresh_due(elapsed_millis: u64) -> (due: bool)
    ensures
        due == (elapsed_millis >= REFRESH_MILLIS),
{
    elapsed_millis >= REFRESH_MILLIS
}

/// The sort mode that follows.
pub open spec fn next_sort_mode(mode: SortMode) -> SortMode {
    match mode {
        SortMode::Severity => SortMode::NameAsc,
        SortMode::NameAsc => SortMode::ActiveDesc,
        SortMode::ActiveDesc => SortMode::Severity,
    }
}

impl DashboardModel {
    /// The state with the selection of the project under the cursor turned over.
    pub open spec fn toggled_current(self) -> DashboardModel {
        match self.current() {
            Some(p) => self.toggled(p.name),
            None => self,
        }
    }

    /// Whether every listed project is selected, and there is one.
    pub open spec fn all_selected(self) -> bool {
        self.filtered.len() > 0 && names_of(self.filtered).subset_of(self.selected)
    }

    /// The state with all listed projects selected, or none where all were.
    pub open spec fn toggled_all(self) -> DashboardModel {
        DashboardModel {
            selected: if self.all_selected() {
                Set::empty()
            } else {
                names_of(self.filtered)
            },
            ..self
        }
    }

    /// The state that shows `panel`.
    pub open spec fn showing(self, panel: TuiPanel) -> DashboardModel {
        DashboardModel { panel, ..self }
    }

    /// The state that lists what passes `filter`.
    pub open spec fn filtered_by(self, filter: Seq<char>) -> DashboardModel {
        DashboardModel { filter, ..self }.rebuilt()
    }

    /// The state after a character key, where neither prompt nor menu is open.
    pub open spec fn after_char(self, ch: char) -> DashboardModel {
        if ch == 'q' || ch == 'r' {
            self
        } else if ch == 'j' {
            self.moved_down()
        } else if ch == 'k' {
            self.moved_up()
        } else if ch == ' ' {
            self.toggled_current()
        } else if ch == 'a' {
            self.toggled_all()
        } else if ch == 'c' {
            DashboardModel { selected: Set::empty(), ..self }
        } else if ch == 'x' {
            DashboardModel { running_only: !self.running_only, ..self }.rebuilt()
        } else if ch == 'o' {
            DashboardModel { sort_mode: next_sort_mode(self.sort_mode), ..self }.rebuilt()
        } else if ch == '/' {
            DashboardModel {
                status: "输入过滤字符；退格删除，Enter 确认，Esc 清空。"@,
                ..self
            }
        } else if ch == '1' {
            self.showing(TuiPanel::Plan(OperationAction::Start))
        } else if ch == '2' {
            self.showing(TuiPanel::Plan(OperationAction::Stop))
        } else if ch == '3' {
            self.showing(TuiPanel::Plan(OperationAction::Restart))
        } else if ch == '4' {
            self.showing(TuiPanel::Plan(OperationAction::Remove))
        } else if ch == '5' {
            self.showing(TuiPanel::Plan(OperationAction::Purge))
        } else if ch == 'd' {
            self.showing(TuiPanel::Doctor)
        } else if ch == 'i' {
            self.showing(TuiPanel::Detail)
        } else if ch == 'h' || ch == '?' {
            self.showing(TuiPanel::Help)
        } else if !control(ch) {
            self.filtered_by(self.filter.push(ch))
        } else {
            self
        }
    }

    /// The state after a key, where neither prompt nor menu is open.
    pub open spec fn after_key(self, code: KeyCode) -> DashboardModel {
        match code {
            KeyCode::Char(ch) => self.after_char(ch),
            KeyCode::Down => self.moved_down(),
            KeyCode::Up => self.moved_up(),
            KeyCode::Backspace => self.filtered_by(shortened(self.filter)),
            KeyCode::Enter => if self.panel is Plan {
                self.with_prompt()
            } else {
                self.showing(TuiPanel::Plan(OperationAction::Stop))
            },
            KeyCode::Esc | KeyCode::Other => self,
        }
    }

    /// Whether a key moves the cursor down.
    pub open spec fn moves_down(code: KeyCode) -> bool {
        code is Down || code == KeyCode::Char('j')
    }

    /// Whether a key moves the cursor up.
    pub open spec fn moves_up(code: KeyCode) -> bool {
        code is Up || code == KeyCode::Char('k')
    }

    /// The state with another entry of the open menu selected.
    pub open spec fn with_menu_selection(self, index: int) -> DashboardModel {
        match self.context_menu {
            Some(menu) => DashboardModel {
                context_menu: Some(MenuModel { selected_index: index as usize, ..menu }),
                ..self
            },
            None => self,
        }
    }

    /// The state after a key, where a menu is open.
    pub open spec fn after_menu_key(self, code: KeyCode) -> DashboardModel {
        match self.context_menu {
            None => self,
            Some(menu) => if code is Esc {
                DashboardModel { context_menu: None, ..self }
            } else if Self::moves_up(code) {
                self.with_menu_selection(
                    if menu.selected_index > 0 {
                        menu.selected_index - 1
                    } else {
                        0
                    },
                )
            } else if Self::moves_down(code) {
                self.with_menu_selection(
                    if menu.selected_index + 1 < CONTEXT_MENU_LENGTH {
                        menu.selected_index + 1
                    } else {
                        CONTEXT_MENU_LENGTH - 1
                    },
                )
            } else if code is Enter {
                self.after_mouse(MouseAction::ContextMenuClick { item: selected_item(menu) })
            } else {
                self
            },
        }
    }

    /// Whether the selection of the open menu can move down without leaving the numbers.
    pub open spec fn can_move_menu_down(self) -> bool {
        self.context_menu matches Some(menu) ==> menu.selected_index < usize::MAX
    }

    /// The state that says `status`.
    pub open spec fn saying(self, status: Seq<char>) -> DashboardModel {
        DashboardModel { status, ..self }
    }

    /// The state after what was typed did not confirm the plan.
    pub open spec fn after_mismatch(self) -> DashboardModel {
        self.saying("确认令牌未匹配，继续输入或按 Esc 取消。"@)
    }

    /// The state while an operation is carried out.
    pub open spec fn executing(self, action: OperationAction) -> DashboardModel {
        self.saying("正在执行 "@ + label(action) + " ..."@)
    }

    /// The state after an operation was carried out, with the number of successes and
    /// failures.
    pub open spec fn executed(
        self,
        action: OperationAction,
        successes: nat,
        failures: nat,
    ) -> DashboardModel {
        DashboardModel {
            execution_prompt: None,
            status: label(action) + " 执行完成: 成功 "@ + decimal(successes) + " 个，失败 "@
                + decimal(failures) + " 个。"@,
            ..self
        }
    }

    /// The state with a new snapshot.
    pub open spec fn refreshed(self, snapshot: SnapshotModel) -> DashboardModel {
        DashboardModel { snapshot, ..self }.rebuilt()
    }

    /// The state after an event of the mouse.
    pub open spec fn after_mouse_event(
        self,
        mouse: MouseEvent,
        screen: (u16, u16),
    ) -> DashboardModel {
        match mouse_action(mouse, screen, self.filtered.len() as usize, self.context_menu) {
            Some(action) => self.after_mouse(action),
            None => self,
        }
    }

    /// Whether a key keeps the cursor and the selection of the menu within the numbers.
    pub open spec fn takes_key(self, code: KeyCode) -> bool {
        Self::moves_down(code) && self.execution_prompt is None ==> if self.context_menu is Some {
            self.can_move_menu_down()
        } else {
            self.can_move_down()
        }
    }

    /// Whether an event keeps the cursor and the selection of the menu within the numbers.
    pub open spec fn takes_event(self, event: InputEvent) -> bool {
        match event {
            InputEvent::Key { code, pressed } => pressed ==> self.takes_key(code),
            InputEvent::Mouse { event, .. } => event.kind is ScrollDown ==> self.can_move_down(),
            InputEvent::Other => true,
        }
    }
}

/// What a key in the prompt leads to, given the planner's reply: a failure of the planner
/// ends the dashboard, a plan that is not confirmed keeps the prompt open, and a confirmed
/// one is carried out.
pub open spec fn reply_handled(
    before: DashboardModel,
    input: Seq<char>,
    reply: AppResult<OperationPlan>,
    after: DashboardModel,
    result: AppResult<Step>,
) -> bool {
    match reply {
        Err(e) => after == before && result == Err::<Step, AppError>(e),
        Ok(plan) => if confirms(input, plan@) {
            after == before.executing(plan.action) && result == Ok::<Step, AppError>(
                Step::Execute(plan),
            )
        } else {
            after == before.after_mismatch() && result == Ok::<Step, AppError>(Step::Continue)
        },
    }
}

/// What a key does in the prompt.
pub open spec fn execution_key_handled<P: Fn(
    &DockerSnapshot,
    OperationAction,
    &Vec<String>,
) -> AppResult<OperationPlan>>(
    planner: P,
    state: DashboardState,
    code: KeyCode,
    after: DashboardModel,
    result: AppResult<Step>,
) -> bool {
    let before = state@;
    match code {
        KeyCode::Enter => match before.execution_prompt {
            Some(prompt) => exists|reply: AppResult<OperationPlan>|
                is_reply(planner, state, prompt.action, reply) && #[trigger] reply_handled(
                    before,
                    prompt.token_input,
                    reply,
                    after,
                    result,
                ),
            None => after == before.after_mismatch() && result == Ok::<Step, AppError>(
                Step::Continue,
            ),
        },
        _ => {
            &&& result == Ok::<Step, AppError>(Step::Continue)
            &&& after == match code {
                KeyCode::Esc => before.without_prompt(),
                KeyCode::Backspace => before.with_input(shortened(before.input())),
                KeyCode::Char(ch) => if control(ch) {
                    before
                } else {
                    before.with_input(before.input().push(ch))
                },
                _ => before,
            }
        },
    }
}

/// What becomes of the planner's reply decides what Enter leads to in the prompt.
proof fn settling_handles_enter<P: Fn(
    &DockerSnapshot,
    OperationAction,
    &Vec<String>,
) -> AppResult<OperationPlan>>(
    planner: P,
    state: DashboardState,
    outcome: AppResult<Option<OperationPlan>>,
    after: DashboardModel,
    result: AppResult<Step>,
)
    requires
        state@.execution_prompt matches Some(prompt) && exists|reply: AppResult<OperationPlan>|
            is_reply(planner, state, prompt.action, reply) && outcome == #[trigger] settled(
                prompt.token_input,
                reply,
            ),
        match outcome {
            Err(e) => after == state@ && result == Err::<Step, AppError>(e),
            Ok(None) => after == state@.after_mismatch() && result == Ok::<Step, AppError>(
                Step::Continue,
            ),
            Ok(Some(plan)) => after == state@.executing(plan.action) && result == Ok::<
                Step,
                AppError,
            >(Step::Execute(plan)),
        },
    ensures
        execution_key_handled(planner, state, KeyCode::Enter, after, result),
{
    let prompt = state@.execution_prompt->0;
    let reply = choose|reply: AppResult<OperationPlan>|
        is_reply(planner, state, prompt.action, reply) && outcome == #[trigger] settled(
            prompt.token_input,
            reply,
        );
    assert(reply_handled(state@, prompt.token_input, reply, after, result));
}

/// What a key does: it goes to the prompt where one is open, else to the menu where one is
/// open, else to the dashboard.
pub open spec fn key_handled<P: Fn(
    &DockerSnapshot,
    OperationAction,
    &Vec<String>,
) -> AppResult<OperationPlan>>(
    planner: P,
    state: DashboardState,
    code: KeyCode,
    after: DashboardModel,
    result: AppResult<Step>,
) -> bool {
    let before = state@;
    if before.execution_prompt is Some {
        execution_key_handled(planner, state, code, after, result)
    } else if before.context_menu is Some {
        after == before.after_menu_key(code) && result == Ok::<Step, AppError>(Step::Continue)
    } else {
        &&& after == before.after_key(code)
        &&& result == Ok::<Step, AppError>(
            if code is Esc || code == KeyCode::Char('q') {
                Step::Quit
            } else if code == KeyCode::Char('r') {
                Step::Refresh
            } else {
                Step::Continue
            },
        )
    }
}

/// What an event does: keys count when they are pressed.
pub open spec fn event_handled<P: Fn(
    &DockerSnapshot,
    OperationAction,
    &Vec<String>,
) -> AppResult<OperationPlan>>(
    planner: P,
    state: DashboardState,
    event: InputEvent,
    after: DashboardModel,
    result: AppResult<Step>,
) -> bool {
    match event {
        InputEvent::Key { code, pressed: true } => key_handled(planner, state, code, after, result),
        InputEvent::Mouse { event, screen } => after == state@.after_mouse_event(event, screen)
            && result == Ok::<Step, AppError>(Step::Continue),
        _ => after == state@ && result == Ok::<Step, AppError>(Step::Continue),
    }
}

impl DashboardState {
    /// Turns the selection of the project under the cursor over.
    pub fn toggle_selected(&mut self)
        ensures
            final(self)@ == old(self)@.toggled_current(),
    {
        let name = match self.current_project() {
            Some(project) => project.name.clone(),
            None => {
                return ;
            },
        };
        if !self.selected.insert(name.clone()) {
            self.selected.remove(name.as_str());
            assert(self.selected@ =~= old(self)@.selected.remove(name@));
        }
        assert(self@ == old(self)@.toggled_current());
    }

    /// Whether every listed project is selected, and there is one.
    fn all_listed_selected(&self) -> (yes: bool)
        ensures
            yes == self@.all_selected(),
    {
        if self.filtered.is_empty() {
            return false;
        }
        let ghost names = self@.filtered.map_values(|p: crate::domain::ProjectModel| p.name);
        let mut i: usize = 0;
        while i < self.filtered.len()
            invariant
                i <= self.filtered@.len(),
                names == self@.filtered.map_values(|p: crate::domain::ProjectModel| p.name),
                forall|k: int| 0 <= k < i ==> self@.selected.contains(#[trigger] names[k]),
            decreases self.filtered@.len() - i,
        {
            if !self.selected.contains(self.filtered[i].name.as_str()) {
                proof {
                    assert(names[i as int] == self.filtered@[i as int].name@);
                    assert(names_of(self@.filtered).contains(names[i as int]));
                }
                return false;
            }
            i = i + 1;
        }
        true
    }

    /// Selects all listed projects, or none where all were selected.
    pub fn toggle_all(&mut self)
        ensures
            final(self)@ == old(self)@.toggled_all(),
    {
        if self.all_listed_selected() {
            self.selected.clear();
        } else {
            self.selected = NameSet::from_projects(&self.filtered);
        }
        assert(self@ == old(self)@.toggled_all());
    }

    /// Takes a new snapshot over.
    pub fn refresh(&mut self, snapshot: DockerSnapshot)
        ensures
            final(self)@ == old(self)@.refreshed(snapshot@),
    {
        self.snapshot = snapshot;
        self.rebuild_filtered();
    }

    /// Closes the prompt and reports what came of the operation.
    pub fn finish_execution(&mut self, action: OperationAction, successes: usize, failures: usize)
        ensures
            final(self)@ == old(self)@.executed(action, successes as nat, failures as nat),
    {
        self.execution_prompt = None;
        self.status =
        operation_label(action).to_owned().concat(" 执行完成: 成功 ").concat(
            decimal_text(successes).as_str(),
        ).concat(" 个，失败 ").concat(decimal_text(failures).as_str()).concat(" 个。");
        assert(self@ == old(self)@.executed(action, successes as nat, failures as nat));
    }

    /// Does what an event of the mouse asks for.
    pub fn handle_mouse(&mut self, mouse: MouseEvent, terminal_size: (u16, u16))
        requires
            mouse.kind is ScrollDown ==> old(self)@.can_move_down(),
        ensures
            final(self)@ == old(self)@.after_mouse_event(mouse, terminal_size),
    {
        let action = mouse_action_for_event(
            mouse,
            terminal_size,
            self.filtered.len(),
            self.context_menu.as_ref(),
        );
        if let Some(action) = action {
            apply_mouse_action(self, action);
        }
    }

    /// Does what a key asks for, where a menu is open.
    pub fn handle_context_menu_key(&mut self, code: KeyCode)
        requires
            DashboardModel::moves_down(code) ==> old(self)@.can_move_menu_down(),
        ensures
            final(self)@ == old(self)@.after_menu_key(code),
    {
        match code {
            KeyCode::Esc => {
                self.context_menu = None;
            },
            KeyCode::Up | KeyCode::Char('k') => match &mut self.context_menu {
                Some(menu) => {
                    if menu.selected_index > 0 {
                        menu.selected_index = menu.selected_index - 1;
                    }
                },
                None => {},
            },
            KeyCode::Down | KeyCode::Char('j') => match &mut self.context_menu {
                Some(menu) => {
                    if menu.selected_index + 1 < CONTEXT_MENU_LENGTH {
                        menu.selected_index = menu.selected_index + 1;
                    } else {
                        menu.selected_index = CONTEXT_MENU_LENGTH - 1;
                    }
                },
                None => {},
            },
            KeyCode::Enter => {
                let item = match &self.context_menu {
                    Some(menu) => Some(context_menu_selected_item(menu)),
                    None => None,
                };
                if let Some(item) = item {
                    apply_mouse_action(self, MouseAction::ContextMenuClick { item });
                }
            },
            _ => {},
        }
        assert(self@ == old(self)@.after_menu_key(code));
    }

    /// Hands the plan of the prompt out to be carried out, where it is confirmed.
    pub fn execute_confirmed_plan<P: Fn(
        &DockerSnapshot,
        OperationAction,
        &Vec<String>,
    ) -> AppResult<OperationPlan>>(&mut self, planner: &P) -> (result: AppResult<Step>)
        requires
            answers_always(*planner),
        ensures
            execution_key_handled(*planner, *old(self), KeyCode::Enter, final(self)@, result),
    {
        let outcome = execution_plan_if_confirmed(self, planner);
        let ghost settled_reply = outcome;
        let result = match outcome {
            Err(e) => Err(e),
            Ok(None) => {
                self.status = "确认令牌未匹配，继续输入或按 Esc 取消。".to_owned();
                assert(self@ == old(self)@.after_mismatch());
                Ok(Step::Continue)
            },
            Ok(Some(plan)) => {
                self.status =
                "正在执行 ".to_owned().concat(operation_label(plan.action)).concat(" ...");
                assert(self@ == old(self)@.executing(plan.action));
                Ok(Step::Execute(plan))
            },
        };
        proof {
            if old(self)@.execution_prompt is Some {
                settling_handles_enter(*planner, *old(self), settled_reply, self@, result);
            }
        }
        result
    }

    /// Does what a key asks for, where a prompt is open.
    pub fn handle_execution_key<P: Fn(
        &DockerSnapshot,
        OperationAction,
        &Vec<String>,
    ) -> AppResult<OperationPlan>>(&mut self, code: KeyCode, planner: &P) -> (result: AppResult<
        Step,
    >)
        requires
            answers_always(*planner),
        ensures
            execution_key_handled(*planner, *old(self), code, final(self)@, result),
    {
        match code {
            KeyCode::Enter => {
                return self.execute_confirmed_plan(planner);
            },
            KeyCode::Esc => cancel_execution_prompt(self),
            KeyCode::Backspace => pop_execution_token(self),
            KeyCode::Char(ch) => {
                if !is_control(ch) {
                    push_execution_token(self, ch);
                }
            },
            _ => {},
        }
        Ok(Step::Continue)
    }

    /// Does what a character key asks for, where neither prompt nor menu is open.
    fn handle_char(&mut self, ch: char)
        requires
            ch == 'j' ==> old(self)@.can_move_down(),
        ensures
            final(self)@ == old(self)@.after_char(ch),
    {
        match ch {
            'q' | 'r' => {},
            'j' => self.next(),
            'k' => self.previous(),
            ' ' => self.toggle_selected(),
            'a' => self.toggle_all(),
            'c' => {
                self.selected.clear();
            },
            'x' => {
                self.running_only = !self.running_only;
                self.rebuild_filtered();
            },
            'o' => {
                self.sort_mode =
                match self.sort_mode {
                    SortMode::Severity => SortMode::NameAsc,
                    SortMode::NameAsc => SortMode::ActiveDesc,
                    SortMode::ActiveDesc => SortMode::Severity,
                };
                self.rebuild_filtered();
            },
            '/' => {
                self.status = "输入过滤字符；退格删除，Enter 确认，Esc 清空。".to_owned();
            },
            '1' => {
                self.panel = TuiPanel::Plan(OperationAction::Start);
            },
            '2' => {
                self.panel = TuiPanel::Plan(OperationAction::Stop);
            },
            '3' => {
                self.panel = TuiPanel::Plan(OperationAction::Restart);
            },
            '4' => {
                self.panel = TuiPanel::Plan(OperationAction::Remove);
            },
            '5' => {
                self.panel = TuiPanel::Plan(OperationAction::Purge);
            },
            'd' => {
                self.panel = TuiPanel::Doctor;
            },
            'i' => {
                self.panel = TuiPanel::Detail;
            },
            'h' | '?' => {
                self.panel = TuiPanel::Help;
            },
            _ => {
                if !is_control(ch) {
                    self.filter.push(ch);
                    self.rebuild_filtered();
                }
            },
        }
        assert(self@ == old(self)@.after_char(ch));
    }

    /// Does what a key asks for.
    pub fn handle_key<P: Fn(
        &DockerSnapshot,
        OperationAction,
        &Vec<String>,
    ) -> AppResult<OperationPlan>>(&mut self, code: KeyCode, planner: &P) -> (result: AppResult<
        Step,
    >)
        requires
            answers_always(*planner),
            old(self)@.takes_key(code),
        ensures
            key_handled(*planner, *old(self), code, final(self)@, result),
    {
        if self.execution_prompt.is_some() {
            return self.handle_execution_key(code, planner);
        }
        if self.context_menu.is_some() {
            self.handle_context_menu_key(code);
            return Ok(Step::Continue);
        }
        match code {
            KeyCode::Char('q') | KeyCode::Esc => Ok(Step::Quit),
            KeyCode::Char('r') => Ok(Step::Refresh),
            KeyCode::Char(ch) => {
                self.handle_char(ch);
                Ok(Step::Continue)
            },
            KeyCode::Down => {
                self.next();
                Ok(Step::Continue)
            },
            KeyCode::Up => {
                self.previous();
                Ok(Step::Continue)
            },
            KeyCode::Backspace => {
                self.filter.pop();
                self.rebuild_filtered();
                Ok(Step::Continue)
            },
            KeyCode::Enter => {
                if let TuiPanel::Plan(_) = self.panel {
                    begin_execution_prompt(self);
                } else {
                    self.panel = TuiPanel::Plan(OperationAction::Stop);
                }
                assert(self@ == old(self)@.after_key(code));
                Ok(Step::Continue)
            },
            KeyCode::Other => Ok(Step::Continue),
        }
    }

    /// Whether the cursor can move down without leaving the numbers of rows.
    fn cursor_can_move_down(&self) -> (yes: bool)
        ensures
            yes == self@.can_move_down(),
    {
        if self.filtered.is_empty() {
            return true;
        }
        match self.table_state.selected() {
            Some(index) => index < usize::MAX,
            None => true,
        }
    }

    /// Whether the event keeps the cursor and the selection of the menu within the numbers.
    pub fn can_take_event(&self, event: InputEvent) -> (yes: bool)
        ensures
            yes == self@.takes_event(event),
    {
        match event {
            InputEvent::Key { code: KeyCode::Down | KeyCode::Char('j'), pressed: true } => {
                if self.execution_prompt.is_some() {
                    return true;
                }
                match &self.context_menu {
                    Some(menu) => menu.selected_index < usize::MAX,
                    None => self.cursor_can_move_down(),
                }
            },
            InputEvent::Mouse { event, .. } => match event.kind {
                MouseEventKind::ScrollDown => self.cursor_can_move_down(),
                _ => true,
            },
            _ => true,
        }
    }

    /// Does what an event of the terminal asks for.
    pub fn handle_event<P: Fn(
        &DockerSnapshot,
        OperationAction,
        &Vec<String>,
    ) -> AppResult<OperationPlan>>(&mut self, event: InputEvent, planner: &P) -> (result: AppResult<
        Step,
    >)
        requires
            answers_always(*planner),
            old(self)@.takes_event(event),
        ensures
            event_handled(*planner, *old(self), event, final(self)@, result),
    {
        match event {
            InputEvent::Key { code, pressed } => {
                if pressed {
                    self.handle_key(code, planner)
                } else {
                    Ok(Step::Continue)
                }
            },
            InputEvent::Mouse { event, screen } => {
                self.handle_mouse(event, screen);
                Ok(Step::Continue)
            },
            InputEvent::Other => Ok(Step::Continue),
        }
    }
}

} // verus!
