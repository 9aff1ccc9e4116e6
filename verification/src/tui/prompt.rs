//! Confirming an operation before it is carried out.

use vstd::prelude::*;
use vstd::string::*;

use crate::domain::{
    AppResult, DockerSnapshot, OperationAction, OperationPlan, PlanModel,
};
use crate::tui::dashboard::{answers_always, is_reply};
use crate::tui::dashboard::{DashboardModel, DashboardState, ExecutionPrompt, PromptModel};
use crate::tui::menu::TuiPanel;

verus! {

/// The name of an operation.
pub open spec fn label(action: OperationAction) -> Seq<char> {
    match action {
        OperationAction::Start => "Start"@,
        OperationAction::Stop => "Stop"@,
        OperationAction::Restart => "Restart"@,
        OperationAction::Remove => "Remove"@,
        OperationAction::Purge => "Purge"@,
        OperationAction::Prune => "Prune"@,
        OperationAction::Rescue => "Rescue"@,
    }
}

/// Whether an operation destroys something.
pub open spec fn destructive(action: OperationAction) -> bool {
    action is Remove || action is Purge || action is Prune
}

/// The name of an operation.
pub fn operation_label(action: OperationAction) -> (text: &'static str)
    ensures
        text@ == label(action),
{
    match action {
        OperationAction::Start => "Start",
        OperationAction::Stop => "Stop",
        OperationAction::Restart => "Restart",
        OperationAction::Remove => "Remove",
        OperationAction::Purge => "Purge",
        OperationAction::Prune => "Prune",
        OperationAction::Rescue => "Rescue",
    }
}

/// Whether an operation destroys something.
pub fn is_destructive_action(action: OperationAction) -> (yes: bool)
    ensures
        yes == destructive(action),
{
    matches!(
        action,
        OperationAction::Remove | OperationAction::Purge | OperationAction::Prune
    )
}

/// What the command bar says when the prompt for `action` opens.
pub open spec fn prompt_status(action: OperationAction) -> Seq<char> {
    if destructive(action) {
        "输入确认令牌后按 Enter 执行，Esc 取消。"@
    } else {
        "再次按 Enter 执行 "@ + label(action) + "，Esc 取消。"@
    }
}

impl DashboardModel {
    /// The state with the prompt open for the plan that is shown; unchanged where no plan is.
    pub open spec fn with_prompt(self) -> DashboardModel {
        match self.panel {
            TuiPanel::Plan(action) => DashboardModel {
                context_menu: None,
                execution_prompt: Some(PromptModel { action, token_input: Seq::empty() }),
                status: prompt_status(action),
                ..self
            },
            _ => self,
        }
    }

    /// The state with the prompt closed.
    pub open spec fn without_prompt(self) -> DashboardModel {
        DashboardModel { execution_prompt: None, status: "已取消 TUI 执行。"@, ..self }
    }

    /// The state with `input` typed into the prompt; unchanged where none is open.
    pub open spec fn with_input(self, input: Seq<char>) -> DashboardModel {
        match self.execution_prompt {
            Some(prompt) => DashboardModel {
                execution_prompt: Some(PromptModel { token_input: input, ..prompt }),
                ..self
            },
            None => self,
        }
    }

    /// What was typed into the prompt.
    pub open spec fn input(self) -> Seq<char> {
        match self.execution_prompt {
            Some(prompt) => prompt.token_input,
            None => Seq::empty(),
        }
    }
}

/// The text without its last character.
pub open spec fn shortened(s: Seq<char>) -> Seq<char> {
    if s.len() > 0 {
        s.drop_last()
    } else {
        s
    }
}

/// Opens the prompt for the plan that is shown.
pub fn begin_execution_prompt(state: &mut DashboardState)
    ensures
        final(state)@ == old(state)@.with_prompt(),
{
    if let TuiPanel::Plan(action) = state.panel {
        state.context_menu = None;
        state.execution_prompt = Some(ExecutionPrompt { action, token_input: String::new() });
        if is_destructive_action(action) {
            state.status = "输入确认令牌后按 Enter 执行，Esc 取消。".to_owned();
        } else {
            state.status =
            "再次按 Enter 执行 ".to_owned().concat(operation_label(action)).concat("，Esc 取消。");
        }
        assert(state@ == old(state)@.with_prompt());
    }
}

/// Closes the prompt.
pub fn cancel_execution_prompt(state: &mut DashboardState)
    ensures
        final(state)@ == old(state)@.without_prompt(),
{
    state.execution_prompt = None;
    state.status = "已取消 TUI 执行。".to_owned();
    assert(state@ == old(state)@.without_prompt());
}

/// Types a character into the prompt.
pub fn push_execution_token(state: &mut DashboardState, ch: char)
    ensures
        final(state)@ == old(state)@.with_input(old(state)@.input().push(ch)),
{
    match &mut state.execution_prompt {
        Some(prompt) => {
            prompt.token_input.push(ch);
        },
        None => {},
    }
    assert(state@ == old(state)@.with_input(old(state)@.input().push(ch)));
}

/// Takes the last character out of the prompt.
pub fn pop_execution_token(state: &mut DashboardState)
    ensures
        final(state)@ == old(state)@.with_input(shortened(old(state)@.input())),
{
    match &mut state.execution_prompt {
        Some(prompt) => {
            prompt.token_input.pop();
        },
        None => {},
    }
    assert(state@ == old(state)@.with_input(shortened(old(state)@.input())));
}

/// Whether what was typed confirms the plan: it is the plan's token, where it has one.
pub open spec fn confirms(input: Seq<char>, plan: PlanModel) -> bool {
    match plan.confirmation_token {
        Some(token) => input == token,
        None => true,
    }
}

/// What becomes of the planner's reply: the plan where it is confirmed, nothing where it is
/// not, and the planner's failure as it is.
pub open spec fn settled(
    input: Seq<char>,
    reply: AppResult<OperationPlan>,
) -> AppResult<Option<OperationPlan>> {
    match reply {
        Ok(plan) => Ok(if confirms(input, plan@) { Some(plan) } else { None }),
        Err(e) => Err(e),
    }
}

/// What becomes of the planner's reply, given what was typed.
pub fn confirm_plan(input: &String, reply: AppResult<OperationPlan>) -> (result: AppResult<
    Option<OperationPlan>,
>)
    ensures
        result == settled(input@, reply),
{
    match reply {
        Ok(plan) => {
            let confirmed = match &plan.confirmation_token {
                Some(token) => *token == *input,
                None => true,
            };
            if confirmed {
                Ok(Some(plan))
            } else {
                Ok(None)
            }
        },
        Err(e) => Err(e),
    }
}

/// The plan to be carried out: none without an open prompt, else what becomes of the
/// planner's reply to the question for a plan of the prompt's action on the targets.
pub fn execution_plan_if_confirmed<P: Fn(
    &DockerSnapshot,
    OperationAction,
    &Vec<String>,
) -> AppResult<OperationPlan>>(state: &DashboardState, planner: &P) -> (result: AppResult<
    Option<OperationPlan>,
>)
    requires
        answers_always(*planner),
    ensures
        match state@.execution_prompt {
            None => result == Ok::<Option<OperationPlan>, crate::domain::AppError>(None),
            Some(prompt) => exists|reply: AppResult<OperationPlan>|
                is_reply(*planner, *state, prompt.action, reply) && result == #[trigger] settled(
                    prompt.token_input,
                    reply,
                ),
        },
{
    match &state.execution_prompt {
        None => Ok(None),
        Some(prompt) => {
            let reply = state.plan_for(planner, prompt.action);
            let result = confirm_plan(&prompt.token_input, reply);
            assert(result == settled(prompt@.token_input, reply));
            result
        },
    }
}

} // verus!
