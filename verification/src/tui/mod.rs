//! The dashboard: its state, what the mouse and the keys do to it, and what it shows.

pub mod dashboard;
pub mod deck;
pub mod input_laws;
pub mod keys;
pub mod laws;
pub mod layout;
pub mod list_laws;
pub mod menu;
pub mod mouse;
pub mod prompt;
pub mod screen;
pub mod view_laws;

pub use dashboard::{DashboardState, ExecutionPrompt, TableState};
pub use keys::{InputEvent, KeyCode, Step};
pub use layout::Rect;
pub use menu::{ContextMenuItem, ContextMenuState, TuiPanel};
pub use mouse::{
    apply_mouse_action, mouse_action_for_event, MouseAction, MouseButton, MouseEvent,
    MouseEventKind,
};
pub use prompt::{
    begin_execution_prompt, cancel_execution_prompt, execution_plan_if_confirmed,
    pop_execution_token, push_execution_token,
};
