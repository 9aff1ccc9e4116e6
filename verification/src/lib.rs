//! The verified core of a terminal dashboard for Docker projects.

pub mod domain;
pub mod inbox;
pub mod inbox_laws;
pub mod name_set;
pub mod resources;
pub mod text;
pub mod tui;
