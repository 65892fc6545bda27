//! Break-reminder scheduling: a settings store that announces every edit, and
//! one polling scheduler per reminder kind that follows those edits and
//! decides when a reminder is due.

pub mod reminder;
pub mod shared_state;
pub mod change_bus;
pub mod scheduler;
pub mod guarantees;
pub mod form;
