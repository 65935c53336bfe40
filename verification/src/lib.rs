//! Scheduling and execution engine of a personal task scheduler.
//!
//! Users define named shell commands with a recurrence interval. The engine
//! decides when a task is due, keeps one execution per task in flight at most,
//! records outcomes in a bounded log and says what has to be persisted. All
//! state changes go through one sequential controller, [`state::TaskWithMe`].

pub mod clock;
pub mod engine;
pub mod error;
pub mod events;
pub mod invariants;
pub mod lists;
pub mod model;
pub mod persist;
pub mod present;
pub mod schedule;
pub mod state;
pub mod templates;
pub mod text;
pub mod transitions;

pub use crate::error::AppError;
pub use crate::events::{Effect, Message};
pub use crate::model::{
    AppTheme, Config, ExecutionLog, ExecutionResult, Notification, NotificationLevel, Screen, Task,
    TaskFilter,
};
pub use crate::state::TaskWithMe;
pub use crate::templates::{get_templates, Platform, TaskTemplate};
