//! Reminder scheduling and task-state engine for a rotating household duty.
//!
//! A rotating set of household members is reminded to put out the trash.
//! The library holds the rules: who is responsible on a given date, when the
//! scheduler acts next, how the shared task state moves between its phases
//! when the scheduler ticks or the responsible member answers, and what is
//! said to whom. Sending, fetching and sleeping are left to the caller.

pub mod answer_handler;
pub mod calendar;
pub mod config;
pub mod data_grabber;
pub mod database;
pub mod email;
pub mod error;
pub mod rotation;
pub mod scheduler;
pub mod task_state;
pub mod telegram_writer;
pub mod text;
