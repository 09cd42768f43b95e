//! Synchronization bridge between a redraw-per-frame user interface and
//! workers that run long-lived, interactive reconciliation commands.
//!
//! The bridge consists of a bounded [`console::Console`] log shared between
//! the UI and the worker, the [`command_state::CommandState`] machine that
//! says what the system is doing right now, the interactive prompt protocol
//! a worker uses to suspend on an operator choice, and the single-flight
//! dispatch discipline that admits at most one command at a time.

pub mod command_state;
pub mod console;
pub mod cui;
pub mod decimal;
pub mod header_form;
pub mod navigation;
pub mod nonempty_string;
pub mod pages;
pub mod reconcile;
