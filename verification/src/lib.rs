//! Process execution for background tasks: the progress vocabulary, the
//! decisions of the executor in its three modes, and the blocker that keeps
//! the terminal with one job at a time.

pub mod blocker;
pub mod foreground;
pub mod laws;
pub mod op;
pub mod options;
pub mod process;
pub mod prog;
pub mod session;
pub mod text;
pub mod trace;
